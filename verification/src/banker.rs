//! The banking client: its interaction plan and its protocol checks.
//!
//! The banker drives the sample server through a seed-derived plan of
//! protocol actions and holds the server's replies against what the consumed
//! prefix of the plan promises.

use vstd::prelude::*;

use crate::bank::{
    find_transaction, find_transaction_in, transaction_parse_spec, transaction_from_text,
    Transaction,
};
use crate::money::cents_parse_spec;
use crate::plan::InteractionPlan;
use crate::rng::Rng;
use crate::server::not_found_text;
use crate::text::{find_byte_from, find_index, lemma_find_index_props};
use vstd::string::StrSliceExecFns;

verus! {

/// One protocol action of the banking client.
#[derive(Clone, Copy, Debug, PartialEq, Eq, Structural)]
pub enum Interaction {
    /// Advance virtual time by this many milliseconds before continuing.
    Sleep(u64),
    ListTransactions,
    GetTransaction { id: i32 },
    CreateTransaction { amount: i128 },
    VoidTransaction { id: i32 },
    GetBalance,
}

/// What the plan knows of the world it has driven: the identifiers its
/// creations will take, in order.
pub struct InteractionPlanContext {
    pub curr_id: i32,
    pub transactions: Vec<Transaction>,
}

impl InteractionPlanContext {
    pub fn new() -> (r: Self)
        ensures
            r.curr_id == 1,
            r.transactions@.len() == 0,
    {
        InteractionPlanContext { curr_id: 1, transactions: Vec::new() }
    }

    /// The entities the consumed plan has created so far.
    pub fn get_transactions(&self) -> (r: &Vec<Transaction>)
        ensures
            r@ == self.transactions@,
    {
        &self.transactions
    }
}

/// The mathematical state of a banker plan.
pub struct BankerPlanModel {
    pub curr_id: i32,
    pub known: Seq<Transaction>,
    pub cursor: int,
    pub plan: Seq<Interaction>,
}

/// The banking client's plan.
pub struct BankerInteractionPlan {
    pub context: InteractionPlanContext,
    pub step: u64,
    pub plan: Vec<Interaction>,
}

impl View for BankerInteractionPlan {
    type V = BankerPlanModel;

    open spec fn view(&self) -> BankerPlanModel {
        BankerPlanModel {
            curr_id: self.context.curr_id,
            known: self.context.transactions@,
            cursor: self.step as int,
            plan: self.plan@,
        }
    }
}

/// Appending one action: a creation records the entity it will make and
/// claims the next identifier; voiding a known entity records the opposite
/// entry the server will create.
pub open spec fn banker_add_spec(m: BankerPlanModel, i: Interaction) -> BankerPlanModel
    recommends
        m.curr_id < i32::MAX,
{
    match i {
        Interaction::CreateTransaction { amount } => BankerPlanModel {
            known: m.known.push(Transaction { id: m.curr_id, amount, created_at: 0 }),
            curr_id: (m.curr_id + 1) as i32,
            plan: m.plan.push(i),
            ..m
        },
        Interaction::VoidTransaction { id } => match find_transaction(m.known, id) {
            Some(existing) => BankerPlanModel {
                known: m.known.push(
                    Transaction { id: m.curr_id, amount: existing.amount, created_at: 0 },
                ),
                curr_id: (m.curr_id + 1) as i32,
                plan: m.plan.push(i),
                ..m
            },
            None => BankerPlanModel { plan: m.plan.push(i), ..m },
        },
        _ => BankerPlanModel { plan: m.plan.push(i), ..m },
    }
}

/// The identifier a lookup action draws: a known entity when there is one,
/// else an arbitrary 32-bit value.
pub open spec fn banker_pick_id(m: BankerPlanModel, s: u64) -> i32 {
    if m.known.len() > 0 {
        m.known[Rng::range_value(s, 0, m.known.len() as u64) as int].id
    } else {
        Rng::draw_value(s) as i32
    }
}

/// The span amounts are drawn from: up to ten billion monetary units either
/// way, in cents.
pub const AMOUNT_SPAN: u64 = 20_000_000_000_001;

/// Generating one action: a kind drawn uniformly from the six, then its
/// parameter from the following draw.
pub open spec fn banker_gen_one_spec(m: BankerPlanModel, s: u64) -> (BankerPlanModel, u64)
    recommends
        m.curr_id < i32::MAX,
{
    let kind = Rng::range_value(s, 0, 6);
    let s1 = Rng::state_after_draw(s);
    if kind == 0 {
        let millis = Rng::range_value(s1, 0, 100_000);
        (banker_add_spec(m, Interaction::Sleep(millis)), Rng::state_after_draw(s1))
    } else if kind == 1 {
        (banker_add_spec(m, Interaction::ListTransactions), s1)
    } else if kind == 2 {
        let id = banker_pick_id(m, s1);
        (banker_add_spec(m, Interaction::GetTransaction { id }), Rng::state_after_draw(s1))
    } else if kind == 3 {
        let amount = (Rng::range_value(s1, 0, AMOUNT_SPAN) - 10_000_000_000_000) as i128;
        (
            banker_add_spec(m, Interaction::CreateTransaction { amount }),
            Rng::state_after_draw(s1),
        )
    } else if kind == 4 {
        let id = banker_pick_id(m, s1);
        (banker_add_spec(m, Interaction::VoidTransaction { id }), Rng::state_after_draw(s1))
    } else {
        (banker_add_spec(m, Interaction::GetBalance), s1)
    }
}

/// Generating `count` actions in sequence.
pub open spec fn banker_gen_spec(m: BankerPlanModel, s: u64, count: u64) -> (BankerPlanModel, u64)
    decreases count,
{
    if count == 0 {
        (m, s)
    } else {
        let (m1, s1) = banker_gen_one_spec(m, s);
        banker_gen_spec(m1, s1, (count - 1) as u64)
    }
}

impl BankerInteractionPlan {
    pub fn new() -> (r: Self)
        ensures
            r@.curr_id == 1,
            r@.known.len() == 0,
            r@.cursor == 0,
            r@.plan.len() == 0,
    {
        BankerInteractionPlan { context: InteractionPlanContext::new(), step: 0, plan: Vec::new() }
    }

    /// The next planned action, advancing the cursor past it.
    pub fn step(&mut self) -> (r: Option<&Interaction>)
        ensures
            old(self)@.cursor < old(self)@.plan.len() ==> {
                &&& r == Some(&old(self).plan[old(self)@.cursor as int])
                &&& final(self)@ == (BankerPlanModel { cursor: old(self)@.cursor + 1, ..old(self)@ })
            },
            old(self)@.cursor >= old(self)@.plan.len() ==> r is None && *final(self) == *old(self),
    {
        if self.step < self.plan.len() as u64 {
            let i = self.step as usize;
            self.step = self.step + 1;
            Some(&self.plan[i])
        } else {
            None
        }
    }

    /// Append one action, updating the context.
    pub fn add_interaction(&mut self, interaction: Interaction)
        requires
            old(self)@.curr_id < i32::MAX,
        ensures
            final(self)@ == banker_add_spec(old(self)@, interaction),
    {
        match interaction {
            Interaction::CreateTransaction { amount } => {
                self.context.transactions.push(
                    Transaction { id: self.context.curr_id, amount, created_at: 0 },
                );
                self.context.curr_id = self.context.curr_id + 1;
            },
            Interaction::VoidTransaction { id } => {
                match find_transaction_in(&self.context.transactions, id) {
                    Some(existing) => {
                        self.context.transactions.push(
                            Transaction {
                                id: self.context.curr_id,
                                amount: existing.amount,
                                created_at: 0,
                            },
                        );
                        self.context.curr_id = self.context.curr_id + 1;
                    },
                    None => {},
                }
            },
            _ => {},
        }
        self.plan.push(interaction);
    }

    /// Append one given action, fluently.
    pub fn with_interaction(self, interaction: Interaction) -> (r: Self)
        requires
            self@.curr_id < i32::MAX,
        ensures
            r@ == banker_add_spec(self@, interaction),
    {
        let mut p = self;
        p.add_interaction(interaction);
        p
    }

    /// Append exactly `count` pseudo-random actions, drawn from the given
    /// generator. The result is a pure function of the plan's state and the
    /// generator's, which is what makes plans restartable.
    pub fn gen_interactions(&mut self, rng: &mut Rng, count: u64)
        requires
            old(self)@.curr_id + count <= i32::MAX,
        ensures
            (final(self)@, final(rng).state_spec()) == banker_gen_spec(
                old(self)@,
                old(rng).state_spec(),
                count,
            ),
    {
        let mut k: u64 = 0;
        while k < count
            invariant
                0 <= k <= count,
                self@.curr_id + (count - k) <= i32::MAX,
                banker_gen_spec(old(self)@, old(rng).state_spec(), count) == banker_gen_spec(
                    self@,
                    rng.state_spec(),
                    (count - k) as u64,
                ),
            decreases count - k,
        {
            let ghost pre = self@;
            let ghost pre_s = rng.state_spec();
            let kind = rng.gen_range(0, 6);
            if kind == 0 {
                let millis = rng.gen_range(0, 100_000);
                self.add_interaction(Interaction::Sleep(millis));
            } else if kind == 1 {
                self.add_interaction(Interaction::ListTransactions);
            } else if kind == 2 {
                let id = self.pick_id(rng);
                self.add_interaction(Interaction::GetTransaction { id });
            } else if kind == 3 {
                let raw = rng.gen_range(0, AMOUNT_SPAN);
                let amount = (raw as i128) - 10_000_000_000_000;
                self.add_interaction(Interaction::CreateTransaction { amount });
            } else if kind == 4 {
                let id = self.pick_id(rng);
                self.add_interaction(Interaction::VoidTransaction { id });
            } else {
                self.add_interaction(Interaction::GetBalance);
            }
            k = k + 1;
            proof {
                assert((self@, rng.state_spec()) == banker_gen_one_spec(pre, pre_s));
            }
        }
    }

    /// The identifier a lookup draws: a known entity when there is one, else
    /// an arbitrary value.
    fn pick_id(&self, rng: &mut Rng) -> (r: i32)
        ensures
            r == banker_pick_id(self@, old(rng).state_spec()),
            final(rng).state_spec() == Rng::state_after_draw(old(rng).state_spec()),
    {
        if self.context.transactions.len() > 0 {
            let pick = rng.gen_range(0, self.context.transactions.len() as u64);
            self.context.transactions[pick as usize].id
        } else {
            rng.draw_u64() as i32
        }
    }

    /// Generate `count` actions, fluently.
    pub fn with_gen_interactions(self, rng: &mut Rng, count: u64) -> (r: Self)
        requires
            self@.curr_id + count <= i32::MAX,
        ensures
            (r@, final(rng).state_spec()) == banker_gen_spec(self@, old(rng).state_spec(), count),
    {
        let mut p = self;
        p.gen_interactions(rng, count);
        p
    }
}

/// Plan restartability: rebuilding a plan from the same starting state and
/// the same generator state — as a reset followed by generation does —
/// yields element-equal plans, the same context, and the same following
/// generator state.
pub proof fn lemma_plan_restartability(
    m1: BankerPlanModel,
    s1: u64,
    m2: BankerPlanModel,
    s2: u64,
    count: u64,
)
    requires
        m1 == m2,
        s1 == s2,
    ensures
        banker_gen_spec(m1, s1, count) == banker_gen_spec(m2, s2, count),
        banker_gen_spec(m1, s1, count).0.plan == banker_gen_spec(m2, s2, count).0.plan,
{
}

/// What a list reply parses to, reading from position `from` on: one
/// transaction per line, every line well-formed — an empty or malformed line
/// spoils the whole reply.
pub open spec fn client_lines_from(s: Seq<u8>, from: int) -> Option<Seq<Transaction>>
    decreases s.len() - from + 1,
    via client_lines_from_dec
{
    let line_end = match find_index(s, 10, from) {
        Some(p) => p,
        None => s.len() as int,
    };
    match transaction_parse_spec(s.subrange(from, line_end)) {
        None => None,
        Some(t) => if line_end == s.len() {
            Some(seq![t])
        } else {
            match client_lines_from(s, line_end + 1) {
                Some(ts) => Some(seq![t] + ts),
                None => None,
            }
        },
    }
}

#[via_fn]
proof fn client_lines_from_dec(s: Seq<u8>, from: int) {
    if 0 <= from {
        lemma_find_index_props(s, 10, from);
    }
}

/// Parse a list reply from position `from` on.
fn parse_client_lines(msg: &Vec<u8>, from: usize) -> (r: Option<Vec<Transaction>>)
    requires
        from <= msg@.len(),
    ensures
        match client_lines_from(msg@, from as int) {
            Some(ts) => r is Some && r->0@ == ts,
            None => r is None,
        },
    decreases msg@.len() - from,
{
    let line_end = match find_byte_from(msg, 10, from) {
        Some(p) => {
            proof {
                lemma_find_index_props(msg@, 10, from as int);
            }
            p
        },
        None => msg.len(),
    };
    let line = crate::text::sub_bytes(msg, from, line_end);
    let t = match transaction_from_text(&line) {
        Some(t) => t,
        None => {
            return None;
        },
    };
    if line_end == msg.len() {
        let mut v: Vec<Transaction> = Vec::new();
        v.push(t);
        proof {
            assert(v@ =~= seq![t]);
        }
        Some(v)
    } else {
        match parse_client_lines(msg, line_end + 1) {
            Some(ts) => {
                let mut v: Vec<Transaction> = Vec::new();
                v.push(t);
                let mut rest = ts;
                v.append(&mut rest);
                proof {
                    assert(v@ =~= seq![t] + client_lines_from(msg@, line_end + 1)->0);
                }
                Some(v)
            },
            None => None,
        }
    }
}

/// Whether some listed transaction carries the given amount.
pub open spec fn amount_present(ts: Seq<Transaction>, amount: i128) -> bool {
    exists|i: int| 0 <= i < ts.len() && ts[i].amount == amount
}

/// The first expected amount that no listed transaction carries.
pub open spec fn first_missing_amount(ts: Seq<Transaction>, expected: Seq<i128>) -> Option<i128>
    decreases expected.len(),
{
    if expected.len() == 0 {
        None
    } else if !amount_present(ts, expected[0]) {
        Some(expected[0])
    } else {
        first_missing_amount(ts, expected.skip(1))
    }
}

/// What a list reply shows against the consumed plan prefix.
#[derive(Clone, Copy, Debug, PartialEq, Eq, Structural)]
pub enum ListCheck {
    /// Every expected creation is covered by a listed amount.
    AllPresent,
    /// The reply did not parse as transactions.
    Malformed,
    /// Fewer transactions listed than the prefix created.
    TooFew,
    /// This created amount is missing from the listing.
    Missing { amount: i128 },
}

/// The amounts the consumed plan prefix (the first `upto` actions) created.
pub open spec fn created_amounts(plan: Seq<Interaction>, upto: int) -> Seq<i128>
    decreases upto,
{
    if upto <= 0 || plan.len() < upto {
        Seq::<i128>::empty()
    } else {
        created_amounts(plan, upto - 1) + (match plan[upto - 1] {
            Interaction::CreateTransaction { amount } => seq![amount],
            _ => Seq::<i128>::empty(),
        })
    }
}

impl BankerInteractionPlan {
    /// The amounts the consumed prefix of this plan has created.
    pub fn consumed_created_amounts(&self) -> (r: Vec<i128>)
        requires
            self@.cursor <= self@.plan.len(),
        ensures
            r@ == created_amounts(self@.plan, self@.cursor),
    {
        let mut r: Vec<i128> = Vec::new();
        let mut i: usize = 0;
        while i < self.plan.len() && (i as u64) < self.step
            invariant
                0 <= i <= self@.plan.len(),
                i <= self@.cursor <= self@.plan.len(),
                r@ == created_amounts(self@.plan, i as int),
            decreases self@.plan.len() - i,
        {
            match self.plan[i] {
                Interaction::CreateTransaction { amount } => {
                    r.push(amount);
                },
                _ => {},
            }
            i = i + 1;
            proof {
                assert(r@ =~= created_amounts(self@.plan, i as int));
            }
        }
        proof {
            assert(i == self@.cursor);
        }
        r
    }
}

/// Hold a list reply against the amounts the consumed plan prefix created:
/// the reply must parse, list at least as many transactions as were created,
/// and cover every created amount.
pub fn check_list_response(msg: &Vec<u8>, expected: &Vec<i128>) -> (r: ListCheck)
    ensures
        match client_lines_from(msg@, 0) {
            None => r == ListCheck::Malformed,
            Some(ts) => if ts.len() < expected@.len() {
                r == ListCheck::TooFew
            } else {
                match first_missing_amount(ts, expected@) {
                    Some(a) => r == (ListCheck::Missing { amount: a }),
                    None => r == ListCheck::AllPresent,
                }
            },
        },
{
    let ts = match parse_client_lines(msg, 0) {
        Some(ts) => ts,
        None => {
            return ListCheck::Malformed;
        },
    };
    if ts.len() < expected.len() {
        return ListCheck::TooFew;
    }
    let ghost whole_expected = expected@;
    let mut j: usize = 0;
    proof {
        assert(expected@.skip(0) =~= expected@);
    }
    while j < expected.len()
        invariant
            0 <= j <= expected@.len(),
            client_lines_from(msg@, 0) == Some(ts@),
            ts@.len() >= expected@.len(),
            first_missing_amount(ts@, expected@) == first_missing_amount(
                ts@,
                expected@.skip(j as int),
            ),
        decreases expected@.len() - j,
    {
        let a = expected[j];
        let mut found = false;
        let mut i: usize = 0;
        while i < ts.len()
            invariant
                0 <= i <= ts@.len(),
                found <==> exists|k: int| 0 <= k < i && ts@[k].amount == a,
            decreases ts@.len() - i,
        {
            if ts[i].amount == a {
                found = true;
            }
            i = i + 1;
        }
        proof {
            assert(expected@.skip(j as int)[0] == expected@[j as int]);
        }
        if !found {
            proof {
                assert(!amount_present(ts@, a));
                assert(first_missing_amount(ts@, expected@.skip(j as int)) == Some(a));
            }
            return ListCheck::Missing { amount: a };
        }
        proof {
            assert(amount_present(ts@, a));
            assert(expected@.skip(j as int).skip(1) =~= expected@.skip(j as int + 1));
        }
        j = j + 1;
    }
    proof {
        assert(expected@.skip(j as int).len() == 0);
    }
    ListCheck::AllPresent
}

/// Hold a lookup reply against the identifier asked for: either no record
/// carries it, or the reply parses back to a record carrying exactly it.
pub fn check_get_transaction_response(msg: &Vec<u8>, id: i32) -> (r: bool)
    ensures
        r == (msg@ == not_found_text() || (transaction_parse_spec(msg@) matches Some(t) && t.id
            == id)),
{
    if crate::text::bytes_eq(msg, &"Transaction not found".as_bytes_vec()) {
        return true;
    }
    match transaction_from_text(msg) {
        Some(t) => t.id == id,
        None => false,
    }
}

/// Hold a creation reply: it must parse as a transaction record.
pub fn check_create_response(msg: &Vec<u8>) -> (r: bool)
    ensures
        r == (transaction_parse_spec(msg@) is Some),
{
    match transaction_from_text(msg) {
        Some(_) => true,
        None => false,
    }
}

/// Hold a balance reply: a dollar sign followed by a parseable amount.
pub fn check_balance_response(msg: &Vec<u8>) -> (r: bool)
    ensures
        r == (msg@.len() >= 1 && msg@[0] == 36 && cents_parse_spec(msg@.skip(1)) is Some),
{
    if msg.len() < 1 || msg[0] != 36 {
        return false;
    }
    let rest = crate::text::sub_bytes(msg, 1, msg.len());
    proof {
        assert(rest@ =~= msg@.skip(1));
    }
    match crate::money::parse_cents(&rest) {
        Some(_) => true,
        None => false,
    }
}

/// The base reply timeout, in seconds.
pub const REPLY_TIMEOUT_SECONDS: u64 = 10;

/// How long the client waits for an interaction to finish before failing the
/// run: the base timeout, the planned sleep when there is one, and a step's
/// worth of slack, all in milliseconds.
pub fn interaction_timeout_millis(interaction: &Interaction, step_multiplier: u64) -> (r: u64)
    requires
        step_multiplier <= 1_000_000,
        interaction matches Interaction::Sleep(d) ==> d <= 1_000_000_000,
    ensures
        r == REPLY_TIMEOUT_SECONDS * 1000 + (match *interaction {
            Interaction::Sleep(d) => d,
            _ => 0u64,
        }) + step_multiplier * 1000,
{
    let sleep_part = match interaction {
        Interaction::Sleep(d) => *d,
        _ => 0,
    };
    REPLY_TIMEOUT_SECONDS * 1000 + sleep_part + step_multiplier * 1000
}

impl InteractionPlan<Interaction> for BankerInteractionPlan {
    open spec fn can_generate(&self, count: u64) -> bool {
        self@.curr_id + count <= i32::MAX
    }

    fn new() -> Self {
        BankerInteractionPlan::new()
    }

    fn with_gen_interactions(self, rng: &mut Rng, count: u64) -> Self {
        BankerInteractionPlan::with_gen_interactions(self, rng, count)
    }

    fn step(&mut self) -> Option<&Interaction> {
        BankerInteractionPlan::step(self)
    }

    fn gen_interactions(&mut self, rng: &mut Rng, count: u64) {
        BankerInteractionPlan::gen_interactions(self, rng, count)
    }

    fn with_interaction(self, interaction: Interaction) -> Self {
        BankerInteractionPlan::with_interaction(self, interaction)
    }

    fn add_interaction(&mut self, interaction: Interaction) {
        BankerInteractionPlan::add_interaction(self, interaction)
    }
}

} // verus!
