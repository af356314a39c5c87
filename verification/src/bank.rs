//! The sample banking service's ledger and its wire format.
//!
//! A transaction is rendered as `id=N created_at=S amount=$D.DD` and parsed
//! back from the same shape. The ledger holds the transactions of one run,
//! hands out strictly increasing identifiers, and tracks the balance as the
//! sum of the amounts it has accepted.

use vstd::prelude::*;
use vstd::string::StrSliceExecFns;
use vstd::string::StringSliceAdditionalSpecFns;

use crate::money::{cents_parse_spec, cents_text, format_cents, parse_cents, MAX_CENT_UNITS};
use crate::text::{
    find_byte_from, find_index, i32_text, i64_text, int_parse_spec, int_text,
    lemma_find_index_at, lemma_find_index_props, parse_i32, parse_i64, sub_bytes,
};

verus! {

/// One ledger entry: an identifier, an amount in cents, and the virtual
/// second it was created at.
#[derive(Clone, Copy, Debug, PartialEq, Eq, Structural)]
pub struct Transaction {
    pub id: i32,
    pub amount: i128,
    pub created_at: i64,
}

pub open spec fn id_label() -> Seq<u8> {
    "id=".spec_bytes()
}

pub open spec fn created_at_label() -> Seq<u8> {
    "created_at=".spec_bytes()
}

pub open spec fn amount_label() -> Seq<u8> {
    "amount=$".spec_bytes()
}

/// The byte values of the three labels, pinned once so that parsing proofs
/// can reason about their shape.
pub proof fn lemma_label_bytes()
    ensures
        id_label() =~= seq![105u8, 100u8, 61u8],
        created_at_label() =~= seq![
            99u8, 114u8, 101u8, 97u8, 116u8, 101u8, 100u8, 95u8, 97u8, 116u8, 61u8,
        ],
        amount_label() =~= seq![97u8, 109u8, 111u8, 117u8, 110u8, 116u8, 61u8, 36u8],
{
    reveal_strlit("id=");
    reveal_strlit("created_at=");
    reveal_strlit("amount=$");
    broadcast use vstd::string::is_ascii_spec_bytes;

    assert("id=".is_ascii());
    assert("created_at=".is_ascii());
    assert("amount=$".is_ascii());
}

/// The rendering of a transaction.
pub open spec fn transaction_text(t: Transaction) -> Seq<u8> {
    id_label() + int_text(t.id as int) + seq![32u8] + created_at_label() + int_text(
        t.created_at as int,
    ) + seq![32u8] + amount_label() + cents_text(t.amount as int)
}

/// Render a transaction.
pub fn format_transaction(t: &Transaction) -> (r: Vec<u8>)
    requires
        t.created_at != i64::MIN,
        t.amount != i128::MIN,
    ensures
        r@ == transaction_text(*t),
{
    let mut r = "id=".as_bytes_vec();
    let mut part = i32_text(t.id);
    r.append(&mut part);
    let mut sep1 = " created_at=".as_bytes_vec();
    r.append(&mut sep1);
    let mut part2 = i64_text(t.created_at);
    r.append(&mut part2);
    let mut sep2 = " amount=$".as_bytes_vec();
    r.append(&mut sep2);
    let mut part3 = format_cents(t.amount);
    r.append(&mut part3);
    proof {
        reveal_strlit("id=");
        reveal_strlit(" created_at=");
        reveal_strlit("created_at=");
        reveal_strlit(" amount=$");
        reveal_strlit("amount=$");
        broadcast use vstd::string::is_ascii_spec_bytes;

        assert("id=".is_ascii());
        assert(" created_at=".is_ascii());
        assert("created_at=".is_ascii());
        assert(" amount=$".is_ascii());
        assert("amount=$".is_ascii());
        assert(" created_at=".spec_bytes() =~= seq![32u8] + created_at_label());
        assert(" amount=$".spec_bytes() =~= seq![32u8] + amount_label());
        assert(r@ =~= transaction_text(*t));
    }
    r
}

/// What a transaction text parses to. The identifier runs from the first
/// label to the first space; the creation time from the second label to the
/// next space; the amount from the third label to the following space or the
/// end. A malformed label, a malformed number, or a value out of range
/// parses to nothing.
pub open spec fn transaction_parse_spec(s: Seq<u8>) -> Option<Transaction> {
    if !(s.len() >= 3 && s.take(3) == id_label()) {
        None
    } else {
        match find_index(s, 32, 3) {
            None => None,
            Some(p1) => {
                let id_v = int_parse_spec(s.subrange(3, p1));
                if !(id_v is Some && i32::MIN <= id_v->0 <= i32::MAX) {
                    None
                } else if !(s.len() >= p1 + 12 && s.subrange(p1 + 1, p1 + 12)
                    == created_at_label()) {
                    None
                } else {
                    match find_index(s, 32, p1 + 12) {
                        None => None,
                        Some(p2) => {
                            let ca_v = int_parse_spec(s.subrange(p1 + 12, p2));
                            if !(ca_v is Some && i64::MIN <= ca_v->0 <= i64::MAX) {
                                None
                            } else if !(s.len() >= p2 + 9 && s.subrange(p2 + 1, p2 + 9)
                                == amount_label()) {
                                None
                            } else {
                                let amt_end = match find_index(s, 32, p2 + 9) {
                                    Some(p3) => p3,
                                    None => s.len() as int,
                                };
                                match cents_parse_spec(s.subrange(p2 + 9, amt_end)) {
                                    None => None,
                                    Some(a) => Some(
                                        Transaction {
                                            id: id_v->0 as i32,
                                            amount: a as i128,
                                            created_at: ca_v->0 as i64,
                                        },
                                    ),
                                }
                            }
                        },
                    }
                }
            },
        }
    }
}

/// Where the spaces of a rendered transaction sit, and what stands between
/// them.
#[verifier::rlimit(100)]
#[verifier::spinoff_prover]
proof fn lemma_transaction_text_parts(t: Transaction)
    requires
        t.created_at != i64::MIN,
        -(MAX_CENT_UNITS * 100) < t.amount < MAX_CENT_UNITS * 100,
    ensures
        ({
            let s = transaction_text(t);
            let a = int_text(t.id as int);
            let b = int_text(t.created_at as int);
            let c = cents_text(t.amount as int);
            let p1 = 3 + a.len() as int;
            let p2 = p1 + 12 + b.len() as int;
            &&& s.len() == p2 + 9 + c.len()
            &&& s.len() >= 3 && s.take(3) == id_label()
            &&& find_index(s, 32, 3) == Some(p1)
            &&& s.subrange(3, p1) == a
            &&& s.len() >= p1 + 12 && s.subrange(p1 + 1, p1 + 12) == created_at_label()
            &&& find_index(s, 32, p1 + 12) == Some(p2)
            &&& s.subrange(p1 + 12, p2) == b
            &&& s.len() >= p2 + 9 && s.subrange(p2 + 1, p2 + 9) == amount_label()
            &&& find_index(s, 32, p2 + 9) is None
            &&& s.subrange(p2 + 9, s.len() as int) == c
        }),
{
    let s = transaction_text(t);
    let a = int_text(t.id as int);
    let b = int_text(t.created_at as int);
    let c = cents_text(t.amount as int);
    lemma_label_bytes();
    crate::text::lemma_int_text_shape(t.id as int);
    crate::text::lemma_int_text_shape(t.created_at as int);
    crate::money::lemma_cents_text_shape(t.amount as int);
    let p1 = 3 + a.len() as int;
    let p2 = p1 + 12 + b.len() as int;
    assert(s.len() == p2 + 9 + c.len());
    assert(s.take(3) =~= id_label());
    assert(forall|k: int| 0 <= k < a.len() ==> s[3 + k] == #[trigger] a[k]);
    assert(s[p1] == 32);
    assert(forall|k: int| 0 <= k < 3 ==> s[k] != 32) by {
        assert(s[0] == 105 && s[1] == 100 && s[2] == 61);
    }
    assert(forall|k: int| 3 <= k < p1 ==> s[k] != 32);
    lemma_find_index_at(s, 32, 3, p1);
    assert(s.subrange(3, p1) =~= a);
    assert(s.subrange(p1 + 1, p1 + 12) =~= created_at_label());
    assert(forall|k: int| 0 <= k < b.len() ==> s[p1 + 12 + k] == #[trigger] b[k]);
    assert(s[p2] == 32);
    assert(forall|k: int| p1 + 12 <= k < p2 ==> s[k] != 32);
    lemma_find_index_at(s, 32, p1 + 12, p2);
    assert(s.subrange(p1 + 12, p2) =~= b);
    assert(s.subrange(p2 + 1, p2 + 9) =~= amount_label());
    assert(forall|k: int| 0 <= k < c.len() ==> s[p2 + 9 + k] == #[trigger] c[k]);
    assert(forall|k: int| p2 + 9 <= k < s.len() ==> s[k] != 32);
    lemma_find_index_props(s, 32, p2 + 9);
    if find_index(s, 32, p2 + 9) is Some {
        assert(false);
    }
    assert(s.subrange(p2 + 9, s.len() as int) =~= c);
}

/// Rendering a transaction and reading it back gives the same record: the
/// wire encoding of ledger entries round-trips.
#[verifier::rlimit(100)]
#[verifier::spinoff_prover]
pub proof fn lemma_transaction_round_trip(t: Transaction)
    requires
        t.created_at != i64::MIN,
        -(MAX_CENT_UNITS * 100) < t.amount < MAX_CENT_UNITS * 100,
    ensures
        transaction_parse_spec(transaction_text(t)) == Some(t),
{
    let s = transaction_text(t);
    let a = int_text(t.id as int);
    let b = int_text(t.created_at as int);
    let c = cents_text(t.amount as int);
    let p1 = 3 + a.len() as int;
    let p2 = p1 + 12 + b.len() as int;
    lemma_transaction_text_parts(t);
    crate::text::lemma_int_text_round_trip(t.id as int);
    crate::text::lemma_int_text_round_trip(t.created_at as int);
    crate::money::lemma_cents_round_trip(t.amount as int);
    assert(int_parse_spec(s.subrange(3, p1)) == Some(t.id as int));
    assert(int_parse_spec(s.subrange(p1 + 12, p2)) == Some(t.created_at as int));
    assert(cents_parse_spec(s.subrange(p2 + 9, s.len() as int)) == Some(t.amount as int));
}

/// Parse a transaction text.
pub fn transaction_from_text(s: &Vec<u8>) -> (r: Option<Transaction>)
    ensures
        r == transaction_parse_spec(s@),
{
    if s.len() < 3 || s[0] != 105 || s[1] != 100 || s[2] != 61 {
        proof {
            lemma_label_bytes();
            if s@.len() >= 3 {
                assert(s@.take(3).len() == 3);
                if s@.take(3) == id_label() {
                    assert(s@[0] == 105 && s@[1] == 100 && s@[2] == 61);
                }
            }
        }
        return None;
    }
    proof {
        lemma_label_bytes();
        assert(s@.take(3) =~= id_label());
    }
    let p1 = match find_byte_from(s, 32, 3) {
        Some(p) => p,
        None => {
            return None;
        },
    };
    proof {
        lemma_find_index_props(s@, 32, 3);
    }
    let id_text = sub_bytes(s, 3, p1);
    let id = match parse_i32(&id_text) {
        Some(v) => v,
        None => {
            return None;
        },
    };
    if s.len() - p1 < 12 {
        return None;
    }
    let label1 = sub_bytes(s, p1 + 1, p1 + 12);
    let expected1 = "created_at=".as_bytes_vec();
    proof {
        reveal_strlit("created_at=");
        broadcast use vstd::string::is_ascii_spec_bytes;

        assert("created_at=".is_ascii());
    }
    if !crate::text::bytes_eq(&label1, &expected1) {
        return None;
    }
    let p2 = match find_byte_from(s, 32, p1 + 12) {
        Some(p) => p,
        None => {
            return None;
        },
    };
    proof {
        lemma_find_index_props(s@, 32, p1 + 12);
    }
    let ca_text = sub_bytes(s, p1 + 12, p2);
    let created_at = match parse_i64(&ca_text) {
        Some(v) => v,
        None => {
            return None;
        },
    };
    if s.len() - p2 < 9 {
        return None;
    }
    let label2 = sub_bytes(s, p2 + 1, p2 + 9);
    let expected2 = "amount=$".as_bytes_vec();
    proof {
        reveal_strlit("amount=$");
        broadcast use vstd::string::is_ascii_spec_bytes;

        assert("amount=$".is_ascii());
    }
    if !crate::text::bytes_eq(&label2, &expected2) {
        return None;
    }
    let amt_end = match find_byte_from(s, 32, p2 + 9) {
        Some(p) => {
            proof {
                lemma_find_index_props(s@, 32, p2 + 9);
            }
            p
        },
        None => s.len(),
    };
    let amt_text = sub_bytes(s, p2 + 9, amt_end);
    let amount = match parse_cents(&amt_text) {
        Some(v) => v,
        None => {
            return None;
        },
    };
    Some(Transaction { id, amount, created_at })
}

/// The sum of a sequence of amounts.
pub open spec fn seq_sum(s: Seq<i128>) -> int
    decreases s.len(),
{
    if s.len() == 0 {
        0int
    } else {
        seq_sum(s.drop_last()) + s.last()
    }
}

/// The first transaction carrying the given identifier, if any.
pub open spec fn find_transaction(s: Seq<Transaction>, id: i32) -> Option<Transaction>
    decreases s.len(),
{
    if s.len() == 0 {
        None
    } else if s[0].id == id {
        Some(s[0])
    } else {
        find_transaction(s.skip(1), id)
    }
}

/// Headroom kept on the balance so that one more amount always fits.
pub const BALANCE_HEADROOM: i128 = 170141183460469231731687303715884105727
    - 1_000_000_000_000_000_000_000_000_000_000_000_000;

/// The rendering of a whole ledger: one transaction per line.
#[verifier::opaque]
pub open spec fn transactions_text(s: Seq<Transaction>) -> Seq<u8>
    decreases s.len(),
{
    if s.len() == 0 {
        Seq::<u8>::empty()
    } else if s.len() == 1 {
        transaction_text(s[0])
    } else {
        transaction_text(s[0]) + seq![10u8] + transactions_text(s.skip(1))
    }
}

/// What the persisted ledger parses to, reading from position `from` on:
/// transactions one per line, empty lines ignored; nothing when any line is
/// malformed.
pub open spec fn ledger_lines_from(s: Seq<u8>, from: int) -> Option<Seq<Transaction>>
    decreases s.len() - from + 1,
    via ledger_lines_from_dec
{
    if from >= s.len() {
        Some(Seq::<Transaction>::empty())
    } else {
        let line_end = match find_index(s, 10, from) {
            Some(p) => p,
            None => s.len() as int,
        };
        let tail = ledger_lines_from(s, line_end + 1);
        if line_end == from {
            tail
        } else {
            match (transaction_parse_spec(s.subrange(from, line_end)), tail) {
                (Some(t), Some(ts)) => Some(seq![t] + ts),
                _ => None,
            }
        }
    }
}

#[via_fn]
proof fn ledger_lines_from_dec(s: Seq<u8>, from: int) {
    if from < s.len() {
        lemma_find_index_props(s, 10, if from < 0 {
            0
        } else {
            from
        });
        match find_index(s, 10, from) {
            Some(p) => {
                if from >= 0 {
                    lemma_find_index_props(s, 10, from);
                }
            },
            None => {},
        }
    }
}

/// Why a persisted ledger cannot be loaded.
#[derive(Clone, Copy, Debug, PartialEq, Eq, Structural)]
pub enum LedgerError {
    /// A line did not parse as a transaction.
    MalformedLine,
    /// A parsed record cannot be held: a value at the edge of its type, or
    /// no identifier left after the last record.
    UnusableRecord,
}

/// Parse the persisted ledger from position `from` on.
fn load_lines(file: &Vec<u8>, from: usize) -> (r: Option<Vec<Transaction>>)
    requires
        from <= file@.len(),
    ensures
        match ledger_lines_from(file@, from as int) {
            Some(ts) => r is Some && r->0@ == ts,
            None => r is None,
        },
    decreases file@.len() - from,
{
    if from >= file.len() {
        return Some(Vec::new());
    }
    let line_end = match find_byte_from(file, 10, from) {
        Some(p) => {
            proof {
                lemma_find_index_props(file@, 10, from as int);
            }
            p
        },
        None => file.len(),
    };
    let tail_from = if line_end < file.len() {
        line_end + 1
    } else {
        file.len()
    };
    proof {
        if line_end + 1 > file@.len() {
            assert(ledger_lines_from(file@, line_end + 1) == ledger_lines_from(
                file@,
                tail_from as int,
            ));
        }
    }
    let tail = match load_lines(file, tail_from) {
        Some(ts) => ts,
        None => {
            return None;
        },
    };
    if line_end == from {
        return Some(tail);
    }
    let line = sub_bytes(file, from, line_end);
    match transaction_from_text(&line) {
        Some(t) => {
            let mut v: Vec<Transaction> = Vec::new();
            v.push(t);
            let mut rest = tail;
            v.append(&mut rest);
            proof {
                assert(v@ =~= seq![t] + ledger_lines_from(file@, line_end + 1)->0);
            }
            Some(v)
        },
        None => None,
    }
}

/// Whether a loaded record list can be held by a fresh ledger.
pub open spec fn records_loadable(ts: Seq<Transaction>) -> bool {
    &&& forall|i: int| 0 <= i < ts.len() ==> LocalBank::record_ok(#[trigger] ts[i])
    &&& ts.len() > 0 ==> ts.last().id < i32::MAX
}

/// The in-memory ledger of one simulated service instance.
pub struct LocalBank {
    transactions: Vec<Transaction>,
    current_id: i32,
    balance: i128,
    accepted: Ghost<Seq<i128>>,
}

impl LocalBank {
    pub closed spec fn transactions(&self) -> Seq<Transaction> {
        self.transactions@
    }

    pub closed spec fn current_id(&self) -> i32 {
        self.current_id
    }

    pub closed spec fn balance(&self) -> i128 {
        self.balance
    }

    /// The amounts this instance has accepted since it was loaded.
    pub closed spec fn accepted(&self) -> Seq<i128> {
        self.accepted@
    }

    /// A record the ledger may hold: renderable and negatable.
    pub open spec fn record_ok(t: Transaction) -> bool {
        &&& -(MAX_CENT_UNITS * 100) < t.amount < MAX_CENT_UNITS * 100
        &&& t.created_at != i64::MIN
    }

    /// Well-formedness: the next identifier follows the last record, every
    /// record is renderable, and the balance is exactly the sum of the
    /// amounts accepted since loading.
    pub open spec fn wf(&self) -> bool {
        &&& self.transactions().len() > 0 ==> {
            &&& self.transactions().last().id < i32::MAX
            &&& self.current_id() == self.transactions().last().id + 1
        }
        &&& forall|i: int|
            0 <= i < self.transactions().len() ==> Self::record_ok(
                #[trigger] self.transactions()[i],
            )
        &&& self.balance() == seq_sum(self.accepted())
    }

    /// A fresh ledger holding the given records, already validated.
    fn from_records(records: Vec<Transaction>) -> (r: Self)
        requires
            records@.len() > 0 ==> records@.last().id < i32::MAX,
            forall|i: int|
                0 <= i < records@.len() ==> Self::record_ok(#[trigger] records@[i]),
        ensures
            r.wf(),
            r.transactions() == records@,
            r.balance() == 0,
            r.accepted() == Seq::<i128>::empty(),
            records@.len() > 0 ==> r.current_id() == records@.last().id + 1,
            records@.len() == 0 ==> r.current_id() == 1,
    {
        let current_id: i32 = if records.len() > 0 {
            records[records.len() - 1].id + 1
        } else {
            1
        };
        LocalBank { transactions: records, current_id, balance: 0, accepted: Ghost(Seq::empty()) }
    }

    /// Load a ledger from the bytes of its persisted file: transactions one
    /// per line, empty lines ignored; the next identifier follows the last
    /// record. The session balance starts at zero — persisted history is
    /// listed but not counted.
    pub fn new(file: &Vec<u8>) -> (r: Result<LocalBank, LedgerError>)
        ensures
            match ledger_lines_from(file@, 0) {
                Some(ts) => {
                    if records_loadable(ts) {
                        &&& r is Ok
                        &&& r->Ok_0.wf()
                        &&& r->Ok_0.transactions() == ts
                        &&& r->Ok_0.balance() == 0
                        &&& r->Ok_0.accepted() == Seq::<i128>::empty()
                        &&& (ts.len() == 0 ==> r->Ok_0.current_id() == 1)
                        &&& (ts.len() > 0 ==> r->Ok_0.current_id() == ts.last().id + 1)
                    } else {
                        r == Err::<LocalBank, LedgerError>(LedgerError::UnusableRecord)
                    }
                },
                None => r == Err::<LocalBank, LedgerError>(LedgerError::MalformedLine),
            },
    {
        let records = match load_lines(file, 0) {
            Some(ts) => ts,
            None => {
                return Err(LedgerError::MalformedLine);
            },
        };
        let mut i: usize = 0;
        while i < records.len()
            invariant
                0 <= i <= records@.len(),
                ledger_lines_from(file@, 0) == Some(records@),
                forall|k: int| 0 <= k < i ==> LocalBank::record_ok(#[trigger] records@[k]),
            decreases records@.len() - i,
        {
            let t = records[i];
            if t.created_at == i64::MIN || t.amount == i128::MIN {
                proof {
                    assert(!LocalBank::record_ok(records@[i as int]));
                }
                return Err(LedgerError::UnusableRecord);
            }
            if t.amount <= -(MAX_CENT_UNITS as i128) * 100 || t.amount >= (MAX_CENT_UNITS as i128)
                * 100 {
                proof {
                    assert(!LocalBank::record_ok(records@[i as int]));
                }
                return Err(LedgerError::UnusableRecord);
            }
            i = i + 1;
        }
        if records.len() > 0 && records[records.len() - 1].id == i32::MAX {
            return Err(LedgerError::UnusableRecord);
        }
        Ok(Self::from_records(records))
    }

    /// The records currently held, oldest first.
    pub fn list_transactions(&self) -> (r: &Vec<Transaction>)
        ensures
            r@ == self.transactions(),
    {
        &self.transactions
    }

    /// The first record with the given identifier.
    pub fn get_transaction(&self, id: i32) -> (r: Option<Transaction>)
        ensures
            r == find_transaction(self.transactions(), id),
    {
        find_transaction_in(&self.transactions, id)
    }

    /// Accept a new amount at the given virtual second. The new record takes
    /// the next identifier — one past the last record held — and the balance
    /// moves by exactly the amount.
    pub fn create_transaction(&mut self, amount: i128, now_seconds: i64) -> (t: Transaction)
        requires
            old(self).wf(),
            old(self).current_id() < i32::MAX,
            now_seconds >= 1,
            -(MAX_CENT_UNITS * 100) < amount < MAX_CENT_UNITS * 100,
            -BALANCE_HEADROOM <= old(self).balance() <= BALANCE_HEADROOM,
        ensures
            final(self).wf(),
            t == (Transaction { id: old(self).current_id(), amount, created_at: now_seconds }),
            final(self).transactions() == old(self).transactions().push(t),
            final(self).current_id() == old(self).current_id() + 1,
            final(self).balance() == old(self).balance() + amount,
            final(self).accepted() == old(self).accepted().push(amount),
            old(self).transactions().len() > 0 ==> t.id == old(self).transactions().last().id + 1,
            t.created_at >= 1,
    {
        let t = Transaction { id: self.current_id, amount, created_at: now_seconds };
        self.transactions.push(t);
        self.current_id = self.current_id + 1;
        self.balance = self.balance + amount;
        proof {
            self.accepted@ = self.accepted@.push(amount);
            assert(self.accepted@.drop_last() =~= old(self).accepted());
        }
        t
    }

    /// Void a record: when the identifier is held, a fresh record with the
    /// opposite amount is accepted and returned; otherwise nothing changes.
    pub fn void_transaction(&mut self, id: i32, now_seconds: i64) -> (r: Option<Transaction>)
        requires
            old(self).wf(),
            old(self).current_id() < i32::MAX,
            now_seconds >= 1,
            -BALANCE_HEADROOM <= old(self).balance() <= BALANCE_HEADROOM,
        ensures
            final(self).wf(),
            match find_transaction(old(self).transactions(), id) {
                Some(existing) => {
                    &&& r == Some(
                        Transaction {
                            id: old(self).current_id(),
                            amount: (-existing.amount) as i128,
                            created_at: now_seconds,
                        },
                    )
                    &&& final(self).transactions() == old(self).transactions().push(r->0)
                    &&& final(self).balance() == old(self).balance() - existing.amount
                    &&& final(self).accepted() == old(self).accepted().push((-existing.amount) as i128)
                },
                None => *final(self) == *old(self) && r is None,
            },
    {
        let existing = match self.get_transaction(id) {
            Some(e) => e,
            None => {
                return None;
            },
        };
        proof {
            lemma_find_transaction_found(self.transactions(), id);
        }
        let t = self.create_transaction(-existing.amount, now_seconds);
        Some(t)
    }

    /// The running balance: the sum of every amount accepted since loading.
    pub fn get_balance(&self) -> (r: i128)
        ensures
            r == self.balance(),
    {
        self.balance
    }

    /// Whether an identifier is left for one more record.
    pub fn current_id_has_room(&self) -> (r: bool)
        ensures
            r == (self.current_id() < i32::MAX),
    {
        self.current_id < i32::MAX
    }

    /// Whether one more amount of any accepted size still fits the balance.
    pub fn balance_has_headroom(&self) -> (r: bool)
        ensures
            r == (-BALANCE_HEADROOM <= self.balance() <= BALANCE_HEADROOM),
    {
        -BALANCE_HEADROOM <= self.balance && self.balance <= BALANCE_HEADROOM
    }

    /// Render the whole ledger, one record per line.
    pub fn render_transactions(&self) -> (r: Vec<u8>)
        requires
            self.wf(),
        ensures
            r@ == transactions_text(self.transactions()),
    {
        proof {
            assert(self.transactions().skip(0) =~= self.transactions());
        }
        render_lines(&self.transactions, 0)
    }
}

/// The first record of the list with the given identifier.
pub fn find_transaction_in(records: &Vec<Transaction>, id: i32) -> (r: Option<Transaction>)
    ensures
        r == find_transaction(records@, id),
{
    let mut i: usize = 0;
    proof {
        assert(records@.skip(0) =~= records@);
    }
    while i < records.len()
        invariant
            0 <= i <= records@.len(),
            find_transaction(records@, id) == find_transaction(records@.skip(i as int), id),
        decreases records@.len() - i,
    {
        if records[i].id == id {
            proof {
                assert(records@.skip(i as int)[0] == records@[i as int]);
            }
            return Some(records[i]);
        }
        proof {
            assert(records@.skip(i as int).skip(1) =~= records@.skip(i + 1));
        }
        i = i + 1;
    }
    proof {
        assert(records@.skip(i as int).len() == 0);
    }
    None
}

/// A found record is itself well-formed when every held record is.
pub proof fn lemma_find_transaction_found(s: Seq<Transaction>, id: i32)
    requires
        forall|i: int| 0 <= i < s.len() ==> LocalBank::record_ok(#[trigger] s[i]),
        find_transaction(s, id) is Some,
    ensures
        LocalBank::record_ok(find_transaction(s, id)->0),
        find_transaction(s, id)->0.id == id,
    decreases s.len(),
{
    if s.len() > 0 && s[0].id != id {
        assert(forall|i: int| 0 <= i < s.skip(1).len() ==> s.skip(1)[i] == s[i + 1]);
        lemma_find_transaction_found(s.skip(1), id);
    }
}

/// Render the records from position `from` on, one per line.
fn render_lines(records: &Vec<Transaction>, from: usize) -> (r: Vec<u8>)
    requires
        from <= records@.len(),
        forall|i: int|
            from <= i < records@.len() ==> LocalBank::record_ok(#[trigger] records@[i]),
    ensures
        r@ == transactions_text(records@.skip(from as int)),
    decreases records@.len() - from@,
{
    proof {
        reveal(transactions_text);
    }
    if from == records.len() {
        proof {
            assert(records@.skip(from as int).len() == 0);
        }
        Vec::new()
    } else {
        let mut r = format_transaction(&records[from]);
        if from + 1 < records.len() {
            r.push(10);
            let mut rest = render_lines(records, from + 1);
            r.append(&mut rest);
        }
        proof {
            let tail = records@.skip(from as int);
            assert(tail[0] == records@[from as int]);
            assert(tail.skip(1) =~= records@.skip(from as int + 1));
            if from + 1 < records@.len() {
                assert(r@ =~= transactions_text(tail));
            } else {
                assert(tail.len() == 1);
                assert(r@ =~= transactions_text(tail));
            }
        }
        r
    }
}

} // verus!
