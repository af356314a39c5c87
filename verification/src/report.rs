//! Reporting and reproducibility: environment-value parsing, the replay
//! commands a failing run prints, and the deterministic part of the finish
//! block.

use vstd::prelude::*;
use vstd::string::StrSliceExecFns;
use vstd::string::StringSliceAdditionalSpecFns;

use crate::text::{
    dec_digits, digits_parse_spec, ends_with_spec, find_index, lemma_dec_digits_are_digits,
    lemma_digits_value_of_dec_digits, lemma_find_index_props, parse_digits_u128, sub_bytes,
    u64_text,
};

verus! {

/// What a duration text means, in milliseconds: a bare number counts
/// milliseconds; the suffixes `ns`, `µs`, `ms` and `s` scale as named, finer
/// units truncating and seconds refused when they would not fit.
pub open spec fn duration_millis_parse_spec(s: Seq<u8>) -> Option<u64> {
    let ns = "ns".spec_bytes();
    let us = seq![194u8, 181u8, 115u8];
    let ms = "ms".spec_bytes();
    let sec = "s".spec_bytes();
    if ends_with_spec(s, ns) {
        match digits_parse_spec(s.take(s.len() - 2)) {
            Some(v) => if v <= u64::MAX {
                Some((v / 1_000_000) as u64)
            } else {
                None
            },
            None => None,
        }
    } else if ends_with_spec(s, us) {
        match digits_parse_spec(s.take(s.len() - us.len())) {
            Some(v) => if v <= u64::MAX {
                Some((v / 1_000) as u64)
            } else {
                None
            },
            None => None,
        }
    } else if ends_with_spec(s, ms) {
        match digits_parse_spec(s.take(s.len() - 2)) {
            Some(v) => if v <= u64::MAX {
                Some(v as u64)
            } else {
                None
            },
            None => None,
        }
    } else if ends_with_spec(s, sec) {
        match digits_parse_spec(s.take(s.len() - 1)) {
            Some(v) => if v * 1000 <= u64::MAX {
                Some((v * 1000) as u64)
            } else {
                None
            },
            None => None,
        }
    } else {
        match digits_parse_spec(s) {
            Some(v) => if v <= u64::MAX {
                Some(v as u64)
            } else {
                None
            },
            None => None,
        }
    }
}

/// Parse a duration text into milliseconds.
pub fn parse_duration_millis(s: &Vec<u8>) -> (r: Option<u64>)
    ensures
        r == duration_millis_parse_spec(s@),
{
    let ns = "ns".as_bytes_vec();
    let mut us: Vec<u8> = Vec::new();
    us.push(194);
    us.push(181);
    us.push(115);
    let ms = "ms".as_bytes_vec();
    let sec = "s".as_bytes_vec();
    proof {
        reveal_strlit("ns");
        reveal_strlit("ms");
        reveal_strlit("s");
        broadcast use vstd::string::is_ascii_spec_bytes;

        assert("ns".is_ascii());
        assert("ms".is_ascii());
        assert("s".is_ascii());
        assert(ns@.len() == 2);
        assert(us@ =~= seq![194u8, 181u8, 115u8]);
        assert(ms@.len() == 2);
        assert(sec@.len() == 1);
    }
    if crate::text::ends_with(s, &ns) {
        let end = s.len() - 2;
        proof {
            assert(s@.take(end as int) =~= s@.subrange(0, end as int));
        }
        match parse_digits_u128(s, 0, end) {
            Some(v) => {
                let ghost d = s@.subrange(0, end as int);
                proof {
                    if crate::text::all_digits(d) {
                        crate::text::lemma_digits_value_nonneg(d);
                    }
                }
                if v <= u64::MAX as u128 {
                    Some((v / 1_000_000) as u64)
                } else {
                    None
                }
            },
            None => None,
        }
    } else if us.len() <= s.len() && crate::text::ends_with(s, &us) {
        let end = s.len() - us.len();
        proof {
            assert(s@.take(end as int) =~= s@.subrange(0, end as int));
        }
        match parse_digits_u128(s, 0, end) {
            Some(v) => {
                let ghost d = s@.subrange(0, end as int);
                proof {
                    if crate::text::all_digits(d) {
                        crate::text::lemma_digits_value_nonneg(d);
                    }
                }
                if v <= u64::MAX as u128 {
                    Some((v / 1_000) as u64)
                } else {
                    None
                }
            },
            None => None,
        }
    } else if crate::text::ends_with(s, &ms) {
        let end = s.len() - 2;
        proof {
            assert(s@.take(end as int) =~= s@.subrange(0, end as int));
        }
        match parse_digits_u128(s, 0, end) {
            Some(v) => {
                let ghost d = s@.subrange(0, end as int);
                proof {
                    if crate::text::all_digits(d) {
                        crate::text::lemma_digits_value_nonneg(d);
                    }
                }
                if v <= u64::MAX as u128 {
                    Some(v as u64)
                } else {
                    None
                }
            },
            None => None,
        }
    } else if crate::text::ends_with(s, &sec) {
        let end = s.len() - 1;
        proof {
            assert(s@.take(end as int) =~= s@.subrange(0, end as int));
        }
        match parse_digits_u128(s, 0, end) {
            Some(v) => {
                let ghost d = s@.subrange(0, end as int);
                proof {
                    if crate::text::all_digits(d) {
                        crate::text::lemma_digits_value_nonneg(d);
                    }
                }
                if v <= (u64::MAX / 1000) as u128 {
                    proof {
                        assert(v * 1000 <= u64::MAX) by (nonlinear_arith)
                            requires
                                0 <= v <= u64::MAX as int / 1000,
                        ;
                    }
                    Some((v as u64) * 1000)
                } else {
                    proof {
                        assert(v * 1000 > u64::MAX) by (nonlinear_arith)
                            requires
                                v > u64::MAX as int / 1000,
                                v >= 0,
                        ;
                    }
                    None
                }
            },
            None => None,
        }
    } else {
        proof {
            assert(s@ =~= s@.subrange(0, s@.len() as int));
        }
        match parse_digits_u128(s, 0, s.len()) {
            Some(v) => {
                let ghost d = s@.subrange(0, s@.len() as int);
                proof {
                    if crate::text::all_digits(d) {
                        crate::text::lemma_digits_value_nonneg(d);
                    }
                }
                if v <= u64::MAX as u128 {
                    Some(v as u64)
                } else {
                    None
                }
            },
            None => None,
        }
    }
}

/// The environment assignment a replay command starts with.
pub open spec fn replay_seed_assignment(seed: u64) -> Seq<u8> {
    "SIMULATOR_SEED=".spec_bytes() + dec_digits(seed as nat)
}

/// The program part of a replay command: a binary under a cargo-style
/// `target/<profile>/<name>` path is prettified back to `cargo run -p
/// <name>`; anything else is kept as invoked.
pub open spec fn prettified_program(argv0: Seq<u8>) -> Seq<u8> {
    match cargo_target_name(argv0) {
        Some(name) => "cargo run -p ".spec_bytes() + name,
        None => argv0,
    }
}

/// The binary name, when the program path ends in `target/<profile>/<name>`.
pub open spec fn cargo_target_name(argv0: Seq<u8>) -> Option<Seq<u8>> {
    let segments = split_segments(argv0);
    if segments.len() >= 3 && segments[segments.len() - 3] == "target".spec_bytes() {
        Some(segments.last())
    } else {
        None
    }
}

/// A byte string split on path separators.
pub open spec fn split_segments(s: Seq<u8>) -> Seq<Seq<u8>>
    decreases s.len(),
    via split_segments_dec
{
    match find_index(s, 47, 0) {
        None => seq![s],
        Some(p) => seq![s.take(p)] + split_segments(s.skip(p + 1)),
    }
}

#[via_fn]
proof fn split_segments_dec(s: Seq<u8>) {
    lemma_find_index_props(s, 47, 0);
}

/// Split a program path on path separators.
fn split_path(s: &Vec<u8>) -> (r: Vec<Vec<u8>>)
    ensures
        r@.len() == split_segments(s@).len(),
        forall|i: int| 0 <= i < r@.len() ==> r@[i]@ == #[trigger] split_segments(s@)[i],
    decreases s@.len(),
{
    match crate::text::find_byte_from(s, 47, 0) {
        None => {
            let mut r: Vec<Vec<u8>> = Vec::new();
            r.push(s.clone());
            r
        },
        Some(p) => {
            proof {
                lemma_find_index_props(s@, 47, 0);
            }
            let n = s.len();
            assert(p < n);
            let head = sub_bytes(s, 0, p);
            let tail = sub_bytes(s, p + 1, n);
            proof {
                assert(head@ =~= s@.take(p as int));
                assert(tail@ =~= s@.skip(p + 1));
            }
            let mut r: Vec<Vec<u8>> = Vec::new();
            r.push(head);
            let mut rest = split_path(&tail);
            let ghost rest_view = rest@;
            let mut j: usize = 0;
            while j < rest.len()
                invariant
                    0 <= j <= rest@.len(),
                    rest@ == rest_view,
                    r@.len() == j + 1,
                    r@[0]@ == s@.take(p as int),
                    forall|i: int| 1 <= i < r@.len() ==> r@[i]@ == #[trigger] rest_view[i - 1]@,
                decreases rest@.len() - j,
            {
                let piece = rest[j].clone();
                r.push(piece);
                j = j + 1;
            }
            proof {
                assert(split_segments(s@) == seq![s@.take(p as int)] + split_segments(s@.skip(
                    p + 1,
                )));
                assert forall|i: int| 0 <= i < r@.len() implies r@[i]@ == #[trigger] split_segments(
                    s@,
                )[i] by {
                    if i == 0 {
                    } else {
                        assert(r@[i]@ == rest_view[i - 1]@);
                        assert(split_segments(s@)[i] == split_segments(s@.skip(p + 1))[i - 1]);
                    }
                }
            }
            r
        },
    }
}

/// The program part of a replay command.
pub fn prettify_program(argv0: &Vec<u8>) -> (r: Vec<u8>)
    ensures
        r@ == prettified_program(argv0@),
{
    let segments = split_path(argv0);
    let target = "target".as_bytes_vec();
    proof {
        reveal_strlit("target");
    }
    if segments.len() >= 3 && crate::text::bytes_eq(&segments[segments.len() - 3], &target) {
        let mut r = "cargo run -p ".as_bytes_vec();
        let mut name = segments[segments.len() - 1].clone();
        r.append(&mut name);
        proof {
            assert(segments@[segments@.len() - 1]@ == split_segments(argv0@).last());
        }
        r
    } else {
        argv0.clone()
    }
}

/// The command that replays one run: the seed assignment, then the
/// prettified program, then the remaining arguments, space-separated.
pub open spec fn replay_command_spec(argv: Seq<Vec<u8>>, seed: u64) -> Seq<u8>
    decreases argv.len(),
{
    if argv.len() == 0 {
        replay_seed_assignment(seed)
    } else if argv.len() == 1 {
        replay_seed_assignment(seed) + seq![32u8] + prettified_program(argv[0]@)
    } else {
        replay_command_spec(argv.drop_last(), seed) + seq![32u8] + argv.last()@
    }
}

/// Render the command that replays a run from the given seed.
pub fn render_replay_command(argv: &Vec<Vec<u8>>, seed: u64) -> (r: Vec<u8>)
    ensures
        r@ == replay_command_spec(argv@, seed),
{
    let mut r = "SIMULATOR_SEED=".as_bytes_vec();
    let mut digits = u64_text(seed);
    r.append(&mut digits);
    let mut i: usize = 0;
    while i < argv.len()
        invariant
            0 <= i <= argv@.len(),
            r@ == replay_command_spec(argv@.take(i as int), seed),
        decreases argv@.len() - i,
    {
        r.push(32);
        if i == 0 {
            let mut part = prettify_program(&argv[0]);
            r.append(&mut part);
        } else {
            let mut part = argv[i].clone();
            r.append(&mut part);
        }
        i = i + 1;
        proof {
            let pre = argv@.take(i - 1);
            let now = argv@.take(i as int);
            assert(now.drop_last() =~= pre);
            if i == 1 {
                assert(r@ =~= replay_command_spec(now, seed));
            } else {
                assert(now.last() == argv@[i - 1]);
                assert(r@ =~= replay_command_spec(now, seed));
            }
        }
    }
    proof {
        assert(argv@.take(argv@.len() as int) =~= argv@);
    }
    r
}

/// The seed a replay command names: the digits between the assignment's
/// equals sign and the first space (or the end).
pub open spec fn replay_seed_of(cmd: Seq<u8>) -> Option<u64> {
    let prefix = "SIMULATOR_SEED=".spec_bytes();
    if cmd.len() >= prefix.len() && cmd.take(prefix.len() as int) == prefix {
        let rest = cmd.skip(prefix.len() as int);
        let end = match find_index(rest, 32, 0) {
            Some(p) => p,
            None => rest.len() as int,
        };
        match digits_parse_spec(rest.take(end)) {
            Some(v) => if v <= u64::MAX {
                Some(v as u64)
            } else {
                None
            },
            None => None,
        }
    } else {
        None
    }
}

/// Read the seed back out of a replay command.
pub fn extract_replay_seed(cmd: &Vec<u8>) -> (r: Option<u64>)
    ensures
        r == replay_seed_of(cmd@),
{
    let prefix = "SIMULATOR_SEED=".as_bytes_vec();
    proof {
        reveal_strlit("SIMULATOR_SEED=");
        broadcast use vstd::string::is_ascii_spec_bytes;

        assert("SIMULATOR_SEED=".is_ascii());
    }
    if !crate::text::starts_with(cmd, &prefix) {
        return None;
    }
    let start = prefix.len();
    let end = match crate::text::find_byte_from(cmd, 32, start) {
        Some(p) => {
            proof {
                lemma_find_index_props(cmd@, 32, start as int);
            }
            p
        },
        None => cmd.len(),
    };
    proof {
        let rest = cmd@.skip(start as int);
        lemma_find_index_skip(cmd@, 32, start as int);
        assert(rest.take(end - start) =~= cmd@.subrange(start as int, end as int));
    }
    let ghost rest = cmd@.skip(start as int);
    let ghost rest_end = end - start;
    match parse_digits_u128(cmd, start, end) {
        Some(v) => {
            proof {
                crate::text::lemma_digits_value_nonneg(rest.take(rest_end as int));
            }
            if v <= u64::MAX as u128 {
                Some(v as u64)
            } else {
                None
            }
        },
        None => {
            proof {
                if crate::text::all_digits(rest.take(rest_end as int)) {
                    crate::text::lemma_digits_value_nonneg(rest.take(rest_end as int));
                }
            }
            None
        },
    }
}

/// Searching after a prefix is searching the remainder.
proof fn lemma_find_index_skip(s: Seq<u8>, b: u8, start: int)
    requires
        0 <= start <= s.len(),
    ensures
        find_index(s.skip(start), b, 0) == (match find_index(s, b, start) {
            Some(p) => Some(p - start),
            None => None::<int>,
        }),
{
    let rest = s.skip(start);
    lemma_find_index_props(s, b, start);
    match find_index(s, b, start) {
        Some(p) => {
            assert(rest[p - start] == b);
            assert(forall|k: int| 0 <= k < p - start ==> rest[k] != b);
            crate::text::lemma_find_index_at(rest, b, 0, p - start);
        },
        None => {
            lemma_find_index_props(rest, b, 0);
            if find_index(rest, b, 0) is Some {
                let q = find_index(rest, b, 0)->0;
                assert(s[q + start] == b);
                assert(false);
            }
        },
    }
}

/// A replay command names the seed it was rendered from: whoever runs the
/// printed command starts from the failing run's exact seed, and the seed
/// determines the run.
pub proof fn lemma_replay_round_trip(argv: Seq<Vec<u8>>, seed: u64)
    ensures
        replay_seed_of(replay_command_spec(argv, seed)) == Some(seed),
    decreases argv.len(),
{
    reveal_strlit("SIMULATOR_SEED=");
    broadcast use vstd::string::is_ascii_spec_bytes;

    assert("SIMULATOR_SEED=".is_ascii());
    let prefix = "SIMULATOR_SEED=".spec_bytes();
    assert(prefix.len() == 15);
    assert(forall|k: int| 0 <= k < prefix.len() ==> prefix[k] != 32) by {
        assert(prefix[0] == 83u8);
        assert(prefix[1] == 73u8);
        assert(prefix[2] == 77u8);
        assert(prefix[3] == 85u8);
        assert(prefix[4] == 76u8);
        assert(prefix[5] == 65u8);
        assert(prefix[6] == 84u8);
        assert(prefix[7] == 79u8);
        assert(prefix[8] == 82u8);
        assert(prefix[9] == 95u8);
        assert(prefix[10] == 83u8);
        assert(prefix[11] == 69u8);
        assert(prefix[12] == 69u8);
        assert(prefix[13] == 68u8);
        assert(prefix[14] == 61u8);
    }
    lemma_dec_digits_are_digits(seed as nat);
    lemma_digits_value_of_dec_digits(seed as nat);
    let digits = dec_digits(seed as nat);
    let cmd = replay_command_spec(argv, seed);
    if argv.len() == 0 {
        assert(cmd == prefix + digits);
        assert(cmd.take(prefix.len() as int) =~= prefix);
        let rest = cmd.skip(prefix.len() as int);
        assert(rest =~= digits);
        lemma_find_index_none_of_digits(rest);
        assert(rest.take(rest.len() as int) =~= digits);
    } else {
        lemma_replay_space_position(argv, seed);
        assert(cmd.len() > prefix.len() + digits.len());
        assert(cmd.take(prefix.len() as int) =~= prefix);
        let rest = cmd.skip(prefix.len() as int);
        assert(forall|k: int| 0 <= k < digits.len() ==> rest[k] == #[trigger] digits[k]);
        assert(rest[digits.len() as int] == 32);
        assert forall|k: int| 0 <= k < digits.len() implies rest[k] != 32 by {
            assert(crate::text::is_dec_digit(digits[k]));
        }
        crate::text::lemma_find_index_at(rest, 32, 0, digits.len() as int);
        assert(rest.take(digits.len() as int) =~= digits);
    }
}

/// Digits hold no space, so a search in them finds none.
proof fn lemma_find_index_none_of_digits(s: Seq<u8>)
    requires
        crate::text::all_digits(s),
    ensures
        find_index(s, 32, 0) is None,
{
    lemma_find_index_props(s, 32, 0);
    if find_index(s, 32, 0) is Some {
        let p = find_index(s, 32, 0)->0;
        assert(crate::text::is_dec_digit(s[p]));
        assert(false);
    }
}

/// In a rendered replay command with arguments, the byte right after the
/// seed's digits is the first separating space.
proof fn lemma_replay_space_position(argv: Seq<Vec<u8>>, seed: u64)
    requires
        argv.len() >= 1,
    ensures
        ({
            let prefix = "SIMULATOR_SEED=".spec_bytes();
            let digits = dec_digits(seed as nat);
            let cmd = replay_command_spec(argv, seed);
            &&& cmd.len() > prefix.len() + digits.len()
            &&& cmd.take(prefix.len() as int) == prefix
            &&& (forall|k: int|
                0 <= k < digits.len() ==> cmd.skip(prefix.len() as int)[k] == #[trigger] digits[k])
            &&& cmd.skip(prefix.len() as int)[digits.len() as int] == 32
        }),
    decreases argv.len(),
{
    let prefix = "SIMULATOR_SEED=".spec_bytes();
    let digits = dec_digits(seed as nat);
    let cmd = replay_command_spec(argv, seed);
    if argv.len() == 1 {
        assert(cmd == replay_seed_assignment(seed) + seq![32u8] + prettified_program(argv[0]@));
        assert(cmd.take(prefix.len() as int) =~= prefix);
    } else {
        lemma_replay_space_position(argv.drop_last(), seed);
        assert(cmd == replay_command_spec(argv.drop_last(), seed) + seq![32u8] + argv.last()@);
        assert(cmd.take(prefix.len() as int) =~= prefix);
    }
}

/// The rendering of a truth value.
pub open spec fn bool_text(b: bool) -> Seq<u8> {
    if b {
        "true".spec_bytes()
    } else {
        "false".spec_bytes()
    }
}

/// The rendering of a virtual-time budget.
pub open spec fn duration_text(d: crate::config::SimDuration) -> Seq<u8> {
    match d {
        crate::config::SimDuration::Millis(ms) => dec_digits(ms as nat) + "ms".spec_bytes(),
        crate::config::SimDuration::Unbounded => "unbounded".spec_bytes(),
    }
}

/// The key=value summary of a run's configuration, as both the START and
/// the FINISH block print it.
pub open spec fn config_info_text(c: crate::config::SimConfig) -> Seq<u8> {
    "seed=".spec_bytes() + dec_digits(c.seed as nat) + " duration=".spec_bytes() + duration_text(
        c.duration,
    ) + " tick_ms=".spec_bytes() + dec_digits(c.tick_ms as nat) + " epoch_offset=".spec_bytes()
        + dec_digits(c.epoch_offset as nat) + " step_multiplier=".spec_bytes() + dec_digits(
        c.step_multiplier as nat,
    ) + " tcp_capacity=".spec_bytes() + dec_digits(c.tcp_capacity as nat)
        + " enable_random_order=".spec_bytes() + bool_text(c.enable_random_order)
}

/// Render the configuration summary.
pub fn render_config_info(c: &crate::config::SimConfig) -> (r: Vec<u8>)
    ensures
        r@ == config_info_text(*c),
{
    let mut r = "seed=".as_bytes_vec();
    let mut part = u64_text(c.seed);
    r.append(&mut part);
    let mut label = " duration=".as_bytes_vec();
    r.append(&mut label);
    match c.duration {
        crate::config::SimDuration::Millis(ms) => {
            let mut digits = u64_text(ms);
            r.append(&mut digits);
            let mut unit = "ms".as_bytes_vec();
            r.append(&mut unit);
        },
        crate::config::SimDuration::Unbounded => {
            let mut word = "unbounded".as_bytes_vec();
            r.append(&mut word);
        },
    }
    let mut label2 = " tick_ms=".as_bytes_vec();
    r.append(&mut label2);
    let mut part2 = u64_text(c.tick_ms);
    r.append(&mut part2);
    let mut label3 = " epoch_offset=".as_bytes_vec();
    r.append(&mut label3);
    let mut part3 = u64_text(c.epoch_offset);
    r.append(&mut part3);
    let mut label4 = " step_multiplier=".as_bytes_vec();
    r.append(&mut label4);
    let mut part4 = u64_text(c.step_multiplier);
    r.append(&mut part4);
    let mut label5 = " tcp_capacity=".as_bytes_vec();
    r.append(&mut label5);
    let mut part5 = u64_text(c.tcp_capacity);
    r.append(&mut part5);
    let mut label6 = " enable_random_order=".as_bytes_vec();
    r.append(&mut label6);
    let mut flag = if c.enable_random_order {
        "true".as_bytes_vec()
    } else {
        "false".as_bytes_vec()
    };
    r.append(&mut flag);
    proof {
        assert(r@ =~= config_info_text(*c));
    }
    r
}

/// The deterministic part of a FINISH block: the configuration summary, the
/// classification, the steps, and the simulated time. The real-time
/// measurement is deliberately left out, so the block is a pure function of
/// the run — two runs from the same seed print it byte-identically.
pub open spec fn finish_text(
    config: crate::config::SimConfig,
    successful: bool,
    steps: u64,
    sim_time_millis: u64,
) -> Seq<u8> {
    "FINISH ".spec_bytes() + config_info_text(config) + " successful=".spec_bytes() + bool_text(
        successful,
    ) + " steps=".spec_bytes() + dec_digits(steps as nat) + " simulated_time_millis=".spec_bytes()
        + dec_digits(sim_time_millis as nat)
}

/// Render a run's FINISH block.
pub fn render_finish_block(result: &crate::runner::SimResult) -> (r: Vec<u8>)
    ensures
        ({
            let (config, successful, steps, sim_time_millis) = match *result {
                crate::runner::SimResult::Success { props, run } => (
                    props.config,
                    true,
                    run.steps,
                    run.sim_time_millis,
                ),
                crate::runner::SimResult::Fail { props, run, .. } => (
                    props.config,
                    false,
                    run.steps,
                    run.sim_time_millis,
                ),
            };
            r@ == finish_text(config, successful, steps, sim_time_millis)
        }),
{
    let (config, successful, steps, sim_time_millis) = match result {
        crate::runner::SimResult::Success { props, run } => (
            &props.config,
            true,
            run.steps,
            run.sim_time_millis,
        ),
        crate::runner::SimResult::Fail { props, run, .. } => (
            &props.config,
            false,
            run.steps,
            run.sim_time_millis,
        ),
    };
    let mut r = "FINISH ".as_bytes_vec();
    let mut info = render_config_info(config);
    r.append(&mut info);
    let mut label = " successful=".as_bytes_vec();
    r.append(&mut label);
    let mut flag = if successful {
        "true".as_bytes_vec()
    } else {
        "false".as_bytes_vec()
    };
    r.append(&mut flag);
    let mut label2 = " steps=".as_bytes_vec();
    r.append(&mut label2);
    let mut part = u64_text(steps);
    r.append(&mut part);
    let mut label3 = " simulated_time_millis=".as_bytes_vec();
    r.append(&mut label3);
    let mut part2 = u64_text(sim_time_millis);
    r.append(&mut part2);
    proof {
        assert(r@ =~= finish_text(
            match *result {
                crate::runner::SimResult::Success { props, .. } => props.config,
                crate::runner::SimResult::Fail { props, .. } => props.config,
            },
            successful,
            steps,
            sim_time_millis,
        ));
    }
    r
}

/// Determinism of the report: the deterministic part of the FINISH block is
/// a pure function of the run's configuration and measured virtual
/// quantities, so two runs that agree on those — as two runs from the same
/// seed do — print byte-identical blocks.
pub proof fn lemma_finish_block_deterministic(
    c1: crate::config::SimConfig,
    s1: bool,
    k1: u64,
    t1: u64,
    c2: crate::config::SimConfig,
    s2: bool,
    k2: u64,
    t2: u64,
)
    requires
        c1 == c2,
        s1 == s2,
        k1 == k2,
        t1 == t2,
    ensures
        finish_text(c1, s1, k1, t1) == finish_text(c2, s2, k2, t2),
{
}

/// The replay commands a failing run prints: none when the initial seed was
/// pinned from outside (the command line already reproduces the run); with a
/// drawn seed, one command replaying the failing run from its effective
/// seed, and — when the batch had more than one run — a second replaying the
/// whole batch from the initial seed.
pub fn replay_commands(
    seed_fixed: bool,
    runs: u64,
    initial_seed: u64,
    effective_seed: u64,
    argv: &Vec<Vec<u8>>,
) -> (r: Vec<Vec<u8>>)
    ensures
        seed_fixed ==> r@.len() == 0,
        !seed_fixed ==> {
            &&& r@.len() == (if runs > 1 {
                2int
            } else {
                1int
            })
            &&& r@[0]@ == replay_command_spec(argv@, effective_seed)
            &&& runs > 1 ==> r@[1]@ == replay_command_spec(argv@, initial_seed)
        },
{
    let mut r: Vec<Vec<u8>> = Vec::new();
    if seed_fixed {
        return r;
    }
    r.push(render_replay_command(argv, effective_seed));
    if runs > 1 {
        r.push(render_replay_command(argv, initial_seed));
    }
    r
}

} // verus!
