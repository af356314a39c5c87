//! Environment-value parsing and the replay commands of failing runs.

use dst_demo::report::{
    extract_replay_seed, parse_duration_millis, prettify_program, render_replay_command,
    replay_commands,
};
use dst_demo::config::{SimConfig, SimDuration};
use dst_demo::env::EnvOverrides;
use dst_demo::link::Link;
use dst_demo::report::render_finish_block;
use dst_demo::runner::{
    classify_result, run_setup, LoopEnd, SimProperties, SimResult, SimRunProperties,
};
use dst_demo::text::{i32_text, i64_text, parse_i32, parse_i64, parse_u64, u64_text};

#[test]
fn numbers_render_and_parse() {
    assert_eq!(u64_text(0), b"0".to_vec());
    assert_eq!(u64_text(18446744073709551615), b"18446744073709551615".to_vec());
    assert_eq!(parse_u64(&b"0".to_vec()), Some(0));
    assert_eq!(parse_u64(&b"+42".to_vec()), Some(42));
    assert_eq!(parse_u64(&b"18446744073709551615".to_vec()), Some(u64::MAX));
    assert_eq!(parse_u64(&b"18446744073709551616".to_vec()), None);
    assert_eq!(parse_u64(&b"".to_vec()), None);
    assert_eq!(parse_u64(&b"12x".to_vec()), None);

    assert_eq!(i64_text(-25), b"-25".to_vec());
    assert_eq!(i32_text(i32::MIN), b"-2147483648".to_vec());
    assert_eq!(parse_i64(&b"-25".to_vec()), Some(-25));
    assert_eq!(parse_i32(&b"-2147483648".to_vec()), Some(i32::MIN));
    assert_eq!(parse_i32(&b"2147483648".to_vec()), None);
    assert_eq!(parse_i32(&b"--3".to_vec()), None);
}

#[test]
fn durations_parse_by_suffix() {
    assert_eq!(parse_duration_millis(&b"500".to_vec()), Some(500));
    assert_eq!(parse_duration_millis(&b"500ms".to_vec()), Some(500));
    assert_eq!(parse_duration_millis(&b"2s".to_vec()), Some(2000));
    assert_eq!(parse_duration_millis(&b"1500000ns".to_vec()), Some(1));
    assert_eq!(parse_duration_millis(&"3000µs".as_bytes().to_vec()), Some(3));
    assert_eq!(parse_duration_millis(&b"999ns".to_vec()), Some(0));
    assert_eq!(parse_duration_millis(&b"fast".to_vec()), None);
    assert_eq!(parse_duration_millis(&b"".to_vec()), None);
    assert_eq!(parse_duration_millis(&b"18446744073709551615s".to_vec()), None);
}

#[test]
fn replay_commands_name_the_seed() {
    let argv = vec![b"target/debug/simulator".to_vec(), b"--quiet".to_vec()];
    let command = render_replay_command(&argv, 7);
    assert_eq!(command, b"SIMULATOR_SEED=7 cargo run -p simulator --quiet".to_vec());
    assert_eq!(extract_replay_seed(&command), Some(7));

    let argv = vec![b"/usr/bin/simulator".to_vec()];
    let command = render_replay_command(&argv, 123456789);
    assert_eq!(command, b"SIMULATOR_SEED=123456789 /usr/bin/simulator".to_vec());
    assert_eq!(extract_replay_seed(&command), Some(123456789));

    assert_eq!(extract_replay_seed(&b"cargo run".to_vec()), None);
}

#[test]
fn cargo_paths_prettify() {
    assert_eq!(
        prettify_program(&b"target/debug/simulator".to_vec()),
        b"cargo run -p simulator".to_vec()
    );
    assert_eq!(
        prettify_program(&b"/repo/target/release/simulator".to_vec()),
        b"cargo run -p simulator".to_vec()
    );
    assert_eq!(prettify_program(&b"/usr/bin/simulator".to_vec()), b"/usr/bin/simulator".to_vec());
}

#[test]
fn fixed_seeds_emit_no_replay() {
    let argv = vec![b"sim".to_vec()];
    assert_eq!(replay_commands(true, 1, 5, 5, &argv).len(), 0);
    assert_eq!(replay_commands(true, 10, 5, 6, &argv).len(), 0);
    let drawn = replay_commands(false, 1, 5, 5, &argv);
    assert_eq!(drawn.len(), 1);
    let batch = replay_commands(false, 16, 1000, 31337, &argv);
    assert_eq!(batch.len(), 2);
    assert_eq!(extract_replay_seed(&batch[0]), Some(31337));
    assert_eq!(extract_replay_seed(&batch[1]), Some(1000));
}

#[test]
fn finish_blocks_are_reproducible() {
    let make_result = || {
        let env = run_setup(
            9,
            1,
            EnvOverrides { epoch_offset: Some(7), step_multiplier: Some(2) },
        );
        let props = SimProperties {
            run_number: 1,
            thread_id: None,
            config: SimConfig::from_env(9, SimDuration::Millis(500), &env),
            extra: Vec::new(),
        };
        // Only the real-time measurement may differ between two runs of the
        // same seed; the block must not show it.
        let run = SimRunProperties {
            steps: 500,
            real_time_millis: 1234,
            sim_time_millis: 500,
        };
        classify_result(props, run, LoopEnd::Finished, None)
    };
    let first = render_finish_block(&make_result());
    let again = {
        let env = run_setup(
            9,
            1,
            EnvOverrides { epoch_offset: Some(7), step_multiplier: Some(2) },
        );
        let props = SimProperties {
            run_number: 1,
            thread_id: None,
            config: SimConfig::from_env(9, SimDuration::Millis(500), &env),
            extra: Vec::new(),
        };
        let run = SimRunProperties {
            steps: 500,
            real_time_millis: 77,
            sim_time_millis: 500,
        };
        render_finish_block(&classify_result(props, run, LoopEnd::Finished, None))
    };
    assert_eq!(first, again);
    assert_eq!(
        first,
        b"FINISH seed=9 duration=500ms tick_ms=1 epoch_offset=7 step_multiplier=2 \
tcp_capacity=64 enable_random_order=false successful=true steps=500 \
simulated_time_millis=500"
            .to_vec()
    );
    let failed = {
        let SimResult::Success { props, run } = make_result() else {
            unreachable!();
        };
        classify_result(props, run, LoopEnd::Errored(b"tick".to_vec()), None)
    };
    let block = render_finish_block(&failed);
    assert!(block.ends_with(b"successful=false steps=500 simulated_time_millis=500"));
}

#[test]
fn links_enforce_their_budget() {
    let mut link = Link::new(100);
    assert!(link.try_send(60));
    assert!(link.try_send(40));
    assert!(!link.try_send(1));
    assert_eq!(link.total_in_flight(), 100);
    assert_eq!(link.deliver(), Some(60));
    assert_eq!(link.total_in_flight(), 40);
    assert!(link.try_send(25));
    assert_eq!(link.deliver(), Some(40));
    assert_eq!(link.deliver(), Some(25));
    assert_eq!(link.deliver(), None);
}
