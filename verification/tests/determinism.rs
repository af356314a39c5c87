//! Determinism of the seeded machinery: the generator, the clock, the
//! per-run setup, the plans, and the scheduling decisions.

use dst_demo::banker::{BankerInteractionPlan, Interaction};
use dst_demo::config::{SimConfig, SimDuration};
use dst_demo::env::{EnvOverrides, SimEnv};
use dst_demo::fault_injector::FaultInjectionInteractionPlan;
use dst_demo::health_checker::HealthCheckInteractionPlan;
use dst_demo::orchestrator::SimOrchestrator;
use dst_demo::rng::{GenericRng, Rng, SimulatorRng};
use dst_demo::runner::{
    begin_tick, classify_result, effective_seed, interpret_topology_event, is_duration_sentinel,
    run_setup, steps_executed, LoopCommand, LoopEnd, SimProperties, SimResult, SimRunProperties,
    TickControl, TopologyEvent,
};
use dst_demo::scenario::{banker_name, suffixed_name, ScenarioState, Simulator};

#[test]
fn rng_streams_repeat() {
    let mut a = Rng::from_seed(42);
    let mut b = Rng::from_seed(42);
    for _ in 0..100 {
        assert_eq!(a.draw_u64(), b.draw_u64());
    }
    let mut c = Rng::from_seed(43);
    let first_a = Rng::from_seed(42).draw_u64();
    let first_c = c.draw_u64();
    assert_ne!(first_a, first_c);
}

#[test]
fn rng_ranges_stay_in_bounds() {
    let mut rng = Rng::from_seed(7);
    for _ in 0..200 {
        let v = rng.gen_range(10, 20);
        assert!((10..20).contains(&v));
        let w = rng.gen_range_disti(1, 1_000_000, 10);
        assert!((1..1_000_000).contains(&w));
    }
}

#[test]
fn generic_rng_delegates() {
    let mut raw = SimulatorRng::new(5);
    let mut wrapped = Rng::from_seed(5);
    assert_eq!(raw.next_u64(), wrapped.next_u64());
}

#[test]
fn clock_follows_the_step_counter() {
    let mut env = SimEnv::new(
        1,
        EnvOverrides { epoch_offset: Some(0), step_multiplier: Some(1) },
    );
    env.reset_epoch_offset();
    env.reset_step_multiplier();
    assert_eq!(env.now_millis(), 1);
    let mut previous = env.now_millis();
    for k in 2..100u64 {
        env.next_step();
        let now = env.now_millis();
        assert!(now > previous);
        assert_eq!(now, k);
        previous = now;
    }
}

#[test]
fn clock_scales_with_the_multiplier() {
    let mut env = SimEnv::new(
        9,
        EnvOverrides { epoch_offset: Some(1000), step_multiplier: Some(250) },
    );
    env.reset_epoch_offset();
    env.reset_step_multiplier();
    assert_eq!(env.now_millis(), 1000 + 250);
    env.next_step();
    assert_eq!(env.now_millis(), 1000 + 2 * 250);
}

#[test]
fn effective_seeds_form_a_pure_sequence() {
    assert_eq!(effective_seed(1234, 1), 1234);
    let second = effective_seed(1234, 2);
    let third = effective_seed(1234, 3);
    assert_eq!(effective_seed(1234, 2), second);
    assert_eq!(effective_seed(1234, 3), third);
    assert_ne!(second, 1234);
    assert_ne!(third, second);
}

#[test]
fn run_setup_repeats_exactly() {
    let ov = EnvOverrides { epoch_offset: None, step_multiplier: None };
    let a = run_setup(99, 4, ov);
    let b = run_setup(99, 4, ov);
    assert_eq!(a.epoch_offset, b.epoch_offset);
    assert_eq!(a.step_multiplier, b.step_multiplier);
    assert_eq!(a.step, 1);
    let config_a = SimConfig::from_env(effective_seed(99, 4), SimDuration::Millis(500), &a);
    let config_b = SimConfig::from_env(effective_seed(99, 4), SimDuration::Millis(500), &b);
    assert_eq!(config_a, config_b);
    assert_eq!(config_a.seed, effective_seed(99, 4));
}

#[test]
fn overrides_pin_the_clock() {
    let ov = EnvOverrides { epoch_offset: Some(0), step_multiplier: Some(0) };
    let env = run_setup(5, 1, ov);
    assert_eq!(env.epoch_offset, Some(0));
    assert_eq!(env.step_multiplier, Some(1));
}

#[test]
fn banker_plans_restart_identically() {
    let mut rng1 = Rng::from_seed(77);
    let plan1 = BankerInteractionPlan::new().with_gen_interactions(&mut rng1, 1000);
    let mut rng2 = Rng::from_seed(77);
    let plan2 = BankerInteractionPlan::new().with_gen_interactions(&mut rng2, 1000);
    assert_eq!(plan1.plan.len(), 1000);
    assert_eq!(plan1.plan, plan2.plan);
    assert_eq!(plan1.context.curr_id, plan2.context.curr_id);

    let mut rng3 = Rng::from_seed(78);
    let plan3 = BankerInteractionPlan::new().with_gen_interactions(&mut rng3, 1000);
    assert_ne!(plan1.plan, plan3.plan);
}

#[test]
fn banker_plan_steps_through_its_actions() {
    let mut plan = BankerInteractionPlan::new()
        .with_interaction(Interaction::GetBalance)
        .with_interaction(Interaction::Sleep(5));
    assert_eq!(plan.step().copied(), Some(Interaction::GetBalance));
    assert_eq!(plan.step().copied(), Some(Interaction::Sleep(5)));
    assert_eq!(plan.step(), None);
}

#[test]
fn banker_plan_tracks_created_entities() {
    let mut plan = BankerInteractionPlan::new();
    plan.add_interaction(Interaction::CreateTransaction { amount: 500 });
    plan.add_interaction(Interaction::VoidTransaction { id: 1 });
    plan.add_interaction(Interaction::VoidTransaction { id: 99 });
    assert_eq!(plan.context.transactions.len(), 2);
    assert_eq!(plan.context.curr_id, 3);
    plan.step();
    let amounts = plan.consumed_created_amounts();
    assert_eq!(amounts, vec![500]);
}

#[test]
fn fault_plans_restart_identically() {
    let mut rng1 = Rng::from_seed(3);
    let plan1 = FaultInjectionInteractionPlan::new()
        .with_step_multiplier(7)
        .with_gen_interactions(&mut rng1, 1000);
    let mut rng2 = Rng::from_seed(3);
    let plan2 = FaultInjectionInteractionPlan::new()
        .with_step_multiplier(7)
        .with_gen_interactions(&mut rng2, 1000);
    assert_eq!(plan1.plan, plan2.plan);
    assert_eq!(plan1.plan.len(), 1000);
}

#[test]
fn health_plans_restart_identically() {
    let mut rng1 = Rng::from_seed(11);
    let plan1 = HealthCheckInteractionPlan::new().with_gen_interactions(&mut rng1, 500);
    let mut rng2 = Rng::from_seed(11);
    let plan2 = HealthCheckInteractionPlan::new().with_gen_interactions(&mut rng2, 500);
    assert_eq!(plan1.plan, plan2.plan);
}

#[test]
fn zero_duration_ends_before_step_two() {
    let ov = EnvOverrides { epoch_offset: Some(0), step_multiplier: Some(1) };
    let mut env = run_setup(1, 1, ov);
    let control = begin_tick(&mut env, SimDuration::Millis(0), 1);
    assert!(matches!(control, TickControl::Stop { .. }));
    assert!(steps_executed(&env) <= 1);
    let props = SimProperties {
        run_number: 1,
        thread_id: None,
        config: SimConfig::from_env(1, SimDuration::Millis(0), &env),
        extra: Vec::new(),
    };
    let run = SimRunProperties { steps: steps_executed(&env), real_time_millis: 0, sim_time_millis: 0 };
    let result = classify_result(props, run, LoopEnd::Finished, None);
    assert!(result.is_success());
}

#[test]
fn tick_loop_counts_its_steps() {
    let ov = EnvOverrides { epoch_offset: Some(0), step_multiplier: Some(1) };
    let mut env = run_setup(1, 1, ov);
    let mut ticks = 0u64;
    loop {
        match begin_tick(&mut env, SimDuration::Millis(500), 1) {
            TickControl::Stop { .. } => break,
            TickControl::Run { .. } => ticks += 1,
            TickControl::Cancelled => unreachable!(),
        }
    }
    assert_eq!(steps_executed(&env), ticks + 1);
    assert!((498..=500).contains(&steps_executed(&env)));
    assert!(matches!(
        begin_tick(&mut env, SimDuration::Millis(500), 1),
        TickControl::Cancelled
    ));
}

#[test]
fn duration_sentinel_ends_the_run_quietly() {
    let sentinel = b"Ran for duration: 10s steps: 42 without completing".to_vec();
    assert!(is_duration_sentinel(&sentinel));
    assert!(!is_duration_sentinel(&b"connection refused".to_vec()));
    assert!(matches!(
        interpret_topology_event(TopologyEvent::Errored(sentinel)),
        LoopCommand::Break
    ));
    assert!(matches!(
        interpret_topology_event(TopologyEvent::Errored(b"connection refused".to_vec())),
        LoopCommand::Fail(_)
    ));
    assert!(matches!(
        interpret_topology_event(TopologyEvent::Completed),
        LoopCommand::Break
    ));
    assert!(matches!(
        interpret_topology_event(TopologyEvent::NotCompleted),
        LoopCommand::Continue
    ));
}

#[test]
fn failures_classify_by_precedence() {
    let mk_props = || SimProperties {
        run_number: 1,
        thread_id: Some(2),
        config: SimConfig::from_env(
            1,
            SimDuration::Unbounded,
            &run_setup(1, 1, EnvOverrides { epoch_offset: Some(0), step_multiplier: Some(1) }),
        ),
        extra: Vec::new(),
    };
    let run = SimRunProperties { steps: 3, real_time_millis: 1, sim_time_millis: 3 };

    let r = classify_result(mk_props(), run, LoopEnd::Finished, None);
    assert!(r.is_success());

    let r = classify_result(mk_props(), run, LoopEnd::Finished, Some(b"boom".to_vec()));
    assert!(!r.is_success());
    match r {
        SimResult::Fail { error, panic, .. } => {
            assert_eq!(error, None);
            assert_eq!(panic, Some(b"boom".to_vec()));
        },
        SimResult::Success { .. } => unreachable!(),
    }

    let r = classify_result(mk_props(), run, LoopEnd::Errored(b"tick".to_vec()), None);
    match r {
        SimResult::Fail { error, .. } => assert_eq!(error, Some(b"tick".to_vec())),
        SimResult::Success { .. } => unreachable!(),
    }

    let r = classify_result(mk_props(), run, LoopEnd::Panicked(b"unwind".to_vec()), None);
    match r {
        SimResult::Fail { error, .. } => assert_eq!(error, Some(b"unwind".to_vec())),
        SimResult::Success { .. } => unreachable!(),
    }
}

#[test]
fn sequential_orchestration_keeps_run_order() {
    let mut orchestrator = SimOrchestrator::new(3, 0);
    assert!(orchestrator.sequential());
    assert_eq!(orchestrator.effective_parallelism(), 0);
    let mut order: Vec<u64> = Vec::new();
    while let Some(run_number) = orchestrator.claim_run() {
        order.push(run_number);
        let env = run_setup(1, run_number, EnvOverrides {
            epoch_offset: Some(0),
            step_multiplier: Some(1),
        });
        let props = SimProperties {
            run_number,
            thread_id: None,
            config: SimConfig::from_env(effective_seed(1, run_number), SimDuration::Millis(1), &env),
            extra: Vec::new(),
        };
        let run = SimRunProperties { steps: 1, real_time_millis: 0, sim_time_millis: 1 };
        orchestrator.record_result(0, classify_result(props, run, LoopEnd::Finished, None));
    }
    assert_eq!(order, vec![1, 2, 3]);
    let results = orchestrator.collect();
    assert_eq!(results.len(), 3);
    let numbers: Vec<u64> = results
        .iter()
        .map(|r| match r {
            SimResult::Success { props, .. } => props.run_number,
            SimResult::Fail { props, .. } => props.run_number,
        })
        .collect();
    assert_eq!(numbers, vec![1, 2, 3]);
}

#[test]
fn ending_the_batch_stops_claims() {
    let mut orchestrator = SimOrchestrator::new(100, 4);
    assert_eq!(orchestrator.effective_parallelism(), 4);
    assert_eq!(orchestrator.claim_run(), Some(1));
    assert_eq!(orchestrator.claim_run(), Some(2));
    orchestrator.ctrl_c();
    assert_eq!(orchestrator.claim_run(), None);
}

#[test]
fn scenario_names_and_capacity() {
    assert_eq!(banker_name(3), b"banker_3".to_vec());
    assert_eq!(suffixed_name(&b"banker_3".to_vec(), 2), b"banker_3_2".to_vec());

    let simulator = Simulator;
    let env = run_setup(1, 1, EnvOverrides { epoch_offset: Some(0), step_multiplier: Some(1) });
    let config = SimConfig::from_env(1, SimDuration::Unbounded, &env);
    let sized = simulator.build_sim(10, config);
    assert_eq!(sized.tcp_capacity, 640);
    let sized = simulator.build_sim(0, config);
    assert_eq!(sized.tcp_capacity, 64);
    let props = simulator.props(10);
    assert_eq!(props[0].0, b"banker_count".to_vec());
    assert_eq!(props[0].1, b"10".to_vec());
}

#[test]
fn scenario_state_queues_and_drains() {
    let mut state = ScenarioState::new();
    let mut rng = Rng::from_seed(1);
    let count = state.banker_count(&mut rng, None);
    assert!((1..30).contains(&count));
    let mut rng2 = Rng::from_seed(1);
    assert_eq!(state.banker_count(&mut rng2, None), count);
    let pinned = state.reset_banker_count(&mut rng, Some(12));
    assert_eq!(pinned, 12);

    assert_eq!(state.claim_banker_id(), 1);
    assert_eq!(state.claim_banker_id(), 2);
    state.reset_id();
    assert_eq!(state.claim_banker_id(), 1);

    state.queue_bounce(b"dst_demo_server".to_vec());
    state.queue_bounce(b"dst_demo_server".to_vec());
    let drained = state.drain_actions();
    assert_eq!(drained.len(), 2);
    assert_eq!(state.drain_actions().len(), 0);
}
