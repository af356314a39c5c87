//! Selecting over several sleeps resolves to the one that becomes ready
//! first, whatever order the branches are declared in.

use dst_demo::env::{poll_until_cancelled, CancellationState, WaitPoll};
use dst_demo::futures::{build_runtime, Builder, Sleep};

#[test]
fn can_select_2_futures() {
    let builder = Builder::new();
    let mut runtime = build_runtime(&builder);

    let winner = runtime.select_sleeps(&vec![100, 200]).unwrap();
    if winner != 0 {
        panic!("Should have selected other future");
    }

    let winner = runtime.select_sleeps(&vec![200, 100]).unwrap();
    if winner != 1 {
        panic!("Should have selected other future");
    }
}

#[test]
fn can_select_3_futures() {
    let builder = Builder::new();
    let mut runtime = build_runtime(&builder);

    let winner = runtime.select_sleeps(&vec![10, 100, 200]).unwrap();
    if winner != 0 {
        panic!("Should have selected other future");
    }

    let winner = runtime.select_sleeps(&vec![10, 200, 100]).unwrap();
    if winner != 0 {
        panic!("Should have selected other future");
    }

    let winner = runtime.select_sleeps(&vec![200, 10, 100]).unwrap();
    if winner != 1 {
        panic!("Should have selected other future");
    }

    let winner = runtime.select_sleeps(&vec![200, 100, 10]).unwrap();
    if winner != 2 {
        panic!("Should have selected other future");
    }
}

#[test]
fn sleep_is_pending_on_first_poll() {
    let mut sleep = Sleep::new(5, 0);
    assert!(!sleep.poll(5));
    assert!(sleep.poll(5));
    assert!(sleep.is_terminated());
}

#[test]
fn sleep_resolves_once_cancelled() {
    let mut cancel = CancellationState::new();
    let mut sleep = Sleep::new(0, 1_000_000);
    assert!(matches!(sleep.poll_cancellable(0, &cancel), WaitPoll::Pending));
    cancel.cancel_simulation();
    assert!(matches!(sleep.poll_cancellable(1, &cancel), WaitPoll::Cancelled));
}

#[test]
fn wait_resolves_once_cancelled() {
    let mut cancel = CancellationState::new();
    assert!(matches!(poll_until_cancelled(&cancel, false), WaitPoll::Pending));
    assert!(matches!(poll_until_cancelled(&cancel, true), WaitPoll::Finished));
    cancel.cancel_simulation();
    assert!(matches!(poll_until_cancelled(&cancel, false), WaitPoll::Cancelled));
    assert!(matches!(poll_until_cancelled(&cancel, true), WaitPoll::Cancelled));
}
