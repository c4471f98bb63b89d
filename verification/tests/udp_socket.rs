use rust_async::udp_socket::{io_step, IoStep};

#[test]
fn success_ends_the_operation() {
    assert!(matches!(io_step::<usize, &str>(Ok(17), false), IoStep::Return(Ok(17))));
    assert!(matches!(io_step::<usize, &str>(Ok(17), true), IoStep::Return(Ok(17))));
}

#[test]
fn would_block_waits_for_readiness() {
    assert!(matches!(io_step::<usize, &str>(Err("busy"), true), IoStep::AwaitReadiness));
}

#[test]
fn other_errors_end_the_operation() {
    assert!(matches!(io_step::<usize, &str>(Err("refused"), false), IoStep::Return(Err("refused"))));
}

#[test]
fn loop_returns_first_attempt_that_does_not_block() {
    let attempts: Vec<(Result<usize, &str>, bool)> =
        vec![(Err("busy"), true), (Err("busy"), true), (Ok(5), false), (Err("late"), false)];
    let mut outcome = None;
    for (attempt, would_block) in attempts {
        if let IoStep::Return(r) = io_step(attempt, would_block) {
            outcome = Some(r);
            break;
        }
    }
    assert_eq!(outcome, Some(Ok(5)));
}
