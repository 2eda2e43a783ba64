use perth::integrations::subprocess::{
    Action, CallOutcome, CallReport, Delivery, LifecyclePhase, ProcessEvent, ProcessStatus,
    StopCompletion, StopStep, TerminationWait,
};
use perth::integrations::{AdapterConfig, IntegrationError, SubprocessManager};
use std::time::Duration;
use tokio::sync::mpsc::error::TryRecvError;

fn manager_with(max_restarts: u8, channel_capacity: usize) -> (
    SubprocessManager,
    tokio::sync::mpsc::Receiver<String>,
) {
    let config = AdapterConfig { max_restarts, channel_capacity, ..Default::default() };
    SubprocessManager::new("tool", config)
}

fn line(text: &str) -> ProcessEvent {
    ProcessEvent::StdoutLine(text.to_string())
}

#[test]
fn test_calculate_backoff() {
    let config = AdapterConfig::default();
    let (manager, _rx) = SubprocessManager::new("test", config);

    // First restart: 1 second
    assert_eq!(Duration::from_secs(manager.calculate_backoff(1)), Duration::from_secs(1));

    // Second restart: 2 seconds
    assert_eq!(Duration::from_secs(manager.calculate_backoff(2)), Duration::from_secs(2));

    // Third restart: 4 seconds
    assert_eq!(Duration::from_secs(manager.calculate_backoff(3)), Duration::from_secs(4));

    // Beyond max: caps at 8 seconds
    assert_eq!(Duration::from_secs(manager.calculate_backoff(4)), Duration::from_secs(8));
}

#[test]
fn test_initial_state() {
    let config = AdapterConfig::default();
    let (manager, _rx) = SubprocessManager::new("test", config);

    assert!(!manager.is_healthy());
    assert_eq!(manager.restart_count(), 0);
}

#[test]
fn test_call_nonexistent_command() {
    let config = AdapterConfig::default();
    let (manager, _rx) = SubprocessManager::new("nonexistent_command_xyz_123", config);

    let result = manager.call(
        &["arg1"],
        CallOutcome::SpawnFailed {
            not_found: true,
            reason: "No such file or directory (os error 2)".to_string(),
        },
    );
    assert!(matches!(result, Err(IntegrationError::CliNotFound(_))));
}

#[test]
fn test_call_echo() {
    let config = AdapterConfig::default();
    let (manager, _rx) = SubprocessManager::new("echo", config);

    let result = manager.call(
        &["hello", "world"],
        CallOutcome::Exited {
            success: true,
            code: Some(0),
            stdout: b"hello world\n".to_vec(),
            stderr: Vec::new(),
        },
    );
    assert!(result.is_ok());
    assert_eq!(result.unwrap().trim(), "hello world");
}

#[test]
fn test_backoff_sequence() {
    let (manager, _rx) = manager_with(3, 1);
    let delays: Vec<u64> = (1..=5).map(|count| manager.calculate_backoff(count)).collect();
    assert_eq!(delays, vec![1, 2, 4, 8, 8]);
    assert_eq!(manager.calculate_backoff(0), 1);
    assert_eq!(manager.calculate_backoff(6), 8);
    assert_eq!(manager.calculate_backoff(255), 8);
}

#[test]
fn test_fresh_manager() {
    let (manager, _rx) = SubprocessManager::new("bloodbank", AdapterConfig::default());
    assert_eq!(manager.phase(), LifecyclePhase::Idle);
    assert!(!manager.has_child());
    assert_eq!(manager.command(), "bloodbank");
    assert!(manager.args().is_empty());
    assert_eq!(manager.config().max_restarts, 3);
    assert_eq!(manager.channel_capacity(), 100);
}

#[test]
fn test_call_output_is_not_trimmed() {
    let (manager, _rx) = manager_with(3, 1);
    let result = manager.call(
        &["hello", "world"],
        CallOutcome::Exited {
            success: true,
            code: Some(0),
            stdout: b"hello world\n".to_vec(),
            stderr: b"ignored".to_vec(),
        },
    );
    assert_eq!(result.unwrap(), "hello world\n");
}

#[test]
fn test_call_decodes_leniently() {
    let (manager, _rx) = manager_with(3, 1);
    let result = manager.call(
        &[],
        CallOutcome::Exited {
            success: true,
            code: Some(0),
            stdout: vec![0x68, 0x69, 0xff, 0x21],
            stderr: Vec::new(),
        },
    );
    assert_eq!(result.unwrap(), "hi\u{fffd}!");

    let failed = manager.call(
        &[],
        CallOutcome::Exited {
            success: false,
            code: Some(1),
            stdout: Vec::new(),
            stderr: vec![0xc3, 0xa9, 0x80],
        },
    );
    match failed {
        Err(IntegrationError::ProcessExited { code, stderr }) => {
            assert_eq!(code, 1);
            assert_eq!(stderr, "\u{e9}\u{fffd}");
        }
        other => panic!("expected ProcessExited, got {:?}", other),
    }
}

#[test]
fn test_call_failure_carries_code_and_stderr() {
    let (manager, _rx) = manager_with(3, 1);
    let result = manager.call(
        &["--bad"],
        CallOutcome::Exited {
            success: false,
            code: Some(2),
            stdout: b"partial".to_vec(),
            stderr: b"unknown flag\n".to_vec(),
        },
    );
    match result {
        Err(IntegrationError::ProcessExited { code, stderr }) => {
            assert_eq!(code, 2);
            assert_eq!(stderr, "unknown flag\n");
        }
        other => panic!("expected ProcessExited, got {:?}", other),
    }

    let killed = manager.call(
        &[],
        CallOutcome::Exited {
            success: false,
            code: None,
            stdout: Vec::new(),
            stderr: Vec::new(),
        },
    );
    assert!(matches!(
        killed,
        Err(IntegrationError::ProcessExited { code: -1, stderr }) if stderr.is_empty()
    ));
}

#[test]
fn test_call_timeout() {
    let config = AdapterConfig { call_timeout_secs: 1, ..Default::default() };
    let (manager, _rx) = SubprocessManager::new("sleep", config);
    match manager.call(&["5"], CallOutcome::TimedOut) {
        Err(IntegrationError::Timeout { operation, duration_secs }) => {
            assert_eq!(operation, "sleep 5");
            assert_eq!(duration_secs, 1);
        }
        other => panic!("expected Timeout, got {:?}", other),
    }
    match manager.call(&[], CallOutcome::TimedOut) {
        Err(IntegrationError::Timeout { operation, .. }) => assert_eq!(operation, "sleep "),
        other => panic!("expected Timeout, got {:?}", other),
    }
    match manager.call(&["a", "b c", ""], CallOutcome::TimedOut) {
        Err(IntegrationError::Timeout { operation, .. }) => assert_eq!(operation, "sleep a b c "),
        other => panic!("expected Timeout, got {:?}", other),
    }
}

#[test]
fn test_call_spawn_failure() {
    let (manager, _rx) = SubprocessManager::new("not_a_real_cli_xyz", AdapterConfig::default());
    match manager.call(
        &[],
        CallOutcome::SpawnFailed { not_found: true, reason: "os error 2".to_string() },
    ) {
        Err(IntegrationError::CliNotFound(command)) => assert_eq!(command, "not_a_real_cli_xyz"),
        other => panic!("expected CliNotFound, got {:?}", other),
    }
    match manager.call(
        &[],
        CallOutcome::SpawnFailed { not_found: false, reason: "permission denied".to_string() },
    ) {
        Err(IntegrationError::SpawnFailed(reason)) => assert_eq!(reason, "permission denied"),
        other => panic!("expected SpawnFailed, got {:?}", other),
    }
}

#[test]
fn test_interpret_call_takes_text() {
    let (manager, _rx) = manager_with(3, 1);
    let result = manager.interpret_call(
        &["x"],
        CallReport::Exited {
            success: true,
            code: Some(0),
            stdout: "out".to_string(),
            stderr: "err".to_string(),
        },
    );
    assert_eq!(result.unwrap(), "out");
    let result = manager.interpret_call(
        &["x"],
        CallReport::Exited {
            success: false,
            code: Some(9),
            stdout: "out".to_string(),
            stderr: "err".to_string(),
        },
    );
    assert!(matches!(
        result,
        Err(IntegrationError::ProcessExited { code: 9, stderr }) if stderr == "err"
    ));
    assert!(matches!(
        manager.interpret_call(&["x"], CallReport::TimedOut),
        Err(IntegrationError::Timeout { operation, duration_secs: 30 }) if operation == "tool x"
    ));
    assert!(matches!(
        manager.interpret_call(
            &[],
            CallReport::SpawnFailed { not_found: true, reason: String::new() }
        ),
        Err(IntegrationError::CliNotFound(command)) if command == "tool"
    ));
}

#[test]
fn test_arguments_are_kept_literally() {
    let (mut manager, _rx) = manager_with(3, 1);
    let payload = "hello; rm -rf / && $(reboot) | `id` > /dev/null";
    assert!(matches!(manager.start(&[payload, "--flag", ""]), Action::Spawn));
    assert_eq!(manager.args(), &vec![payload.to_string(), "--flag".to_string(), String::new()]);
    assert_eq!(manager.args().len(), 3);
    assert_eq!(manager.command(), "tool");

    assert!(matches!(manager.step(ProcessEvent::Spawned), Action::Continue));
    assert!(matches!(manager.step(ProcessEvent::StdoutClosed), Action::Backoff { secs: 1 }));
    assert!(matches!(manager.step(ProcessEvent::BackoffElapsed), Action::Spawn));
    assert_eq!(manager.args()[0], payload);
    assert_eq!(manager.args().len(), 3);
}

#[test]
fn test_start_spawns_and_runs() {
    let (mut manager, _rx) = manager_with(3, 4);
    assert!(matches!(manager.start(&["subscribe"]), Action::Spawn));
    assert_eq!(manager.phase(), LifecyclePhase::Spawning);
    assert!(!manager.is_healthy());
    assert!(!manager.has_child());

    assert!(matches!(manager.step(ProcessEvent::Spawned), Action::Continue));
    assert_eq!(manager.phase(), LifecyclePhase::Running);
    assert!(manager.is_healthy());
    assert!(manager.has_child());
    assert_eq!(manager.restart_count(), 0);
}

#[test]
fn test_lines_flow_in_order() {
    let (mut manager, mut rx) = manager_with(3, 4);
    manager.start(&[]);
    manager.step(ProcessEvent::Spawned);
    assert!(matches!(manager.step(line("one")), Action::Continue));
    assert!(matches!(manager.step(line("two")), Action::Continue));
    assert!(matches!(manager.step(line("three")), Action::Continue));
    assert_eq!(rx.try_recv().unwrap(), "one");
    assert_eq!(rx.try_recv().unwrap(), "two");
    assert_eq!(rx.try_recv().unwrap(), "three");
    assert_eq!(rx.try_recv(), Err(TryRecvError::Empty));
}

#[test]
fn test_full_channel_drops_lines() {
    let capacity = 3;
    let (mut manager, mut rx) = manager_with(3, capacity);
    manager.start(&[]);
    manager.step(ProcessEvent::Spawned);
    for i in 0..capacity {
        assert!(matches!(manager.step(line(&format!("line {}", i))), Action::Continue));
    }
    assert!(matches!(manager.step(line("one too many")), Action::LineDropped));
    assert!(matches!(manager.step(line("and another")), Action::LineDropped));
    assert_eq!(manager.phase(), LifecyclePhase::Running);
    assert!(manager.is_healthy());

    for i in 0..capacity {
        assert_eq!(rx.try_recv().unwrap(), format!("line {}", i));
    }
    assert_eq!(rx.try_recv(), Err(TryRecvError::Empty));

    assert!(matches!(manager.step(line("room again")), Action::Continue));
    assert_eq!(rx.try_recv().unwrap(), "room again");
}

#[test]
fn test_capacity_of_one() {
    let (mut manager, mut rx) = manager_with(3, 1);
    assert_eq!(manager.channel_capacity(), 1);
    manager.start(&[]);
    manager.step(ProcessEvent::Spawned);
    assert!(matches!(manager.step(line("kept")), Action::Continue));
    assert!(matches!(manager.step(line("lost")), Action::LineDropped));
    assert_eq!(rx.try_recv().unwrap(), "kept");
    assert_eq!(rx.try_recv(), Err(TryRecvError::Empty));
}

#[test]
fn test_consumer_gone_stops_quietly() {
    let (mut manager, rx) = manager_with(3, 2);
    manager.start(&[]);
    manager.step(ProcessEvent::Spawned);
    drop(rx);
    assert!(matches!(manager.step(line("nobody listens")), Action::Finished(Ok(()))));
    assert_eq!(manager.phase(), LifecyclePhase::Stopped);
    assert!(!manager.is_healthy());
    assert_eq!(manager.restart_count(), 0);
    assert!(matches!(manager.step(line("still nobody")), Action::Finished(Ok(()))));
    assert!(matches!(manager.step(ProcessEvent::BackoffElapsed), Action::Finished(Ok(()))));
}

#[test]
fn test_line_forwarded_for_each_delivery() {
    let (mut manager, _rx) = manager_with(3, 2);
    assert!(matches!(manager.line_forwarded(Delivery::Dropped), Action::Continue));
    assert_eq!(manager.phase(), LifecyclePhase::Idle);

    manager.start(&[]);
    manager.step(ProcessEvent::Spawned);
    manager.step(ProcessEvent::StdoutClosed);
    manager.step(ProcessEvent::BackoffElapsed);
    manager.step(ProcessEvent::Spawned);
    assert_eq!(manager.restart_count(), 1);

    assert!(matches!(manager.line_forwarded(Delivery::Dropped), Action::LineDropped));
    assert_eq!(manager.restart_count(), 0);
    assert!(matches!(manager.line_forwarded(Delivery::Sent), Action::Continue));
    assert_eq!(manager.phase(), LifecyclePhase::Running);
    assert!(matches!(manager.line_forwarded(Delivery::ConsumerGone), Action::Finished(Ok(()))));
    assert_eq!(manager.phase(), LifecyclePhase::Stopped);
    assert!(!manager.is_healthy());
}

#[test]
fn test_restart_ceiling_of_two() {
    let (mut manager, _rx) = manager_with(2, 4);
    let mut restarts = 0;
    let mut pauses = Vec::new();

    assert!(matches!(manager.start(&["fail"]), Action::Spawn));
    assert!(matches!(manager.step(ProcessEvent::Spawned), Action::Continue));
    match manager.step(ProcessEvent::StdoutClosed) {
        Action::Backoff { secs } => pauses.push(secs),
        other => panic!("expected Backoff, got {:?}", other),
    }
    assert_eq!(manager.restart_count(), 1);
    assert!(!manager.is_healthy());
    assert!(!manager.has_child());

    assert!(matches!(manager.step(ProcessEvent::BackoffElapsed), Action::Spawn));
    restarts += 1;
    assert!(matches!(manager.step(ProcessEvent::Spawned), Action::Continue));
    match manager.step(ProcessEvent::StdoutClosed) {
        Action::Backoff { secs } => pauses.push(secs),
        other => panic!("expected Backoff, got {:?}", other),
    }
    assert_eq!(manager.restart_count(), 2);

    assert!(matches!(manager.step(ProcessEvent::BackoffElapsed), Action::Spawn));
    restarts += 1;
    assert!(matches!(manager.step(ProcessEvent::Spawned), Action::Continue));
    match manager.step(ProcessEvent::HealthTick(ProcessStatus::Exited(Some(1)))) {
        Action::Finished(Err(IntegrationError::MaxRestartsExceeded { attempts, last_error })) => {
            assert_eq!(attempts, 2);
            assert_eq!(
                last_error,
                "Process exited with code 1: Process exited during health check"
            );
        }
        other => panic!("expected MaxRestartsExceeded, got {:?}", other),
    }
    assert_eq!(restarts, 2);
    assert_eq!(pauses, vec![1, 2]);
    assert_eq!(manager.phase(), LifecyclePhase::MaxRestartsExceeded);
    assert!(!manager.is_healthy());
    assert!(!manager.has_child());

    for event in [
        ProcessEvent::BackoffElapsed,
        ProcessEvent::Spawned,
        ProcessEvent::StdoutClosed,
        ProcessEvent::ShutdownSignal,
    ] {
        assert!(matches!(
            manager.step(event),
            Action::Finished(Err(IntegrationError::MaxRestartsExceeded { attempts: 2, .. }))
        ));
    }
    assert!(matches!(
        manager.start(&["again"]),
        Action::Finished(Err(IntegrationError::MaxRestartsExceeded { attempts: 2, .. }))
    ));
    assert_eq!(manager.args(), &vec!["fail".to_string()]);
}

fn restarts_until_failure(max_restarts: u8) -> (usize, Vec<u64>, u8) {
    let (mut manager, _rx) = manager_with(max_restarts, 1);
    let mut spawns = 0;
    let mut pauses = Vec::new();
    let mut action = manager.start(&[]);
    loop {
        action = match action {
            Action::Spawn => {
                spawns += 1;
                manager.step(ProcessEvent::SpawnFailed {
                    not_found: true,
                    reason: "missing".to_string(),
                })
            }
            Action::Backoff { secs } => {
                pauses.push(secs);
                manager.step(ProcessEvent::BackoffElapsed)
            }
            Action::Finished(Err(IntegrationError::MaxRestartsExceeded {
                attempts,
                last_error,
            })) => {
                assert_eq!(last_error, "CLI not found: 'tool'. Is it installed and in PATH?");
                return (spawns - 1, pauses, attempts);
            }
            other => panic!("unexpected action {:?}", other),
        };
    }
}

#[test]
fn test_restart_ceiling_for_several_limits() {
    assert_eq!(restarts_until_failure(0), (0, vec![], 0));
    assert_eq!(restarts_until_failure(1), (1, vec![1], 1));
    assert_eq!(restarts_until_failure(2), (2, vec![1, 2], 2));
    assert_eq!(restarts_until_failure(3), (3, vec![1, 2, 4], 3));
    assert_eq!(restarts_until_failure(6), (6, vec![1, 2, 4, 8, 8, 8], 6));
    let (restarts, pauses, attempts) = restarts_until_failure(255);
    assert_eq!(restarts, 255);
    assert_eq!(pauses.len(), 255);
    assert!(pauses[3..].iter().all(|secs| *secs == 8));
    assert_eq!(attempts, 255);
}

#[test]
fn test_crash_errors() {
    let crash_text = |event: ProcessEvent| -> String {
        let (mut manager, _rx) = manager_with(0, 1);
        manager.start(&[]);
        manager.step(ProcessEvent::Spawned);
        match manager.step(event) {
            Action::Finished(Err(IntegrationError::MaxRestartsExceeded {
                attempts: 0,
                last_error,
            })) => last_error,
            other => panic!("expected MaxRestartsExceeded, got {:?}", other),
        }
    };
    assert_eq!(
        crash_text(ProcessEvent::StdoutClosed),
        "Process exited with code 0: Process ended unexpectedly"
    );
    assert_eq!(
        crash_text(ProcessEvent::StdoutFailed("stream did not contain valid UTF-8".to_string())),
        "I/O error: stream did not contain valid UTF-8"
    );
    assert_eq!(
        crash_text(ProcessEvent::HealthTick(ProcessStatus::Exited(Some(137)))),
        "Process exited with code 137: Process exited during health check"
    );
    assert_eq!(
        crash_text(ProcessEvent::HealthTick(ProcessStatus::Exited(None))),
        "Process exited with code -1: Process exited during health check"
    );

    let (mut manager, _rx) = manager_with(0, 1);
    manager.start(&[]);
    match manager.step(ProcessEvent::SpawnFailed {
        not_found: false,
        reason: "permission denied".to_string(),
    }) {
        Action::Finished(Err(IntegrationError::MaxRestartsExceeded { last_error, .. })) => {
            assert_eq!(last_error, "Failed to spawn subprocess: permission denied")
        }
        other => panic!("expected MaxRestartsExceeded, got {:?}", other),
    }
}

#[test]
fn test_line_resets_the_crash_count() {
    let (mut manager, mut rx) = manager_with(3, 8);
    manager.start(&[]);
    manager.step(ProcessEvent::Spawned);
    assert!(matches!(manager.step(ProcessEvent::StdoutClosed), Action::Backoff { secs: 1 }));
    manager.step(ProcessEvent::BackoffElapsed);
    manager.step(ProcessEvent::Spawned);
    assert!(matches!(manager.step(ProcessEvent::StdoutClosed), Action::Backoff { secs: 2 }));
    manager.step(ProcessEvent::BackoffElapsed);
    manager.step(ProcessEvent::Spawned);
    assert_eq!(manager.restart_count(), 2);

    assert!(matches!(manager.step(line("alive")), Action::Continue));
    assert_eq!(manager.restart_count(), 0);
    assert_eq!(rx.try_recv().unwrap(), "alive");

    assert!(matches!(manager.step(ProcessEvent::StdoutClosed), Action::Backoff { secs: 1 }));
    assert_eq!(manager.restart_count(), 1);
}

#[test]
fn test_stderr_and_health_ticks_do_not_end_the_loop() {
    let (mut manager, mut rx) = manager_with(3, 2);
    manager.start(&[]);
    manager.step(ProcessEvent::Spawned);
    for event in [
        ProcessEvent::StderrLine("warning: something".to_string()),
        ProcessEvent::StderrClosed,
        ProcessEvent::StderrFailed("bad bytes".to_string()),
        ProcessEvent::HealthTick(ProcessStatus::Running),
        ProcessEvent::HealthTick(ProcessStatus::Unknown),
        ProcessEvent::Spawned,
        ProcessEvent::BackoffElapsed,
    ] {
        assert!(matches!(manager.step(event), Action::Continue));
        assert_eq!(manager.phase(), LifecyclePhase::Running);
        assert!(manager.is_healthy());
        assert_eq!(manager.restart_count(), 0);
    }
    assert_eq!(rx.try_recv(), Err(TryRecvError::Empty));
}

#[test]
fn test_events_out_of_turn_are_ignored() {
    let (mut manager, mut rx) = manager_with(3, 2);
    manager.start(&[]);
    for event in [line("early"), ProcessEvent::StdoutClosed, ProcessEvent::BackoffElapsed] {
        assert!(matches!(manager.step(event), Action::Continue));
        assert_eq!(manager.phase(), LifecyclePhase::Spawning);
    }
    manager.step(ProcessEvent::SpawnFailed { not_found: false, reason: "x".to_string() });
    assert_eq!(manager.phase(), LifecyclePhase::BackoffWait);
    for event in [line("late"), ProcessEvent::Spawned, ProcessEvent::StdoutClosed] {
        assert!(matches!(manager.step(event), Action::Continue));
        assert_eq!(manager.phase(), LifecyclePhase::BackoffWait);
        assert_eq!(manager.restart_count(), 1);
    }
    assert_eq!(rx.try_recv(), Err(TryRecvError::Empty));
    assert!(matches!(manager.start(&["other"]), Action::Continue));
    assert!(manager.args().is_empty());
}

#[test]
fn test_events_before_start() {
    let (mut manager, _rx) = manager_with(3, 2);
    assert!(matches!(
        manager.step(ProcessEvent::Spawned),
        Action::Finished(Err(IntegrationError::NotRunning))
    ));
    assert!(matches!(
        manager.step(line("x")),
        Action::Finished(Err(IntegrationError::NotRunning))
    ));
    assert_eq!(manager.phase(), LifecyclePhase::Idle);
    assert!(matches!(manager.start(&[]), Action::Spawn));
}

#[test]
fn test_shutdown_signal() {
    for crashes_before in 0..2 {
        let (mut manager, _rx) = manager_with(3, 2);
        manager.start(&[]);
        manager.step(ProcessEvent::Spawned);
        if crashes_before == 1 {
            manager.step(ProcessEvent::StdoutClosed);
            manager.step(ProcessEvent::BackoffElapsed);
            manager.step(ProcessEvent::Spawned);
        }
        assert!(matches!(manager.step(ProcessEvent::ShutdownSignal), Action::Finished(Ok(()))));
        assert_eq!(manager.phase(), LifecyclePhase::Stopped);
        assert!(!manager.is_healthy());
        assert_eq!(manager.restart_count(), crashes_before);
        assert!(manager.has_child());
        assert!(matches!(manager.stop(), StopStep::Terminate { grace_secs: 2 }));
        assert_eq!(manager.complete_stop(TerminationWait::Exited), StopCompletion::Done);
        assert!(!manager.has_child());
    }

    let (mut manager, _rx) = manager_with(3, 2);
    manager.start(&[]);
    assert!(matches!(manager.step(ProcessEvent::ShutdownSignal), Action::Finished(Ok(()))));
    assert_eq!(manager.phase(), LifecyclePhase::Stopped);
    assert!(matches!(manager.start(&[]), Action::Finished(Ok(()))));

    let (mut manager, _rx) = manager_with(3, 2);
    manager.start(&[]);
    manager.step(ProcessEvent::SpawnFailed { not_found: true, reason: String::new() });
    assert!(matches!(manager.step(ProcessEvent::ShutdownSignal), Action::Finished(Ok(()))));
    assert!(matches!(manager.step(ProcessEvent::BackoffElapsed), Action::Finished(Ok(()))));
}

#[test]
fn test_stop_never_started() {
    let (mut manager, _rx) = SubprocessManager::new("test", AdapterConfig::default());
    assert_eq!(manager.stop(), StopStep::Done);
    assert_eq!(manager.phase(), LifecyclePhase::Idle);
    assert!(!manager.is_healthy());
    assert!(!manager.has_child());
    assert_eq!(manager.stop(), StopStep::Done);
    assert_eq!(manager.complete_stop(TerminationWait::GraceExpired), StopCompletion::Done);
    assert_eq!(manager.phase(), LifecyclePhase::Idle);
    assert!(matches!(manager.start(&[]), Action::Spawn));
}

#[test]
fn test_stop_twice() {
    let config = AdapterConfig { shutdown_timeout_secs: 7, ..Default::default() };
    let (mut manager, _rx) = SubprocessManager::new("test", config);
    manager.start(&[]);
    manager.step(ProcessEvent::Spawned);
    assert!(manager.is_healthy());

    assert_eq!(manager.stop(), StopStep::Terminate { grace_secs: 7 });
    assert!(!manager.is_healthy());
    assert_eq!(manager.phase(), LifecyclePhase::Stopped);
    assert_eq!(manager.complete_stop(TerminationWait::Exited), StopCompletion::Done);
    assert!(!manager.has_child());

    assert_eq!(manager.stop(), StopStep::Done);
    assert!(!manager.is_healthy());
    assert_eq!(manager.phase(), LifecyclePhase::Stopped);
    assert!(matches!(manager.step(ProcessEvent::StdoutClosed), Action::Finished(Ok(()))));
}

#[test]
fn test_stop_escalates_after_the_grace_period() {
    let (mut manager, _rx) = manager_with(3, 2);
    manager.start(&[]);
    manager.step(ProcessEvent::Spawned);
    assert!(matches!(manager.stop(), StopStep::Terminate { grace_secs: 2 }));
    assert_eq!(manager.complete_stop(TerminationWait::GraceExpired), StopCompletion::ForceKill);
    assert!(!manager.has_child());
    assert!(!manager.is_healthy());
    assert_eq!(manager.complete_stop(TerminationWait::GraceExpired), StopCompletion::Done);

    let (mut manager, _rx) = manager_with(3, 2);
    manager.start(&[]);
    manager.step(ProcessEvent::Spawned);
    manager.stop();
    assert_eq!(manager.complete_stop(TerminationWait::WaitFailed), StopCompletion::Done);
    assert!(!manager.has_child());
}

#[test]
fn test_stop_during_backoff() {
    let (mut manager, _rx) = manager_with(3, 2);
    manager.start(&[]);
    manager.step(ProcessEvent::SpawnFailed { not_found: false, reason: "x".to_string() });
    assert_eq!(manager.phase(), LifecyclePhase::BackoffWait);
    assert_eq!(manager.stop(), StopStep::Done);
    assert_eq!(manager.phase(), LifecyclePhase::Stopped);
    assert!(matches!(manager.step(ProcessEvent::BackoffElapsed), Action::Finished(Ok(()))));
}

#[test]
fn test_reset_restart_count() {
    let (mut manager, _rx) = manager_with(3, 2);
    manager.start(&[]);
    manager.step(ProcessEvent::SpawnFailed { not_found: false, reason: "x".to_string() });
    manager.step(ProcessEvent::BackoffElapsed);
    manager.step(ProcessEvent::SpawnFailed { not_found: false, reason: "y".to_string() });
    assert_eq!(manager.restart_count(), 2);
    manager.reset_restart_count();
    assert_eq!(manager.restart_count(), 0);
    assert_eq!(manager.phase(), LifecyclePhase::BackoffWait);
}

#[test]
fn test_no_restart_allowed() {
    let (mut manager, _rx) = manager_with(0, 2);
    assert!(matches!(manager.start(&["x"]), Action::Spawn));
    match manager.step(ProcessEvent::SpawnFailed { not_found: true, reason: String::new() }) {
        Action::Finished(Err(IntegrationError::MaxRestartsExceeded { attempts, last_error })) => {
            assert_eq!(attempts, 0);
            assert_eq!(last_error, "CLI not found: 'tool'. Is it installed and in PATH?");
        }
        other => panic!("expected MaxRestartsExceeded, got {:?}", other),
    }
    assert_eq!(manager.phase(), LifecyclePhase::MaxRestartsExceeded);
    assert!(!manager.is_healthy());
}

#[test]
fn test_restart_after_a_healthy_spell() {
    let (mut manager, mut rx) = manager_with(1, 2);
    manager.start(&[]);
    manager.step(ProcessEvent::Spawned);
    assert!(matches!(manager.step(ProcessEvent::StdoutClosed), Action::Backoff { secs: 1 }));
    manager.step(ProcessEvent::BackoffElapsed);
    manager.step(ProcessEvent::Spawned);
    assert_eq!(manager.restart_count(), 1);
    assert!(matches!(manager.step(line("alive")), Action::Continue));
    assert_eq!(rx.try_recv().unwrap(), "alive");
    assert!(matches!(manager.step(ProcessEvent::StdoutClosed), Action::Backoff { secs: 1 }));
    manager.step(ProcessEvent::BackoffElapsed);
    manager.step(ProcessEvent::Spawned);
    assert!(matches!(
        manager.step(ProcessEvent::StdoutClosed),
        Action::Finished(Err(IntegrationError::MaxRestartsExceeded { attempts: 1, .. }))
    ));
}
