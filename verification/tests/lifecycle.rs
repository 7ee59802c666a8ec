use kicad_gateway::config::{load_from, CliOverrides, ConfigEnv};
use kicad_gateway::lifecycle::{
    cli_start_plan, cli_status_report, cli_stop_plan, ensure_ready_step, max_watchdog_delay,
    min_watchdog_delay, next_watchdog_delay, CliDaemonStatus, CliStartPlan, CliStopPlan,
    ConfigView, DaemonLifecycleState, EnsureAction, EnsureEvent, EnsurePhase, ProbeOutcome,
    ShutdownAnswer, StopContext,
};
use kicad_gateway::time_model::Duration;

#[test]
fn watchdog_backoff_is_bounded() {
    let mut delay = min_watchdog_delay();
    for _ in 0..10 {
        delay = next_watchdog_delay(delay);
    }
    assert_eq!(delay, max_watchdog_delay());
}

#[test]
fn watchdog_backoff_doubles_from_two_seconds() {
    let mut delay = min_watchdog_delay();
    assert_eq!(delay, Duration::seconds(2));
    let mut seen = Vec::new();
    for _ in 0..5 {
        delay = next_watchdog_delay(delay);
        seen.push(delay.nanos / 1_000_000_000);
    }
    assert_eq!(seen, vec![4, 8, 16, 30, 30]);
}

fn updates(step: &kicad_gateway::lifecycle::EnsureStep) -> Vec<(DaemonLifecycleState, Option<String>)> {
    step.updates
        .iter()
        .map(|u| (u.state, u.message.clone()))
        .collect()
}

#[test]
fn first_start_clears_the_marker_then_probes() {
    let step = ensure_ready_step(EnsurePhase::Start { first_start: true }, EnsureEvent::Begin);
    assert_eq!(step.phase, EnsurePhase::AwaitMarkerCleared);
    assert_eq!(step.action, EnsureAction::ClearStopMarker);
    let step = ensure_ready_step(step.phase, EnsureEvent::MarkerCleared);
    assert_eq!(step.action, EnsureAction::Probe);
    let step = ensure_ready_step(
        step.phase,
        EnsureEvent::Probed {
            outcome: ProbeOutcome::Ready,
            marker_present: false,
        },
    );
    assert_eq!(step.phase, EnsurePhase::Finished);
    assert_eq!(
        step.action,
        EnsureAction::Finish {
            ok: true,
            message: None
        }
    );
    assert_eq!(updates(&step), vec![(DaemonLifecycleState::Ready, None)]);
}

#[test]
fn an_explicit_cli_stop_is_never_overridden() {
    let step = ensure_ready_step(EnsurePhase::Start { first_start: false }, EnsureEvent::Begin);
    assert_eq!(step.action, EnsureAction::CheckStopMarker);
    let step = ensure_ready_step(step.phase, EnsureEvent::MarkerChecked { present: true });
    let message = "Gateway daemon was stopped explicitly from the CLI. Run `kicad-mcp-gateway daemon start` or reopen Gateway Desktop.".to_string();
    assert_eq!(step.phase, EnsurePhase::Finished);
    assert_eq!(
        step.action,
        EnsureAction::Finish {
            ok: false,
            message: Some(message.clone())
        }
    );
    assert_eq!(updates(&step), vec![(DaemonLifecycleState::Stopped, Some(message))]);
}

#[test]
fn an_incompatible_endpoint_is_refused_without_launching() {
    let step = ensure_ready_step(
        EnsurePhase::AwaitProbe,
        EnsureEvent::Probed {
            outcome: ProbeOutcome::Incompatible("wrong product".to_string()),
            marker_present: false,
        },
    );
    let message = "Refusing local endpoint: wrong product. No alternate endpoint or process will be used.".to_string();
    assert_eq!(
        step.action,
        EnsureAction::Finish {
            ok: false,
            message: Some(message.clone())
        }
    );
    assert_eq!(updates(&step), vec![(DaemonLifecycleState::Failed, Some(message))]);
}

#[test]
fn a_stale_daemon_is_stopped_before_launching() {
    let step = ensure_ready_step(
        EnsurePhase::AwaitProbe,
        EnsureEvent::Probed {
            outcome: ProbeOutcome::VersionMismatch {
                expected: "1.1.0".to_string(),
                actual: "1.0.0".to_string(),
            },
            marker_present: false,
        },
    );
    assert_eq!(
        step.phase,
        EnsurePhase::AwaitShutdownAnswer {
            context: StopContext::Stale
        }
    );
    assert_eq!(step.action, EnsureAction::SendShutdown);
    assert_eq!(
        updates(&step),
        vec![(
            DaemonLifecycleState::Starting,
            Some("Starting the packaged Gateway daemon".to_string())
        )]
    );
    let step = ensure_ready_step(step.phase, EnsureEvent::ShutdownAnswered(ShutdownAnswer::Ack));
    assert_eq!(step.action, EnsureAction::WaitStopped);
    let step = ensure_ready_step(step.phase, EnsureEvent::Stopped);
    assert_eq!(step.action, EnsureAction::Spawn { delay_ms: 0 });
}

#[test]
fn a_refused_stale_shutdown_fails_the_run() {
    let step = ensure_ready_step(
        EnsurePhase::AwaitShutdownAnswer {
            context: StopContext::Stale,
        },
        EnsureEvent::ShutdownAnswered(ShutdownAnswer::Refused),
    );
    assert_eq!(
        step.action,
        EnsureAction::Finish {
            ok: false,
            message: Some(
                "Stale Gateway daemon refused shutdown. No replacement daemon was launched."
                    .to_string()
            )
        }
    );
}

#[test]
fn launch_is_retried_at_most_three_times_with_back_off() {
    let mut phase = EnsurePhase::AwaitProbe;
    let step = ensure_ready_step(
        phase,
        EnsureEvent::Probed {
            outcome: ProbeOutcome::Unavailable("refused".to_string()),
            marker_present: false,
        },
    );
    assert_eq!(step.action, EnsureAction::Spawn { delay_ms: 0 });
    phase = step.phase;
    let mut spawns = 1;
    let mut delays = vec![0];
    loop {
        let step = ensure_ready_step(phase, EnsureEvent::Spawned);
        assert_eq!(step.action, EnsureAction::WaitReady);
        let step = ensure_ready_step(
            step.phase,
            EnsureEvent::Readiness {
                outcome: ProbeOutcome::Unavailable(format!("not yet {spawns}")),
                marker_present: false,
            },
        );
        match step.action {
            EnsureAction::Spawn { delay_ms } => {
                spawns += 1;
                delays.push(delay_ms);
                phase = step.phase;
            }
            EnsureAction::Finish { ok, message } => {
                assert!(!ok);
                assert_eq!(
                    message,
                    Some("Packaged Gateway daemon did not become ready: not yet 3. Reinstall Gateway; no alternate daemon will be launched.".to_string())
                );
                break;
            }
            other => panic!("unexpected action {other:?}"),
        }
    }
    assert_eq!(spawns, 3);
    assert_eq!(delays, vec![0, 250, 500]);
}

#[test]
fn a_daemon_that_becomes_ready_after_a_user_stop_is_stopped_again() {
    let step = ensure_ready_step(
        EnsurePhase::AwaitReadiness {
            attempt: 0,
            last_error: String::new(),
        },
        EnsureEvent::Readiness {
            outcome: ProbeOutcome::Ready,
            marker_present: true,
        },
    );
    assert_eq!(step.action, EnsureAction::SendShutdown);
    let step = ensure_ready_step(step.phase, EnsureEvent::ShutdownSendFailed("pipe closed".to_string()));
    let stopped = "Gateway daemon was stopped explicitly from the CLI; the desktop supervisor did not restart it.".to_string();
    assert_eq!(
        updates(&step),
        vec![
            (
                DaemonLifecycleState::Failed,
                Some("Stale Gateway daemon could not be stopped safely: pipe closed. No replacement daemon was launched.".to_string())
            ),
            (DaemonLifecycleState::Stopped, Some(stopped.clone())),
        ]
    );
    assert_eq!(
        step.action,
        EnsureAction::Finish {
            ok: false,
            message: Some(stopped)
        }
    );
}

#[test]
fn a_stale_daemon_appearing_during_startup_fails_the_run() {
    let step = ensure_ready_step(
        EnsurePhase::AwaitReadiness {
            attempt: 1,
            last_error: String::new(),
        },
        EnsureEvent::Readiness {
            outcome: ProbeOutcome::VersionMismatch {
                expected: "2.0.0".to_string(),
                actual: "1.9.0".to_string(),
            },
            marker_present: false,
        },
    );
    assert_eq!(
        step.action,
        EnsureAction::Finish {
            ok: false,
            message: Some("A stale Gateway daemon 1.9.0 appeared during startup; expected 2.0.0. It will not receive privileged requests.".to_string())
        }
    );
}

#[test]
fn an_event_of_another_phase_changes_nothing() {
    let step = ensure_ready_step(EnsurePhase::AwaitProbe, EnsureEvent::Spawned);
    assert_eq!(step.phase, EnsurePhase::AwaitProbe);
    assert_eq!(step.action, EnsureAction::Ignore);
    assert!(step.updates.is_empty());
}

#[test]
fn cli_plans_follow_the_probe() {
    assert_eq!(cli_start_plan(&ProbeOutcome::Ready), CliStartPlan::AlreadyReady);
    assert_eq!(
        cli_start_plan(&ProbeOutcome::Unavailable("x".to_string())),
        CliStartPlan::Start
    );
    assert_eq!(
        cli_start_plan(&ProbeOutcome::Incompatible("bad".to_string())),
        CliStartPlan::Refuse {
            message: "refusing untrusted or incompatible local endpoint: bad; no alternate daemon was launched".to_string()
        }
    );
    assert_eq!(cli_stop_plan(&ProbeOutcome::Ready), CliStopPlan::StopAndPause);
    assert_eq!(
        cli_stop_plan(&ProbeOutcome::Unavailable("x".to_string())),
        CliStopPlan::AlreadyStopped
    );
    assert_eq!(
        cli_status_report(&ProbeOutcome::Unavailable("x".to_string()), true),
        Ok(CliDaemonStatus::StoppedByUser)
    );
    assert_eq!(
        cli_status_report(
            &ProbeOutcome::VersionMismatch {
                expected: "2".to_string(),
                actual: "1".to_string()
            },
            false
        ),
        Err("stale Gateway daemon is running (expected 2, found 1)".to_string())
    );
}

#[test]
fn config_view_shows_the_resolved_configuration() {
    let config = load_from(CliOverrides::default(), &ConfigEnv::default(), "/data").unwrap();
    let view = ConfigView::from_config(&config);
    assert_eq!(view.data_dir, "/data");
    assert_eq!(view.log_level, "info");
    assert_eq!(view.core_bridge_endpoint, "http://127.0.0.1:3334/mcp");
    assert_eq!(view.transport_mode, "disabled");
}
