use xerve::model::{Outcome, Step};
use xerve::runner::{Reply, Request};
use xerve::services::{Service, ServiceInfo};
use xerve::supervisor::{
    Shutdown, ShutdownEnd, ShutdownPhase, ShutdownStep, Supervisor, SHUTDOWN_POLL_MS,
    SHUTDOWN_TIMEOUT_MS,
};
use xerve::terminal::Terminal;

fn supervisor_of(services: &[(&str, &str)]) -> Supervisor {
    let services =
        services.iter().map(|(name, status)| ServiceInfo::new(name, status, "./stub.exe")).collect();
    Supervisor::new(services, Terminal::new())
}

fn statuses(supervisor: &Supervisor) -> Vec<String> {
    supervisor.services().iter().map(|service| service.status()).collect()
}

/// Runs a shutdown whose stops are opened and then left to themselves, as
/// with services that take their time. Returns how it ended, which services
/// were to be stopped, and the milliseconds paused.
fn shut_down_slowly(supervisor: &mut Supervisor, timeout_ms: u64) -> (ShutdownEnd, Vec<usize>, u64) {
    let mut targets = Vec::new();
    let mut paused = 0;
    let mut step = supervisor.stop_all(timeout_ms);
    for _ in 0..100_000 {
        match step {
            ShutdownStep::Finished { end } => return (end, targets, paused),
            ShutdownStep::Stop { index, shutdown } => {
                targets.push(index);
                assert!(matches!(supervisor.stop(index), Some(Step::Need { .. })));
                step = supervisor.resume_stop_all(shutdown);
            }
            ShutdownStep::Wait { millis, shutdown } => {
                paused += millis;
                step = supervisor.resume_stop_all(shutdown);
            }
        }
    }
    panic!("the shutdown did not end");
}

#[test]
fn shutdown_defaults() {
    assert_eq!(SHUTDOWN_TIMEOUT_MS, 10_000);
    assert_eq!(SHUTDOWN_POLL_MS, 500);
}

#[test]
fn with_nothing_running_a_shutdown_is_over_at_once() {
    let mut supervisor = supervisor_of(&[("Nginx", "Stopped"), ("MariaDB", "Error")]);
    let step = supervisor.stop_all(SHUTDOWN_TIMEOUT_MS);
    assert_eq!(step, ShutdownStep::Finished { end: ShutdownEnd::NothingToStop });
    assert_eq!(
        supervisor.get_terminal().get_logs(),
        vec!["Cleaning up services...", "No services to clean up."]
    );
    assert_eq!(statuses(&supervisor), vec!["Stopped", "Error"]);
}

#[test]
fn a_shutdown_of_no_services_is_over_at_once() {
    let mut supervisor = supervisor_of(&[]);
    assert_eq!(
        supervisor.stop_all(0),
        ShutdownStep::Finished { end: ShutdownEnd::NothingToStop }
    );
}

#[test]
fn slow_services_make_a_shutdown_time_out_after_its_timeout() {
    let mut supervisor =
        supervisor_of(&[("Alpha", "Running"), ("Beta", "Running"), ("Gamma", "Running")]);
    let (end, targets, paused) = shut_down_slowly(&mut supervisor, 2_000);
    assert_eq!(end, ShutdownEnd::TimedOut);
    assert_eq!(targets, vec![0, 1, 2]);
    assert_eq!(paused, 2_000);
    assert!(paused <= 2_000 + SHUTDOWN_POLL_MS);
    let logs = supervisor.get_terminal().get_logs();
    assert_eq!(logs[0], "Cleaning up services...");
    assert_eq!(logs[1], "Found 3 running services. Stopping all...");
    assert_eq!(logs[2], "Stopping Alpha...");
    assert!(logs.contains(&"Stopping Beta...".to_string()));
    assert!(logs.contains(&"Stopping Gamma...".to_string()));
    assert!(logs.contains(&"Waiting for services to shut down...".to_string()));
    assert_eq!(
        logs[logs.len() - 2],
        "Timeout waiting for services to stop. Some services may still be running."
    );
    assert_eq!(logs[logs.len() - 1], "Service cleanup completed.");
    assert_eq!(statuses(&supervisor), vec!["Running", "Running", "Running"]);
}

#[test]
fn a_timeout_between_two_polls_is_rounded_up_by_less_than_one_poll() {
    for (timeout, expected) in [(1_200, 1_500), (1, 500), (500, 500), (501, 1_000), (10_000, 10_000)] {
        let mut supervisor = supervisor_of(&[("Alpha", "Running")]);
        let (end, _, paused) = shut_down_slowly(&mut supervisor, timeout);
        assert_eq!(end, ShutdownEnd::TimedOut);
        assert_eq!(paused, expected);
        assert!(paused < timeout + SHUTDOWN_POLL_MS);
    }
}

#[test]
fn a_shutdown_without_time_times_out_without_a_pause() {
    let mut supervisor = supervisor_of(&[("Alpha", "Running")]);
    let (end, targets, paused) = shut_down_slowly(&mut supervisor, 0);
    assert_eq!(end, ShutdownEnd::TimedOut);
    assert_eq!(targets, vec![0]);
    assert_eq!(paused, 0);
}

#[test]
fn only_running_services_are_stopped() {
    let mut supervisor = supervisor_of(&[
        ("Alpha", "Stopped"),
        ("Beta", "Running"),
        ("Gamma", "Error"),
        ("Delta", "Running"),
    ]);
    let (end, targets, _) = shut_down_slowly(&mut supervisor, 1_000);
    assert_eq!(end, ShutdownEnd::TimedOut);
    assert_eq!(targets, vec![1, 3]);
    let logs = supervisor.get_terminal().get_logs();
    assert_eq!(logs[1], "Found 2 running services. Stopping all...");
    assert!(!logs.contains(&"Stopping Alpha...".to_string()));
    assert!(!logs.contains(&"Stopping Gamma...".to_string()));
}

#[test]
fn services_that_stop_end_the_shutdown_without_a_pause() {
    let mut supervisor = supervisor_of(&[("Alpha", "Running"), ("Beta", "Running")]);
    let mut step = supervisor.stop_all(SHUTDOWN_TIMEOUT_MS);
    let mut paused = 0;
    let end = loop {
        match step {
            ShutdownStep::Finished { end } => break end,
            ShutdownStep::Stop { index, shutdown } => {
                let mut inner = supervisor.stop(index).unwrap();
                while let Step::Need { operation, request } = inner {
                    let reply = match request {
                        Request::Spawn { .. } => Reply::Spawned { pid: 1 },
                        _ => Reply::Exited { status: "exit status: 0".to_string() },
                    };
                    inner = supervisor.resume(index, operation, reply).unwrap();
                }
                assert_eq!(inner, Step::Done { outcome: Outcome::Completed });
                step = supervisor.resume_stop_all(shutdown);
            }
            ShutdownStep::Wait { millis, shutdown } => {
                paused += millis;
                step = supervisor.resume_stop_all(shutdown);
            }
        }
    };
    assert_eq!(end, ShutdownEnd::AllStopped);
    assert_eq!(paused, 0);
    assert_eq!(statuses(&supervisor), vec!["Stopped", "Stopped"]);
    let logs = supervisor.get_terminal().get_logs();
    assert_eq!(logs[logs.len() - 3], "Waiting for services to shut down...");
    assert_eq!(logs[logs.len() - 2], "All services stopped successfully.");
    assert_eq!(logs[logs.len() - 1], "Service cleanup completed.");
}

#[test]
fn a_service_that_exits_during_the_wait_ends_it() {
    let mut supervisor = supervisor_of(&[("Alpha", "Running")]);
    let mut step = supervisor.stop_all(5_000);
    let mut paused = 0;
    let end = loop {
        match step {
            ShutdownStep::Finished { end } => break end,
            ShutdownStep::Stop { shutdown, .. } => step = supervisor.resume_stop_all(shutdown),
            ShutdownStep::Wait { millis, shutdown } => {
                paused += millis;
                if paused == 1_500 {
                    supervisor
                        .process_exited(0, &Reply::Exited { status: "exit status: 0".to_string() });
                }
                step = supervisor.resume_stop_all(shutdown);
            }
        }
    };
    assert_eq!(end, ShutdownEnd::AllStopped);
    assert_eq!(paused, 1_500);
    assert_eq!(statuses(&supervisor), vec!["Stopped"]);
}

#[test]
fn the_first_step_of_a_shutdown_names_the_first_running_service() {
    let mut supervisor = supervisor_of(&[("Alpha", "Stopped"), ("Beta", "Running")]);
    let step = supervisor.stop_all(750);
    assert_eq!(
        step,
        ShutdownStep::Stop {
            index: 1,
            shutdown: Shutdown {
                phase: ShutdownPhase::Stopping { next: 2 },
                timeout_ms: 750,
                waited_ms: 0
            }
        }
    );
    let step = supervisor.resume_stop_all(Shutdown {
        phase: ShutdownPhase::Stopping { next: 2 },
        timeout_ms: 750,
        waited_ms: 0,
    });
    assert_eq!(
        step,
        ShutdownStep::Wait {
            millis: 500,
            shutdown: Shutdown { phase: ShutdownPhase::Polling, timeout_ms: 750, waited_ms: 0 }
        }
    );
}

#[test]
fn services_are_reached_by_their_place() {
    let mut supervisor = supervisor_of(&[("Alpha", "Stopped")]);
    assert!(supervisor.start(1).is_none());
    assert!(supervisor.stop(7).is_none());
    assert!(supervisor.resume(1, xerve::model::Operation::Launch, Reply::Done).is_none());
    supervisor.process_exited(3, &Reply::Done);
    assert!(supervisor.get_terminal().get_logs().is_empty());
    assert!(matches!(supervisor.start(0), Some(Step::Need { .. })));
    supervisor.log("by hand".to_string());
    let logs = supervisor.get_terminal().get_logs();
    assert_eq!(logs[0], "Starting Alpha service...");
    assert_eq!(logs.last().unwrap(), "by hand");
}

#[test]
fn a_service_in_error_is_not_taken_as_stopped() {
    let mut supervisor = supervisor_of(&[("Alpha", "Error"), ("Beta", "Running")]);
    let mut step = supervisor.stop_all(2_000);
    let mut paused = 0;
    let mut targets = Vec::new();
    let end = loop {
        match step {
            ShutdownStep::Finished { end } => break end,
            ShutdownStep::Stop { index, shutdown } => {
                targets.push(index);
                let mut inner = supervisor.stop(index).unwrap();
                while let Step::Need { operation, request } = inner {
                    let reply = match request {
                        Request::Spawn { .. } => Reply::Spawned { pid: 1 },
                        _ => Reply::Exited { status: "exit status: 0".to_string() },
                    };
                    inner = supervisor.resume(index, operation, reply).unwrap();
                }
                step = supervisor.resume_stop_all(shutdown);
            }
            ShutdownStep::Wait { millis, shutdown } => {
                paused += millis;
                step = supervisor.resume_stop_all(shutdown);
            }
        }
    };
    assert_eq!(targets, vec![1]);
    assert_eq!(statuses(&supervisor), vec!["Error", "Stopped"]);
    assert_eq!(end, ShutdownEnd::TimedOut);
    assert_eq!(paused, 2_000);
    let logs = supervisor.get_terminal().get_logs();
    assert!(!logs.contains(&"All services stopped successfully.".to_string()));
    assert_eq!(
        logs[logs.len() - 2],
        "Timeout waiting for services to stop. Some services may still be running."
    );
}

#[test]
fn a_stop_that_failed_is_waited_for_until_the_process_exits() {
    let mut supervisor = supervisor_of(&[("Alpha", "Running")]);
    let mut step = supervisor.stop_all(5_000);
    let mut paused = 0;
    let end = loop {
        match step {
            ShutdownStep::Finished { end } => break end,
            ShutdownStep::Stop { index, shutdown } => {
                let mut inner = supervisor.stop(index).unwrap();
                while let Step::Need { operation, .. } = inner {
                    let reply = Reply::Failed { reason: "refused".to_string() };
                    inner = supervisor.resume(index, operation, reply).unwrap();
                }
                assert_eq!(statuses(&supervisor), vec!["Error"]);
                step = supervisor.resume_stop_all(shutdown);
            }
            ShutdownStep::Wait { millis, shutdown } => {
                paused += millis;
                if paused == 1_000 {
                    supervisor
                        .process_exited(0, &Reply::Exited { status: "exit status: 1".to_string() });
                }
                step = supervisor.resume_stop_all(shutdown);
            }
        }
    };
    assert_eq!(end, ShutdownEnd::AllStopped);
    assert_eq!(paused, 1_000);
    assert_eq!(statuses(&supervisor), vec!["Stopped"]);
    assert_eq!(
        supervisor.get_terminal().get_logs().last().unwrap(),
        "Service cleanup completed."
    );
}
