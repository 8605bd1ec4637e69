use lark_codex_bridge::app::bot_identity;
use lark_codex_bridge::app::classify_route_failure;
use lark_codex_bridge::app::finish_run;
use lark_codex_bridge::app::first_source;
use lark_codex_bridge::app::route_retry_delay;
use lark_codex_bridge::app::source_after_sidecar;
use lark_codex_bridge::app::supervise_assembly_step;
use lark_codex_bridge::app::AppError;
use lark_codex_bridge::app::Assembly;
use lark_codex_bridge::app::AssemblyAction;
use lark_codex_bridge::app::AssemblyEvent;
use lark_codex_bridge::app::ChannelTransport;
use lark_codex_bridge::app::Component;
use lark_codex_bridge::app::DriveAction;
use lark_codex_bridge::app::DriveEvent;
use lark_codex_bridge::app::DriveExit;
use lark_codex_bridge::app::DriveSummary;
use lark_codex_bridge::app::InboundChoice;
use lark_codex_bridge::app::InboundDriver;
use lark_codex_bridge::app::OutboundStartError;
use lark_codex_bridge::app::Preflight;
use lark_codex_bridge::app::RouteError;
use lark_codex_bridge::app::RouteOutcome;
use lark_codex_bridge::app::SupervisorState;
use lark_codex_bridge::cli::explain_token_failure;
use lark_codex_bridge::cli::explain_transport_failure;
use lark_codex_bridge::cli::judge_probe;
use lark_codex_bridge::cli::plan_registration;
use lark_codex_bridge::cli::probe_settles;
use lark_codex_bridge::cli::run_with;
use lark_codex_bridge::cli::Cli;
use lark_codex_bridge::cli::CodexCommand;
use lark_codex_bridge::cli::Command;
use lark_codex_bridge::cli::CommandPlan;
use lark_codex_bridge::cli::LarkAuthCommand;
use lark_codex_bridge::cli::LarkCommand;
use lark_codex_bridge::cli::ProbeWait;
use lark_codex_bridge::cli::RegistrationError;
use lark_codex_bridge::cli::RegistrationPlan;
use lark_codex_bridge::cli::TenantArg;
use lark_codex_bridge::cli::TenantBrand;
use lark_codex_bridge::app::PeerInfo;
use lark_codex_bridge::channel::native::LarkError;
use std::collections::VecDeque;

/// Drives events through a router that fails as it is told, until the driver
/// stops.
fn drive(
    mut inbound: VecDeque<&'static str>,
    closes: bool,
    mut failures: VecDeque<RouteError>,
    shutdown: bool,
) -> (DriveSummary, Vec<&'static str>) {
    let mut routed = Vec::new();
    let (mut driver, mut action) = InboundDriver::start();
    loop {
        let event = match action {
            DriveAction::Receive => {
                if shutdown {
                    DriveEvent::Shutdown
                } else {
                    match inbound.pop_front() {
                        Some(event) => DriveEvent::Received { event: Some(event) },
                        None => {
                            assert!(closes, "nothing else would end the driver");
                            DriveEvent::Received { event: None }
                        }
                    }
                }
            }
            DriveAction::Route { event } => {
                routed.push(event);
                let outcome = match failures.pop_front() {
                    Some(error) => classify_route_failure(error, Some(event)),
                    None => RouteOutcome::Accepted,
                };
                DriveEvent::Routed { outcome }
            }
            DriveAction::Wait { .. } => DriveEvent::Elapsed,
            DriveAction::Finish { summary } => return (summary, routed),
        };
        action = driver.drive_inbound(event);
    }
}

#[test]
fn driver_routes_in_order_until_the_durable_channel_closes() {
    let (summary, routed) = drive(
        VecDeque::from(["first", "second"]),
        true,
        VecDeque::new(),
        false,
    );
    assert_eq!(summary.exit, DriveExit::InboundClosed);
    assert_eq!(summary.routed, 2);
    assert_eq!(summary.route_failures, 0);
    assert_eq!(routed, vec!["first", "second"]);
}

#[test]
fn transient_route_failure_retries_the_same_event_before_later_work() {
    let (summary, routed) = drive(
        VecDeque::from(["first", "second"]),
        true,
        VecDeque::from([RouteError::Capacity]),
        false,
    );
    assert_eq!(summary.routed, 2);
    assert_eq!(summary.route_failures, 1);
    assert_eq!(routed, vec!["first", "first", "second"]);
}

#[test]
fn a_run_accounts_for_every_event() {
    let (summary, routed) = drive(
        VecDeque::from(["first", "second", "third"]),
        true,
        VecDeque::from([RouteError::Capacity, RouteError::Capacity]),
        false,
    );
    assert_eq!(routed.len() as u64, summary.routed + summary.route_failures);
    assert_eq!(summary.exit, DriveExit::InboundClosed);
    assert_eq!(summary.routed, 3);
    assert_eq!(routed, vec!["first", "first", "first", "second", "third"]);
}

#[test]
fn closed_router_stops_the_driver_instead_of_parking_more_work() {
    let (summary, routed) = drive(
        VecDeque::from(["first", "second"]),
        false,
        VecDeque::from([RouteError::Closed]),
        false,
    );
    assert_eq!(summary.exit, DriveExit::RouterFailed);
    assert_eq!(summary.routed, 0);
    assert_eq!(summary.route_failures, 1);
    assert_eq!(routed, vec!["first"]);
}

#[test]
fn shutdown_signal_stops_before_waiting_for_more_input() {
    let (summary, routed) = drive(VecDeque::new(), false, VecDeque::new(), true);
    assert_eq!(summary.exit, DriveExit::Shutdown);
    assert_eq!(summary.routed, 0);
    assert_eq!(summary.route_failures, 0);
    assert!(routed.is_empty());
}

#[test]
fn assembly_step_observes_gated_permanent_degradation_after_backoff() {
    let waiting = SupervisorState::Backoff {
        epoch: 2,
        attempt: 1,
        delay_ms: 30_000,
    };
    assert!(supervise_assembly_step(Some(waiting)).is_none());
    let reason =
        "Codex 0.148.0 is unsupported; expected an exact reviewed version (0.146.0, 0.149.0)";
    let error = supervise_assembly_step(Some(SupervisorState::Degraded {
        reason: reason.to_owned(),
    }))
    .expect("permanent retry failure stops assembly");
    assert_eq!(error.to_text(), reason);
    let AppError::CodexUnavailable { reason: held } = error else {
        panic!("unexpected assembly error");
    };
    assert_eq!(held, reason);
}

#[test]
fn failures_of_the_application_are_static() {
    let error = AppError::CodexUnavailable {
        reason: "a local path".to_owned(),
    };
    assert_eq!(error.debug_text(), "CodexUnavailable");
    assert_eq!(AppError::Router.to_text(), "the scope router failed");
    assert_eq!(
        OutboundStartError.to_text(),
        "the durable outbound runtime could not start"
    );
    assert!(matches!(
        supervise_assembly_step(None),
        Some(AppError::Supervisor)
    ));
}

fn stops(actions: &[AssemblyAction]) -> Vec<Component> {
    actions
        .iter()
        .filter_map(|action| match action {
            AssemblyAction::Stop { component } => Some(*component),
            _ => None,
        })
        .collect()
}

fn assembly() -> Assembly {
    let (mut assembly, action) = Assembly::start(Preflight {
        policy: true,
        spawnable: true,
        http: true,
    })
    .ok()
    .expect("checks passed");
    assert!(matches!(action, AssemblyAction::OpenStore));
    assembly.step(AssemblyEvent::StoreOpened { opened: true });
    assembly.step(AssemblyEvent::AttachmentsOpened { opened: true });
    assembly.step(AssemblyEvent::AttachmentsReconciled { reconciled: true });
    assembly.step(AssemblyEvent::SupervisorStarted { started: true });
    assembly
}

#[test]
fn a_degraded_supervisor_stops_the_assembly_before_the_channel() {
    let mut assembly = assembly();
    let actions = assembly.step(AssemblyEvent::SupervisorObserved {
        degraded: Some("unsupported".to_owned()),
    });
    assert_eq!(
        stops(&actions),
        vec![
            Component::Supervisor,
            Component::Attachments,
            Component::Store
        ]
    );
    assert!(matches!(
        actions.last(),
        Some(AssemblyAction::Finish {
            result: Err(AppError::CodexUnavailable { reason })
        }) if reason == "unsupported"
    ));
}

#[test]
fn everything_is_stopped_in_order() {
    let mut assembly = assembly();
    assembly.step(AssemblyEvent::SupervisorObserved { degraded: None });
    assembly.step(AssemblyEvent::InboundStarted { outcome: Ok(true) });
    assembly.step(AssemblyEvent::OutboundStarted { started: true });
    let actions = assembly.step(AssemblyEvent::RouterStarted);
    assert_eq!(actions.len(), 2);
    let summary = DriveSummary {
        exit: DriveExit::Shutdown,
        routed: 3,
        route_failures: 1,
    };
    let actions = assembly.step(AssemblyEvent::Driven { summary });
    assert_eq!(
        stops(&actions),
        vec![
            Component::Source,
            Component::Maintenance,
            Component::Router,
            Component::Outbound,
            Component::Attachments,
            Component::Store,
        ]
    );
    let actions = assembly.step(AssemblyEvent::Stopped {
        router_stopped: true,
        store_stopped: true,
    });
    assert!(matches!(
        actions[0],
        AssemblyAction::Finish { result: Ok(held) } if held == summary
    ));
}

#[test]
fn an_external_backend_never_spawns() {
    assert!(matches!(
        Assembly::start(Preflight {
            policy: true,
            spawnable: false,
            http: true,
        }),
        Err(AppError::Supervisor)
    ));
}

#[test]
fn only_a_signal_ends_a_run_well() {
    let summary = |exit| DriveSummary {
        exit,
        routed: 0,
        route_failures: 0,
    };
    assert!(finish_run(summary(DriveExit::Shutdown), true, true).is_ok());
    assert!(matches!(
        finish_run(summary(DriveExit::InboundClosed), true, true),
        Err(AppError::InboundClosed)
    ));
    assert!(matches!(
        finish_run(summary(DriveExit::Shutdown), true, false),
        Err(AppError::Store)
    ));
    assert!(matches!(
        finish_run(summary(DriveExit::Shutdown), false, false),
        Err(AppError::Router)
    ));
}

#[test]
fn pauses_double_up_to_a_second() {
    let pauses: Vec<u64> = (0..10).map(route_retry_delay).collect();
    assert_eq!(
        pauses,
        vec![25, 25, 50, 100, 200, 400, 800, 1000, 1000, 1000]
    );
    assert_eq!(route_retry_delay(u32::MAX), 1000);
}

#[test]
fn the_native_source_is_a_configured_fallback() {
    assert_eq!(first_source(ChannelTransport::Native), InboundChoice::Native);
    assert_eq!(
        first_source(ChannelTransport::NodeSidecar),
        InboundChoice::Sidecar
    );
    assert!(matches!(
        source_after_sidecar(false, true),
        Ok(InboundChoice::Native)
    ));
    assert!(matches!(
        source_after_sidecar(false, false),
        Err(AppError::Lark)
    ));
    assert!(bot_identity(Some(String::new())).is_err());
    assert_eq!(
        bot_identity(Some("ou_1".to_owned())).ok(),
        Some("ou_1".to_owned())
    );
}

#[test]
fn commands_are_shown_without_secrets() {
    let probe = CodexCommand::Probe {
        binary: "/opt/codex".to_owned(),
    };
    assert_eq!(probe.debug_text(), "Probe { binary_bytes: 10 }");
    let register = LarkAuthCommand::Register {
        app_id: Some("cli_1".to_owned()),
        app_secret: None,
        tenant: Some(TenantArg::Lark),
    };
    assert_eq!(
        register.debug_text(),
        "Register { app_id_configured: true, app_secret_configured: false, tenant: Some(Lark) }"
    );
    assert_eq!(LarkAuthCommand::Check.debug_text(), "Check");
}

#[test]
fn a_command_line_asks_for_one_thing() {
    let plan = run_with(Cli {
        command: Command::Lark {
            command: LarkCommand::Probe,
        },
    });
    assert!(matches!(plan, CommandPlan::ProbeLark));
    let plan = run_with(Cli {
        command: Command::Codex {
            command: CodexCommand::Probe {
                binary: "codex".to_owned(),
            },
        },
    });
    assert!(matches!(plan, CommandPlan::ProbeCodex { binary } if binary == "codex"));
}

#[test]
fn registration_uses_the_environment_only_for_a_missing_secret() {
    let id = || Some("cli_1".to_owned());
    let word = |text: &str| Some(text.to_owned());
    match plan_registration(id(), word("given"), Some(TenantArg::Feishu), word("environment")) {
        Ok(RegistrationPlan::Existing {
            app_secret, tenant, ..
        }) => {
            assert_eq!(app_secret, "given");
            assert_eq!(tenant, TenantBrand::Feishu);
        }
        _ => panic!("an existing app"),
    }
    match plan_registration(id(), None, Some(TenantArg::Lark), word("environment")) {
        Ok(RegistrationPlan::Existing { app_secret, .. }) => {
            assert_eq!(app_secret, "environment");
        }
        _ => panic!("an existing app"),
    }
    assert!(matches!(
        plan_registration(id(), None, Some(TenantArg::Lark), word("")),
        Err(RegistrationError::MissingSecret)
    ));
    assert!(matches!(
        plan_registration(None, None, None, word("environment")),
        Ok(RegistrationPlan::DeviceFlow)
    ));
    assert!(matches!(
        plan_registration(id(), word("given"), None, None),
        Err(RegistrationError::IncompleteArguments)
    ));
}

#[test]
fn a_probe_reports_what_it_may() {
    let ready = SupervisorState::Ready {
        epoch: 2,
        version: "0.149.0".to_owned(),
        peer: PeerInfo {
            user_agent: "codex_cli_rs/0.149.0".to_owned(),
            platform_family: "unix".to_owned(),
            platform_os: "linux".to_owned(),
        },
    };
    assert!(probe_settles(&ready));
    assert!(!probe_settles(&SupervisorState::Stopped));
    let report = judge_probe(true, ProbeWait::Settled(ready)).ok().expect("ready");
    assert_eq!(report.supported_version, "0.149.0");
    assert_eq!(report.epoch, 2);
    assert_eq!(
        judge_probe(false, ProbeWait::TimedOut).err(),
        Some("unable to stop the Codex supervisor".to_owned())
    );
    assert_eq!(
        judge_probe(true, ProbeWait::TimedOut).err(),
        Some("Codex probe timed out waiting for the app-server handshake".to_owned())
    );
}

#[test]
fn provider_failures_are_explained() {
    let permanent = LarkError::PermanentAuth {
        code: Some(10_014),
        context: "exchanging a token",
    };
    assert_eq!(
        explain_transport_failure(&permanent, "unused"),
        "Lark WebSocket endpoint rejected the credentials permanently (code Some(10014)); verify the app ID, app secret, and tenant"
    );
    assert_eq!(
        explain_token_failure(&LarkError::retryable("exchanging a token"), "no answer"),
        "unable to exchange a Lark tenant token: no answer"
    );
}
