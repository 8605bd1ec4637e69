//! Single rules on concrete values.

use lark_codex_bridge::channel::native::resource_kind;
use lark_codex_bridge::channel::native::LarkError;
use lark_codex_bridge::channel::native::ResourceKind;
use lark_codex_bridge::channel::session::connected_for;
use lark_codex_bridge::channel::session::join_bound_ms;
use lark_codex_bridge::channel::session::judge_configuration;
use lark_codex_bridge::channel::session::LineRead;
use lark_codex_bridge::channel::sidecar::negative_ack_value;
use lark_codex_bridge::channel::sidecar::queue_full;
use lark_codex_bridge::channel::sidecar::shutdown_value;
use lark_codex_bridge::channel::sidecar::unknown_message_value;
use lark_codex_bridge::channel::sidecar::ResponseFrame;
use lark_codex_bridge::channel::MediaKind;
use lark_codex_bridge::codex::client::event_memory_weight;
use lark_codex_bridge::codex::client::merge_delta;
use lark_codex_bridge::codex::client::turn_status_label;
use lark_codex_bridge::codex::client::valid_routing_id;
use lark_codex_bridge::codex::client::AppServerEvent;
use lark_codex_bridge::codex::external::default_codex_binary;
use lark_codex_bridge::codex::external::secret_file_private;
use lark_codex_bridge::codex::external::secret_file_unchanged;
use lark_codex_bridge::codex::external::valid_secret_path;
use lark_codex_bridge::codex::external::SecretFile;
use lark_codex_bridge::codex::external_recovery::handle_preconnect_command;
use lark_codex_bridge::codex::external_recovery::RecoveryCommand;
use lark_codex_bridge::codex::external_transport::ExternalTransportError;
use lark_codex_bridge::codex::external_write::finish_shutdown;
use lark_codex_bridge::codex::external_write::is_fatal_result;
use lark_codex_bridge::codex::external_write::map_preflight_error;
use lark_codex_bridge::codex::external_write::map_transition;
use lark_codex_bridge::codex::external_write::validate_command;
use lark_codex_bridge::codex::external_write::ExternalWriteError;
use lark_codex_bridge::codex::external_write::TransitionOutcome;
use lark_codex_bridge::codex::mutation::active_turn;
use lark_codex_bridge::codex::mutation::map_prepare;
use lark_codex_bridge::codex::mutation::ListedTurn;
use lark_codex_bridge::codex::mutation::PrepareOutcome;
use lark_codex_bridge::codex::notification::bounded_method;
use lark_codex_bridge::codex::operations::definitely_not_applied;
use lark_codex_bridge::codex::operations::router_accepted;
use lark_codex_bridge::codex::operations::settle_answer;
use lark_codex_bridge::codex::operations::ClientError;
use lark_codex_bridge::codex::operations::GuardFate;
use lark_codex_bridge::codex::operations::RouterAnswer;
use lark_codex_bridge::codex::operations::RouterLifecycle;
use lark_codex_bridge::codex::process::reap_bound_ms;
use lark_codex_bridge::codex::process::spawn_raw_os_error_is_retryable;
use lark_codex_bridge::codex::process::Pipes;
use lark_codex_bridge::codex::process::ProcessError;
use lark_codex_bridge::codex::process::ShortageCodes;
use lark_codex_bridge::codex::reconcile::closed_failure;
use lark_codex_bridge::codex::reconcile::EpochFailure;
use lark_codex_bridge::codex::reconcile::ExternalUncertaintyReason;
use lark_codex_bridge::codex::reconcile::ThreadFailure;
use lark_codex_bridge::codex::rpc::bounded_reliable_permits;
use lark_codex_bridge::codex::rpc::count_serialized;
use lark_codex_bridge::codex::rpc::increment_saturating;
use lark_codex_bridge::codex::rpc::take_event_sequence;
use lark_codex_bridge::codex::rpc::ConnectionEpoch;
use lark_codex_bridge::codex::rpc::Counted;
use lark_codex_bridge::codex::rpc::LimitedCounter;
use lark_codex_bridge::codex::rpc::RpcError;
use lark_codex_bridge::codex::sidecar::check_sidecar_pipes;
use lark_codex_bridge::codex::sidecar::judge_bootstrap;
use lark_codex_bridge::codex::sidecar::BootstrapOutcome;
use lark_codex_bridge::codex::sidecar::CleanupWait;
use lark_codex_bridge::codex::sidecar::SignalAuthority;
use lark_codex_bridge::codex::thread_reconcile::apply_result;
use lark_codex_bridge::codex::thread_reconcile::ApplyOutcome;
use lark_codex_bridge::codex::types::typed_memory_weight;
use lark_codex_bridge::codex::types::Measure;
use lark_codex_bridge::codex::client::ThreadId;
use lark_codex_bridge::codex::types::TransportExit;
use lark_codex_bridge::codex::client::TurnId;
use lark_codex_bridge::codex::types::TurnStatus;
use lark_codex_bridge::limits::RPC_RELIABLE_EVENT_BYTE_BUDGET;
use lark_codex_bridge::ordered::holds;
use lark_codex_bridge::text::append_decimal;
use lark_codex_bridge::text::append_signed;
use lark_codex_bridge::text::is_trimmed;

fn text_at<'a>(value: &'a serde_json::Value, name: &str) -> Option<&'a str> {
    value.get(name).and_then(serde_json::Value::as_str)
}

#[test]
fn control_frames_carry_their_header() {
    let shutdown = shutdown_value("stop-1");
    assert_eq!(shutdown.get("v").and_then(serde_json::Value::as_u64), Some(1));
    assert_eq!(text_at(&shutdown, "type"), Some("shutdown"));
    assert_eq!(text_at(&shutdown, "id"), Some("stop-1"));
    let refused = negative_ack_value("event-1", "busy");
    assert_eq!(text_at(&refused, "type"), Some("event_ack"));
    assert_eq!(refused.get("ok"), Some(&serde_json::Value::Bool(false)));
    assert_eq!(text_at(&refused, "error"), Some("busy"));
    let unknown = unknown_message_value("frame-1");
    assert_eq!(text_at(&unknown, "type"), Some("error"));
    assert_eq!(text_at(&unknown, "code"), Some("unknown_message"));
    assert!(queue_full(8)
        == LarkError::Exhausted {
            context: "node sidecar write queue",
            limit: 8
        });
}

#[test]
fn a_configuration_is_accepted_by_its_own_answer_only() {
    let answer = |id: &str, ok: bool| ResponseFrame {
        v: 1,
        kind: "response".to_owned(),
        id: id.to_owned(),
        ok,
    };
    assert!(judge_configuration(LineRead::Decoded(answer("c-1", true)), "c-1") == Ok(()));
    let incompatible = Err(LarkError::ProtocolViolation {
        code: None,
        context: "node sidecar response is incompatible",
    });
    assert!(judge_configuration(LineRead::Decoded(answer("c-2", true)), "c-1") == incompatible);
    assert!(judge_configuration(LineRead::Decoded(answer("c-1", false)), "c-1") == incompatible);
    assert!(
        judge_configuration(LineRead::TimedOut, "c-1")
            == Err(LarkError::Retryable {
                code: None,
                context: "waiting for node sidecar configuration"
            })
    );
    assert!(
        judge_configuration(LineRead::Ended, "c-1")
            == Err(LarkError::Retryable {
                code: None,
                context: "reading node sidecar configuration"
            })
    );
}

#[test]
fn waits_are_bounded() {
    assert_eq!(join_bound_ms(5_000), 15_000);
    assert_eq!(join_bound_ms(u64::MAX), u64::MAX);
    assert_eq!(reap_bound_ms(20), 1_000);
    assert_eq!(reap_bound_ms(5_000), 5_000);
    assert!(connected_for(Some(10), 70, 60));
    assert!(!connected_for(Some(10), 69, 60));
    assert!(!connected_for(None, 69, 0));
}

#[test]
fn media_kinds_name_resources() {
    assert_eq!(resource_kind(MediaKind::Image), ResourceKind::Image);
    assert_eq!(resource_kind(MediaKind::File), ResourceKind::File);
}

#[test]
fn routing_texts_are_bounded() {
    assert!(valid_routing_id(&"x".repeat(512)));
    assert!(!valid_routing_id(&"x".repeat(513)));
    assert!(!valid_routing_id(""));
    assert_eq!(bounded_method("turn/started"), "turn/started");
    assert_eq!(bounded_method(&"x".repeat(513)), "oversized-method");
}

#[test]
fn statuses_have_static_labels() {
    assert_eq!(turn_status_label(&TurnStatus::InProgress), "inProgress");
    assert_eq!(
        turn_status_label(&TurnStatus::Unknown("secret".to_owned())),
        "unknown"
    );
}

#[test]
fn fragments_weigh_their_texts_and_merge_within_the_bound() {
    let fragment = |delta: &str| AppServerEvent::AgentMessageDelta {
        turn_id: TurnId::new("turn".to_owned()),
        item_id: "item".to_owned(),
        delta: delta.to_owned(),
    };
    assert_eq!(event_memory_weight(&fragment("abc")), 139);
    assert_eq!(
        event_memory_weight(&AppServerEvent::ThreadStarted {
            thread_id: ThreadId::new("thread".to_owned())
        }),
        134
    );
    let mut held = fragment("abc");
    assert!(!merge_delta(&mut held, fragment("de"), 4));
    assert_eq!(event_memory_weight(&held), 139);
    assert!(merge_delta(&mut held, fragment("de"), 5));
    assert_eq!(event_memory_weight(&held), 141);
    match &held {
        AppServerEvent::AgentMessageDelta { delta, .. } => assert_eq!(delta, "abcde"),
        _ => panic!("the fragment changed its kind"),
    }
}

#[test]
fn measured_values_weigh_the_larger_size() {
    let measure = |memory_bytes: usize, wire_bytes: usize| Measure {
        memory_bytes,
        wire_bytes,
    };
    assert_eq!(typed_memory_weight(measure(10, 20), 100), 20);
    assert_eq!(typed_memory_weight(measure(30, 20), 100), 30);
    assert_eq!(typed_memory_weight(measure(30, 101), 100), 101);
}

#[test]
fn credential_files_are_private_and_stay_the_same() {
    assert!(valid_secret_path("/etc/bridge/token"));
    assert!(!valid_secret_path("etc/token"));
    assert!(!valid_secret_path("/etc/../token"));
    assert!(!valid_secret_path(""));
    let file = SecretFile {
        is_file: true,
        is_symlink: false,
        mode: 0o100_600,
        device: 1,
        inode: 2,
    };
    assert!(secret_file_private(file));
    assert!(!secret_file_private(SecretFile {
        mode: 0o100_640,
        ..file
    }));
    assert!(!secret_file_private(SecretFile {
        is_symlink: true,
        ..file
    }));
    assert!(secret_file_unchanged(file, file));
    assert!(!secret_file_unchanged(file, SecretFile { inode: 3, ..file }));
    assert_eq!(default_codex_binary(), "codex");
}

#[test]
fn commands_before_a_connection() {
    let lost = ExternalUncertaintyReason::SocketDisconnect;
    let restarted = ExternalUncertaintyReason::ServerRestart;
    assert!(handle_preconnect_command(lost, None) == (lost, false, true));
    assert!(
        handle_preconnect_command(lost, Some(RecoveryCommand::Wake)) == (lost, false, false)
    );
    assert!(
        handle_preconnect_command(lost, Some(RecoveryCommand::Reconnect { reason: restarted }))
            == (restarted, true, false)
    );
    assert!(
        handle_preconnect_command(lost, Some(RecoveryCommand::Shutdown)) == (lost, true, true)
    );
}

#[test]
fn write_outcomes_are_classified() {
    assert_eq!(validate_command("intent", Some(1)), Ok(()));
    assert_eq!(
        validate_command("", Some(1)),
        Err(ExternalWriteError::InvalidSettings)
    );
    assert_eq!(
        validate_command("intent", None),
        Err(ExternalWriteError::InvalidSettings)
    );
    assert_eq!(
        map_preflight_error(ExternalTransportError::UnsupportedProfile),
        ExternalWriteError::UnsupportedProfile
    );
    assert_eq!(
        map_preflight_error(ExternalTransportError::ProtocolViolation),
        ExternalWriteError::Uncertain
    );
    assert_eq!(map_transition(TransitionOutcome::Applied), None);
    assert_eq!(
        map_transition(TransitionOutcome::Stale),
        Some(ExternalWriteError::NotReady)
    );
    assert_eq!(
        map_transition(TransitionOutcome::Failed),
        Some(ExternalWriteError::Store)
    );
    assert!(is_fatal_result(&Err(ExternalWriteError::Ambiguous)));
    assert!(is_fatal_result(&Err(ExternalWriteError::Uncertain)));
    assert!(!is_fatal_result(&Err(ExternalWriteError::Conflict)));
    assert_eq!(finish_shutdown(true, true), Ok(()));
    assert_eq!(finish_shutdown(true, false), Err(ExternalWriteError::Closed));
    assert_eq!(finish_shutdown(false, true), Err(ExternalWriteError::Closed));
    assert_eq!(map_prepare(PrepareOutcome::Prepared), None);
    assert_eq!(
        map_prepare(PrepareOutcome::StaleEpoch),
        Some(ExternalWriteError::NotReady)
    );
    assert_eq!(
        map_prepare(PrepareOutcome::Duplicate),
        Some(ExternalWriteError::Conflict)
    );
}

#[test]
fn exactly_one_turn_is_the_active_one() {
    let turn = |id: &str, status: TurnStatus| ListedTurn {
        id: id.to_owned(),
        status,
    };
    let ended = turn("a", TurnStatus::Completed);
    assert_eq!(
        active_turn(&vec![ended, turn("b", TurnStatus::InProgress)]),
        Ok("b".to_owned())
    );
    assert_eq!(active_turn(&Vec::new()), Err(ExternalWriteError::Conflict));
    assert_eq!(
        active_turn(&vec![
            turn("a", TurnStatus::InProgress),
            turn("b", TurnStatus::InProgress)
        ]),
        Err(ExternalWriteError::Conflict)
    );
}

#[test]
fn failed_requests_say_whether_they_were_applied() {
    let rejected = RpcError::Server {
        method: "turn/start",
        code: -32600,
    };
    let late = RpcError::Timeout {
        method: "turn/start",
    };
    assert!(definitely_not_applied(&rejected));
    assert!(!definitely_not_applied(&late));
    match settle_answer::<u8>("turn/start", Err(late)) {
        Err((ClientError::Rpc(error), fate)) => {
            assert!(error == late);
            assert!(fate == GuardFate::FailClosed);
        }
        _ => panic!("a late answer settles nothing"),
    }
    match settle_answer::<u8>("turn/start", Err(rejected)) {
        Err((ClientError::Rpc(error), fate)) => {
            assert!(error == rejected);
            assert!(fate == GuardFate::Abort);
        }
        _ => panic!("a refused request is reported"),
    }
    assert!(matches!(settle_answer("turn/start", Ok(Some(7_u8))), Ok(7)));
}

#[test]
fn a_router_is_joined_once() {
    let epoch = ConnectionEpoch::new(4);
    assert!(router_accepted(RouterAnswer::Accepted, epoch).is_ok());
    assert!(matches!(
        router_accepted(RouterAnswer::Refused, epoch),
        Err(ClientError::Capacity)
    ));
    let mut lifecycle = RouterLifecycle {
        running: true,
        exit: None,
        failed: false,
    };
    assert!(lifecycle.settled(epoch).is_none());
    assert!(matches!(
        lifecycle.join(Some(TransportExit::Cancelled), epoch),
        Ok(TransportExit::Cancelled)
    ));
    assert!(matches!(
        lifecycle.settled(epoch),
        Some(Ok(TransportExit::Cancelled))
    ));
    let mut broken = RouterLifecycle {
        running: true,
        exit: None,
        failed: false,
    };
    assert!(matches!(
        broken.join(None, epoch),
        Err(ClientError::RouterTaskFailed(_))
    ));
    assert!(matches!(
        broken.settled(epoch),
        Some(Err(ClientError::RouterTaskFailed(_)))
    ));
}

#[test]
fn resource_shortages_may_be_retried() {
    let codes = ShortageCodes {
        again: 11,
        process_files: 24,
        system_files: 23,
        memory: 12,
    };
    assert!(spawn_raw_os_error_is_retryable(Some(24), codes));
    assert!(!spawn_raw_os_error_is_retryable(Some(2), codes));
    assert!(!spawn_raw_os_error_is_retryable(None, codes));
}

#[test]
fn counters_are_bounded() {
    assert_eq!(bounded_reliable_permits(0), 1);
    assert_eq!(bounded_reliable_permits(9), 9);
    assert_eq!(
        bounded_reliable_permits(usize::MAX) as usize,
        RPC_RELIABLE_EVENT_BYTE_BUDGET
    );
    let mut next = 3;
    assert_eq!(take_event_sequence(&mut next), Some(3));
    assert_eq!(next, 4);
    next = u64::MAX;
    assert_eq!(take_event_sequence(&mut next), None);
    let mut dropped = u64::MAX - 1;
    increment_saturating(&mut dropped);
    increment_saturating(&mut dropped);
    assert_eq!(dropped, u64::MAX);
    let counter = |exceeded: bool| LimitedCounter {
        written: 5,
        maximum: 10,
        exceeded,
    };
    assert!(count_serialized("m", counter(false), Counted::Complete) == Ok(5));
    assert!(
        count_serialized("m", counter(true), Counted::Failed)
            == Err(RpcError::PayloadTooLarge { method: "m" })
    );
    assert!(
        count_serialized("m", counter(false), Counted::Failed)
            == Err(RpcError::Serialize { method: "m" })
    );
}

#[test]
fn a_confirmed_cleanup_signals_nothing_more() {
    let mut authority = SignalAuthority::new(true);
    assert!(matches!(authority.kill_for_cleanup(true), Ok(true)));
    assert!(authority
        .judge_cleanup(CleanupWait::Exited, true, true)
        .is_ok());
    assert!(authority.cleanup_confirmed);
    assert!(!authority.group_signal_authorized);
    assert!(matches!(authority.kill_for_cleanup(true), Ok(false)));
}

#[test]
fn an_exited_leader_is_not_signalled() {
    let mut authority = SignalAuthority::new(true);
    authority.note_leader_wait(CleanupWait::Exited);
    assert!(matches!(authority.kill_for_cleanup(true), Ok(false)));
    let mut lost = SignalAuthority::new(true);
    lost.note_leader_wait(CleanupWait::Failed {
        identity_lost: true,
    });
    assert!(matches!(
        lost.kill_for_cleanup(true),
        Err(ProcessError::ProcessTreeCleanupUnconfirmed)
    ));
}

#[test]
fn a_bootstrap_fails_only_after_its_cleanup() {
    assert!(matches!(
        judge_bootstrap(BootstrapOutcome::HandshakeTimedOut, 250, true),
        Err(ProcessError::SidecarHandshakeTimeout { millis: 250 })
    ));
    assert!(matches!(
        judge_bootstrap(BootstrapOutcome::HandshakeTimedOut, 250, false),
        Err(ProcessError::ProcessTreeCleanupUnconfirmed)
    ));
    let pipes = |stdin: bool, stdout: bool, stderr: bool| Pipes {
        stdin,
        stdout,
        stderr,
    };
    assert!(check_sidecar_pipes(pipes(true, true, true)).is_ok());
    assert!(matches!(
        check_sidecar_pipes(pipes(false, false, false)),
        Err(ProcessError::StdioAlreadyTaken)
    ));
    assert!(matches!(
        check_sidecar_pipes(pipes(false, true, true)),
        Err(ProcessError::StdioUnavailable("stdin"))
    ));
}

#[test]
fn reconciliation_failures_are_classified() {
    assert!(closed_failure(TransportExit::TaskFailed) == EpochFailure::ProtocolViolation);
    assert!(closed_failure(TransportExit::Cancelled) == EpochFailure::ConnectionLost);
    assert!(apply_result(ApplyOutcome::Applied) == Ok(()));
    assert!(
        apply_result(ApplyOutcome::Stale)
            == Err(ThreadFailure::Epoch(EpochFailure::ConnectionLost))
    );
    assert!(
        apply_result(ApplyOutcome::ConflictingTerminal)
            == Err(ThreadFailure::Uncertain(
                ExternalUncertaintyReason::ConflictingTerminal
            ))
    );
}

#[test]
fn texts_and_numbers_are_written_exactly() {
    let mut text = "n=".to_owned();
    append_signed(&mut text, i64::MIN);
    assert_eq!(text, "n=-9223372036854775808");
    append_decimal(&mut text, 0);
    assert_eq!(text, "n=-92233720368547758080");
    assert!(is_trimmed("a b"));
    assert!(!is_trimmed("a "));
    assert!(!is_trimmed("\u{a0}a"));
    assert!(holds(&vec!["a".to_owned(), "b".to_owned()], "b"));
    assert!(!holds(&vec!["a".to_owned()], "b"));
}
