use lark_codex_bridge::codex::epoch_reconcile::map_transport_failure;
use lark_codex_bridge::codex::epoch_reconcile::Arrival;
use lark_codex_bridge::codex::epoch_reconcile::EpochAction;
use lark_codex_bridge::codex::epoch_reconcile::EpochReconcile;
use lark_codex_bridge::codex::epoch_reconcile::FenceOutcome;
use lark_codex_bridge::codex::epoch_reconcile::LiveEvent;
use lark_codex_bridge::codex::epoch_reconcile::ManagedThread;
use lark_codex_bridge::codex::external::ExternalAuthentication;
use lark_codex_bridge::codex::external::ExternalCapabilityProfile;
use lark_codex_bridge::codex::external::ExternalEndpointConfig;
use lark_codex_bridge::codex::external::ExternalEndpointGate;
use lark_codex_bridge::codex::external_recovery::next_delay;
use lark_codex_bridge::codex::external_recovery::ExternalEndpointState;
use lark_codex_bridge::codex::external_recovery::ExternalRecoveryCoordinator;
use lark_codex_bridge::codex::external_recovery::ExternalRecoveryError;
use lark_codex_bridge::codex::external_recovery::ExternalRecoverySettings;
use lark_codex_bridge::codex::external_recovery::ExternalRecoveryState;
use lark_codex_bridge::codex::external_recovery::RecoveryAction;
use lark_codex_bridge::codex::external_recovery::RecoveryCommand;
use lark_codex_bridge::codex::external_recovery::RecoveryEvent;
use lark_codex_bridge::codex::external_transport::ExternalReadEvent;
use lark_codex_bridge::codex::external_transport::ExternalTransportError;
use lark_codex_bridge::codex::reconcile::EpochFailure;
use lark_codex_bridge::codex::reconcile::ExternalTerminalStatus;
use lark_codex_bridge::codex::reconcile::ExternalUncertaintyReason;
use lark_codex_bridge::codex::thread_reconcile::ApplyOutcome;
use lark_codex_bridge::codex::thread_reconcile::ItemEntry;
use lark_codex_bridge::codex::thread_reconcile::ReconcileAction;
use lark_codex_bridge::codex::thread_reconcile::ReconcileResponse;
use lark_codex_bridge::codex::types::Measure;
use lark_codex_bridge::codex::types::ThreadItem;
use lark_codex_bridge::codex::types::TransportExit;
use lark_codex_bridge::codex::types::WebSocketCloseReport;
use lark_codex_bridge::codex::types::Turn;
use lark_codex_bridge::codex::types::TurnStatus;
use lark_codex_bridge::limits::EXTERNAL_MANAGED_THREAD_CAPACITY;
use serde_json::Value;

fn gate(profile: ExternalCapabilityProfile) -> ExternalEndpointGate {
    ExternalEndpointGate::new(ExternalEndpointConfig {
        endpoint: "ws://127.0.0.1:1234/app-server".to_owned(),
        expected_codex_version: "0.149.0".to_owned(),
        capability_profile: profile,
        authentication: ExternalAuthentication::BearerTokenFile {
            path: "/run/secrets/token".to_owned(),
        },
    })
    .ok()
    .expect("valid settings")
}

fn measure() -> Measure {
    Measure {
        wire_bytes: 1,
        memory_bytes: 1,
    }
}

fn turn(id: &str, status: TurnStatus) -> Turn {
    Turn {
        id: id.to_owned(),
        status,
        error: None,
        items: Vec::new(),
        measure: measure(),
        fingerprint: 1,
    }
}

fn item(id: &str) -> ThreadItem {
    ThreadItem {
        id: Some(id.to_owned()),
        kind: "agentMessage".to_owned(),
        measure: measure(),
        fingerprint: 1,
        body: Value::Null,
    }
}

fn managed(id: &str, uncertain: bool) -> ManagedThread {
    ManagedThread {
        thread_id: id.to_owned(),
        uncertain,
    }
}

#[test]
fn an_epoch_is_ready_only_after_its_reconciliation() {
    let (mut recovery, actions) = ExternalRecoveryCoordinator::start(
        &gate(ExternalCapabilityProfile::ResumeShared),
        ExternalRecoverySettings::default(),
    )
    .ok()
    .expect("valid settings");
    assert_eq!(
        actions,
        vec![RecoveryAction::Reserve {
            reason: ExternalUncertaintyReason::BridgeRestart
        }]
    );
    assert_eq!(recovery.state(), ExternalRecoveryState::Connecting { epoch: 0 });
    assert_eq!(
        recovery.step(RecoveryEvent::Reserved { epoch: Some(4) }),
        vec![
            RecoveryAction::Publish(ExternalRecoveryState::Connecting { epoch: 4 }),
            RecoveryAction::Connect { epoch: 4 },
        ]
    );
    assert_eq!(
        recovery.step(RecoveryEvent::Connected { connected: true }),
        vec![
            RecoveryAction::Publish(ExternalRecoveryState::Reconciling { epoch: 4 }),
            RecoveryAction::SetState {
                epoch: 4,
                state: ExternalEndpointState::Reconciling
            },
            RecoveryAction::Reconcile { epoch: 4 },
        ]
    );
    assert_eq!(recovery.state().ready_epoch(), None);
    assert_eq!(
        recovery.step(RecoveryEvent::Reconciled { outcome: Ok(()) }),
        vec![
            RecoveryAction::SetState {
                epoch: 4,
                state: ExternalEndpointState::Ready
            },
            RecoveryAction::Publish(ExternalRecoveryState::Ready { epoch: 4 }),
        ]
    );
    assert_eq!(recovery.state().ready_epoch(), Some(4));
    assert_eq!(recovery.state().ready_after(3), Some(4));
    assert_eq!(recovery.state().ready_after(4), None);
}

#[test]
fn a_lost_epoch_is_recorded_before_it_is_reported() {
    let (mut recovery, _) = ExternalRecoveryCoordinator::start(
        &gate(ExternalCapabilityProfile::ResumeShared),
        ExternalRecoverySettings::default(),
    )
    .ok()
    .expect("valid settings");
    recovery.step(RecoveryEvent::Reserved { epoch: Some(1) });
    recovery.step(RecoveryEvent::Connected { connected: true });
    recovery.step(RecoveryEvent::Reconciled { outcome: Ok(()) });
    let reason = ExternalUncertaintyReason::SocketDisconnect;
    assert_eq!(
        recovery.step(RecoveryEvent::TransportClosed {
            exit: TransportExit::WebSocketClosed(WebSocketCloseReport { code: Some(1000) })
        }),
        vec![
            RecoveryAction::MarkUnavailable { epoch: 1, reason },
            RecoveryAction::Publish(ExternalRecoveryState::Unavailable { epoch: 1, reason }),
            RecoveryAction::Abort,
            RecoveryAction::Wait { delay_ms: 250 },
        ]
    );
    assert_eq!(
        recovery.step(RecoveryEvent::Elapsed),
        vec![RecoveryAction::Reserve { reason }]
    );
    recovery.step(RecoveryEvent::Reserved { epoch: None });
    assert_eq!(
        recovery.step(RecoveryEvent::Command {
            command: Some(RecoveryCommand::Shutdown)
        }),
        vec![RecoveryAction::Reply, RecoveryAction::ReadLatest]
    );
    assert_eq!(
        recovery.step(RecoveryEvent::Latest {
            latest: Some((1, ExternalEndpointState::Unavailable))
        }),
        vec![
            RecoveryAction::SetState {
                epoch: 1,
                state: ExternalEndpointState::Stopped
            },
            RecoveryAction::Publish(ExternalRecoveryState::Stopped),
        ]
    );
}

#[test]
fn reconnects_are_answered_and_need_no_pause() {
    let (mut recovery, _) = ExternalRecoveryCoordinator::start(
        &gate(ExternalCapabilityProfile::ResumeShared),
        ExternalRecoverySettings::default(),
    )
    .ok()
    .expect("valid settings");
    recovery.step(RecoveryEvent::Reserved { epoch: Some(1) });
    recovery.step(RecoveryEvent::Connected { connected: true });
    recovery.step(RecoveryEvent::Reconciled { outcome: Ok(()) });
    let reason = ExternalUncertaintyReason::ServerRestart;
    assert_eq!(
        recovery.step(RecoveryEvent::Command {
            command: Some(RecoveryCommand::Reconnect { reason })
        }),
        vec![
            RecoveryAction::MarkUnavailable { epoch: 1, reason },
            RecoveryAction::Publish(ExternalRecoveryState::Unavailable { epoch: 1, reason }),
            RecoveryAction::Abort,
            RecoveryAction::Reply,
            RecoveryAction::Reserve { reason },
        ]
    );
}

#[test]
fn recovery_needs_a_resuming_gate_and_sound_bounds() {
    assert!(matches!(
        ExternalRecoveryCoordinator::start(
            &gate(ExternalCapabilityProfile::ObserveShared),
            ExternalRecoverySettings::default(),
        ),
        Err(ExternalRecoveryError::UnsupportedProfile)
    ));
    let inverted = ExternalRecoverySettings {
        request_timeout_ms: 1,
        reconnect_initial_delay_ms: 10,
        reconnect_max_delay_ms: 9,
    };
    assert!(matches!(
        ExternalRecoveryCoordinator::start(
            &gate(ExternalCapabilityProfile::ResumeShared),
            inverted,
        ),
        Err(ExternalRecoveryError::InvalidSettings)
    ));
    assert_eq!(
        ExternalRecoveryError::Timeout.to_text(),
        "external recovery wait timed out"
    );
}

#[test]
fn delays_double_up_to_their_bound() {
    assert_eq!(next_delay(250, 30_000), 500);
    assert_eq!(next_delay(20_000, 30_000), 30_000);
    assert_eq!(next_delay(u64::MAX, u64::MAX), u64::MAX);
}

fn thread_answer(id: &str, turns: Vec<Turn>) -> Result<ReconcileResponse, ExternalTransportError> {
    Ok(ReconcileResponse::Thread {
        bytes: Some(100),
        id: id.to_owned(),
        turns,
    })
}

#[test]
fn a_thread_is_reconciled_from_its_pages_and_events() {
    let (mut epoch, action) =
        EpochReconcile::start(Some(vec![managed("gone", true), managed("thread-1", false)]))
            .ok()
            .expect("within the bound");
    assert!(matches!(action, EpochAction::Begin { thread_id } if thread_id == "thread-1"));
    let action = epoch.on_begun(FenceOutcome::Current).ok().expect("current");
    assert!(matches!(
        action,
        EpochAction::Thread {
            action: ReconcileAction::Resume,
            ..
        }
    ));
    let action = epoch
        .on_response(thread_answer("thread-1", Vec::new()))
        .ok()
        .expect("resumed");
    assert!(matches!(
        action,
        EpochAction::Thread {
            action: ReconcileAction::Read,
            ..
        }
    ));
    let action = epoch
        .on_response(thread_answer("thread-1", Vec::new()))
        .ok()
        .expect("read");
    assert!(matches!(
        action,
        EpochAction::Thread {
            action: ReconcileAction::ListTurns { cursor: None },
            ..
        }
    ));
    let live = epoch
        .on_arrival(Arrival::Event {
            event: ExternalReadEvent::TurnCompleted {
                thread_id: "thread-1".to_owned(),
                turn: turn("b", TurnStatus::Failed),
            },
            bytes: Some(10),
        })
        .ok()
        .expect("a managed thread");
    assert!(matches!(live, LiveEvent::Nothing));
    let action = epoch
        .on_response(Ok(ReconcileResponse::Turns {
            bytes: Some(10),
            turns: vec![
                turn("c", TurnStatus::InProgress),
                turn("a", TurnStatus::Completed),
            ],
            next_cursor: None,
        }))
        .ok()
        .expect("a page");
    let EpochAction::Thread {
        action: ReconcileAction::ListItems { turn_id, cursor },
        ..
    } = action
    else {
        panic!("items follow turns");
    };
    assert_eq!(turn_id, "a");
    assert_eq!(cursor, None);
    let action = epoch
        .on_response(Ok(ReconcileResponse::Items {
            bytes: Some(10),
            entries: vec![ItemEntry {
                turn_id: "a".to_owned(),
                item: item("item-1"),
            }],
            next_cursor: None,
        }))
        .ok()
        .expect("a page");
    assert!(matches!(
        action,
        EpochAction::Thread {
            action: ReconcileAction::ListItems { ref turn_id, .. },
            ..
        } if turn_id == "c"
    ));
    let action = epoch
        .on_response(Ok(ReconcileResponse::Items {
            bytes: Some(10),
            entries: Vec::new(),
            next_cursor: None,
        }))
        .ok()
        .expect("a page");
    let EpochAction::Thread {
        action: ReconcileAction::Apply { turns, items },
        ..
    } = action
    else {
        panic!("the result is applied");
    };
    assert_eq!(turns.len(), 2);
    assert_eq!(turns[0].0, "a");
    assert_eq!(turns[0].1, ExternalTerminalStatus::Completed);
    assert_eq!(turns[1].0, "b");
    assert_eq!(turns[1].1, ExternalTerminalStatus::Failed);
    assert_eq!(items, vec![("a".to_owned(), "item-1".to_owned())]);
    let action = epoch.on_applied(ApplyOutcome::Applied).ok().expect("applied");
    assert!(matches!(action, EpochAction::Ready));
}

#[test]
fn a_repeated_cursor_leaves_the_thread_uncertain() {
    let (mut epoch, _) = EpochReconcile::start(Some(vec![managed("t", false)]))
        .ok()
        .expect("within the bound");
    epoch.on_begun(FenceOutcome::Current).ok().expect("current");
    epoch.on_response(thread_answer("t", Vec::new())).ok().expect("resumed");
    epoch.on_response(thread_answer("t", Vec::new())).ok().expect("read");
    for _ in 0..1 {
        epoch
            .on_response(Ok(ReconcileResponse::Turns {
                bytes: Some(1),
                turns: Vec::new(),
                next_cursor: Some("next".to_owned()),
            }))
            .ok()
            .expect("a page");
    }
    let action = epoch
        .on_response(Ok(ReconcileResponse::Turns {
            bytes: Some(1),
            turns: Vec::new(),
            next_cursor: Some("next".to_owned()),
        }))
        .ok()
        .expect("the thread alone is uncertain");
    assert!(matches!(
        action,
        EpochAction::MarkUncertain {
            reason: ExternalUncertaintyReason::PageLimit,
            ..
        }
    ));
    let action = epoch.on_marked(true).ok().expect("marked");
    assert!(matches!(action, EpochAction::Ready));
}

#[test]
fn foreign_threads_and_failures_end_the_epoch() {
    let (mut epoch, _) = EpochReconcile::start(Some(vec![managed("t", false)]))
        .ok()
        .expect("within the bound");
    epoch.on_begun(FenceOutcome::Current).ok().expect("current");
    assert!(matches!(
        epoch.on_arrival(Arrival::Event {
            event: ExternalReadEvent::ThreadGoalCleared {
                thread_id: "foreign".to_owned()
            },
            bytes: Some(1),
        }),
        Err(EpochFailure::ProtocolViolation)
    ));
    let (mut stale, _) = EpochReconcile::start(Some(vec![managed("t", false)]))
        .ok()
        .expect("within the bound");
    assert!(matches!(
        stale.on_begun(FenceOutcome::Stale),
        Err(EpochFailure::ConnectionLost)
    ));
    assert!(matches!(
        EpochReconcile::start(None),
        Err(EpochFailure::Store)
    ));
    let many: Vec<ManagedThread> = (0..=EXTERNAL_MANAGED_THREAD_CAPACITY)
        .map(|number| managed(&format!("t{number}"), false))
        .collect();
    assert!(matches!(
        EpochReconcile::start(Some(many)),
        Err(EpochFailure::Store)
    ));
    assert_eq!(
        map_transport_failure(ExternalTransportError::RequestTimeout),
        EpochFailure::RequestTimeout
    );
    assert_eq!(
        map_transport_failure(ExternalTransportError::Rpc),
        EpochFailure::ProtocolViolation
    );
}

#[test]
fn another_thread_in_an_answer_is_a_violation() {
    let (mut epoch, _) = EpochReconcile::start(Some(vec![managed("t", false)]))
        .ok()
        .expect("within the bound");
    epoch.on_begun(FenceOutcome::Current).ok().expect("current");
    let action = epoch
        .on_response(thread_answer("other", Vec::new()))
        .ok()
        .expect("the thread alone is uncertain");
    assert!(matches!(
        action,
        EpochAction::MarkUncertain {
            reason: ExternalUncertaintyReason::ProtocolViolation,
            ..
        }
    ));
}

fn reports(events: Vec<RecoveryEvent>) -> Vec<ExternalRecoveryState> {
    let (mut recovery, _) = ExternalRecoveryCoordinator::start(
        &gate(ExternalCapabilityProfile::ResumeShared),
        ExternalRecoverySettings::default(),
    )
    .ok()
    .expect("valid settings");
    let mut states = Vec::new();
    for event in events {
        for action in recovery.step(event) {
            if let RecoveryAction::Publish(state) = action {
                states.push(state);
            }
        }
    }
    states
}

#[test]
fn a_run_reports_its_epochs_in_order() {
    assert_eq!(
        reports(vec![
            RecoveryEvent::Reserved { epoch: Some(4) },
            RecoveryEvent::Connected { connected: false },
            RecoveryEvent::Elapsed,
            RecoveryEvent::Reserved { epoch: Some(5) },
            RecoveryEvent::Connected { connected: true },
            RecoveryEvent::Reconciled { outcome: Ok(()) },
            RecoveryEvent::Command {
                command: Some(RecoveryCommand::Shutdown)
            },
            RecoveryEvent::Latest { latest: None },
        ]),
        vec![
            ExternalRecoveryState::Connecting { epoch: 4 },
            ExternalRecoveryState::Unavailable {
                epoch: 4,
                reason: ExternalUncertaintyReason::SocketDisconnect
            },
            ExternalRecoveryState::Connecting { epoch: 5 },
            ExternalRecoveryState::Reconciling { epoch: 5 },
            ExternalRecoveryState::Ready { epoch: 5 },
            ExternalRecoveryState::Stopped,
        ]
    );
    assert_eq!(
        reports(vec![
            RecoveryEvent::Cancelled,
            RecoveryEvent::Latest { latest: None },
        ]),
        vec![ExternalRecoveryState::Stopped]
    );
}
