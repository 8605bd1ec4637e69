use lark_codex_bridge::codex::approvals::approval_duration;
use lark_codex_bridge::codex::approvals::denial_for;
use lark_codex_bridge::codex::approvals::new_approval_id;
use lark_codex_bridge::codex::approvals::request_key_from_value;
use lark_codex_bridge::codex::approvals::wall_now_ms;
use lark_codex_bridge::codex::approvals::AnswerAction;
use lark_codex_bridge::codex::approvals::AnswerEvent;
use lark_codex_bridge::codex::approvals::ApprovalResolution;
use lark_codex_bridge::codex::approvals::ClaimOutcome;
use lark_codex_bridge::codex::approvals::ExternalApprovalDecision;
use lark_codex_bridge::codex::approvals::ReceiveOutcome;
use lark_codex_bridge::codex::approvals::SimpleApprovalDecision;
use lark_codex_bridge::codex::external::ExternalAuthentication;
use lark_codex_bridge::codex::external::ExternalCapabilityProfile;
use lark_codex_bridge::codex::external::ExternalEndpointConfig;
use lark_codex_bridge::codex::external::ExternalEndpointGate;
use lark_codex_bridge::codex::external_recovery::ExternalEndpointState;
use lark_codex_bridge::codex::external_transport::ApprovalKind;
use lark_codex_bridge::codex::external_transport::ApprovalParams;
use lark_codex_bridge::codex::external_transport::ExternalApprovalRequest;
use lark_codex_bridge::codex::external_transport::ExternalReadEvent;
use lark_codex_bridge::codex::external_transport::ExternalTransportError;
use lark_codex_bridge::codex::external_write::validate_settings;
use lark_codex_bridge::codex::external_write::AdmissionAction;
use lark_codex_bridge::codex::external_write::AdmissionEvent;
use lark_codex_bridge::codex::external_write::ExternalMutationApplied;
use lark_codex_bridge::codex::external_write::ExternalWriteError;
use lark_codex_bridge::codex::external_write::ExternalWriteSettings;
use lark_codex_bridge::codex::external_write::TransitionOutcome;
use lark_codex_bridge::codex::external_write::WriterAdmission;
use lark_codex_bridge::codex::mutation::page_has_message;
use lark_codex_bridge::codex::mutation::queue_contains;
use lark_codex_bridge::codex::mutation::ExternalMutationKind;
use lark_codex_bridge::codex::mutation::ListedTurn;
use lark_codex_bridge::codex::mutation::MessageSearch;
use lark_codex_bridge::codex::mutation::Mutation;
use lark_codex_bridge::codex::mutation::MutationAction;
use lark_codex_bridge::codex::mutation::MutationEvent;
use lark_codex_bridge::codex::mutation::MutationOwner;
use lark_codex_bridge::codex::mutation::MutationRequest;
use lark_codex_bridge::codex::mutation::MutationResolution;
use lark_codex_bridge::codex::mutation::MutationTarget;
use lark_codex_bridge::codex::mutation::PrepareOutcome;
use lark_codex_bridge::codex::mutation::SearchStep;
use lark_codex_bridge::codex::mutation::SentReply;
use lark_codex_bridge::codex::mutation::ThreadReport;
use lark_codex_bridge::codex::protocol::RequestId;
use lark_codex_bridge::codex::reconcile::ExternalUncertaintyReason;
use lark_codex_bridge::codex::rpc::ConnectionEpoch;
use lark_codex_bridge::codex::rpc::ServerRequest;
use lark_codex_bridge::codex::types::TurnStatus;
use lark_codex_bridge::codex::write_actor::EndingAction;
use lark_codex_bridge::codex::write_actor::ReassignmentOutcome;
use lark_codex_bridge::codex::write_actor::WriteActor;
use lark_codex_bridge::codex::write_actor::WriterReaction;
use serde_json::Value;

fn settings() -> ExternalWriteSettings {
    ExternalWriteSettings {
        request_timeout_ms: 1_000,
        approval_timeout_ms: 60_000,
        client_actor: "client".to_owned(),
        approval_actor: "handler".to_owned(),
        approval_reviewer: "user".to_owned(),
        approval_recipient: "recipient".to_owned(),
    }
}

fn status(word: &str) -> Value {
    serde_json::from_str(&format!("{{\"type\":\"{word}\"}}")).expect("json")
}

fn report(word: &str) -> MutationEvent {
    MutationEvent::ThreadRead {
        result: Ok(ThreadReport {
            id: "thread-1".to_owned(),
            status: status(word),
        }),
    }
}

fn request(target: MutationTarget) -> MutationRequest {
    MutationRequest {
        source: "source".to_owned(),
        intent_id: "intent-1".to_owned(),
        thread_id: "thread-1".to_owned(),
        params_bytes: Some(10),
        target,
    }
}

fn start_target() -> MutationTarget {
    MutationTarget::Start {
        client_message_id: Some("message-1".to_owned()),
        approvals_reviewer: Some("user".to_owned()),
    }
}

fn begin(target: MutationTarget) -> (Mutation, MutationAction) {
    Mutation::begin(
        ExternalCapabilityProfile::QueueShared,
        settings(),
        request(target),
    )
    .ok()
    .expect("a sound write")
}

fn owner(source: &str) -> MutationEvent {
    MutationEvent::OwnerRead {
        owner: Some(Some(MutationOwner {
            source_actor: source.to_owned(),
            client_actor: "client".to_owned(),
            approval_actor: "handler".to_owned(),
        })),
    }
}

fn applied() -> TransitionOutcome {
    TransitionOutcome::Applied
}

#[test]
fn a_turn_is_started_on_an_idle_thread() {
    let (mut write, action) = begin(start_target());
    let MutationAction::Prepare { intent } = action else {
        panic!("the intent comes first");
    };
    assert_eq!(intent.kind, ExternalMutationKind::TurnStart);
    assert_eq!(intent.client_message_id, Some("message-1".to_owned()));
    assert!(matches!(
        write.step(MutationEvent::Prepared {
            outcome: PrepareOutcome::Prepared
        }),
        MutationAction::ReadThread
    ));
    assert!(matches!(
        write.step(report("idle")),
        MutationAction::ListQueue { limit: 1 }
    ));
    assert!(matches!(
        write.step(MutationEvent::QueueListed {
            result: Ok(Vec::new())
        }),
        MutationAction::MarkSent
    ));
    assert!(matches!(
        write.step(MutationEvent::Marked { outcome: applied() }),
        MutationAction::Send
    ));
    assert!(matches!(
        write.step(MutationEvent::Sent {
            result: Ok(SentReply::Turn {
                id: "turn-9".to_owned(),
                status: TurnStatus::InProgress
            })
        }),
        MutationAction::FindMessage { ref turn_id, ref client_message_id }
            if turn_id == "turn-9" && client_message_id == "message-1"
    ));
    assert!(matches!(
        write.step(MutationEvent::MessageSought { result: Ok(true) }),
        MutationAction::Resolve {
            resolution: MutationResolution::Applied { ref result_id }
        } if result_id == "turn-9"
    ));
    match write.step(MutationEvent::Resolved { outcome: applied() }) {
        MutationAction::Finish {
            result: Ok(ExternalMutationApplied { result_id }),
        } => assert_eq!(result_id, Some("turn-9".to_owned())),
        _ => panic!("the write succeeded"),
    }
}

#[test]
fn a_busy_thread_rejects_a_new_turn() {
    let (mut write, _) = begin(start_target());
    write.step(MutationEvent::Prepared {
        outcome: PrepareOutcome::Prepared,
    });
    assert!(matches!(
        write.step(report("active")),
        MutationAction::Resolve {
            resolution: MutationResolution::Rejected
        }
    ));
    assert!(matches!(
        write.step(MutationEvent::Resolved { outcome: applied() }),
        MutationAction::Finish {
            result: Err(ExternalWriteError::Conflict)
        }
    ));
}

#[test]
fn an_unclear_answer_is_fenced() {
    let (mut write, _) = begin(start_target());
    write.step(MutationEvent::Prepared {
        outcome: PrepareOutcome::Prepared,
    });
    write.step(report("idle"));
    write.step(MutationEvent::QueueListed {
        result: Ok(Vec::new()),
    });
    write.step(MutationEvent::Marked { outcome: applied() });
    assert!(matches!(
        write.step(MutationEvent::Sent {
            result: Err(ExternalTransportError::RequestTimeout)
        }),
        MutationAction::Resolve {
            resolution: MutationResolution::Uncertain
        }
    ));
    assert!(matches!(
        write.step(MutationEvent::Resolved { outcome: applied() }),
        MutationAction::Finish {
            result: Err(ExternalWriteError::Uncertain)
        }
    ));
}

#[test]
fn only_the_owner_steers_the_active_turn() {
    let target = || MutationTarget::Steer {
        expected_turn_id: "turn-1".to_owned(),
        client_message_id: Some("message-1".to_owned()),
    };
    let turns = || MutationEvent::TurnsListed {
        result: Ok(vec![
            ListedTurn {
                id: "turn-1".to_owned(),
                status: TurnStatus::InProgress,
            },
            ListedTurn {
                id: "turn-0".to_owned(),
                status: TurnStatus::Completed,
            },
        ]),
    };
    let (mut write, action) = begin(target());
    assert!(matches!(action, MutationAction::ReadThread));
    assert!(matches!(
        write.step(report("active")),
        MutationAction::ListTurns { limit: 2 }
    ));
    assert!(matches!(
        write.step(turns()),
        MutationAction::ReadOwner { ref target_id } if target_id == "turn-1"
    ));
    assert!(matches!(
        write.step(owner("source")),
        MutationAction::Prepare { .. }
    ));

    let (mut foreign, _) = begin(target());
    foreign.step(report("active"));
    foreign.step(turns());
    assert!(matches!(
        foreign.step(owner("somebody else")),
        MutationAction::Finish {
            result: Err(ExternalWriteError::Unauthorized)
        }
    ));
}

#[test]
fn interrupts_and_queued_input_end_with_their_target() {
    let (mut write, _) = begin(MutationTarget::Interrupt {
        turn_id: "turn-1".to_owned(),
    });
    write.step(report("active"));
    write.step(MutationEvent::TurnsListed {
        result: Ok(vec![ListedTurn {
            id: "turn-1".to_owned(),
            status: TurnStatus::InProgress,
        }]),
    });
    write.step(owner("source"));
    write.step(MutationEvent::Prepared {
        outcome: PrepareOutcome::Prepared,
    });
    write.step(MutationEvent::Marked { outcome: applied() });
    assert!(matches!(
        write.step(MutationEvent::Sent {
            result: Ok(SentReply::Interrupted)
        }),
        MutationAction::Resolve {
            resolution: MutationResolution::Applied { ref result_id }
        } if result_id == "turn-1"
    ));

    let (mut queued, action) = begin(MutationTarget::QueueStart {
        queued_id: Some("queued-1".to_owned()),
    });
    assert!(matches!(action, MutationAction::ReadOwner { .. }));
    queued.step(owner("source"));
    queued.step(MutationEvent::Prepared {
        outcome: PrepareOutcome::Prepared,
    });
    assert!(matches!(
        queued.step(report("idle")),
        MutationAction::ListQueue { limit: 100 }
    ));
    assert!(matches!(
        queued.step(MutationEvent::QueueListed {
            result: Ok(vec!["queued-1".to_owned(), "queued-1".to_owned()])
        }),
        MutationAction::Resolve {
            resolution: MutationResolution::Rejected
        }
    ));
}

#[test]
fn unsound_writes_are_not_begun() {
    assert!(matches!(
        Mutation::begin(
            ExternalCapabilityProfile::MutateShared,
            settings(),
            request(start_target())
        ),
        Err(ExternalWriteError::UnsupportedProfile)
    ));
    let mut nameless = request(start_target());
    nameless.intent_id = String::new();
    assert!(matches!(
        Mutation::begin(ExternalCapabilityProfile::QueueShared, settings(), nameless),
        Err(ExternalWriteError::InvalidSettings)
    ));
    let elsewhere = request(MutationTarget::Start {
        client_message_id: Some("m".to_owned()),
        approvals_reviewer: Some("guardian".to_owned()),
    });
    assert!(matches!(
        Mutation::begin(ExternalCapabilityProfile::QueueShared, settings(), elsewhere),
        Err(ExternalWriteError::InvalidSettings)
    ));
}

#[test]
fn lists_are_searched_exactly() {
    let queue = vec!["a".to_owned(), "b".to_owned(), "a".to_owned()];
    assert!(queue_contains(&queue, "b"));
    assert!(!queue_contains(&queue, "a"));
    assert!(!queue_contains(&queue, "c"));
    let page = vec![None, Some("m".to_owned())];
    assert!(page_has_message(&page, "m"));
    assert!(!page_has_message(&page, "n"));
}

#[test]
fn settings_name_three_different_actors() {
    assert!(validate_settings(&settings()).is_ok());
    let mut shared = settings();
    shared.approval_actor = shared.client_actor.clone();
    assert!(validate_settings(&shared).is_err());
    let mut zero = settings();
    zero.approval_timeout_ms = 0;
    assert!(validate_settings(&zero).is_err());
    let text = settings().debug_text();
    assert!(text.contains("request_timeout: 1s"));
    for secret in ["client\"", "handler", "recipient", "\"user\""] {
        assert!(!text.contains(secret));
    }
}

#[test]
fn a_writer_is_admitted_last() {
    let gate = ExternalEndpointGate::new(ExternalEndpointConfig {
        endpoint: "ws://127.0.0.1:1234/app-server".to_owned(),
        expected_codex_version: "0.149.0".to_owned(),
        capability_profile: ExternalCapabilityProfile::MutateShared,
        authentication: ExternalAuthentication::BearerTokenFile {
            path: "/run/secrets/token".to_owned(),
        },
    })
    .ok()
    .expect("valid settings");
    let (mut admission, _) = WriterAdmission::start(&gate, &settings()).ok().expect("a writer");
    assert_eq!(
        admission.step(AdmissionEvent::Reserved { epoch: Some(2) }),
        vec![AdmissionAction::Connect { epoch: 2 }]
    );
    admission.step(AdmissionEvent::Connected { connected: true });
    assert_eq!(
        admission.step(AdmissionEvent::StateSet { set: true }),
        vec![AdmissionAction::Reconcile { epoch: 2 }]
    );
    assert_eq!(
        admission.step(AdmissionEvent::Reconciled { outcome: Ok(()) }),
        vec![AdmissionAction::SetState {
            epoch: 2,
            state: ExternalEndpointState::Ready
        }]
    );
    assert_eq!(
        admission.step(AdmissionEvent::StateSet { set: false }),
        vec![
            AdmissionAction::MarkUnavailable {
                epoch: 2,
                reason: ExternalUncertaintyReason::ProtocolViolation
            },
            AdmissionAction::Abort,
            AdmissionAction::Refuse(ExternalWriteError::Store),
        ]
    );
}

#[test]
fn approvals_wait_within_every_bound() {
    assert_eq!(approval_duration(60_000, None), 60_000);
    assert_eq!(approval_duration(900_000, None), 300_000);
    assert_eq!(approval_duration(60_000, Some(20_000)), 15_000);
    assert_eq!(approval_duration(60_000, Some(4_000)), 1);
}

#[test]
fn request_keys_are_digests_of_the_identifier() {
    // The digest of the JSON text `1`.
    assert_eq!(
        request_key_from_value(&Value::from(1)),
        Some("6b86b273ff34fce19d6b804eff5a3f5747ada4eaa22f1d49c01e52ddb7875b4b".to_owned())
    );
    assert_ne!(
        request_key_from_value(&Value::from("1")),
        request_key_from_value(&Value::from(1))
    );
}

fn approval(epoch: u64) -> ExternalApprovalRequest {
    ExternalApprovalRequest::FileChange {
        params: ApprovalParams {
            thread_id: "thread-1".to_owned(),
            turn_id: "turn-1".to_owned(),
            item_id: "item-1".to_owned(),
            details: Value::Null,
        },
        request: ServerRequest::new(
            RequestId::Integer(1),
            "item/fileChange/requestApproval".to_owned(),
            Some(Value::Null),
            ConnectionEpoch::new(epoch),
        ),
    }
}

fn actor_with_approval() -> WriteActor {
    let mut actor = WriteActor::new(3, settings());
    let (claim, pending) = actor
        .desk()
        .receive_approval(&approval(3), "approval-1", 100, 5_000)
        .ok()
        .expect("of this epoch");
    assert_eq!(claim.deadline_ms, 65_000);
    assert_eq!(pending.deadline_ms, 60_100);
    assert_eq!(claim.recipient_actor, "recipient");
    let prompt = actor
        .desk_mut()
        .on_received("approval-1", pending, claim.deadline_ms, ReceiveOutcome::Received)
        .ok()
        .expect("received");
    assert_eq!(
        prompt.debug_text(),
        "ExternalApprovalPrompt { kind: FileChange, deadline_ms: 65000, .. }"
    );
    actor
}

#[test]
fn an_approval_is_answered_once_and_by_its_recipient() {
    let mut actor = actor_with_approval();
    let decision = || ExternalApprovalDecision::FileChange(SimpleApprovalDecision::Accept);
    assert!(matches!(
        actor.desk().begin_resolution("somebody", "approval-1", decision()),
        Err(ExternalWriteError::Unauthorized)
    ));
    assert!(matches!(
        actor.desk().begin_resolution(
            "recipient",
            "approval-1",
            denial_for(ApprovalKind::Command)
        ),
        Err(ExternalWriteError::Conflict)
    ));
    let (mut answer, action) = actor
        .desk()
        .begin_resolution("recipient", "approval-1", decision())
        .ok()
        .expect("the recipient answers");
    assert_eq!(action, AnswerAction::Claim);
    assert_eq!(
        answer.step(AnswerEvent::Claimed {
            outcome: ClaimOutcome::Claimed
        }),
        AnswerAction::Record {
            resolution: ApprovalResolution::Responding
        }
    );
    assert_eq!(
        answer.step(AnswerEvent::Recorded { recorded: true }),
        AnswerAction::Respond
    );
    assert!(answer.take_decision().is_some());
    assert_eq!(
        answer.step(AnswerEvent::Responded { responded: true }),
        AnswerAction::Finish { error: None }
    );
    actor.desk_mut().note_answered("approval-1");
    assert!(matches!(
        actor.desk().begin_resolution("recipient", "approval-1", decision()),
        Err(ExternalWriteError::Conflict)
    ));
    assert!(actor.desk().expired(u64::MAX).is_empty());
}

#[test]
fn an_overdue_approval_is_refused() {
    let mut actor = actor_with_approval();
    assert!(actor.desk().expired(60_099).is_empty());
    assert_eq!(actor.desk().expired(60_100), vec!["approval-1".to_owned()]);
    let (mut answer, _) = actor
        .desk_mut()
        .begin_denial("approval-1")
        .expect("it waits");
    answer.step(AnswerEvent::Claimed {
        outcome: ClaimOutcome::Claimed,
    });
    answer.step(AnswerEvent::Recorded { recorded: true });
    assert!(matches!(
        answer.take_decision(),
        Some(ExternalApprovalDecision::FileChange(
            SimpleApprovalDecision::Decline
        ))
    ));
    assert_eq!(
        answer.step(AnswerEvent::Responded { responded: true }),
        AnswerAction::Record {
            resolution: ApprovalResolution::Denied
        }
    );
    assert!(actor.desk().is_empty());
    assert!(actor.desk_mut().begin_denial("approval-1").is_none());
}

#[test]
fn approvals_of_another_epoch_are_given_up() {
    let actor = WriteActor::new(3, settings());
    let refusal = actor
        .desk()
        .receive_approval(&approval(2), "approval-1", 0, 0)
        .err()
        .expect("of another epoch");
    assert_eq!(refusal.error, ExternalWriteError::Uncertain);
    assert!(refusal.abandon);
}

#[test]
fn a_resolved_request_takes_its_approval_along() {
    let mut actor = actor_with_approval();
    let reaction = actor.on_event(Ok(Some(ExternalReadEvent::ServerRequestResolved {
        thread_id: "thread-1".to_owned(),
        request_id: Value::from(1),
    })));
    let WriterReaction::ResolveRequest { request_key } = reaction else {
        panic!("the request is resolved");
    };
    actor.on_request_resolved(&request_key, TransitionOutcome::Applied);
    assert!(actor.desk().is_empty());
    assert!(!actor.is_fatal());
    actor.on_request_resolved(&request_key, TransitionOutcome::Stale);
    assert!(actor.is_fatal());
}

#[test]
fn a_writer_stops_on_what_it_may_not_ignore() {
    let mut actor = WriteActor::new(1, settings());
    let moved = Ok(Some(ExternalReadEvent::ThreadSettingsUpdated {
        thread_id: "t".to_owned(),
        approvals_reviewer: "guardian".to_owned(),
    }));
    assert!(matches!(actor.on_event(moved), WriterReaction::Stop));
    assert!(actor.is_fatal());
    assert_eq!(
        actor.break_off(),
        vec![
            EndingAction::MarkUnavailable {
                epoch: 1,
                reason: ExternalUncertaintyReason::SocketDisconnect
            },
            EndingAction::Abort,
            EndingAction::DrainCommands,
        ]
    );
    let mut other = WriteActor::new(1, settings());
    other.note_mutation(&Err(ExternalWriteError::Conflict));
    assert!(!other.is_fatal());
    other.note_mutation(&Err(ExternalWriteError::Ambiguous));
    assert!(other.is_fatal());
}

#[test]
fn a_new_handler_ends_the_writer_in_order() {
    let actor = WriteActor::new(1, settings());
    assert!(actor.check_reassignment("new-handler").is_ok());
    assert!(matches!(
        actor.check_reassignment("client"),
        Err(ExternalWriteError::InvalidSettings)
    ));
    let busy = actor_with_approval();
    assert!(matches!(
        busy.check_reassignment("new-handler"),
        Err(ExternalWriteError::Busy)
    ));
    let actions = actor
        .finish_reassignment(ReassignmentOutcome::Reassigned)
        .ok()
        .expect("reassigned");
    assert_eq!(actions.last(), Some(&EndingAction::Reply));
    assert!(matches!(
        actor.finish_reassignment(ReassignmentOutcome::NotDrained),
        Err(ExternalWriteError::Busy)
    ));
}

#[test]
fn approvals_are_shown_by_kind_and_epoch() {
    assert_eq!(
        approval(3).debug_text(),
        "ExternalApprovalRequest { kind: \"file_change\", epoch: ConnectionEpoch(3), .. }"
    );
    assert_eq!(
        denial_for(ApprovalKind::Permissions).debug_text(),
        "ExternalApprovalDecision::Permissions([redacted])"
    );
}

#[test]
fn approval_identifiers_are_fresh() {
    let first = new_approval_id();
    let second = new_approval_id();
    assert_eq!(first.len(), 32);
    assert!(first
        .bytes()
        .all(|byte| byte.is_ascii_digit() || (b'a'..=b'f').contains(&byte)));
    assert_ne!(first, second);
    assert_eq!(wall_now_ms(Some(5)), 5);
    assert_eq!(wall_now_ms(Some(u128::MAX)), i64::MAX / 2);
    assert_eq!(wall_now_ms(None), i64::MAX / 2);
}

#[test]
fn a_message_is_sought_until_its_time_is_over() {
    let search = MessageSearch::new(100, 50);
    assert_eq!(search.remaining(120), Some(30));
    assert_eq!(search.remaining(150), None);
    let page = vec![Some("other".to_owned())];
    assert_eq!(
        search.after_page(&page, "message", 30),
        SearchStep::Pause { millis: 10 }
    );
    assert_eq!(
        search.after_page(&page, "message", 3),
        SearchStep::Pause { millis: 3 }
    );
    assert_eq!(search.after_page(&page, "other", 3), SearchStep::Found);
}

#[test]
fn a_lost_answer_is_fenced() {
    let mut actor = actor_with_approval();
    let (mut answer, _) = actor.desk_mut().begin_denial("approval-1").expect("it waits");
    answer.step(AnswerEvent::Claimed {
        outcome: ClaimOutcome::Claimed,
    });
    answer.step(AnswerEvent::Recorded { recorded: true });
    assert_eq!(
        answer.step(AnswerEvent::Responded { responded: false }),
        AnswerAction::Record {
            resolution: ApprovalResolution::Uncertain
        }
    );
    assert_eq!(
        answer.step(AnswerEvent::Recorded { recorded: true }),
        AnswerAction::Finish {
            error: Some(ExternalWriteError::Uncertain)
        }
    );
}
