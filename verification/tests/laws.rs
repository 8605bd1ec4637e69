use lark_codex_bridge::channel::session::SessionEnd;
use lark_codex_bridge::channel::session::SessionEvent;
use lark_codex_bridge::channel::session::SidecarSession;
use lark_codex_bridge::channel::sidecar::FrameEffect;
use lark_codex_bridge::codex::client::AppServerEvent;
use lark_codex_bridge::codex::client::SubscriptionInvalidation;
use lark_codex_bridge::codex::client::ThreadId;
use lark_codex_bridge::codex::client::TurnId;
use lark_codex_bridge::codex::compat::validate_approval;
use lark_codex_bridge::codex::compat::validate_shared_sort_direction;
use lark_codex_bridge::codex::compat::validate_thread_resume_params;
use lark_codex_bridge::codex::compat::validate_thread_start_params;
use lark_codex_bridge::codex::compat::validate_turn_start_params;
use lark_codex_bridge::codex::compat::validate_v0_146_thread_list_params;
use lark_codex_bridge::codex::compat::validate_v0_149_thread_list_params;
use lark_codex_bridge::codex::compat::ApprovalPolicy;
use lark_codex_bridge::codex::compat::SharedWireProfile;
use lark_codex_bridge::codex::compat::SortDirection;
use lark_codex_bridge::codex::compat::ThreadListParams;
use lark_codex_bridge::codex::compat::ThreadResumeParams;
use lark_codex_bridge::codex::compat::ThreadSortKey;
use lark_codex_bridge::codex::compat::ThreadStartParams;
use lark_codex_bridge::codex::compat::TurnStartParams;
use lark_codex_bridge::codex::compat::WireAdapter;
use lark_codex_bridge::codex::external::ExternalCapabilityProfile;
use lark_codex_bridge::codex::external_transport::map_rpc_error;
use lark_codex_bridge::codex::external_transport::recv_event;
use lark_codex_bridge::codex::external_transport::require_mutation;
use lark_codex_bridge::codex::external_transport::require_queue;
use lark_codex_bridge::codex::external_transport::require_resume;
use lark_codex_bridge::codex::external_transport::ApprovalParams;
use lark_codex_bridge::codex::external_transport::DecodedParams;
use lark_codex_bridge::codex::external_transport::ExternalReadEvent;
use lark_codex_bridge::codex::external_transport::ExternalTransportError;
use lark_codex_bridge::codex::mailbox::Mailbox;
use lark_codex_bridge::codex::mailbox::Received;
use lark_codex_bridge::codex::notification::notification_kind;
use lark_codex_bridge::codex::notification::Content;
use lark_codex_bridge::codex::notification::ItemParams;
use lark_codex_bridge::codex::notification::Notification;
use lark_codex_bridge::codex::notification::NotificationKind;
use lark_codex_bridge::codex::notification::TurnParams;
use lark_codex_bridge::codex::owner::final_exit;
use lark_codex_bridge::codex::owner::map_send_error;
use lark_codex_bridge::codex::owner::InboundFacts;
use lark_codex_bridge::codex::owner::InboundStep;
use lark_codex_bridge::codex::owner::Lane;
use lark_codex_bridge::codex::owner::Pump;
use lark_codex_bridge::codex::owner::RpcCommand;
use lark_codex_bridge::codex::owner::RpcOwner;
use lark_codex_bridge::codex::owner::TransportReport;
use lark_codex_bridge::codex::owner::TransportSendError;
use lark_codex_bridge::codex::owner::TransportStep;
use lark_codex_bridge::codex::projection::CompletedItems;
use lark_codex_bridge::codex::projection::Effect;
use lark_codex_bridge::codex::projection::ItemUpsert;
use lark_codex_bridge::codex::projection::ThreadProjection;
use lark_codex_bridge::codex::protocol::InboundMessage;
use lark_codex_bridge::codex::protocol::RequestId;
use lark_codex_bridge::codex::reconcile::TerminalProjection;
use lark_codex_bridge::codex::router::byte_permits;
use lark_codex_bridge::codex::router::server_request_memory_weight;
use lark_codex_bridge::codex::router::ControlEvent;
use lark_codex_bridge::codex::router::Router;
use lark_codex_bridge::codex::router::RouterCommand;
use lark_codex_bridge::codex::router::RouterInput;
use lark_codex_bridge::codex::router::RouterNext;
use lark_codex_bridge::codex::router::RouterReply;
use lark_codex_bridge::codex::rpc::bounded_permits;
use lark_codex_bridge::codex::rpc::check_answerable;
use lark_codex_bridge::codex::rpc::payload_limit;
use lark_codex_bridge::codex::rpc::request_id_kind;
use lark_codex_bridge::codex::rpc::retained_bytes;
use lark_codex_bridge::codex::rpc::ConnectionEpoch;
use lark_codex_bridge::codex::rpc::LimitedCounter;
use lark_codex_bridge::codex::rpc::RpcError;
use lark_codex_bridge::codex::rpc::RpcEvent;
use lark_codex_bridge::codex::rpc::RpcProtocolPolicy;
use lark_codex_bridge::codex::rpc::ServerRequest;
use lark_codex_bridge::codex::rpc::ServerRequestLease;
use lark_codex_bridge::codex::types::Measure;
use lark_codex_bridge::codex::types::ThreadItem;
use lark_codex_bridge::codex::types::TokenUsageBreakdown;
use lark_codex_bridge::codex::types::TransportExit;
use lark_codex_bridge::codex::types::WebSocketCloseReport;
use lark_codex_bridge::codex::types::Turn;
use lark_codex_bridge::codex::types::TurnStatus;
use lark_codex_bridge::keyed::PairSet;
use lark_codex_bridge::limits::HIGH_PRIORITY_BURST;
use lark_codex_bridge::limits::MAX_OUTBOUND_VALUE_WIRE_BYTES;
use lark_codex_bridge::limits::RPC_BYTE_BUDGET;
use lark_codex_bridge::limits::THREAD_DELTA_BYTE_LIMIT;
use lark_codex_bridge::limits::THREAD_OUTCOME_CAPACITY;
use lark_codex_bridge::limits::THREAD_TERMINAL_CAPACITY;
use lark_codex_bridge::ordered::in_order;
use lark_codex_bridge::ordered::is_text_before;
use lark_codex_bridge::text::append_hex;
use lark_codex_bridge::text::append_span;
use lark_codex_bridge::version::Version;
use serde_json::Value;

fn measure() -> Measure {
    Measure {
        wire_bytes: 1,
        memory_bytes: 1,
    }
}

fn turn(id: &str, status: TurnStatus) -> Turn {
    Turn {
        id: id.to_owned(),
        status,
        error: None,
        items: Vec::new(),
        measure: measure(),
        fingerprint: 1,
    }
}

fn item(id: &str, fingerprint: u64) -> ThreadItem {
    ThreadItem {
        id: Some(id.to_owned()),
        kind: "agentMessage".to_owned(),
        measure: measure(),
        fingerprint,
        body: Value::Null,
    }
}

fn thread() -> ThreadId {
    ThreadId::new("thread".to_owned())
}

fn turn_id(id: &str) -> TurnId {
    TurnId::new(id.to_owned())
}

fn notification(content: Content) -> Notification {
    Notification {
        params: Some(Value::Null),
        params_bytes: 4,
        content,
    }
}

fn lane(slots: usize) -> Lane {
    Lane {
        permits: 1_000_000,
        slots,
        closed: false,
    }
}

fn facts(slots: usize) -> InboundFacts {
    InboundFacts {
        id_bytes: 1,
        params_bytes: 1,
        lane: lane(slots),
        granted: true,
    }
}

#[test]
fn lists_come_out_in_order() {
    let list = vec!["b".to_owned(), "a".to_owned(), "ab".to_owned(), "b".to_owned()];
    assert_eq!(in_order(list), vec!["a", "ab", "b", "b"]);
    let pairs = vec![
        ("b".to_owned(), "1".to_owned()),
        ("a".to_owned(), "2".to_owned()),
        ("a".to_owned(), "1".to_owned()),
    ];
    let sorted = in_order(pairs.clone());
    let mut expected = pairs;
    expected.sort();
    assert_eq!(sorted, expected);
    assert!(is_text_before("Z", "a"));
    assert!(!is_text_before("a", "a"));
    assert!(is_text_before("z", "ä"));
}

#[test]
fn pairs_are_kept_once() {
    let mut set = PairSet::new();
    set.insert("a", "1");
    set.insert("a", "1");
    set.insert("a", "2");
    assert_eq!(set.len(), 2);
    assert!(set.contains("a", "2"));
    assert!(!set.contains("b", "1"));
}

#[test]
fn texts_are_written_exactly() {
    let mut text = String::new();
    append_hex(&mut text, &vec![0, 15, 255]);
    assert_eq!(text, "000fff");
    for millis in [0_u64, 1, 999, 1_000, 1_500, 30_000, 61_001] {
        let mut shown = String::new();
        append_span(&mut shown, millis);
        assert_eq!(
            shown,
            format!("{:?}", std::time::Duration::from_millis(millis))
        );
    }
    assert_ne!(
        Version::new(1, 11, 1).to_text(),
        Version::new(11, 1, 1).to_text()
    );
}

#[test]
fn oversized_fragments_are_dropped_whole() {
    let mut mailbox = Mailbox::new();
    let fragment = |text: String| AppServerEvent::CommandOutputDelta {
        turn_id: turn_id("turn"),
        item_id: "item".to_owned(),
        delta: text,
    };
    mailbox.push_lossy(fragment("kept".to_owned()));
    mailbox.push_lossy(fragment("x".repeat(THREAD_DELTA_BYTE_LIMIT + 1)));
    mailbox.push_lossy(fragment(" too".to_owned()));
    match mailbox.recv() {
        Received::Event(AppServerEvent::CommandOutputDelta { delta, .. }) => {
            assert_eq!(delta, "kept too");
        }
        _ => panic!("a fragment waits"),
    }
}

#[test]
fn a_subscriber_that_lags_is_told() {
    let mut router = Router::new();
    let id = router.subscribe(&thread()).expect("room for a subscriber");
    for number in 0..=THREAD_TERMINAL_CAPACITY {
        assert!(router.route_notification(notification(Content::ItemCompleted(Some(
            ItemParams {
                thread_id: thread(),
                turn_id: turn_id("turn"),
                item: item(&format!("item-{number}"), 1),
            }
        )))));
    }
    let mut last = None;
    while let Received::Event(event) = router.recv(id) {
        last = Some(event);
    }
    assert!(matches!(
        last,
        Some(AppServerEvent::SubscriptionInvalidated {
            reason: SubscriptionInvalidation::Lagged,
            ..
        })
    ));
}

#[test]
fn a_contradicted_item_invalidates_its_thread() {
    let mut router = Router::new();
    let completed = |fingerprint| {
        notification(Content::ItemCompleted(Some(ItemParams {
            thread_id: thread(),
            turn_id: turn_id("turn"),
            item: item("item", fingerprint),
        })))
    };
    assert!(router.route_notification(completed(1)));
    assert!(router.route_notification(completed(2)));
    assert!(!router.route_notification(completed(1)));
    let events = router.take_control();
    assert!(matches!(
        events.last(),
        Some(ControlEvent::InvalidNotification { method, authoritative: true })
            if method == "routing-capacity"
    ));
}

#[test]
fn a_turn_ends_once() {
    let mut projection = ThreadProjection::new();
    assert_eq!(projection.note_turn_started(&turn_id("turn")), Effect::Announce);
    let (effect, outcome) =
        projection.note_turn_completed(&thread(), turn("turn", TurnStatus::Completed));
    assert_eq!(effect, Effect::Announce);
    assert!(outcome.is_some());
    let (effect, again) =
        projection.note_turn_completed(&thread(), turn("turn", TurnStatus::Completed));
    assert_eq!(effect, Effect::Quiet);
    assert!(again.is_none());
    assert_eq!(projection.note_turn_started(&turn_id("turn")), Effect::Quiet);
    assert!(projection.is_quiescent());
}

#[test]
fn the_newest_outcomes_are_kept() {
    let mut projection = ThreadProjection::new();
    for number in 0..=THREAD_OUTCOME_CAPACITY {
        projection.note_turn_completed(
            &thread(),
            turn(&format!("turn-{number}"), TurnStatus::Completed),
        );
    }
    assert!(projection.outcome(&turn_id("turn-0")).is_none());
    assert!(projection
        .outcome(&turn_id(&format!("turn-{THREAD_OUTCOME_CAPACITY}")))
        .is_some());
}

#[test]
fn usage_goes_into_the_outcome() {
    let mut projection = ThreadProjection::new();
    let usage = TokenUsageBreakdown { body: Value::from(7) };
    projection.note_usage(&turn_id("turn"), &usage);
    projection.note_item_started(&turn_id("turn"), &Some("item".to_owned()));
    projection.note_item_completed(&turn_id("turn"), &item("item", 3));
    projection.note_turn_completed(&thread(), turn("turn", TurnStatus::Failed));
    let outcome = projection.outcome(&turn_id("turn")).expect("kept");
    assert!(outcome.token_usage.is_some());
}

#[test]
fn outcomes_survive_the_connection() {
    let mut router = Router::new();
    let id = router.subscribe(&thread()).expect("room for a subscriber");
    router.route_notification(notification(Content::TurnCompleted(Some(TurnParams {
        thread_id: thread(),
        turn: turn("turn", TurnStatus::Completed),
    }))));
    assert_eq!(
        router.finish(None, TransportExit::Cancelled),
        TransportExit::Cancelled
    );
    assert!(router.outcome(id, &turn_id("turn")).is_some());
}

#[test]
fn outcomes_outlive_their_route() {
    let mut router = Router::new();
    let id = router.subscribe(&thread()).expect("room for a subscriber");
    let complete = |router: &mut Router, name: &str| {
        router.route_notification(notification(Content::TurnCompleted(Some(TurnParams {
            thread_id: thread(),
            turn: turn(name, TurnStatus::Completed),
        }))))
    };
    for number in 0..=THREAD_TERMINAL_CAPACITY {
        complete(&mut router, &format!("turn-{number}"));
    }
    let last = format!("turn-{THREAD_TERMINAL_CAPACITY}");
    assert!(router.outcome(id, &turn_id(&last)).is_some());
    let (released, _) =
        router.handle_router_command(RouterCommand::ReleaseRoute { thread_id: thread() });
    assert!(matches!(released, RouterReply::Accepted(true)));
    assert!(router.outcome(id, &turn_id(&last)).is_some());
    let later = router.subscribe(&thread()).expect("room for a subscriber");
    complete(&mut router, "later");
    assert!(router.outcome(later, &turn_id("later")).is_some());
    assert!(router.outcome(later, &turn_id(&last)).is_none());
    assert!(router.outcome(id, &turn_id("later")).is_none());
    router.unsubscribe(id, &thread());
    assert!(router.outcome(id, &turn_id(&last)).is_none());
}

#[test]
fn a_subscription_that_nobody_waits_for_is_dropped() {
    let mut router = Router::new();
    let (reply, open) = router.handle_router_command(RouterCommand::Subscribe {
        thread_id: thread(),
        listening: false,
    });
    assert!(open);
    let RouterReply::Subscribed(Some(id)) = reply else {
        panic!("there is room for a subscriber");
    };
    assert!(matches!(router.recv(id), Received::Closed));
}

#[test]
fn a_repeated_item_is_the_same() {
    let mut items = CompletedItems::new();
    assert_eq!(items.upsert(&item("item", 3)), ItemUpsert::New);
    assert_eq!(items.upsert(&item("item", 3)), ItemUpsert::Same);
    assert_eq!(items.upsert(&item("item", 4)), ItemUpsert::Conflict);
    assert_eq!(items.upsert(&item("item", 4)), ItemUpsert::Same);
    assert_eq!(items.len(), 1);
}

#[test]
fn the_router_stops_with_a_fault() {
    let mut router = Router::new();
    let (_, next, _) = router.react(RouterInput::Cancelled { faulted: true }, 0, false);
    assert!(matches!(
        next,
        RouterNext::Stop {
            fault: Some(TransportExit::TaskFailed)
        }
    ));
    let request = |permits| {
        let mut router = Router::new();
        let step = router.react(
            RouterInput::ServerRequest {
                token: 1,
                method: "item/tool/call".to_owned(),
                id_bytes: 1,
                params_bytes: 1,
            },
            permits,
            false,
        );
        matches!(step.1, RouterNext::Continue)
    };
    assert!(request(10_000));
    assert!(!request(10));
    assert_eq!(server_request_memory_weight("abc", 1, 2), 262);
    assert_eq!(byte_permits(0), 1);
    assert_eq!(byte_permits(5), 5);
}

#[test]
fn authoritative_notifications_are_never_dropped() {
    let completed = || InboundMessage::Notification {
        method: "turn/completed".to_owned(),
        params: Some(Value::Null),
    };
    let delta = || InboundMessage::Notification {
        method: "item/agentMessage/delta".to_owned(),
        params: Some(Value::Null),
    };
    let mut owner = RpcOwner::new(ConnectionEpoch::new(1), RpcProtocolPolicy::Permissive);
    assert!(matches!(
        owner.handle_inbound(completed(), facts(0)),
        InboundStep::Emit { reliable: true, .. }
    ));
    let refused = InboundFacts {
        granted: false,
        ..facts(5)
    };
    assert!(matches!(
        owner.handle_inbound(completed(), refused),
        InboundStep::Fault
    ));
    let mut lossy = RpcOwner::new(ConnectionEpoch::new(1), RpcProtocolPolicy::Permissive);
    assert!(matches!(
        lossy.handle_inbound(delta(), facts(0)),
        InboundStep::Dropped
    ));
    assert_eq!(lossy.dropped_notification_count(), 1);
}

#[test]
fn emitted_events_are_numbered_in_order() {
    let mut owner = RpcOwner::new(ConnectionEpoch::new(1), RpcProtocolPolicy::Permissive);
    let mut numbers = Vec::new();
    for _ in 0..3 {
        let step = owner.handle_inbound(
            InboundMessage::Notification {
                method: "item/started".to_owned(),
                params: Some(Value::Null),
            },
            facts(5),
        );
        if let InboundStep::Emit { sequence, .. } = step {
            numbers.push(sequence);
        }
    }
    assert_eq!(numbers, vec![0, 1, 2]);
}

#[test]
fn requests_time_out_and_yield() {
    let mut owner = RpcOwner::new(ConnectionEpoch::new(1), RpcProtocolPolicy::Permissive);
    owner.dispatch_command(
        RpcCommand::Request {
            id: RequestId::Integer(1),
            method: "thread/read",
            params: Value::Null,
            deadline: 50,
            reply: 9,
            requester_gone: false,
        },
        Pump::Ready,
        0,
    );
    assert_eq!(owner.next_deadline(), Some(50));
    assert!(owner.sweep_pending(&Vec::new(), 49).is_empty());
    let told = owner.sweep_pending(&Vec::new(), 50);
    assert!(matches!(
        told.as_slice(),
        [(9, RpcError::Timeout { method: "thread/read" })]
    ));
    assert!(!owner.prefer_normal());
    for _ in 0..HIGH_PRIORITY_BURST {
        owner.note_command(true);
    }
    assert!(owner.prefer_normal());
    owner.note_command(false);
    assert!(!owner.prefer_normal());
}

#[test]
fn transports_end_with_a_reason() {
    let mut owner = RpcOwner::new(ConnectionEpoch::new(1), RpcProtocolPolicy::Permissive);
    assert!(matches!(
        owner.handle_transport(TransportReport::StderrLine, lane(1)),
        TransportStep::Continue
    ));
    assert!(matches!(
        owner.handle_transport(TransportReport::StdoutEof, lane(1)),
        TransportStep::Exit(TransportExit::StdoutEof)
    ));
    assert_eq!(
        final_exit(TransportExit::StdoutEof, TransportExit::StdoutEof),
        TransportExit::StdoutEof
    );
    assert!(matches!(
        map_send_error(
            TransportSendError::Closed,
            "turn/start",
            ConnectionEpoch::new(6)
        ),
        RpcError::ConnectionLost(epoch) if epoch.get() == 6
    ));
    assert_eq!(owner.fault_exit(true), TransportExit::Cancelled);
}

#[test]
fn payloads_are_bounded() {
    assert_eq!(payload_limit("abc"), MAX_OUTBOUND_VALUE_WIRE_BYTES - 259);
    assert_eq!(bounded_permits(0), 1);
    assert_eq!(bounded_permits(usize::MAX) as usize, RPC_BYTE_BUDGET);
    assert_eq!(retained_bytes("abc", 10, 20).ok(), Some(151));
    assert!(matches!(
        retained_bytes("abc", usize::MAX, 0),
        Err(RpcError::PayloadTooLarge { method: "abc" })
    ));
    let mut counter = LimitedCounter::new(5);
    assert!(counter.write(5));
    assert!(!counter.write(1));
    assert!(counter.exceeded);
    assert_eq!(request_id_kind(&RequestId::Integer(1)), "integer");
}

#[test]
fn stale_requests_are_not_answered() {
    let lease = ServerRequestLease::new();
    assert!(check_answerable(ConnectionEpoch::new(1), ConnectionEpoch::new(1), &lease).is_ok());
    assert!(matches!(
        check_answerable(ConnectionEpoch::new(1), ConnectionEpoch::new(2), &lease),
        Err(RpcError::UnknownServerRequest)
    ));
}

#[test]
fn external_traffic_is_typed_or_refused() {
    let goal = || {
        Some(RpcEvent::Notification {
            method: "thread/goal/cleared".to_owned(),
            params: Some(Value::Null),
        })
    };
    let decoded = || {
        DecodedParams::Event(ExternalReadEvent::ThreadGoalCleared {
            thread_id: "t".to_owned(),
        })
    };
    let event = recv_event(goal(), decoded()).ok().flatten().expect("an event");
    assert_eq!(event.debug_text(), "ThreadGoalCleared");
    assert!(matches!(
        recv_event(goal(), DecodedParams::Failed),
        Err(ExternalTransportError::ProtocolViolation)
    ));
    assert!(matches!(
        recv_event(
            Some(RpcEvent::Notification {
                method: "future/method".to_owned(),
                params: Some(Value::Null),
            }),
            decoded()
        ),
        Err(ExternalTransportError::ProtocolViolation)
    ));
    let request = ServerRequest::new(
        RequestId::Integer(4),
        "item/commandExecution/requestApproval".to_owned(),
        Some(Value::Null),
        ConnectionEpoch::new(2),
    );
    let approval = recv_event(
        Some(RpcEvent::ServerRequest(request)),
        DecodedParams::Approval(ApprovalParams {
            thread_id: "t".to_owned(),
            turn_id: "u".to_owned(),
            item_id: "i".to_owned(),
            details: serde_json::from_str("{\"autoResolutionMs\":9000}").expect("json"),
        }),
    )
    .ok()
    .flatten()
    .expect("an approval");
    match approval {
        ExternalReadEvent::Approval(request) => {
            assert_eq!(request.kind(), "command");
            assert_eq!(request.auto_resolution_ms(), Some(9_000));
        }
        _ => panic!("an approval is asked for"),
    }
    assert!(matches!(
        recv_event(
            Some(RpcEvent::TransportClosed(TransportExit::WebSocketClosed(WebSocketCloseReport { code: Some(1000) }))),
            DecodedParams::Failed
        ),
        Ok(Some(ExternalReadEvent::Closed(TransportExit::WebSocketClosed(WebSocketCloseReport { code: Some(1000) }))))
    ));
    assert!(matches!(recv_event(None, DecodedParams::Failed), Ok(None)));
}

#[test]
fn operations_need_their_profile() {
    assert!(require_resume(ExternalCapabilityProfile::ObserveShared).is_err());
    assert!(require_resume(ExternalCapabilityProfile::MutateShared).is_ok());
    assert!(require_mutation(ExternalCapabilityProfile::ResumeShared).is_err());
    assert!(require_mutation(ExternalCapabilityProfile::MutateShared).is_ok());
    assert!(require_queue(ExternalCapabilityProfile::MutateShared).is_err());
    assert!(require_queue(ExternalCapabilityProfile::QueueShared).is_ok());
    assert_eq!(
        map_rpc_error(&RpcError::Server {
            method: "turn/start",
            code: -1
        }),
        ExternalTransportError::ServerRejected { code: -1 }
    );
    assert_eq!(
        ExternalTransportError::ServerRejected { code: -32_600 }.to_text(),
        "external Codex read-only RPC was rejected with code -32600"
    );
}

#[test]
fn profiles_grow() {
    let profiles = [
        SharedWireProfile::ObserveShared,
        SharedWireProfile::ResumeShared,
        SharedWireProfile::MutateShared,
        SharedWireProfile::QueueShared,
    ];
    for pair in profiles.windows(2) {
        let larger = pair[1].required_methods();
        for method in pair[0].required_methods() {
            assert!(larger.contains(&method));
        }
    }
    assert!(SharedWireProfile::ObserveShared
        .required_reverse_requests()
        .is_empty());
    assert_eq!(
        SharedWireProfile::MutateShared
            .required_reverse_requests()
            .len(),
        3
    );
}

fn list(sort_key: Option<ThreadSortKey>, direction: Option<SortDirection>) -> ThreadListParams {
    ThreadListParams {
        cursor: None,
        limit: None,
        sort_key,
        sort_direction: direction,
        source_kinds: None,
        project_id: None,
        section_id: None,
        is_pinned: None,
    }
}

#[test]
fn unknown_wire_shapes_are_not_sent() {
    let sectioned = list(Some(ThreadSortKey::SectionPosition), None);
    assert!(validate_v0_146_thread_list_params(&sectioned).is_err());
    assert!(validate_v0_149_thread_list_params(&sectioned).is_ok());
    let unknown = list(None, Some(SortDirection::Unknown("sideways".to_owned())));
    assert!(validate_v0_146_thread_list_params(&unknown).is_err());
    assert!(validate_v0_149_thread_list_params(&unknown).is_err());
    assert!(validate_shared_sort_direction(
        WireAdapter::V0_149_0,
        &Some(SortDirection::Ascending),
        "thread/turns/list params"
    )
    .is_ok());
    let odd_policy = Some(ApprovalPolicy::Named("sometimes".to_owned()));
    assert!(validate_approval(&odd_policy, &None, "thread/start params").is_err());
    assert!(validate_thread_resume_params(&ThreadResumeParams {
        thread_id: "thread".to_owned(),
        approval_policy: None,
        approvals_reviewer: None,
        exclude_turns: None,
    })
    .is_ok());
    assert!(validate_thread_start_params(
        WireAdapter::V0_146_0,
        &ThreadStartParams {
            approval_policy: None,
            approvals_reviewer: None,
            project_id: Some("p".to_owned()),
            session_start_source: None,
        }
    )
    .is_err());
    assert!(validate_turn_start_params(&TurnStartParams {
        thread_id: "thread".to_owned(),
        approval_policy: None,
        approvals_reviewer: Some("somebody".to_owned()),
        effort: None,
        summary: None,
    })
    .is_err());
}

#[test]
fn consumed_notifications_have_their_kind() {
    assert_eq!(
        notification_kind("turn/completed"),
        NotificationKind::TurnCompleted
    );
    assert_eq!(notification_kind("turn/other"), NotificationKind::Other);
}

#[test]
fn a_finished_turn_keeps_its_status() {
    let mut projection = TerminalProjection::new();
    assert!(projection
        .add_turn(&turn("turn", TurnStatus::Completed))
        .is_ok());
    assert!(projection
        .add_turn(&turn("turn", TurnStatus::Completed))
        .is_ok());
    assert!(projection
        .add_turn(&turn("turn", TurnStatus::Failed))
        .is_err());
}

#[test]
fn only_items_of_finished_turns_are_folded() {
    let mut projection = TerminalProjection::new();
    projection
        .add_turn(&turn("running", TurnStatus::InProgress))
        .ok()
        .expect("within the bounds");
    projection
        .add_turn(&turn("done", TurnStatus::Interrupted))
        .ok()
        .expect("within the bounds");
    projection
        .add_listed_item("running", &item("first", 1))
        .ok()
        .expect("within the bounds");
    projection
        .add_listed_item("done", &item("second", 1))
        .ok()
        .expect("within the bounds");
    projection.fold_listed_items().ok().expect("within the bounds");
    assert_eq!(
        projection.finished_items(),
        vec![("done".to_owned(), "second".to_owned())]
    );
    assert_eq!(projection.turn_ids(), vec!["done", "running"]);
}

#[test]
fn health_is_kept() {
    let mut session = SidecarSession::new(10, 0);
    assert_eq!(
        session.run(SessionEvent::Taken {
            effect: FrameEffect::Disconnected,
            now_ms: 10
        }),
        None
    );
    assert_eq!(
        session.run(SessionEvent::Rejected),
        Some(SessionEnd::Crashed { was_healthy: true })
    );
}
