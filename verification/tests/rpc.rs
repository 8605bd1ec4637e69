use lark_codex_bridge::codex::calls::EnsuringThread;
use lark_codex_bridge::codex::calls::EnsuringTurn;
use lark_codex_bridge::codex::calls::RequestingThread;
use lark_codex_bridge::codex::compat::ThreadResumeParams;
use lark_codex_bridge::codex::compat::ThreadStartParams;
use lark_codex_bridge::codex::compat::TurnStartParams;
use lark_codex_bridge::codex::client::ThreadId;
use lark_codex_bridge::codex::client::TurnId;
use lark_codex_bridge::codex::compat::SharedWireProfile;
use lark_codex_bridge::codex::compat::WireAdapter;
use lark_codex_bridge::codex::external_transport::connection_policy;
use lark_codex_bridge::codex::external::ExternalCapabilityProfile;
use lark_codex_bridge::codex::operations::check_dynamic_tool_call;
use lark_codex_bridge::codex::operations::check_interrupt;
use lark_codex_bridge::codex::operations::thread_adoption_contract;
use lark_codex_bridge::codex::operations::ClientError;
use lark_codex_bridge::codex::operations::GuardFate;
use lark_codex_bridge::codex::operations::Handshake;
use lark_codex_bridge::codex::operations::HandshakeOutcome;
use lark_codex_bridge::codex::operations::RouterAnswer;
use lark_codex_bridge::codex::operations::Thread;
use lark_codex_bridge::codex::owner::DispatchStep;
use lark_codex_bridge::codex::owner::InboundFacts;
use lark_codex_bridge::codex::owner::InboundStep;
use lark_codex_bridge::codex::owner::Lane;
use lark_codex_bridge::codex::owner::Pump;
use lark_codex_bridge::codex::owner::RpcCommand;
use lark_codex_bridge::codex::owner::RpcOwner;
use lark_codex_bridge::codex::owner::TransportReport;
use lark_codex_bridge::codex::owner::TransportStep;
use lark_codex_bridge::codex::protocol::InboundMessage;
use lark_codex_bridge::codex::protocol::RequestId;
use lark_codex_bridge::codex::rpc::ConnectionEpoch;
use lark_codex_bridge::codex::rpc::RequestIds;
use lark_codex_bridge::codex::rpc::RpcError;
use lark_codex_bridge::codex::rpc::RpcEvent;
use lark_codex_bridge::codex::rpc::RpcEventReceiver;
use lark_codex_bridge::codex::rpc::RpcProtocolPolicy;
use lark_codex_bridge::codex::rpc::ServerRequest;
use lark_codex_bridge::codex::rpc::ServerRequestLease;
use lark_codex_bridge::codex::router::ControlEvent;
use lark_codex_bridge::codex::shown::RequestHold;
use lark_codex_bridge::codex::types::IoErrorKind;
use lark_codex_bridge::codex::types::TransportExit;
use lark_codex_bridge::codex::types::WebSocketCloseReport;
use lark_codex_bridge::version::Version;
use serde_json::Value;

fn facts() -> InboundFacts {
    InboundFacts {
        id_bytes: 1,
        params_bytes: 2,
        lane: Lane {
            permits: 1_000_000,
            slots: 10,
            closed: false,
        },
        granted: true,
    }
}

fn request(reply: u64) -> RpcCommand {
    RpcCommand::Request {
        id: RequestId::String(format!("id-{reply}")),
        method: "thread/list",
        params: Value::Null,
        deadline: 1_000,
        reply,
        requester_gone: false,
    }
}

#[test]
fn requests_have_names_of_their_own() {
    let mut ids = RequestIds {
        epoch: ConnectionEpoch::new(3),
        next: 0,
    };
    let first = ids.next_request_id().ok().expect("a name");
    let second = ids.next_request_id().ok().expect("a name");
    assert!(!first.same(&second));
    ids.next = u64::MAX;
    assert!(matches!(
        ids.next_request_id(),
        Err(RpcError::RequestIdExhausted)
    ));
}

#[test]
fn a_request_is_answered_once() {
    let mut owner = RpcOwner::new(ConnectionEpoch::new(1), RpcProtocolPolicy::Permissive);
    assert!(matches!(
        owner.dispatch_command(request(5), Pump::Ready, 0),
        DispatchStep::Send { .. }
    ));
    assert_eq!(owner.pending_count(), 1);
    let answer = InboundMessage::Response {
        id: RequestId::String("id-5".to_owned()),
        result: Value::Bool(true),
    };
    assert!(matches!(
        owner.handle_inbound(answer, facts()),
        InboundStep::Reply {
            reply: 5,
            outcome: Ok(Value::Bool(true))
        }
    ));
    assert_eq!(owner.pending_count(), 0);
    assert!(owner.fail_all_pending().is_empty());
}

#[test]
fn pending_requests_fail_with_the_connection() {
    let mut owner = RpcOwner::new(ConnectionEpoch::new(9), RpcProtocolPolicy::Permissive);
    owner.dispatch_command(request(1), Pump::Ready, 0);
    owner.dispatch_command(request(2), Pump::Ready, 0);
    let told = owner.fail_all_pending();
    assert_eq!(told.len(), 2);
    assert!(told
        .iter()
        .all(|(_, error)| matches!(error, RpcError::ConnectionLost(epoch) if epoch.get() == 9)));
}

#[test]
fn external_connections_fail_closed() {
    let mut owner = RpcOwner::new(
        ConnectionEpoch::new(1),
        RpcProtocolPolicy::FailClosedExternalObserve,
    );
    let step = owner.handle_inbound(
        InboundMessage::Notification {
            method: "turn/started".to_owned(),
            params: Some(Value::Null),
        },
        facts(),
    );
    assert!(matches!(step, InboundStep::Fault));
}

#[test]
fn spawned_connections_report_drift() {
    let mut owner = RpcOwner::new(ConnectionEpoch::new(1), RpcProtocolPolicy::Permissive);
    let step = owner.handle_inbound(
        InboundMessage::Response {
            id: RequestId::Integer(77),
            result: Value::Null,
        },
        facts(),
    );
    assert!(matches!(
        step,
        InboundStep::Emit {
            event: RpcEvent::ProtocolDrift,
            ..
        }
    ));
    assert_eq!(owner.protocol_drift_count(), 1);
}

#[test]
fn events_come_out_in_order() {
    let mut receiver = RpcEventReceiver::new();
    receiver.buffer(1, RpcEvent::ProtocolDrift);
    assert!(receiver.next_in_order().is_none());
    receiver.buffer(
        0,
        RpcEvent::Notification {
            method: "m".to_owned(),
            params: None,
        },
    );
    assert!(matches!(
        receiver.next_in_order(),
        Some(RpcEvent::Notification { .. })
    ));
    assert!(matches!(
        receiver.next_in_order(),
        Some(RpcEvent::ProtocolDrift)
    ));
    assert!(receiver.next_in_order().is_none());
}

#[test]
fn an_unanswered_request_ends_the_connection_once() {
    let mut lease = ServerRequestLease::new();
    assert!(lease.is_armed());
    assert!(lease.abandon_if_armed());
    assert!(!lease.abandon_if_armed());
    let mut handed = ServerRequestLease::new();
    handed.handoff_to_actor();
    handed.resolve_actor_owned();
    assert!(!handed.fail_actor_owned());
}

#[test]
fn policies_grow_with_their_profiles() {
    let resume = connection_policy(ExternalCapabilityProfile::ResumeShared);
    assert!(resume.is_fail_closed_external());
    assert!(resume.allows_notification("turn/completed"));
    assert!(resume.allows_notification("item/completed"));
    assert!(resume.allows_notification("thread/status/changed"));
    for method in ["remoteControl/status/changed", "thread/goal/cleared", "turn/started"] {
        assert!(!resume.allows_notification(method));
        assert!(RpcProtocolPolicy::FailClosedExternalMutate.allows_notification(method));
    }
    assert!(!resume.allows_server_request("item/commandExecution/requestApproval"));
    let queue = connection_policy(ExternalCapabilityProfile::QueueShared);
    assert!(queue.allows_server_request("item/commandExecution/requestApproval"));
    for method in SharedWireProfile::QueueShared.required_notifications() {
        assert!(queue.allows_notification(method));
    }
}

#[test]
fn only_exact_versions_have_a_wire() {
    assert_eq!(
        WireAdapter::for_version(&Version::new(0, 146, 0)),
        Some(WireAdapter::V0_146_0)
    );
    assert_eq!(
        WireAdapter::for_version(&Version::new(0, 149, 0)),
        Some(WireAdapter::V0_149_0)
    );
    assert_eq!(WireAdapter::for_version(&Version::new(0, 148, 0)), None);
    assert_eq!(WireAdapter::V0_149_0.codex_version(), "0.149.0");
    assert!(thread_adoption_contract(WireAdapter::V0_149_0).is_some());
    assert!(thread_adoption_contract(WireAdapter::V0_146_0).is_none());
}

#[test]
fn a_connection_is_initialized_once() {
    let mut handshake = Handshake::new();
    assert!(handshake.begin().is_ok());
    assert!(handshake.finish(HandshakeOutcome::Confirmed).is_ok());
    assert!(matches!(
        handshake.begin(),
        Err(RpcError::AlreadyInitialized)
    ));
}

#[test]
fn errors_never_show_server_texts() {
    let error = RpcError::Server {
        method: "turn/start",
        code: -32600,
    };
    let text = error.to_text();
    assert!(text.contains("-32600"));
    assert!(text.contains("turn/start"));
}

#[test]
fn started_threads_are_tracked_before_they_are_returned() {
    let epoch = ConnectionEpoch::new(4);
    let params = ThreadStartParams {
        approval_policy: None,
        approvals_reviewer: None,
        project_id: Some("project".to_owned()),
        session_start_source: None,
    };
    assert!(matches!(
        RequestingThread::start_thread(WireAdapter::V0_146_0, &params, true),
        Err(ClientError::Rpc(RpcError::Serialize {
            method: "thread/start"
        }))
    ));
    assert!(RequestingThread::start_thread(WireAdapter::V0_149_0, &params, false).is_err());
    let call = RequestingThread::start_thread(WireAdapter::V0_149_0, &params, true)
        .ok()
        .expect("encoded");
    let observing = call
        .answered(Ok(Some(Thread {
            id: "thread-1".to_owned(),
            body: Value::Null,
        })))
        .ok()
        .expect("a thread");
    assert_eq!(observing.tracked_id(), Some("thread-1"));
    let (result, fate) = observing.observed(RouterAnswer::TimedOut);
    assert!(matches!(
        result,
        Err(ClientError::ConfirmedThreadUntracked {
            method: "thread/start",
            ..
        })
    ));
    assert_eq!(fate, GuardFate::FailClosed);

    let ensuring = |reviewer: Option<&str>| {
        EnsuringThread::resume_thread(
            ThreadResumeParams {
                thread_id: "thread-1".to_owned(),
                approval_policy: None,
                approvals_reviewer: reviewer.map(str::to_owned),
                exclude_turns: None,
            },
            epoch,
        )
        .ok()
        .expect("addressable")
    };
    assert!(matches!(
        ensuring(None).ensured(RouterAnswer::Closed, true),
        Err(ClientError::RouterClosed(held)) if held.get() == 4
    ));
    assert!(ensuring(Some("user")).ensured(RouterAnswer::Accepted, true).is_ok());
    assert!(matches!(
        ensuring(Some("nobody")).ensured(RouterAnswer::Accepted, true),
        Err(ClientError::Rpc(RpcError::Serialize {
            method: "thread/resume"
        }))
    ));
}

#[test]
fn turns_fail_closed_unless_their_outcome_is_known() {
    let epoch = ConnectionEpoch::new(4);
    let params = |thread_id: &str, summary: Option<&str>| TurnStartParams {
        thread_id: thread_id.to_owned(),
        approval_policy: None,
        approvals_reviewer: None,
        effort: None,
        summary: summary.map(str::to_owned),
    };
    let requesting = EnsuringTurn::start_turn(&params("thread-1", Some("auto")), true, epoch)
        .ok()
        .expect("encoded")
        .ensured(RouterAnswer::Accepted)
        .ok()
        .expect("a route")
        .begun(RouterAnswer::Accepted)
        .ok()
        .expect("an announced turn");
    let Err((error, fate)) = requesting.answered(Err(RpcError::Timeout {
        method: "turn/start",
    })) else {
        panic!("a timeout is no success");
    };
    assert!(matches!(error, ClientError::Rpc(RpcError::Timeout { .. })));
    assert_eq!(fate, GuardFate::FailClosed);
    assert!(!error.turn_start_definitely_not_applied());

    assert!(matches!(
        EnsuringTurn::start_turn(&params("thread-1", None), false, epoch),
        Err(ClientError::Rpc(RpcError::Serialize {
            method: "turn/start"
        }))
    ));
    assert!(matches!(
        EnsuringTurn::start_turn(&params("thread-1", Some("verbose")), true, epoch),
        Err(ClientError::Rpc(RpcError::Serialize {
            method: "turn/start"
        }))
    ));
    assert!(matches!(
        EnsuringTurn::start_turn(&params("", None), true, epoch),
        Err(ClientError::Capacity)
    ));
}

#[test]
fn identifiers_are_checked_before_anything_is_sent() {
    let thread = ThreadId::new("t".to_owned());
    assert!(check_interrupt(&thread, &TurnId::new("u".to_owned())).is_ok());
    assert!(check_interrupt(&thread, &TurnId::new(String::new())).is_err());
    assert!(check_dynamic_tool_call("item/tool/call").is_ok());
    assert!(check_dynamic_tool_call("item/other").is_err());
}

#[test]
fn a_request_under_a_pending_identifier_takes_its_place() {
    let mut owner = RpcOwner::new(ConnectionEpoch::new(1), RpcProtocolPolicy::Permissive);
    owner.dispatch_command(request(5), Pump::Ready, 0);
    let again = match request(5) {
        RpcCommand::Request {
            id,
            method,
            params,
            deadline,
            ..
        } => RpcCommand::Request {
            id,
            method,
            params,
            deadline,
            reply: 6,
            requester_gone: false,
        },
        RpcCommand::Fire { .. } => panic!("a request is answered"),
    };
    assert!(matches!(
        owner.dispatch_command(again, Pump::Ready, 0),
        DispatchStep::Fault { told: None }
    ));
    let told = owner.fail_all_pending();
    assert!(matches!(told.as_slice(), [(6, RpcError::ConnectionLost(_))]));
}

#[test]
fn the_end_of_a_transport_says_why() {
    let mut owner = RpcOwner::new(ConnectionEpoch::new(1), RpcProtocolPolicy::Permissive);
    let lane = facts().lane;
    assert!(matches!(
        owner.handle_transport(TransportReport::ReadError(IoErrorKind::BrokenPipe), lane),
        TransportStep::Exit(TransportExit::ReadError(IoErrorKind::BrokenPipe))
    ));
    let closed = WebSocketCloseReport { code: Some(1011) };
    assert!(matches!(
        owner.handle_transport(TransportReport::WebSocketClosed(closed), lane),
        TransportStep::Exit(TransportExit::WebSocketClosed(WebSocketCloseReport {
            code: Some(1011)
        }))
    ));
}

#[test]
fn traffic_is_shown_without_content() {
    let hold = RequestHold {
        retention: false,
        transport_retention: true,
        armed: true,
    };
    let asked = ServerRequest::new(
        RequestId::String("secret".to_owned()),
        "item/tool/call".to_owned(),
        Some(Value::Bool(true)),
        ConnectionEpoch::new(3),
    );
    let shown = "ServerRequest { id_kind: \"string\", method: \"item/tool/call\", has_params: true, has_retention: false, has_transport_retention: true, armed: true, epoch: ConnectionEpoch(3), .. }";
    assert_eq!(asked.debug_text(hold), shown);
    assert_eq!(
        RpcEvent::ServerRequest(asked).debug_text(hold),
        format!("ServerRequest({shown})")
    );
    assert_eq!(
        RpcEvent::TransportClosed(TransportExit::WriteError(IoErrorKind::BrokenPipe))
            .debug_text(hold),
        "TransportClosed(WriteError(BrokenPipe))"
    );
    assert_eq!(
        ControlEvent::InvalidNotification {
            method: "error".to_owned(),
            authoritative: true
        }
        .debug_text(""),
        "InvalidNotification { method: \"error\", authoritative: true }"
    );
    assert_eq!(
        ControlEvent::ServerRequest {
            token: 1,
            method: "m".to_owned()
        }
        .debug_text(shown),
        format!("ServerRequest({shown})")
    );
    assert_eq!(
        RpcError::Timeout { method: "m" }.debug_text(),
        "RPC m timed out"
    );
    assert_eq!(format!("{:?}", ConnectionEpoch::new(3)), "ConnectionEpoch(3)");
    assert_eq!(
        format!("{:?}", ThreadId::new("t".to_owned())),
        "ThreadId(\"t\")"
    );
}
