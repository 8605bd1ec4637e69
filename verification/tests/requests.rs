//! The way of requests to the owner of a connection, and what an external
//! connection offers.

use lark_codex_bridge::codex::compat::SortDirection;
use lark_codex_bridge::codex::compat::ThreadItemsListParams;
use lark_codex_bridge::codex::compat::ThreadListParams;
use lark_codex_bridge::codex::compat::ThreadReadParams;
use lark_codex_bridge::codex::compat::ThreadResumeParams;
use lark_codex_bridge::codex::compat::ThreadTurnsListParams;
use lark_codex_bridge::codex::external::ExternalAuthentication;
use lark_codex_bridge::codex::external::ExternalCapabilityProfile;
use lark_codex_bridge::codex::external::ExternalEndpointConfig;
use lark_codex_bridge::codex::external::ExternalEndpointGate;
use lark_codex_bridge::codex::external_calls::ExternalReadOnlyConnection;
use lark_codex_bridge::codex::external_transport::ApprovalKind;
use lark_codex_bridge::codex::external_transport::ExternalTransportError;
use lark_codex_bridge::codex::mutation::MutationAction;
use lark_codex_bridge::codex::owner::RpcCommand;
use lark_codex_bridge::codex::owner::TransportSendError;
use lark_codex_bridge::codex::protocol::OutboundMessage;
use lark_codex_bridge::codex::protocol::RequestId;
use lark_codex_bridge::codex::reads::ReadRequest;
use lark_codex_bridge::codex::requests::deadline_after;
use lark_codex_bridge::codex::requests::reject_queued;
use lark_codex_bridge::codex::requests::settle_handing;
use lark_codex_bridge::codex::requests::settle_lease;
use lark_codex_bridge::codex::requests::settle_reply;
use lark_codex_bridge::codex::requests::BudgetedResponse;
use lark_codex_bridge::codex::requests::Call;
use lark_codex_bridge::codex::requests::ConnectionLifecycle;
use lark_codex_bridge::codex::requests::Handing;
use lark_codex_bridge::codex::requests::Measuring;
use lark_codex_bridge::codex::requests::NamedRequest;
use lark_codex_bridge::codex::requests::OneWay;
use lark_codex_bridge::codex::requests::Payload;
use lark_codex_bridge::codex::requests::Reply;
use lark_codex_bridge::codex::requests::Room;
use lark_codex_bridge::codex::requests::TakingSlot;
use lark_codex_bridge::codex::rpc::ConnectionEpoch;
use lark_codex_bridge::codex::rpc::LeaseState;
use lark_codex_bridge::codex::rpc::RequestIds;
use lark_codex_bridge::codex::rpc::RpcError;
use lark_codex_bridge::codex::rpc::ServerRequestLease;
use lark_codex_bridge::codex::thread_reconcile::ReconcileAction;
use lark_codex_bridge::codex::types::TransportExit;
use lark_codex_bridge::limits::CONTROL_RPC_TIMEOUT_MS;
use lark_codex_bridge::limits::EXTERNAL_RECONCILE_PAGE_SIZE;
use lark_codex_bridge::limits::MAX_JSONL_LINE_BYTES;

fn call() -> Call {
    Call {
        method: "thread/list",
        high: false,
        deadline: 100,
        epoch: ConnectionEpoch::new(3),
    }
}

fn lost() -> RpcError {
    RpcError::ConnectionLost(ConnectionEpoch::new(3))
}

fn late() -> RpcError {
    RpcError::Timeout {
        method: "thread/list",
    }
}

fn payload() -> Payload {
    TakingSlot::request(call(), true)
        .and_then(|request| request.taken(Room::Granted))
        .and_then(|request| request.measured(true, Ok(4)))
        .and_then(|request| {
            request.taken(Room::Granted, Some((serde_json::Value::Bool(true), 40)), 99)
        })
        .unwrap_or_else(|error| panic!("{}", error.to_text()))
}

fn named() -> NamedRequest {
    let mut ids = RequestIds {
        epoch: ConnectionEpoch::new(3),
        next: 5,
    };
    payload()
        .into_request(&mut ids)
        .unwrap_or_else(|error| panic!("{}", error.to_text()))
}

#[test]
fn a_request_reaches_its_owner_step_by_step() {
    assert!(payload().kept_permits() == 40 + 11 + 128);
    let (command, waiting) = named()
        .command(true, 8)
        .unwrap_or_else(|error| panic!("{}", error.to_text()));
    match command {
        RpcCommand::Request {
            id,
            method,
            deadline,
            reply,
            ..
        } => {
            assert!(id == RequestId::String("c:3:5".to_owned()));
            assert!(method == "thread/list");
            assert!((deadline, reply) == (100, 8));
        }
        RpcCommand::Fire { .. } => panic!("a request is answered"),
    }
    let waiting = waiting
        .queued(Room::Granted)
        .unwrap_or_else(|error| panic!("{}", error.to_text()));
    let (result, withdrawn) = waiting.answered(Reply::Said(Ok(serde_json::Value::Null)));
    assert!(result == Ok(serde_json::Value::Null));
    assert!(withdrawn == None);
}

#[test]
fn a_request_is_refused_where_a_step_fails() {
    assert!(TakingSlot::request(call(), false).err() == Some(lost()));
    let request = || TakingSlot::request(call(), true).unwrap_or_else(|_| panic!("it is open"));
    assert!(request().taken(Room::Late).err() == Some(late()));
    assert!(request().taken(Room::Lost).err() == Some(lost()));
    assert!(request().taken(Room::Closed).err() == Some(lost()));
    let large = RpcError::PayloadTooLarge {
        method: "thread/list",
    };
    assert!(Measuring::one_way(call()).measured(true, Err(large)).err() == Some(large));
    assert!(Measuring::one_way(call()).measured(false, Err(large)).err() == Some(lost()));
    let waiting = || {
        Measuring::one_way(call())
            .measured(true, Ok(4))
            .unwrap_or_else(|_| panic!("it is open"))
    };
    assert!(waiting().permits() as usize == MAX_JSONL_LINE_BYTES);
    assert!(waiting().taken(Room::Granted, None, 0).err() == Some(RpcError::Serialize {
        method: "thread/list",
    }));
    let value = || serde_json::Value::Bool(true);
    assert!(waiting().taken(Room::Granted, Some((value(), 40)), 100).err() == Some(late()));
    assert!(waiting()
            .taken(Room::Granted, Some((value(), MAX_JSONL_LINE_BYTES)), 0)
            .err() == Some(large));
    let mut spent = RequestIds {
        epoch: ConnectionEpoch::new(3),
        next: u64::MAX,
    };
    assert!(payload().into_request(&mut spent).err() == Some(RpcError::RequestIdExhausted));
    assert!(named().command(false, 8).err() == Some(lost()));
}

#[test]
fn a_request_that_is_left_behind_is_withdrawn() {
    let waiting = || match named().command(true, 8) {
        Ok((_, waiting)) => waiting,
        Err(error) => panic!("{}", error.to_text()),
    };
    let id = Some(RequestId::String("c:3:5".to_owned()));
    assert!(waiting().answered(Reply::Late) == (Err(late()), id.clone()));
    assert!(waiting().answered(Reply::Lost) == (Err(lost()), id));
    assert!(waiting().answered(Reply::Dropped) == (Err(lost()), None));
    assert!(settle_reply::<u8>(Reply::Said(Ok(1)), call()) == Ok(1));
}

#[test]
fn an_answer_is_handed_over_before_it_is_queued() {
    let id = RequestId::Integer(7);
    let mut lease = ServerRequestLease::new();
    assert!(payload().into_response(&id).command(false, &mut lease, 1).err() == Some(lost()));
    assert!(lease.is_armed());
    let command = payload().into_response(&id).command(true, &mut lease, 1);
    assert!(lease.state == LeaseState::ActorOwned);
    match command {
        Ok(RpcCommand::Fire {
            message, answers, ..
        }) => {
            assert!(answers == Some(RequestId::Integer(7)));
            assert!(
                message
                    == OutboundMessage::Response {
                        id: RequestId::Integer(7),
                        result: serde_json::Value::Bool(true)
                    }
            );
        }
        _ => panic!("an answer is sent one way"),
    }
    let mut other = lease;
    assert!(!settle_lease(&mut lease, true));
    assert!(settle_lease(&mut other, false));
    assert!(!settle_lease(&mut other, false));
    let mut untouched = ServerRequestLease::new();
    let notice = payload().into_notification().command(true, &mut untouched, 1);
    assert!(notice.is_ok());
    assert!(untouched.is_armed());
}

#[test]
fn one_way_messages_take_their_share() {
    let (_, permits) = OneWay::bare_notification(Call {
        method: "initialized",
        ..call()
    });
    assert!(permits == 43);
    let id = RequestId::Integer(7);
    match OneWay::refusal(call(), &id, -32601, "unsupported", Ok(13)) {
        Ok((_, permits)) => assert!(permits == 141),
        Err(error) => panic!("{}", error.to_text()),
    }
    assert!(OneWay::refusal(call(), &id, 1, "x", Ok(MAX_JSONL_LINE_BYTES)).err() == Some(RpcError::PayloadTooLarge {
            method: "thread/list"
        }));
}

#[test]
fn a_message_is_handed_to_the_transport() {
    assert!(settle_handing(Handing::Sent, call()) == Ok(()));
    assert!(settle_handing(Handing::Late, call()) == Err(late()));
    assert!(settle_handing(Handing::Lost, call()) == Err(lost()));
    assert!(settle_handing(Handing::Failed(TransportSendError::Io), call()) == Err(lost()));
    assert!(settle_handing(Handing::Failed(TransportSendError::Protocol), call()) == Err(RpcError::PayloadTooLarge {
            method: "thread/list"
        }));
}

#[test]
fn what_is_left_when_a_connection_ends() {
    let commands = match named().command(true, 8) {
        Ok((command, _)) => vec![command],
        Err(error) => panic!("{}", error.to_text()),
    };
    assert!(reject_queued(&commands, ConnectionEpoch::new(3)) == vec![(8, lost())]);
    let mut lifecycle = ConnectionLifecycle::new();
    assert!(lifecycle.ended() == None);
    assert!(lifecycle.joined(None) == TransportExit::TaskFailed);
    assert!(lifecycle.abort() == (false, TransportExit::TaskFailed));
    let mut aborted = ConnectionLifecycle::new();
    assert!(aborted.abort() == (true, TransportExit::Aborted));
    assert!(aborted.ended() == Some(TransportExit::Aborted));
    assert!(deadline_after(5, 10) == 15);
    assert!(deadline_after(5, u64::MAX) == 5);
}

#[test]
fn a_response_keeps_its_share_of_the_budget() {
    let response = || BudgetedResponse {
        value: 4_u8,
        transport_budget: 9,
    };
    assert!(response().into_inner() == 4);
    assert!(response().into_parts() == (4, 9));
    match response().try_map(|value: u8| -> Result<u16, ()> { Ok(u16::from(value) + 1) }) {
        Ok(mapped) => assert!(mapped.into_parts() == (5, 9)),
        Err(()) => panic!("the mapping succeeds"),
    }
    assert!(response()
        .try_map(|_: u8| -> Result<u16, &'static str> { Err("no") })
        .is_err());
}

fn connection(profile: ExternalCapabilityProfile) -> ExternalReadOnlyConnection {
    let gate = ExternalEndpointGate::new(ExternalEndpointConfig {
        endpoint: "ws://127.0.0.1:1234/app-server".to_owned(),
        expected_codex_version: "0.149.0".to_owned(),
        capability_profile: profile,
        authentication: ExternalAuthentication::BearerTokenFile {
            path: "/run/secrets/token".to_owned(),
        },
    })
    .ok()
    .expect("valid settings");
    ExternalReadOnlyConnection::admitted(&gate, ConnectionEpoch::new(3))
}

fn list() -> ThreadListParams {
    ThreadListParams {
        cursor: None,
        limit: None,
        sort_key: None,
        sort_direction: None,
        source_kinds: None,
        project_id: None,
        section_id: None,
        is_pinned: None,
    }
}

fn resume(reviewer: Option<&str>) -> ThreadResumeParams {
    ThreadResumeParams {
        thread_id: "thread".to_owned(),
        approval_policy: None,
        approvals_reviewer: reviewer.map(str::to_owned),
        exclude_turns: None,
    }
}

fn read() -> ThreadReadParams {
    ThreadReadParams {
        thread_id: "thread".to_owned(),
        include_turns: None,
    }
}

fn turns(direction: Option<SortDirection>) -> ThreadTurnsListParams {
    ThreadTurnsListParams {
        thread_id: "thread".to_owned(),
        cursor: None,
        limit: None,
        sort_direction: direction,
    }
}

fn items() -> ThreadItemsListParams {
    ThreadItemsListParams {
        thread_id: "thread".to_owned(),
        turn_id: None,
        cursor: None,
        limit: None,
        sort_direction: None,
    }
}

#[test]
fn a_profile_offers_only_its_operations() {
    let unsupported = Some(ExternalTransportError::UnsupportedProfile);
    let violated = Some(ExternalTransportError::ProtocolViolation);
    let observing = connection(ExternalCapabilityProfile::ObserveShared);
    match observing.client().list_threads(&list(), true) {
        Ok(call) => {
            assert_eq!(call.method(), "thread/list");
            assert_eq!(call.timeout_ms(), CONTROL_RPC_TIMEOUT_MS);
            assert!(!call.is_high());
        }
        Err(error) => panic!("{}", error.to_text()),
    }
    let pinned = ThreadListParams {
        is_pinned: Some(true),
        ..list()
    };
    assert_eq!(observing.client().list_threads(&pinned, true).err(), violated);
    assert_eq!(
        observing.client().resume_thread(&resume(None), true).err(),
        unsupported
    );
    assert_eq!(observing.client().read_thread(&read(), false).err(), unsupported);
    assert_eq!(observing.mutation_client().err(), unsupported);
    let resuming = connection(ExternalCapabilityProfile::ResumeShared);
    assert!(resuming.client().resume_thread(&resume(Some("user")), true).is_ok());
    assert_eq!(
        resuming.client().resume_thread(&resume(Some("nobody")), true).err(),
        violated
    );
    assert_eq!(
        resuming.client().list_thread_items(&items(), false).err(),
        violated
    );
    let sideways = turns(Some(SortDirection::Unknown("sideways".to_owned())));
    assert_eq!(
        resuming.client().list_thread_turns(&sideways, true).err(),
        violated
    );
    match resuming
        .client()
        .list_thread_turns_with_timeout(&turns(None), true, 9)
    {
        Ok(call) => {
            assert_eq!(call.method(), "thread/turns/list");
            assert_eq!(call.timeout_ms(), 9);
            assert_eq!(
                call.answered::<u8>(Err(lost())),
                Err(ExternalTransportError::ConnectionLost)
            );
        }
        Err(error) => panic!("{}", error.to_text()),
    }
    assert_eq!(resuming.mutation_client().err(), unsupported);
    let writing = connection(ExternalCapabilityProfile::MutateShared)
        .mutation_client()
        .unwrap_or_else(|error| panic!("{}", error.to_text()));
    match writing.interrupt_turn(true, 9) {
        Ok(call) => {
            assert_eq!(call.method(), "turn/interrupt");
            assert!(call.is_high());
            assert_eq!(
                call.answered::<u8>(Ok(None)),
                Err(ExternalTransportError::ProtocolViolation)
            );
        }
        Err(error) => panic!("{}", error.to_text()),
    }
    assert_eq!(writing.add_to_queue(true, 9).err(), unsupported);
    let queueing = connection(ExternalCapabilityProfile::QueueShared)
        .mutation_client()
        .unwrap_or_else(|error| panic!("{}", error.to_text()));
    assert!(queueing.start_queued(true, 9).is_ok());
}

#[test]
fn external_clients_are_shown_by_their_label() {
    let resuming = connection(ExternalCapabilityProfile::ResumeShared);
    let label = resuming.report().endpoint_label.debug_text().to_owned();
    assert!(label.starts_with("ext-"));
    let shown = format!(
        "{{ endpoint_label: {label}, codex_version: Version {{ major: 0, minor: 149, patch: 0 }}, capability_profile: ResumeShared, epoch: ConnectionEpoch(3), .. }}"
    );
    assert_eq!(
        resuming.debug_text(),
        format!("ExternalReadOnlyConnection {shown}")
    );
    assert_eq!(
        resuming.client().debug_text(),
        format!("ExternalReadOnlyClient {shown}")
    );
    assert_eq!(
        resuming.report().debug_text(),
        format!(
            "ExternalGateReport {{ endpoint_label: {label}, codex_version: Version {{ major: 0, minor: 149, patch: 0 }}, capability_profile: ResumeShared }}"
        )
    );
}

#[test]
fn reads_are_asked_in_pages() {
    match (ReconcileAction::ListTurns {
        cursor: Some("next".to_owned()),
    })
    .read_request("thread")
    {
        Some(ReadRequest::Turns(params)) => {
            assert_eq!(params.thread_id, "thread");
            assert_eq!(params.cursor, Some("next".to_owned()));
            assert_eq!(params.limit, Some(EXTERNAL_RECONCILE_PAGE_SIZE));
            assert_eq!(params.sort_direction, Some(SortDirection::Ascending));
        }
        _ => panic!("turns are listed"),
    }
    match ReconcileAction::Resume.read_request("thread") {
        Some(ReadRequest::Resume(params)) => assert_eq!(params.exclude_turns, Some(true)),
        _ => panic!("the thread is resumed"),
    }
    match ReconcileAction::Read.read_request("thread") {
        Some(ReadRequest::Read(params)) => assert_eq!(params.include_turns, Some(false)),
        _ => panic!("the thread is read"),
    }
    match (MutationAction::ListTurns { limit: 2 }).read_request("thread") {
        Some(ReadRequest::Turns(params)) => {
            assert_eq!(params.limit, Some(2));
            assert_eq!(params.sort_direction, Some(SortDirection::Descending));
        }
        _ => panic!("turns are listed"),
    }
    assert!(MutationAction::Send.read_request("thread").is_none());
}

#[test]
fn approvals_are_answered_by_their_kind_over_their_connection() {
    let client = connection(ExternalCapabilityProfile::MutateShared)
        .mutation_client()
        .unwrap_or_else(|error| panic!("{}", error.to_text()));
    let own = ConnectionEpoch::new(3);
    let mut lease = ServerRequestLease::new();
    assert!(client.respond_command_approval(ApprovalKind::Command, true, own, &lease) == Ok(()));
    assert!(client.respond_file_change_approval(ApprovalKind::Command, true, own, &lease) == Err(ExternalTransportError::ProtocolViolation));
    assert!(client.respond_permissions_approval(
            ApprovalKind::Permissions,
            true,
            ConnectionEpoch::new(2),
            &lease
        ) == Err(ExternalTransportError::Rpc));
    assert!(client.abandon_approval(own, &mut lease) == Ok(()));
    assert!(client.abandon_approval(own, &mut lease) == Err(ExternalTransportError::Rpc));
}
