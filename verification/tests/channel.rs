use lark_codex_bridge::channel::native::channel_error;
use lark_codex_bridge::channel::native::conversation_mode;
use lark_codex_bridge::channel::native::delivery_error;
use lark_codex_bridge::channel::native::finish_delivery;
use lark_codex_bridge::channel::native::outbound_call;
use lark_codex_bridge::channel::native::shared;
use lark_codex_bridge::channel::native::ChatMode;
use lark_codex_bridge::channel::native::CodeFacts;
use lark_codex_bridge::channel::native::LarkError;
use lark_codex_bridge::channel::native::NativeInboundSource;
use lark_codex_bridge::channel::native::OutboundCall;
use lark_codex_bridge::channel::native::ProviderAnswer;
use lark_codex_bridge::channel::session::judge_hello;
use lark_codex_bridge::channel::session::judge_shutdown_line;
use lark_codex_bridge::channel::session::wait_until_connected;
use lark_codex_bridge::channel::session::ConnectEvent;
use lark_codex_bridge::channel::session::EventPump;
use lark_codex_bridge::channel::session::LineRead;
use lark_codex_bridge::channel::session::NodeSidecar;
use lark_codex_bridge::channel::session::SessionEnd;
use lark_codex_bridge::channel::session::SessionEvent;
use lark_codex_bridge::channel::session::ShutdownLine;
use lark_codex_bridge::channel::session::SidecarSession;
use lark_codex_bridge::channel::session::StderrCounter;
use lark_codex_bridge::channel::session::StderrNote;
use lark_codex_bridge::channel::session::SupervisorAction;
use lark_codex_bridge::channel::session::SupervisorEvent;
use lark_codex_bridge::channel::sidecar::configure_value;
use lark_codex_bridge::channel::sidecar::encode_frame;
use lark_codex_bridge::channel::sidecar::handle_line;
use lark_codex_bridge::channel::sidecar::new_id;
use lark_codex_bridge::channel::sidecar::process_event;
use lark_codex_bridge::channel::sidecar::settle_offer;
use lark_codex_bridge::channel::sidecar::valid_id;
use lark_codex_bridge::channel::sidecar::ActiveEventIds;
use lark_codex_bridge::channel::sidecar::BaseFrame;
use lark_codex_bridge::channel::sidecar::DecodedBody;
use lark_codex_bridge::channel::sidecar::DecodedLine;
use lark_codex_bridge::channel::sidecar::ErrorFrame;
use lark_codex_bridge::channel::sidecar::EventFrame;
use lark_codex_bridge::channel::sidecar::FrameEffect;
use lark_codex_bridge::channel::sidecar::HandlerOutcome;
use lark_codex_bridge::channel::sidecar::HelloFrame;
use lark_codex_bridge::channel::sidecar::LineAction;
use lark_codex_bridge::channel::sidecar::NodeSidecarConfig;
use lark_codex_bridge::channel::sidecar::OfferOutcome;
use lark_codex_bridge::channel::sidecar::ResponseFrame;
use lark_codex_bridge::channel::sidecar::SidecarCredentials;
use lark_codex_bridge::channel::sidecar::StateFrame;
use lark_codex_bridge::channel::wire::PROTOCOL;
use lark_codex_bridge::channel::wire::REQUIRED_CAPABILITIES;
use lark_codex_bridge::channel::wire::VERSION;
use lark_codex_bridge::channel::ChannelError;
use lark_codex_bridge::channel::ChannelErrorKind;
use lark_codex_bridge::channel::ConnectionState;
use lark_codex_bridge::channel::ConversationMode;
use lark_codex_bridge::channel::DeliveryError;
use lark_codex_bridge::channel::DeliveryFailureClass;
use lark_codex_bridge::channel::DeliveryReceipt;
use lark_codex_bridge::channel::MediaKind;
use lark_codex_bridge::channel::MediaRequest;
use lark_codex_bridge::channel::MessageSnapshot;
use lark_codex_bridge::channel::OutboundRequest;
use lark_codex_bridge::limits::MAX_STDERR_LINE_BYTES;
use serde_json::Value;

fn base(kind: &str) -> Option<BaseFrame> {
    Some(BaseFrame {
        v: VERSION,
        kind: kind.to_owned(),
        id: "id-1".to_owned(),
    })
}

fn event_line(id: &str, payload: Value) -> DecodedLine {
    DecodedLine {
        base: base("event"),
        body: DecodedBody::Event(EventFrame {
            v: VERSION,
            kind: "event".to_owned(),
            id: id.to_owned(),
            payload,
        }),
    }
}

fn state_line(state: &str) -> DecodedLine {
    DecodedLine {
        base: base("state"),
        body: DecodedBody::State(StateFrame {
            v: VERSION,
            kind: "state".to_owned(),
            id: "id-1".to_owned(),
            state: state.to_owned(),
            attempt: Some(0),
            delay_ms: Some(9),
        }),
    }
}

fn hello() -> HelloFrame {
    HelloFrame {
        v: VERSION,
        kind: "hello".to_owned(),
        id: "hello-1".to_owned(),
        protocol: PROTOCOL.to_owned(),
        capabilities: REQUIRED_CAPABILITIES.iter().map(ToString::to_string).collect(),
        max_frame_bytes: 1_000,
    }
}

#[test]
fn failures_are_reported_without_content() {
    let error = ChannelError::new(ChannelErrorKind::Protocol, "querying a chat");
    assert_eq!(error.kind(), ChannelErrorKind::Protocol);
    assert_eq!(
        error.to_text(),
        "channel Protocol failure while querying a chat"
    );
    let failure = DeliveryError::new(DeliveryFailureClass::Uncertain, "sending");
    assert_eq!(failure.class(), DeliveryFailureClass::Uncertain);
    assert!(!failure.patch_retryable());
    assert_eq!(failure.to_text(), "channel delivery Uncertain while sending");
}

#[test]
fn values_are_shown_by_length() {
    let snapshot = MessageSnapshot {
        message_id: "om_1".to_owned(),
        chat_id: "oc_12".to_owned(),
        chat_type: "p2p".to_owned(),
        message_type: "text".to_owned(),
        root_id: None,
        parent_id: Some("p".to_owned()),
        thread_id: None,
    };
    assert_eq!(
        snapshot.debug_text(),
        "MessageSnapshot { message_id_len: 4, chat_id_len: 5, chat_type_len: 3, message_type_len: 4, has_root: false, has_parent: true, has_thread: false }"
    );
    let media = MediaRequest {
        message_id: "om".to_owned(),
        resource_key: "key".to_owned(),
        kind: MediaKind::File,
    };
    assert_eq!(
        media.debug_text(),
        "MediaRequest { message_id_len: 2, resource_key_len: 3, kind: File }"
    );
    assert_eq!(MediaKind::Image.as_provider_str(), "image");
    let reply = OutboundRequest::ReplyText {
        message_id: "om".to_owned(),
        in_thread: true,
        text: "äö".to_owned(),
    };
    assert_eq!(
        reply.debug_text(),
        "ReplyText { message_id_len: 2, in_thread: true, text_len: 4 }"
    );
    let receipt = DeliveryReceipt {
        message_id: "om_123".to_owned(),
    };
    assert_eq!(receipt.debug_text(), "DeliveryReceipt { message_id_len: 6 }");
}

#[test]
fn provider_failures_are_classified() {
    let facts = CodeFacts {
        http_server_error: false,
        documented_transient: false,
    };
    let unanswered = LarkError::retryable("sending");
    assert_eq!(
        delivery_error(&unanswered, facts).class(),
        DeliveryFailureClass::Uncertain
    );
    let answered = LarkError::Retryable {
        code: Some(503),
        context: "sending",
    };
    let server = CodeFacts {
        http_server_error: true,
        ..facts
    };
    let error = delivery_error(&answered, server);
    assert_eq!(error.class(), DeliveryFailureClass::Uncertain);
    assert!(error.patch_retryable());
    let transient = CodeFacts {
        documented_transient: true,
        ..facts
    };
    assert_eq!(
        delivery_error(&answered, transient).class(),
        DeliveryFailureClass::Retryable
    );
    assert_eq!(
        delivery_error(&answered, facts).class(),
        DeliveryFailureClass::Definitive
    );
    assert_eq!(
        delivery_error(&LarkError::exhausted("bytes", 1), facts).class(),
        DeliveryFailureClass::Definitive
    );
    assert_eq!(
        channel_error(
            &LarkError::InvalidRequest { context: "reading" },
            "querying a message"
        )
        .kind(),
        ChannelErrorKind::Protocol
    );
}

#[test]
fn operations_make_one_call_and_name_their_message() {
    let update = OutboundRequest::UpdateCard {
        message_id: "om_card".to_owned(),
        card: Value::Null,
    };
    assert_eq!(outbound_call(&update), OutboundCall::UpdateCard);
    let receipt = finish_delivery(update, ProviderAnswer::Updated).ok().expect("updated");
    assert_eq!(receipt.message_id, "om_card");
    let reply = OutboundRequest::ReplyCard {
        message_id: "om_parent".to_owned(),
        in_thread: true,
        card: Value::Null,
    };
    assert_eq!(outbound_call(&reply), OutboundCall::ReplyCardInThread);
    let receipt = finish_delivery(
        reply,
        ProviderAnswer::Replied {
            message_id: "om_new".to_owned(),
        },
    )
    .ok()
    .expect("replied");
    assert_eq!(receipt.message_id, "om_new");
    assert_eq!(conversation_mode(ChatMode::Topic), ConversationMode::Topic);
    assert_eq!(*shared(5_u8).api(), 5);
    assert_eq!(NativeInboundSource::new("handle").into_handle(), "handle");
}

#[test]
fn default_settings_are_valid_and_hide_paths() {
    let config = NodeSidecarConfig {
        arguments: vec!["secret".to_owned()],
        ..NodeSidecarConfig::default()
    };
    assert!(config.validate().is_ok());
    let text = config.debug_text();
    assert!(!text.contains("secret"));
    assert!(!text.contains("index.cjs"));
    assert!(text.contains("argument_count: 1"));
    let pathless = NodeSidecarConfig {
        entrypoint: String::new(),
        ..NodeSidecarConfig::default()
    };
    assert!(pathless.validate().is_err());
    let frameless = NodeSidecarConfig {
        max_frame_bytes: 0,
        ..NodeSidecarConfig::default()
    };
    assert!(matches!(
        frameless.validate(),
        Err(LarkError::Exhausted { .. })
    ));
    let hasty = NodeSidecarConfig {
        handler_timeout_ms: 0,
        ..NodeSidecarConfig::default()
    };
    assert!(hasty.validate().is_err());
}

#[test]
fn correlations_are_short_and_plain() {
    assert!(valid_id("configure-0a.b_C"));
    assert!(!valid_id(""));
    assert!(!valid_id("with space"));
    assert!(!valid_id("ä"));
    assert!(valid_id(&"x".repeat(128)));
    assert!(!valid_id(&"x".repeat(129)));
    let fresh = new_id("configure");
    assert!(valid_id(&fresh));
    assert!(fresh.starts_with("configure-"));
    assert_eq!(fresh.len(), 42);
    assert_ne!(fresh, new_id("configure"));
}

#[test]
fn a_hello_is_compatible_or_refused() {
    assert!(judge_hello(LineRead::Decoded(hello()), 1_000).is_ok());
    assert!(judge_hello(LineRead::Decoded(hello()), 1_001).is_err());
    let mut further = hello();
    further.capabilities.push("more".to_owned());
    assert!(judge_hello(LineRead::Decoded(further), 1_000).is_ok());
    let mut fewer = hello();
    fewer.capabilities.pop();
    assert!(judge_hello(LineRead::Decoded(fewer), 1_000).is_err());
    assert!(matches!(
        judge_hello(LineRead::TimedOut, 1_000),
        Err(LarkError::Retryable {
            context: "waiting for node sidecar hello",
            ..
        })
    ));
}

#[test]
fn configuration_carries_bounds_and_credentials() {
    let credentials = SidecarCredentials {
        app_id: "cli_1".to_owned(),
        app_secret: "word".to_owned(),
        tenant: "feishu".to_owned(),
    };
    let config = NodeSidecarConfig {
        handler_timeout_ms: 1_000,
        event_capacity: 3,
        max_frame_bytes: 99,
        ..NodeSidecarConfig::default()
    };
    let value = configure_value(&config, &credentials, "configure-1");
    let bytes = encode_frame(&value, 1_000).ok().expect("within the bound");
    assert_eq!(
        String::from_utf8(bytes).expect("text"),
        "{\"ack_timeout_ms\":6000,\"app_id\":\"cli_1\",\"app_secret\":\"word\",\"id\":\"configure-1\",\"max_frame_bytes\":99,\"max_in_flight\":3,\"tenant\":\"feishu\",\"type\":\"configure\",\"v\":1}"
    );
    assert!(matches!(
        encode_frame(&value, 10),
        Err(LarkError::Exhausted {
            context: "node sidecar outbound frame",
            limit: 10
        })
    ));
}

#[test]
fn an_event_is_acknowledged_exactly_once() {
    let mut active = ActiveEventIds::new();
    let action = handle_line(event_line("e-1", Value::from(1)), &mut active, 100)
        .ok()
        .expect("an event");
    let LineAction::Offer { id, payload } = action else {
        panic!("the event is offered");
    };
    assert_eq!(payload, b"1".to_vec());
    assert_eq!(active.len(), 1);
    assert!(handle_line(event_line("e-1", Value::Null), &mut active, 100).is_err());
    assert!(settle_offer(&id, OfferOutcome::Taken, &mut active).is_none());
    let mut pump = EventPump::new(1);
    assert!(pump.wants_event());
    pump.on_input(true);
    assert!(!pump.wants_event());
    let frame = process_event(&id, HandlerOutcome::Accepted { data: None });
    assert_eq!(
        frame.to_string(),
        "{\"data\":null,\"id\":\"e-1\",\"ok\":true,\"type\":\"event_ack\",\"v\":1}"
    );
    pump.on_decided(&id, true, &mut active);
    assert_eq!(active.len(), 0);
    assert!(!pump.is_over());
    let late = process_event("e-2", HandlerOutcome::TimedOut);
    assert_eq!(
        late.to_string(),
        "{\"error\":\"durable_intake_timeout\",\"id\":\"e-2\",\"ok\":false,\"type\":\"event_ack\",\"v\":1}"
    );
}

#[test]
fn events_without_room_are_refused() {
    let mut active = ActiveEventIds::new();
    handle_line(event_line("e-1", Value::Null), &mut active, 100)
        .ok()
        .expect("an event");
    let refusal = settle_offer("e-1", OfferOutcome::Full, &mut active).expect("a refusal");
    assert_eq!(
        refusal.get("error").and_then(Value::as_str),
        Some("backpressure")
    );
    assert_eq!(active.len(), 0);
    let long = handle_line(event_line("e-2", Value::from("long")), &mut active, 3)
        .ok()
        .expect("refused, not broken");
    match long {
        LineAction::Send { frame } => assert_eq!(
            frame.get("error").and_then(Value::as_str),
            Some("payload_too_large")
        ),
        _ => panic!("too long to be offered"),
    }
}

#[test]
fn states_are_published_and_others_refused() {
    let mut active = ActiveEventIds::new();
    let action = handle_line(state_line("backoff"), &mut active, 100).ok().expect("a state");
    assert!(matches!(
        action,
        LineAction::Publish {
            state: ConnectionState::Backoff {
                attempt: 1,
                delay_ms: 9
            },
            effect: FrameEffect::Disconnected
        }
    ));
    assert!(handle_line(state_line("sleeping"), &mut active, 100).is_err());
    let unsolicited = DecodedLine {
        base: base("response"),
        body: DecodedBody::Nothing,
    };
    assert!(handle_line(unsolicited, &mut active, 100).is_err());
    let unknown = DecodedLine {
        base: base("future"),
        body: DecodedBody::Nothing,
    };
    assert!(matches!(
        handle_line(unknown, &mut active, 100),
        Ok(LineAction::Send { .. })
    ));
    let complaint = DecodedLine {
        base: base("error"),
        body: DecodedBody::Error(ErrorFrame {
            v: VERSION,
            kind: "error".to_owned(),
            id: "id-1".to_owned(),
            code: "bad_frame".to_owned(),
        }),
    };
    assert!(matches!(
        handle_line(complaint, &mut active, 100),
        Err(LarkError::ProtocolViolation {
            context: "node sidecar rejected a protocol message",
            ..
        })
    ));
    let headless = DecodedLine {
        base: None,
        body: DecodedBody::Nothing,
    };
    assert!(handle_line(headless, &mut active, 100).is_err());
}

#[test]
fn the_first_connection_is_awaited() {
    assert!(wait_until_connected(ConnectEvent::Taken {
        effect: FrameEffect::Disconnected
    })
    .is_none());
    assert!(matches!(
        wait_until_connected(ConnectEvent::Taken {
            effect: FrameEffect::Connected
        }),
        Some(Ok(()))
    ));
    assert!(matches!(
        wait_until_connected(ConnectEvent::LeaderExited),
        Some(Err(LarkError::Retryable { .. }))
    ));
}

#[test]
fn health_needs_its_time() {
    let mut session = SidecarSession::new(1_000, 0);
    assert_eq!(
        session.run(SessionEvent::Taken {
            effect: FrameEffect::Disconnected,
            now_ms: 999
        }),
        None
    );
    assert_eq!(
        session.run(SessionEvent::LeaderExited { now_ms: 5_000 }),
        Some(SessionEnd::Crashed { was_healthy: false })
    );
    let mut healthy = SidecarSession::new(1_000, 0);
    assert_eq!(
        healthy.run(SessionEvent::Taken {
            effect: FrameEffect::Failed,
            now_ms: 1_000
        }),
        Some(SessionEnd::Crashed { was_healthy: true })
    );
}

#[test]
fn restarts_back_off_and_reset() {
    let (mut supervisor, actions) = NodeSidecar::start(&NodeSidecarConfig::default(), false)
        .ok()
        .expect("valid settings");
    assert!(matches!(
        actions[0],
        SupervisorAction::Publish {
            state: ConnectionState::Connecting { attempt: 1 }
        }
    ));
    let actions = supervisor.supervise(SupervisorEvent::Started { result: Ok(()) });
    assert!(matches!(
        actions[0],
        SupervisorAction::ReportReady { result: Ok(()) }
    ));
    let actions = supervisor.supervise(SupervisorEvent::SessionEnded {
        end: SessionEnd::Crashed { was_healthy: false },
    });
    assert!(matches!(
        actions[0],
        SupervisorAction::ChooseDelay { failures: 1 }
    ));
    let actions = supervisor.supervise(SupervisorEvent::DelayChosen { delay_ms: 10 });
    assert!(matches!(
        actions[0],
        SupervisorAction::Publish {
            state: ConnectionState::Backoff {
                attempt: 1,
                delay_ms: 10
            }
        }
    ));
    supervisor.supervise(SupervisorEvent::Elapsed { cancelled: false });
    let actions = supervisor.supervise(SupervisorEvent::Started {
        result: Err(LarkError::retryable("spawning the node sidecar")),
    });
    assert!(matches!(
        actions[0],
        SupervisorAction::ChooseDelay { failures: 2 }
    ));
    supervisor.supervise(SupervisorEvent::DelayChosen { delay_ms: 20 });
    supervisor.supervise(SupervisorEvent::Elapsed { cancelled: false });
    supervisor.supervise(SupervisorEvent::Started { result: Ok(()) });
    let actions = supervisor.supervise(SupervisorEvent::SessionEnded {
        end: SessionEnd::Crashed { was_healthy: true },
    });
    assert!(matches!(
        actions[0],
        SupervisorAction::ChooseDelay { failures: 1 }
    ));
}

#[test]
fn a_failed_first_start_is_reported() {
    let (mut supervisor, _) = NodeSidecar::start(&NodeSidecarConfig::default(), false)
        .ok()
        .expect("valid settings");
    let actions = supervisor.supervise(SupervisorEvent::Started {
        result: Err(LarkError::retryable("spawning the node sidecar")),
    });
    assert_eq!(actions.len(), 2);
    assert!(matches!(
        actions[0],
        SupervisorAction::ReportReady { result: Err(_) }
    ));
    assert!(matches!(
        actions[1],
        SupervisorAction::Publish {
            state: ConnectionState::Degraded {
                reason: "node_sidecar_startup_failed"
            }
        }
    ));
    assert!(NodeSidecar::finish_start(None).is_err());
    assert!(NodeSidecar::finish_start(Some(Ok(()))).is_ok());
}

#[test]
fn a_shutdown_is_acknowledged_by_its_correlation() {
    let response = ResponseFrame {
        v: VERSION,
        kind: "response".to_owned(),
        id: "id-1".to_owned(),
        ok: true,
    };
    assert!(matches!(
        judge_shutdown_line(base("response"), Some(response), "id-1"),
        ShutdownLine::Over { acknowledged: true }
    ));
    assert!(matches!(
        judge_shutdown_line(base("response"), None, "other"),
        ShutdownLine::Ignore
    ));
    assert!(matches!(
        judge_shutdown_line(base("event"), None, "other"),
        ShutdownLine::Refuse { .. }
    ));
    assert!(matches!(
        judge_shutdown_line(None, None, "other"),
        ShutdownLine::Over {
            acknowledged: false
        }
    ));
}

#[test]
fn diagnostics_are_counted_not_copied() {
    let mut counter = StderrCounter::new();
    for byte in b"abc" {
        assert_eq!(counter.feed(*byte), None);
    }
    assert_eq!(counter.feed(b'\n'), Some(StderrNote::Line { bytes: 3 }));
    assert_eq!(counter.feed(b'\n'), None);
    let mut notes = 0;
    for _ in 0..(MAX_STDERR_LINE_BYTES + 10) {
        if counter.feed(b'x') == Some(StderrNote::Oversized) {
            notes += 1;
        }
    }
    assert_eq!(notes, 1);
    assert_eq!(counter.finish(), None);
    assert_eq!(counter.feed(b'\n'), None);
    counter.feed(b'y');
    assert_eq!(counter.finish(), Some(StderrNote::Line { bytes: 1 }));
}
