use lark_codex_bridge::codex::client::AppServerEvent;
use lark_codex_bridge::codex::client::SubscriptionInvalidation;
use lark_codex_bridge::codex::client::ThreadId;
use lark_codex_bridge::codex::client::TurnId;
use lark_codex_bridge::codex::mailbox::Mailbox;
use lark_codex_bridge::codex::mailbox::Received;
use lark_codex_bridge::codex::notification::extract_thread_id;
use lark_codex_bridge::codex::notification::Content;
use lark_codex_bridge::codex::notification::DeltaParams;
use lark_codex_bridge::codex::notification::Notification;
use lark_codex_bridge::codex::notification::TurnParams;
use lark_codex_bridge::codex::notification::CONSUMED_NOTIFICATION_METHODS;
use lark_codex_bridge::codex::notification::NORMAL_NOTIFICATION_ORDER;
use lark_codex_bridge::codex::router::Router;
use lark_codex_bridge::codex::router::RouterCommand;
use lark_codex_bridge::codex::router::RouterReply;
use lark_codex_bridge::codex::types::Measure;
use lark_codex_bridge::codex::types::ThreadItem;
use lark_codex_bridge::codex::types::TransportExit;
use lark_codex_bridge::codex::types::Turn;
use lark_codex_bridge::codex::types::TurnStatus;
use lark_codex_bridge::limits::THREAD_EVENT_CAPACITY;
use serde_json::Value;

fn thread() -> ThreadId {
    ThreadId::new("thread-1".to_owned())
}

fn turn(status: TurnStatus) -> Turn {
    Turn {
        id: "turn-1".to_owned(),
        status,
        error: None,
        items: Vec::new(),
        measure: measure(),
        fingerprint: 7,
    }
}

fn measure() -> Measure {
    Measure {
        wire_bytes: 10,
        memory_bytes: 20,
    }
}

fn notification(content: Content) -> Notification {
    Notification {
        params: Some(Value::Null),
        params_bytes: 4,
        content,
    }
}

fn delta(text: &str) -> AppServerEvent {
    AppServerEvent::AgentMessageDelta {
        turn_id: TurnId::new("turn-1".to_owned()),
        item_id: "item-1".to_owned(),
        delta: text.to_owned(),
    }
}

#[test]
fn fragments_of_one_stream_are_merged() {
    let mut mailbox = Mailbox::new();
    mailbox.push_lossy(delta("one "));
    mailbox.push_lossy(delta("two"));
    match mailbox.recv() {
        Received::Event(AppServerEvent::AgentMessageDelta { delta, .. }) => {
            assert_eq!(delta, "one two")
        }
        _ => panic!("a fragment waits"),
    }
    assert!(matches!(mailbox.recv(), Received::Empty));
}

#[test]
fn terminal_events_survive_a_flood() {
    let mut mailbox = Mailbox::new();
    assert!(mailbox.push_terminal(AppServerEvent::ThreadStarted {
        thread_id: thread()
    }));
    for number in 0..(2 * THREAD_EVENT_CAPACITY) {
        mailbox.push_lossy(AppServerEvent::Unknown {
            method: format!("m{number}"),
        });
    }
    let mut started = 0;
    let mut count = 0;
    loop {
        match mailbox.recv() {
            Received::Event(AppServerEvent::ThreadStarted { .. }) => started += 1,
            Received::Event(_) => {}
            _ => break,
        }
        count += 1;
    }
    assert_eq!(started, 1);
    assert!(count <= THREAD_EVENT_CAPACITY + 1);
}

#[test]
fn a_turn_is_followed_to_its_end() {
    let mut router = Router::new();
    let id = router.subscribe(&thread()).expect("room for a subscriber");
    assert!(router.route_notification(notification(Content::TurnStarted(Some(TurnParams {
        thread_id: thread(),
        turn: turn(TurnStatus::InProgress),
    })))));
    assert!(router.route_notification(notification(Content::AgentMessageDelta(Some(
        DeltaParams {
            thread_id: thread(),
            turn_id: TurnId::new("turn-1".to_owned()),
            item_id: "item-1".to_owned(),
            delta: "hello".to_owned(),
        }
    )))));
    assert!(router.route_notification(notification(Content::TurnCompleted(Some(TurnParams {
        thread_id: thread(),
        turn: turn(TurnStatus::Completed),
    })))));
    assert!(matches!(
        router.recv(id),
        Received::Event(AppServerEvent::TurnStarted { .. })
    ));
    assert!(matches!(
        router.recv(id),
        Received::Event(AppServerEvent::AgentMessageDelta { .. })
    ));
    assert!(matches!(
        router.recv(id),
        Received::Event(AppServerEvent::TurnCompleted(_))
    ));
    let outcome = router
        .outcome(id, &TurnId::new("turn-1".to_owned()))
        .expect("the outcome is kept");
    assert_eq!(
        outcome.debug_text(),
        "TurnOutcome { thread_id: ThreadId(\"thread-1\"), turn_id: TurnId(\"turn-1\"), status: \"completed\", has_error: false, completed_item_count: 0, has_token_usage: false }"
    );
}

#[test]
fn an_undecoded_authoritative_notification_ends_the_connection() {
    let mut router = Router::new();
    assert!(!router.route_notification(notification(Content::TurnCompleted(None))));
    let mut other = Router::new();
    assert!(other.route_notification(notification(Content::AgentMessageDelta(None))));
    let mut undispatched = Router::new();
    for method in CONSUMED_NOTIFICATION_METHODS {
        assert!(!undispatched.route_notification(notification(Content::Other {
            method: method.to_owned(),
        })));
    }
    assert!(undispatched.route_notification(notification(Content::Other {
        method: "future/method".to_owned(),
    })));
}

#[test]
fn notifications_before_a_confirmed_start_wait() {
    let mut router = Router::new();
    let id = router.subscribe(&thread()).expect("room for a subscriber");
    let (reply, open) = router.handle_router_command(RouterCommand::BeginTurnStart {
        thread_id: thread(),
        attempt: 1,
        listening: true,
    });
    assert!(open);
    assert!(matches!(reply, RouterReply::Accepted(true)));
    assert!(router.route_notification(notification(Content::TurnStarted(Some(TurnParams {
        thread_id: thread(),
        turn: turn(TurnStatus::InProgress),
    })))));
    let (reply, open) = router.handle_router_command(RouterCommand::ObserveTurnStarted {
        thread_id: thread(),
        attempt: 1,
        turn: turn(TurnStatus::InProgress),
    });
    assert!(open);
    assert!(matches!(reply, RouterReply::Turn(Some(_))));
    assert!(matches!(
        router.recv(id),
        Received::Event(AppServerEvent::TurnStarted { .. })
    ));
}

#[test]
fn busy_routes_are_not_released() {
    let mut router = Router::new();
    let id = router.subscribe(&thread()).expect("room for a subscriber");
    let (reply, _) = router.handle_router_command(RouterCommand::ReleaseRoute {
        thread_id: thread(),
    });
    assert!(matches!(reply, RouterReply::Accepted(false)));
    router.unsubscribe(id, &thread());
    let (reply, _) = router.handle_router_command(RouterCommand::ReleaseRoute {
        thread_id: thread(),
    });
    assert!(matches!(reply, RouterReply::Accepted(true)));
}

#[test]
fn closing_tells_every_subscriber() {
    let mut router = Router::new();
    let id = router.subscribe(&thread()).expect("room for a subscriber");
    router.close_subscribers(TransportExit::StdoutEof);
    assert!(matches!(
        router.recv(id),
        Received::Event(AppServerEvent::ConnectionClosed {
            exit: TransportExit::StdoutEof
        })
    ));
    assert!(matches!(router.recv(id), Received::Closed));
}

#[test]
fn threads_are_found_in_parameters() {
    let params: Value = serde_json::from_str("{\"threadId\":\"t-9\"}").expect("json");
    assert_eq!(
        extract_thread_id(&Some(params)).map(|id| id.as_str().to_owned()),
        Some("t-9".to_owned())
    );
    assert!(extract_thread_id(&None).is_none());
}

#[test]
fn the_normal_order_is_consumed() {
    for method in NORMAL_NOTIFICATION_ORDER {
        assert!(CONSUMED_NOTIFICATION_METHODS.contains(&method));
    }
    assert_eq!(NORMAL_NOTIFICATION_ORDER[0], "thread/started");
    assert_eq!(NORMAL_NOTIFICATION_ORDER[7], "turn/completed");
    assert_eq!(CONSUMED_NOTIFICATION_METHODS.len(), 9);
}

#[test]
fn events_are_shown_without_content() {
    assert_eq!(
        delta("private").debug_text(),
        "AgentMessageDelta { turn_id: TurnId(\"turn-1\"), item_id: \"item-1\" }"
    );
    let item = AppServerEvent::ItemCompleted {
        turn_id: TurnId::new("turn-1".to_owned()),
        item: ThreadItem {
            id: Some("item-1".to_owned()),
            kind: "agentMessage".to_owned(),
            measure: measure(),
            fingerprint: 1,
            body: Value::String("private".to_owned()),
        },
    };
    assert_eq!(
        item.debug_text(),
        "ItemCompleted { turn_id: TurnId(\"turn-1\"), item_kind: \"agentMessage\", item_id: Some(\"item-1\") }"
    );
    let invalid = AppServerEvent::SubscriptionInvalidated {
        thread_id: thread(),
        reason: SubscriptionInvalidation::Lagged,
    };
    assert_eq!(
        invalid.debug_text(),
        "SubscriptionInvalidated { thread_id: ThreadId(\"thread-1\"), reason: Lagged }"
    );
}
