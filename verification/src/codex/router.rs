//! Routing of notifications to the subscriptions of their threads.
//!
//! A thread is tracked by a route: who subscribed, what the thread is known
//! to have done, and the notifications that wait for a pending turn start.
use vstd::prelude::*;

use crate::codex::client::routable;
use crate::codex::client::valid_routing_id;
use crate::codex::client::AppServerEvent;
use crate::codex::client::EventView;
use crate::codex::client::SubscriptionInvalidation;
use crate::codex::client::ThreadId;
use crate::codex::client::TurnId;
use crate::codex::client::TurnOutcome;
use crate::codex::homes::detached;
use crate::codex::homes::home_of;
use crate::codex::homes::lemma_home_detached;
use crate::codex::homes::without_home;
use crate::codex::homes::HomeView;
use crate::codex::homes::Homes;
use crate::codex::mailbox::invalidated_mailbox;
use crate::codex::mailbox::lossy_pushed;
use crate::codex::mailbox::terminal_pushed;
use crate::codex::mailbox::MailboxView;
use crate::codex::mailbox::Received;
use crate::codex::notification::authoritative;
use crate::codex::notification::bounded_method;
use crate::codex::notification::consumed;
use crate::codex::notification::content_method;
use crate::codex::notification::extract_thread_id;
use crate::codex::notification::notification_kind;
use crate::codex::notification::notification_weight;
use crate::codex::notification::reported_method;
use crate::codex::notification::undispatched;
use crate::codex::notification::Content;
use crate::codex::notification::ContentView;
use crate::codex::notification::DeltaParams;
use crate::codex::notification::DeltaView;
use crate::codex::notification::Notification;
use crate::codex::notification::NotificationKind;
use crate::codex::notification::NotificationView;
use crate::codex::projection::after_item_completed;
use crate::codex::projection::after_item_started;
use crate::codex::projection::after_thread_started;
use crate::codex::projection::after_turn_completed;
use crate::codex::projection::after_turn_started;
use crate::codex::projection::after_usage;
use crate::codex::projection::blank_projection;
use crate::codex::projection::outcome_of;
use crate::codex::projection::projection_invalidated;
use crate::codex::projection::Effect;
use crate::codex::projection::ProjectionView;
use crate::codex::projection::RecordView;
use crate::codex::projection::ThreadProjection;
use crate::codex::subscriptions::all_ended;
use crate::codex::subscriptions::all_invalidated;
use crate::codex::subscriptions::ended;
use crate::codex::subscriptions::live;
use crate::codex::subscriptions::live_subscribers_take_events;
use crate::codex::subscriptions::lossy_sent;
use crate::codex::subscriptions::reached;
use crate::codex::subscriptions::takes_events;
use crate::codex::subscriptions::terminal_sent;
use crate::codex::subscriptions::Mailboxes;
use crate::codex::types::saturated;
use crate::codex::types::text_bytes;
use crate::codex::types::ItemView;
use crate::codex::types::ThreadItem;
use crate::codex::types::TokenUsageBreakdown;
use crate::codex::types::TransportExit;
use crate::codex::types::Turn;
use crate::codex::types::TurnError;
use crate::codex::types::TurnView;
use crate::keyed::bind;
use crate::keyed::has_key;
use crate::keyed::key_index;
use crate::keyed::lemma_bind_unique;
use crate::keyed::lemma_key_index;
use crate::keyed::lemma_unbind_lookup;
use crate::keyed::lookup;
use crate::keyed::unbind;
use crate::keyed::unique_keys;
use crate::keyed::value_of;
use crate::keyed::Keyed;
use crate::limits::CLIENT_CONTROL_CAPACITY;
use crate::limits::CLIENT_CONTROL_EVENT_BYTE_LIMIT;
use crate::limits::CLIENT_PROJECTION_CAPACITY;
use crate::limits::CLIENT_SUBSCRIBER_CAPACITY;
use crate::limits::ROUTING_ID_BYTE_LIMIT;
use crate::limits::THREAD_EVENT_CAPACITY;
use crate::limits::THREAD_MAILBOX_BYTE_BUDGET;
use crate::limits::THREAD_SUBSCRIBER_CAPACITY;
use crate::text::byte_len;

verus! {

/// An event that concerns the whole connection.
pub enum ControlEvent {
    ServerRequest { token: u64, method: String },
    ProtocolDrift,
    UnknownNotification { method: String },
    InvalidNotification { method: String, authoritative: bool },
    ConnectionClosed(TransportExit),
}

/// Content of a control event.
pub enum ControlView {
    ServerRequest { token: u64, method: Seq<char> },
    ProtocolDrift,
    UnknownNotification { method: Seq<char> },
    InvalidNotification { method: Seq<char>, authoritative: bool },
    ConnectionClosed(TransportExit),
}

impl View for ControlEvent {
    type V = ControlView;

    open spec fn view(&self) -> ControlView {
        match self {
            ControlEvent::ServerRequest { token, method } => ControlView::ServerRequest {
                token: *token,
                method: method@,
            },
            ControlEvent::ProtocolDrift => ControlView::ProtocolDrift,
            ControlEvent::UnknownNotification { method } => ControlView::UnknownNotification {
                method: method@,
            },
            ControlEvent::InvalidNotification { method, authoritative } =>
                ControlView::InvalidNotification { method: method@, authoritative: *authoritative },
            ControlEvent::ConnectionClosed(exit) => ControlView::ConnectionClosed(*exit),
        }
    }
}

/// One tracked thread.
pub struct ThreadRoute {
    subscribers: Vec<u64>,
    projection: ThreadProjection,
    pending_turn_start: Option<u64>,
    defer_turn_notifications: bool,
    deferred_notifications: Vec<Notification>,
    deferred_bytes: usize,
}

/// Content of an optional thread identifier.
pub open spec fn thread_option(thread_id: Option<ThreadId>) -> Option<Seq<char>> {
    match thread_id {
        Some(thread_id) => Some(thread_id@),
        None => None,
    }
}

/// Content of one tracked thread.
pub struct RouteView {
    pub subscribers: Seq<u64>,
    pub projection: ProjectionView,
    pub pending: Option<u64>,
    pub deferring: bool,
    pub deferred: Seq<NotificationView>,
}

impl View for ThreadRoute {
    type V = RouteView;

    closed spec fn view(&self) -> RouteView {
        RouteView {
            subscribers: self.subscribers@,
            projection: self.projection@,
            pending: self.pending_turn_start,
            deferring: self.defer_turn_notifications,
            deferred: self.deferred_notifications@.map_values(
                |notification: Notification| notification@,
            ),
        }
    }
}

/// Bytes that deferred notifications retain.
pub open spec fn deferred_bytes(deferred: Seq<NotificationView>) -> int
    decreases deferred.len(),
{
    if deferred.len() == 0 {
        0
    } else {
        deferred_bytes(deferred.drop_last()) + notification_weight(deferred.last())
    }
}

/// Whether a route keeps its bounds: nobody subscribed twice, deferred
/// notifications fit, none of them starts a turn, and there are none unless a
/// turn start is awaited.
pub open spec fn route_bounded(route: RouteView) -> bool {
    &&& route.subscribers.no_duplicates()
    &&& route.subscribers.len() <= THREAD_SUBSCRIBER_CAPACITY
    &&& crate::codex::projection::projection_bounded(route.projection)
    &&& route.deferred.len() <= THREAD_EVENT_CAPACITY
    &&& deferred_bytes(route.deferred) <= THREAD_MAILBOX_BYTE_BUDGET
    &&& forall|k: int|
        0 <= k < route.deferred.len() ==> !((#[trigger] route.deferred[k]).content is TurnStarted)
    &&& !route.deferring ==> route.deferred.len() == 0
}

/// A thread of which nothing is known.
pub open spec fn blank_route() -> RouteView {
    RouteView {
        subscribers: Seq::empty(),
        projection: blank_projection(),
        pending: None,
        deferring: false,
        deferred: Seq::empty(),
    }
}

/// Whether nothing would be lost with a route. An invalidated route counts as
/// idle once nothing else is known of it.
pub open spec fn idle(route: RouteView) -> bool {
    route == (RouteView {
        projection: ProjectionView { invalidated: route.projection.invalidated, ..blank_projection()
        },
        ..blank_route()
    })
}

impl ThreadRoute {
    pub closed spec fn wf(&self) -> bool {
        &&& route_bounded(self@)
        &&& self.projection.wf()
        &&& self.deferred_bytes == deferred_bytes(self@.deferred)
    }

    pub proof fn lemma_bounded(&self)
        requires
            self.wf(),
        ensures
            route_bounded(self@),
    {
    }

    fn new() -> (route: ThreadRoute)
        ensures
            route.wf(),
            route@ == blank_route(),
    {
        let route = ThreadRoute {
            subscribers: Vec::new(),
            projection: ThreadProjection::new(),
            pending_turn_start: None,
            defer_turn_notifications: false,
            deferred_notifications: Vec::new(),
            deferred_bytes: 0,
        };
        proof {
            route.projection.lemma_bounded();
            assert(route@.deferred =~= Seq::empty());
        }
        route
    }

    fn is_idle(&self) -> (held: bool)
        ensures
            held == idle(self@),
    {
        let held = self.subscribers.len() == 0 && self.pending_turn_start.is_none()
            && !self.defer_turn_notifications && self.deferred_notifications.len() == 0
            && self.projection.is_blank();
        proof {
            if held {
                assert(self@.subscribers =~= Seq::empty());
                assert(self@.deferred =~= Seq::empty());
            }
        }
        held
    }
}

/// Content of a router.
pub struct RouterView {
    pub routes: Seq<(Seq<char>, RouteView)>,
    /// Where each subscription finds outcomes.
    pub homes: Seq<HomeView>,
    pub boxes: Map<u64, MailboxView>,
    pub control: Seq<ControlView>,
    pub next: u64,
}

/// The outcome of a turn that a subscription can read: of the route that it
/// subscribed to, also when that route is gone.
pub open spec fn subscription_outcome(router: RouterView, id: u64, turn_id: Seq<char>) -> Option<
    RecordView,
> {
    match home_of(router.homes, id) {
        Some(home) => match home.kept {
            Some(projection) => lookup(projection.outcomes, turn_id),
            None => if has_key(router.routes, home.thread_id) {
                lookup(route_of(router, home.thread_id).projection.outcomes, turn_id)
            } else {
                None
            },
        },
        None => None,
    }
}

/// The route of a tracked thread.
pub open spec fn route_of(router: RouterView, thread_id: Seq<char>) -> RouteView {
    value_of(router.routes, thread_id)
}

/// The router with another route for a thread.
pub open spec fn with_route(
    router: RouterView,
    thread_id: Seq<char>,
    route: RouteView,
) -> RouterView {
    RouterView { routes: bind(router.routes, thread_id, route), ..router }
}

/// The router after a control event, which a full control queue drops.
pub open spec fn reported(router: RouterView, event: ControlView) -> RouterView {
    if router.control.len() < CLIENT_CONTROL_CAPACITY {
        RouterView { control: router.control.push(event), ..router }
    } else {
        router
    }
}

/// A route without the subscribers that take no more events.
pub open spec fn pruned_route(boxes: Map<u64, MailboxView>, route: RouteView) -> RouteView {
    RouteView { subscribers: live(boxes, route.subscribers), ..route }
}

/// The router without the subscribers that take no more events.
pub open spec fn pruned(router: RouterView) -> RouterView {
    RouterView {
        routes: Seq::new(
            router.routes.len(),
            |at: int| (router.routes[at].0, pruned_route(router.boxes, router.routes[at].1)),
        ),
        ..router
    }
}

/// The first place that holds an idle route.
pub open spec fn first_idle(routes: Seq<(Seq<char>, RouteView)>) -> Option<int>
    decreases routes.len(),
{
    if routes.len() == 0 {
        None
    } else {
        match first_idle(routes.drop_last()) {
            Some(at) => Some(at),
            None => if idle(routes.last().1) {
                Some(routes.len() - 1)
            } else {
                None
            },
        }
    }
}

/// The router once a thread may be updated, and whether it may: a thread that
/// is not tracked yet takes the place of an idle one where there is no other
/// room, and an invalidated thread is not updated.
pub open spec fn admitted(router: RouterView, thread_id: Seq<char>) -> (RouterView, bool) {
    if !routable(thread_id) {
        (router, false)
    } else {
        let next = pruned(router);
        if has_key(next.routes, thread_id) {
            (next, route_of(next, thread_id).projection.invalidated is None)
        } else if next.routes.len() < CLIENT_PROJECTION_CAPACITY {
            (with_route(next, thread_id, blank_route()), true)
        } else {
            match first_idle(next.routes) {
                Some(at) => (
                    RouterView {
                        routes: next.routes.remove(at).push((thread_id, blank_route())),
                        homes: detached(
                            next.homes,
                            next.routes[at].0,
                            next.routes[at].1.projection,
                        ),
                        ..next
                    },
                    true,
                ),
                None => (next, false),
            }
        }
    }
}

/// The router after a route stopped being reliable: its subscribers are told
/// why and dropped.
pub open spec fn route_invalidated(
    router: RouterView,
    thread_id: Seq<char>,
    reason: SubscriptionInvalidation,
) -> RouterView {
    let route = route_of(router, thread_id);
    RouterView {
        boxes: all_invalidated(router.boxes, route.subscribers, thread_id, reason),
        ..with_route(
            router,
            thread_id,
            RouteView {
                subscribers: Seq::empty(),
                projection: projection_invalidated(route.projection, reason),
                ..route
            },
        )
    }
}

/// The router after an event that may not be lost went to the subscribers of
/// a thread; those that lagged are told so and dropped.
pub open spec fn announced(
    router: RouterView,
    thread_id: Seq<char>,
    event: EventView,
) -> RouterView {
    let route = route_of(router, thread_id);
    RouterView {
        boxes: terminal_sent(router.boxes, route.subscribers, event, thread_id),
        ..with_route(
            router,
            thread_id,
            RouteView { subscribers: reached(router.boxes, route.subscribers, event), ..route },
        )
    }
}

/// The router after an event that may be lost went to the subscribers of a
/// thread.
pub open spec fn whispered(
    router: RouterView,
    thread_id: Seq<char>,
    event: EventView,
) -> RouterView {
    let route = route_of(router, thread_id);
    RouterView {
        boxes: lossy_sent(router.boxes, route.subscribers, event),
        ..with_route(
            router,
            thread_id,
            RouteView { subscribers: live(router.boxes, route.subscribers), ..route },
        )
    }
}

/// The router after a thread's projection took a report in: subscribers are
/// told what the report leads to.
pub open spec fn noted(
    router: RouterView,
    thread_id: Seq<char>,
    noted: (ProjectionView, Effect),
    event: EventView,
    terminal: bool,
) -> RouterView {
    let route = route_of(router, thread_id);
    let next = with_route(router, thread_id, RouteView { projection: noted.0, ..route });
    match noted.1 {
        Effect::Quiet => next,
        Effect::Announce => if terminal {
            announced(next, thread_id, event)
        } else {
            whispered(next, thread_id, event)
        },
        Effect::Drift => route_invalidated(
            next,
            thread_id,
            SubscriptionInvalidation::ProtocolDrift,
        ),
    }
}

/// The router after a thread started, and whether the thread is tracked.
pub open spec fn thread_started(router: RouterView, thread_id: Seq<char>) -> (RouterView, bool) {
    let (next, accepted) = admitted(router, thread_id);
    if accepted {
        (
            noted(
                next,
                thread_id,
                after_thread_started(route_of(next, thread_id).projection),
                EventView::ThreadStarted { thread_id },
                true,
            ),
            true,
        )
    } else {
        (next, false)
    }
}

/// The router after a turn started, and whether the turn is tracked.
pub open spec fn turn_started(router: RouterView, thread_id: Seq<char>, turn: TurnView) -> (
    RouterView,
    bool,
) {
    let (next, accepted) = admitted(router, thread_id);
    if accepted {
        let step = after_turn_started(route_of(next, thread_id).projection, turn.id);
        (
            noted(next, thread_id, step, EventView::TurnStarted { turn }, true),
            step.1 != Effect::Drift,
        )
    } else {
        (next, false)
    }
}

/// The router after an item started.
pub open spec fn item_started(
    router: RouterView,
    thread_id: Seq<char>,
    turn_id: Seq<char>,
    item: ItemView,
) -> RouterView {
    let (next, accepted) = admitted(router, thread_id);
    if accepted {
        noted(
            next,
            thread_id,
            after_item_started(route_of(next, thread_id).projection, turn_id, item.id),
            EventView::ItemStarted { turn_id, item },
            false,
        )
    } else {
        next
    }
}

/// The router after an item completed, and whether it was routed.
pub open spec fn item_completed(
    router: RouterView,
    thread_id: Seq<char>,
    turn_id: Seq<char>,
    item: ItemView,
) -> (RouterView, bool) {
    let (next, accepted) = admitted(router, thread_id);
    if accepted {
        (
            noted(
                next,
                thread_id,
                after_item_completed(route_of(next, thread_id).projection, turn_id, item),
                EventView::ItemCompleted { turn_id, item },
                true,
            ),
            true,
        )
    } else {
        (next, false)
    }
}

/// The router after token counts came.
pub open spec fn usage_updated(
    router: RouterView,
    thread_id: Seq<char>,
    turn_id: Seq<char>,
    usage: crate::json::Json,
) -> RouterView {
    let (next, accepted) = admitted(router, thread_id);
    if accepted {
        noted(
            next,
            thread_id,
            after_usage(route_of(next, thread_id).projection, turn_id, usage),
            EventView::TokenUsageUpdated { turn_id, usage },
            false,
        )
    } else {
        next
    }
}

/// The router after a turn failed, and whether that was routed.
pub open spec fn turn_failed(
    router: RouterView,
    thread_id: Seq<char>,
    turn_id: Seq<char>,
    error: crate::codex::types::TurnErrorView,
    will_retry: bool,
) -> (RouterView, bool) {
    let (next, accepted) = admitted(router, thread_id);
    if !accepted {
        (next, false)
    } else if byte_len(turn_id) > ROUTING_ID_BYTE_LIMIT {
        (route_invalidated(next, thread_id, SubscriptionInvalidation::ProtocolDrift), true)
    } else {
        (announced(next, thread_id, EventView::Error { turn_id, error, will_retry }), true)
    }
}

/// The router after a turn completed, and whether that was routed.
pub open spec fn turn_completed(router: RouterView, thread_id: Seq<char>, turn: TurnView) -> (
    RouterView,
    bool,
) {
    let (next, accepted) = admitted(router, thread_id);
    if accepted {
        let projection = route_of(next, thread_id).projection;
        (
            noted(
                next,
                thread_id,
                after_turn_completed(projection, thread_id, turn),
                EventView::TurnCompleted(outcome_of(projection, thread_id, turn)),
                true,
            ),
            true,
        )
    } else {
        (next, false)
    }
}

/// The router after a notification that could not be understood.
pub open spec fn misread(
    router: RouterView,
    method: Seq<char>,
    authoritative: bool,
    thread_id: Option<Seq<char>>,
) -> RouterView {
    let next = match thread_id {
        Some(thread_id) => if authoritative && has_key(router.routes, thread_id) {
            route_invalidated(router, thread_id, SubscriptionInvalidation::ProtocolDrift)
        } else {
            router
        },
        None => router,
    };
    reported(
        next,
        ControlView::InvalidNotification { method: reported_method(method), authoritative },
    )
}

/// The router after an event that may be lost, where the thread is tracked.
pub open spec fn passed_on(
    router: RouterView,
    thread_id: Seq<char>,
    event: EventView,
) -> RouterView {
    if has_key(router.routes, thread_id) {
        whispered(router, thread_id, event)
    } else {
        router
    }
}

/// The router after a text fragment.
pub open spec fn fragment_routed(
    router: RouterView,
    method: Seq<char>,
    thread_id: Option<Seq<char>>,
    params: Option<DeltaView>,
    output: bool,
) -> RouterView {
    match params {
        None => misread(router, method, false, thread_id),
        Some(params) => if routable(params.thread_id) && routable(params.turn_id) && routable(
            params.item_id,
        ) {
            passed_on(
                router,
                params.thread_id,
                if output {
                    EventView::CommandOutputDelta {
                        turn_id: params.turn_id,
                        item_id: params.item_id,
                        delta: params.delta,
                    }
                } else {
                    EventView::AgentMessageDelta {
                        turn_id: params.turn_id,
                        item_id: params.item_id,
                        delta: params.delta,
                    }
                },
            )
        } else {
            misread(router, method, false, Some(params.thread_id))
        },
    }
}

/// The router after the report that a notification had no room.
pub open spec fn no_room(router: RouterView) -> RouterView {
    reported(
        router,
        ControlView::InvalidNotification { method: "routing-capacity"@, authoritative: true },
    )
}

/// What an authoritative notification leads to: it was routed, or there was
/// no room and the connection must end.
pub open spec fn owed(step: (RouterView, bool)) -> (RouterView, bool) {
    if step.1 {
        step
    } else {
        (no_room(step.0), false)
    }
}

/// The router after a notification that starts no turn and is not deferred,
/// and whether the connection stays open.
pub open spec fn interpreted(router: RouterView, notification: NotificationView) -> (
    RouterView,
    bool,
) {
    let method = content_method(notification.content);
    let named = notification.thread_id;
    match notification.content {
        ContentView::ThreadStarted(Some(thread_id)) => (
            thread_started(router, thread_id).0,
            true,
        ),
        ContentView::ThreadStarted(None) => (misread(router, method, false, named), true),
        ContentView::TurnStarted(_) => (router, true),
        ContentView::ItemStarted(Some((thread_id, turn_id, item))) => (
            item_started(router, thread_id, turn_id, item),
            true,
        ),
        ContentView::ItemStarted(None) => (misread(router, method, false, named), true),
        ContentView::AgentMessageDelta(params) => (
            fragment_routed(router, method, named, params, false),
            true,
        ),
        ContentView::CommandOutputDelta(params) => (
            fragment_routed(router, method, named, params, true),
            true,
        ),
        ContentView::ItemCompleted(Some((thread_id, turn_id, item))) => owed(
            item_completed(router, thread_id, turn_id, item),
        ),
        ContentView::ItemCompleted(None) => (misread(router, method, true, named), false),
        ContentView::TokenUsageUpdated(Some((thread_id, turn_id, usage))) => (
            usage_updated(router, thread_id, turn_id, usage),
            true,
        ),
        ContentView::TokenUsageUpdated(None) => (misread(router, method, false, named), true),
        ContentView::Error(Some((thread_id, turn_id, error, will_retry))) => owed(
            turn_failed(router, thread_id, turn_id, error, will_retry),
        ),
        ContentView::Error(None) => (misread(router, method, true, named), false),
        ContentView::TurnCompleted(Some((thread_id, turn))) => owed(
            turn_completed(router, thread_id, turn),
        ),
        ContentView::TurnCompleted(None) => (misread(router, method, true, named), false),
        ContentView::Other { method } => if consumed(method) {
            (misread(router, method, true, named), false)
        } else {
            match named {
                Some(thread_id) => (
                    passed_on(
                        router,
                        thread_id,
                        EventView::Unknown { method: reported_method(method) },
                    ),
                    true,
                ),
                None => (
                    reported(
                        router,
                        ControlView::UnknownNotification { method: reported_method(method) },
                    ),
                    true,
                ),
            }
        },
    }
}

/// Whether a notification waits for the pending turn start of its thread.
pub open spec fn defers(router: RouterView, thread_id: Option<Seq<char>>) -> bool {
    match thread_id {
        Some(thread_id) => has_key(router.routes, thread_id) && route_of(
            router,
            thread_id,
        ).deferring,
        None => false,
    }
}

/// The router after a notification for a thread that defers, and whether the
/// connection stays open: it waits in order, or there is no room and the
/// thread is told that it lagged.
pub open spec fn deferred(
    router: RouterView,
    thread_id: Seq<char>,
    notification: NotificationView,
) -> (RouterView, bool) {
    let route = route_of(router, thread_id);
    if route.deferred.len() >= THREAD_EVENT_CAPACITY || deferred_bytes(route.deferred)
        + notification_weight(notification) > THREAD_MAILBOX_BYTE_BUDGET {
        (
            reported(
                route_invalidated(router, thread_id, SubscriptionInvalidation::Lagged),
                ControlView::InvalidNotification {
                    method: reported_method(content_method(notification.content)),
                    authoritative: authoritative(notification.content),
                },
            ),
            !authoritative(notification.content),
        )
    } else {
        (
            with_route(
                router,
                thread_id,
                RouteView { deferred: route.deferred.push(notification), ..route },
            ),
            true,
        )
    }
}

/// The router after a notification that starts no turn, and whether the
/// connection stays open.
#[verifier::opaque]
pub open spec fn settled(router: RouterView, notification: NotificationView) -> (RouterView, bool) {
    if defers(router, notification.thread_id) {
        deferred(router, notification.thread_id->Some_0, notification)
    } else {
        interpreted(router, notification)
    }
}

/// The router after notifications are taken in order, up to one that ends the
/// connection.
pub open spec fn replayed(router: RouterView, notifications: Seq<NotificationView>) -> (
    RouterView,
    bool,
)
    decreases notifications.len(),
{
    if notifications.len() == 0 {
        (router, true)
    } else {
        let (next, open) = settled(router, notifications.first());
        if open {
            replayed(next, notifications.drop_first())
        } else {
            (next, false)
        }
    }
}

/// The router after a thread stops deferring: what waited is taken in order.
pub open spec fn resumed(router: RouterView, thread_id: Seq<char>) -> (RouterView, bool) {
    if has_key(router.routes, thread_id) {
        let route = route_of(router, thread_id);
        replayed(
            with_route(
                router,
                thread_id,
                RouteView { deferring: false, deferred: Seq::empty(), ..route },
            ),
            route.deferred,
        )
    } else {
        (router, true)
    }
}

/// The router after any notification, and whether the connection stays open.
pub open spec fn notified(router: RouterView, notification: NotificationView) -> (
    RouterView,
    bool,
) {
    match notification.content {
        ContentView::TurnStarted(Some((thread_id, turn))) => resumed(
            turn_started(router, thread_id, turn).0,
            thread_id,
        ),
        ContentView::TurnStarted(None) => (
            misread(
                router,
                content_method(notification.content),
                false,
                notification.thread_id,
            ),
            true,
        ),
        _ => settled(router, notification),
    }
}

/// The router after a turn start is no longer awaited.
pub open spec fn turn_start_finished(router: RouterView, thread_id: Seq<char>, attempt: u64) -> (
    RouterView,
    bool,
) {
    if has_key(router.routes, thread_id) && route_of(router, thread_id).pending == Some(attempt) {
        resumed(
            with_route(
                router,
                thread_id,
                RouteView { pending: None, ..route_of(router, thread_id) },
            ),
            thread_id,
        )
    } else {
        (router, true)
    }
}

/// Number of subscriptions of all threads.
pub open spec fn subscriber_count(routes: Seq<(Seq<char>, RouteView)>) -> int
    decreases routes.len(),
{
    if routes.len() == 0 {
        0
    } else {
        subscriber_count(routes.drop_last()) + routes.last().1.subscribers.len()
    }
}

/// What waits for a new subscriber: the news that the thread started, where
/// it has.
pub open spec fn first_mailbox(started: bool, thread_id: Seq<char>) -> MailboxView {
    MailboxView {
        events: if started {
            seq![
                crate::codex::mailbox::QueuedView {
                    terminal: true,
                    event: EventView::ThreadStarted { thread_id },
                },
            ]
        } else {
            Seq::empty()
        },
        closed: false,
    }
}

/// The router after a subscription, and its number where there was room.
pub open spec fn subscribed(router: RouterView, thread_id: Seq<char>) -> (RouterView, Option<u64>) {
    let clean = pruned(router);
    if subscriber_count(clean.routes) >= CLIENT_SUBSCRIBER_CAPACITY {
        (clean, None)
    } else {
        let (next, accepted) = admitted(clean, thread_id);
        let route = route_of(next, thread_id);
        if !accepted || route.subscribers.len() >= THREAD_SUBSCRIBER_CAPACITY || next.next
            == u64::MAX {
            (next, None)
        } else {
            (
                RouterView {
                    boxes: next.boxes.insert(
                        next.next,
                        first_mailbox(route.projection.thread_started, thread_id),
                    ),
                    homes: next.homes.push(HomeView { id: next.next, thread_id, kept: None }),
                    next: (next.next + 1) as u64,
                    ..with_route(
                        next,
                        thread_id,
                        RouteView { subscribers: route.subscribers.push(next.next), ..route },
                    )
                },
                Some(next.next),
            )
        }
    }
}

/// The subscribers without one of them.
pub open spec fn others(subscribers: Seq<u64>, id: u64) -> Seq<u64> {
    subscribers.filter(|other: u64| other != id)
}

/// The router without a subscription.
pub open spec fn unsubscribed(router: RouterView, id: u64, thread_id: Seq<char>) -> RouterView {
    let next = if has_key(router.routes, thread_id) {
        let route = route_of(router, thread_id);
        with_route(
            router,
            thread_id,
            RouteView { subscribers: others(route.subscribers, id), ..route },
        )
    } else {
        router
    };
    RouterView {
        boxes: next.boxes.remove(id),
        homes: without_home(next.homes, id),
        ..next
    }
}

/// The router after a turn start is awaited, and whether it may be: one at a
/// time for each thread.
pub open spec fn turn_start_begun(router: RouterView, thread_id: Seq<char>, attempt: u64) -> (
    RouterView,
    bool,
) {
    let (next, accepted) = admitted(router, thread_id);
    let route = route_of(next, thread_id);
    if !accepted || route.pending is Some {
        (next, false)
    } else {
        (
            with_route(
                next,
                thread_id,
                RouteView { pending: Some(attempt), deferring: true, ..route },
            ),
            true,
        )
    }
}

/// Whether a thread may be released: nobody subscribed, no turn is active or
/// awaited, nothing waits.
pub open spec fn releasable(router: RouterView, thread_id: Seq<char>) -> bool {
    has_key(router.routes, thread_id) && ({
        let route = route_of(router, thread_id);
        route.subscribers.len() == 0 && route.pending is None && !route.deferring
            && route.deferred.len() == 0 && route.projection.active_turns.len() == 0
    })
}

/// The router after a request to release a thread, and whether it was
/// released.
pub open spec fn released(router: RouterView, thread_id: Seq<char>) -> (RouterView, bool) {
    let clean = pruned(router);
    if releasable(clean, thread_id) {
        (
            RouterView {
                routes: unbind(clean.routes, thread_id),
                homes: detached(
                    clean.homes,
                    thread_id,
                    route_of(clean, thread_id).projection,
                ),
                ..clean
            },
            true,
        )
    } else {
        (clean, false)
    }
}

/// The mailboxes after every subscription of some threads ended.
pub open spec fn routes_ended(
    boxes: Map<u64, MailboxView>,
    routes: Seq<(Seq<char>, RouteView)>,
    exit: TransportExit,
) -> Map<u64, MailboxView>
    decreases routes.len(),
{
    if routes.len() == 0 {
        boxes
    } else {
        all_ended(
            routes_ended(boxes, routes.drop_last(), exit),
            routes.last().1.subscribers,
            exit,
            routes.last().0,
        )
    }
}

/// The homes once all routes are gone.
pub open spec fn all_detached(homes: Seq<HomeView>, routes: Seq<(Seq<char>, RouteView)>) -> Seq<
    HomeView,
>
    decreases routes.len(),
{
    if routes.len() == 0 {
        homes
    } else {
        all_detached(
            detached(homes, routes.last().0, routes.last().1.projection),
            routes.drop_last(),
        )
    }
}

/// The router after the connection closed: every subscription is ended, and
/// keeps what its route knew.
pub open spec fn connection_closed(router: RouterView, exit: TransportExit) -> RouterView {
    RouterView {
        routes: Seq::empty(),
        homes: all_detached(router.homes, router.routes),
        boxes: routes_ended(router.boxes, router.routes, exit),
        ..router
    }
}

/// A request to the router. `listening` says that the requester still waits
/// for the answer.
pub enum RouterCommand {
    Subscribe { thread_id: ThreadId, listening: bool },
    Unsubscribe { id: u64, thread_id: ThreadId },
    ObserveTurnStarted { thread_id: ThreadId, attempt: u64, turn: Turn },
    BeginTurnStart { thread_id: ThreadId, attempt: u64, listening: bool },
    AbortTurnStart { thread_id: ThreadId, attempt: u64 },
    ObserveThreadStarted { thread_id: ThreadId },
    EnsureRoute { thread_id: ThreadId },
    ReleaseRoute { thread_id: ThreadId },
}

/// The answer to a request.
pub enum RouterReply {
    Subscribed(Option<u64>),
    Accepted(bool),
    Turn(Option<Turn>),
    Nothing,
}

/// Content of an answer.
pub enum ReplyView {
    Subscribed(Option<u64>),
    Accepted(bool),
    Turn(Option<TurnView>),
    Nothing,
}

impl View for RouterReply {
    type V = ReplyView;

    open spec fn view(&self) -> ReplyView {
        match *self {
            RouterReply::Subscribed(id) => ReplyView::Subscribed(id),
            RouterReply::Accepted(accepted) => ReplyView::Accepted(accepted),
            RouterReply::Turn(turn) => ReplyView::Turn(
                match turn {
                    Some(turn) => Some(turn@),
                    None => None,
                },
            ),
            RouterReply::Nothing => ReplyView::Nothing,
        }
    }
}

/// The router after a request, its answer, and whether the connection stays
/// open.
pub open spec fn commanded(router: RouterView, command: RouterCommand) -> (
    RouterView,
    ReplyView,
    bool,
) {
    match command {
        RouterCommand::Subscribe { thread_id, listening } => {
            let (next, id) = subscribed(router, thread_id@);
            match id {
                Some(held) => (
                    if listening {
                        next
                    } else {
                        unsubscribed(next, held, thread_id@)
                    },
                    ReplyView::Subscribed(id),
                    true,
                ),
                None => (next, ReplyView::Subscribed(id), true),
            }
        },
        RouterCommand::Unsubscribe { id, thread_id } => (
            unsubscribed(router, id, thread_id@),
            ReplyView::Nothing,
            true,
        ),
        RouterCommand::ObserveTurnStarted { thread_id, attempt, turn } => {
            let (mid, accepted) = turn_started(router, thread_id@, turn@);
            let (next, open) = turn_start_finished(mid, thread_id@, attempt);
            (
                next,
                ReplyView::Turn(
                    if accepted {
                        Some(turn@)
                    } else {
                        None
                    },
                ),
                open,
            )
        },
        RouterCommand::BeginTurnStart { thread_id, attempt, listening } => {
            let (mid, accepted) = turn_start_begun(router, thread_id@, attempt);
            if accepted && !listening {
                let (next, open) = turn_start_finished(mid, thread_id@, attempt);
                (next, ReplyView::Accepted(true), open)
            } else {
                (mid, ReplyView::Accepted(accepted), true)
            }
        },
        RouterCommand::AbortTurnStart { thread_id, attempt } => {
            let (next, open) = turn_start_finished(router, thread_id@, attempt);
            (next, ReplyView::Nothing, open)
        },
        RouterCommand::ObserveThreadStarted { thread_id } => {
            let (next, accepted) = thread_started(router, thread_id@);
            (next, ReplyView::Accepted(accepted), true)
        },
        RouterCommand::EnsureRoute { thread_id } => {
            let (next, accepted) = admitted(router, thread_id@);
            (next, ReplyView::Accepted(accepted), true)
        },
        RouterCommand::ReleaseRoute { thread_id } => {
            let (next, done) = released(router, thread_id@);
            (next, ReplyView::Accepted(done), true)
        },
    }
}

proof fn lemma_filter_distinct(items: Seq<u64>, keep: spec_fn(u64) -> bool)
    requires
        items.no_duplicates(),
    ensures
        items.filter(keep).no_duplicates(),
        items.filter(keep).len() <= items.len(),
{
    crate::codex::projection::lemma_filter_distinct(items, keep);
    items.lemma_filter_len(keep);
}

proof fn lemma_others_distinct(subscribers: Seq<u64>, id: u64)
    requires
        subscribers.no_duplicates(),
    ensures
        others(subscribers, id).no_duplicates(),
        others(subscribers, id).len() <= subscribers.len(),
        forall|k: int|
            0 <= k < others(subscribers, id).len() ==> subscribers.contains(
                #[trigger] others(subscribers, id)[k],
            ),
    decreases subscribers.len(),
{
    reveal(Seq::filter);
    if subscribers.len() > 0 {
        let head = subscribers.drop_last();
        lemma_others_distinct(head, id);
        let kept = others(head, id);
        assert forall|k: int| 0 <= k < kept.len() implies subscribers.contains(
            #[trigger] kept[k],
        ) && kept[k] != subscribers.last() by {
            assert(head.contains(kept[k]));
            let place = choose|place: int| 0 <= place < head.len() && head[place] == kept[k];
            assert(subscribers[place] == kept[k]);
        }
        assert(subscribers[subscribers.len() - 1] == subscribers.last());
    }
}

proof fn lemma_first_idle(routes: Seq<(Seq<char>, RouteView)>, at: int)
    requires
        0 <= at <= routes.len(),
        forall|k: int| 0 <= k < at ==> !idle((#[trigger] routes[k]).1),
        at < routes.len() ==> idle(routes[at].1),
    ensures
        first_idle(routes) == if at < routes.len() {
            Some(at)
        } else {
            None
        },
    decreases routes.len(),
{
    if routes.len() > 0 {
        let head = routes.drop_last();
        if at < routes.len() - 1 {
            lemma_first_idle(head, at);
        } else {
            lemma_first_idle(head, head.len() as int);
        }
    }
}

/// Tracks threads, their subscriptions and the control events that wait.
pub struct Router {
    routes: Keyed<ThreadRoute>,
    homes: Homes,
    mailboxes: Mailboxes,
    control: Vec<ControlEvent>,
    next_subscription: u64,
}

impl View for Router {
    type V = RouterView;

    closed spec fn view(&self) -> RouterView {
        RouterView {
            routes: self.routes@,
            homes: self.homes@,
            boxes: self.mailboxes@,
            control: self.control@.map_values(|event: ControlEvent| event@),
            next: self.next_subscription,
        }
    }
}

/// Whether a router keeps its bounds.
pub open spec fn router_bounded(router: RouterView) -> bool {
    &&& unique_keys(router.routes)
    &&& router.routes.len() <= CLIENT_PROJECTION_CAPACITY
    &&& router.control.len() <= CLIENT_CONTROL_CAPACITY
    &&& forall|k: int| 0 <= k < router.routes.len() ==> route_bounded((#[trigger] router.routes[k]).1)
    &&& forall|id: u64| #[trigger] router.boxes.dom().contains(id) ==> id < router.next
            && crate::codex::mailbox::within_bounds(router.boxes[id].events)
}

impl Router {
    spec fn routes_wf(&self) -> bool {
        &&& unique_keys(self.routes@)
        &&& self.routes@.len() <= CLIENT_PROJECTION_CAPACITY
        &&& forall|k: int|
            0 <= k < self.routes.values().len() ==> (#[trigger] self.routes.values()[k]).wf()
    }

    /// Every part is well formed and subscription numbers are not reused.
    pub closed spec fn wf(&self) -> bool {
        &&& self.routes_wf()
        &&& self.homes.wf()
        &&& self.mailboxes.wf()
        &&& self.control@.len() <= CLIENT_CONTROL_CAPACITY
        &&& forall|id: u64| #[trigger]
            self.mailboxes@.dom().contains(id) ==> id < self.next_subscription
    }

    /// A router is never over its bounds.
    pub proof fn lemma_bounded(&self)
        requires
            self.wf(),
        ensures
            router_bounded(self@),
    {
        self.routes.lemma_values();
        assert forall|k: int| 0 <= k < self@.routes.len() implies route_bounded(
            (#[trigger] self@.routes[k]).1,
        ) by {
            self.routes.values()[k].lemma_bounded();
        }
        assert forall|id: u64| #[trigger] self@.boxes.dom().contains(id) implies id < self@.next
            && crate::codex::mailbox::within_bounds(self@.boxes[id].events) by {
            self.mailboxes.lemma_within_bounds(id);
        }
    }

    /// A router that tracks nothing.
    pub fn new() -> (router: Router)
        ensures
            router.wf(),
            router@ == (RouterView {
                routes: Seq::empty(),
                homes: Seq::empty(),
                boxes: Map::empty(),
                control: Seq::empty(),
                next: 1,
            }),
    {
        let router = Router {
            routes: Keyed::new(),
            homes: Homes::new(),
            mailboxes: Mailboxes::new(),
            control: Vec::new(),
            next_subscription: 1,
        };
        proof {
            assert(router@.control =~= Seq::empty());
        }
        router
    }

    /// Takes the control events that wait, oldest first.
    pub fn take_control(&mut self) -> (events: Vec<ControlEvent>)
        requires
            old(self).wf(),
        ensures
            final(self).wf(),
            events@.map_values(|event: ControlEvent| event@) == old(self)@.control,
            final(self)@ == (RouterView { control: Seq::empty(), ..old(self)@ }),
    {
        let mut events: Vec<ControlEvent> = Vec::new();
        events.append(&mut self.control);
        proof {
            assert(events@ =~= old(self).control@);
            assert(self@.control =~= Seq::empty());
        }
        events
    }

    fn report(&mut self, event: ControlEvent) -> (accepted: bool)
        requires
            old(self).wf(),
        ensures
            final(self).wf(),
            final(self)@ == reported(old(self)@, event@),
            accepted == (old(self)@.control.len() < CLIENT_CONTROL_CAPACITY),
    {
        if self.control.len() < CLIENT_CONTROL_CAPACITY {
            self.control.push(event);
            proof {
                assert(self@.control =~= old(self)@.control.push(event@));
            }
            true
        } else {
            false
        }
    }

    /// The place `at` is that of the thread.
    spec fn stands(&self, at: usize, thread_id: Seq<char>) -> bool {
        at < self.routes@.len() && self.routes@[at as int].0 == thread_id
    }

    proof fn lemma_stands(&self, at: usize, thread_id: Seq<char>)
        requires
            self.wf(),
            self.stands(at, thread_id),
        ensures
            has_key(self@.routes, thread_id),
            key_index(self@.routes, thread_id) == at,
            self.routes.values().len() == self.routes@.len(),
            self.routes.values()[at as int].wf(),
            self.routes.values()[at as int]@ == route_of(self@, thread_id),
            route_bounded(route_of(self@, thread_id)),
    {
        lemma_key_index(self.routes@, at as int);
        self.routes.lemma_values();
        self.routes.values()[at as int].lemma_bounded();
    }

    fn prune_subscribers(&mut self)
        requires
            old(self).wf(),
        ensures
            final(self).wf(),
            final(self)@ == pruned(old(self)@),
    {
        let ghost before = self.routes@;
        let ghost boxes = self.mailboxes@;
        let mut at: usize = 0;
        while at < self.routes.len()
            invariant
                self.wf(),
                boxes == self.mailboxes@,
                self@ == (RouterView { routes: self.routes@, ..old(self)@ }),
                before == old(self)@.routes,
                boxes == old(self)@.boxes,
                self.routes@.len() == before.len(),
                at <= before.len(),
                forall|k: int|
                    0 <= k < at ==> (#[trigger] self.routes@[k]) == (
                        before[k].0,
                        pruned_route(boxes, before[k].1),
                    ),
                forall|k: int| at <= k < before.len() ==> (#[trigger] self.routes@[k]) == before[k],
            decreases before.len() - at,
        {
            let ghost held = *self;
            proof {
                self.routes.lemma_values();
                self.routes.values()[at as int].lemma_bounded();
            }
            let kept = self.mailboxes.live_of(&self.routes.value_at(at).subscribers);
            let route = self.routes.value_mut(at);
            route.subscribers = kept;
            proof {
                let subscribers = held.routes@[at as int].1.subscribers;
                lemma_filter_distinct(
                    subscribers,
                    |id: u64| crate::codex::subscriptions::takes_events(boxes, id),
                );
                assert(route@ == pruned_route(boxes, held.routes@[at as int].1));
                assert(route.wf());
            }
            proof {
                assert forall|i: int, j: int| 0 <= i < j < self.routes@.len() implies (
                #[trigger] self.routes@[i]).0 != (#[trigger] self.routes@[j]).0 by {
                    assert(held.routes@[i].0 != held.routes@[j].0);
                }
            }
            at += 1;
        }
        proof {
            assert(self@.routes =~= pruned(old(self)@).routes);
        }
    }

    fn idle_place(&self) -> (place: Option<usize>)
        requires
            self.wf(),
        ensures
            match place {
                Some(at) => first_idle(self@.routes) == Some(at as int) && at < self@.routes.len(),
                None => first_idle(self@.routes) is None,
            },
    {
        let mut at: usize = 0;
        while at < self.routes.len()
            invariant
                at <= self.routes@.len(),
                forall|k: int| 0 <= k < at ==> !idle((#[trigger] self.routes@[k]).1),
            decreases self.routes@.len() - at,
        {
            if self.routes.value_at(at).is_idle() {
                proof {
                    lemma_first_idle(self.routes@, at as int);
                }
                return Some(at);
            }
            at += 1;
        }
        proof {
            lemma_first_idle(self.routes@, at as int);
        }
        None
    }

    /// Finds or makes the route of a thread that may be updated.
    fn route_for_update(&mut self, thread_id: &ThreadId) -> (place: Option<usize>)
        requires
            old(self).wf(),
        ensures
            final(self).wf(),
            (final(self)@, place is Some) == admitted(old(self)@, thread_id@),
            place matches Some(at) ==> final(self).stands(at, thread_id@),
            place matches Some(at) ==> forall|id: u64| #[trigger]
                final(self)@.routes[at as int].1.subscribers.contains(id)
                    ==> final(self)@.boxes.dom().contains(id),
    {
        if !thread_id.is_valid() {
            return None;
        }
        self.prune_subscribers();
        let ghost mid = *self;
        if let Some(at) = self.routes.position(thread_id.as_str()) {
            proof {
                self.lemma_stands(at, thread_id@);
            }
            if self.routes.value_at(at).projection.is_invalidated() {
                return None;
            }
            proof {
                let everyone = old(self)@.routes[at as int].1.subscribers;
                let open = |id: u64|
                    crate::codex::subscriptions::takes_events(self@.boxes, id);
                assert(self@.routes[at as int].1.subscribers == everyone.filter(open));
                assert forall|id: u64| #[trigger]
                    self@.routes[at as int].1.subscribers.contains(
                        id,
                    ) implies self@.boxes.dom().contains(id) by {
                    let kept = everyone.filter(open);
                    let k = choose|k: int| 0 <= k < kept.len() && kept[k] == id;
                    everyone.lemma_filter_pred(open, k);
                }
            }
            return Some(at);
        }
        if self.routes.len() >= CLIENT_PROJECTION_CAPACITY {
            let evictable: usize = match self.idle_place() {
                Some(at) => at,
                None => {
                    return None;
                },
            };
            let evicted = self.routes.key_at(evictable).to_owned();
            let route = self.routes.remove_at(evictable);
            proof {
                mid.routes.lemma_values();
                assert(route.wf());
            }
            self.homes.detach(evicted.as_str(), route.projection);
            proof {
                let rest = self.routes@;
                assert forall|k: int| 0 <= k < rest.len() implies #[trigger] rest[k]
                    == mid.routes@[if k < evictable {
                    k
                } else {
                    k + 1
                }] by {}
                assert forall|i: int, j: int| 0 <= i < j < rest.len() implies (
                #[trigger] rest[i]).0 != (#[trigger] rest[j]).0 by {
                    let from_i = if i < evictable {
                        i
                    } else {
                        i + 1
                    };
                    let from_j = if j < evictable {
                        j
                    } else {
                        j + 1
                    };
                    assert(mid.routes@[from_i].0 != mid.routes@[from_j].0);
                }
                assert(!has_key(rest, thread_id@)) by {
                    if has_key(rest, thread_id@) {
                        let at = key_index(rest, thread_id@);
                        assert(rest[at].0 == thread_id@);
                        let from = if at < evictable {
                            at
                        } else {
                            at + 1
                        };
                        assert(mid.routes@[from].0 == thread_id@);
                    }
                }
                assert forall|k: int| 0 <= k < self.routes.values().len() implies (
                #[trigger] self.routes.values()[k]).wf() by {
                    assert(self.routes.values()[k] == mid.routes.values()[if k < evictable {
                        k
                    } else {
                        k + 1
                    }]);
                }
            }
        }
        let at: usize = self.routes.len();
        let ghost held = *self;
        self.routes.set(thread_id.as_str(), ThreadRoute::new());
        proof {
            held.routes.lemma_values();
            self.routes.lemma_values();
            assert forall|k: int| 0 <= k < self.routes.values().len() implies (
            #[trigger] self.routes.values()[k]).wf() by {
                if k < at {
                    assert(self.routes.values()[k] == held.routes.values()[k]);
                }
            }
        }
        Some(at)
    }

    /// Puts another subscriber list on a route.
    fn set_subscribers(&mut self, at: usize, thread_id: &ThreadId, subscribers: Vec<u64>)
        requires
            old(self).wf(),
            old(self).stands(at, thread_id@),
            subscribers@.no_duplicates(),
            subscribers@.len() <= THREAD_SUBSCRIBER_CAPACITY,
        ensures
            final(self).wf(),
            final(self).stands(at, thread_id@),
            final(self)@ == with_route(
                old(self)@,
                thread_id@,
                RouteView {
                    subscribers: subscribers@,
                    ..route_of(old(self)@, thread_id@)
                },
            ),
    {
        proof {
            self.lemma_stands(at, thread_id@);
        }
        let ghost held = *self;
        let route = self.routes.value_mut(at);
        route.subscribers = subscribers;
        proof {
            assert(route.wf());
            assert(route@ == (RouteView {
                subscribers: subscribers@,
                ..route_of(held@, thread_id@)
            }));
            lemma_bind_unique(held.routes@, thread_id@, route@);
        }
    }

    fn invalidate_route(
        &mut self,
        at: usize,
        thread_id: &ThreadId,
        reason: SubscriptionInvalidation,
    )
        requires
            old(self).wf(),
            old(self).stands(at, thread_id@),
        ensures
            final(self).wf(),
            final(self).stands(at, thread_id@),
            final(self)@ == route_invalidated(old(self)@, thread_id@, reason),
    {
        proof {
            self.lemma_stands(at, thread_id@);
        }
        let ghost held = *self;
        self.mailboxes.invalidate_all(&self.routes.value_at(at).subscribers, thread_id, reason);
        let route = self.routes.value_mut(at);
        route.projection.invalidate(reason);
        route.subscribers = Vec::new();
        proof {
            route.projection.lemma_bounded();
            assert(route@.subscribers =~= Seq::empty());
            assert(route.wf());
            assert(route@ == (RouteView {
                subscribers: Seq::empty(),
                projection: projection_invalidated(
                    route_of(held@, thread_id@).projection,
                    reason,
                ),
                ..route_of(held@, thread_id@)
            }));
            lemma_bind_unique(held.routes@, thread_id@, route@);
        }
        proof {
            assert(self.mailboxes@.dom() =~= held.mailboxes@.dom());
        }
    }

    fn announce(&mut self, at: usize, thread_id: &ThreadId, event: &AppServerEvent)
        requires
            old(self).wf(),
            old(self).stands(at, thread_id@),
        ensures
            final(self).wf(),
            final(self).stands(at, thread_id@),
            final(self)@ == announced(old(self)@, thread_id@, event@),
    {
        proof {
            self.lemma_stands(at, thread_id@);
        }
        let ghost held = *self;
        let kept = self.mailboxes.send_terminal(
            &self.routes.value_at(at).subscribers,
            event,
            thread_id,
        );
        proof {
            assert(self.mailboxes@.dom() =~= held.mailboxes@.dom());
            lemma_filter_distinct(
                route_of(held@, thread_id@).subscribers,
                |id: u64|
                    crate::codex::subscriptions::takes_events(held.mailboxes@, id)
                        && terminal_pushed(held.mailboxes@[id], event@) is Some,
            );
        }
        self.set_subscribers(at, thread_id, kept);
    }

    fn whisper(&mut self, at: usize, thread_id: &ThreadId, event: &AppServerEvent)
        requires
            old(self).wf(),
            old(self).stands(at, thread_id@),
        ensures
            final(self).wf(),
            final(self).stands(at, thread_id@),
            final(self)@ == whispered(old(self)@, thread_id@, event@),
    {
        proof {
            self.lemma_stands(at, thread_id@);
        }
        let ghost held = *self;
        let kept = self.mailboxes.send_lossy(&self.routes.value_at(at).subscribers, event);
        proof {
            assert(self.mailboxes@.dom() =~= held.mailboxes@.dom());
            lemma_filter_distinct(
                route_of(held@, thread_id@).subscribers,
                |id: u64| crate::codex::subscriptions::takes_events(held.mailboxes@, id),
            );
        }
        self.set_subscribers(at, thread_id, kept);
    }

    /// Tells subscribers what a report about a thread leads to.
    fn tell(
        &mut self,
        at: usize,
        thread_id: &ThreadId,
        effect: Effect,
        event: &AppServerEvent,
        terminal: bool,
    )
        requires
            old(self).wf(),
            old(self).stands(at, thread_id@),
        ensures
            final(self).wf(),
            final(self).stands(at, thread_id@),
            final(self)@ == noted(
                old(self)@,
                thread_id@,
                (route_of(old(self)@, thread_id@).projection, effect),
                event@,
                terminal,
            ),
    {
        proof {
            self.lemma_stands(at, thread_id@);
            lemma_same_route(self@, thread_id@);
        }
        match effect {
            Effect::Quiet => {},
            Effect::Announce => {
                if terminal {
                    self.announce(at, thread_id, event);
                } else {
                    self.whisper(at, thread_id, event);
                }
            },
            Effect::Drift => {
                self.invalidate_route(at, thread_id, SubscriptionInvalidation::ProtocolDrift);
            },
        }
    }

    /// Takes note that a thread started.
    pub fn route_thread_started(&mut self, thread_id: &ThreadId) -> (accepted: bool)
        requires
            old(self).wf(),
        ensures
            final(self).wf(),
            (final(self)@, accepted) == thread_started(old(self)@, thread_id@),
    {
        let at: usize = match self.route_for_update(thread_id) {
            Some(at) => at,
            None => {
                return false;
            },
        };
        proof {
            self.lemma_stands(at, thread_id@);
        }
        let ghost held = *self;
        let route = self.routes.value_mut(at);
        let effect = route.projection.note_thread_started();
        proof {
            route.projection.lemma_bounded();
            assert(route.wf());
            lemma_bind_unique(held.routes@, thread_id@, route@);
            assert(route@ == (RouteView {
                projection: route@.projection,
                ..route_of(held@, thread_id@)
            }));
            lemma_noted(held@, thread_id@, route@.projection);
        }
        let event = AppServerEvent::ThreadStarted { thread_id: thread_id.clone() };
        self.tell(at, thread_id, effect, &event, true);
        true
    }
    /// Takes note that a turn started.
    fn route_turn_started(&mut self, thread_id: &ThreadId, turn: Turn) -> (accepted: bool)
        requires
            old(self).wf(),
        ensures
            final(self).wf(),
            (final(self)@, accepted) == turn_started(old(self)@, thread_id@, turn@),
    {
        let at: usize = match self.route_for_update(thread_id) {
            Some(at) => at,
            None => {
                return false;
            },
        };
        proof {
            self.lemma_stands(at, thread_id@);
        }
        let ghost held = *self;
        let route = self.routes.value_mut(at);
        let effect = route.projection.note_turn_started(&TurnId::new(turn.id.clone()));
        proof {
            route.projection.lemma_bounded();
            assert(route.wf());
            lemma_bind_unique(held.routes@, thread_id@, route@);
            assert(route@ == (RouteView {
                projection: route@.projection,
                ..route_of(held@, thread_id@)
            }));
            lemma_noted(held@, thread_id@, route@.projection);
        }
        let event = AppServerEvent::TurnStarted { turn };
        self.tell(at, thread_id, effect, &event, true);
        !matches!(effect, Effect::Drift)
    }

    /// Takes note that an item started.
    fn route_item_started(&mut self, thread_id: &ThreadId, turn_id: TurnId, item: ThreadItem)
        requires
            old(self).wf(),
        ensures
            final(self).wf(),
            final(self)@ == item_started(old(self)@, thread_id@, turn_id@, item@),
    {
        let at: usize = match self.route_for_update(thread_id) {
            Some(at) => at,
            None => {
                return;
            },
        };
        proof {
            self.lemma_stands(at, thread_id@);
        }
        let ghost held = *self;
        let route = self.routes.value_mut(at);
        let effect = route.projection.note_item_started(&turn_id, &item.id);
        proof {
            route.projection.lemma_bounded();
            assert(route.wf());
            lemma_bind_unique(held.routes@, thread_id@, route@);
            assert(route@ == (RouteView {
                projection: route@.projection,
                ..route_of(held@, thread_id@)
            }));
            lemma_noted(held@, thread_id@, route@.projection);
        }
        let event = AppServerEvent::ItemStarted { turn_id, item };
        self.tell(at, thread_id, effect, &event, false);
    }

    /// Takes note that an item completed.
    fn route_item_completed(&mut self, thread_id: &ThreadId, turn_id: TurnId, item: ThreadItem) -> (routed: bool)
        requires
            old(self).wf(),
        ensures
            final(self).wf(),
            (final(self)@, routed) == item_completed(old(self)@, thread_id@, turn_id@, item@),
    {
        let at: usize = match self.route_for_update(thread_id) {
            Some(at) => at,
            None => {
                return false;
            },
        };
        proof {
            self.lemma_stands(at, thread_id@);
        }
        let ghost held = *self;
        let route = self.routes.value_mut(at);
        let effect = route.projection.note_item_completed(&turn_id, &item);
        proof {
            route.projection.lemma_bounded();
            assert(route.wf());
            lemma_bind_unique(held.routes@, thread_id@, route@);
            assert(route@ == (RouteView {
                projection: route@.projection,
                ..route_of(held@, thread_id@)
            }));
            lemma_noted(held@, thread_id@, route@.projection);
        }
        let event = AppServerEvent::ItemCompleted { turn_id, item };
        self.tell(at, thread_id, effect, &event, true);
        true
    }

    /// Takes note of token counts.
    fn route_usage(&mut self, thread_id: &ThreadId, turn_id: TurnId, usage: TokenUsageBreakdown)
        requires
            old(self).wf(),
        ensures
            final(self).wf(),
            final(self)@ == usage_updated(old(self)@, thread_id@, turn_id@, usage@),
    {
        let at: usize = match self.route_for_update(thread_id) {
            Some(at) => at,
            None => {
                return;
            },
        };
        proof {
            self.lemma_stands(at, thread_id@);
        }
        let ghost held = *self;
        let route = self.routes.value_mut(at);
        let effect = route.projection.note_usage(&turn_id, &usage);
        proof {
            route.projection.lemma_bounded();
            assert(route.wf());
            lemma_bind_unique(held.routes@, thread_id@, route@);
            assert(route@ == (RouteView {
                projection: route@.projection,
                ..route_of(held@, thread_id@)
            }));
            lemma_noted(held@, thread_id@, route@.projection);
        }
        let event = AppServerEvent::TokenUsageUpdated { turn_id, usage };
        self.tell(at, thread_id, effect, &event, false);
    }

    /// Takes note that a turn completed.
    fn route_turn_completed(&mut self, thread_id: &ThreadId, turn: Turn) -> (routed: bool)
        requires
            old(self).wf(),
        ensures
            final(self).wf(),
            (final(self)@, routed) == turn_completed(old(self)@, thread_id@, turn@),
    {
        let at: usize = match self.route_for_update(thread_id) {
            Some(at) => at,
            None => {
                return false;
            },
        };
        proof {
            self.lemma_stands(at, thread_id@);
        }
        let ghost held = *self;
        let route = self.routes.value_mut(at);
        let (effect, outcome) = route.projection.note_turn_completed(thread_id, turn);
        proof {
            route.projection.lemma_bounded();
            assert(route.wf());
            lemma_bind_unique(held.routes@, thread_id@, route@);
            assert(route@ == (RouteView {
                projection: route@.projection,
                ..route_of(held@, thread_id@)
            }));
            lemma_noted(held@, thread_id@, route@.projection);
        }
        match outcome {
            Some(outcome) => {
                let event = AppServerEvent::TurnCompleted(outcome);
                self.tell(at, thread_id, effect, &event, true);
            },
            None => {
                if matches!(effect, Effect::Drift) {
                    proof {
                        self.lemma_stands(at, thread_id@);
                        lemma_same_route(self@, thread_id@);
                    }
                    self.invalidate_route(at, thread_id, SubscriptionInvalidation::ProtocolDrift);
                }
            },
        }
        true
    }

    /// Takes note that a turn failed.
    fn route_error(
        &mut self,
        thread_id: &ThreadId,
        turn_id: TurnId,
        error: TurnError,
        will_retry: bool,
    ) -> (routed: bool)
        requires
            old(self).wf(),
        ensures
            final(self).wf(),
            (final(self)@, routed) == turn_failed(
                old(self)@,
                thread_id@,
                turn_id@,
                error@,
                will_retry,
            ),
    {
        let at: usize = match self.route_for_update(thread_id) {
            Some(at) => at,
            None => {
                return false;
            },
        };
        if text_bytes(turn_id.as_str()) > ROUTING_ID_BYTE_LIMIT {
            self.invalidate_route(at, thread_id, SubscriptionInvalidation::ProtocolDrift);
            return true;
        }
        let event = AppServerEvent::Error { turn_id, error, will_retry };
        self.announce(at, thread_id, &event);
        true
    }

    fn report_invalid_notification(
        &mut self,
        method: &str,
        authoritative: bool,
        thread_id: &Option<ThreadId>,
    )
        requires
            old(self).wf(),
        ensures
            final(self).wf(),
            final(self)@ == misread(
                old(self)@,
                method@,
                authoritative,
                thread_option(*thread_id),
            ),
    {
        if authoritative {
            if let Some(thread_id) = thread_id {
                if let Some(at) = self.routes.position(thread_id.as_str()) {
                    self.invalidate_route(at, thread_id, SubscriptionInvalidation::ProtocolDrift);
                }
            }
        }
        let _ = self.report(
            ControlEvent::InvalidNotification { method: bounded_method(method), authoritative },
        );
    }

    fn report_routing_capacity(&mut self)
        requires
            old(self).wf(),
        ensures
            final(self).wf(),
            final(self)@ == no_room(old(self)@),
    {
        let _ = self.report(
            ControlEvent::InvalidNotification {
                method: "routing-capacity".to_owned(),
                authoritative: true,
            },
        );
    }

    /// Passes an event that may be lost on, where the thread is tracked.
    fn dispatch(&mut self, thread_id: &ThreadId, event: &AppServerEvent)
        requires
            old(self).wf(),
        ensures
            final(self).wf(),
            final(self)@ == passed_on(old(self)@, thread_id@, event@),
    {
        if let Some(at) = self.routes.position(thread_id.as_str()) {
            self.whisper(at, thread_id, event);
        }
    }

    fn route_fragment(
        &mut self,
        method: &str,
        named: &Option<ThreadId>,
        params: Option<DeltaParams>,
        output: bool,
    )
        requires
            old(self).wf(),
        ensures
            final(self).wf(),
            final(self)@ == fragment_routed(
                old(self)@,
                method@,
                thread_option(*named),
                crate::codex::notification::delta_view(params),
                output,
            ),
    {
        match params {
            None => {
                self.report_invalid_notification(method, false, named);
            },
            Some(params) => {
                let thread_id = params.thread_id;
                if valid_routing_id(thread_id.as_str()) && valid_routing_id(params.turn_id.as_str())
                    && valid_routing_id(params.item_id.as_str()) {
                    let event = if output {
                        AppServerEvent::CommandOutputDelta {
                            turn_id: params.turn_id,
                            item_id: params.item_id,
                            delta: params.delta,
                        }
                    } else {
                        AppServerEvent::AgentMessageDelta {
                            turn_id: params.turn_id,
                            item_id: params.item_id,
                            delta: params.delta,
                        }
                    };
                    self.dispatch(&thread_id, &event);
                } else {
                    self.report_invalid_notification(method, false, &Some(thread_id));
                }
            },
        }
    }

    /// Interprets a notification that starts no turn.
    fn interpret(&mut self, notification: Notification) -> (open: bool)
        requires
            old(self).wf(),
            !(notification@.content is TurnStarted),
        ensures
            final(self).wf(),
            (final(self)@, open) == interpreted(old(self)@, notification@),
    {
        let named = extract_thread_id(&notification.params);
        match notification.content {
            Content::ThreadStarted(Some(thread_id)) => {
                let _ = self.route_thread_started(&thread_id);
                true
            },
            Content::ThreadStarted(None) => {
                self.report_invalid_notification("thread/started", false, &named);
                true
            },
            Content::TurnStarted(_) => true,
            Content::ItemStarted(Some(params)) => {
                self.route_item_started(&params.thread_id, params.turn_id, params.item);
                true
            },
            Content::ItemStarted(None) => {
                self.report_invalid_notification("item/started", false, &named);
                true
            },
            Content::AgentMessageDelta(params) => {
                self.route_fragment("item/agentMessage/delta", &named, params, false);
                true
            },
            Content::CommandOutputDelta(params) => {
                self.route_fragment("item/commandExecution/outputDelta", &named, params, true);
                true
            },
            Content::ItemCompleted(Some(params)) => {
                if !self.route_item_completed(&params.thread_id, params.turn_id, params.item) {
                    self.report_routing_capacity();
                    return false;
                }
                true
            },
            Content::ItemCompleted(None) => {
                self.report_invalid_notification("item/completed", true, &named);
                false
            },
            Content::TokenUsageUpdated(Some(params)) => {
                self.route_usage(&params.thread_id, params.turn_id, params.usage);
                true
            },
            Content::TokenUsageUpdated(None) => {
                self.report_invalid_notification("thread/tokenUsage/updated", false, &named);
                true
            },
            Content::Error(Some(params)) => {
                if !self.route_error(
                    &params.thread_id,
                    params.turn_id,
                    params.error,
                    params.will_retry,
                ) {
                    self.report_routing_capacity();
                    return false;
                }
                true
            },
            Content::Error(None) => {
                self.report_invalid_notification("error", true, &named);
                false
            },
            Content::TurnCompleted(Some(params)) => {
                if !self.route_turn_completed(&params.thread_id, params.turn) {
                    self.report_routing_capacity();
                    return false;
                }
                true
            },
            Content::TurnCompleted(None) => {
                self.report_invalid_notification("turn/completed", true, &named);
                false
            },
            Content::Other { method } => {
                if notification_kind(method.as_str()) != NotificationKind::Other {
                    self.report_invalid_notification(method.as_str(), true, &named);
                    return false;
                }
                let method = bounded_method(method.as_str());
                match named {
                    Some(thread_id) => {
                        self.dispatch(&thread_id, &AppServerEvent::Unknown { method });
                    },
                    None => {
                        let _ = self.report(ControlEvent::UnknownNotification { method });
                    },
                }
                true
            },
        }
    }

    /// Takes in a notification that starts no turn: it waits where its thread
    /// defers, and is interpreted otherwise.
    fn settle(&mut self, notification: Notification) -> (open: bool)
        requires
            old(self).wf(),
            !(notification@.content is TurnStarted),
        ensures
            final(self).wf(),
            (final(self)@, open) == settled(old(self)@, notification@),
    {
        proof {
            reveal(settled);
        }
        if let Some(thread_id) = extract_thread_id(&notification.params) {
            if let Some(at) = self.routes.position(thread_id.as_str()) {
                proof {
                    self.lemma_stands(at, thread_id@);
                }
                if self.routes.value_at(at).defer_turn_notifications {
                    return self.defer(at, &thread_id, notification);
                }
            }
        }
        self.interpret(notification)
    }

    fn defer(&mut self, at: usize, thread_id: &ThreadId, notification: Notification) -> (open: bool)
        requires
            old(self).wf(),
            old(self).stands(at, thread_id@),
            route_of(old(self)@, thread_id@).deferring,
            !(notification@.content is TurnStarted),
        ensures
            final(self).wf(),
            (final(self)@, open) == deferred(old(self)@, thread_id@, notification@),
    {
        proof {
            self.lemma_stands(at, thread_id@);
        }
        let ghost held = *self;
        let weight: usize = notification.weight();
        let route = self.routes.value_at(at);
        if route.deferred_notifications.len() >= THREAD_EVENT_CAPACITY
            || route.deferred_bytes.saturating_add(weight) > THREAD_MAILBOX_BYTE_BUDGET {
            self.invalidate_route(at, thread_id, SubscriptionInvalidation::Lagged);
            let held = notification.content.is_authoritative();
            let _ = self.report(
                ControlEvent::InvalidNotification {
                    method: bounded_method(notification.content.method()),
                    authoritative: held,
                },
            );
            return !held;
        }
        let route = self.routes.value_mut(at);
        route.deferred_bytes = route.deferred_bytes + weight;
        route.deferred_notifications.push(notification);
        proof {
            let before = route_of(held@, thread_id@);
            assert(route@.deferred =~= before.deferred.push(notification@));
            assert(route@.deferred.drop_last() =~= before.deferred);
            assert(route.wf());
            assert(route@ == (RouteView {
                deferred: before.deferred.push(notification@),
                ..before
            }));
            lemma_bind_unique(held.routes@, thread_id@, route@);
        }
        true
    }

    /// Ends deferral for a thread and takes in, in order, what waited.
    fn stop_deferring_notifications(&mut self, thread_id: &ThreadId) -> (open: bool)
        requires
            old(self).wf(),
        ensures
            final(self).wf(),
            (final(self)@, open) == resumed(old(self)@, thread_id@),
    {
        let at: usize = match self.routes.position(thread_id.as_str()) {
            Some(at) => at,
            None => {
                return true;
            },
        };
        proof {
            self.lemma_stands(at, thread_id@);
        }
        let ghost held = *self;
        let route = self.routes.value_mut(at);
        let mut waiting: Vec<Notification> = Vec::new();
        waiting.append(&mut route.deferred_notifications);
        route.defer_turn_notifications = false;
        route.deferred_bytes = 0;
        let ghost views = route_of(held@, thread_id@).deferred;
        proof {
            assert(route@.deferred =~= Seq::empty());
            assert(route.wf());
            assert(route@ == (RouteView {
                deferring: false,
                deferred: Seq::empty(),
                ..route_of(held@, thread_id@)
            }));
            lemma_bind_unique(held.routes@, thread_id@, route@);
            assert(waiting@.map_values(|notification: Notification| notification@) =~= views);
        }
        let ghost resumed_view = self@;
        let mut left: usize = waiting.len();
        proof {
            assert(views.subrange(0, views.len() as int) =~= views);
        }
        while left > 0
            invariant
                self.wf(),
                left == waiting@.len(),
                left <= views.len(),
                waiting@.map_values(|notification: Notification| notification@) == views.subrange(
                    views.len() - left,
                    views.len() as int,
                ),
                forall|k: int|
                    0 <= k < views.len() ==> !((#[trigger] views[k]).content is TurnStarted),
                replayed(self@, views.subrange(views.len() - left, views.len() as int))
                    == replayed(resumed_view, views),
                resumed(old(self)@, thread_id@) == replayed(resumed_view, views),
            decreases left,
        {
            let ghost rest = views.subrange(views.len() - left, views.len() as int);
            proof {
                assert(rest.first() == waiting@[0]@);
                assert(rest.first() == views[views.len() - left]);
                assert(rest.drop_first() =~= views.subrange(
                    views.len() - left + 1,
                    views.len() as int,
                ));
            }
            let notification = waiting.remove(0);
            left -= 1;
            proof {
                assert(waiting@.map_values(|notification: Notification| notification@)
                    =~= views.subrange(views.len() - left, views.len() as int));
            }
            if !self.settle(notification) {
                return false;
            }
        }
        true
    }

    /// Takes in one notification. `false` means that the connection must end.
    pub fn route_notification(&mut self, notification: Notification) -> (open: bool)
        requires
            old(self).wf(),
        ensures
            final(self).wf(),
            (final(self)@, open) == notified(old(self)@, notification@),
    {
        let named = extract_thread_id(&notification.params);
        let params = notification.params;
        let params_bytes: usize = notification.params_bytes;
        match notification.content {
            Content::TurnStarted(Some(start)) => {
                let thread_id = start.thread_id;
                let _ = self.route_turn_started(&thread_id, start.turn);
                self.stop_deferring_notifications(&thread_id)
            },
            Content::TurnStarted(None) => {
                self.report_invalid_notification("turn/started", false, &named);
                true
            },
            content => self.settle(Notification { params, params_bytes, content }),
        }
    }
    fn subscriber_total(&self) -> (total: usize)
        requires
            self.wf(),
        ensures
            total == crate::codex::types::saturated(subscriber_count(self@.routes)),
    {
        let mut total: usize = 0;
        let mut at: usize = 0;
        proof {
            assert(self.routes@.subrange(0, 0) =~= Seq::empty());
        }
        while at < self.routes.len()
            invariant
                at <= self.routes@.len(),
                0 <= subscriber_count(self.routes@.subrange(0, at as int)),
                total == crate::codex::types::saturated(
                    subscriber_count(self.routes@.subrange(0, at as int)),
                ),
            decreases self.routes@.len() - at,
        {
            proof {
                let next = self.routes@.subrange(0, at + 1);
                assert(next.drop_last() =~= self.routes@.subrange(0, at as int));
                assert(next.last() == self.routes@[at as int]);
            }
            total = total.saturating_add(self.routes.value_at(at).subscribers.len());
            at += 1;
        }
        proof {
            assert(self.routes@.subrange(0, at as int) =~= self.routes@);
        }
        total
    }

    /// Subscribes to a thread; the number names the mailbox to read from.
    pub fn subscribe(&mut self, thread_id: &ThreadId) -> (id: Option<u64>)
        requires
            old(self).wf(),
        ensures
            final(self).wf(),
            (final(self)@, id) == subscribed(old(self)@, thread_id@),
    {
        self.prune_subscribers();
        if self.subscriber_total() >= CLIENT_SUBSCRIBER_CAPACITY {
            return None;
        }
        let at: usize = match self.route_for_update(thread_id) {
            Some(at) => at,
            None => {
                return None;
            },
        };
        proof {
            self.lemma_stands(at, thread_id@);
        }
        let ghost held = *self;
        let id: u64 = self.next_subscription;
        if self.routes.value_at(at).subscribers.len() >= THREAD_SUBSCRIBER_CAPACITY || id
            == u64::MAX {
            return None;
        }
        let started = self.routes.value_at(at).projection.is_started();
        self.next_subscription = id + 1;
        self.mailboxes.open(id);
        if started {
            let mut newcomer: Vec<u64> = Vec::new();
            newcomer.push(id);
            let event = AppServerEvent::ThreadStarted { thread_id: thread_id.clone() };
            let ghost opened = self.mailboxes@;
            let _ = self.mailboxes.send_terminal(&newcomer, &event, thread_id);
            proof {
                lemma_first_event_fits(thread_id@);
                assert(newcomer@[0] == id);
                assert(self.mailboxes@ =~= held.mailboxes@.insert(
                    id,
                    first_mailbox(true, thread_id@),
                ));
            }
        } else {
            proof {
                assert(self.mailboxes@ =~= held.mailboxes@.insert(
                    id,
                    first_mailbox(false, thread_id@),
                ));
            }
        }
        self.homes.add(id, thread_id);
        let route = self.routes.value_mut(at);
        route.subscribers.push(id);
        proof {
            let before = route_of(held@, thread_id@);
            assert(!before.subscribers.contains(id));
            assert(route@.subscribers =~= before.subscribers.push(id));
            assert(route.wf());
            assert(route@ == (RouteView { subscribers: before.subscribers.push(id), ..before }));
            lemma_bind_unique(held.routes@, thread_id@, route@);
        }
        Some(id)
    }

    /// Ends a subscription and forgets what waits for it.
    pub fn unsubscribe(&mut self, id: u64, thread_id: &ThreadId)
        requires
            old(self).wf(),
        ensures
            final(self).wf(),
            final(self)@ == unsubscribed(old(self)@, id, thread_id@),
    {
        if let Some(at) = self.routes.position(thread_id.as_str()) {
            proof {
                self.lemma_stands(at, thread_id@);
            }
            let subscribers = &self.routes.value_at(at).subscribers;
            let ghost everyone = subscribers@;
            let mut kept: Vec<u64> = Vec::new();
            let mut place: usize = 0;
            proof {
                reveal(Seq::filter);
                assert(others(everyone.subrange(0, 0), id) =~= Seq::empty());
            }
            while place < subscribers.len()
                invariant
                    everyone == subscribers@,
                    place <= everyone.len(),
                    kept@ == others(everyone.subrange(0, place as int), id),
                decreases everyone.len() - place,
            {
                proof {
                    reveal(Seq::filter);
                    let next = everyone.subrange(0, place + 1);
                    assert(next.drop_last() =~= everyone.subrange(0, place as int));
                    assert(next.last() == everyone[place as int]);
                }
                if subscribers[place] != id {
                    kept.push(subscribers[place]);
                }
                place += 1;
            }
            proof {
                assert(everyone.subrange(0, place as int) =~= everyone);
                lemma_others_distinct(everyone, id);
            }
            self.set_subscribers(at, thread_id, kept);
        }
        self.mailboxes.forget(id);
        self.homes.forget(id);
    }

    /// Takes the oldest event of a subscription.
    pub fn recv(&mut self, id: u64) -> (received: Received)
        requires
            old(self).wf(),
        ensures
            final(self).wf(),
            final(self)@ == (RouterView { boxes: final(self)@.boxes, ..old(self)@ }),
            !old(self)@.boxes.dom().contains(id) ==> received is Closed && final(self)@
                == old(self)@,
            old(self)@.boxes.dom().contains(id) ==> ({
                let mailbox = old(self)@.boxes[id];
                match received {
                    Received::Event(event) => mailbox.events.len() > 0 && event@
                        == mailbox.events.first().event && final(self)@.boxes
                        == old(self)@.boxes.insert(
                        id,
                        MailboxView { events: mailbox.events.drop_first(), ..mailbox },
                    ),
                    Received::Closed => mailbox.events.len() == 0 && mailbox.closed && final(self)@
                        == old(self)@,
                    Received::Empty => mailbox.events.len() == 0 && !mailbox.closed && final(self)@
                        == old(self)@,
                }
            }),
    {
        self.mailboxes.recv(id)
    }

    /// The retained outcome of a turn, as a subscription can read it.
    pub fn outcome(&self, id: u64, turn_id: &TurnId) -> (outcome: Option<TurnOutcome>)
        requires
            self.wf(),
        ensures
            match subscription_outcome(self@, id, turn_id@) {
                Some(record) => outcome matches Some(held) && held@ == record.outcome,
                None => outcome is None,
            },
    {
        let home = match self.homes.find(id) {
            Some(home) => home,
            None => {
                return None;
            },
        };
        if let Some(projection) = &home.kept {
            return projection.outcome(turn_id);
        }
        match self.routes.position(home.thread_id.as_str()) {
            Some(at) => {
                proof {
                    self.lemma_stands(at, home.thread_id@);
                }
                self.routes.value_at(at).projection.outcome(turn_id)
            },
            None => None,
        }
    }

    /// Ends the wait for a turn start, where this attempt is the one awaited.
    fn finish_turn_start(&mut self, thread_id: &ThreadId, attempt: u64) -> (open: bool)
        requires
            old(self).wf(),
        ensures
            final(self).wf(),
            (final(self)@, open) == turn_start_finished(old(self)@, thread_id@, attempt),
    {
        let at: usize = match self.routes.position(thread_id.as_str()) {
            Some(at) => at,
            None => {
                return true;
            },
        };
        proof {
            self.lemma_stands(at, thread_id@);
        }
        let matching = match self.routes.value_at(at).pending_turn_start {
            Some(pending) => pending == attempt,
            None => false,
        };
        if !matching {
            return true;
        }
        let ghost held = *self;
        let route = self.routes.value_mut(at);
        route.pending_turn_start = None;
        proof {
            assert(route.wf());
            assert(route@ == (RouteView { pending: None, ..route_of(held@, thread_id@) }));
            lemma_bind_unique(held.routes@, thread_id@, route@);
        }
        self.stop_deferring_notifications(thread_id)
    }

    fn begin_turn_start(&mut self, thread_id: &ThreadId, attempt: u64) -> (accepted: bool)
        requires
            old(self).wf(),
        ensures
            final(self).wf(),
            (final(self)@, accepted) == turn_start_begun(old(self)@, thread_id@, attempt),
    {
        let at: usize = match self.route_for_update(thread_id) {
            Some(at) => at,
            None => {
                return false;
            },
        };
        proof {
            self.lemma_stands(at, thread_id@);
        }
        let ghost held = *self;
        if self.routes.value_at(at).pending_turn_start.is_some() {
            return false;
        }
        let route = self.routes.value_mut(at);
        route.pending_turn_start = Some(attempt);
        route.defer_turn_notifications = true;
        proof {
            assert(route.wf());
            assert(route@ == (RouteView {
                pending: Some(attempt),
                deferring: true,
                ..route_of(held@, thread_id@)
            }));
            lemma_bind_unique(held.routes@, thread_id@, route@);
        }
        true
    }

    fn release_route(&mut self, thread_id: &ThreadId) -> (done: bool)
        requires
            old(self).wf(),
        ensures
            final(self).wf(),
            (final(self)@, done) == released(old(self)@, thread_id@),
    {
        self.prune_subscribers();
        let at: usize = match self.routes.position(thread_id.as_str()) {
            Some(at) => at,
            None => {
                return false;
            },
        };
        proof {
            self.lemma_stands(at, thread_id@);
        }
        let route = self.routes.value_at(at);
        if route.subscribers.len() == 0 && route.pending_turn_start.is_none()
            && !route.defer_turn_notifications && route.deferred_notifications.len() == 0
            && route.projection.is_quiescent() {
            let ghost held = *self;
            let route = self.routes.remove_at(at);
            proof {
                held.routes.lemma_values();
                assert(route.wf());
            }
            self.homes.detach(thread_id.as_str(), route.projection);
            proof {
                lemma_bind_unique(held.routes@, thread_id@, held.routes@[at as int].1);
                assert forall|k: int| 0 <= k < self.routes.values().len() implies (
                #[trigger] self.routes.values()[k]).wf() by {
                    assert(self.routes.values()[k] == held.routes.values()[if k < at {
                        k
                    } else {
                        k + 1
                    }]);
                }
            }
            true
        } else {
            false
        }
    }

    /// Answers one request. The second part is `false` where the connection
    /// must end.
    pub fn handle_router_command(&mut self, command: RouterCommand) -> (answer: (RouterReply, bool))
        requires
            old(self).wf(),
        ensures
            final(self).wf(),
            (final(self)@, answer.0@, answer.1) == commanded(old(self)@, command),
    {
        match command {
            RouterCommand::Subscribe { thread_id, listening } => {
                let id = self.subscribe(&thread_id);
                if let Some(held) = id {
                    if !listening {
                        self.unsubscribe(held, &thread_id);
                    }
                }
                (RouterReply::Subscribed(id), true)
            },
            RouterCommand::Unsubscribe { id, thread_id } => {
                self.unsubscribe(id, &thread_id);
                (RouterReply::Nothing, true)
            },
            RouterCommand::ObserveTurnStarted { thread_id, attempt, turn } => {
                let copy = turn.duplicate();
                let accepted = self.route_turn_started(&thread_id, copy);
                let open = self.finish_turn_start(&thread_id, attempt);
                (
                    RouterReply::Turn(
                        if accepted {
                            Some(turn)
                        } else {
                            None
                        },
                    ),
                    open,
                )
            },
            RouterCommand::BeginTurnStart { thread_id, attempt, listening } => {
                let accepted = self.begin_turn_start(&thread_id, attempt);
                let open = if accepted && !listening {
                    self.finish_turn_start(&thread_id, attempt)
                } else {
                    true
                };
                (RouterReply::Accepted(accepted), open)
            },
            RouterCommand::AbortTurnStart { thread_id, attempt } => {
                let open = self.finish_turn_start(&thread_id, attempt);
                (RouterReply::Nothing, open)
            },
            RouterCommand::ObserveThreadStarted { thread_id } => {
                let accepted = self.route_thread_started(&thread_id);
                (RouterReply::Accepted(accepted), true)
            },
            RouterCommand::EnsureRoute { thread_id } => {
                let accepted = self.route_for_update(&thread_id).is_some();
                (RouterReply::Accepted(accepted), true)
            },
            RouterCommand::ReleaseRoute { thread_id } => {
                let done = self.release_route(&thread_id);
                (RouterReply::Accepted(done), true)
            },
        }
    }

    /// Ends every subscription; each is told why the connection closed.
    pub fn close_subscribers(&mut self, exit: TransportExit)
        requires
            old(self).wf(),
        ensures
            final(self).wf(),
            final(self)@ == connection_closed(old(self)@, exit),
    {
        let ghost boxes = self.mailboxes@;
        let ghost routes = self.routes@;
        let mut at: usize = 0;
        proof {
            assert(routes.subrange(0, 0) =~= Seq::empty());
        }
        while at < self.routes.len()
            invariant
                self.wf(),
                routes == self.routes@,
                self@ == (RouterView { boxes: self.mailboxes@, ..old(self)@ }),
                boxes == old(self)@.boxes,
                at <= routes.len(),
                self.mailboxes@ == routes_ended(boxes, routes.subrange(0, at as int), exit),
                self.mailboxes@.dom() == boxes.dom(),
            decreases routes.len() - at,
        {
            let ghost held = *self;
            proof {
                let next = routes.subrange(0, at + 1);
                assert(next.drop_last() =~= routes.subrange(0, at as int));
                assert(next.last() == routes[at as int]);
                self.routes.lemma_values();
                self.routes.values()[at as int].lemma_bounded();
            }
            let thread_id = ThreadId::new(self.routes.key_at(at).to_owned());
            self.mailboxes.end_all(&self.routes.value_at(at).subscribers, exit, &thread_id);
            proof {
                assert(self.mailboxes@.dom() =~= held.mailboxes@.dom());
            }
            at += 1;
        }
        proof {
            assert(routes.subrange(0, at as int) =~= routes);
        }
        let ghost homes = self.homes@;
        let ghost boxes = self.mailboxes@;
        while self.routes.len() > 0
            invariant
                self.wf(),
                self@ == (RouterView {
                    routes: self.routes@,
                    homes: self.homes@,
                    boxes,
                    ..old(self)@
                }),
                all_detached(self.homes@, self.routes@) == all_detached(homes, routes),
            decreases self.routes@.len(),
        {
            let ghost held = *self;
            let at: usize = self.routes.len() - 1;
            let thread_id = self.routes.key_at(at).to_owned();
            let route = self.routes.remove_at(at);
            proof {
                held.routes.lemma_values();
                assert(route.wf());
                assert(held.routes@.remove(at as int) =~= held.routes@.drop_last());
                assert(held.routes.values().remove(at as int) =~= held.routes.values().drop_last());
            }
            self.homes.detach(thread_id.as_str(), route.projection);
            proof {
                assert forall|i: int, j: int| 0 <= i < j < self.routes@.len() implies (
                #[trigger] self.routes@[i]).0 != (#[trigger] self.routes@[j]).0 by {
                    assert(held.routes@[i].0 != held.routes@[j].0);
                }
                assert forall|k: int| 0 <= k < self.routes.values().len() implies (
                #[trigger] self.routes.values()[k]).wf() by {
                    assert(self.routes.values()[k] == held.routes.values()[k]);
                }
            }
        }
        proof {
            assert(self.routes@ =~= Seq::empty());
        }
    }
}

proof fn lemma_first_event_fits(thread_id: Seq<char>)
    requires
        routable(thread_id),
    ensures
        terminal_pushed(
            MailboxView { events: Seq::empty(), closed: false },
            EventView::ThreadStarted { thread_id },
        ) == Some(first_mailbox(true, thread_id)),
{
    let empty: Seq<crate::codex::mailbox::QueuedView> = Seq::empty();
    assert(crate::codex::mailbox::count_kind(empty, true) == 0);
    assert(crate::codex::mailbox::total_bytes(empty) == 0);
    let event = EventView::ThreadStarted { thread_id };
    assert(empty.push(crate::codex::mailbox::QueuedView { terminal: true, event })
        =~= first_mailbox(true, thread_id).events);
}

proof fn lemma_same_route(router: RouterView, thread_id: Seq<char>)
    requires
        has_key(router.routes, thread_id),
    ensures
        with_route(router, thread_id, route_of(router, thread_id)) == router,
{
    let at = key_index(router.routes, thread_id);
    assert(router.routes[at].0 == thread_id);
    assert(bind(router.routes, thread_id, route_of(router, thread_id)) =~= router.routes);
}

/// Binding a route twice is binding it once.
proof fn lemma_noted(router: RouterView, thread_id: Seq<char>, projection: ProjectionView)
    requires
        unique_keys(router.routes),
        has_key(router.routes, thread_id),
    ensures
        ({
            let route = RouteView { projection, ..route_of(router, thread_id) };
            let next = with_route(router, thread_id, route);
            &&& route_of(next, thread_id) == route
            &&& forall|effect: Effect, event: EventView, terminal: bool| #[trigger]
                noted(next, thread_id, (projection, effect), event, terminal) == noted(
                    router,
                    thread_id,
                    (projection, effect),
                    event,
                    terminal,
                )
        }),
{
    let route = RouteView { projection, ..route_of(router, thread_id) };
    let next = with_route(router, thread_id, route);
    crate::keyed::lemma_bind_lookup(router.routes, thread_id, route, thread_id);
    lemma_bind_unique(router.routes, thread_id, route);
    lemma_same_route(next, thread_id);
}

/// Something that the router reacts to.
pub enum RouterInput {
    /// The client was cancelled, possibly because an operation failed closed.
    Cancelled { faulted: bool },
    Command(RouterCommand),
    CommandsClosed,
    Notification(Notification),
    /// A request of the server, with the lengths of its identifier and of its
    /// parameters.
    ServerRequest { token: u64, method: String, id_bytes: usize, params_bytes: usize },
    ProtocolDrift,
    TransportClosed,
    EventsClosed,
}

/// What the connection does next.
#[derive(Clone, Copy, Debug, PartialEq, Eq, Structural)]
pub enum RouterNext {
    Continue,
    /// The transport is shut down; the fault, if any, is the reason given.
    Stop { fault: Option<TransportExit> },
}

/// Bytes that a request of the server is taken to retain.
pub open spec fn request_weight(method: Seq<char>, id_bytes: int, params_bytes: int) -> int {
    saturated(256 + byte_len(method) + id_bytes + params_bytes)
}

/// Bytes that a request of the server is taken to retain.
pub fn server_request_memory_weight(method: &str, id_bytes: usize, params_bytes: usize) -> (weight:
    usize)
    ensures
        weight == request_weight(method@, id_bytes as int, params_bytes as int),
{
    256usize.saturating_add(text_bytes(method)).saturating_add(id_bytes).saturating_add(
        params_bytes,
    )
}

/// The permits that stand for a number of bytes: at least one, at most as
/// many as there can be.
pub open spec fn permits(bytes: int) -> int {
    if bytes < 1 {
        1
    } else if bytes > u32::MAX {
        u32::MAX as int
    } else {
        bytes
    }
}

/// The permits that stand for a number of bytes.
pub fn byte_permits(bytes: usize) -> (held: u32)
    ensures
        held == permits(bytes as int),
{
    if bytes < 1 {
        1
    } else if bytes > 0xffff_ffff {
        u32::MAX
    } else {
        bytes as u32
    }
}

/// Whether a request of the server may wait for the consumer of control
/// events: it is small enough, there are permits, and there is room.
pub open spec fn request_admissible(
    router: RouterView,
    weight: int,
    free_permits: int,
    consumer_gone: bool,
) -> bool {
    weight <= CLIENT_CONTROL_EVENT_BYTE_LIMIT && permits(weight) <= free_permits && !consumer_gone
        && router.control.len() < CLIENT_CONTROL_CAPACITY
}

/// The router after an input, its answer, what comes next, and the permits
/// that were taken.
pub open spec fn reacted(
    router: RouterView,
    input: RouterInput,
    free_permits: int,
    consumer_gone: bool,
) -> (RouterView, ReplyView, RouterNext, int) {
    match input {
        RouterInput::Cancelled { faulted } => (
            router,
            ReplyView::Nothing,
            RouterNext::Stop {
                fault: if faulted {
                    Some(TransportExit::TaskFailed)
                } else {
                    None
                },
            },
            0,
        ),
        RouterInput::Command(command) => {
            let (next, reply, open) = commanded(router, command);
            (
                next,
                reply,
                if open {
                    RouterNext::Continue
                } else {
                    RouterNext::Stop { fault: Some(TransportExit::TaskFailed) }
                },
                0,
            )
        },
        RouterInput::Notification(notification) => {
            let (next, open) = notified(router, notification@);
            (
                next,
                ReplyView::Nothing,
                if open {
                    RouterNext::Continue
                } else {
                    RouterNext::Stop { fault: Some(TransportExit::ProtocolViolation) }
                },
                0,
            )
        },
        RouterInput::ServerRequest { token, method, id_bytes, params_bytes } => {
            let weight = request_weight(method@, id_bytes as int, params_bytes as int);
            if request_admissible(router, weight, free_permits, consumer_gone) {
                (
                    reported(router, ControlView::ServerRequest { token, method: method@ }),
                    ReplyView::Nothing,
                    RouterNext::Continue,
                    permits(weight),
                )
            } else {
                (
                    router,
                    ReplyView::Nothing,
                    RouterNext::Stop { fault: Some(TransportExit::TaskFailed) },
                    0,
                )
            }
        },
        RouterInput::ProtocolDrift => if consumer_gone {
            (router, ReplyView::Nothing, RouterNext::Stop { fault: None }, 0)
        } else {
            (
                reported(router, ControlView::ProtocolDrift),
                ReplyView::Nothing,
                RouterNext::Continue,
                0,
            )
        },
        RouterInput::CommandsClosed | RouterInput::TransportClosed | RouterInput::EventsClosed => (
            router,
            ReplyView::Nothing,
            RouterNext::Stop { fault: None },
            0,
        ),
    }
}

impl Router {
    /// Reacts to one input, given the free permits for waiting requests and
    /// whether the consumer of control events is gone.
    pub fn react(&mut self, input: RouterInput, free_permits: usize, consumer_gone: bool) -> (step: (
        RouterReply,
        RouterNext,
        u32,
    ))
        requires
            old(self).wf(),
        ensures
            final(self).wf(),
            (final(self)@, step.0@, step.1, step.2 as int) == reacted(
                old(self)@,
                input,
                free_permits as int,
                consumer_gone,
            ),
    {
        match input {
            RouterInput::Cancelled { faulted } => {
                let fault = if faulted {
                    Some(TransportExit::TaskFailed)
                } else {
                    None
                };
                (RouterReply::Nothing, RouterNext::Stop { fault }, 0)
            },
            RouterInput::Command(command) => {
                let (reply, open) = self.handle_router_command(command);
                let next = if open {
                    RouterNext::Continue
                } else {
                    RouterNext::Stop { fault: Some(TransportExit::TaskFailed) }
                };
                (reply, next, 0)
            },
            RouterInput::Notification(notification) => {
                let next = if self.route_notification(notification) {
                    RouterNext::Continue
                } else {
                    RouterNext::Stop { fault: Some(TransportExit::ProtocolViolation) }
                };
                (RouterReply::Nothing, next, 0)
            },
            RouterInput::ServerRequest { token, method, id_bytes, params_bytes } => {
                let weight: usize = server_request_memory_weight(
                    method.as_str(),
                    id_bytes,
                    params_bytes,
                );
                let taken: u32 = byte_permits(weight);
                if weight <= CLIENT_CONTROL_EVENT_BYTE_LIMIT && taken as usize <= free_permits
                    && !consumer_gone && self.control.len() < CLIENT_CONTROL_CAPACITY {
                    let _ = self.report(ControlEvent::ServerRequest { token, method });
                    (RouterReply::Nothing, RouterNext::Continue, taken)
                } else {
                    (
                        RouterReply::Nothing,
                        RouterNext::Stop { fault: Some(TransportExit::TaskFailed) },
                        0,
                    )
                }
            },
            RouterInput::ProtocolDrift => {
                if consumer_gone {
                    (RouterReply::Nothing, RouterNext::Stop { fault: None }, 0)
                } else {
                    let _ = self.report(ControlEvent::ProtocolDrift);
                    (RouterReply::Nothing, RouterNext::Continue, 0)
                }
            },
            RouterInput::CommandsClosed => {
                (RouterReply::Nothing, RouterNext::Stop { fault: None }, 0)
            },
            RouterInput::TransportClosed => {
                (RouterReply::Nothing, RouterNext::Stop { fault: None }, 0)
            },
            RouterInput::EventsClosed => {
                (RouterReply::Nothing, RouterNext::Stop { fault: None }, 0)
            },
        }
    }

    /// Ends the router: the fault, where there was one, else the reason that
    /// the joined transport gave, is told to every subscription.
    pub fn finish(&mut self, fault: Option<TransportExit>, joined: TransportExit) -> (exit:
        TransportExit)
        requires
            old(self).wf(),
        ensures
            final(self).wf(),
            exit == (match fault {
                Some(fault) => fault,
                None => joined,
            }),
            final(self)@ == connection_closed(old(self)@, exit),
    {
        let exit = match fault {
            Some(fault) => fault,
            None => joined,
        };
        self.close_subscribers(exit);
        exit
    }
}

proof fn lemma_all_detached(
    homes: Seq<HomeView>,
    routes: Seq<(Seq<char>, RouteView)>,
    id: u64,
)
    requires
        unique_keys(routes),
    ensures
        home_of(all_detached(homes, routes), id) == match home_of(homes, id) {
            Some(home) => Some(
                if home.kept is None && has_key(routes, home.thread_id) {
                    HomeView {
                        kept: Some(value_of(routes, home.thread_id).projection),
                        ..home
                    }
                } else {
                    home
                },
            ),
            None => None,
        },
    decreases routes.len(),
{
    if routes.len() > 0 {
        let last = routes.len() - 1;
        let head = routes.drop_last();
        let (key, route) = routes.last();
        assert forall|i: int, j: int| 0 <= i < j < head.len() implies (#[trigger] head[i]).0 != (
        #[trigger] head[j]).0 by {
            assert(routes[i].0 != routes[j].0);
        }
        lemma_home_detached(homes, key, route.projection, id);
        lemma_all_detached(detached(homes, key, route.projection), head, id);
        lemma_key_index(routes, last);
        match home_of(homes, id) {
            Some(home) => {
                if has_key(head, home.thread_id) {
                    let at = key_index(head, home.thread_id);
                    assert(head[at].0 == home.thread_id);
                    assert(routes[at].0 != routes[last].0);
                    lemma_key_index(routes, at);
                    lemma_key_index(head, at);
                } else if has_key(routes, home.thread_id) {
                    let at = key_index(routes, home.thread_id);
                    assert(routes[at].0 == home.thread_id);
                    if at < last {
                        assert(head[at].0 == home.thread_id);
                    }
                }
            },
            None => {},
        }
    }
}

/// The end of the connection takes no outcome away: what a subscription can
/// read before it can read after it.
pub proof fn outcomes_survive_the_connection(
    router: RouterView,
    exit: TransportExit,
    id: u64,
    turn_id: Seq<char>,
)
    requires
        unique_keys(router.routes),
    ensures
        subscription_outcome(connection_closed(router, exit), id, turn_id) == subscription_outcome(
            router,
            id,
            turn_id,
        ),
{
    lemma_all_detached(router.homes, router.routes, id);
    let closed = connection_closed(router, exit);
    assert(forall|thread_id: Seq<char>| !has_key(closed.routes, thread_id));
}

/// Pruning changes no projection.
proof fn lemma_pruned_projection(router: RouterView, thread_id: Seq<char>)
    requires
        unique_keys(router.routes),
    ensures
        unique_keys(pruned(router).routes),
        has_key(pruned(router).routes, thread_id) == has_key(router.routes, thread_id),
        has_key(router.routes, thread_id) ==> route_of(pruned(router), thread_id).projection
            == route_of(router, thread_id).projection,
{
    let next = pruned(router);
    assert forall|i: int, j: int| 0 <= i < j < next.routes.len() implies (
    #[trigger] next.routes[i]).0 != (#[trigger] next.routes[j]).0 by {
        assert(router.routes[i].0 != router.routes[j].0);
    }
    if has_key(router.routes, thread_id) {
        let at = key_index(router.routes, thread_id);
        assert(router.routes[at].0 == thread_id);
        assert(next.routes[at].0 == thread_id);
        lemma_key_index(next.routes, at);
    }
    if has_key(next.routes, thread_id) {
        let at = key_index(next.routes, thread_id);
        assert(next.routes[at].0 == thread_id);
        assert(router.routes[at].0 == thread_id);
    }
}

/// The release of a thread takes no outcome away from a subscription that is
/// still held, and once its route is gone no later route changes what it reads.
pub proof fn outcomes_outlive_their_route(
    router: RouterView,
    thread_id: Seq<char>,
    id: u64,
    turn_id: Seq<char>,
    later: Seq<(Seq<char>, RouteView)>,
)
    requires
        unique_keys(router.routes),
    ensures
        subscription_outcome(released(router, thread_id).0, id, turn_id) == subscription_outcome(
            router,
            id,
            turn_id,
        ),
        home_of(router.homes, id) matches Some(home) && home.kept is Some ==> subscription_outcome(
            RouterView { routes: later, ..router },
            id,
            turn_id,
        ) == subscription_outcome(router, id, turn_id),
{
    let clean = pruned(router);
    lemma_pruned_projection(router, thread_id);
    match home_of(router.homes, id) {
        Some(home) => {
            lemma_pruned_projection(router, home.thread_id);
            if releasable(clean, thread_id) {
                lemma_home_detached(
                    clean.homes,
                    thread_id,
                    route_of(clean, thread_id).projection,
                    id,
                );
                lemma_unbind_lookup(clean.routes, thread_id, home.thread_id);
            }
        },
        None => {
            if releasable(clean, thread_id) {
                lemma_home_detached(
                    clean.homes,
                    thread_id,
                    route_of(clean, thread_id).projection,
                    id,
                );
            }
        },
    }
}

/// One more notification at the end is taken after all before it, unless one
/// of those ended the connection.
pub proof fn replay_takes_notifications_in_order(
    router: RouterView,
    earlier: Seq<NotificationView>,
    last: NotificationView,
)
    ensures
        replayed(router, earlier.push(last)) == ({
            let (next, open) = replayed(router, earlier);
            if open {
                settled(next, last)
            } else {
                (next, false)
            }
        }),
    decreases earlier.len(),
{
    let all = earlier.push(last);
    if earlier.len() == 0 {
        assert(all.first() == last);
        assert(all.drop_first() =~= Seq::empty());
        let (next, open) = settled(router, last);
        assert(replayed(next, all.drop_first()) == (next, true));
    } else {
        assert(all.first() == earlier.first());
        assert(all.drop_first() =~= earlier.drop_first().push(last));
        let (next, open) = settled(router, earlier.first());
        if open {
            replay_takes_notifications_in_order(next, earlier.drop_first(), last);
        }
    }
}

/// Deferral only delays: a notification that waits for a turn start is taken,
/// once the start is settled, exactly where it would come after those that
/// waited before it.
pub proof fn deferral_only_delays(
    router: RouterView,
    thread_id: Seq<char>,
    notification: NotificationView,
)
    requires
        unique_keys(router.routes),
        has_key(router.routes, thread_id),
        route_of(router, thread_id).deferred.len() < THREAD_EVENT_CAPACITY,
        deferred_bytes(route_of(router, thread_id).deferred) + notification_weight(notification)
            <= THREAD_MAILBOX_BYTE_BUDGET,
    ensures
        ({
            let (waiting, open) = deferred(router, thread_id, notification);
            let (before, ready) = resumed(router, thread_id);
            &&& open
            &&& resumed(waiting, thread_id) == if ready {
                settled(before, notification)
            } else {
                (before, false)
            }
        }),
{
    let route = route_of(router, thread_id);
    let (waiting, open) = deferred(router, thread_id, notification);
    let queued = RouteView { deferred: route.deferred.push(notification), ..route };
    crate::keyed::lemma_bind_lookup(router.routes, thread_id, queued, thread_id);
    lemma_bind_unique(router.routes, thread_id, queued);
    let empty = RouteView { deferring: false, deferred: Seq::empty(), ..route };
    let at = key_index(router.routes, thread_id);
    assert(router.routes[at].0 == thread_id);
    lemma_key_index(waiting.routes, at);
    assert(waiting.routes[at] == (thread_id, queued));
    assert(with_route(waiting, thread_id, empty).routes =~= with_route(
        router,
        thread_id,
        empty,
    ).routes);
    assert(with_route(waiting, thread_id, empty) == with_route(router, thread_id, empty));
    replay_takes_notifications_in_order(
        with_route(router, thread_id, empty),
        route.deferred,
        notification,
    );
}

/// Only an authoritative notification, or an interpreted one that was left
/// undispatched, ends the connection: any other one that starts no turn leaves
/// it open whatever it holds.
pub proof fn only_authoritative_notifications_end_the_connection(
    router: RouterView,
    notification: NotificationView,
)
    requires
        !(notification.content is TurnStarted),
        !authoritative(notification.content),
        !undispatched(notification.content),
    ensures
        notified(router, notification).1,
{
    reveal(settled);
}

/// An authoritative notification that could not be decoded, and an interpreted
/// one that was left undispatched, always end the connection, unless they wait
/// for a turn start.
pub proof fn undecoded_authoritative_notification_ends_the_connection(
    router: RouterView,
    notification: NotificationView,
)
    requires
        !defers(router, notification.thread_id),
        notification.content == ContentView::ItemCompleted(None) || notification.content
            == ContentView::TurnCompleted(None) || notification.content == ContentView::Error(None)
            || undispatched(notification.content),
    ensures
        !notified(router, notification).1,
{
    reveal(settled);
}

/// A thread that was invalidated takes no more reports.
pub proof fn invalidated_thread_takes_no_reports(router: RouterView, thread_id: Seq<char>)
    requires
        unique_keys(router.routes),
        has_key(router.routes, thread_id),
        route_of(router, thread_id).projection.invalidated is Some,
    ensures
        !admitted(router, thread_id).1,
{
    let next = pruned(router);
    let at = key_index(router.routes, thread_id);
    assert(router.routes[at].0 == thread_id);
    assert(next.routes[at].0 == thread_id);
    assert forall|i: int, j: int| 0 <= i < j < next.routes.len() implies (
    #[trigger] next.routes[i]).0 != (#[trigger] next.routes[j]).0 by {
        assert(router.routes[i].0 != router.routes[j].0);
    }
    lemma_key_index(next.routes, at);
}

proof fn lemma_live(boxes: Map<u64, MailboxView>, subscribers: Seq<u64>, id: u64)
    ensures
        live(boxes, subscribers).contains(id) <==> subscribers.contains(id) && takes_events(
            boxes,
            id,
        ),
{
    live_subscribers_take_events(boxes, subscribers, EventView::Unknown { method: Seq::empty() }, id);
}

proof fn lemma_with_route(
    router: RouterView,
    thread_id: Seq<char>,
    route: RouteView,
    other: Seq<char>,
)
    requires
        unique_keys(router.routes),
    ensures
        unique_keys(with_route(router, thread_id, route).routes),
        has_key(with_route(router, thread_id, route).routes, thread_id),
        route_of(with_route(router, thread_id, route), thread_id) == route,
        other != thread_id ==> lookup(with_route(router, thread_id, route).routes, other) == lookup(
            router.routes,
            other,
        ),
{
    crate::keyed::lemma_bind_lookup(router.routes, thread_id, route, other);
    lemma_bind_unique(router.routes, thread_id, route);
}

/// A text fragment is offered to the subscribers of its thread as what its
/// method says it is, output of a command or text of the agent, with the same
/// turn, item and text; to nobody else; and nothing else changes.
pub proof fn fragments_keep_their_kind(
    router: RouterView,
    notification: NotificationView,
    id: u64,
)
    requires
        unique_keys(router.routes),
        notification.content is AgentMessageDelta || notification.content is CommandOutputDelta,
        !defers(router, notification.thread_id),
        content_delta(notification.content) is Some,
        routable(content_delta(notification.content)->Some_0.thread_id),
        routable(content_delta(notification.content)->Some_0.turn_id),
        routable(content_delta(notification.content)->Some_0.item_id),
        router.boxes.dom().contains(id),
    ensures
        ({
            let params = content_delta(notification.content)->Some_0;
            let (next, open) = notified(router, notification);
            let subscribed = has_key(router.routes, params.thread_id) && value_of(
                router.routes,
                params.thread_id,
            ).subscribers.contains(id);
            &&& open
            &&& next.control == router.control && next.homes == router.homes && next.next
                == router.next
            &&& next.boxes.dom().contains(id)
            &&& !subscribed || router.boxes[id].closed ==> next.boxes[id] == router.boxes[id]
            &&& subscribed && !router.boxes[id].closed && content_method(notification.content)
                == "item/commandExecution/outputDelta"@ ==> next.boxes[id] == lossy_pushed(
                router.boxes[id],
                EventView::CommandOutputDelta {
                    turn_id: params.turn_id,
                    item_id: params.item_id,
                    delta: params.delta,
                },
            )
            &&& subscribed && !router.boxes[id].closed && content_method(notification.content)
                == "item/agentMessage/delta"@ ==> next.boxes[id] == lossy_pushed(
                router.boxes[id],
                EventView::AgentMessageDelta {
                    turn_id: params.turn_id,
                    item_id: params.item_id,
                    delta: params.delta,
                },
            )
            &&& notification.content is CommandOutputDelta <==> content_method(notification.content)
                == "item/commandExecution/outputDelta"@
            &&& notification.content is AgentMessageDelta <==> content_method(notification.content)
                == "item/agentMessage/delta"@
        }),
{
    reveal(settled);
    reveal_strlit("item/commandExecution/outputDelta");
    reveal_strlit("item/agentMessage/delta");
    assert("item/commandExecution/outputDelta"@.len() == 33);
    assert("item/agentMessage/delta"@.len() == 23);
}

/// The parameters of a text fragment, where they could be decoded.
pub open spec fn content_delta(content: ContentView) -> Option<DeltaView> {
    match content {
        ContentView::AgentMessageDelta(params) => params,
        ContentView::CommandOutputDelta(params) => params,
        _ => None,
    }
}

proof fn lemma_admitted_known(router: RouterView, thread_id: Seq<char>, id: u64)
    requires
        unique_keys(router.routes),
        routable(thread_id),
        has_key(router.routes, thread_id),
        route_of(router, thread_id).projection.invalidated is None,
    ensures
        admitted(router, thread_id) == (pruned(router), true),
        unique_keys(pruned(router).routes),
        has_key(pruned(router).routes, thread_id),
        pruned(router).boxes == router.boxes,
        pruned(router).control == router.control,
        route_of(pruned(router), thread_id).projection == route_of(router, thread_id).projection,
        route_of(pruned(router), thread_id).deferring == route_of(router, thread_id).deferring,
        route_of(pruned(router), thread_id).deferred == route_of(router, thread_id).deferred,
        route_of(pruned(router), thread_id).pending == route_of(router, thread_id).pending,
        route_of(pruned(router), thread_id).subscribers.contains(id) <==> route_of(
            router,
            thread_id,
        ).subscribers.contains(id) && takes_events(router.boxes, id),
{
    lemma_pruned_projection(router, thread_id);
    let next = pruned(router);
    let at = key_index(router.routes, thread_id);
    assert(router.routes[at].0 == thread_id);
    assert(next.routes[at].0 == thread_id);
    lemma_key_index(next.routes, at);
    lemma_live(router.boxes, route_of(router, thread_id).subscribers, id);
}

proof fn lemma_noted_boxes(
    router: RouterView,
    thread_id: Seq<char>,
    step: (ProjectionView, Effect),
    event: EventView,
    terminal: bool,
    id: u64,
)
    requires
        unique_keys(router.routes),
        has_key(router.routes, thread_id),
        router.boxes.dom().contains(id),
    ensures
        ({
            let next = noted(router, thread_id, step, event, terminal);
            let reached = route_of(router, thread_id).subscribers.contains(id);
            let open = !router.boxes[id].closed;
            &&& next.control == router.control && next.homes == router.homes && next.next
                == router.next
            &&& next.boxes.dom().contains(id)
            &&& has_key(next.routes, thread_id) && unique_keys(next.routes)
            &&& route_of(next, thread_id).deferring == route_of(router, thread_id).deferring
            &&& route_of(next, thread_id).deferred == route_of(router, thread_id).deferred
            &&& route_of(next, thread_id).pending == route_of(router, thread_id).pending
            &&& step.1 != Effect::Drift ==> route_of(next, thread_id).projection == step.0
            &&& step.1 == Effect::Drift ==> route_of(next, thread_id).projection
                == projection_invalidated(step.0, SubscriptionInvalidation::ProtocolDrift)
            &&& !reached || step.1 == Effect::Quiet ==> next.boxes[id] == router.boxes[id]
            &&& reached && step.1 == Effect::Drift ==> next.boxes[id] == invalidated_mailbox(
                thread_id,
                SubscriptionInvalidation::ProtocolDrift,
            )
            &&& reached && open && step.1 == Effect::Announce && terminal ==> next.boxes[id] == (
            match terminal_pushed(router.boxes[id], event) {
                Some(held) => held,
                None => invalidated_mailbox(thread_id, SubscriptionInvalidation::Lagged),
            })
            &&& reached && open && step.1 == Effect::Announce && !terminal ==> next.boxes[id]
                == lossy_pushed(router.boxes[id], event)
            &&& !open && step.1 == Effect::Announce ==> next.boxes[id] == router.boxes[id]
        }),
{
    let route = route_of(router, thread_id);
    let changed = RouteView { projection: step.0, ..route };
    let mid = with_route(router, thread_id, changed);
    lemma_with_route(router, thread_id, changed, thread_id);
    let announced_route = RouteView {
        subscribers: reached(mid.boxes, changed.subscribers, event),
        ..changed
    };
    let whispered_route = RouteView { subscribers: live(mid.boxes, changed.subscribers), ..changed };
    let broken_route = RouteView {
        subscribers: Seq::empty(),
        projection: projection_invalidated(
            changed.projection,
            SubscriptionInvalidation::ProtocolDrift,
        ),
        ..changed
    };
    lemma_with_route(mid, thread_id, announced_route, thread_id);
    lemma_with_route(mid, thread_id, whispered_route, thread_id);
    lemma_with_route(mid, thread_id, broken_route, thread_id);
}

/// A report about a known thread changes what is known of it as the projection
/// says, and is told to the thread's subscribers as the event that it is: with
/// its own turn and content, and so that it cannot be lost where it may not be.
pub proof fn reports_are_told_as_they_are(
    router: RouterView,
    notification: NotificationView,
    thread_id: Seq<char>,
    id: u64,
)
    requires
        unique_keys(router.routes),
        routable(thread_id),
        has_key(router.routes, thread_id),
        route_of(router, thread_id).projection.invalidated is None,
        !defers(router, notification.thread_id),
        router.boxes.dom().contains(id),
        match notification.content {
            ContentView::ThreadStarted(Some(named)) => named == thread_id,
            ContentView::ItemStarted(Some((named, _, _))) => named == thread_id,
            ContentView::ItemCompleted(Some((named, _, _))) => named == thread_id,
            ContentView::TokenUsageUpdated(Some((named, _, _))) => named == thread_id,
            ContentView::TurnCompleted(Some((named, _))) => named == thread_id,
            _ => false,
        },
    ensures
        ({
            let before = route_of(router, thread_id).projection;
            let (next, open) = notified(router, notification);
            let (step, event, kept) = match notification.content {
                ContentView::ThreadStarted(_) => (
                    after_thread_started(before),
                    EventView::ThreadStarted { thread_id },
                    true,
                ),
                ContentView::ItemStarted(Some((_, turn_id, item))) => (
                    after_item_started(before, turn_id, item.id),
                    EventView::ItemStarted { turn_id, item },
                    false,
                ),
                ContentView::ItemCompleted(Some((_, turn_id, item))) => (
                    after_item_completed(before, turn_id, item),
                    EventView::ItemCompleted { turn_id, item },
                    true,
                ),
                ContentView::TokenUsageUpdated(Some((_, turn_id, usage))) => (
                    after_usage(before, turn_id, usage),
                    EventView::TokenUsageUpdated { turn_id, usage },
                    false,
                ),
                ContentView::TurnCompleted(Some((_, turn))) => (
                    after_turn_completed(before, thread_id, turn),
                    EventView::TurnCompleted(outcome_of(before, thread_id, turn)),
                    true,
                ),
                _ => ((before, Effect::Quiet), EventView::ThreadStarted { thread_id }, true),
            };
            let reached = route_of(router, thread_id).subscribers.contains(id)
                && !router.boxes[id].closed;
            &&& open
            &&& next.control == router.control
            &&& next.boxes.dom().contains(id)
            &&& step.1 != Effect::Drift ==> route_of(next, thread_id).projection == step.0
            &&& step.1 == Effect::Drift ==> route_of(next, thread_id).projection.invalidated
                == Some(SubscriptionInvalidation::ProtocolDrift)
            &&& !reached || step.1 == Effect::Quiet ==> next.boxes[id] == router.boxes[id]
            &&& reached && step.1 == Effect::Drift ==> next.boxes[id] == invalidated_mailbox(
                thread_id,
                SubscriptionInvalidation::ProtocolDrift,
            )
            &&& reached && step.1 == Effect::Announce && kept ==> next.boxes[id] == (
            match terminal_pushed(router.boxes[id], event) {
                Some(held) => held,
                None => invalidated_mailbox(thread_id, SubscriptionInvalidation::Lagged),
            })
            &&& reached && step.1 == Effect::Announce && !kept ==> next.boxes[id] == lossy_pushed(
                router.boxes[id],
                event,
            )
        }),
{
    reveal(settled);
    lemma_admitted_known(router, thread_id, id);
    let clean = pruned(router);
    let before = route_of(router, thread_id).projection;
    match notification.content {
        ContentView::ThreadStarted(_) => {
            lemma_noted_boxes(
                clean,
                thread_id,
                after_thread_started(before),
                EventView::ThreadStarted { thread_id },
                true,
                id,
            );
        },
        ContentView::ItemStarted(Some((_, turn_id, item))) => {
            lemma_noted_boxes(
                clean,
                thread_id,
                after_item_started(before, turn_id, item.id),
                EventView::ItemStarted { turn_id, item },
                false,
                id,
            );
        },
        ContentView::ItemCompleted(Some((_, turn_id, item))) => {
            lemma_noted_boxes(
                clean,
                thread_id,
                after_item_completed(before, turn_id, item),
                EventView::ItemCompleted { turn_id, item },
                true,
                id,
            );
        },
        ContentView::TokenUsageUpdated(Some((_, turn_id, usage))) => {
            lemma_noted_boxes(
                clean,
                thread_id,
                after_usage(before, turn_id, usage),
                EventView::TokenUsageUpdated { turn_id, usage },
                false,
                id,
            );
        },
        ContentView::TurnCompleted(Some((_, turn))) => {
            lemma_noted_boxes(
                clean,
                thread_id,
                after_turn_completed(before, thread_id, turn),
                EventView::TurnCompleted(outcome_of(before, thread_id, turn)),
                true,
                id,
            );
        },
        _ => {},
    }
}

/// An error of a turn is told to the thread's subscribers with its turn, its
/// content and whether the server tries again, so that it cannot be lost; what
/// is known of the thread stays.
pub proof fn errors_are_told_as_they_are(
    router: RouterView,
    notification: NotificationView,
    id: u64,
)
    requires
        unique_keys(router.routes),
        notification.content matches ContentView::Error(Some(params)) && routable(params.0)
            && has_key(router.routes, params.0) && route_of(
            router,
            params.0,
        ).projection.invalidated is None && byte_len(params.1) <= ROUTING_ID_BYTE_LIMIT,
        !defers(router, notification.thread_id),
        router.boxes.dom().contains(id),
    ensures
        ({
            let (thread_id, turn_id, error, will_retry) = notification.content->Error_0->Some_0;
            let (next, open) = notified(router, notification);
            let reached = route_of(router, thread_id).subscribers.contains(id)
                && !router.boxes[id].closed;
            &&& open
            &&& next.control == router.control
            &&& next.boxes.dom().contains(id)
            &&& route_of(next, thread_id).projection == route_of(router, thread_id).projection
            &&& !reached ==> next.boxes[id] == router.boxes[id]
            &&& reached ==> next.boxes[id] == (match terminal_pushed(
                router.boxes[id],
                EventView::Error { turn_id, error, will_retry },
            ) {
                Some(held) => held,
                None => invalidated_mailbox(thread_id, SubscriptionInvalidation::Lagged),
            })
        }),
{
    reveal(settled);
    let (thread_id, turn_id, error, will_retry) = notification.content->Error_0->Some_0;
    lemma_admitted_known(router, thread_id, id);
    let clean = pruned(router);
    let event = EventView::Error { turn_id, error, will_retry };
    let route = route_of(clean, thread_id);
    let told = RouteView { subscribers: reached(clean.boxes, route.subscribers, event), ..route };
    lemma_with_route(clean, thread_id, told, thread_id);
}

/// The start of a turn is told to the thread's subscribers as it is, the first
/// time it comes.
pub proof fn turn_starts_are_told_as_they_are(
    router: RouterView,
    notification: NotificationView,
    id: u64,
)
    requires
        unique_keys(router.routes),
        notification.content matches ContentView::TurnStarted(Some(params)) && routable(params.0)
            && has_key(router.routes, params.0) && route_of(
            router,
            params.0,
        ).projection.invalidated is None && route_of(router, params.0).deferred.len() == 0,
        router.boxes.dom().contains(id),
    ensures
        ({
            let (thread_id, turn) = notification.content->TurnStarted_0->Some_0;
            let (next, open) = notified(router, notification);
            let step = after_turn_started(route_of(router, thread_id).projection, turn.id);
            let reached = route_of(router, thread_id).subscribers.contains(id)
                && !router.boxes[id].closed;
            &&& open
            &&& next.control == router.control
            &&& next.boxes.dom().contains(id)
            &&& !route_of(next, thread_id).deferring
            &&& route_of(next, thread_id).pending == route_of(router, thread_id).pending
            &&& step.1 != Effect::Drift ==> route_of(next, thread_id).projection == step.0
            &&& !reached || step.1 == Effect::Quiet ==> next.boxes[id] == router.boxes[id]
            &&& reached && step.1 == Effect::Drift ==> next.boxes[id] == invalidated_mailbox(
                thread_id,
                SubscriptionInvalidation::ProtocolDrift,
            )
            &&& reached && step.1 == Effect::Announce ==> next.boxes[id] == (match terminal_pushed(
                router.boxes[id],
                EventView::TurnStarted { turn },
            ) {
                Some(held) => held,
                None => invalidated_mailbox(thread_id, SubscriptionInvalidation::Lagged),
            })
        }),
{
    let (thread_id, turn) = notification.content->TurnStarted_0->Some_0;
    lemma_admitted_known(router, thread_id, id);
    let clean = pruned(router);
    let step = after_turn_started(route_of(router, thread_id).projection, turn.id);
    let event = EventView::TurnStarted { turn };
    lemma_noted_boxes(clean, thread_id, step, event, true, id);
    let mid = noted(clean, thread_id, step, event, true);
    let idle = RouteView {
        deferring: false,
        deferred: Seq::empty(),
        ..route_of(mid, thread_id)
    };
    lemma_with_route(mid, thread_id, idle, thread_id);
    assert(route_of(mid, thread_id).deferred =~= Seq::<NotificationView>::empty());
}

/// A notification that could not be understood is reported by its method, and
/// as one that may not be missed exactly where it is one; such a one costs the
/// subscribers of its thread their claim to be complete, any other nothing.
pub proof fn misread_notifications_are_reported(
    router: RouterView,
    notification: NotificationView,
    id: u64,
)
    requires
        unique_keys(router.routes),
        !defers(router, notification.thread_id) || notification.content is TurnStarted,
        notification.content == ContentView::ThreadStarted(None) || notification.content
            == ContentView::TurnStarted(None) || notification.content == ContentView::ItemStarted(
            None,
        ) || notification.content == ContentView::AgentMessageDelta(None) || notification.content
            == ContentView::CommandOutputDelta(None) || notification.content
            == ContentView::ItemCompleted(None) || notification.content
            == ContentView::TokenUsageUpdated(None) || notification.content == ContentView::Error(
            None,
        ) || notification.content == ContentView::TurnCompleted(None),
        router.control.len() < CLIENT_CONTROL_CAPACITY,
        router.boxes.dom().contains(id),
    ensures
        ({
            let (next, open) = notified(router, notification);
            let owed = notification.content is ItemCompleted || notification.content
                is TurnCompleted || notification.content is Error;
            let told = owed && notification.thread_id is Some && has_key(
                router.routes,
                notification.thread_id->Some_0,
            ) && route_of(router, notification.thread_id->Some_0).subscribers.contains(id);
            &&& open == !owed
            &&& next.control == router.control.push(
                ControlView::InvalidNotification {
                    method: reported_method(content_method(notification.content)),
                    authoritative: owed,
                },
            )
            &&& next.boxes.dom().contains(id)
            &&& !told ==> next.boxes[id] == router.boxes[id]
            &&& told ==> next.boxes[id] == invalidated_mailbox(
                notification.thread_id->Some_0,
                SubscriptionInvalidation::ProtocolDrift,
            )
            &&& !owed ==> next.routes == router.routes
        }),
{
    reveal(settled);
}

/// A notification that is not interpreted is passed on by its method: to the
/// subscribers of the thread that it names, or to the control queue where it
/// names none.
pub proof fn other_notifications_are_passed_on(
    router: RouterView,
    notification: NotificationView,
    id: u64,
)
    requires
        unique_keys(router.routes),
        !defers(router, notification.thread_id),
        notification.content is Other,
        !consumed(notification.content->Other_method),
        router.control.len() < CLIENT_CONTROL_CAPACITY,
        router.boxes.dom().contains(id),
    ensures
        ({
            let method = reported_method(notification.content->Other_method);
            let (next, open) = notified(router, notification);
            let reached = notification.thread_id matches Some(thread_id) && has_key(
                router.routes,
                thread_id,
            ) && route_of(router, thread_id).subscribers.contains(id) && !router.boxes[id].closed;
            &&& open
            &&& next.boxes.dom().contains(id)
            &&& reached ==> next.boxes[id] == lossy_pushed(
                router.boxes[id],
                EventView::Unknown { method },
            )
            &&& !reached ==> next.boxes[id] == router.boxes[id]
            &&& notification.thread_id is Some ==> next.control == router.control
            &&& notification.thread_id is None ==> next == (RouterView {
                control: router.control.push(ControlView::UnknownNotification { method }),
                ..router
            })
        }),
{
    reveal(settled);
}

/// A notification for a thread that waits for a turn start is taken by nobody
/// yet: it waits behind those that came before it. Without room for it the
/// thread's subscribers are told that they lagged.
pub proof fn waiting_notifications_keep_their_order(
    router: RouterView,
    notification: NotificationView,
    id: u64,
)
    requires
        unique_keys(router.routes),
        !(notification.content is TurnStarted),
        defers(router, notification.thread_id),
        router.boxes.dom().contains(id),
    ensures
        ({
            let thread_id = notification.thread_id->Some_0;
            let route = route_of(router, thread_id);
            let (next, open) = notified(router, notification);
            let room = route.deferred.len() < THREAD_EVENT_CAPACITY && deferred_bytes(route.deferred)
                + notification_weight(notification) <= THREAD_MAILBOX_BYTE_BUDGET;
            &&& room ==> open && next.boxes == router.boxes && next.control == router.control
                && route_of(next, thread_id) == (RouteView {
                deferred: route.deferred.push(notification),
                ..route
            })
            &&& !room ==> open == !authoritative(notification.content)
            &&& !room && route.subscribers.contains(id) ==> next.boxes[id] == invalidated_mailbox(
                thread_id,
                SubscriptionInvalidation::Lagged,
            )
            &&& !room && !route.subscribers.contains(id) ==> next.boxes[id] == router.boxes[id]
            &&& !room && router.control.len() < CLIENT_CONTROL_CAPACITY ==> next.control
                == router.control.push(
                ControlView::InvalidNotification {
                    method: reported_method(content_method(notification.content)),
                    authoritative: authoritative(notification.content),
                },
            )
        }),
{
    reveal(settled);
    let thread_id = notification.thread_id->Some_0;
    let route = route_of(router, thread_id);
    lemma_with_route(
        router,
        thread_id,
        RouteView { deferred: route.deferred.push(notification), ..route },
        thread_id,
    );
}

/// A thread that is not known yet is taken up with nothing known of it as long
/// as there is room, and one with a usable name only; who subscribed to other
/// threads and still takes events stays subscribed.
pub proof fn new_threads_are_taken_up(
    router: RouterView,
    thread_id: Seq<char>,
    other: Seq<char>,
    id: u64,
)
    requires
        unique_keys(router.routes),
        router.routes.len() < CLIENT_PROJECTION_CAPACITY,
        !has_key(router.routes, thread_id),
        has_key(router.routes, other),
    ensures
        ({
            let (next, accepted) = admitted(router, thread_id);
            &&& accepted <==> thread_id.len() > 0 && byte_len(thread_id) <= ROUTING_ID_BYTE_LIMIT
            &&& next.boxes == router.boxes && next.homes == router.homes && next.control
                == router.control && next.next == router.next
            &&& accepted ==> route_of(next, thread_id) == (RouteView {
                subscribers: Seq::empty(),
                projection: blank_projection(),
                pending: None,
                deferring: false,
                deferred: Seq::empty(),
            }) && has_key(next.routes, thread_id)
            &&& !accepted ==> next == router
            &&& has_key(next.routes, other)
            &&& route_of(next, other).projection == route_of(router, other).projection
            &&& takes_events(router.boxes, id) ==> (route_of(next, other).subscribers.contains(id)
                <==> route_of(router, other).subscribers.contains(id))
        }),
{
    lemma_pruned_projection(router, thread_id);
    lemma_pruned_projection(router, other);
    let clean = pruned(router);
    let at = key_index(router.routes, other);
    assert(router.routes[at].0 == other);
    assert(clean.routes[at].0 == other);
    lemma_key_index(clean.routes, at);
    lemma_live(router.boxes, route_of(router, other).subscribers, id);
    lemma_with_route(clean, thread_id, blank_route(), other);
}

/// A new subscription has a number that was never given before and an empty
/// mailbox, but for the news that the thread started where it has; from then on
/// it is among the subscribers of its thread. Those before it stay.
pub proof fn subscriptions_are_new(
    router: RouterView,
    thread_id: Seq<char>,
    other: u64,
)
    requires
        unique_keys(router.routes),
        subscribed(router, thread_id).1 is Some,
        has_key(router.routes, thread_id),
    ensures
        ({
            let (next, id) = subscribed(router, thread_id);
            let started = route_of(router, thread_id).projection.thread_started;
            &&& id == Some(router.next)
            &&& next.next == router.next + 1
            &&& next.boxes.dom().contains(router.next)
            &&& !next.boxes[router.next].closed
            &&& started ==> next.boxes[router.next].events.len() == 1
                && next.boxes[router.next].events[0].terminal
                && next.boxes[router.next].events[0].event == (EventView::ThreadStarted {
                thread_id,
            })
            &&& !started ==> next.boxes[router.next].events.len() == 0
            &&& route_of(next, thread_id).subscribers.contains(router.next)
            &&& route_of(next, thread_id).projection == route_of(router, thread_id).projection
            &&& home_of(next.homes, router.next) == Some(
                HomeView { id: router.next, thread_id, kept: None },
            )
            &&& other != router.next && router.boxes.dom().contains(other)
                ==> next.boxes.dom().contains(other) && next.boxes[other] == router.boxes[other]
            &&& other != router.next && takes_events(router.boxes, other) ==> (route_of(
                next,
                thread_id,
            ).subscribers.contains(other) <==> route_of(
                router,
                thread_id,
            ).subscribers.contains(other))
        }),
{
    let clean = pruned(router);
    lemma_pruned_projection(router, thread_id);
    lemma_pruned_projection(clean, thread_id);
    let at = key_index(router.routes, thread_id);
    assert(router.routes[at].0 == thread_id);
    assert(clean.routes[at].0 == thread_id);
    lemma_key_index(clean.routes, at);
    let twice = pruned(clean);
    assert(twice.routes[at].0 == thread_id);
    lemma_key_index(twice.routes, at);
    let before = route_of(router, thread_id).subscribers;
    lemma_live(router.boxes, before, other);
    lemma_live(router.boxes, live(router.boxes, before), other);
    let (next, _) = admitted(clean, thread_id);
    let route = route_of(next, thread_id);
    let joined = RouteView { subscribers: route.subscribers.push(next.next), ..route };
    lemma_with_route(next, thread_id, joined, thread_id);
    assert(joined.subscribers[route.subscribers.len() as int] == next.next);
    if route.subscribers.contains(other) {
        let k = choose|k: int| 0 <= k < route.subscribers.len() && route.subscribers[k] == other;
        assert(joined.subscribers[k] == other);
    }
    if joined.subscribers.contains(other) && other != next.next {
        let k = choose|k: int| 0 <= k < joined.subscribers.len() && joined.subscribers[k] == other;
        assert(route.subscribers[k] == other);
    }
}

/// A subscription is refused exactly where there is no room for it, for the
/// thread or for the whole connection, or the thread may not be updated.
pub proof fn subscriptions_are_refused_without_room(router: RouterView, thread_id: Seq<char>)
    requires
        unique_keys(router.routes),
        has_key(router.routes, thread_id),
        routable(thread_id),
        router.next < u64::MAX,
    ensures
        ({
            let clean = pruned(router);
            subscribed(router, thread_id).1 is Some <==> subscriber_count(clean.routes)
                < CLIENT_SUBSCRIBER_CAPACITY && route_of(
                router,
                thread_id,
            ).projection.invalidated is None && live(
                router.boxes,
                route_of(router, thread_id).subscribers,
            ).len() < THREAD_SUBSCRIBER_CAPACITY
        }),
{
    let clean = pruned(router);
    lemma_pruned_projection(router, thread_id);
    lemma_pruned_projection(clean, thread_id);
    let at = key_index(router.routes, thread_id);
    assert(router.routes[at].0 == thread_id);
    assert(clean.routes[at].0 == thread_id);
    lemma_key_index(clean.routes, at);
    let twice = pruned(clean);
    assert(twice.routes[at].0 == thread_id);
    lemma_key_index(twice.routes, at);
    let before = route_of(router, thread_id).subscribers;
    lemma_live_twice(router.boxes, before);
}

proof fn lemma_live_twice(boxes: Map<u64, MailboxView>, subscribers: Seq<u64>)
    ensures
        live(boxes, live(boxes, subscribers)) == live(boxes, subscribers),
    decreases subscribers.len(),
{
    reveal(Seq::filter);
    let open = |id: u64| takes_events(boxes, id);
    if subscribers.len() > 0 {
        let head = subscribers.drop_last();
        lemma_live_twice(boxes, head);
        let kept = head.filter(open);
        if open(subscribers.last()) {
            assert(subscribers.filter(open) == kept.push(subscribers.last()));
            assert(kept.push(subscribers.last()).drop_last() =~= kept);
            assert(kept.push(subscribers.last()).filter(open) == kept.filter(open).push(
                subscribers.last(),
            ));
        }
    }
}

/// Who unsubscribes is gone, mailbox and all; nobody else notices.
pub proof fn unsubscribing_concerns_one(
    router: RouterView,
    id: u64,
    thread_id: Seq<char>,
    other: u64,
)
    requires
        unique_keys(router.routes),
        has_key(router.routes, thread_id),
    ensures
        ({
            let next = unsubscribed(router, id, thread_id);
            &&& !next.boxes.dom().contains(id)
            &&& !route_of(next, thread_id).subscribers.contains(id)
            &&& home_of(next.homes, id) is None
            &&& other != id ==> next.boxes.dom().contains(other) == router.boxes.dom().contains(
                other,
            ) && (router.boxes.dom().contains(other) ==> next.boxes[other] == router.boxes[other])
            &&& other != id ==> (route_of(next, thread_id).subscribers.contains(other) <==> route_of(
                router,
                thread_id,
            ).subscribers.contains(other))
            &&& other != id ==> home_of(next.homes, other) == home_of(router.homes, other)
            &&& next.control == router.control && next.next == router.next
            &&& route_of(next, thread_id).projection == route_of(router, thread_id).projection
        }),
{
    let route = route_of(router, thread_id);
    let rest = RouteView { subscribers: others(route.subscribers, id), ..route };
    lemma_with_route(router, thread_id, rest, thread_id);
    lemma_without_home(router.homes, id, other);
    lemma_others(route.subscribers, id, id);
    lemma_others(route.subscribers, id, other);
}

proof fn lemma_others(subscribers: Seq<u64>, id: u64, entry: u64)
    ensures
        others(subscribers, id).contains(entry) <==> subscribers.contains(entry) && entry != id,
    decreases subscribers.len(),
{
    reveal(Seq::filter);
    let rest = others(subscribers, id);
    if subscribers.len() > 0 {
        let head = subscribers.drop_last();
        let last = subscribers.last();
        let before = others(head, id);
        lemma_others(head, id, entry);
        assert(subscribers[subscribers.len() - 1] == last);
        assert(subscribers.contains(entry) <==> head.contains(entry) || entry == last) by {
            if head.contains(entry) {
                let k = choose|k: int| 0 <= k < head.len() && head[k] == entry;
                assert(subscribers[k] == entry);
            }
            if subscribers.contains(entry) && entry != last {
                let k = choose|k: int| 0 <= k < subscribers.len() && subscribers[k] == entry;
                assert(head[k] == entry);
            }
        }
        if last != id {
            assert(rest == before.push(last));
            assert(rest[before.len() as int] == last);
            if before.contains(entry) {
                let k = choose|k: int| 0 <= k < before.len() && before[k] == entry;
                assert(rest[k] == entry);
            }
            if rest.contains(entry) && entry != last {
                let k = choose|k: int| 0 <= k < rest.len() && rest[k] == entry;
                assert(before[k] == entry);
            }
        } else {
            assert(rest == before);
        }
    }
}

proof fn lemma_without_home(homes: Seq<HomeView>, id: u64, other: u64)
    ensures
        home_of(without_home(homes, id), id) is None,
        other != id ==> home_of(without_home(homes, id), other) == home_of(homes, other),
    decreases homes.len(),
{
    if homes.len() > 0 {
        lemma_without_home(homes.drop_last(), id, other);
        let rest = without_home(homes.drop_last(), id);
        if homes.last().id != id {
            assert(rest.push(homes.last()).drop_last() =~= rest);
        }
    }
}

/// One turn start at a time is awaited for a thread: while it is, the thread's
/// notifications wait and no other start is; only the attempt that is awaited
/// can be settled, and once it is, the next one may begin.
pub proof fn one_turn_start_is_awaited(
    router: RouterView,
    thread_id: Seq<char>,
    attempt: u64,
    other: u64,
)
    requires
        unique_keys(router.routes),
        has_key(router.routes, thread_id),
        routable(thread_id),
        route_of(router, thread_id).projection.invalidated is None,
        route_of(router, thread_id).deferred.len() == 0,
    ensures
        ({
            let (next, accepted) = turn_start_begun(router, thread_id, attempt);
            &&& accepted <==> route_of(router, thread_id).pending is None
            &&& next.boxes == router.boxes && next.control == router.control
            &&& accepted ==> {
                &&& route_of(next, thread_id).pending == Some(attempt)
                &&& route_of(next, thread_id).deferring
                &&& defers(next, Some(thread_id))
                &&& route_of(next, thread_id).projection == route_of(router, thread_id).projection
                &&& !turn_start_begun(next, thread_id, other).1
                &&& other != attempt ==> turn_start_finished(next, thread_id, other) == (next, true)
                &&& turn_start_finished(next, thread_id, attempt).1
                &&& ({
                    let settled = route_of(
                        turn_start_finished(next, thread_id, attempt).0,
                        thread_id,
                    );
                    settled.pending is None && !settled.deferring && settled.projection
                        == route_of(router, thread_id).projection
                })
                &&& turn_start_finished(next, thread_id, attempt).0.boxes == router.boxes
            }
        }),
{
    lemma_admitted_known(router, thread_id, 0);
    let clean = pruned(router);
    let route = route_of(clean, thread_id);
    let waiting = RouteView { pending: Some(attempt), deferring: true, ..route };
    lemma_with_route(clean, thread_id, waiting, thread_id);
    let next = with_route(clean, thread_id, waiting);
    if route.pending is None {
        lemma_admitted_known(next, thread_id, 0);
        let done = RouteView { pending: None, ..waiting };
        lemma_with_route(next, thread_id, done, thread_id);
        let mid = with_route(next, thread_id, done);
        let idle = RouteView { deferring: false, deferred: Seq::empty(), ..done };
        lemma_with_route(mid, thread_id, idle, thread_id);
        assert(done.deferred =~= Seq::<NotificationView>::empty());
    }
}

/// A thread is released exactly while nobody subscribed that still takes
/// events, no turn is active or awaited and nothing waits; then it is known no
/// more, and no other thread is touched.
pub proof fn busy_threads_are_not_released(
    router: RouterView,
    thread_id: Seq<char>,
    other: Seq<char>,
)
    requires
        unique_keys(router.routes),
        has_key(router.routes, thread_id),
    ensures
        ({
            let route = route_of(router, thread_id);
            let (next, done) = released(router, thread_id);
            &&& done <==> (forall|id: u64|
                route.subscribers.contains(id) ==> !#[trigger] takes_events(router.boxes, id))
                && route.pending is None && !route.deferring && route.deferred.len() == 0
                && route.projection.active_turns.len() == 0
            &&& done ==> !has_key(next.routes, thread_id)
            &&& !done ==> has_key(next.routes, thread_id) && route_of(next, thread_id).projection
                == route.projection
            &&& other != thread_id ==> has_key(next.routes, other) == has_key(router.routes, other)
            &&& other != thread_id && has_key(router.routes, other) ==> route_of(
                next,
                other,
            ).projection == route_of(router, other).projection
            &&& next.boxes == router.boxes && next.control == router.control
        }),
{
    let clean = pruned(router);
    lemma_pruned_projection(router, thread_id);
    lemma_pruned_projection(router, other);
    let at = key_index(router.routes, thread_id);
    assert(router.routes[at].0 == thread_id);
    assert(clean.routes[at].0 == thread_id);
    lemma_key_index(clean.routes, at);
    lemma_unbind_lookup(clean.routes, thread_id, other);
    let route = route_of(router, thread_id);
    let kept = live(router.boxes, route.subscribers);
    assert(route_of(clean, thread_id).subscribers == kept);
    if kept.len() > 0 {
        lemma_live(router.boxes, route.subscribers, kept[0]);
        assert(kept.contains(kept[0]));
    } else {
        assert forall|id: u64| route.subscribers.contains(id) implies !#[trigger] takes_events(
            router.boxes,
            id,
        ) by {
            lemma_live(router.boxes, route.subscribers, id);
        }
    }
}

/// A subscription is answered with its number, where it has one; one that
/// nobody waits for any more is undone.
pub proof fn subscriptions_are_answered(router: RouterView, thread_id: ThreadId)
    ensures
        ({
            let (next, id) = subscribed(router, thread_id@);
            let (left, reply, open) = commanded(
                router,
                RouterCommand::Subscribe { thread_id, listening: false },
            );
            let (joined, answer, stays) = commanded(
                router,
                RouterCommand::Subscribe { thread_id, listening: true },
            );
            &&& open && stays
            &&& reply == ReplyView::Subscribed(id) && answer == ReplyView::Subscribed(id)
            &&& joined == next
            &&& id matches Some(held) ==> !left.boxes.dom().contains(held)
            &&& id is None ==> left == next
        }),
{
}

/// A turn start is answered with whether it may go on; one that nobody waits
/// for any more, and one that is given up, is settled; a turn that was started
/// is handed back exactly where it could be taken up.
pub proof fn turn_starts_are_answered(
    router: RouterView,
    thread_id: ThreadId,
    attempt: u64,
    turn: Turn,
)
    ensures
        ({
            let (mid, accepted) = turn_start_begun(router, thread_id@, attempt);
            let (begun, reply, open) = commanded(
                router,
                RouterCommand::BeginTurnStart { thread_id, attempt, listening: true },
            );
            let (left, answer, stays) = commanded(
                router,
                RouterCommand::BeginTurnStart { thread_id, attempt, listening: false },
            );
            &&& open && begun == mid && reply == ReplyView::Accepted(accepted)
            &&& answer == ReplyView::Accepted(accepted)
            &&& accepted ==> (left, stays) == turn_start_finished(mid, thread_id@, attempt)
        }),
        ({
            let (next, reply, open) = commanded(
                router,
                RouterCommand::ObserveTurnStarted { thread_id, attempt, turn },
            );
            let (mid, accepted) = turn_started(router, thread_id@, turn@);
            &&& (next, open) == turn_start_finished(mid, thread_id@, attempt)
            &&& accepted ==> reply == ReplyView::Turn(Some(turn@))
            &&& !accepted ==> reply == ReplyView::Turn(None)
        }),
        ({
            let (next, reply, open) = commanded(
                router,
                RouterCommand::AbortTurnStart { thread_id, attempt },
            );
            (next, open) == turn_start_finished(router, thread_id@, attempt)
        }),
{
}

/// What is asked of a thread is answered with whether it was done.
pub proof fn thread_requests_are_answered(router: RouterView, thread_id: ThreadId)
    ensures
        commanded(router, RouterCommand::ObserveThreadStarted { thread_id }) == (
            thread_started(router, thread_id@).0,
            ReplyView::Accepted(thread_started(router, thread_id@).1),
            true,
        ),
        commanded(router, RouterCommand::EnsureRoute { thread_id }) == (
            admitted(router, thread_id@).0,
            ReplyView::Accepted(admitted(router, thread_id@).1),
            true,
        ),
        commanded(router, RouterCommand::ReleaseRoute { thread_id }) == (
            released(router, thread_id@).0,
            ReplyView::Accepted(released(router, thread_id@).1),
            true,
        ),
{
}

/// The end of the connection tells every subscriber of every thread and closes
/// all their mailboxes, whichever reason is given; no thread is known after it.
pub proof fn the_end_is_told_to_everybody(
    router: RouterView,
    exit: TransportExit,
    at: int,
    id: u64,
)
    requires
        unique_keys(router.routes),
        0 <= at < router.routes.len(),
        router.routes[at].1.subscribers.contains(id),
        router.boxes.dom().contains(id),
        forall|k: int|
            0 <= k < router.routes.len() && k != at ==> !(
            #[trigger] router.routes[k]).1.subscribers.contains(id),
    ensures
        ({
            let next = connection_closed(router, exit);
            &&& next.routes.len() == 0
            &&& next.control == router.control
            &&& next.boxes.dom().contains(id)
            &&& next.boxes[id].closed
            &&& match terminal_pushed(router.boxes[id], EventView::ConnectionClosed { exit }) {
                Some(held) => next.boxes[id].events == held.events,
                None => next.boxes[id].events == invalidated_mailbox(
                    router.routes[at].0,
                    SubscriptionInvalidation::Lagged,
                ).events,
            }
        }),
{
    lemma_routes_ended(router.boxes, router.routes, exit, at, id);
}

proof fn lemma_routes_ended(
    boxes: Map<u64, MailboxView>,
    routes: Seq<(Seq<char>, RouteView)>,
    exit: TransportExit,
    at: int,
    id: u64,
)
    requires
        boxes.dom().contains(id),
        0 <= at <= routes.len(),
        at < routes.len() ==> routes[at].1.subscribers.contains(id),
        forall|k: int|
            0 <= k < routes.len() && k != at ==> !(#[trigger] routes[k]).1.subscribers.contains(id),
    ensures
        routes_ended(boxes, routes, exit).dom().contains(id),
        at == routes.len() ==> routes_ended(boxes, routes, exit)[id] == boxes[id],
        at < routes.len() ==> routes_ended(boxes, routes, exit)[id] == ended(
            boxes[id],
            exit,
            routes[at].0,
        ),
    decreases routes.len(),
{
    if routes.len() > 0 {
        let head = routes.drop_last();
        assert forall|k: int| 0 <= k < head.len() && k != at implies !(
        #[trigger] head[k]).1.subscribers.contains(id) by {
            assert(head[k] == routes[k]);
        }
        let last = routes.len() - 1;
        assert(routes[last] == routes.last());
        if at < last {
            assert(head[at] == routes[at]);
            lemma_routes_ended(boxes, head, exit, at, id);
        } else {
            lemma_routes_ended(boxes, head, exit, head.len() as int, id);
        }
    }
}

/// A router stops for its reason: cancelled after a fault because a task
/// failed, else without one; and so where those who feed it are gone. Drift is
/// reported while somebody listens.
pub proof fn routers_stop_for_a_reason(
    router: RouterView,
    faulted: bool,
    free_permits: int,
    gone: bool,
)
    ensures
        reacted(router, RouterInput::Cancelled { faulted }, free_permits, gone).2 == (
        RouterNext::Stop {
            fault: if faulted {
                Some(TransportExit::TaskFailed)
            } else {
                None
            },
        }),
        reacted(router, RouterInput::CommandsClosed, free_permits, gone).2 == (RouterNext::Stop {
            fault: None,
        }),
        reacted(router, RouterInput::TransportClosed, free_permits, gone).2 == (RouterNext::Stop {
            fault: None,
        }),
        reacted(router, RouterInput::EventsClosed, free_permits, gone).2 == (RouterNext::Stop {
            fault: None,
        }),
        gone ==> reacted(router, RouterInput::ProtocolDrift, free_permits, gone).2 == (
        RouterNext::Stop { fault: None }),
        !gone ==> reacted(router, RouterInput::ProtocolDrift, free_permits, gone).2
            == RouterNext::Continue,
        !gone && router.control.len() < CLIENT_CONTROL_CAPACITY ==> reacted(
            router,
            RouterInput::ProtocolDrift,
            free_permits,
            gone,
        ).0.control == router.control.push(ControlView::ProtocolDrift),
{
}

/// A notification that may not be missed and could not be taken stops the
/// router as a violation, a request that ends the connection as a failed task;
/// all others leave it going, and a request gets its answer.
pub proof fn routers_go_on_while_all_is_taken(
    router: RouterView,
    command: RouterCommand,
    notification: Notification,
    free_permits: int,
    gone: bool,
)
    ensures
        ({
            let (next, open) = notified(router, notification@);
            let step = reacted(router, RouterInput::Notification(notification), free_permits, gone);
            &&& step.0 == next
            &&& open ==> step.2 == RouterNext::Continue
            &&& !open ==> step.2 == (RouterNext::Stop {
                fault: Some(TransportExit::ProtocolViolation),
            })
        }),
        ({
            let (next, reply, open) = commanded(router, command);
            let step = reacted(router, RouterInput::Command(command), free_permits, gone);
            &&& step.0 == next && step.1 == reply
            &&& open ==> step.2 == RouterNext::Continue
            &&& !open ==> step.2 == (RouterNext::Stop { fault: Some(TransportExit::TaskFailed) })
        }),
{
}

/// A request of the server is put before the consumer of control events with
/// its own number and method, and takes as many permits as it has bytes,
/// exactly while it fits; else the connection ends and nothing is taken.
pub proof fn server_requests_wait_within_bounds(
    router: RouterView,
    token: u64,
    method: String,
    id_bytes: usize,
    params_bytes: usize,
    free_permits: int,
    gone: bool,
)
    requires
        256 + byte_len(method@) + id_bytes + params_bytes <= u32::MAX,
    ensures
        ({
            let bytes = 256 + byte_len(method@) + id_bytes + params_bytes;
            let fits = bytes <= CLIENT_CONTROL_EVENT_BYTE_LIMIT && bytes <= free_permits && !gone
                && router.control.len() < CLIENT_CONTROL_CAPACITY;
            let (next, reply, what_next, taken) = reacted(
                router,
                RouterInput::ServerRequest { token, method, id_bytes, params_bytes },
                free_permits,
                gone,
            );
            &&& fits ==> what_next == RouterNext::Continue && taken == bytes && next
                == (RouterView {
                control: router.control.push(
                    ControlView::ServerRequest { token, method: method@ },
                ),
                ..router
            })
            &&& !fits ==> next == router && taken == 0 && what_next == (RouterNext::Stop {
                fault: Some(TransportExit::TaskFailed),
            })
        }),
{
}

proof fn lemma_first_idle_found(routes: Seq<(Seq<char>, RouteView)>)
    ensures
        match first_idle(routes) {
            Some(at) => 0 <= at < routes.len() && idle(routes[at].1),
            None => forall|k: int| 0 <= k < routes.len() ==> !idle((#[trigger] routes[k]).1),
        },
    decreases routes.len(),
{
    if routes.len() > 0 {
        let head = routes.drop_last();
        lemma_first_idle_found(head);
        assert(routes[routes.len() - 1] == routes.last());
        if first_idle(routes) is None {
            assert forall|k: int| 0 <= k < routes.len() implies !idle((#[trigger] routes[k]).1) by {
                if k < head.len() {
                    assert(head[k] == routes[k]);
                }
            }
        }
    }
}

/// A router that is full takes a new thread up exactly in the place of one of
/// which nothing would be lost, and never grows past its bound.
pub proof fn full_routers_replace_idle_threads(router: RouterView, thread_id: Seq<char>)
    requires
        unique_keys(router.routes),
        routable(thread_id),
        !has_key(router.routes, thread_id),
        router.routes.len() == CLIENT_PROJECTION_CAPACITY,
    ensures
        ({
            let (next, accepted) = admitted(router, thread_id);
            let clean = pruned(router).routes;
            &&& next.routes.len() == CLIENT_PROJECTION_CAPACITY
            &&& accepted <==> exists|k: int| 0 <= k < clean.len() && idle((#[trigger] clean[k]).1)
            &&& accepted ==> next.routes.last() == (thread_id, blank_route())
            &&& !accepted ==> next.routes == clean
            &&& next.boxes == router.boxes && next.control == router.control
        }),
{
    lemma_pruned_projection(router, thread_id);
    let clean = pruned(router).routes;
    lemma_first_idle_found(clean);
    if let Some(at) = first_idle(clean) {
        assert(idle(clean[at].1));
    }
}

/// Every subscription of every thread counts once.
pub proof fn every_subscription_counts(
    routes: Seq<(Seq<char>, RouteView)>,
    thread_id: Seq<char>,
    route: RouteView,
)
    ensures
        subscriber_count(routes.push((thread_id, route))) == subscriber_count(routes)
            + route.subscribers.len(),
        subscriber_count(Seq::empty()) == 0,
        forall|k: int|
            0 <= k < routes.len() ==> (#[trigger] routes[k]).1.subscribers.len()
                <= subscriber_count(routes),
        subscriber_count(routes) >= 0,
    decreases routes.len(),
{
    assert(routes.push((thread_id, route)).drop_last() =~= routes);
    if routes.len() > 0 {
        let head = routes.drop_last();
        every_subscription_counts(head, routes.last().0, routes.last().1);
        assert forall|k: int| 0 <= k < routes.len() implies (
        #[trigger] routes[k]).1.subscribers.len() <= subscriber_count(routes) by {
            if k < head.len() {
                assert(head[k] == routes[k]);
            }
        }
    }
}

/// Nothing is lost with an idle thread: nobody subscribed, no turn is active,
/// awaited or ended, and nothing waits.
pub proof fn idle_threads_hold_nothing(route: RouteView)
    requires
        idle(route),
    ensures
        route.subscribers.len() == 0,
        route.pending is None && !route.deferring && route.deferred.len() == 0,
        route.projection.outcomes.len() == 0 && route.projection.active_turns.len() == 0
            && route.projection.started_turns.len() == 0 && route.projection.completed.len() == 0
            && route.projection.usage.len() == 0 && route.projection.started_items.len() == 0,
        !route.projection.thread_started,
{
}

} // verus!
