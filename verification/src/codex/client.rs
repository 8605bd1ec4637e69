//! Identifiers, events and errors of the app-server client.
use vstd::prelude::*;

use crate::codex::types::duplicate_items;
use crate::codex::types::duplicate_turn_error;
use crate::codex::types::duplicate_usage;
use crate::codex::types::item_views;
use crate::codex::types::measured_weight;
use crate::codex::types::saturated;
use crate::codex::types::text_bytes;
use crate::codex::types::turn_error_option;
use crate::codex::types::typed_memory_weight;
use crate::codex::types::usage_option;
use crate::codex::types::ItemView;
use crate::codex::types::ThreadItem;
use crate::codex::types::TokenUsageBreakdown;
use crate::codex::types::TransportExit;
use crate::codex::types::Turn;
use crate::codex::types::TurnError;
use crate::codex::types::TurnErrorView;
use crate::codex::types::TurnStatus;
use crate::codex::types::TurnStatusView;
use crate::codex::types::TurnView;
use crate::json::Json;
use crate::limits::ROUTING_ID_BYTE_LIMIT;
use crate::limits::THREAD_MAILBOX_BYTE_BUDGET;
use crate::limits::THREAD_PROJECTION_BYTE_BUDGET;
use crate::text::byte_len;
use vstd::string::StringExecFns;

verus! {

/// Whether a text may select a route: it is not empty and within the bound.
pub open spec fn routable(text: Seq<char>) -> bool {
    text.len() > 0 && byte_len(text) <= ROUTING_ID_BYTE_LIMIT
}

/// Whether a text may select a route.
pub fn valid_routing_id(value: &str) -> (valid: bool)
    ensures
        valid == routable(value@),
{
    !value.is_empty() && text_bytes(value) <= ROUTING_ID_BYTE_LIMIT
}

/// Identifier of a thread.
#[derive(Debug, PartialEq, Eq, Hash)]
pub struct ThreadId(String);

impl View for ThreadId {
    type V = Seq<char>;

    closed spec fn view(&self) -> Seq<char> {
        self.0@
    }
}

impl ThreadId {
    pub fn new(value: String) -> (id: ThreadId)
        ensures
            id@ == value@,
    {
        ThreadId(value)
    }

    pub fn as_str(&self) -> (text: &str)
        ensures
            text@ == self@,
    {
        self.0.as_str()
    }

    /// Whether the identifier may select a route.
    pub fn is_valid(&self) -> (valid: bool)
        ensures
            valid == routable(self@),
    {
        valid_routing_id(self.as_str())
    }

    /// Whether two identifiers are the same.
    pub fn same(&self, other: &ThreadId) -> (same: bool)
        ensures
            same == (self@ == other@),
    {
        self.0 == other.0
    }
}

impl Clone for ThreadId {
    fn clone(&self) -> (copy: ThreadId)
        ensures
            copy == *self,
    {
        ThreadId(self.0.clone())
    }
}

/// Identifier of a turn.
#[derive(Debug, PartialEq, Eq, Hash)]
pub struct TurnId(String);

impl View for TurnId {
    type V = Seq<char>;

    closed spec fn view(&self) -> Seq<char> {
        self.0@
    }
}

impl TurnId {
    pub fn new(value: String) -> (id: TurnId)
        ensures
            id@ == value@,
    {
        TurnId(value)
    }

    pub fn as_str(&self) -> (text: &str)
        ensures
            text@ == self@,
    {
        self.0.as_str()
    }

    /// Whether two identifiers are the same.
    pub fn same(&self, other: &TurnId) -> (same: bool)
        ensures
            same == (self@ == other@),
    {
        self.0 == other.0
    }
}

impl Clone for TurnId {
    fn clone(&self) -> (copy: TurnId)
        ensures
            copy == *self,
    {
        TurnId(self.0.clone())
    }
}

/// How a turn ended.
pub struct TurnOutcome {
    pub thread_id: ThreadId,
    pub turn_id: TurnId,
    pub status: TurnStatus,
    pub error: Option<TurnError>,
    pub completed_items: Vec<ThreadItem>,
    pub token_usage: Option<TokenUsageBreakdown>,
}

/// Content of a turn outcome.
pub struct OutcomeView {
    pub thread_id: Seq<char>,
    pub turn_id: Seq<char>,
    pub status: TurnStatusView,
    pub error: Option<TurnErrorView>,
    pub completed_items: Seq<ItemView>,
    pub token_usage: Option<Json>,
}

impl View for TurnOutcome {
    type V = OutcomeView;

    open spec fn view(&self) -> OutcomeView {
        OutcomeView {
            thread_id: self.thread_id@,
            turn_id: self.turn_id@,
            status: self.status@,
            error: turn_error_option(self.error),
            completed_items: item_views(self.completed_items@),
            token_usage: usage_option(self.token_usage),
        }
    }
}

impl TurnOutcome {
    pub fn duplicate(&self) -> (copy: TurnOutcome)
        ensures
            copy@ == self@,
    {
        TurnOutcome {
            thread_id: self.thread_id.clone(),
            turn_id: self.turn_id.clone(),
            status: self.status.duplicate(),
            error: duplicate_turn_error(&self.error),
            completed_items: duplicate_items(&self.completed_items),
            token_usage: duplicate_usage(&self.token_usage),
        }
    }
}

/// The wire spelling of a status; an unknown one is only called unknown.
pub open spec fn status_label(status: TurnStatusView) -> Seq<char> {
    match status {
        TurnStatusView::Completed => "completed"@,
        TurnStatusView::Interrupted => "interrupted"@,
        TurnStatusView::Failed => "failed"@,
        TurnStatusView::InProgress => "inProgress"@,
        TurnStatusView::Unknown(_) => "unknown"@,
    }
}

/// The label of a status in diagnostics.
pub fn turn_status_label(status: &TurnStatus) -> (label: &'static str)
    ensures
        label@ == status_label(status@),
{
    match status {
        TurnStatus::Completed => "completed",
        TurnStatus::Interrupted => "interrupted",
        TurnStatus::Failed => "failed",
        TurnStatus::InProgress => "inProgress",
        TurnStatus::Unknown(_) => "unknown",
    }
}

/// Why a subscription stopped being reliable.
#[derive(Clone, Copy, Debug, PartialEq, Eq, Structural)]
pub enum SubscriptionInvalidation {
    Lagged,
    ProtocolDrift,
}

/// One event of a thread subscription.
pub enum AppServerEvent {
    ThreadStarted { thread_id: ThreadId },
    TurnStarted { turn: Turn },
    ItemStarted { turn_id: TurnId, item: ThreadItem },
    AgentMessageDelta { turn_id: TurnId, item_id: String, delta: String },
    CommandOutputDelta { turn_id: TurnId, item_id: String, delta: String },
    ItemCompleted { turn_id: TurnId, item: ThreadItem },
    TokenUsageUpdated { turn_id: TurnId, usage: TokenUsageBreakdown },
    TurnCompleted(TurnOutcome),
    Error { turn_id: TurnId, error: TurnError, will_retry: bool },
    SubscriptionInvalidated { thread_id: ThreadId, reason: SubscriptionInvalidation },
    Unknown { method: String },
    ConnectionClosed { exit: TransportExit },
}

/// Content of an event.
pub enum EventView {
    ThreadStarted { thread_id: Seq<char> },
    TurnStarted { turn: TurnView },
    ItemStarted { turn_id: Seq<char>, item: ItemView },
    AgentMessageDelta { turn_id: Seq<char>, item_id: Seq<char>, delta: Seq<char> },
    CommandOutputDelta { turn_id: Seq<char>, item_id: Seq<char>, delta: Seq<char> },
    ItemCompleted { turn_id: Seq<char>, item: ItemView },
    TokenUsageUpdated { turn_id: Seq<char>, usage: Json },
    TurnCompleted(OutcomeView),
    Error { turn_id: Seq<char>, error: TurnErrorView, will_retry: bool },
    SubscriptionInvalidated { thread_id: Seq<char>, reason: SubscriptionInvalidation },
    Unknown { method: Seq<char> },
    ConnectionClosed { exit: TransportExit },
}

impl View for AppServerEvent {
    type V = EventView;

    open spec fn view(&self) -> EventView {
        match self {
            AppServerEvent::ThreadStarted { thread_id } => EventView::ThreadStarted {
                thread_id: thread_id@,
            },
            AppServerEvent::TurnStarted { turn } => EventView::TurnStarted { turn: turn@ },
            AppServerEvent::ItemStarted { turn_id, item } => EventView::ItemStarted {
                turn_id: turn_id@,
                item: item@,
            },
            AppServerEvent::AgentMessageDelta { turn_id, item_id, delta } =>
                EventView::AgentMessageDelta { turn_id: turn_id@, item_id: item_id@, delta: delta@ },
            AppServerEvent::CommandOutputDelta { turn_id, item_id, delta } =>
                EventView::CommandOutputDelta { turn_id: turn_id@, item_id: item_id@, delta: delta@ },
            AppServerEvent::ItemCompleted { turn_id, item } => EventView::ItemCompleted {
                turn_id: turn_id@,
                item: item@,
            },
            AppServerEvent::TokenUsageUpdated { turn_id, usage } => EventView::TokenUsageUpdated {
                turn_id: turn_id@,
                usage: usage@,
            },
            AppServerEvent::TurnCompleted(outcome) => EventView::TurnCompleted(outcome@),
            AppServerEvent::Error { turn_id, error, will_retry } => EventView::Error {
                turn_id: turn_id@,
                error: error@,
                will_retry: *will_retry,
            },
            AppServerEvent::SubscriptionInvalidated { thread_id, reason } =>
                EventView::SubscriptionInvalidated { thread_id: thread_id@, reason: *reason },
            AppServerEvent::Unknown { method } => EventView::Unknown { method: method@ },
            AppServerEvent::ConnectionClosed { exit } => EventView::ConnectionClosed { exit: *exit },
        }
    }
}

impl AppServerEvent {
    pub fn duplicate(&self) -> (copy: AppServerEvent)
        ensures
            copy@ == self@,
    {
        match self {
            AppServerEvent::ThreadStarted { thread_id } => AppServerEvent::ThreadStarted {
                thread_id: thread_id.clone(),
            },
            AppServerEvent::TurnStarted { turn } => AppServerEvent::TurnStarted {
                turn: turn.duplicate(),
            },
            AppServerEvent::ItemStarted { turn_id, item } => AppServerEvent::ItemStarted {
                turn_id: turn_id.clone(),
                item: item.duplicate(),
            },
            AppServerEvent::AgentMessageDelta { turn_id, item_id, delta } =>
                AppServerEvent::AgentMessageDelta {
                    turn_id: turn_id.clone(),
                    item_id: item_id.clone(),
                    delta: delta.clone(),
                },
            AppServerEvent::CommandOutputDelta { turn_id, item_id, delta } =>
                AppServerEvent::CommandOutputDelta {
                    turn_id: turn_id.clone(),
                    item_id: item_id.clone(),
                    delta: delta.clone(),
                },
            AppServerEvent::ItemCompleted { turn_id, item } => AppServerEvent::ItemCompleted {
                turn_id: turn_id.clone(),
                item: item.duplicate(),
            },
            AppServerEvent::TokenUsageUpdated { turn_id, usage } =>
                AppServerEvent::TokenUsageUpdated {
                    turn_id: turn_id.clone(),
                    usage: usage.duplicate(),
                },
            AppServerEvent::TurnCompleted(outcome) => AppServerEvent::TurnCompleted(
                outcome.duplicate(),
            ),
            AppServerEvent::Error { turn_id, error, will_retry } => AppServerEvent::Error {
                turn_id: turn_id.clone(),
                error: error.duplicate(),
                will_retry: *will_retry,
            },
            AppServerEvent::SubscriptionInvalidated { thread_id, reason } =>
                AppServerEvent::SubscriptionInvalidated {
                    thread_id: thread_id.clone(),
                    reason: *reason,
                },
            AppServerEvent::Unknown { method } => AppServerEvent::Unknown {
                method: method.clone(),
            },
            AppServerEvent::ConnectionClosed { exit } => AppServerEvent::ConnectionClosed {
                exit: *exit,
            },
        }
    }
}

/// Sum of the weights of items against a maximum.
pub open spec fn items_weight(items: Seq<ItemView>, maximum: int) -> int
    decreases items.len(),
{
    if items.len() == 0 {
        0
    } else {
        items_weight(items.drop_last(), maximum) + measured_weight(items.last().measure, maximum)
    }
}

pub proof fn lemma_items_weight_nonnegative(items: Seq<ItemView>, maximum: int)
    requires
        maximum >= 0,
    ensures
        items_weight(items, maximum) >= 0,
    decreases items.len(),
{
    if items.len() > 0 {
        lemma_items_weight_nonnegative(items.drop_last(), maximum);
    }
}

/// Bytes that an outcome is taken to retain.
pub open spec fn outcome_weight(outcome: OutcomeView) -> int {
    saturated(
        256 + byte_len(outcome.thread_id) + byte_len(outcome.turn_id) + (match outcome.status {
            TurnStatusView::Unknown(text) => byte_len(text) + 32,
            _ => 24,
        }) + (match outcome.error {
            Some(error) => measured_weight(error.measure, THREAD_PROJECTION_BYTE_BUDGET as int),
            None => 0,
        }) + items_weight(outcome.completed_items, THREAD_PROJECTION_BYTE_BUDGET as int),
    )
}

/// Bytes that an outcome is taken to retain.
pub fn outcome_memory_weight(outcome: &TurnOutcome) -> (weight: usize)
    ensures
        weight == outcome_weight(outcome@),
{
    let status: usize = match &outcome.status {
        TurnStatus::Unknown(value) => text_bytes(value.as_str()).saturating_add(32),
        _ => 24,
    };
    let mut weight: usize = 256usize.saturating_add(
        text_bytes(outcome.thread_id.as_str()),
    ).saturating_add(text_bytes(outcome.turn_id.as_str())).saturating_add(status);
    if let Some(error) = &outcome.error {
        weight = weight.saturating_add(
            typed_memory_weight(error.measure, THREAD_PROJECTION_BYTE_BUDGET),
        );
    }
    let ghost base: int = 256 + byte_len(outcome@.thread_id) + byte_len(outcome@.turn_id) + (
    match outcome@.status {
        TurnStatusView::Unknown(text) => byte_len(text) + 32,
        _ => 24,
    }) + (match outcome@.error {
        Some(error) => measured_weight(error.measure, THREAD_PROJECTION_BYTE_BUDGET as int),
        None => 0,
    });
    let ghost views = item_views(outcome.completed_items@);
    let mut at: usize = 0;
    while at < outcome.completed_items.len()
        invariant
            at <= outcome.completed_items@.len(),
            views == item_views(outcome.completed_items@),
            base >= 0,
            weight == saturated(
                base + items_weight(
                    views.subrange(0, at as int),
                    THREAD_PROJECTION_BYTE_BUDGET as int,
                ),
            ),
        decreases outcome.completed_items@.len() - at,
    {
        proof {
            let next = views.subrange(0, at + 1);
            assert(next.drop_last() =~= views.subrange(0, at as int));
            assert(next.last() == outcome.completed_items@[at as int]@);
            lemma_items_weight_nonnegative(
                views.subrange(0, at as int),
                THREAD_PROJECTION_BYTE_BUDGET as int,
            );
        }
        weight = weight.saturating_add(
            typed_memory_weight(outcome.completed_items[at].measure, THREAD_PROJECTION_BYTE_BUDGET),
        );
        at += 1;
    }
    proof {
        assert(views.subrange(0, at as int) =~= views);
    }
    weight
}

/// Bytes that an event is taken to retain.
pub open spec fn event_weight(event: EventView) -> int {
    match event {
        EventView::AgentMessageDelta { turn_id, item_id, delta } => saturated(
            (128 + byte_len(turn_id) + byte_len(item_id) + byte_len(delta)) as int,
        ),
        EventView::CommandOutputDelta { turn_id, item_id, delta } => saturated(
            (128 + byte_len(turn_id) + byte_len(item_id) + byte_len(delta)) as int,
        ),
        EventView::Unknown { method } => saturated((128 + byte_len(method)) as int),
        EventView::ThreadStarted { thread_id } => saturated((128 + byte_len(thread_id)) as int),
        EventView::TurnStarted { turn } => saturated(
            128 + measured_weight(turn.measure, THREAD_MAILBOX_BYTE_BUDGET as int),
        ),
        EventView::ItemStarted { turn_id, item } => saturated(
            128 + byte_len(turn_id) + measured_weight(
                item.measure,
                THREAD_MAILBOX_BYTE_BUDGET as int,
            ),
        ),
        EventView::ItemCompleted { turn_id, item } => saturated(
            128 + byte_len(turn_id) + measured_weight(
                item.measure,
                THREAD_MAILBOX_BYTE_BUDGET as int,
            ),
        ),
        EventView::TokenUsageUpdated { turn_id, .. } => saturated((128 + byte_len(turn_id)) as int),
        EventView::TurnCompleted(outcome) => outcome_weight(outcome),
        EventView::Error { turn_id, error, .. } => saturated(
            128 + byte_len(turn_id) + measured_weight(
                error.measure,
                THREAD_MAILBOX_BYTE_BUDGET as int,
            ),
        ),
        EventView::SubscriptionInvalidated { .. } => 128,
        EventView::ConnectionClosed { .. } => 128,
    }
}

/// Bytes that an event is taken to retain.
pub fn event_memory_weight(event: &AppServerEvent) -> (weight: usize)
    ensures
        weight == event_weight(event@),
{
    let fixed: usize = 128;
    match event {
        AppServerEvent::AgentMessageDelta { turn_id, item_id, delta } => fixed.saturating_add(
            text_bytes(turn_id.as_str()),
        ).saturating_add(text_bytes(item_id.as_str())).saturating_add(text_bytes(delta.as_str())),
        AppServerEvent::CommandOutputDelta { turn_id, item_id, delta } => fixed.saturating_add(
            text_bytes(turn_id.as_str()),
        ).saturating_add(text_bytes(item_id.as_str())).saturating_add(text_bytes(delta.as_str())),
        AppServerEvent::Unknown { method } => fixed.saturating_add(text_bytes(method.as_str())),
        AppServerEvent::ThreadStarted { thread_id } => fixed.saturating_add(
            text_bytes(thread_id.as_str()),
        ),
        AppServerEvent::TurnStarted { turn } => fixed.saturating_add(
            typed_memory_weight(turn.measure, THREAD_MAILBOX_BYTE_BUDGET),
        ),
        AppServerEvent::ItemStarted { turn_id, item } => fixed.saturating_add(
            text_bytes(turn_id.as_str()),
        ).saturating_add(typed_memory_weight(item.measure, THREAD_MAILBOX_BYTE_BUDGET)),
        AppServerEvent::ItemCompleted { turn_id, item } => fixed.saturating_add(
            text_bytes(turn_id.as_str()),
        ).saturating_add(typed_memory_weight(item.measure, THREAD_MAILBOX_BYTE_BUDGET)),
        AppServerEvent::TokenUsageUpdated { turn_id, .. } => fixed.saturating_add(
            text_bytes(turn_id.as_str()),
        ),
        AppServerEvent::TurnCompleted(outcome) => outcome_memory_weight(outcome),
        AppServerEvent::Error { turn_id, error, .. } => fixed.saturating_add(
            text_bytes(turn_id.as_str()),
        ).saturating_add(typed_memory_weight(error.measure, THREAD_MAILBOX_BYTE_BUDGET)),
        AppServerEvent::SubscriptionInvalidated { .. } => fixed,
        AppServerEvent::ConnectionClosed { .. } => fixed,
    }
}

/// The text stream that a fragment belongs to: turn, item, and whether it is
/// command output.
pub open spec fn stream_of(event: EventView) -> Option<(Seq<char>, Seq<char>, bool)> {
    match event {
        EventView::AgentMessageDelta { turn_id, item_id, .. } => Some((turn_id, item_id, false)),
        EventView::CommandOutputDelta { turn_id, item_id, .. } => Some((turn_id, item_id, true)),
        _ => None,
    }
}

/// The text of a fragment.
pub open spec fn fragment_of(event: EventView) -> Seq<char> {
    match event {
        EventView::AgentMessageDelta { delta, .. } => delta,
        EventView::CommandOutputDelta { delta, .. } => delta,
        _ => Seq::empty(),
    }
}

/// A fragment followed by the text of another one.
pub open spec fn merged(existing: EventView, incoming: EventView) -> EventView {
    match existing {
        EventView::AgentMessageDelta { turn_id, item_id, delta } => EventView::AgentMessageDelta {
            turn_id,
            item_id,
            delta: delta + fragment_of(incoming),
        },
        EventView::CommandOutputDelta { turn_id, item_id, delta } =>
            EventView::CommandOutputDelta { turn_id, item_id, delta: delta + fragment_of(incoming) },
        other => other,
    }
}

/// The stream of a fragment, borrowed.
pub fn delta_stream(event: &AppServerEvent) -> (stream: Option<(&TurnId, &str, bool)>)
    ensures
        stream is Some == stream_of(event@) is Some,
        stream matches Some((turn_id, item_id, output)) ==> stream_of(event@) == Some(
            (turn_id@, item_id@, output),
        ),
{
    match event {
        AppServerEvent::AgentMessageDelta { turn_id, item_id, .. } => Some(
            (turn_id, item_id.as_str(), false),
        ),
        AppServerEvent::CommandOutputDelta { turn_id, item_id, .. } => Some(
            (turn_id, item_id.as_str(), true),
        ),
        _ => None,
    }
}

/// Whether two events belong to the same stream, or both to none.
pub fn same_delta_stream(left: &AppServerEvent, right: &AppServerEvent) -> (same: bool)
    ensures
        same == (stream_of(left@) == stream_of(right@)),
{
    match (delta_stream(left), delta_stream(right)) {
        (Some(left), Some(right)) => left.0.same(right.0) && crate::text::same_text(
            left.1,
            right.1,
        ) && left.2 == right.2,
        (None, None) => true,
        _ => false,
    }
}

/// Length of the text of a fragment.
pub fn delta_text_len(event: &AppServerEvent) -> (length: usize)
    ensures
        length == byte_len(fragment_of(event@)),
{
    match event {
        AppServerEvent::AgentMessageDelta { delta, .. } => text_bytes(delta.as_str()),
        AppServerEvent::CommandOutputDelta { delta, .. } => text_bytes(delta.as_str()),
        _ => {
            proof {
                vstd::utf8::is_ascii_chars_encode_utf8(Seq::empty());
            }
            0
        },
    }
}

/// Whether two events are fragments of the same kind.
pub open spec fn same_fragment_kind(left: EventView, right: EventView) -> bool {
    (left is AgentMessageDelta && right is AgentMessageDelta) || (left is CommandOutputDelta
        && right is CommandOutputDelta)
}

/// Appends the text of one fragment to another one of the same kind, where
/// the result stays within the maximum.
pub fn merge_delta(existing: &mut AppServerEvent, incoming: AppServerEvent, maximum: usize) -> (
done: bool)
    ensures
        done == (same_fragment_kind(old(existing)@, incoming@) && byte_len(
            fragment_of(old(existing)@),
        ) + byte_len(fragment_of(incoming@)) <= maximum),
        done ==> final(existing)@ == merged(old(existing)@, incoming@),
        !done ==> *final(existing) == *old(existing),
{
    match (existing, incoming) {
        (
            AppServerEvent::AgentMessageDelta { delta, .. },
            AppServerEvent::AgentMessageDelta { delta: incoming, .. },
        ) => {
            let held: usize = text_bytes(delta.as_str());
            let more: usize = text_bytes(incoming.as_str());
            if held.saturating_add(more) > maximum || held > usize::MAX - more {
                return false;
            }
            delta.append(incoming.as_str());
            true
        },
        (
            AppServerEvent::CommandOutputDelta { delta, .. },
            AppServerEvent::CommandOutputDelta { delta: incoming, .. },
        ) => {
            let held: usize = text_bytes(delta.as_str());
            let more: usize = text_bytes(incoming.as_str());
            if held.saturating_add(more) > maximum || held > usize::MAX - more {
                return false;
            }
            delta.append(incoming.as_str());
            true
        },
        _ => false,
    }
}

/// What an event is taken to say is what it holds, field by field.
pub proof fn events_say_what_they_hold(event: AppServerEvent)
    ensures
        match event {
            AppServerEvent::ThreadStarted { thread_id } => event@ == (EventView::ThreadStarted {
                thread_id: thread_id@,
            }),
            AppServerEvent::TurnStarted { turn } => event@ == (EventView::TurnStarted {
                turn: turn@,
            }),
            AppServerEvent::ItemStarted { turn_id, item } => event@ == (EventView::ItemStarted {
                turn_id: turn_id@,
                item: item@,
            }),
            AppServerEvent::AgentMessageDelta { turn_id, item_id, delta } => event@ == (
            EventView::AgentMessageDelta {
                turn_id: turn_id@,
                item_id: item_id@,
                delta: delta@,
            }),
            AppServerEvent::CommandOutputDelta { turn_id, item_id, delta } => event@ == (
            EventView::CommandOutputDelta {
                turn_id: turn_id@,
                item_id: item_id@,
                delta: delta@,
            }),
            AppServerEvent::ItemCompleted { turn_id, item } => event@ == (
            EventView::ItemCompleted { turn_id: turn_id@, item: item@ }),
            AppServerEvent::TokenUsageUpdated { turn_id, usage } => event@ == (
            EventView::TokenUsageUpdated { turn_id: turn_id@, usage: usage@ }),
            AppServerEvent::TurnCompleted(outcome) => event@ == EventView::TurnCompleted(outcome@),
            AppServerEvent::Error { turn_id, error, will_retry } => event@ == (EventView::Error {
                turn_id: turn_id@,
                error: error@,
                will_retry,
            }),
            AppServerEvent::SubscriptionInvalidated { thread_id, reason } => event@ == (
            EventView::SubscriptionInvalidated { thread_id: thread_id@, reason }),
            AppServerEvent::Unknown { method } => event@ == (EventView::Unknown {
                method: method@,
            }),
            AppServerEvent::ConnectionClosed { exit } => event@ == (EventView::ConnectionClosed {
                exit,
            }),
        },
{
}

/// A fragment belongs to the stream of its turn, its item and its kind, and is
/// joined only by the text of another one; joining keeps the stream.
pub proof fn joined_fragments_keep_their_stream(
    turn_id: Seq<char>,
    item_id: Seq<char>,
    delta: Seq<char>,
    more: EventView,
)
    ensures
        ({
            let said = EventView::AgentMessageDelta { turn_id, item_id, delta };
            let printed = EventView::CommandOutputDelta { turn_id, item_id, delta };
            &&& stream_of(said) == Some((turn_id, item_id, false))
            &&& stream_of(printed) == Some((turn_id, item_id, true))
            &&& fragment_of(said) == delta && fragment_of(printed) == delta
            &&& merged(said, more) == (EventView::AgentMessageDelta {
                turn_id,
                item_id,
                delta: delta + fragment_of(more),
            })
            &&& merged(printed, more) == (EventView::CommandOutputDelta {
                turn_id,
                item_id,
                delta: delta + fragment_of(more),
            })
            &&& stream_of(more) is Some <==> more is AgentMessageDelta || more
                is CommandOutputDelta
            &&& same_fragment_kind(said, more) <==> more is AgentMessageDelta
            &&& same_fragment_kind(printed, more) <==> more is CommandOutputDelta
        }),
{
}

/// A routing name is a text that is not empty and within the bound.
pub proof fn routing_names_are_bounded(text: Seq<char>)
    ensures
        routable(text) <==> 0 < text.len() && byte_len(text) <= ROUTING_ID_BYTE_LIMIT,
{
}

/// An event weighs at least the text that it carries.
pub proof fn events_weigh_what_they_carry(
    turn_id: Seq<char>,
    item_id: Seq<char>,
    delta: Seq<char>,
)
    requires
        128 + byte_len(turn_id) + byte_len(item_id) + byte_len(delta) <= usize::MAX,
    ensures
        event_weight(EventView::AgentMessageDelta { turn_id, item_id, delta }) == 128 + byte_len(
            turn_id,
        ) + byte_len(item_id) + byte_len(delta),
        event_weight(EventView::CommandOutputDelta { turn_id, item_id, delta }) == 128 + byte_len(
            turn_id,
        ) + byte_len(item_id) + byte_len(delta),
        event_weight(EventView::Unknown { method: delta }) == 128 + byte_len(delta),
        event_weight(EventView::ThreadStarted { thread_id: delta }) == 128 + byte_len(delta),
{
}

} // verus!
