//! Notifications that the router interprets, decoded once.
use vstd::prelude::*;

use crate::codex::client::ThreadId;
use crate::codex::client::TurnId;
use crate::codex::types::saturated;
use crate::codex::types::text_bytes;
use crate::codex::types::ItemView;
use crate::codex::types::ThreadItem;
use crate::codex::types::TokenUsageBreakdown;
use crate::codex::types::Turn;
use crate::codex::types::TurnError;
use crate::codex::types::TurnErrorView;
use crate::codex::types::TurnView;
use crate::json::as_text;
use crate::json::field;
use crate::json::json_option;
use crate::json::member;
use crate::json::Json;
use crate::limits::ROUTING_ID_BYTE_LIMIT;
use crate::text::byte_len;
use crate::text::same_text;

verus! {

/// Which notification a method names.
#[derive(Clone, Copy, Debug, PartialEq, Eq, Structural)]
pub enum NotificationKind {
    ThreadStarted,
    TurnStarted,
    ItemStarted,
    AgentMessageDelta,
    CommandOutputDelta,
    ItemCompleted,
    TokenUsageUpdated,
    Error,
    TurnCompleted,
    Other,
}

/// Canonical successful lifecycle order of a turn.
pub const NORMAL_NOTIFICATION_ORDER: [&'static str; 8] = [
    "thread/started",
    "turn/started",
    "item/started",
    "item/agentMessage/delta",
    "item/commandExecution/outputDelta",
    "item/completed",
    "thread/tokenUsage/updated",
    "turn/completed",
];

/// Every notification whose parameters the router interprets.
pub const CONSUMED_NOTIFICATION_METHODS: [&'static str; 9] = [
    "thread/started",
    "turn/started",
    "item/started",
    "item/agentMessage/delta",
    "item/commandExecution/outputDelta",
    "item/completed",
    "thread/tokenUsage/updated",
    "error",
    "turn/completed",
];

/// The method of an interpreted notification.
pub open spec fn kind_method(kind: NotificationKind) -> Seq<char> {
    match kind {
        NotificationKind::ThreadStarted => "thread/started"@,
        NotificationKind::TurnStarted => "turn/started"@,
        NotificationKind::ItemStarted => "item/started"@,
        NotificationKind::AgentMessageDelta => "item/agentMessage/delta"@,
        NotificationKind::CommandOutputDelta => "item/commandExecution/outputDelta"@,
        NotificationKind::ItemCompleted => "item/completed"@,
        NotificationKind::TokenUsageUpdated => "thread/tokenUsage/updated"@,
        NotificationKind::Error => "error"@,
        NotificationKind::TurnCompleted => "turn/completed"@,
        NotificationKind::Other => Seq::empty(),
    }
}

/// Whether the router interprets the parameters of a method.
pub open spec fn consumed(method: Seq<char>) -> bool {
    exists|kind: NotificationKind|
        kind != NotificationKind::Other && #[trigger] kind_method(kind) == method
}

/// The method that a kind stands for.
pub fn method_of_kind(kind: NotificationKind) -> (method: &'static str)
    requires
        kind != NotificationKind::Other,
    ensures
        method@ == kind_method(kind),
{
    match kind {
        NotificationKind::ThreadStarted => "thread/started",
        NotificationKind::TurnStarted => "turn/started",
        NotificationKind::ItemStarted => "item/started",
        NotificationKind::AgentMessageDelta => "item/agentMessage/delta",
        NotificationKind::CommandOutputDelta => "item/commandExecution/outputDelta",
        NotificationKind::ItemCompleted => "item/completed",
        NotificationKind::TokenUsageUpdated => "thread/tokenUsage/updated",
        NotificationKind::Error => "error",
        _ => "turn/completed",
    }
}

/// Which notification a method names; every interpreted method has its own
/// kind and every other method none.
pub fn notification_kind(method: &str) -> (kind: NotificationKind)
    ensures
        kind == NotificationKind::Other <==> !consumed(method@),
        kind != NotificationKind::Other ==> kind_method(kind) == method@,
{
    let kind = if same_text(method, "thread/started") {
        NotificationKind::ThreadStarted
    } else if same_text(method, "turn/started") {
        NotificationKind::TurnStarted
    } else if same_text(method, "item/started") {
        NotificationKind::ItemStarted
    } else if same_text(method, "item/agentMessage/delta") {
        NotificationKind::AgentMessageDelta
    } else if same_text(method, "item/commandExecution/outputDelta") {
        NotificationKind::CommandOutputDelta
    } else if same_text(method, "item/completed") {
        NotificationKind::ItemCompleted
    } else if same_text(method, "thread/tokenUsage/updated") {
        NotificationKind::TokenUsageUpdated
    } else if same_text(method, "error") {
        NotificationKind::Error
    } else if same_text(method, "turn/completed") {
        NotificationKind::TurnCompleted
    } else {
        NotificationKind::Other
    };
    proof {
        if kind != NotificationKind::Other {
            assert(kind_method(kind) == method@);
        } else if consumed(method@) {
            let held = choose|held: NotificationKind|
                held != NotificationKind::Other && #[trigger] kind_method(held) == method@;
            assert(kind_method(held) == method@);
        }
    }
    kind
}

/// The catalogue of interpreted notifications and their dispatch agree: every
/// method of the catalogue has a kind, every kind stands in the catalogue, and
/// the normal order holds nothing else.
pub proof fn catalogue_and_dispatch_agree(method: Seq<char>)
    ensures
        consumed(method) <==> exists|k: int|
            0 <= k < 9 && (#[trigger] CONSUMED_NOTIFICATION_METHODS@[k])@ == method,
        forall|k: int| 0 <= k < 8 ==> consumed((#[trigger] NORMAL_NOTIFICATION_ORDER@[k])@),
{
    let methods = CONSUMED_NOTIFICATION_METHODS@;
    assert(kind_method(NotificationKind::ThreadStarted) == methods[0]@);
    assert(kind_method(NotificationKind::TurnStarted) == methods[1]@);
    assert(kind_method(NotificationKind::ItemStarted) == methods[2]@);
    assert(kind_method(NotificationKind::AgentMessageDelta) == methods[3]@);
    assert(kind_method(NotificationKind::CommandOutputDelta) == methods[4]@);
    assert(kind_method(NotificationKind::ItemCompleted) == methods[5]@);
    assert(kind_method(NotificationKind::TokenUsageUpdated) == methods[6]@);
    assert(kind_method(NotificationKind::Error) == methods[7]@);
    assert(kind_method(NotificationKind::TurnCompleted) == methods[8]@);
    let order = NORMAL_NOTIFICATION_ORDER@;
    assert(kind_method(NotificationKind::TurnCompleted) == order[7]@);
    if consumed(method) {
        let kind = choose|kind: NotificationKind|
            kind != NotificationKind::Other && #[trigger] kind_method(kind) == method;
        assert(exists|k: int| 0 <= k < 9 && (#[trigger] methods[k])@ == method);
    }
}

/// One text fragment of an item.
pub struct DeltaParams {
    pub thread_id: ThreadId,
    pub turn_id: TurnId,
    pub item_id: String,
    pub delta: String,
}

/// An item of a turn of a thread.
pub struct ItemParams {
    pub thread_id: ThreadId,
    pub turn_id: TurnId,
    pub item: ThreadItem,
}

/// A turn of a thread.
pub struct TurnParams {
    pub thread_id: ThreadId,
    pub turn: Turn,
}

/// Token counts of a turn of a thread.
pub struct UsageParams {
    pub thread_id: ThreadId,
    pub turn_id: TurnId,
    pub usage: TokenUsageBreakdown,
}

/// A failure of a turn of a thread.
pub struct ErrorParams {
    pub thread_id: ThreadId,
    pub turn_id: TurnId,
    pub error: TurnError,
    pub will_retry: bool,
}

/// The parameters of a notification; nothing where they could not be decoded.
pub enum Content {
    ThreadStarted(Option<ThreadId>),
    TurnStarted(Option<TurnParams>),
    ItemStarted(Option<ItemParams>),
    AgentMessageDelta(Option<DeltaParams>),
    CommandOutputDelta(Option<DeltaParams>),
    ItemCompleted(Option<ItemParams>),
    TokenUsageUpdated(Option<UsageParams>),
    Error(Option<ErrorParams>),
    TurnCompleted(Option<TurnParams>),
    Other { method: String },
}

/// Content of a text fragment.
pub struct DeltaView {
    pub thread_id: Seq<char>,
    pub turn_id: Seq<char>,
    pub item_id: Seq<char>,
    pub delta: Seq<char>,
}

/// Content of decoded parameters.
pub enum ContentView {
    ThreadStarted(Option<Seq<char>>),
    TurnStarted(Option<(Seq<char>, TurnView)>),
    ItemStarted(Option<(Seq<char>, Seq<char>, ItemView)>),
    AgentMessageDelta(Option<DeltaView>),
    CommandOutputDelta(Option<DeltaView>),
    ItemCompleted(Option<(Seq<char>, Seq<char>, ItemView)>),
    TokenUsageUpdated(Option<(Seq<char>, Seq<char>, Json)>),
    Error(Option<(Seq<char>, Seq<char>, TurnErrorView, bool)>),
    TurnCompleted(Option<(Seq<char>, TurnView)>),
    Other { method: Seq<char> },
}

pub open spec fn delta_view(params: Option<DeltaParams>) -> Option<DeltaView> {
    match params {
        Some(params) => Some(
            DeltaView {
                thread_id: params.thread_id@,
                turn_id: params.turn_id@,
                item_id: params.item_id@,
                delta: params.delta@,
            },
        ),
        None => None,
    }
}

pub open spec fn item_view(params: Option<ItemParams>) -> Option<(Seq<char>, Seq<char>, ItemView)> {
    match params {
        Some(params) => Some((params.thread_id@, params.turn_id@, params.item@)),
        None => None,
    }
}

pub open spec fn turn_view(params: Option<TurnParams>) -> Option<(Seq<char>, TurnView)> {
    match params {
        Some(params) => Some((params.thread_id@, params.turn@)),
        None => None,
    }
}

impl View for Content {
    type V = ContentView;

    open spec fn view(&self) -> ContentView {
        match *self {
            Content::ThreadStarted(id) => ContentView::ThreadStarted(
                match id {
                    Some(id) => Some(id@),
                    None => None,
                },
            ),
            Content::TurnStarted(params) => ContentView::TurnStarted(turn_view(params)),
            Content::ItemStarted(params) => ContentView::ItemStarted(item_view(params)),
            Content::AgentMessageDelta(params) => ContentView::AgentMessageDelta(
                delta_view(params),
            ),
            Content::CommandOutputDelta(params) => ContentView::CommandOutputDelta(
                delta_view(params),
            ),
            Content::ItemCompleted(params) => ContentView::ItemCompleted(item_view(params)),
            Content::TokenUsageUpdated(params) => ContentView::TokenUsageUpdated(
                match params {
                    Some(params) => Some((params.thread_id@, params.turn_id@, params.usage@)),
                    None => None,
                },
            ),
            Content::Error(params) => ContentView::Error(
                match params {
                    Some(params) => Some(
                        (params.thread_id@, params.turn_id@, params.error@, params.will_retry),
                    ),
                    None => None,
                },
            ),
            Content::TurnCompleted(params) => ContentView::TurnCompleted(turn_view(params)),
            Content::Other { method } => ContentView::Other { method: method@ },
        }
    }
}

/// The method of a notification.
pub open spec fn content_method(content: ContentView) -> Seq<char> {
    match content {
        ContentView::ThreadStarted(_) => "thread/started"@,
        ContentView::TurnStarted(_) => "turn/started"@,
        ContentView::ItemStarted(_) => "item/started"@,
        ContentView::AgentMessageDelta(_) => "item/agentMessage/delta"@,
        ContentView::CommandOutputDelta(_) => "item/commandExecution/outputDelta"@,
        ContentView::ItemCompleted(_) => "item/completed"@,
        ContentView::TokenUsageUpdated(_) => "thread/tokenUsage/updated"@,
        ContentView::Error(_) => "error"@,
        ContentView::TurnCompleted(_) => "turn/completed"@,
        ContentView::Other { method } => method,
    }
}

/// Whether a method names a notification that may never be missed.
pub open spec fn client_authoritative(method: Seq<char>) -> bool {
    ||| method == "item/completed"@
    ||| method == "turn/completed"@
    ||| method == "error"@
}

/// Whether a notification may never be missed.
pub open spec fn authoritative(content: ContentView) -> bool {
    match content {
        ContentView::ItemCompleted(_) => true,
        ContentView::TurnCompleted(_) => true,
        ContentView::Error(_) => true,
        ContentView::Other { method } => client_authoritative(method),
        _ => false,
    }
}

/// Whether a notification that the router interprets was left undispatched.
pub open spec fn undispatched(content: ContentView) -> bool {
    content matches ContentView::Other { method } && consumed(method)
}

/// Whether a method names a notification that may never be missed.
pub fn is_client_authoritative_notification(method: &str) -> (authoritative: bool)
    ensures
        authoritative == client_authoritative(method@),
{
    same_text(method, "item/completed") || same_text(method, "turn/completed") || same_text(
        method,
        "error",
    )
}

impl Content {
    pub fn method(&self) -> (method: &str)
        ensures
            method@ == content_method(self@),
    {
        match self {
            Content::ThreadStarted(_) => "thread/started",
            Content::TurnStarted(_) => "turn/started",
            Content::ItemStarted(_) => "item/started",
            Content::AgentMessageDelta(_) => "item/agentMessage/delta",
            Content::CommandOutputDelta(_) => "item/commandExecution/outputDelta",
            Content::ItemCompleted(_) => "item/completed",
            Content::TokenUsageUpdated(_) => "thread/tokenUsage/updated",
            Content::Error(_) => "error",
            Content::TurnCompleted(_) => "turn/completed",
            Content::Other { method } => method.as_str(),
        }
    }

    pub fn is_authoritative(&self) -> (held: bool)
        ensures
            held == authoritative(self@),
    {
        match self {
            Content::ItemCompleted(_) => true,
            Content::TurnCompleted(_) => true,
            Content::Error(_) => true,
            Content::Other { method } => is_client_authoritative_notification(method.as_str()),
            _ => false,
        }
    }
}

/// A notification as it arrived: its raw parameters, what they weigh in
/// memory, and what they were decoded to.
pub struct Notification {
    pub params: Option<serde_json::Value>,
    pub params_bytes: usize,
    pub content: Content,
}

/// Content of a notification: the thread that its raw parameters name, and
/// what was decoded.
pub struct NotificationView {
    pub thread_id: Option<Seq<char>>,
    pub params_bytes: usize,
    pub content: ContentView,
}

/// The thread that raw parameters name.
pub open spec fn named_thread(params: Option<Json>) -> Option<Seq<char>> {
    match params {
        Some(Json::Object(object)) => match member(object, "threadId"@) {
            Some(Json::Text(text)) => Some(text),
            _ => None,
        },
        _ => None,
    }
}

impl View for Notification {
    type V = NotificationView;

    open spec fn view(&self) -> NotificationView {
        NotificationView {
            thread_id: named_thread(json_option(self.params)),
            params_bytes: self.params_bytes,
            content: self.content@,
        }
    }
}

/// The thread that raw parameters name.
pub fn extract_thread_id(params: &Option<serde_json::Value>) -> (id: Option<ThreadId>)
    ensures
        match id {
            Some(id) => named_thread(json_option(*params)) == Some(id@),
            None => named_thread(json_option(*params)) is None,
        },
{
    match params {
        Some(params) => match field(params, "threadId") {
            Some(inner) => match as_text(inner) {
                Some(text) => Some(ThreadId::new(text.to_owned())),
                None => None,
            },
            None => None,
        },
        None => None,
    }
}

/// Bytes that a deferred notification is taken to retain.
pub open spec fn notification_weight(notification: NotificationView) -> int {
    saturated(byte_len(content_method(notification.content)) + notification.params_bytes + 128)
}

impl Notification {
    /// Bytes that the notification is taken to retain while it is deferred.
    pub fn weight(&self) -> (weight: usize)
        ensures
            weight == notification_weight(self@),
    {
        text_bytes(self.content.method()).saturating_add(self.params_bytes).saturating_add(128)
    }
}

/// A method as it may be reported: an oversized one only by that word.
pub open spec fn reported_method(method: Seq<char>) -> Seq<char> {
    if byte_len(method) <= ROUTING_ID_BYTE_LIMIT {
        method
    } else {
        "oversized-method"@
    }
}

/// A method as it may be reported.
pub fn bounded_method(method: &str) -> (reported: String)
    ensures
        reported@ == reported_method(method@),
{
    if text_bytes(method) <= ROUTING_ID_BYTE_LIMIT {
        method.to_owned()
    } else {
        "oversized-method".to_owned()
    }
}

/// Content is reported under the method that it came by.
pub proof fn contents_keep_their_method(content: ContentView)
    ensures
        ({
            let method = content_method(content);
            match content {
                ContentView::ThreadStarted(_) => method == kind_method(
                    NotificationKind::ThreadStarted,
                ) && method == "thread/started"@,
                ContentView::TurnStarted(_) => method == kind_method(NotificationKind::TurnStarted)
                    && method == "turn/started"@,
                ContentView::ItemStarted(_) => method == kind_method(NotificationKind::ItemStarted)
                    && method == "item/started"@,
                ContentView::AgentMessageDelta(_) => method == kind_method(
                    NotificationKind::AgentMessageDelta,
                ) && method == "item/agentMessage/delta"@,
                ContentView::CommandOutputDelta(_) => method == kind_method(
                    NotificationKind::CommandOutputDelta,
                ) && method == "item/commandExecution/outputDelta"@,
                ContentView::ItemCompleted(_) => method == kind_method(
                    NotificationKind::ItemCompleted,
                ) && method == "item/completed"@,
                ContentView::TokenUsageUpdated(_) => method == kind_method(
                    NotificationKind::TokenUsageUpdated,
                ) && method == "thread/tokenUsage/updated"@,
                ContentView::Error(_) => method == kind_method(NotificationKind::Error) && method
                    == "error"@,
                ContentView::TurnCompleted(_) => method == kind_method(
                    NotificationKind::TurnCompleted,
                ) && method == "turn/completed"@,
                ContentView::Other { method: held } => method == held,
            }
        }),
{
}

/// What may never be missed is the end of an item, of a turn, and an error:
/// decoded or not, it is told by its method.
pub proof fn ends_and_errors_are_authoritative(content: ContentView)
    ensures
        authoritative(content) <==> content_method(content) == "item/completed"@ || content_method(
            content,
        ) == "turn/completed"@ || content_method(content) == "error"@,
{
    reveal_strlit("thread/started");
    reveal_strlit("turn/started");
    reveal_strlit("item/started");
    reveal_strlit("item/agentMessage/delta");
    reveal_strlit("item/commandExecution/outputDelta");
    reveal_strlit("item/completed");
    reveal_strlit("thread/tokenUsage/updated");
    reveal_strlit("error");
    reveal_strlit("turn/completed");
    assert("turn/started"@.len() == 12 && "item/started"@.len() == 12);
    assert("item/agentMessage/delta"@.len() == 23);
    assert("item/commandExecution/outputDelta"@.len() == 33);
    assert("thread/tokenUsage/updated"@.len() == 25);
    assert("item/completed"@.len() == 14 && "turn/completed"@.len() == 14 && "error"@.len() == 5);
    assert("thread/started"@[1] == 'h' && "item/completed"@[1] == 't' && "turn/completed"@[1]
        == 'u');
}

/// A method is reported as it is unless it is over the bound; what is reported
/// is always within it.
pub proof fn reported_methods_are_bounded(method: Seq<char>)
    ensures
        byte_len(method) <= ROUTING_ID_BYTE_LIMIT ==> reported_method(method) == method,
        byte_len(method) > ROUTING_ID_BYTE_LIMIT ==> reported_method(method)
            == "oversized-method"@,
{
}

/// What a notification is taken to hold is what was decoded: of its own kind,
/// with its own thread, turn, item and text.
pub proof fn contents_are_what_was_decoded(
    delta: DeltaParams,
    item: ItemParams,
    turn: TurnParams,
    usage: UsageParams,
    error: ErrorParams,
    started: ThreadId,
    method: String,
)
    ensures
        ({
            let fragment = DeltaView {
                thread_id: delta.thread_id@,
                turn_id: delta.turn_id@,
                item_id: delta.item_id@,
                delta: delta.delta@,
            };
            let of_item = (item.thread_id@, item.turn_id@, item.item@);
            let of_turn = (turn.thread_id@, turn.turn@);
            &&& Content::AgentMessageDelta(Some(delta))@ == ContentView::AgentMessageDelta(
                Some(fragment),
            )
            &&& Content::CommandOutputDelta(Some(delta))@ == ContentView::CommandOutputDelta(
                Some(fragment),
            )
            &&& Content::ItemStarted(Some(item))@ == ContentView::ItemStarted(Some(of_item))
            &&& Content::ItemCompleted(Some(item))@ == ContentView::ItemCompleted(Some(of_item))
            &&& Content::TurnStarted(Some(turn))@ == ContentView::TurnStarted(Some(of_turn))
            &&& Content::TurnCompleted(Some(turn))@ == ContentView::TurnCompleted(Some(of_turn))
            &&& Content::TokenUsageUpdated(Some(usage))@ == ContentView::TokenUsageUpdated(
                Some((usage.thread_id@, usage.turn_id@, usage.usage@)),
            )
            &&& Content::Error(Some(error))@ == ContentView::Error(
                Some((error.thread_id@, error.turn_id@, error.error@, error.will_retry)),
            )
            &&& Content::ThreadStarted(Some(started))@ == ContentView::ThreadStarted(
                Some(started@),
            )
            &&& Content::Other { method }@ == (ContentView::Other { method: method@ })
            &&& Content::AgentMessageDelta(None)@ == ContentView::AgentMessageDelta(None)
            &&& Content::CommandOutputDelta(None)@ == ContentView::CommandOutputDelta(None)
            &&& Content::ItemCompleted(None)@ == ContentView::ItemCompleted(None)
            &&& Content::TurnCompleted(None)@ == ContentView::TurnCompleted(None)
            &&& Content::Error(None)@ == ContentView::Error(None)
        }),
{
}

/// The thread that raw parameters name is the text under that one name, and
/// nothing else is taken for it.
pub proof fn threads_are_named_by_one_member(members: Map<Seq<char>, Json>, params: Json)
    ensures
        member(members, "threadId"@) matches Some(Json::Text(text)) ==> named_thread(
            Some(Json::Object(members)),
        ) == Some(text),
        !(member(members, "threadId"@) matches Some(Json::Text(_))) ==> named_thread(
            Some(Json::Object(members)),
        ) is None,
        !(params is Object) ==> named_thread(Some(params)) is None,
        named_thread(None) is None,
{
}

/// A deferred notification weighs more than its method and its parameters
/// together.
pub proof fn notifications_weigh_what_they_hold(notification: NotificationView)
    requires
        byte_len(content_method(notification.content)) + notification.params_bytes + 128
            <= usize::MAX,
    ensures
        notification_weight(notification) == byte_len(content_method(notification.content))
            + notification.params_bytes + 128,
{
}

} // verus!
