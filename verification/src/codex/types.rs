//! Domain values that the router carries.
//!
//! Bodies are kept as JSON. The sizes and fingerprints that routing decides
//! by are measured once, when a value is decoded, and travel with it.
use vstd::prelude::*;

use crate::json::json;
use crate::json::Json;
use crate::text::byte_len;

verus! {

/// Lifecycle state of a turn.
#[derive(Clone, Debug, PartialEq, Eq)]
pub enum TurnStatus {
    Completed,
    Interrupted,
    Failed,
    InProgress,
    Unknown(String),
}

/// Content of a turn status.
pub enum TurnStatusView {
    Completed,
    Interrupted,
    Failed,
    InProgress,
    Unknown(Seq<char>),
}

impl View for TurnStatus {
    type V = TurnStatusView;

    open spec fn view(&self) -> TurnStatusView {
        match self {
            TurnStatus::Completed => TurnStatusView::Completed,
            TurnStatus::Interrupted => TurnStatusView::Interrupted,
            TurnStatus::Failed => TurnStatusView::Failed,
            TurnStatus::InProgress => TurnStatusView::InProgress,
            TurnStatus::Unknown(text) => TurnStatusView::Unknown(text@),
        }
    }
}

impl TurnStatus {
    pub fn duplicate(&self) -> (copy: TurnStatus)
        ensures
            copy@ == self@,
    {
        match self {
            TurnStatus::Completed => TurnStatus::Completed,
            TurnStatus::Interrupted => TurnStatus::Interrupted,
            TurnStatus::Failed => TurnStatus::Failed,
            TurnStatus::InProgress => TurnStatus::InProgress,
            TurnStatus::Unknown(text) => TurnStatus::Unknown(text.clone()),
        }
    }
}

/// How much a decoded value weighs: the length of its JSON text and the
/// estimate of its size in memory.
#[derive(Clone, Copy, Debug, PartialEq, Eq, Structural)]
pub struct Measure {
    pub wire_bytes: usize,
    pub memory_bytes: usize,
}

/// A sum that stops at the largest machine size.
pub open spec fn saturated(total: int) -> int {
    if total > usize::MAX {
        usize::MAX as int
    } else {
        total
    }
}

/// Weight of a value against a maximum: one more than the maximum where its
/// text is longer, else the larger of its two sizes.
pub open spec fn measured_weight(measure: Measure, maximum: int) -> int {
    if measure.wire_bytes > maximum {
        saturated(maximum + 1)
    } else if measure.memory_bytes >= measure.wire_bytes {
        measure.memory_bytes as int
    } else {
        measure.wire_bytes as int
    }
}

/// Weight of a value against a maximum.
pub fn typed_memory_weight(measure: Measure, maximum: usize) -> (weight: usize)
    ensures
        weight == measured_weight(measure, maximum as int),
{
    if measure.wire_bytes > maximum {
        maximum.saturating_add(1)
    } else if measure.memory_bytes >= measure.wire_bytes {
        measure.memory_bytes
    } else {
        measure.wire_bytes
    }
}

/// One item of a turn.
#[derive(Clone)]
pub struct ThreadItem {
    pub id: Option<String>,
    pub kind: String,
    pub measure: Measure,
    pub fingerprint: u64,
    pub body: serde_json::Value,
}

/// Content of an item.
pub struct ItemView {
    pub id: Option<Seq<char>>,
    pub kind: Seq<char>,
    pub measure: Measure,
    pub fingerprint: u64,
    pub body: Json,
}

/// Content of an optional text.
pub open spec fn text_option(text: Option<String>) -> Option<Seq<char>> {
    match text {
        Some(text) => Some(text@),
        None => None,
    }
}

/// An optional text again.
pub fn duplicate_option(text: &Option<String>) -> (copy: Option<String>)
    ensures
        text_option(copy) == text_option(*text),
{
    match text {
        Some(text) => Some(text.clone()),
        None => None,
    }
}

impl View for ThreadItem {
    type V = ItemView;

    open spec fn view(&self) -> ItemView {
        ItemView {
            id: text_option(self.id),
            kind: self.kind@,
            measure: self.measure,
            fingerprint: self.fingerprint,
            body: json(self.body),
        }
    }
}

impl ThreadItem {
    pub fn duplicate(&self) -> (copy: ThreadItem)
        ensures
            copy@ == self@,
    {
        ThreadItem {
            id: duplicate_option(&self.id),
            kind: self.kind.clone(),
            measure: self.measure,
            fingerprint: self.fingerprint,
            body: self.body.clone(),
        }
    }
}

/// Contents of a list of items.
pub open spec fn item_views(items: Seq<ThreadItem>) -> Seq<ItemView> {
    items.map_values(|item: ThreadItem| item@)
}

/// A list of items again.
pub fn duplicate_items(items: &Vec<ThreadItem>) -> (copy: Vec<ThreadItem>)
    ensures
        item_views(copy@) == item_views(items@),
{
    let mut copy: Vec<ThreadItem> = Vec::new();
    let mut at: usize = 0;
    while at < items.len()
        invariant
            at <= items@.len(),
            copy@.len() == at,
            forall|k: int| 0 <= k < at ==> (#[trigger] copy@[k])@ == items@[k]@,
        decreases items@.len() - at,
    {
        copy.push(items[at].duplicate());
        at += 1;
    }
    proof {
        assert(item_views(copy@) =~= item_views(items@));
    }
    copy
}

/// Failure of a turn.
#[derive(Clone)]
pub struct TurnError {
    pub measure: Measure,
    pub body: serde_json::Value,
}

/// Content of a turn failure.
pub struct TurnErrorView {
    pub measure: Measure,
    pub body: Json,
}

impl View for TurnError {
    type V = TurnErrorView;

    open spec fn view(&self) -> TurnErrorView {
        TurnErrorView { measure: self.measure, body: json(self.body) }
    }
}

impl TurnError {
    pub fn duplicate(&self) -> (copy: TurnError)
        ensures
            copy@ == self@,
    {
        TurnError { measure: self.measure, body: self.body.clone() }
    }
}

/// Content of an optional turn failure.
pub open spec fn turn_error_option(error: Option<TurnError>) -> Option<TurnErrorView> {
    match error {
        Some(error) => Some(error@),
        None => None,
    }
}

/// An optional turn failure again.
pub fn duplicate_turn_error(error: &Option<TurnError>) -> (copy: Option<TurnError>)
    ensures
        turn_error_option(copy) == turn_error_option(*error),
{
    match error {
        Some(error) => Some(error.duplicate()),
        None => None,
    }
}

/// One turn as the app-server reports it.
#[derive(Clone)]
pub struct Turn {
    pub id: String,
    pub status: TurnStatus,
    pub error: Option<TurnError>,
    pub items: Vec<ThreadItem>,
    pub measure: Measure,
    pub fingerprint: u64,
}

/// Content of a turn.
pub struct TurnView {
    pub id: Seq<char>,
    pub status: TurnStatusView,
    pub error: Option<TurnErrorView>,
    pub items: Seq<ItemView>,
    pub measure: Measure,
    pub fingerprint: u64,
}

impl View for Turn {
    type V = TurnView;

    open spec fn view(&self) -> TurnView {
        TurnView {
            id: self.id@,
            status: self.status@,
            error: turn_error_option(self.error),
            items: item_views(self.items@),
            measure: self.measure,
            fingerprint: self.fingerprint,
        }
    }
}

impl Turn {
    pub fn duplicate(&self) -> (copy: Turn)
        ensures
            copy@ == self@,
    {
        Turn {
            id: self.id.clone(),
            status: self.status.duplicate(),
            error: duplicate_turn_error(&self.error),
            items: duplicate_items(&self.items),
            measure: self.measure,
            fingerprint: self.fingerprint,
        }
    }
}

/// Token counts of one turn.
#[derive(Clone)]
pub struct TokenUsageBreakdown {
    pub body: serde_json::Value,
}

impl View for TokenUsageBreakdown {
    type V = Json;

    open spec fn view(&self) -> Json {
        json(self.body)
    }
}

impl TokenUsageBreakdown {
    pub fn duplicate(&self) -> (copy: TokenUsageBreakdown)
        ensures
            copy@ == self@,
    {
        TokenUsageBreakdown { body: self.body.clone() }
    }
}

/// Content of optional token counts.
pub open spec fn usage_option(usage: Option<TokenUsageBreakdown>) -> Option<Json> {
    match usage {
        Some(usage) => Some(usage@),
        None => None,
    }
}

/// Optional token counts again.
pub fn duplicate_usage(usage: &Option<TokenUsageBreakdown>) -> (copy: Option<TokenUsageBreakdown>)
    ensures
        usage_option(copy) == usage_option(*usage),
{
    match usage {
        Some(usage) => Some(usage.duplicate()),
        None => None,
    }
}

/// The kind of an error of the operating system's input and output.
#[derive(Clone, Copy, Debug, PartialEq, Eq, Structural)]
pub enum IoErrorKind {
    NotFound,
    PermissionDenied,
    ConnectionRefused,
    ConnectionReset,
    HostUnreachable,
    NetworkUnreachable,
    ConnectionAborted,
    NotConnected,
    AddrInUse,
    AddrNotAvailable,
    NetworkDown,
    BrokenPipe,
    AlreadyExists,
    WouldBlock,
    NotADirectory,
    IsADirectory,
    DirectoryNotEmpty,
    ReadOnlyFilesystem,
    StaleNetworkFileHandle,
    InvalidInput,
    InvalidData,
    TimedOut,
    WriteZero,
    StorageFull,
    NotSeekable,
    QuotaExceeded,
    FileTooLarge,
    ResourceBusy,
    ExecutableFileBusy,
    Deadlock,
    TooManyLinks,
    ArgumentListTooLong,
    Interrupted,
    Unsupported,
    UnexpectedEof,
    OutOfMemory,
    Other,
}

/// How the other side closed a WebSocket: its status, where it gave one.
#[derive(Clone, Copy, Debug, PartialEq, Eq, Structural)]
pub struct WebSocketCloseReport {
    pub code: Option<u16>,
}

/// Why a transport ended.
#[derive(Clone, Copy, Debug, PartialEq, Eq, Structural)]
pub enum TransportExit {
    StdoutEof,
    ReadError(IoErrorKind),
    WriteError(IoErrorKind),
    ProtocolViolation,
    ConnectionFailed,
    WebSocketClosed(WebSocketCloseReport),
    Cancelled,
    Aborted,
    TaskFailed,
}

/// Length of a text in bytes.
pub fn text_bytes(text: &str) -> (length: usize)
    ensures
        length == byte_len(text@),
{
    text.as_bytes().len()
}

/// What a turn is taken to be is what it holds: its identifier, how it stands,
/// its failure, and its items in their order.
pub proof fn turns_are_what_they_hold(turn: Turn, item: ThreadItem, at: int)
    requires
        0 <= at < turn.items@.len(),
    ensures
        turn@.id == turn.id@,
        turn@.status == turn.status@,
        turn@.items.len() == turn.items@.len(),
        turn@.items[at] == turn.items@[at]@,
        turn@.fingerprint == turn.fingerprint,
        turn.error is None <==> turn@.error is None,
        turn.error matches Some(error) ==> turn@.error == Some(error@),
        item.id is None <==> item@.id is None,
        item.id matches Some(id) ==> item@.id == Some(id@),
        item@.fingerprint == item.fingerprint,
        item@.kind == item.kind@,
{
}

} // verus!
