//! Provider-neutral channel values. Vendor SDK values stay outside; what is
//! here carries identifiers and classifications, and shows neither content nor
//! identifiers in diagnostics.
use vstd::prelude::*;

use crate::codex::types::text_bytes;
use crate::text::append_decimal;
use crate::text::byte_len;
use crate::text::decimal;
use vstd::string::StringExecFns;

pub mod native;
pub mod session;
pub mod sidecar;
pub mod wire;

verus! {

/// Lifecycle state shared by every inbound implementation.
pub enum ConnectionState {
    /// A bootstrap and connect attempt is in progress.
    Connecting {
        /// One-based attempt number within the current outage.
        attempt: u32,
    },
    /// Inbound delivery is live.
    Connected,
    /// The source is waiting before retrying.
    Backoff {
        /// Consecutive failures in the current outage.
        attempt: u32,
        /// Bounded delay before the next attempt, in milliseconds.
        delay_ms: u64,
    },
    /// A non-retryable failure stopped the source.
    Degraded {
        /// Static classification, never provider text or credentials.
        reason: &'static str,
    },
    /// The source shut down cleanly.
    Stopped,
}

/// Content of a lifecycle state.
pub enum ConnectionView {
    Connecting { attempt: u32 },
    Connected,
    Backoff { attempt: u32, delay_ms: u64 },
    Degraded { reason: Seq<char> },
    Stopped,
}

impl View for ConnectionState {
    type V = ConnectionView;

    open spec fn view(&self) -> ConnectionView {
        match *self {
            ConnectionState::Connecting { attempt } => ConnectionView::Connecting { attempt },
            ConnectionState::Connected => ConnectionView::Connected,
            ConnectionState::Backoff { attempt, delay_ms } => ConnectionView::Backoff {
                attempt,
                delay_ms,
            },
            ConnectionState::Degraded { reason } => ConnectionView::Degraded { reason: reason@ },
            ConnectionState::Stopped => ConnectionView::Stopped,
        }
    }
}

/// Coarse, provider-independent failure kind for query and media operations.
#[derive(Clone, Copy, Debug, PartialEq, Eq, Structural)]
pub enum ChannelErrorKind {
    /// Authentication or authorization cannot succeed without intervention.
    PermanentAuth,
    /// A bounded retry can succeed.
    Retryable,
    /// The provider or sidecar violated the capability contract.
    Protocol,
    /// A configured count, byte, or time bound was exceeded.
    Exhausted,
}

/// The name of a failure kind.
pub open spec fn error_kind_name(kind: ChannelErrorKind) -> Seq<char> {
    match kind {
        ChannelErrorKind::PermanentAuth => "PermanentAuth"@,
        ChannelErrorKind::Retryable => "Retryable"@,
        ChannelErrorKind::Protocol => "Protocol"@,
        ChannelErrorKind::Exhausted => "Exhausted"@,
    }
}

/// Content-free query or media failure.
#[derive(Clone, Copy, PartialEq, Eq)]
pub struct ChannelError {
    kind: ChannelErrorKind,
    context: &'static str,
}

/// Content of a query or media failure.
pub struct ChannelErrorView {
    pub kind: ChannelErrorKind,
    pub context: Seq<char>,
}

impl View for ChannelError {
    type V = ChannelErrorView;

    closed spec fn view(&self) -> ChannelErrorView {
        ChannelErrorView { kind: self.kind, context: self.context@ }
    }
}

impl ChannelError {
    /// A classified error with a static, non-sensitive context.
    pub fn new(kind: ChannelErrorKind, context: &'static str) -> (error: ChannelError)
        ensures
            error@ == (ChannelErrorView { kind, context: context@ }),
    {
        ChannelError { kind, context }
    }

    /// The stable failure kind.
    pub fn kind(self) -> (kind: ChannelErrorKind)
        ensures
            kind == self@.kind,
    {
        self.kind
    }

    /// How the failure is shown: as it is reported.
    pub fn debug_text(self) -> (text: String)
        ensures
            text@ == "channel "@ + error_kind_name(self@.kind) + " failure while "@
                + self@.context,
    {
        self.to_text()
    }

    /// What the failure is reported as.
    pub fn to_text(self) -> (text: String)
        ensures
            text@ == "channel "@ + error_kind_name(self@.kind) + " failure while "@
                + self@.context,
    {
        let mut text = "channel ".to_owned();
        text.append(
            match self.kind {
                ChannelErrorKind::PermanentAuth => "PermanentAuth",
                ChannelErrorKind::Retryable => "Retryable",
                ChannelErrorKind::Protocol => "Protocol",
                ChannelErrorKind::Exhausted => "Exhausted",
            },
        );
        text.append(" failure while ");
        text.append(self.context);
        text
    }
}

/// Provider-neutral conversation mode needed by scope normalization.
#[derive(Clone, Copy, Debug, PartialEq, Eq, Structural)]
pub enum ConversationMode {
    /// Direct conversation.
    P2p,
    /// Plain group conversation.
    Group,
    /// Topic or threaded group conversation.
    Topic,
}

/// Minimal message fields needed for reply-chain and topic resolution.
#[derive(Clone, PartialEq, Eq)]
pub struct MessageSnapshot {
    /// Provider message identifier.
    pub message_id: String,
    /// Owning conversation identifier.
    pub chat_id: String,
    /// Open provider chat-type spelling.
    pub chat_type: String,
    /// Open provider message-type spelling.
    pub message_type: String,
    /// Reply root, when present.
    pub root_id: Option<String>,
    /// Immediate parent, when present.
    pub parent_id: Option<String>,
    /// Topic identifier, when present.
    pub thread_id: Option<String>,
}

/// How a truth value is shown.
pub open spec fn flag_text(flag: bool) -> Seq<char> {
    if flag {
        "true"@
    } else {
        "false"@
    }
}

fn append_flag(text: &mut String, flag: bool)
    ensures
        final(text)@ == old(text)@ + flag_text(flag),
{
    if flag {
        text.append("true");
    } else {
        text.append("false");
    }
}

fn append_length(text: &mut String, value: &str)
    ensures
        final(text)@ == old(text)@ + decimal(byte_len(value@)),
{
    append_decimal(text, text_bytes(value) as u64);
}

impl MessageSnapshot {
    /// How the snapshot is shown: by lengths and presence alone.
    pub fn debug_text(&self) -> (text: String)
        ensures
            text@ == "MessageSnapshot { message_id_len: "@ + decimal(byte_len(self.message_id@))
                + ", chat_id_len: "@ + decimal(byte_len(self.chat_id@)) + ", chat_type_len: "@
                + decimal(byte_len(self.chat_type@)) + ", message_type_len: "@ + decimal(
                byte_len(self.message_type@),
            ) + ", has_root: "@ + flag_text(self.root_id is Some) + ", has_parent: "@ + flag_text(
                self.parent_id is Some,
            ) + ", has_thread: "@ + flag_text(self.thread_id is Some) + " }"@,
    {
        let mut text = "MessageSnapshot { message_id_len: ".to_owned();
        append_length(&mut text, self.message_id.as_str());
        text.append(", chat_id_len: ");
        append_length(&mut text, self.chat_id.as_str());
        text.append(", chat_type_len: ");
        append_length(&mut text, self.chat_type.as_str());
        text.append(", message_type_len: ");
        append_length(&mut text, self.message_type.as_str());
        text.append(", has_root: ");
        append_flag(&mut text, self.root_id.is_some());
        text.append(", has_parent: ");
        append_flag(&mut text, self.parent_id.is_some());
        text.append(", has_thread: ");
        append_flag(&mut text, self.thread_id.is_some());
        text.append(" }");
        text
    }
}

/// Provider-neutral resource selector.
#[derive(Clone, Copy, Debug, PartialEq, Eq, Structural)]
pub enum MediaKind {
    /// Image resource.
    Image,
    /// File-backed resource: file, audio, video or sticker.
    File,
}

impl MediaKind {
    /// The provider's name of the kind.
    pub fn as_provider_str(self) -> (name: &'static str)
        ensures
            name@ == match self {
                MediaKind::Image => "image"@,
                MediaKind::File => "file"@,
            },
    {
        match self {
            MediaKind::Image => "image",
            MediaKind::File => "file",
        }
    }
}

/// Controlled media request. Identifiers are opaque provider handles, never
/// local paths or URLs.
pub struct MediaRequest {
    /// Owning message identifier.
    pub message_id: String,
    /// Opaque resource key.
    pub resource_key: String,
    /// Provider-neutral resource kind.
    pub kind: MediaKind,
}

impl MediaRequest {
    /// How the request is shown: by lengths and kind.
    pub fn debug_text(&self) -> (text: String)
        ensures
            text@ == "MediaRequest { message_id_len: "@ + decimal(byte_len(self.message_id@))
                + ", resource_key_len: "@ + decimal(byte_len(self.resource_key@)) + match self.kind {
                MediaKind::Image => ", kind: Image }"@,
                MediaKind::File => ", kind: File }"@,
            },
    {
        let mut text = "MediaRequest { message_id_len: ".to_owned();
        append_length(&mut text, self.message_id.as_str());
        text.append(", resource_key_len: ");
        append_length(&mut text, self.resource_key.as_str());
        text.append(
            match self.kind {
                MediaKind::Image => ", kind: Image }",
                MediaKind::File => ", kind: File }",
            },
        );
        text
    }
}

/// One provider-neutral outbound operation.
pub enum OutboundRequest {
    /// Reply with plain text.
    ReplyText {
        /// Parent message.
        message_id: String,
        /// Whether to keep the reply inside its topic.
        in_thread: bool,
        /// Reply content.
        text: String,
    },
    /// Reply with a markdown post.
    ReplyMarkdownPost {
        /// Parent message.
        message_id: String,
        /// Whether to keep the reply inside its topic.
        in_thread: bool,
        /// Post content.
        markdown: String,
    },
    /// Reply with an interactive card.
    ReplyCard {
        /// Parent message.
        message_id: String,
        /// Whether to keep the reply inside its topic.
        in_thread: bool,
        /// Card content.
        card: serde_json::Value,
    },
    /// Update an existing interactive card.
    UpdateCard {
        /// Existing message identifier.
        message_id: String,
        /// Card content.
        card: serde_json::Value,
    },
}

/// How an operation is shown: by lengths and placement, never by content.
pub open spec fn outbound_text(request: OutboundRequest) -> Seq<char> {
    match request {
        OutboundRequest::ReplyText { message_id, in_thread, text } =>
            "ReplyText { message_id_len: "@ + decimal(byte_len(message_id@)) + ", in_thread: "@
                + flag_text(in_thread) + ", text_len: "@ + decimal(byte_len(text@)) + " }"@,
        OutboundRequest::ReplyMarkdownPost { message_id, in_thread, markdown } =>
            "ReplyMarkdownPost { message_id_len: "@ + decimal(byte_len(message_id@))
                + ", in_thread: "@ + flag_text(in_thread) + ", markdown_len: "@ + decimal(
                byte_len(markdown@),
            ) + " }"@,
        OutboundRequest::ReplyCard { message_id, in_thread, .. } =>
            "ReplyCard { message_id_len: "@ + decimal(byte_len(message_id@)) + ", in_thread: "@
                + flag_text(in_thread) + " }"@,
        OutboundRequest::UpdateCard { message_id, .. } => "UpdateCard { message_id_len: "@
            + decimal(byte_len(message_id@)) + " }"@,
    }
}

impl OutboundRequest {
    /// How the operation is shown.
    pub fn debug_text(&self) -> (shown: String)
        ensures
            shown@ == outbound_text(*self),
    {
        match self {
            OutboundRequest::ReplyText { message_id, in_thread, text } => {
                let mut shown = "ReplyText { message_id_len: ".to_owned();
                append_length(&mut shown, message_id.as_str());
                shown.append(", in_thread: ");
                append_flag(&mut shown, *in_thread);
                shown.append(", text_len: ");
                append_length(&mut shown, text.as_str());
                shown.append(" }");
                shown
            },
            OutboundRequest::ReplyMarkdownPost { message_id, in_thread, markdown } => {
                let mut shown = "ReplyMarkdownPost { message_id_len: ".to_owned();
                append_length(&mut shown, message_id.as_str());
                shown.append(", in_thread: ");
                append_flag(&mut shown, *in_thread);
                shown.append(", markdown_len: ");
                append_length(&mut shown, markdown.as_str());
                shown.append(" }");
                shown
            },
            OutboundRequest::ReplyCard { message_id, in_thread, .. } => {
                let mut shown = "ReplyCard { message_id_len: ".to_owned();
                append_length(&mut shown, message_id.as_str());
                shown.append(", in_thread: ");
                append_flag(&mut shown, *in_thread);
                shown.append(" }");
                shown
            },
            OutboundRequest::UpdateCard { message_id, .. } => {
                let mut shown = "UpdateCard { message_id_len: ".to_owned();
                append_length(&mut shown, message_id.as_str());
                shown.append(" }");
                shown
            },
        }
    }
}

/// Successful provider receipt.
#[derive(Clone, PartialEq, Eq)]
pub struct DeliveryReceipt {
    /// Server-assigned message identifier. For updates this is the updated one.
    pub message_id: String,
}

impl DeliveryReceipt {
    /// How the receipt is shown: by length alone.
    pub fn debug_text(&self) -> (text: String)
        ensures
            text@ == "DeliveryReceipt { message_id_len: "@ + decimal(byte_len(self.message_id@))
                + " }"@,
    {
        let mut text = "DeliveryReceipt { message_id_len: ".to_owned();
        append_length(&mut text, self.message_id.as_str());
        text.append(" }");
        text
    }
}

/// Three-way failure classification required by the durable outbox.
#[derive(Clone, Copy, Debug, PartialEq, Eq, Structural)]
pub enum DeliveryFailureClass {
    /// The provider definitively rejected the request and retrying may work.
    Retryable,
    /// The request may have reached the provider; automatic retry is unsafe.
    Uncertain,
    /// The request definitively cannot succeed without changing input or
    /// configuration.
    Definitive,
}

/// The name of a failure class.
pub open spec fn failure_class_name(class: DeliveryFailureClass) -> Seq<char> {
    match class {
        DeliveryFailureClass::Retryable => "Retryable"@,
        DeliveryFailureClass::Uncertain => "Uncertain"@,
        DeliveryFailureClass::Definitive => "Definitive"@,
    }
}

/// Content-free outbound failure.
#[derive(Clone, Copy, PartialEq, Eq)]
pub struct DeliveryError {
    class: DeliveryFailureClass,
    context: &'static str,
    patch_retryable: bool,
}

/// Content of an outbound failure.
pub struct DeliveryErrorView {
    pub class: DeliveryFailureClass,
    pub context: Seq<char>,
    pub patch_retryable: bool,
}

impl View for DeliveryError {
    type V = DeliveryErrorView;

    closed spec fn view(&self) -> DeliveryErrorView {
        DeliveryErrorView {
            class: self.class,
            context: self.context@,
            patch_retryable: self.patch_retryable,
        }
    }
}

impl DeliveryError {
    /// A classified outbound failure.
    pub fn new(class: DeliveryFailureClass, context: &'static str) -> (error: DeliveryError)
        ensures
            error@ == (DeliveryErrorView { class, context: context@, patch_retryable: false }),
    {
        DeliveryError { class, context, patch_retryable: false }
    }

    /// The same failure, which an update with the same body may repeat or not.
    pub fn with_patch_retryable(self, retryable: bool) -> (error: DeliveryError)
        ensures
            error@ == (DeliveryErrorView { patch_retryable: retryable, ..self@ }),
    {
        DeliveryError { class: self.class, context: self.context, patch_retryable: retryable }
    }

    /// The receipt classification.
    pub fn class(self) -> (class: DeliveryFailureClass)
        ensures
            class == self@.class,
    {
        self.class
    }

    /// Whether an update with the same body may be repeated.
    pub fn patch_retryable(self) -> (retryable: bool)
        ensures
            retryable == self@.patch_retryable,
    {
        self.patch_retryable
    }

    /// How the failure is shown: as it is reported.
    pub fn debug_text(self) -> (text: String)
        ensures
            text@ == "channel delivery "@ + failure_class_name(self@.class) + " while "@
                + self@.context,
    {
        self.to_text()
    }

    /// What the failure is reported as.
    pub fn to_text(self) -> (text: String)
        ensures
            text@ == "channel delivery "@ + failure_class_name(self@.class) + " while "@
                + self@.context,
    {
        let mut text = "channel delivery ".to_owned();
        text.append(
            match self.class {
                DeliveryFailureClass::Retryable => "Retryable",
                DeliveryFailureClass::Uncertain => "Uncertain",
                DeliveryFailureClass::Definitive => "Definitive",
            },
        );
        text.append(" while ");
        text.append(self.context);
        text
    }
}

/// Diagnostics of an operation depend on lengths and placement alone: two texts
/// of one length are shown alike.
pub proof fn shown_replies_hide_their_text(
    message_id: String,
    other_id: String,
    in_thread: bool,
    text: String,
    other_text: String,
)
    requires
        byte_len(message_id@) == byte_len(other_id@),
        byte_len(text@) == byte_len(other_text@),
    ensures
        outbound_text(OutboundRequest::ReplyText { message_id, in_thread, text })
            == outbound_text(
            OutboundRequest::ReplyText { message_id: other_id, in_thread, text: other_text },
        ),
{
}

} // verus!
