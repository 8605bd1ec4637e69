//! Native adapters for the provider-neutral channel values: what each
//! operation calls, and how the provider's failures are classified.
use vstd::prelude::*;

use crate::channel::ChannelError;
use crate::channel::ChannelErrorKind;
use crate::channel::ChannelErrorView;
use crate::channel::ConversationMode;
use crate::channel::DeliveryError;
use crate::channel::DeliveryErrorView;
use crate::channel::DeliveryFailureClass;
use crate::channel::DeliveryReceipt;
use crate::channel::MediaKind;
use crate::channel::OutboundRequest;
use std::sync::Arc;

verus! {

/// Static failures of the provider's client.
#[derive(Clone, Copy, PartialEq, Eq)]
pub enum LarkError {
    /// Authentication or authorization cannot succeed without intervention.
    PermanentAuth { code: Option<i64>, context: &'static str },
    /// A bounded retry can succeed.
    Retryable { code: Option<i64>, context: &'static str },
    /// The request itself is not acceptable.
    InvalidRequest { context: &'static str },
    /// The provider or a sidecar broke the contract.
    ProtocolViolation { code: Option<i64>, context: &'static str },
    /// A bound was exceeded.
    Exhausted { context: &'static str, limit: u64 },
}

/// Content of a failure of the provider's client.
pub enum LarkErrorView {
    PermanentAuth { code: Option<i64>, context: Seq<char> },
    Retryable { code: Option<i64>, context: Seq<char> },
    InvalidRequest { context: Seq<char> },
    ProtocolViolation { code: Option<i64>, context: Seq<char> },
    Exhausted { context: Seq<char>, limit: u64 },
}

impl View for LarkError {
    type V = LarkErrorView;

    open spec fn view(&self) -> LarkErrorView {
        match *self {
            LarkError::PermanentAuth { code, context } => LarkErrorView::PermanentAuth {
                code,
                context: context@,
            },
            LarkError::Retryable { code, context } => LarkErrorView::Retryable {
                code,
                context: context@,
            },
            LarkError::InvalidRequest { context } => LarkErrorView::InvalidRequest {
                context: context@,
            },
            LarkError::ProtocolViolation { code, context } => LarkErrorView::ProtocolViolation {
                code,
                context: context@,
            },
            LarkError::Exhausted { context, limit } => LarkErrorView::Exhausted {
                context: context@,
                limit,
            },
        }
    }
}

/// A broken contract, without a provider code.
pub open spec fn protocol_failure(context: Seq<char>) -> LarkErrorView {
    LarkErrorView::ProtocolViolation { code: None, context }
}

/// A failure that a bounded retry can mend, without a provider code.
pub open spec fn retryable_failure(context: Seq<char>) -> LarkErrorView {
    LarkErrorView::Retryable { code: None, context }
}

impl LarkError {
    pub fn protocol(context: &'static str) -> (error: LarkError)
        ensures
            error@ == protocol_failure(context@),
    {
        LarkError::ProtocolViolation { code: None, context }
    }

    pub fn retryable(context: &'static str) -> (error: LarkError)
        ensures
            error@ == retryable_failure(context@),
    {
        LarkError::Retryable { code: None, context }
    }

    pub fn exhausted(context: &'static str, limit: u64) -> (error: LarkError)
        ensures
            error@ == (LarkErrorView::Exhausted { context: context@, limit }),
    {
        LarkError::Exhausted { context, limit }
    }
}

/// The kind of a query or media failure.
pub open spec fn channel_kind(error: LarkErrorView) -> ChannelErrorKind {
    match error {
        LarkErrorView::PermanentAuth { .. } => ChannelErrorKind::PermanentAuth,
        LarkErrorView::Retryable { .. } => ChannelErrorKind::Retryable,
        LarkErrorView::InvalidRequest { .. } => ChannelErrorKind::Protocol,
        LarkErrorView::ProtocolViolation { .. } => ChannelErrorKind::Protocol,
        LarkErrorView::Exhausted { .. } => ChannelErrorKind::Exhausted,
    }
}

/// Classifies a failure of a query or a media operation.
pub fn channel_error(error: &LarkError, context: &'static str) -> (mapped: ChannelError)
    ensures
        mapped@ == (ChannelErrorView { kind: channel_kind(error@), context: context@ }),
{
    let kind = match error {
        LarkError::PermanentAuth { .. } => ChannelErrorKind::PermanentAuth,
        LarkError::Retryable { .. } => ChannelErrorKind::Retryable,
        LarkError::InvalidRequest { .. } => ChannelErrorKind::Protocol,
        LarkError::ProtocolViolation { .. } => ChannelErrorKind::Protocol,
        LarkError::Exhausted { .. } => ChannelErrorKind::Exhausted,
    };
    ChannelError::new(kind, context)
}

/// What the outbox knows of a provider code.
#[derive(Clone, Copy, Debug, PartialEq, Eq, Structural)]
pub struct CodeFacts {
    /// It is an explicit server error, which cannot show that a request was not
    /// applied.
    pub http_server_error: bool,
    /// It is documented as transient.
    pub documented_transient: bool,
}

/// The provider code of a failure that carries one of the two ambiguous
/// classes.
pub open spec fn answered_code(error: LarkErrorView) -> Option<i64> {
    match error {
        LarkErrorView::Retryable { code, .. } => code,
        LarkErrorView::ProtocolViolation { code, .. } => code,
        _ => None,
    }
}

/// Whether an outbound operation may be repeated after a failure: an explicit
/// server error leaves open whether it was applied, a documented transient one
/// does not, and no answer at all leaves it open too.
pub open spec fn delivery_failure(error: LarkErrorView, facts: CodeFacts) -> DeliveryErrorView {
    let context = "delivering an outbound operation"@;
    let definitive = DeliveryErrorView {
        class: DeliveryFailureClass::Definitive,
        context,
        patch_retryable: false,
    };
    if error is Retryable || error is ProtocolViolation {
        if answered_code(error) is None {
            DeliveryErrorView { class: DeliveryFailureClass::Uncertain, ..definitive }
        } else if facts.http_server_error {
            DeliveryErrorView {
                class: DeliveryFailureClass::Uncertain,
                patch_retryable: true,
                ..definitive
            }
        } else if facts.documented_transient {
            DeliveryErrorView {
                class: DeliveryFailureClass::Retryable,
                patch_retryable: true,
                ..definitive
            }
        } else {
            definitive
        }
    } else {
        definitive
    }
}

/// Classifies a failed outbound operation, given what the outbox knows of the
/// provider's code, if there is one.
pub fn delivery_error(error: &LarkError, facts: CodeFacts) -> (mapped: DeliveryError)
    ensures
        mapped@ == delivery_failure(error@, facts),
{
    let context = "delivering an outbound operation";
    let code: Option<i64> = match error {
        LarkError::Retryable { code, .. } => *code,
        LarkError::ProtocolViolation { code, .. } => *code,
        _ => {
            return DeliveryError::new(DeliveryFailureClass::Definitive, context);
        },
    };
    if code.is_none() {
        DeliveryError::new(DeliveryFailureClass::Uncertain, context)
    } else if facts.http_server_error {
        DeliveryError::new(DeliveryFailureClass::Uncertain, context).with_patch_retryable(true)
    } else if facts.documented_transient {
        DeliveryError::new(DeliveryFailureClass::Retryable, context).with_patch_retryable(true)
    } else {
        DeliveryError::new(DeliveryFailureClass::Definitive, context)
    }
}

/// Nothing that may have been applied is repeated: a failure without an answer,
/// and an explicit server error, are never retryable.
pub proof fn unproven_deliveries_are_not_repeated(error: LarkErrorView, facts: CodeFacts)
    requires
        error is Retryable || error is ProtocolViolation,
        answered_code(error) is None || facts.http_server_error,
    ensures
        delivery_failure(error, facts).class == DeliveryFailureClass::Uncertain,
{
}

/// The provider's conversation modes.
#[derive(Clone, Copy, Debug, PartialEq, Eq, Structural)]
pub enum ChatMode {
    P2p,
    Group,
    Topic,
}

/// The provider-neutral conversation mode.
pub fn conversation_mode(mode: ChatMode) -> (neutral: ConversationMode)
    ensures
        neutral == match mode {
            ChatMode::P2p => ConversationMode::P2p,
            ChatMode::Group => ConversationMode::Group,
            ChatMode::Topic => ConversationMode::Topic,
        },
{
    match mode {
        ChatMode::P2p => ConversationMode::P2p,
        ChatMode::Group => ConversationMode::Group,
        ChatMode::Topic => ConversationMode::Topic,
    }
}

/// The provider's resource kinds.
#[derive(Clone, Copy, Debug, PartialEq, Eq, Structural)]
pub enum ResourceKind {
    Image,
    File,
}

/// The provider's resource kind.
pub fn resource_kind(kind: MediaKind) -> (resource: ResourceKind)
    ensures
        resource == match kind {
            MediaKind::Image => ResourceKind::Image,
            MediaKind::File => ResourceKind::File,
        },
{
    match kind {
        MediaKind::Image => ResourceKind::Image,
        MediaKind::File => ResourceKind::File,
    }
}

/// The one provider call that an outbound operation makes.
#[derive(Clone, Copy, Debug, PartialEq, Eq, Structural)]
pub enum OutboundCall {
    ReplyText,
    ReplyTextInThread,
    ReplyCard,
    ReplyCardInThread,
    ReplyPostMarkdown,
    ReplyPostMarkdownInThread,
    UpdateCard,
}

/// The provider call of an operation.
pub open spec fn call_of(request: OutboundRequest) -> OutboundCall {
    match request {
        OutboundRequest::ReplyText { in_thread, .. } => if in_thread {
            OutboundCall::ReplyTextInThread
        } else {
            OutboundCall::ReplyText
        },
        OutboundRequest::ReplyCard { in_thread, .. } => if in_thread {
            OutboundCall::ReplyCardInThread
        } else {
            OutboundCall::ReplyCard
        },
        OutboundRequest::ReplyMarkdownPost { in_thread, .. } => if in_thread {
            OutboundCall::ReplyPostMarkdownInThread
        } else {
            OutboundCall::ReplyPostMarkdown
        },
        OutboundRequest::UpdateCard { .. } => OutboundCall::UpdateCard,
    }
}

/// The provider call of an operation.
pub fn outbound_call(request: &OutboundRequest) -> (call: OutboundCall)
    ensures
        call == call_of(*request),
{
    match request {
        OutboundRequest::ReplyText { in_thread, .. } => if *in_thread {
            OutboundCall::ReplyTextInThread
        } else {
            OutboundCall::ReplyText
        },
        OutboundRequest::ReplyCard { in_thread, .. } => if *in_thread {
            OutboundCall::ReplyCardInThread
        } else {
            OutboundCall::ReplyCard
        },
        OutboundRequest::ReplyMarkdownPost { in_thread, .. } => if *in_thread {
            OutboundCall::ReplyPostMarkdownInThread
        } else {
            OutboundCall::ReplyPostMarkdown
        },
        OutboundRequest::UpdateCard { .. } => OutboundCall::UpdateCard,
    }
}

/// The message that an operation concerns.
pub open spec fn message_of(request: OutboundRequest) -> Seq<char> {
    match request {
        OutboundRequest::ReplyText { message_id, .. } => message_id@,
        OutboundRequest::ReplyMarkdownPost { message_id, .. } => message_id@,
        OutboundRequest::ReplyCard { message_id, .. } => message_id@,
        OutboundRequest::UpdateCard { message_id, .. } => message_id@,
    }
}

/// What the provider answered an operation: the new message for a reply,
/// nothing for an update.
pub enum ProviderAnswer {
    Replied { message_id: String },
    Updated,
    Failed { error: LarkError, facts: CodeFacts },
}

/// The outcome of one outbound operation: the receipt names the message that
/// the provider assigned, or the one that was updated.
///
/// # Errors
///
/// The classified failure.
pub fn finish_delivery(request: OutboundRequest, answer: ProviderAnswer) -> (result: Result<
    DeliveryReceipt,
    DeliveryError,
>)
    requires
        answer is Replied ==> !(request is UpdateCard),
        answer is Updated ==> request is UpdateCard,
    ensures
        match receipt_of(request, answer) {
            Ok(message_id) => result is Ok && result->Ok_0.message_id@ == message_id,
            Err(failure) => result is Err && result->Err_0@ == failure,
        },
        match answer {
            ProviderAnswer::Replied { message_id } => result is Ok && result->Ok_0.message_id@
                == message_id@,
            ProviderAnswer::Updated => result is Ok && result->Ok_0.message_id@ == message_of(
                request,
            ),
            ProviderAnswer::Failed { error, facts } => result is Err && result->Err_0@
                == delivery_failure(error@, facts),
        },
{
    match answer {
        ProviderAnswer::Replied { message_id } => Ok(DeliveryReceipt { message_id }),
        ProviderAnswer::Updated => {
            let message_id = match request {
                OutboundRequest::ReplyText { message_id, .. } => message_id,
                OutboundRequest::ReplyMarkdownPost { message_id, .. } => message_id,
                OutboundRequest::ReplyCard { message_id, .. } => message_id,
                OutboundRequest::UpdateCard { message_id, .. } => message_id,
            };
            Ok(DeliveryReceipt { message_id })
        },
        ProviderAnswer::Failed { error, facts } => Err(delivery_error(&error, facts)),
    }
}

/// Native implementation of query, media and outbound capabilities over a
/// tenant-bound client.
pub struct NativeChannel<A> {
    api: A,
}

impl<A> View for NativeChannel<A> {
    type V = A;

    closed spec fn view(&self) -> A {
        self.api
    }
}

impl<A> NativeChannel<A> {
    /// How the channel is shown: by its name alone.
    pub fn debug_text(&self) -> (text: &'static str)
        ensures
            text@ == "NativeChannel { .. }"@,
    {
        "NativeChannel { .. }"
    }

    /// Wraps a tenant-bound client.
    pub fn new(api: A) -> (channel: NativeChannel<A>)
        ensures
            channel@ == api,
    {
        NativeChannel { api }
    }

    /// The client.
    pub fn api(&self) -> (api: &A)
        ensures
            *api == self@,
    {
        &self.api
    }
}

/// Inbound source over a running native transport.
pub struct NativeInboundSource<H> {
    handle: H,
}

impl<H> View for NativeInboundSource<H> {
    type V = H;

    closed spec fn view(&self) -> H {
        self.handle
    }
}

impl<H> NativeInboundSource<H> {
    /// Wraps a running native transport.
    pub fn new(handle: H) -> (source: NativeInboundSource<H>)
        ensures
            source@ == handle,
    {
        NativeInboundSource { handle }
    }

    /// Gives the transport back.
    pub fn into_handle(self) -> (handle: H)
        ensures
            handle == self@,
    {
        self.handle
    }
}

/// Shared native capability bundle.
pub fn shared<A>(api: A) -> (channel: Arc<NativeChannel<A>>)
    ensures
        channel@ == api,
{
    Arc::new(NativeChannel::new(api))
}

/// A reply goes to the thread exactly when the request says so, and keeps its
/// form: a text stays a text, a card a card, a formatted post a formatted post.
/// An update of a card is no reply.
pub proof fn replies_keep_their_place_and_form(request: OutboundRequest)
    ensures
        ({
            let call = call_of(request);
            let in_thread = call == OutboundCall::ReplyTextInThread || call
                == OutboundCall::ReplyCardInThread || call
                == OutboundCall::ReplyPostMarkdownInThread;
            &&& in_thread == (match request {
                OutboundRequest::ReplyText { in_thread, .. } => in_thread,
                OutboundRequest::ReplyCard { in_thread, .. } => in_thread,
                OutboundRequest::ReplyMarkdownPost { in_thread, .. } => in_thread,
                OutboundRequest::UpdateCard { .. } => false,
            })
            &&& request is ReplyText <==> call == OutboundCall::ReplyText || call
                == OutboundCall::ReplyTextInThread
            &&& request is ReplyCard <==> call == OutboundCall::ReplyCard || call
                == OutboundCall::ReplyCardInThread
            &&& request is ReplyMarkdownPost <==> call == OutboundCall::ReplyPostMarkdown || call
                == OutboundCall::ReplyPostMarkdownInThread
            &&& request is UpdateCard <==> call == OutboundCall::UpdateCard
        }),
{
}

/// Two requests that differ only in where the reply goes are made by two
/// different calls.
pub proof fn the_place_decides_the_call(one: OutboundRequest, other: OutboundRequest)
    requires
        match (one, other) {
            (
                OutboundRequest::ReplyText { in_thread: a, .. },
                OutboundRequest::ReplyText { in_thread: b, .. },
            ) => a != b,
            (
                OutboundRequest::ReplyCard { in_thread: a, .. },
                OutboundRequest::ReplyCard { in_thread: b, .. },
            ) => a != b,
            (
                OutboundRequest::ReplyMarkdownPost { in_thread: a, .. },
                OutboundRequest::ReplyMarkdownPost { in_thread: b, .. },
            ) => a != b,
            _ => false,
        },
    ensures
        call_of(one) != call_of(other),
{
}

/// An operation concerns the message that its request names.
pub proof fn operations_concern_their_message(request: OutboundRequest)
    ensures
        request matches OutboundRequest::ReplyText { message_id, .. } ==> message_of(request)
            == message_id@,
        request matches OutboundRequest::ReplyMarkdownPost { message_id, .. } ==> message_of(request)
            == message_id@,
        request matches OutboundRequest::ReplyCard { message_id, .. } ==> message_of(request)
            == message_id@,
        request matches OutboundRequest::UpdateCard { message_id, .. } ==> message_of(request)
            == message_id@,
{
}

/// A failed operation is repeated only on a code that is documented to be
/// transient and no server error; a failure that no answer can mend is final;
/// a card may be patched again exactly where the provider answered with a code
/// that a later attempt can mend.
pub proof fn failures_are_classified(error: LarkErrorView, facts: CodeFacts)
    ensures
        ({
            let failure = delivery_failure(error, facts);
            let code = match error {
                LarkErrorView::Retryable { code, .. } => code,
                LarkErrorView::ProtocolViolation { code, .. } => code,
                _ => None,
            };
            let ambiguous = error is Retryable || error is ProtocolViolation;
            &&& failure.class == DeliveryFailureClass::Retryable <==> code is Some
                && !facts.http_server_error && facts.documented_transient
            &&& failure.class == DeliveryFailureClass::Uncertain <==> ambiguous && (code is None
                || facts.http_server_error)
            &&& failure.class == DeliveryFailureClass::Definitive <==> !ambiguous || (code is Some
                && !facts.http_server_error && !facts.documented_transient)
            &&& failure.patch_retryable <==> code is Some && (facts.http_server_error
                || facts.documented_transient)
            &&& failure.context == "delivering an outbound operation"@
        }),
{
}

/// A query or media failure keeps its class; what the request itself is to
/// blame for counts as a broken contract.
pub proof fn failure_kinds_are_kept(error: LarkErrorView)
    ensures
        channel_kind(error) == ChannelErrorKind::PermanentAuth <==> error is PermanentAuth,
        channel_kind(error) == ChannelErrorKind::Retryable <==> error is Retryable,
        channel_kind(error) == ChannelErrorKind::Exhausted <==> error is Exhausted,
        channel_kind(error) == ChannelErrorKind::Protocol <==> error is InvalidRequest || error
            is ProtocolViolation,
{
}

/// The message that a receipt names, or the failure.
pub open spec fn receipt_of(request: OutboundRequest, answer: ProviderAnswer) -> Result<
    Seq<char>,
    DeliveryErrorView,
> {
    match answer {
        ProviderAnswer::Replied { message_id } => Ok(message_id@),
        ProviderAnswer::Updated => Ok(message_of(request)),
        ProviderAnswer::Failed { error, facts } => Err(delivery_failure(error@, facts)),
    }
}

/// A reply is receipted under the message that the provider made of it, an
/// update under the message that was updated; a failure is never receipted.
pub proof fn receipts_name_the_message(
    request: OutboundRequest,
    answer: ProviderAnswer,
    message_id: String,
    card: serde_json::Value,
)
    ensures
        receipt_of(request, ProviderAnswer::Replied { message_id }) == Ok::<
            Seq<char>,
            DeliveryErrorView,
        >(message_id@),
        receipt_of(OutboundRequest::UpdateCard { message_id, card }, ProviderAnswer::Updated)
            == Ok::<Seq<char>, DeliveryErrorView>(message_id@),
        receipt_of(request, answer) is Err <==> answer is Failed,
{
}

} // verus!
