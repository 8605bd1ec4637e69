//! How values are shown in diagnostics: by identifiers, kinds and presence,
//! never by payloads, credentials, endpoints or remote texts.
use vstd::prelude::*;

use crate::codex::client::status_label;
use crate::codex::client::turn_status_label;
use crate::codex::client::AppServerEvent;
use crate::codex::client::EventView;
use crate::codex::client::OutcomeView;
use crate::codex::client::SubscriptionInvalidation;
use crate::codex::client::TurnOutcome;
use crate::codex::compat::adapter_version;
use crate::codex::compat::CompatError;
use crate::codex::external::CodexBackendConfig;
use crate::codex::external::EndpointLabel;
use crate::codex::external::ExternalAuthentication;
use crate::codex::external::ExternalCapabilityProfile;
use crate::codex::external::ExternalEndpointConfig;
use crate::codex::external::ExternalEndpointGate;
use crate::codex::external::ExternalGateReport;
use crate::codex::external::GateView;
use crate::codex::external::ReportView;
use crate::codex::external_calls::ExternalMutationClient;
use crate::codex::external_calls::ExternalReadOnlyClient;
use crate::codex::external_calls::ExternalReadOnlyConnection;
use crate::codex::external_recovery::ExternalRecoveryCoordinator;
use crate::codex::external_recovery::ExternalRecoveryState;
use crate::codex::external_transport::approval_kind_name;
use crate::codex::external_transport::approval_token;
use crate::codex::external_transport::kind_of_approval;
use crate::codex::external_transport::ExternalApprovalRequest;
use crate::codex::external_transport::ExternalReadEvent;
use crate::codex::operations::client_error_text;
use crate::codex::operations::ClientError;
use crate::codex::process::CodexProcessConfig;
use crate::codex::protocol::InboundMessage;
use crate::codex::protocol::MessageView;
use crate::codex::protocol::OutboundMessage;
use crate::codex::protocol::RequestId;
use crate::codex::protocol::RequestIdView;
use crate::codex::protocol::RpcErrorObject;
use crate::codex::protocol::RpcErrorView;
use crate::codex::reconcile::ExternalUncertaintyReason;
use crate::codex::router::ControlEvent;
use crate::codex::router::ControlView;
use crate::codex::rpc::error_text;
use crate::codex::rpc::id_kind;
use crate::codex::rpc::request_id_kind;
use crate::codex::rpc::ConnectionEpoch;
use crate::codex::rpc::RpcError;
use crate::codex::rpc::RpcEvent;
use crate::codex::rpc::RpcEventView;
use crate::codex::rpc::ServerRequest;
use crate::codex::rpc::ServerRequestView;
use crate::codex::types::text_option;
use crate::codex::types::IoErrorKind;
use crate::codex::types::ItemView;
use crate::codex::types::ThreadItem;
use crate::codex::types::TransportExit;
use crate::outside::quoted;
use crate::outside::quoted_text;
use crate::text::append_decimal;
use crate::text::append_signed;
use crate::text::decimal;
use crate::text::signed_decimal;
use crate::version::Version;
use crate::version::VersionView;
use vstd::string::StringExecFns;

verus! {

/// How a truth value is shown.
pub open spec fn flag_shown(flag: bool) -> Seq<char> {
    if flag {
        "true"@
    } else {
        "false"@
    }
}

fn append_flag(text: &mut String, flag: bool)
    ensures
        final(text)@ == old(text)@ + flag_shown(flag),
{
    if flag {
        text.append("true");
    } else {
        text.append("false");
    }
}

fn append_quoted(text: &mut String, value: &str)
    ensures
        final(text)@ == old(text)@ + quoted_text(value@),
{
    let shown = quoted(value);
    text.append(shown.as_str());
}

/// How an optional text is shown.
pub open spec fn option_shown(value: Option<Seq<char>>) -> Seq<char> {
    match value {
        Some(value) => "Some("@ + quoted_text(value) + ")"@,
        None => "None"@,
    }
}

fn append_option(text: &mut String, value: &Option<String>)
    ensures
        final(text)@ == old(text)@ + option_shown(text_option(*value)),
{
    match value {
        Some(value) => {
            text.append("Some(");
            append_quoted(text, value.as_str());
            text.append(")");
            proof {
                assert(text@ =~= old(text)@ + option_shown(Some(value@)));
            }
        },
        None => {
            text.append("None");
        },
    }
}

/// How an identifier of a request is shown.
pub open spec fn request_id_shown(id: RequestIdView) -> Seq<char> {
    match id {
        RequestIdView::Text(text) => "String("@ + quoted_text(text) + ")"@,
        RequestIdView::Integer(number) => "Integer("@ + signed_decimal(number) + ")"@,
    }
}

fn append_request_id(text: &mut String, id: &RequestId)
    ensures
        final(text)@ == old(text)@ + request_id_shown(id@),
{
    match id {
        RequestId::String(value) => {
            text.append("String(");
            append_quoted(text, value.as_str());
        },
        RequestId::Integer(number) => {
            text.append("Integer(");
            append_signed(text, *number);
        },
    }
    text.append(")");
    proof {
        assert(text@ =~= old(text)@ + request_id_shown(id@));
    }
}

/// How an error object is shown: without its message and data.
pub open spec fn error_object_shown(error: RpcErrorView) -> Seq<char> {
    "RpcErrorObject { code: "@ + signed_decimal(error.code)
        + ", message: \"[redacted]\", has_data: "@ + flag_shown(error.data is Some) + " }"@
}

fn append_error_object(text: &mut String, error: &RpcErrorObject)
    ensures
        final(text)@ == old(text)@ + error_object_shown(error@),
{
    text.append("RpcErrorObject { code: ");
    append_signed(text, error.code);
    text.append(", message: \"[redacted]\", has_data: ");
    append_flag(text, error.data.is_some());
    text.append(" }");
    proof {
        assert(text@ =~= old(text)@ + error_object_shown(error@));
    }
}

impl RpcErrorObject {
    /// How the error object is shown.
    pub fn debug_text(&self) -> (text: String)
        ensures
            text@ == error_object_shown(self@),
    {
        let mut text = String::new();
        append_error_object(&mut text, self);
        proof {
            assert(Seq::<char>::empty() + error_object_shown(self@) =~= error_object_shown(self@));
        }
        text
    }
}

/// How a message is shown: without parameters, result and error text.
pub open spec fn message_shown(message: MessageView) -> Seq<char> {
    match message {
        MessageView::Response { id, .. } => "Response { id: "@ + request_id_shown(id)
            + ", result: \"[redacted]\" }"@,
        MessageView::ErrorResponse { id, error } => "ErrorResponse { id: "@ + request_id_shown(id)
            + ", error: "@ + error_object_shown(error) + " }"@,
        MessageView::Request { id, method, params } => "Request { id: "@ + request_id_shown(id)
            + ", method: "@ + quoted_text(method) + ", has_params: "@ + flag_shown(params is Some)
            + " }"@,
        MessageView::Notification { method, params } => "Notification { method: "@ + quoted_text(
            method,
        ) + ", has_params: "@ + flag_shown(params is Some) + " }"@,
    }
}

fn response_shown(id: &RequestId) -> (text: String)
    ensures
        text@ == "Response { id: "@ + request_id_shown(id@) + ", result: \"[redacted]\" }"@,
{
    let mut text = "Response { id: ".to_owned();
    append_request_id(&mut text, id);
    text.append(", result: \"[redacted]\" }");
    text
}

fn error_response_shown(id: &RequestId, error: &RpcErrorObject) -> (text: String)
    ensures
        text@ == "ErrorResponse { id: "@ + request_id_shown(id@) + ", error: "@
            + error_object_shown(error@) + " }"@,
{
    let mut text = "ErrorResponse { id: ".to_owned();
    append_request_id(&mut text, id);
    text.append(", error: ");
    append_error_object(&mut text, error);
    text.append(" }");
    text
}

fn request_shown(id: &RequestId, method: &str, has_params: bool) -> (text: String)
    ensures
        text@ == "Request { id: "@ + request_id_shown(id@) + ", method: "@ + quoted_text(method@)
            + ", has_params: "@ + flag_shown(has_params) + " }"@,
{
    let mut text = "Request { id: ".to_owned();
    append_request_id(&mut text, id);
    text.append(", method: ");
    append_quoted(&mut text, method);
    text.append(", has_params: ");
    append_flag(&mut text, has_params);
    text.append(" }");
    text
}

fn notification_shown(method: &str, has_params: bool) -> (text: String)
    ensures
        text@ == "Notification { method: "@ + quoted_text(method@) + ", has_params: "@
            + flag_shown(has_params) + " }"@,
{
    let mut text = "Notification { method: ".to_owned();
    append_quoted(&mut text, method);
    text.append(", has_params: ");
    append_flag(&mut text, has_params);
    text.append(" }");
    text
}

impl InboundMessage {
    /// How the message is shown.
    pub fn debug_text(&self) -> (text: String)
        ensures
            text@ == message_shown(self@),
    {
        match self {
            InboundMessage::Response { id, .. } => response_shown(id),
            InboundMessage::ErrorResponse { id, error } => error_response_shown(id, error),
            InboundMessage::Request { id, method, params } => request_shown(
                id,
                method.as_str(),
                params.is_some(),
            ),
            InboundMessage::Notification { method, params } => notification_shown(
                method.as_str(),
                params.is_some(),
            ),
        }
    }
}

impl OutboundMessage {
    /// How the message is shown.
    pub fn debug_text(&self) -> (text: String)
        ensures
            text@ == message_shown(self@),
    {
        match self {
            OutboundMessage::Response { id, .. } => response_shown(id),
            OutboundMessage::ErrorResponse { id, error } => error_response_shown(id, error),
            OutboundMessage::Request { id, method, params } => request_shown(
                id,
                method.as_str(),
                params.is_some(),
            ),
            OutboundMessage::Notification { method, params } => notification_shown(
                method.as_str(),
                params.is_some(),
            ),
        }
    }
}

/// How a kind of an input or output error is shown.
pub open spec fn io_kind_shown(kind: IoErrorKind) -> Seq<char> {
    match kind {
        IoErrorKind::NotFound => "NotFound"@,
        IoErrorKind::PermissionDenied => "PermissionDenied"@,
        IoErrorKind::ConnectionRefused => "ConnectionRefused"@,
        IoErrorKind::ConnectionReset => "ConnectionReset"@,
        IoErrorKind::HostUnreachable => "HostUnreachable"@,
        IoErrorKind::NetworkUnreachable => "NetworkUnreachable"@,
        IoErrorKind::ConnectionAborted => "ConnectionAborted"@,
        IoErrorKind::NotConnected => "NotConnected"@,
        IoErrorKind::AddrInUse => "AddrInUse"@,
        IoErrorKind::AddrNotAvailable => "AddrNotAvailable"@,
        IoErrorKind::NetworkDown => "NetworkDown"@,
        IoErrorKind::BrokenPipe => "BrokenPipe"@,
        IoErrorKind::AlreadyExists => "AlreadyExists"@,
        IoErrorKind::WouldBlock => "WouldBlock"@,
        IoErrorKind::NotADirectory => "NotADirectory"@,
        IoErrorKind::IsADirectory => "IsADirectory"@,
        IoErrorKind::DirectoryNotEmpty => "DirectoryNotEmpty"@,
        IoErrorKind::ReadOnlyFilesystem => "ReadOnlyFilesystem"@,
        IoErrorKind::StaleNetworkFileHandle => "StaleNetworkFileHandle"@,
        IoErrorKind::InvalidInput => "InvalidInput"@,
        IoErrorKind::InvalidData => "InvalidData"@,
        IoErrorKind::TimedOut => "TimedOut"@,
        IoErrorKind::WriteZero => "WriteZero"@,
        IoErrorKind::StorageFull => "StorageFull"@,
        IoErrorKind::NotSeekable => "NotSeekable"@,
        IoErrorKind::QuotaExceeded => "QuotaExceeded"@,
        IoErrorKind::FileTooLarge => "FileTooLarge"@,
        IoErrorKind::ResourceBusy => "ResourceBusy"@,
        IoErrorKind::ExecutableFileBusy => "ExecutableFileBusy"@,
        IoErrorKind::Deadlock => "Deadlock"@,
        IoErrorKind::TooManyLinks => "TooManyLinks"@,
        IoErrorKind::ArgumentListTooLong => "ArgumentListTooLong"@,
        IoErrorKind::Interrupted => "Interrupted"@,
        IoErrorKind::Unsupported => "Unsupported"@,
        IoErrorKind::UnexpectedEof => "UnexpectedEof"@,
        IoErrorKind::OutOfMemory => "OutOfMemory"@,
        IoErrorKind::Other => "Other"@,
    }
}

fn io_kind_name(kind: IoErrorKind) -> (name: &'static str)
    ensures
        name@ == io_kind_shown(kind),
{
    match kind {
        IoErrorKind::NotFound => "NotFound",
        IoErrorKind::PermissionDenied => "PermissionDenied",
        IoErrorKind::ConnectionRefused => "ConnectionRefused",
        IoErrorKind::ConnectionReset => "ConnectionReset",
        IoErrorKind::HostUnreachable => "HostUnreachable",
        IoErrorKind::NetworkUnreachable => "NetworkUnreachable",
        IoErrorKind::ConnectionAborted => "ConnectionAborted",
        IoErrorKind::NotConnected => "NotConnected",
        IoErrorKind::AddrInUse => "AddrInUse",
        IoErrorKind::AddrNotAvailable => "AddrNotAvailable",
        IoErrorKind::NetworkDown => "NetworkDown",
        IoErrorKind::BrokenPipe => "BrokenPipe",
        IoErrorKind::AlreadyExists => "AlreadyExists",
        IoErrorKind::WouldBlock => "WouldBlock",
        IoErrorKind::NotADirectory => "NotADirectory",
        IoErrorKind::IsADirectory => "IsADirectory",
        IoErrorKind::DirectoryNotEmpty => "DirectoryNotEmpty",
        IoErrorKind::ReadOnlyFilesystem => "ReadOnlyFilesystem",
        IoErrorKind::StaleNetworkFileHandle => "StaleNetworkFileHandle",
        IoErrorKind::InvalidInput => "InvalidInput",
        IoErrorKind::InvalidData => "InvalidData",
        IoErrorKind::TimedOut => "TimedOut",
        IoErrorKind::WriteZero => "WriteZero",
        IoErrorKind::StorageFull => "StorageFull",
        IoErrorKind::NotSeekable => "NotSeekable",
        IoErrorKind::QuotaExceeded => "QuotaExceeded",
        IoErrorKind::FileTooLarge => "FileTooLarge",
        IoErrorKind::ResourceBusy => "ResourceBusy",
        IoErrorKind::ExecutableFileBusy => "ExecutableFileBusy",
        IoErrorKind::Deadlock => "Deadlock",
        IoErrorKind::TooManyLinks => "TooManyLinks",
        IoErrorKind::ArgumentListTooLong => "ArgumentListTooLong",
        IoErrorKind::Interrupted => "Interrupted",
        IoErrorKind::Unsupported => "Unsupported",
        IoErrorKind::UnexpectedEof => "UnexpectedEof",
        IoErrorKind::OutOfMemory => "OutOfMemory",
        IoErrorKind::Other => "Other",
    }
}

/// How the end of a transport is shown.
pub open spec fn exit_shown(exit: TransportExit) -> Seq<char> {
    match exit {
        TransportExit::StdoutEof => "StdoutEof"@,
        TransportExit::ReadError(kind) => "ReadError("@ + io_kind_shown(kind) + ")"@,
        TransportExit::WriteError(kind) => "WriteError("@ + io_kind_shown(kind) + ")"@,
        TransportExit::ProtocolViolation => "ProtocolViolation"@,
        TransportExit::ConnectionFailed => "ConnectionFailed"@,
        TransportExit::WebSocketClosed(report) =>
            "WebSocketClosed(WebSocketCloseReport { code: "@ + (match report.code {
                Some(code) => "Some("@ + decimal(code as nat) + ")"@,
                None => "None"@,
            }) + " })"@,
        TransportExit::Cancelled => "Cancelled"@,
        TransportExit::Aborted => "Aborted"@,
        TransportExit::TaskFailed => "TaskFailed"@,
    }
}

fn append_exit(text: &mut String, exit: TransportExit)
    ensures
        final(text)@ == old(text)@ + exit_shown(exit),
{
    match exit {
        TransportExit::StdoutEof => text.append("StdoutEof"),
        TransportExit::ReadError(kind) => {
            text.append("ReadError(");
            text.append(io_kind_name(kind));
            text.append(")");
        },
        TransportExit::WriteError(kind) => {
            text.append("WriteError(");
            text.append(io_kind_name(kind));
            text.append(")");
        },
        TransportExit::ProtocolViolation => text.append("ProtocolViolation"),
        TransportExit::ConnectionFailed => text.append("ConnectionFailed"),
        TransportExit::WebSocketClosed(report) => {
            text.append("WebSocketClosed(WebSocketCloseReport { code: ");
            match report.code {
                Some(code) => {
                    text.append("Some(");
                    append_decimal(text, code as u64);
                    text.append(")");
                },
                None => text.append("None"),
            }
            text.append(" })");
        },
        TransportExit::Cancelled => text.append("Cancelled"),
        TransportExit::Aborted => text.append("Aborted"),
        TransportExit::TaskFailed => text.append("TaskFailed"),
    }
    proof {
        assert(text@ =~= old(text)@ + exit_shown(exit));
    }
}

/// How a thread's identifier is shown.
pub open spec fn thread_shown(id: Seq<char>) -> Seq<char> {
    "ThreadId("@ + quoted_text(id) + ")"@
}

/// How a turn's identifier is shown.
pub open spec fn turn_shown(id: Seq<char>) -> Seq<char> {
    "TurnId("@ + quoted_text(id) + ")"@
}

fn append_thread(text: &mut String, id: &str)
    ensures
        final(text)@ == old(text)@ + thread_shown(id@),
{
    text.append("ThreadId(");
    append_quoted(text, id);
    text.append(")");
    proof {
        assert(text@ =~= old(text)@ + thread_shown(id@));
    }
}

fn append_turn(text: &mut String, id: &str)
    ensures
        final(text)@ == old(text)@ + turn_shown(id@),
{
    text.append("TurnId(");
    append_quoted(text, id);
    text.append(")");
    proof {
        assert(text@ =~= old(text)@ + turn_shown(id@));
    }
}

/// How the outcome of a turn is shown: without error text, items and usage.
pub open spec fn outcome_shown(outcome: OutcomeView) -> Seq<char> {
    "TurnOutcome { thread_id: "@ + thread_shown(outcome.thread_id) + ", turn_id: "@ + turn_shown(
        outcome.turn_id,
    ) + ", status: "@ + quoted_text(status_label(outcome.status)) + ", has_error: "@ + flag_shown(
        outcome.error is Some,
    ) + ", completed_item_count: "@ + decimal(outcome.completed_items.len())
        + ", has_token_usage: "@ + flag_shown(outcome.token_usage is Some) + " }"@
}

impl TurnOutcome {
    /// How the outcome is shown.
    pub fn debug_text(&self) -> (text: String)
        ensures
            text@ == outcome_shown(self@),
    {
        let mut text = "TurnOutcome { thread_id: ".to_owned();
        append_thread(&mut text, self.thread_id.as_str());
        text.append(", turn_id: ");
        append_turn(&mut text, self.turn_id.as_str());
        text.append(", status: ");
        append_quoted(&mut text, turn_status_label(&self.status));
        text.append(", has_error: ");
        append_flag(&mut text, self.error.is_some());
        text.append(", completed_item_count: ");
        append_decimal(&mut text, self.completed_items.len() as u64);
        text.append(", has_token_usage: ");
        append_flag(&mut text, self.token_usage.is_some());
        text.append(" }");
        text
    }
}

/// How an item is shown with its turn: by kind and identifier.
pub open spec fn item_shown(turn_id: Seq<char>, item: ItemView) -> Seq<char> {
    " { turn_id: "@ + turn_shown(turn_id) + ", item_kind: "@ + quoted_text(item.kind)
        + ", item_id: "@ + option_shown(item.id) + " }"@
}

fn append_item(text: &mut String, turn_id: &str, item: &ThreadItem)
    ensures
        final(text)@ == old(text)@ + item_shown(turn_id@, item@),
{
    text.append(" { turn_id: ");
    append_turn(text, turn_id);
    text.append(", item_kind: ");
    append_quoted(text, item.kind.as_str());
    text.append(", item_id: ");
    append_option(text, &item.id);
    text.append(" }");
    proof {
        assert(text@ =~= old(text)@ + item_shown(turn_id@, item@));
    }
}

/// How a fragment is shown: without what it says.
pub open spec fn fragment_shown(turn_id: Seq<char>, item_id: Seq<char>) -> Seq<char> {
    " { turn_id: "@ + turn_shown(turn_id) + ", item_id: "@ + quoted_text(item_id) + " }"@
}

fn append_fragment(text: &mut String, turn_id: &str, item_id: &str)
    ensures
        final(text)@ == old(text)@ + fragment_shown(turn_id@, item_id@),
{
    text.append(" { turn_id: ");
    append_turn(text, turn_id);
    text.append(", item_id: ");
    append_quoted(text, item_id);
    text.append(" }");
    proof {
        assert(text@ =~= old(text)@ + fragment_shown(turn_id@, item_id@));
    }
}

/// How an event of a thread is shown.
pub open spec fn event_shown(event: EventView) -> Seq<char> {
    match event {
        EventView::ThreadStarted { thread_id } => "ThreadStarted { thread_id: "@ + thread_shown(
            thread_id,
        ) + " }"@,
        EventView::TurnStarted { turn } => "TurnStarted { turn_id: "@ + quoted_text(turn.id)
            + " }"@,
        EventView::ItemStarted { turn_id, item } => "ItemStarted"@ + item_shown(turn_id, item),
        EventView::ItemCompleted { turn_id, item } => "ItemCompleted"@ + item_shown(turn_id, item),
        EventView::AgentMessageDelta { turn_id, item_id, .. } => "AgentMessageDelta"@
            + fragment_shown(turn_id, item_id),
        EventView::CommandOutputDelta { turn_id, item_id, .. } => "CommandOutputDelta"@
            + fragment_shown(turn_id, item_id),
        EventView::TokenUsageUpdated { turn_id, .. } => "TokenUsageUpdated { turn_id: "@
            + turn_shown(turn_id) + " }"@,
        EventView::TurnCompleted(outcome) => "TurnCompleted("@ + outcome_shown(outcome) + ")"@,
        EventView::Error { turn_id, will_retry, .. } => "Error { turn_id: "@ + turn_shown(turn_id)
            + ", will_retry: "@ + flag_shown(will_retry) + " }"@,
        EventView::SubscriptionInvalidated { thread_id, reason } =>
            "SubscriptionInvalidated { thread_id: "@ + thread_shown(thread_id) + match reason {
                SubscriptionInvalidation::Lagged => ", reason: Lagged }"@,
                SubscriptionInvalidation::ProtocolDrift => ", reason: ProtocolDrift }"@,
            },
        EventView::Unknown { method } => "Unknown { method: "@ + quoted_text(method) + " }"@,
        EventView::ConnectionClosed { exit } => "ConnectionClosed { exit: "@ + exit_shown(exit)
            + " }"@,
    }
}

impl AppServerEvent {
    /// How the event is shown.
    pub fn debug_text(&self) -> (shown: String)
        ensures
            shown@ == event_shown(self@),
    {
        match self {
            AppServerEvent::ThreadStarted { thread_id } => {
                let mut shown = "ThreadStarted { thread_id: ".to_owned();
                append_thread(&mut shown, thread_id.as_str());
                shown.append(" }");
                shown
            },
            AppServerEvent::TurnStarted { turn } => {
                let mut shown = "TurnStarted { turn_id: ".to_owned();
                append_quoted(&mut shown, turn.id.as_str());
                shown.append(" }");
                shown
            },
            AppServerEvent::ItemStarted { turn_id, item } => {
                let mut shown = "ItemStarted".to_owned();
                append_item(&mut shown, turn_id.as_str(), item);
                shown
            },
            AppServerEvent::ItemCompleted { turn_id, item } => {
                let mut shown = "ItemCompleted".to_owned();
                append_item(&mut shown, turn_id.as_str(), item);
                shown
            },
            AppServerEvent::AgentMessageDelta { turn_id, item_id, .. } => {
                let mut shown = "AgentMessageDelta".to_owned();
                append_fragment(&mut shown, turn_id.as_str(), item_id.as_str());
                shown
            },
            AppServerEvent::CommandOutputDelta { turn_id, item_id, .. } => {
                let mut shown = "CommandOutputDelta".to_owned();
                append_fragment(&mut shown, turn_id.as_str(), item_id.as_str());
                shown
            },
            AppServerEvent::TokenUsageUpdated { turn_id, .. } => {
                let mut shown = "TokenUsageUpdated { turn_id: ".to_owned();
                append_turn(&mut shown, turn_id.as_str());
                shown.append(" }");
                shown
            },
            AppServerEvent::TurnCompleted(outcome) => {
                let mut shown = "TurnCompleted(".to_owned();
                let inner = outcome.debug_text();
                shown.append(inner.as_str());
                shown.append(")");
                shown
            },
            AppServerEvent::Error { turn_id, will_retry, .. } => {
                let mut shown = "Error { turn_id: ".to_owned();
                append_turn(&mut shown, turn_id.as_str());
                shown.append(", will_retry: ");
                append_flag(&mut shown, *will_retry);
                shown.append(" }");
                shown
            },
            AppServerEvent::SubscriptionInvalidated { thread_id, reason } => {
                let mut shown = "SubscriptionInvalidated { thread_id: ".to_owned();
                append_thread(&mut shown, thread_id.as_str());
                shown.append(
                    match reason {
                        SubscriptionInvalidation::Lagged => ", reason: Lagged }",
                        SubscriptionInvalidation::ProtocolDrift => ", reason: ProtocolDrift }",
                    },
                );
                shown
            },
            AppServerEvent::Unknown { method } => {
                let mut shown = "Unknown { method: ".to_owned();
                append_quoted(&mut shown, method.as_str());
                shown.append(" }");
                shown
            },
            AppServerEvent::ConnectionClosed { exit } => {
                let mut shown = "ConnectionClosed { exit: ".to_owned();
                append_exit(&mut shown, *exit);
                shown.append(" }");
                shown
            },
        }
    }
}

/// How the number of a connection is shown.
pub open spec fn epoch_shown(epoch: u64) -> Seq<char> {
    "ConnectionEpoch("@ + decimal(epoch as nat) + ")"@
}

fn append_epoch(text: &mut String, epoch: ConnectionEpoch)
    ensures
        final(text)@ == old(text)@ + epoch_shown(epoch@),
{
    text.append("ConnectionEpoch(");
    append_decimal(text, epoch.get());
    text.append(")");
    proof {
        assert(text@ =~= old(text)@ + epoch_shown(epoch@));
    }
}

/// How a version is shown: the parts that it has.
pub open spec fn version_shown(version: VersionView) -> Seq<char> {
    "Version { major: "@ + decimal(version.major as nat) + ", minor: "@ + decimal(
        version.minor as nat,
    ) + ", patch: "@ + decimal(version.patch as nat) + (if version.pre.len() == 0 {
        Seq::empty()
    } else {
        ", pre: Prerelease(\""@ + version.pre + "\")"@
    }) + (if version.build.len() == 0 {
        Seq::empty()
    } else {
        ", build: BuildMetadata(\""@ + version.build + "\")"@
    }) + " }"@
}

fn append_version(text: &mut String, version: &Version)
    ensures
        final(text)@ == old(text)@ + version_shown(version@),
{
    text.append("Version { major: ");
    append_decimal(text, version.major);
    text.append(", minor: ");
    append_decimal(text, version.minor);
    text.append(", patch: ");
    append_decimal(text, version.patch);
    if !version.pre.as_str().is_empty() {
        text.append(", pre: Prerelease(\"");
        text.append(version.pre.as_str());
        text.append("\")");
    }
    if !version.build.as_str().is_empty() {
        text.append(", build: BuildMetadata(\"");
        text.append(version.build.as_str());
        text.append("\")");
    }
    text.append(" }");
    proof {
        assert(text@ =~= old(text)@ + version_shown(version@));
    }
}

impl CompatError {
    /// How the failure is shown: as it is reported.
    pub fn debug_text(&self) -> (text: String)
        ensures
            text@ == "Codex wire value does not satisfy stable "@ + self@,
    {
        self.to_text()
    }
}

impl RpcError {
    /// How the failure is shown: as it is reported.
    pub fn debug_text(&self) -> (text: String)
        ensures
            text@ == error_text(*self),
    {
        self.to_text()
    }
}

impl ClientError {
    /// How the failure is shown: as it is reported.
    pub fn debug_text(&self) -> (text: String)
        ensures
            text@ == client_error_text(*self),
    {
        self.to_text()
    }
}

impl EndpointLabel {
    /// How the label is shown: by its bare text.
    pub fn debug_text(&self) -> (text: &str)
        ensures
            text@ == self@,
    {
        self.as_str()
    }
}

/// What is held for a request of the server while it is unanswered.
#[derive(Clone, Copy, Debug, PartialEq, Eq, Structural)]
pub struct RequestHold {
    /// Whether its share of the control budget is held.
    pub retention: bool,
    /// Whether its share of the inbound budget is held.
    pub transport_retention: bool,
    /// Whether nobody has taken the answer over yet.
    pub armed: bool,
}

/// How what is held for a request is shown.
pub open spec fn hold_shown(hold: RequestHold) -> Seq<char> {
    ", has_retention: "@ + flag_shown(hold.retention) + ", has_transport_retention: "@ + flag_shown(
        hold.transport_retention,
    ) + ", armed: "@ + flag_shown(hold.armed)
}

fn append_hold(text: &mut String, hold: RequestHold)
    ensures
        final(text)@ == old(text)@ + hold_shown(hold),
{
    text.append(", has_retention: ");
    append_flag(text, hold.retention);
    text.append(", has_transport_retention: ");
    append_flag(text, hold.transport_retention);
    text.append(", armed: ");
    append_flag(text, hold.armed);
    proof {
        assert(text@ =~= old(text)@ + hold_shown(hold));
    }
}

/// How what a request asks is shown: without its identifier and its parameters.
pub open spec fn asked_shown(request: ServerRequestView) -> Seq<char> {
    "ServerRequest { id_kind: "@ + quoted_text(id_kind(request.id)) + ", method: "@ + quoted_text(
        request.method,
    ) + ", has_params: "@ + flag_shown(request.params is Some)
}

fn append_asked(text: &mut String, request: &ServerRequest)
    ensures
        final(text)@ == old(text)@ + asked_shown(request@),
{
    text.append("ServerRequest { id_kind: ");
    append_quoted(text, request_id_kind(request.id()));
    text.append(", method: ");
    append_quoted(text, request.method());
    text.append(", has_params: ");
    append_flag(text, request.has_params());
    proof {
        assert(text@ =~= old(text)@ + asked_shown(request@));
    }
}

/// How a request of the server is shown.
pub open spec fn server_request_shown(request: ServerRequestView, hold: RequestHold) -> Seq<char> {
    asked_shown(request) + hold_shown(hold) + ", epoch: "@ + epoch_shown(request.epoch) + ", .. }"@
}

fn append_server_request(text: &mut String, request: &ServerRequest, hold: RequestHold)
    ensures
        final(text)@ == old(text)@ + server_request_shown(request@, hold),
{
    append_asked(text, request);
    append_hold(text, hold);
    text.append(", epoch: ");
    append_epoch(text, request.epoch());
    text.append(", .. }");
    proof {
        assert(text@ =~= old(text)@ + server_request_shown(request@, hold));
    }
}

impl ServerRequest {
    /// How the request is shown.
    pub fn debug_text(&self, hold: RequestHold) -> (text: String)
        ensures
            text@ == server_request_shown(self@, hold),
    {
        let mut text = String::new();
        append_server_request(&mut text, self, hold);
        proof {
            assert(Seq::<char>::empty() + server_request_shown(self@, hold)
                =~= server_request_shown(self@, hold));
        }
        text
    }
}

/// How traffic of a connection is shown: without parameters.
pub open spec fn rpc_event_shown(event: RpcEventView, hold: RequestHold) -> Seq<char> {
    match event {
        RpcEventView::Notification { method, params } => "Notification { method: "@ + quoted_text(
            method,
        ) + ", has_params: "@ + flag_shown(params is Some) + " }"@,
        RpcEventView::ServerRequest(request) => "ServerRequest("@ + server_request_shown(
            request,
            hold,
        ) + ")"@,
        RpcEventView::TransportClosed(exit) => "TransportClosed("@ + exit_shown(exit) + ")"@,
        RpcEventView::ProtocolDrift => "ProtocolDrift"@,
    }
}

impl RpcEvent {
    /// How the event is shown, given what is held for a request.
    pub fn debug_text(&self, hold: RequestHold) -> (text: String)
        ensures
            text@ == rpc_event_shown(self@, hold),
    {
        match self {
            RpcEvent::Notification { method, params } => notification_shown(
                method.as_str(),
                params.is_some(),
            ),
            RpcEvent::ServerRequest(request) => {
                let mut text = "ServerRequest(".to_owned();
                append_server_request(&mut text, request, hold);
                text.append(")");
                text
            },
            RpcEvent::TransportClosed(exit) => {
                let mut text = "TransportClosed(".to_owned();
                append_exit(&mut text, *exit);
                text.append(")");
                text
            },
            RpcEvent::ProtocolDrift => "ProtocolDrift".to_owned(),
        }
    }
}

/// How a control event is shown, given how the request that it names is.
pub open spec fn control_shown(event: ControlView, asked: Seq<char>) -> Seq<char> {
    match event {
        ControlView::ServerRequest { .. } => "ServerRequest("@ + asked + ")"@,
        ControlView::ProtocolDrift => "ProtocolDrift"@,
        ControlView::UnknownNotification { method } => "UnknownNotification { method: "@
            + quoted_text(method) + " }"@,
        ControlView::InvalidNotification { method, authoritative } =>
            "InvalidNotification { method: "@ + quoted_text(method) + ", authoritative: "@
                + flag_shown(authoritative) + " }"@,
        ControlView::ConnectionClosed(exit) => "ConnectionClosed("@ + exit_shown(exit) + ")"@,
    }
}

impl ControlEvent {
    /// How the event is shown; `asked` is how the request that it names is.
    pub fn debug_text(&self, asked: &str) -> (text: String)
        ensures
            text@ == control_shown(self@, asked@),
    {
        match self {
            ControlEvent::ServerRequest { .. } => {
                let mut text = "ServerRequest(".to_owned();
                text.append(asked);
                text.append(")");
                text
            },
            ControlEvent::ProtocolDrift => "ProtocolDrift".to_owned(),
            ControlEvent::UnknownNotification { method } => {
                let mut text = "UnknownNotification { method: ".to_owned();
                append_quoted(&mut text, method.as_str());
                text.append(" }");
                text
            },
            ControlEvent::InvalidNotification { method, authoritative } => {
                let mut text = "InvalidNotification { method: ".to_owned();
                append_quoted(&mut text, method.as_str());
                text.append(", authoritative: ");
                append_flag(&mut text, *authoritative);
                text.append(" }");
                text
            },
            ControlEvent::ConnectionClosed(exit) => {
                let mut text = "ConnectionClosed(".to_owned();
                append_exit(&mut text, *exit);
                text.append(")");
                text
            },
        }
    }
}

/// How an admission gate is shown: without its endpoint and its credentials.
pub open spec fn gate_shown(gate: GateView) -> Seq<char> {
    "ExternalEndpointGate { endpoint: \"[redacted]\", endpoint_label: "@ + gate.label
        + ", expected_version: "@ + version_shown(gate.version) + ", wire_version: "@ + quoted_text(
        adapter_version(gate.wire),
    ) + ", capability_profile: "@ + profile_shown(gate.profile)
        + ", authentication: BearerTokenFile { path: \"[redacted]\" } }"@
}

impl ExternalEndpointGate {
    /// How the admission is shown.
    pub fn debug_text(&self) -> (text: String)
        ensures
            text@ == gate_shown(self@),
    {
        let report = self.report();
        let mut text = "ExternalEndpointGate { endpoint: \"[redacted]\", endpoint_label: ".to_owned();
        text.append(report.endpoint_label.as_str());
        text.append(", expected_version: ");
        append_version(&mut text, &report.codex_version);
        text.append(", wire_version: ");
        append_quoted(&mut text, self.wire().codex_version());
        text.append(", capability_profile: ");
        text.append(profile_name(report.capability_profile));
        text.append(", authentication: BearerTokenFile { path: \"[redacted]\" } }");
        proof {
            assert(text@ =~= gate_shown(self@));
        }
        text
    }
}

/// How an admission result is shown.
pub open spec fn report_shown(report: ReportView) -> Seq<char> {
    "ExternalGateReport { endpoint_label: "@ + report.label + ", codex_version: "@ + version_shown(
        report.version,
    ) + ", capability_profile: "@ + profile_shown(report.profile) + " }"@
}

impl ExternalGateReport {
    /// How the admission result is shown.
    pub fn debug_text(&self) -> (text: String)
        ensures
            text@ == report_shown(self@),
    {
        let mut text = "ExternalGateReport { endpoint_label: ".to_owned();
        text.append(self.endpoint_label.as_str());
        text.append(", codex_version: ");
        append_version(&mut text, &self.codex_version);
        text.append(", capability_profile: ");
        text.append(profile_name(self.capability_profile));
        text.append(" }");
        proof {
            assert(text@ =~= report_shown(self@));
        }
        text
    }
}

/// How a reading connection or client is shown under its name.
pub open spec fn reader_shown(name: Seq<char>, report: ReportView, epoch: u64) -> Seq<char> {
    name + " { endpoint_label: "@ + report.label + ", codex_version: "@ + version_shown(
        report.version,
    ) + ", capability_profile: "@ + profile_shown(report.profile) + ", epoch: "@ + epoch_shown(
        epoch,
    ) + ", .. }"@
}

fn reader_text(name: &str, report: &ExternalGateReport, epoch: ConnectionEpoch) -> (text: String)
    ensures
        text@ == reader_shown(name@, report@, epoch@),
{
    let mut text = name.to_owned();
    text.append(" { endpoint_label: ");
    text.append(report.endpoint_label.as_str());
    text.append(", codex_version: ");
    append_version(&mut text, &report.codex_version);
    text.append(", capability_profile: ");
    text.append(profile_name(report.capability_profile));
    text.append(", epoch: ");
    append_epoch(&mut text, epoch);
    text.append(", .. }");
    proof {
        assert(text@ =~= reader_shown(name@, report@, epoch@));
    }
    text
}

impl ExternalReadOnlyConnection {
    /// How the connection is shown.
    pub fn debug_text(&self) -> (text: String)
        ensures
            text@ == reader_shown(
                "ExternalReadOnlyConnection"@,
                self.reported(),
                self.spec_epoch()@,
            ),
    {
        reader_text("ExternalReadOnlyConnection", self.report(), self.epoch())
    }
}

impl ExternalReadOnlyClient {
    /// How the client is shown.
    pub fn debug_text(&self) -> (text: String)
        ensures
            text@ == reader_shown(
                "ExternalReadOnlyClient"@,
                self.reported(),
                self.spec_epoch()@,
            ),
    {
        reader_text("ExternalReadOnlyClient", self.report(), self.epoch())
    }
}

impl ExternalMutationClient {
    /// How the client is shown.
    pub fn debug_text(&self) -> (text: String)
        ensures
            text@ == "ExternalMutationClient { endpoint_label: "@ + self.reported().label
                + ", capability_profile: "@ + profile_shown(self.reported().profile) + ", epoch: "@
                + epoch_shown(self.spec_epoch()@) + ", .. }"@,
    {
        let mut text = "ExternalMutationClient { endpoint_label: ".to_owned();
        text.append(self.report().endpoint_label.as_str());
        text.append(", capability_profile: ");
        text.append(profile_name(self.report().capability_profile));
        text.append(", epoch: ");
        append_epoch(&mut text, self.epoch());
        text.append(", .. }");
        text
    }
}

/// How the reason of an uncertainty is shown.
pub open spec fn reason_shown(reason: ExternalUncertaintyReason) -> Seq<char> {
    match reason {
        ExternalUncertaintyReason::BridgeRestart => "BridgeRestart"@,
        ExternalUncertaintyReason::BufferOverflow => "BufferOverflow"@,
        ExternalUncertaintyReason::ConflictingTerminal => "ConflictingTerminal"@,
        ExternalUncertaintyReason::PageLimit => "PageLimit"@,
        ExternalUncertaintyReason::ProtocolViolation => "ProtocolViolation"@,
        ExternalUncertaintyReason::RequestTimeout => "RequestTimeout"@,
        ExternalUncertaintyReason::ServerRestart => "ServerRestart"@,
        ExternalUncertaintyReason::SocketDisconnect => "SocketDisconnect"@,
    }
}

fn reason_name(reason: ExternalUncertaintyReason) -> (name: &'static str)
    ensures
        name@ == reason_shown(reason),
{
    match reason {
        ExternalUncertaintyReason::BridgeRestart => "BridgeRestart",
        ExternalUncertaintyReason::BufferOverflow => "BufferOverflow",
        ExternalUncertaintyReason::ConflictingTerminal => "ConflictingTerminal",
        ExternalUncertaintyReason::PageLimit => "PageLimit",
        ExternalUncertaintyReason::ProtocolViolation => "ProtocolViolation",
        ExternalUncertaintyReason::RequestTimeout => "RequestTimeout",
        ExternalUncertaintyReason::ServerRestart => "ServerRestart",
        ExternalUncertaintyReason::SocketDisconnect => "SocketDisconnect",
    }
}

/// How the state of a recovery is shown.
pub open spec fn recovery_state_shown(state: ExternalRecoveryState) -> Seq<char> {
    match state {
        ExternalRecoveryState::Connecting { epoch } => "Connecting { epoch: "@ + decimal(
            epoch as nat,
        ) + " }"@,
        ExternalRecoveryState::Reconciling { epoch } => "Reconciling { epoch: "@ + decimal(
            epoch as nat,
        ) + " }"@,
        ExternalRecoveryState::Ready { epoch } => "Ready { epoch: "@ + decimal(epoch as nat)
            + " }"@,
        ExternalRecoveryState::Unavailable { epoch, reason } => "Unavailable { epoch: "@ + decimal(
            epoch as nat,
        ) + ", reason: "@ + reason_shown(reason) + " }"@,
        ExternalRecoveryState::Stopped => "Stopped"@,
    }
}

fn append_recovery_state(text: &mut String, state: ExternalRecoveryState)
    ensures
        final(text)@ == old(text)@ + recovery_state_shown(state),
{
    match state {
        ExternalRecoveryState::Connecting { epoch } => {
            text.append("Connecting { epoch: ");
            append_decimal(text, epoch);
            text.append(" }");
        },
        ExternalRecoveryState::Reconciling { epoch } => {
            text.append("Reconciling { epoch: ");
            append_decimal(text, epoch);
            text.append(" }");
        },
        ExternalRecoveryState::Ready { epoch } => {
            text.append("Ready { epoch: ");
            append_decimal(text, epoch);
            text.append(" }");
        },
        ExternalRecoveryState::Unavailable { epoch, reason } => {
            text.append("Unavailable { epoch: ");
            append_decimal(text, epoch);
            text.append(", reason: ");
            text.append(reason_name(reason));
            text.append(" }");
        },
        ExternalRecoveryState::Stopped => text.append("Stopped"),
    }
    proof {
        assert(text@ =~= old(text)@ + recovery_state_shown(state));
    }
}

impl ExternalRecoveryCoordinator {
    /// How the recovery of the endpoint with a label is shown.
    pub fn debug_text(&self, label: &EndpointLabel) -> (text: String)
        ensures
            text@ == "ExternalRecoveryCoordinator { endpoint_label: "@ + label@ + ", state: "@
                + recovery_state_shown(self@.state) + ", .. }"@,
    {
        let mut text = "ExternalRecoveryCoordinator { endpoint_label: ".to_owned();
        text.append(label.as_str());
        text.append(", state: ");
        append_recovery_state(&mut text, self.state());
        text.append(", .. }");
        text
    }
}

/// The version that an admission expects is shown, but neither its endpoint
/// nor the path of its credentials: admissions that differ in these alone are
/// shown alike.
pub proof fn shown_gates_hide_their_endpoint(left: GateView, right: GateView)
    requires
        left.label == right.label,
        left.version == right.version,
        left.wire == right.wire,
        left.profile == right.profile,
    ensures
        gate_shown(left) == gate_shown(right),
{
}

/// A fragment is shown without what it says.
pub proof fn shown_fragments_hide_their_text(
    turn_id: Seq<char>,
    item_id: Seq<char>,
    delta: Seq<char>,
    other: Seq<char>,
)
    ensures
        event_shown(EventView::AgentMessageDelta { turn_id, item_id, delta }) == event_shown(
            EventView::AgentMessageDelta { turn_id, item_id, delta: other },
        ),
        event_shown(EventView::CommandOutputDelta { turn_id, item_id, delta }) == event_shown(
            EventView::CommandOutputDelta { turn_id, item_id, delta: other },
        ),
{
}

/// How an approval request is shown: by kind and epoch.
pub open spec fn approval_shown(approval: ExternalApprovalRequest) -> Seq<char> {
    "ExternalApprovalRequest { kind: "@ + quoted_text(
        approval_kind_name(kind_of_approval(approval)),
    ) + ", epoch: ConnectionEpoch("@ + decimal(approval_token(approval)@.epoch as nat)
        + "), .. }"@
}

impl ExternalApprovalRequest {
    /// How the request is shown.
    pub fn debug_text(&self) -> (text: String)
        ensures
            text@ == approval_shown(*self),
    {
        let mut text = "ExternalApprovalRequest { kind: ".to_owned();
        append_quoted(&mut text, self.kind());
        text.append(", epoch: ConnectionEpoch(");
        append_decimal(&mut text, self.epoch().get());
        text.append("), .. }");
        text
    }
}

/// How traffic of an external connection is shown: by name alone.
pub open spec fn read_event_shown(event: ExternalReadEvent) -> Seq<char> {
    match event {
        ExternalReadEvent::AccountRateLimitsUpdated => "AccountRateLimitsUpdated"@,
        ExternalReadEvent::RemoteControlStatusChanged => "RemoteControlStatusChanged"@,
        ExternalReadEvent::ThreadGoalCleared { .. } => "ThreadGoalCleared"@,
        ExternalReadEvent::ThreadSettingsUpdated { .. } => "ThreadSettingsUpdated"@,
        ExternalReadEvent::ThreadStatusChanged { .. } => "ThreadStatusChanged"@,
        ExternalReadEvent::ThreadQueueChanged { .. } => "ThreadQueueChanged"@,
        ExternalReadEvent::ServerRequestResolved { .. } => "ServerRequestResolved"@,
        ExternalReadEvent::Approval(request) => "Approval("@ + approval_shown(request) + ")"@,
        ExternalReadEvent::TurnStarted { .. } => "TurnStarted"@,
        ExternalReadEvent::ItemStarted { .. } => "ItemStarted"@,
        ExternalReadEvent::AgentMessageDelta { .. } => "AgentMessageDelta"@,
        ExternalReadEvent::CommandOutputDelta { .. } => "CommandOutputDelta"@,
        ExternalReadEvent::ItemCompleted { .. } => "ItemCompleted"@,
        ExternalReadEvent::TokenUsageUpdated { .. } => "TokenUsageUpdated"@,
        ExternalReadEvent::Error { .. } => "Error"@,
        ExternalReadEvent::TurnCompleted { .. } => "TurnCompleted"@,
        ExternalReadEvent::Closed(exit) => "Closed("@ + exit_shown(exit) + ")"@,
    }
}

impl ExternalReadEvent {
    /// How the traffic is shown.
    pub fn debug_text(&self) -> (text: String)
        ensures
            text@ == read_event_shown(*self),
    {
        match self {
            ExternalReadEvent::AccountRateLimitsUpdated => "AccountRateLimitsUpdated".to_owned(),
            ExternalReadEvent::RemoteControlStatusChanged =>
                "RemoteControlStatusChanged".to_owned(),
            ExternalReadEvent::ThreadGoalCleared { .. } => "ThreadGoalCleared".to_owned(),
            ExternalReadEvent::ThreadSettingsUpdated { .. } => "ThreadSettingsUpdated".to_owned(),
            ExternalReadEvent::ThreadStatusChanged { .. } => "ThreadStatusChanged".to_owned(),
            ExternalReadEvent::ThreadQueueChanged { .. } => "ThreadQueueChanged".to_owned(),
            ExternalReadEvent::ServerRequestResolved { .. } => "ServerRequestResolved".to_owned(),
            ExternalReadEvent::Approval(request) => {
                let mut text = "Approval(".to_owned();
                let inner = request.debug_text();
                text.append(inner.as_str());
                text.append(")");
                text
            },
            ExternalReadEvent::TurnStarted { .. } => "TurnStarted".to_owned(),
            ExternalReadEvent::ItemStarted { .. } => "ItemStarted".to_owned(),
            ExternalReadEvent::AgentMessageDelta { .. } => "AgentMessageDelta".to_owned(),
            ExternalReadEvent::CommandOutputDelta { .. } => "CommandOutputDelta".to_owned(),
            ExternalReadEvent::ItemCompleted { .. } => "ItemCompleted".to_owned(),
            ExternalReadEvent::TokenUsageUpdated { .. } => "TokenUsageUpdated".to_owned(),
            ExternalReadEvent::Error { .. } => "Error".to_owned(),
            ExternalReadEvent::TurnCompleted { .. } => "TurnCompleted".to_owned(),
            ExternalReadEvent::Closed(exit) => {
                let mut text = "Closed(".to_owned();
                append_exit(&mut text, *exit);
                text.append(")");
                text
            },
        }
    }
}

/// The name of a capability profile.
pub open spec fn profile_shown(profile: ExternalCapabilityProfile) -> Seq<char> {
    match profile {
        ExternalCapabilityProfile::ObserveShared => "ObserveShared"@,
        ExternalCapabilityProfile::ResumeShared => "ResumeShared"@,
        ExternalCapabilityProfile::MutateShared => "MutateShared"@,
        ExternalCapabilityProfile::QueueShared => "QueueShared"@,
    }
}

fn profile_name(profile: ExternalCapabilityProfile) -> (name: &'static str)
    ensures
        name@ == profile_shown(profile),
{
    match profile {
        ExternalCapabilityProfile::ObserveShared => "ObserveShared",
        ExternalCapabilityProfile::ResumeShared => "ResumeShared",
        ExternalCapabilityProfile::MutateShared => "MutateShared",
        ExternalCapabilityProfile::QueueShared => "QueueShared",
    }
}

impl ExternalAuthentication {
    /// How the credential source is shown: without its path.
    pub fn debug_text(&self) -> (text: &'static str)
        ensures
            text@ == "BearerTokenFile { path: \"[redacted]\" }"@,
    {
        "BearerTokenFile { path: \"[redacted]\" }"
    }
}

/// How the settings of an endpoint are shown: without the endpoint and the
/// credential's path.
pub open spec fn endpoint_shown(version: Seq<char>, profile: ExternalCapabilityProfile) -> Seq<
    char,
> {
    " { endpoint: \"[redacted]\", expected_codex_version: "@ + quoted_text(version)
        + ", capability_profile: "@ + profile_shown(profile)
        + ", authentication: BearerTokenFile { path: \"[redacted]\" } }"@
}

fn append_endpoint(text: &mut String, version: &str, profile: ExternalCapabilityProfile)
    ensures
        final(text)@ == old(text)@ + endpoint_shown(version@, profile),
{
    text.append(" { endpoint: \"[redacted]\", expected_codex_version: ");
    append_quoted(text, version);
    text.append(", capability_profile: ");
    text.append(profile_name(profile));
    text.append(", authentication: BearerTokenFile { path: \"[redacted]\" } }");
    proof {
        assert(text@ =~= old(text)@ + endpoint_shown(version@, profile));
    }
}

impl ExternalEndpointConfig {
    /// How the settings are shown.
    pub fn debug_text(&self) -> (text: String)
        ensures
            text@ == "ExternalEndpointConfig"@ + endpoint_shown(
                self.expected_codex_version@,
                self.capability_profile,
            ),
    {
        let mut text = "ExternalEndpointConfig".to_owned();
        append_endpoint(
            &mut text,
            self.expected_codex_version.as_str(),
            self.capability_profile,
        );
        text
    }
}

/// How an optional path is shown.
pub open spec fn path_shown(path: Option<Seq<char>>) -> Seq<char> {
    if path is Some {
        "Some(\"[configured]\")"@
    } else {
        "None"@
    }
}

impl CodexBackendConfig {
    /// How the backend is shown.
    pub fn debug_text(&self) -> (text: String)
        ensures
            text@ == (match *self {
                CodexBackendConfig::SpawnedStdio { codex_home, .. } =>
                    "SpawnedStdio { binary: \"[configured]\", codex_home: "@ + path_shown(
                        text_option(codex_home),
                    ) + " }"@,
                CodexBackendConfig::ExternalEndpoint {
                    expected_codex_version,
                    capability_profile,
                    ..
                } => "ExternalEndpoint"@ + endpoint_shown(
                    expected_codex_version@,
                    capability_profile,
                ),
            }),
    {
        match self {
            CodexBackendConfig::SpawnedStdio { codex_home, .. } => {
                let mut text =
                    "SpawnedStdio { binary: \"[configured]\", codex_home: ".to_owned();
                text.append(
                    if codex_home.is_some() {
                        "Some(\"[configured]\")"
                    } else {
                        "None"
                    },
                );
                text.append(" }");
                text
            },
            CodexBackendConfig::ExternalEndpoint {
                expected_codex_version,
                capability_profile,
                ..
            } => {
                let mut text = "ExternalEndpoint".to_owned();
                append_endpoint(&mut text, expected_codex_version.as_str(), *capability_profile);
                text
            },
        }
    }
}

impl CodexProcessConfig {
    /// How the settings are shown: without the home directory.
    pub fn debug_text(&self) -> (text: String)
        ensures
            text@ == "CodexProcessConfig { binary: "@ + quoted_text(self.binary@)
                + ", codex_home: "@ + path_shown(text_option(self.codex_home)) + " }"@,
    {
        let mut text = "CodexProcessConfig { binary: ".to_owned();
        append_quoted(&mut text, self.binary.as_str());
        text.append(", codex_home: ");
        text.append(
            if self.codex_home.is_some() {
                "Some(\"[configured]\")"
            } else {
                "None"
            },
        );
        text.append(" }");
        text
    }
}

} // verus!
