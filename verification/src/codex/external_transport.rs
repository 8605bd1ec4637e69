//! What an admitted external connection may do and what its traffic means.
use vstd::prelude::*;

use crate::codex::compat::profile_policy;
use crate::codex::external::wire_profile;
use crate::codex::external::ExternalCapabilityProfile;
use crate::codex::external::ExternalGateError;
use crate::codex::protocol::RequestId;
use crate::codex::rpc::admits_notification;
use crate::codex::rpc::approval_request;
use crate::codex::rpc::ConnectionEpoch;
use crate::codex::rpc::RpcError;
use crate::codex::rpc::RpcEvent;
use crate::codex::rpc::RpcProtocolPolicy;
use crate::codex::rpc::ServerRequest;
use crate::codex::types::ThreadItem;
use crate::codex::types::TransportExit;
use crate::codex::types::Turn;
use crate::json::as_unsigned;
use crate::json::field;
use crate::json::json;
use crate::json::member;
use crate::json::Json;
use crate::text::append_signed;
use crate::text::same_text;
use crate::text::signed_decimal;

verus! {

/// Static failures of an external connection. Endpoint text, credentials,
/// payloads, remote texts and thread identifiers are never retained.
#[derive(Clone, Copy, Debug, PartialEq, Eq, Structural)]
pub enum ExternalTransportError {
    Admission(ExternalGateError),
    Rpc,
    ServerRejected { code: i64 },
    RequestTimeout,
    ConnectionLost,
    ProtocolViolation,
    UnsupportedProfile,
}

/// What a failure is reported as.
pub open spec fn transport_error_text(error: ExternalTransportError) -> Seq<char> {
    match error {
        ExternalTransportError::Admission(_) => "external Codex admission failed"@,
        ExternalTransportError::Rpc => "external Codex read-only RPC failed"@,
        ExternalTransportError::ServerRejected { code } =>
            "external Codex read-only RPC was rejected with code "@ + signed_decimal(code as int),
        ExternalTransportError::RequestTimeout => "external Codex read-only RPC timed out"@,
        ExternalTransportError::ConnectionLost => "external Codex socket epoch was lost"@,
        ExternalTransportError::ProtocolViolation =>
            "external Codex response violated the promoted contract"@,
        ExternalTransportError::UnsupportedProfile =>
            "external Codex operation is not available in this capability profile"@,
    }
}

impl ExternalTransportError {
    /// What the failure is reported as.
    pub fn to_text(self) -> (text: String)
        ensures
            text@ == transport_error_text(self),
    {
        match self {
            ExternalTransportError::Admission(_) => "external Codex admission failed".to_owned(),
            ExternalTransportError::Rpc => "external Codex read-only RPC failed".to_owned(),
            ExternalTransportError::ServerRejected { code } => {
                let mut text = "external Codex read-only RPC was rejected with code ".to_owned();
                append_signed(&mut text, code);
                text
            },
            ExternalTransportError::RequestTimeout =>
                "external Codex read-only RPC timed out".to_owned(),
            ExternalTransportError::ConnectionLost =>
                "external Codex socket epoch was lost".to_owned(),
            ExternalTransportError::ProtocolViolation =>
                "external Codex response violated the promoted contract".to_owned(),
            ExternalTransportError::UnsupportedProfile =>
                "external Codex operation is not available in this capability profile".to_owned(),
        }
    }
}

/// What a failed request means on an external connection.
pub open spec fn transport_error(error: RpcError) -> ExternalTransportError {
    match error {
        RpcError::Timeout { .. } => ExternalTransportError::RequestTimeout,
        RpcError::ConnectionLost(_) => ExternalTransportError::ConnectionLost,
        RpcError::Server { code, .. } => ExternalTransportError::ServerRejected { code },
        _ => ExternalTransportError::Rpc,
    }
}

/// What a failed request means on an external connection.
pub fn map_rpc_error(error: &RpcError) -> (mapped: ExternalTransportError)
    ensures
        mapped == transport_error(*error),
{
    match error {
        RpcError::Timeout { .. } => ExternalTransportError::RequestTimeout,
        RpcError::ConnectionLost(_) => ExternalTransportError::ConnectionLost,
        RpcError::Server { code, .. } => ExternalTransportError::ServerRejected { code: *code },
        _ => ExternalTransportError::Rpc,
    }
}

/// Checks that threads may be resumed and read.
pub fn require_resume(profile: ExternalCapabilityProfile) -> (allowed: Result<
    (),
    ExternalTransportError,
>)
    ensures
        allowed == if profile == ExternalCapabilityProfile::ObserveShared {
            Err::<(), ExternalTransportError>(ExternalTransportError::UnsupportedProfile)
        } else {
            Ok::<(), ExternalTransportError>(())
        },
{
    match profile {
        ExternalCapabilityProfile::ObserveShared => Err(ExternalTransportError::UnsupportedProfile),
        _ => Ok(()),
    }
}

/// Checks that turns may be started, steered and interrupted.
pub fn require_mutation(profile: ExternalCapabilityProfile) -> (allowed: Result<
    (),
    ExternalTransportError,
>)
    ensures
        allowed == if profile == ExternalCapabilityProfile::MutateShared || profile
            == ExternalCapabilityProfile::QueueShared {
            Ok::<(), ExternalTransportError>(())
        } else {
            Err::<(), ExternalTransportError>(ExternalTransportError::UnsupportedProfile)
        },
{
    match profile {
        ExternalCapabilityProfile::MutateShared => Ok(()),
        ExternalCapabilityProfile::QueueShared => Ok(()),
        _ => Err(ExternalTransportError::UnsupportedProfile),
    }
}

/// Checks that the queue of a thread may be used.
pub fn require_queue(profile: ExternalCapabilityProfile) -> (allowed: Result<
    (),
    ExternalTransportError,
>)
    ensures
        allowed == if profile == ExternalCapabilityProfile::QueueShared {
            Ok::<(), ExternalTransportError>(())
        } else {
            Err::<(), ExternalTransportError>(ExternalTransportError::UnsupportedProfile)
        },
{
    match profile {
        ExternalCapabilityProfile::QueueShared => Ok(()),
        _ => Err(ExternalTransportError::UnsupportedProfile),
    }
}

/// The inbound policy of a connection with a profile.
pub fn connection_policy(profile: ExternalCapabilityProfile) -> (policy: RpcProtocolPolicy)
    ensures
        policy == profile_policy(wire_profile(profile)),
{
    match profile {
        ExternalCapabilityProfile::ObserveShared => RpcProtocolPolicy::FailClosedExternalObserve,
        ExternalCapabilityProfile::ResumeShared => RpcProtocolPolicy::FailClosedExternalResume,
        ExternalCapabilityProfile::MutateShared => RpcProtocolPolicy::FailClosedExternalMutate,
        ExternalCapabilityProfile::QueueShared => RpcProtocolPolicy::FailClosedExternalQueue,
    }
}

/// What an approval is asked for.
#[derive(Clone, Copy, Debug, PartialEq, Eq, Structural)]
pub enum ApprovalKind {
    Command,
    FileChange,
    Permissions,
}

/// The name of an approval kind in durable records.
pub open spec fn approval_kind_name(kind: ApprovalKind) -> Seq<char> {
    match kind {
        ApprovalKind::Command => "command"@,
        ApprovalKind::FileChange => "file_change"@,
        ApprovalKind::Permissions => "permissions"@,
    }
}

impl ApprovalKind {
    pub fn name(self) -> (name: &'static str)
        ensures
            name@ == approval_kind_name(self),
    {
        match self {
            ApprovalKind::Command => "command",
            ApprovalKind::FileChange => "file_change",
            ApprovalKind::Permissions => "permissions",
        }
    }
}

/// The approval that a method asks for.
pub open spec fn approval_kind_of(method: Seq<char>) -> Option<ApprovalKind> {
    if method == "item/commandExecution/requestApproval"@ {
        Some(ApprovalKind::Command)
    } else if method == "item/fileChange/requestApproval"@ {
        Some(ApprovalKind::FileChange)
    } else if method == "item/permissions/requestApproval"@ {
        Some(ApprovalKind::Permissions)
    } else {
        None
    }
}

/// The approval that a method asks for.
pub fn approval_kind(method: &str) -> (kind: Option<ApprovalKind>)
    ensures
        kind == approval_kind_of(method@),
{
    if same_text(method, "item/commandExecution/requestApproval") {
        Some(ApprovalKind::Command)
    } else if same_text(method, "item/fileChange/requestApproval") {
        Some(ApprovalKind::FileChange)
    } else if same_text(method, "item/permissions/requestApproval") {
        Some(ApprovalKind::Permissions)
    } else {
        None
    }
}

/// What an approval request names, and the rest of its parameters.
pub struct ApprovalParams {
    pub thread_id: String,
    pub turn_id: String,
    pub item_id: String,
    pub details: serde_json::Value,
}

/// An approval request with its epoch-bound response token.
pub enum ExternalApprovalRequest {
    Command { params: ApprovalParams, request: ServerRequest },
    FileChange { params: ApprovalParams, request: ServerRequest },
    Permissions { params: ApprovalParams, request: ServerRequest },
}

/// The parameters of an approval request.
pub open spec fn approval_params(approval: ExternalApprovalRequest) -> ApprovalParams {
    match approval {
        ExternalApprovalRequest::Command { params, .. } => params,
        ExternalApprovalRequest::FileChange { params, .. } => params,
        ExternalApprovalRequest::Permissions { params, .. } => params,
    }
}

/// The response token of an approval request.
pub open spec fn approval_token(approval: ExternalApprovalRequest) -> ServerRequest {
    match approval {
        ExternalApprovalRequest::Command { request, .. } => request,
        ExternalApprovalRequest::FileChange { request, .. } => request,
        ExternalApprovalRequest::Permissions { request, .. } => request,
    }
}

/// The kind of an approval request.
pub open spec fn kind_of_approval(approval: ExternalApprovalRequest) -> ApprovalKind {
    match approval {
        ExternalApprovalRequest::Command { .. } => ApprovalKind::Command,
        ExternalApprovalRequest::FileChange { .. } => ApprovalKind::FileChange,
        ExternalApprovalRequest::Permissions { .. } => ApprovalKind::Permissions,
    }
}

impl ExternalApprovalRequest {
    fn params(&self) -> (params: &ApprovalParams)
        ensures
            *params == approval_params(*self),
    {
        match self {
            ExternalApprovalRequest::Command { params, .. } => params,
            ExternalApprovalRequest::FileChange { params, .. } => params,
            ExternalApprovalRequest::Permissions { params, .. } => params,
        }
    }

    fn token(&self) -> (request: &ServerRequest)
        ensures
            *request == approval_token(*self),
    {
        match self {
            ExternalApprovalRequest::Command { request, .. } => request,
            ExternalApprovalRequest::FileChange { request, .. } => request,
            ExternalApprovalRequest::Permissions { request, .. } => request,
        }
    }

    pub fn request_id(&self) -> (id: &RequestId)
        ensures
            id@ == approval_token(*self)@.id,
    {
        self.token().id()
    }

    pub fn approval_kind(&self) -> (kind: ApprovalKind)
        ensures
            kind == kind_of_approval(*self),
    {
        match self {
            ExternalApprovalRequest::Command { .. } => ApprovalKind::Command,
            ExternalApprovalRequest::FileChange { .. } => ApprovalKind::FileChange,
            ExternalApprovalRequest::Permissions { .. } => ApprovalKind::Permissions,
        }
    }

    pub fn kind(&self) -> (name: &'static str)
        ensures
            name@ == approval_kind_name(kind_of_approval(*self)),
    {
        self.approval_kind().name()
    }

    pub fn epoch(&self) -> (epoch: ConnectionEpoch)
        ensures
            epoch@ == approval_token(*self)@.epoch,
    {
        self.token().epoch()
    }

    pub fn thread_id(&self) -> (text: &str)
        ensures
            text@ == approval_params(*self).thread_id@,
    {
        self.params().thread_id.as_str()
    }

    pub fn turn_id(&self) -> (text: &str)
        ensures
            text@ == approval_params(*self).turn_id@,
    {
        self.params().turn_id.as_str()
    }

    pub fn item_id(&self) -> (text: &str)
        ensures
            text@ == approval_params(*self).item_id@,
    {
        self.params().item_id.as_str()
    }

    /// After how long the server decides by itself, where it says so.
    pub fn auto_resolution_ms(&self) -> (millis: Option<u64>)
        ensures
            millis == auto_resolution(json(approval_params(*self).details)),
    {
        match field(&self.params().details, "autoResolutionMs") {
            Some(value) => as_unsigned(value),
            None => None,
        }
    }
}

/// After how long the server decides by itself, where its details say so.
pub open spec fn auto_resolution(details: Json) -> Option<u64> {
    match details {
        Json::Object(object) => match member(object, "autoResolutionMs"@) {
            Some(Json::Integer(millis)) => if 0 <= millis <= u64::MAX {
                Some(millis as u64)
            } else {
                None
            },
            _ => None,
        },
        _ => None,
    }
}

/// Typed, allowlisted traffic of an external connection.
pub enum ExternalReadEvent {
    AccountRateLimitsUpdated,
    RemoteControlStatusChanged,
    ThreadGoalCleared { thread_id: String },
    ThreadSettingsUpdated { thread_id: String, approvals_reviewer: String },
    ThreadStatusChanged { thread_id: String },
    ThreadQueueChanged { thread_id: String },
    ServerRequestResolved { thread_id: String, request_id: serde_json::Value },
    Approval(ExternalApprovalRequest),
    TurnStarted { thread_id: String, turn: Turn },
    ItemStarted { thread_id: String },
    AgentMessageDelta { thread_id: String },
    CommandOutputDelta { thread_id: String },
    ItemCompleted { thread_id: String, turn_id: String, item: ThreadItem },
    TokenUsageUpdated { thread_id: String },
    Error { thread_id: String },
    TurnCompleted { thread_id: String, turn: Turn },
    Closed(TransportExit),
}

/// Which traffic a method names.
#[derive(Clone, Copy, Debug, PartialEq, Eq, Structural)]
pub enum ReadEventKind {
    AccountRateLimitsUpdated,
    RemoteControlStatusChanged,
    ThreadGoalCleared,
    ThreadSettingsUpdated,
    ThreadStatusChanged,
    ThreadQueueChanged,
    ServerRequestResolved,
    TurnStarted,
    ItemStarted,
    AgentMessageDelta,
    CommandOutputDelta,
    ItemCompleted,
    TokenUsageUpdated,
    Error,
    TurnCompleted,
}

/// The traffic that a method names.
pub open spec fn event_kind_of(method: Seq<char>) -> Option<ReadEventKind> {
    if method == "account/rateLimits/updated"@ {
        Some(ReadEventKind::AccountRateLimitsUpdated)
    } else if method == "remoteControl/status/changed"@ {
        Some(ReadEventKind::RemoteControlStatusChanged)
    } else if method == "thread/goal/cleared"@ {
        Some(ReadEventKind::ThreadGoalCleared)
    } else if method == "thread/settings/updated"@ {
        Some(ReadEventKind::ThreadSettingsUpdated)
    } else if method == "thread/status/changed"@ {
        Some(ReadEventKind::ThreadStatusChanged)
    } else if method == "thread/queue/changed"@ {
        Some(ReadEventKind::ThreadQueueChanged)
    } else if method == "serverRequest/resolved"@ {
        Some(ReadEventKind::ServerRequestResolved)
    } else if method == "turn/started"@ {
        Some(ReadEventKind::TurnStarted)
    } else if method == "item/started"@ {
        Some(ReadEventKind::ItemStarted)
    } else if method == "item/agentMessage/delta"@ {
        Some(ReadEventKind::AgentMessageDelta)
    } else if method == "item/commandExecution/outputDelta"@ {
        Some(ReadEventKind::CommandOutputDelta)
    } else if method == "item/completed"@ {
        Some(ReadEventKind::ItemCompleted)
    } else if method == "thread/tokenUsage/updated"@ {
        Some(ReadEventKind::TokenUsageUpdated)
    } else if method == "error"@ {
        Some(ReadEventKind::Error)
    } else if method == "turn/completed"@ {
        Some(ReadEventKind::TurnCompleted)
    } else {
        None
    }
}

/// The traffic that a method names.
pub fn event_kind(method: &str) -> (kind: Option<ReadEventKind>)
    ensures
        kind == event_kind_of(method@),
{
    if same_text(method, "account/rateLimits/updated") {
        Some(ReadEventKind::AccountRateLimitsUpdated)
    } else if same_text(method, "remoteControl/status/changed") {
        Some(ReadEventKind::RemoteControlStatusChanged)
    } else if same_text(method, "thread/goal/cleared") {
        Some(ReadEventKind::ThreadGoalCleared)
    } else if same_text(method, "thread/settings/updated") {
        Some(ReadEventKind::ThreadSettingsUpdated)
    } else if same_text(method, "thread/status/changed") {
        Some(ReadEventKind::ThreadStatusChanged)
    } else if same_text(method, "thread/queue/changed") {
        Some(ReadEventKind::ThreadQueueChanged)
    } else if same_text(method, "serverRequest/resolved") {
        Some(ReadEventKind::ServerRequestResolved)
    } else if same_text(method, "turn/started") {
        Some(ReadEventKind::TurnStarted)
    } else if same_text(method, "item/started") {
        Some(ReadEventKind::ItemStarted)
    } else if same_text(method, "item/agentMessage/delta") {
        Some(ReadEventKind::AgentMessageDelta)
    } else if same_text(method, "item/commandExecution/outputDelta") {
        Some(ReadEventKind::CommandOutputDelta)
    } else if same_text(method, "item/completed") {
        Some(ReadEventKind::ItemCompleted)
    } else if same_text(method, "thread/tokenUsage/updated") {
        Some(ReadEventKind::TokenUsageUpdated)
    } else if same_text(method, "error") {
        Some(ReadEventKind::Error)
    } else if same_text(method, "turn/completed") {
        Some(ReadEventKind::TurnCompleted)
    } else {
        None
    }
}

/// The kind of decoded traffic; approvals and the end have none.
pub open spec fn kind_of_event(event: ExternalReadEvent) -> Option<ReadEventKind> {
    match event {
        ExternalReadEvent::AccountRateLimitsUpdated => Some(
            ReadEventKind::AccountRateLimitsUpdated,
        ),
        ExternalReadEvent::RemoteControlStatusChanged => Some(
            ReadEventKind::RemoteControlStatusChanged,
        ),
        ExternalReadEvent::ThreadGoalCleared { .. } => Some(ReadEventKind::ThreadGoalCleared),
        ExternalReadEvent::ThreadSettingsUpdated { .. } => Some(
            ReadEventKind::ThreadSettingsUpdated,
        ),
        ExternalReadEvent::ThreadStatusChanged { .. } => Some(ReadEventKind::ThreadStatusChanged),
        ExternalReadEvent::ThreadQueueChanged { .. } => Some(ReadEventKind::ThreadQueueChanged),
        ExternalReadEvent::ServerRequestResolved { .. } => Some(
            ReadEventKind::ServerRequestResolved,
        ),
        ExternalReadEvent::Approval(_) => None,
        ExternalReadEvent::TurnStarted { .. } => Some(ReadEventKind::TurnStarted),
        ExternalReadEvent::ItemStarted { .. } => Some(ReadEventKind::ItemStarted),
        ExternalReadEvent::AgentMessageDelta { .. } => Some(ReadEventKind::AgentMessageDelta),
        ExternalReadEvent::CommandOutputDelta { .. } => Some(ReadEventKind::CommandOutputDelta),
        ExternalReadEvent::ItemCompleted { .. } => Some(ReadEventKind::ItemCompleted),
        ExternalReadEvent::TokenUsageUpdated { .. } => Some(ReadEventKind::TokenUsageUpdated),
        ExternalReadEvent::Error { .. } => Some(ReadEventKind::Error),
        ExternalReadEvent::TurnCompleted { .. } => Some(ReadEventKind::TurnCompleted),
        ExternalReadEvent::Closed(_) => None,
    }
}

fn decoded_kind(event: &ExternalReadEvent) -> (kind: Option<ReadEventKind>)
    ensures
        kind == kind_of_event(*event),
{
    match event {
        ExternalReadEvent::AccountRateLimitsUpdated => Some(
            ReadEventKind::AccountRateLimitsUpdated,
        ),
        ExternalReadEvent::RemoteControlStatusChanged => Some(
            ReadEventKind::RemoteControlStatusChanged,
        ),
        ExternalReadEvent::ThreadGoalCleared { .. } => Some(ReadEventKind::ThreadGoalCleared),
        ExternalReadEvent::ThreadSettingsUpdated { .. } => Some(
            ReadEventKind::ThreadSettingsUpdated,
        ),
        ExternalReadEvent::ThreadStatusChanged { .. } => Some(ReadEventKind::ThreadStatusChanged),
        ExternalReadEvent::ThreadQueueChanged { .. } => Some(ReadEventKind::ThreadQueueChanged),
        ExternalReadEvent::ServerRequestResolved { .. } => Some(
            ReadEventKind::ServerRequestResolved,
        ),
        ExternalReadEvent::Approval(_) => None,
        ExternalReadEvent::TurnStarted { .. } => Some(ReadEventKind::TurnStarted),
        ExternalReadEvent::ItemStarted { .. } => Some(ReadEventKind::ItemStarted),
        ExternalReadEvent::AgentMessageDelta { .. } => Some(ReadEventKind::AgentMessageDelta),
        ExternalReadEvent::CommandOutputDelta { .. } => Some(ReadEventKind::CommandOutputDelta),
        ExternalReadEvent::ItemCompleted { .. } => Some(ReadEventKind::ItemCompleted),
        ExternalReadEvent::TokenUsageUpdated { .. } => Some(ReadEventKind::TokenUsageUpdated),
        ExternalReadEvent::Error { .. } => Some(ReadEventKind::Error),
        ExternalReadEvent::TurnCompleted { .. } => Some(ReadEventKind::TurnCompleted),
        ExternalReadEvent::Closed(_) => None,
    }
}

/// What the parameters of traffic were decoded to.
pub enum DecodedParams {
    /// They could not be decoded, or there were none.
    Failed,
    Event(ExternalReadEvent),
    Approval(ApprovalParams),
}

/// Interprets traffic of the connection, given what its parameters were
/// decoded to under its method. Anything that is not on the allowlist, has no
/// parameters or could not be decoded is a violation.
pub fn recv_event(event: Option<RpcEvent>, decoded: DecodedParams) -> (received: Result<
    Option<ExternalReadEvent>,
    ExternalTransportError,
>)
    ensures
        delivered(event, decoded, received),
        match event {
            None => received == Ok::<Option<ExternalReadEvent>, ExternalTransportError>(None),
            Some(RpcEvent::TransportClosed(exit)) => received == Ok::<
                Option<ExternalReadEvent>,
                ExternalTransportError,
            >(Some(ExternalReadEvent::Closed(exit))),
            Some(RpcEvent::ProtocolDrift) => received == Err::<
                Option<ExternalReadEvent>,
                ExternalTransportError,
            >(ExternalTransportError::ProtocolViolation),
            Some(RpcEvent::Notification { method, params }) => {
                let kind = event_kind_of(method@);
                if params is Some && kind is Some && decoded is Event && kind_of_event(
                    decoded->Event_0,
                ) == kind {
                    received == Ok::<Option<ExternalReadEvent>, ExternalTransportError>(
                        Some(decoded->Event_0),
                    )
                } else {
                    received == Err::<Option<ExternalReadEvent>, ExternalTransportError>(
                        ExternalTransportError::ProtocolViolation,
                    )
                }
            },
            Some(RpcEvent::ServerRequest(request)) => {
                let kind = approval_kind_of(request@.method);
                if request@.params is Some && kind is Some && decoded is Approval {
                    received matches Ok(Some(ExternalReadEvent::Approval(approval)))
                        && kind_of_approval(approval) == kind->Some_0 && approval_params(approval)
                        == decoded->Approval_0 && approval_token(approval) == request
                } else {
                    received == Err::<Option<ExternalReadEvent>, ExternalTransportError>(
                        ExternalTransportError::ProtocolViolation,
                    )
                }
            },
        },
{
    let event = match event {
        Some(event) => event,
        None => {
            return Ok(None);
        },
    };
    match event {
        RpcEvent::TransportClosed(exit) => Ok(Some(ExternalReadEvent::Closed(exit))),
        RpcEvent::ProtocolDrift => Err(ExternalTransportError::ProtocolViolation),
        RpcEvent::Notification { method, params } => {
            if params.is_none() {
                return Err(ExternalTransportError::ProtocolViolation);
            }
            let kind = match event_kind(method.as_str()) {
                Some(kind) => kind,
                None => {
                    return Err(ExternalTransportError::ProtocolViolation);
                },
            };
            match decoded {
                DecodedParams::Event(held) => {
                    let matching = match decoded_kind(&held) {
                        Some(found) => found == kind,
                        None => false,
                    };
                    if matching {
                        Ok(Some(held))
                    } else {
                        Err(ExternalTransportError::ProtocolViolation)
                    }
                },
                _ => Err(ExternalTransportError::ProtocolViolation),
            }
        },
        RpcEvent::ServerRequest(request) => {
            if !request.has_params() {
                return Err(ExternalTransportError::ProtocolViolation);
            }
            let kind = match approval_kind(request.method()) {
                Some(kind) => kind,
                None => {
                    return Err(ExternalTransportError::ProtocolViolation);
                },
            };
            match decoded {
                DecodedParams::Approval(params) => Ok(
                    Some(
                        ExternalReadEvent::Approval(
                            match kind {
                                ApprovalKind::Command => ExternalApprovalRequest::Command {
                                    params,
                                    request,
                                },
                                ApprovalKind::FileChange => ExternalApprovalRequest::FileChange {
                                    params,
                                    request,
                                },
                                ApprovalKind::Permissions => ExternalApprovalRequest::Permissions {
                                    params,
                                    request,
                                },
                            },
                        ),
                    ),
                ),
                _ => Err(ExternalTransportError::ProtocolViolation),
            }
        },
    }
}

/// The decoder knows exactly the traffic that the widest policy admits: what a
/// connection admits can be interpreted, and nothing else is.
pub proof fn decoder_and_policy_agree(method: Seq<char>)
    ensures
        event_kind_of(method) is Some <==> admits_notification(
            RpcProtocolPolicy::FailClosedExternalQueue,
            method,
        ),
        approval_kind_of(method) is Some <==> approval_request(method),
{
}

/// A failed call is told apart by how it failed: out of time, the connection
/// lost, or refused by the server with its code.
pub proof fn call_failures_are_told_apart(error: RpcError)
    ensures
        transport_error(error) is RequestTimeout <==> error is Timeout,
        transport_error(error) is ConnectionLost <==> error is ConnectionLost,
        error matches RpcError::Server { code, .. } ==> transport_error(error) == (
        ExternalTransportError::ServerRejected { code }),
        transport_error(error) is ServerRejected ==> error is Server,
        transport_error(error) is Rpc <==> !(error is Timeout || error is ConnectionLost || error
            is Server),
{
}

/// The kind of an approval is that of its method, and it keeps its own
/// parameters and request.
pub proof fn approvals_keep_their_request(params: ApprovalParams, request: ServerRequest)
    ensures
        approval_kind_of("item/commandExecution/requestApproval"@) == Some(ApprovalKind::Command),
        approval_kind_of("item/fileChange/requestApproval"@) == Some(ApprovalKind::FileChange),
        approval_kind_of("item/permissions/requestApproval"@) == Some(ApprovalKind::Permissions),
        ({
            let command = ExternalApprovalRequest::Command { params, request };
            let change = ExternalApprovalRequest::FileChange { params, request };
            let grant = ExternalApprovalRequest::Permissions { params, request };
            &&& kind_of_approval(command) == ApprovalKind::Command
            &&& kind_of_approval(change) == ApprovalKind::FileChange
            &&& kind_of_approval(grant) == ApprovalKind::Permissions
            &&& approval_params(command) == params && approval_params(change) == params
                && approval_params(grant) == params
            &&& approval_token(command) == request && approval_token(change) == request
                && approval_token(grant) == request
        }),
{
    reveal_strlit("item/commandExecution/requestApproval");
    reveal_strlit("item/fileChange/requestApproval");
    reveal_strlit("item/permissions/requestApproval");
    assert("item/commandExecution/requestApproval"@.len() == 37);
    assert("item/fileChange/requestApproval"@.len() == 31);
    assert("item/permissions/requestApproval"@.len() == 32);
}

/// An event is of the kind that its method names: each kind comes by one
/// method, and each event has its own.
pub proof fn events_keep_their_kind(method: Seq<char>, event: ExternalReadEvent)
    ensures
        ({
            let kind = event_kind_of(method);
            &&& kind == Some(ReadEventKind::AccountRateLimitsUpdated) <==> method
                == "account/rateLimits/updated"@
            &&& kind == Some(ReadEventKind::RemoteControlStatusChanged) ==> method
                == "remoteControl/status/changed"@
            &&& kind == Some(ReadEventKind::ThreadGoalCleared) ==> method == "thread/goal/cleared"@
            &&& kind == Some(ReadEventKind::ThreadSettingsUpdated) ==> method
                == "thread/settings/updated"@
            &&& kind == Some(ReadEventKind::ThreadStatusChanged) ==> method
                == "thread/status/changed"@
            &&& kind == Some(ReadEventKind::ThreadQueueChanged) ==> method
                == "thread/queue/changed"@
            &&& kind == Some(ReadEventKind::ServerRequestResolved) ==> method
                == "serverRequest/resolved"@
            &&& kind == Some(ReadEventKind::TurnStarted) ==> method == "turn/started"@
            &&& kind == Some(ReadEventKind::ItemStarted) ==> method == "item/started"@
            &&& kind == Some(ReadEventKind::AgentMessageDelta) ==> method
                == "item/agentMessage/delta"@
            &&& kind == Some(ReadEventKind::CommandOutputDelta) ==> method
                == "item/commandExecution/outputDelta"@
            &&& kind == Some(ReadEventKind::ItemCompleted) ==> method == "item/completed"@
            &&& kind == Some(ReadEventKind::TokenUsageUpdated) ==> method
                == "thread/tokenUsage/updated"@
            &&& kind == Some(ReadEventKind::Error) ==> method == "error"@
            &&& kind == Some(ReadEventKind::TurnCompleted) ==> method == "turn/completed"@
        }),
        ({
            let kind = kind_of_event(event);
            &&& kind == Some(ReadEventKind::AccountRateLimitsUpdated) <==> event
                is AccountRateLimitsUpdated
            &&& kind == Some(ReadEventKind::RemoteControlStatusChanged) <==> event
                is RemoteControlStatusChanged
            &&& kind == Some(ReadEventKind::ThreadGoalCleared) <==> event is ThreadGoalCleared
            &&& kind == Some(ReadEventKind::ThreadSettingsUpdated) <==> event
                is ThreadSettingsUpdated
            &&& kind == Some(ReadEventKind::ThreadStatusChanged) <==> event is ThreadStatusChanged
            &&& kind == Some(ReadEventKind::ThreadQueueChanged) <==> event is ThreadQueueChanged
            &&& kind == Some(ReadEventKind::ServerRequestResolved) <==> event
                is ServerRequestResolved
            &&& kind == Some(ReadEventKind::TurnStarted) <==> event is TurnStarted
            &&& kind == Some(ReadEventKind::ItemStarted) <==> event is ItemStarted
            &&& kind == Some(ReadEventKind::AgentMessageDelta) <==> event is AgentMessageDelta
            &&& kind == Some(ReadEventKind::CommandOutputDelta) <==> event is CommandOutputDelta
            &&& kind == Some(ReadEventKind::ItemCompleted) <==> event is ItemCompleted
            &&& kind == Some(ReadEventKind::TokenUsageUpdated) <==> event is TokenUsageUpdated
            &&& kind == Some(ReadEventKind::Error) <==> event is Error
            &&& kind == Some(ReadEventKind::TurnCompleted) <==> event is TurnCompleted
            &&& kind is None <==> event is Approval || event is Closed
        }),
{
}

/// The time after which the server decides by itself is the one that it names,
/// where that is a number of milliseconds.
pub proof fn the_named_time_counts(object: Map<Seq<char>, Json>, millis: u64)
    ensures
        member(object, "autoResolutionMs"@) == Some(Json::Integer(millis as int))
            ==> auto_resolution(Json::Object(object)) == Some(millis),
        member(object, "autoResolutionMs"@) is None ==> auto_resolution(Json::Object(object))
            is None,
        auto_resolution(Json::Object(object)) matches Some(held) ==> member(
            object,
            "autoResolutionMs"@,
        ) == Some(Json::Integer(held as int)),
{
}

/// Whether a received event is what the connection handed over, decoded.
pub open spec fn delivered(
    event: Option<RpcEvent>,
    decoded: DecodedParams,
    received: Result<Option<ExternalReadEvent>, ExternalTransportError>,
) -> bool {
    match received {
        Ok(None) => event is None,
        Ok(Some(ExternalReadEvent::Closed(exit))) => event == Some(RpcEvent::TransportClosed(exit)),
        Ok(Some(ExternalReadEvent::Approval(approval))) => match (event, decoded) {
            (Some(RpcEvent::ServerRequest(request)), DecodedParams::Approval(params)) => {
                &&& request@.params is Some
                &&& approval_kind_of(request@.method) == Some(kind_of_approval(approval))
                &&& approval_params(approval) == params
                &&& approval_token(approval) == request
            },
            _ => false,
        },
        Ok(Some(held)) => match (event, decoded) {
            (Some(RpcEvent::Notification { method, params }), DecodedParams::Event(read)) => {
                &&& params is Some
                &&& read == held
                &&& event_kind_of(method@) is Some
                &&& event_kind_of(method@) == kind_of_event(held)
            },
            _ => false,
        },
        Err(error) => {
            &&& error == ExternalTransportError::ProtocolViolation
            &&& match event {
                None => false,
                Some(RpcEvent::TransportClosed(_)) => false,
                Some(RpcEvent::ProtocolDrift) => true,
                Some(RpcEvent::Notification { method, params }) => !(params is Some && decoded
                    is Event && event_kind_of(method@) is Some && kind_of_event(decoded->Event_0)
                    == event_kind_of(method@)),
                Some(RpcEvent::ServerRequest(request)) => !(request@.params is Some && decoded
                    is Approval && approval_kind_of(request@.method) is Some),
            }
        },
    }
}

/// An event is delivered as what it came as: a notification of its own kind with
/// what was decoded, an approval of the kind that its method names with its own
/// request, and the end of the transport with its reason. What cannot be, is a
/// violation; nothing is delivered that did not come.
pub proof fn events_are_delivered_as_they_came(
    event: Option<RpcEvent>,
    decoded: DecodedParams,
    received: Result<Option<ExternalReadEvent>, ExternalTransportError>,
)
    requires
        delivered(event, decoded, received),
    ensures
        event is None <==> received == Ok::<Option<ExternalReadEvent>, ExternalTransportError>(None),
        event matches Some(RpcEvent::TransportClosed(exit)) ==> received == Ok::<
            Option<ExternalReadEvent>,
            ExternalTransportError,
        >(Some(ExternalReadEvent::Closed(exit))),
        event matches Some(RpcEvent::ProtocolDrift) ==> received is Err,
        event matches Some(RpcEvent::Notification { method, params }) ==> (received is Ok ==> decoded
            is Event && received->Ok_0 == Some(decoded->Event_0) && params is Some && event_kind_of(
            method@,
        ) == kind_of_event(decoded->Event_0)),
        event matches Some(RpcEvent::ServerRequest(request)) ==> (received is Ok ==> match received {
            Ok(Some(ExternalReadEvent::Approval(approval))) => approval_token(approval) == request
                && decoded is Approval && approval_params(approval) == decoded->Approval_0
                && approval_kind_of(request@.method) == Some(kind_of_approval(approval)),
            _ => false,
        }),
        received is Err ==> received == Err::<Option<ExternalReadEvent>, ExternalTransportError>(
            ExternalTransportError::ProtocolViolation,
        ),
{
}

/// Kinds of approvals have names of their own.
pub proof fn approval_kinds_have_their_own_name(one: ApprovalKind, other: ApprovalKind)
    requires
        approval_kind_name(one) == approval_kind_name(other),
    ensures
        one == other,
{
    reveal_strlit("command");
    reveal_strlit("file_change");
    reveal_strlit("permissions");
    assert("command"@.len() == 7 && "file_change"@.len() == 11 && "permissions"@.len() == 11);
    assert("file_change"@[0] == 'f' && "permissions"@[0] == 'p');
}

} // verus!
