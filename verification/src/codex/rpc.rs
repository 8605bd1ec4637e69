//! The sole owner of one app-server connection: correlation of requests,
//! admission of traffic, and the order of events.
use vstd::prelude::*;

use crate::codex::protocol::RequestId;
use crate::codex::protocol::RequestIdView;
use crate::codex::types::saturated;
use crate::codex::types::text_bytes;
use crate::codex::types::TransportExit;
use crate::json::json_option;
use crate::json::Json;
use crate::limits::MAX_JSONL_LINE_BYTES;
use crate::limits::MAX_OUTBOUND_VALUE_WIRE_BYTES;
use crate::limits::RPC_BYTE_BUDGET;
use crate::limits::RPC_RELIABLE_EVENT_BYTE_BUDGET;
use crate::text::append_decimal;
use crate::text::append_signed;
use crate::text::byte_len;
use crate::text::decimal;
use crate::text::lemma_decimal_digits;
use crate::text::lemma_decimal_injective;
use crate::text::lemma_split_at_mark;
use crate::text::same_text;
use crate::text::signed_decimal;
use vstd::string::StringExecFns;

verus! {

/// Identifies one app-server connection. Identifiers from different epochs
/// never correlate.
#[derive(Clone, Copy, Debug, PartialEq, Eq, Hash, Structural)]
pub struct ConnectionEpoch(u64);

impl View for ConnectionEpoch {
    type V = u64;

    closed spec fn view(&self) -> u64 {
        self.0
    }
}

impl ConnectionEpoch {
    pub fn new(value: u64) -> (epoch: ConnectionEpoch)
        ensures
            epoch@ == value,
    {
        ConnectionEpoch(value)
    }

    pub fn get(self) -> (value: u64)
        ensures
            value == self@,
    {
        self.0
    }
}

/// Safe RPC failures. Remote text and data are deliberately discarded.
#[derive(Clone, Copy, PartialEq, Eq)]
pub enum RpcError {
    Timeout { method: &'static str },
    Server { method: &'static str, code: i64 },
    ConnectionLost(ConnectionEpoch),
    AlreadyInitialized,
    Serialize { method: &'static str },
    Deserialize { method: &'static str },
    PayloadTooLarge { method: &'static str },
    UnknownServerRequest,
    RequestIdExhausted,
}

/// What a failure is reported as.
pub open spec fn error_text(error: RpcError) -> Seq<char> {
    match error {
        RpcError::Timeout { method } => "RPC "@ + method@ + " timed out"@,
        RpcError::Server { method, code } => "RPC "@ + method@ + " failed with server code "@
            + signed_decimal(code as int),
        RpcError::ConnectionLost(epoch) => "app-server connection "@ + decimal(epoch@ as nat)
            + " was lost"@,
        RpcError::AlreadyInitialized => "connection was already initialized"@,
        RpcError::Serialize { method } => "RPC "@ + method@ + " parameters are invalid"@,
        RpcError::Deserialize { method } => "RPC "@ + method@ + " result is invalid"@,
        RpcError::PayloadTooLarge { method } => "RPC "@ + method@
            + " exceeds the protocol size limit"@,
        RpcError::UnknownServerRequest => "server request is no longer pending"@,
        RpcError::RequestIdExhausted => "connection request IDs are exhausted"@,
    }
}

fn framed(head: &str, middle: &str, tail: &str) -> (text: String)
    ensures
        text@ == head@ + middle@ + tail@,
{
    let mut text = head.to_owned();
    text.append(middle);
    text.append(tail);
    text
}

impl RpcError {
    /// What the failure is reported as.
    pub fn to_text(&self) -> (text: String)
        ensures
            text@ == error_text(*self),
    {
        match self {
            RpcError::Timeout { method } => framed("RPC ", method, " timed out"),
            RpcError::Server { method, code } => {
                let mut text = framed("RPC ", method, " failed with server code ");
                append_signed(&mut text, *code);
                text
            },
            RpcError::ConnectionLost(epoch) => {
                let mut text = "app-server connection ".to_owned();
                append_decimal(&mut text, epoch.get());
                text.append(" was lost");
                text
            },
            RpcError::AlreadyInitialized => "connection was already initialized".to_owned(),
            RpcError::Serialize { method } => framed("RPC ", method, " parameters are invalid"),
            RpcError::Deserialize { method } => framed("RPC ", method, " result is invalid"),
            RpcError::PayloadTooLarge { method } => framed(
                "RPC ",
                method,
                " exceeds the protocol size limit",
            ),
            RpcError::UnknownServerRequest => "server request is no longer pending".to_owned(),
            RpcError::RequestIdExhausted => "connection request IDs are exhausted".to_owned(),
        }
    }
}

/// Who is responsible for answering one request of the server.
#[derive(Clone, Copy, Debug, PartialEq, Eq, Structural)]
pub enum LeaseState {
    Armed,
    ActorOwned,
    Resolved,
}

/// Responsibility for one request of the server. Dropping it unanswered ends
/// the connection, once.
#[derive(Clone, Copy, Debug, PartialEq, Eq, Structural)]
pub struct ServerRequestLease {
    pub state: LeaseState,
}

impl ServerRequestLease {
    pub fn new() -> (lease: ServerRequestLease)
        ensures
            lease.state == LeaseState::Armed,
    {
        ServerRequestLease { state: LeaseState::Armed }
    }

    pub fn is_armed(&self) -> (armed: bool)
        ensures
            armed == (self.state == LeaseState::Armed),
    {
        self.state == LeaseState::Armed
    }

    /// The answer is on its way: from here on the connection owner answers.
    pub fn handoff_to_actor(&mut self)
        ensures
            final(self).state == if old(self).state == LeaseState::Armed {
                LeaseState::ActorOwned
            } else {
                old(self).state
            },
    {
        if self.state == LeaseState::Armed {
            self.state = LeaseState::ActorOwned;
        }
    }

    /// The answer was sent.
    pub fn resolve_actor_owned(&mut self)
        ensures
            final(self).state == if old(self).state == LeaseState::ActorOwned {
                LeaseState::Resolved
            } else {
                old(self).state
            },
    {
        if self.state == LeaseState::ActorOwned {
            self.state = LeaseState::Resolved;
        }
    }

    /// The answer could not be sent; `true` means that the connection ends.
    pub fn fail_actor_owned(&mut self) -> (cancel: bool)
        ensures
            cancel == (old(self).state == LeaseState::ActorOwned),
            final(self).state == if cancel {
                LeaseState::Resolved
            } else {
                old(self).state
            },
    {
        if self.state == LeaseState::ActorOwned {
            self.state = LeaseState::Resolved;
            true
        } else {
            false
        }
    }

    /// Nobody will answer; `true` means that the connection ends.
    pub fn abandon_if_armed(&mut self) -> (cancel: bool)
        ensures
            cancel == (old(self).state == LeaseState::Armed),
            final(self).state == if cancel {
                LeaseState::Resolved
            } else {
                old(self).state
            },
    {
        if self.state == LeaseState::Armed {
            self.state = LeaseState::Resolved;
            true
        } else {
            false
        }
    }
}

/// Whether a request token may be answered or abandoned on a connection: it
/// was issued by that connection and nobody has taken it yet.
pub fn check_answerable(
    request_epoch: ConnectionEpoch,
    epoch: ConnectionEpoch,
    lease: &ServerRequestLease,
) -> (allowed: Result<(), RpcError>)
    ensures
        allowed is Ok == (request_epoch@ == epoch@ && lease.state == LeaseState::Armed),
        allowed matches Err(error) ==> error == RpcError::UnknownServerRequest,
{
    if request_epoch.get() != epoch.get() || !lease.is_armed() {
        return Err(RpcError::UnknownServerRequest);
    }
    Ok(())
}

/// Inbound protocol policy selected by the connection owner.
#[derive(Clone, Copy, Debug, PartialEq, Eq, Structural)]
pub enum RpcProtocolPolicy {
    /// Surface unknown traffic as protocol drift.
    Permissive,
    /// Fault on stale responses, server requests, notifications, and malformed
    /// records.
    FailClosedExternalObserve,
    /// Accept only thread status and terminal item and turn notifications.
    FailClosedExternalResume,
    /// Additionally admit the three approval requests and the notifications of
    /// a running turn.
    FailClosedExternalMutate,
    /// Additionally admit the queue-change notification.
    FailClosedExternalQueue,
}

/// Notifications that a resuming connection expects.
pub open spec fn resume_notification(method: Seq<char>) -> bool {
    ||| method == "thread/status/changed"@
    ||| method == "item/completed"@
    ||| method == "turn/completed"@
}

/// Notifications that a mutating connection expects.
pub open spec fn mutate_notification(method: Seq<char>) -> bool {
    ||| resume_notification(method)
    ||| method == "account/rateLimits/updated"@
    ||| method == "remoteControl/status/changed"@
    ||| method == "thread/goal/cleared"@
    ||| method == "thread/settings/updated"@
    ||| method == "turn/started"@
    ||| method == "item/started"@
    ||| method == "item/agentMessage/delta"@
    ||| method == "item/commandExecution/outputDelta"@
    ||| method == "thread/tokenUsage/updated"@
    ||| method == "error"@
    ||| method == "serverRequest/resolved"@
}

/// The three approval requests.
pub open spec fn approval_request(method: Seq<char>) -> bool {
    ||| method == "item/commandExecution/requestApproval"@
    ||| method == "item/fileChange/requestApproval"@
    ||| method == "item/permissions/requestApproval"@
}

/// Whether a policy admits a notification.
pub open spec fn admits_notification(policy: RpcProtocolPolicy, method: Seq<char>) -> bool {
    match policy {
        RpcProtocolPolicy::Permissive => true,
        RpcProtocolPolicy::FailClosedExternalObserve => false,
        RpcProtocolPolicy::FailClosedExternalResume => resume_notification(method),
        RpcProtocolPolicy::FailClosedExternalMutate => mutate_notification(method),
        RpcProtocolPolicy::FailClosedExternalQueue => mutate_notification(method) || method
            == "thread/queue/changed"@,
    }
}

/// Whether a policy admits a request of the server.
pub open spec fn admits_request(policy: RpcProtocolPolicy, method: Seq<char>) -> bool {
    match policy {
        RpcProtocolPolicy::Permissive => true,
        RpcProtocolPolicy::FailClosedExternalObserve => false,
        RpcProtocolPolicy::FailClosedExternalResume => false,
        RpcProtocolPolicy::FailClosedExternalMutate => approval_request(method),
        RpcProtocolPolicy::FailClosedExternalQueue => approval_request(method),
    }
}

fn is_resume_notification(method: &str) -> (held: bool)
    ensures
        held == resume_notification(method@),
{
    same_text(method, "thread/status/changed") || same_text(method, "item/completed") || same_text(
        method,
        "turn/completed",
    )
}

fn is_mutate_notification(method: &str) -> (held: bool)
    ensures
        held == mutate_notification(method@),
{
    is_resume_notification(method) || same_text(method, "account/rateLimits/updated") || same_text(
        method,
        "remoteControl/status/changed",
    ) || same_text(method, "thread/goal/cleared") || same_text(method, "thread/settings/updated") || same_text(method, "turn/started") || same_text(method, "item/started") || same_text(
        method,
        "item/agentMessage/delta",
    ) || same_text(method, "item/commandExecution/outputDelta") || same_text(
        method,
        "thread/tokenUsage/updated",
    ) || same_text(method, "error") || same_text(method, "serverRequest/resolved")
}

impl RpcProtocolPolicy {
    pub fn is_fail_closed_external(self) -> (held: bool)
        ensures
            held == (self != RpcProtocolPolicy::Permissive),
    {
        !matches!(self, RpcProtocolPolicy::Permissive)
    }

    pub fn allows_notification(self, method: &str) -> (allowed: bool)
        ensures
            allowed == admits_notification(self, method@),
    {
        match self {
            RpcProtocolPolicy::Permissive => true,
            RpcProtocolPolicy::FailClosedExternalObserve => false,
            RpcProtocolPolicy::FailClosedExternalResume => is_resume_notification(method),
            RpcProtocolPolicy::FailClosedExternalMutate => is_mutate_notification(method),
            RpcProtocolPolicy::FailClosedExternalQueue => is_mutate_notification(method)
                || same_text(method, "thread/queue/changed"),
        }
    }

    pub fn allows_server_request(self, method: &str) -> (allowed: bool)
        ensures
            allowed == admits_request(self, method@),
    {
        match self {
            RpcProtocolPolicy::Permissive => true,
            RpcProtocolPolicy::FailClosedExternalObserve => false,
            RpcProtocolPolicy::FailClosedExternalResume => false,
            _ => same_text(method, "item/commandExecution/requestApproval") || same_text(
                method,
                "item/fileChange/requestApproval",
            ) || same_text(method, "item/permissions/requestApproval"),
        }
    }
}

/// Each external policy admits whatever the one before it admits.
pub proof fn external_policies_grow(method: Seq<char>)
    ensures
        admits_notification(RpcProtocolPolicy::FailClosedExternalObserve, method)
            ==> admits_notification(RpcProtocolPolicy::FailClosedExternalResume, method),
        admits_notification(RpcProtocolPolicy::FailClosedExternalResume, method)
            ==> admits_notification(RpcProtocolPolicy::FailClosedExternalMutate, method),
        admits_notification(RpcProtocolPolicy::FailClosedExternalMutate, method)
            ==> admits_notification(RpcProtocolPolicy::FailClosedExternalQueue, method),
        admits_request(RpcProtocolPolicy::FailClosedExternalResume, method) ==> admits_request(
            RpcProtocolPolicy::FailClosedExternalMutate,
            method,
        ),
        admits_request(RpcProtocolPolicy::FailClosedExternalMutate, method) == admits_request(
            RpcProtocolPolicy::FailClosedExternalQueue,
            method,
        ),
{
}

/// Notifications that may never be dropped.
pub open spec fn authoritative_method(method: Seq<char>) -> bool {
    ||| method == "thread/status/changed"@
    ||| method == "thread/settings/updated"@
    ||| method == "thread/queue/changed"@
    ||| method == "serverRequest/resolved"@
    ||| method == "item/completed"@
    ||| method == "turn/completed"@
    ||| method == "error"@
}

/// Whether a notification may never be dropped.
pub fn is_authoritative_notification(method: &str) -> (held: bool)
    ensures
        held == authoritative_method(method@),
{
    same_text(method, "thread/status/changed") || same_text(method, "thread/settings/updated")
        || same_text(method, "thread/queue/changed") || same_text(method, "serverRequest/resolved")
        || same_text(method, "item/completed") || same_text(method, "turn/completed") || same_text(
        method,
        "error",
    )
}

/// The kind of an identifier, for diagnostics.
pub open spec fn id_kind(id: RequestIdView) -> Seq<char> {
    match id {
        RequestIdView::Text(_) => "string"@,
        RequestIdView::Integer(_) => "integer"@,
    }
}

/// The kind of an identifier, for diagnostics.
pub fn request_id_kind(id: &RequestId) -> (kind: &'static str)
    ensures
        kind@ == id_kind(id@),
{
    match id {
        RequestId::String(_) => "string",
        RequestId::Integer(_) => "integer",
    }
}

/// A number within bounds.
pub open spec fn clamped(value: int, low: int, high: int) -> int {
    if value < low {
        low
    } else if value > high {
        high
    } else {
        value
    }
}

/// Permits for a number of bytes out of the common budget.
pub fn bounded_permits(bytes: usize) -> (permits: u32)
    ensures
        permits == clamped(bytes as int, 1, RPC_BYTE_BUDGET as int),
{
    if bytes < 1 {
        1
    } else if bytes > RPC_BYTE_BUDGET {
        RPC_BYTE_BUDGET as u32
    } else {
        bytes as u32
    }
}

/// Permits for a number of bytes out of the budget of reliable events.
pub fn bounded_reliable_permits(bytes: usize) -> (permits: u32)
    ensures
        permits == clamped(bytes as int, 1, RPC_RELIABLE_EVENT_BYTE_BUDGET as int),
{
    if bytes < 1 {
        1
    } else if bytes > RPC_RELIABLE_EVENT_BYTE_BUDGET {
        RPC_RELIABLE_EVENT_BYTE_BUDGET as u32
    } else {
        bytes as u32
    }
}

/// Counts written bytes up to a maximum.
#[derive(Clone, Copy, Debug, PartialEq, Eq, Structural)]
pub struct LimitedCounter {
    pub written: usize,
    pub maximum: usize,
    pub exceeded: bool,
}

impl LimitedCounter {
    pub fn new(maximum: usize) -> (counter: LimitedCounter)
        ensures
            counter == (LimitedCounter { written: 0, maximum, exceeded: false }),
    {
        LimitedCounter { written: 0, maximum, exceeded: false }
    }

    /// Counts one write; a write that would pass the maximum is refused.
    pub fn write(&mut self, length: usize) -> (accepted: bool)
        ensures
            accepted == (old(self).written + length <= old(self).maximum && old(self).written
                + length <= usize::MAX),
            *final(self) == if accepted {
                LimitedCounter { written: (old(self).written + length) as usize, ..*old(self) }
            } else {
                LimitedCounter { exceeded: true, ..*old(self) }
            },
    {
        match self.written.checked_add(length) {
            Some(total) => {
                if total > self.maximum {
                    self.exceeded = true;
                    false
                } else {
                    self.written = total;
                    true
                }
            },
            None => {
                self.exceeded = true;
                false
            },
        }
    }
}

/// The longest wire form of a value sent with a method: what is left beside
/// the method and the envelope.
pub fn payload_limit(method: &str) -> (limit: usize)
    ensures
        limit == clamped(
            MAX_OUTBOUND_VALUE_WIRE_BYTES - byte_len(method@) - 256,
            0,
            MAX_OUTBOUND_VALUE_WIRE_BYTES as int,
        ),
{
    MAX_OUTBOUND_VALUE_WIRE_BYTES.saturating_sub(text_bytes(method).saturating_add(256))
}

/// What became of counting a serialized value.
#[derive(Clone, Copy, Debug, PartialEq, Eq, Structural)]
pub enum Counted {
    Complete,
    Failed,
}

/// The wire length of a value that was written to the counter, or why it may
/// not be sent.
pub fn count_serialized(method: &'static str, counter: LimitedCounter, counted: Counted) -> (size:
    Result<usize, RpcError>)
    ensures
        size == (match counted {
            Counted::Complete => Ok::<usize, RpcError>(counter.written),
            Counted::Failed => if counter.exceeded {
                Err(RpcError::PayloadTooLarge { method })
            } else {
                Err(RpcError::Serialize { method })
            },
        }),
{
    match counted {
        Counted::Complete => Ok(counter.written),
        Counted::Failed => if counter.exceeded {
            Err(RpcError::PayloadTooLarge { method })
        } else {
            Err(RpcError::Serialize { method })
        },
    }
}

/// Bytes that a command is taken to retain: the larger of its size in memory
/// and on the wire, with the method and the envelope.
pub open spec fn retained_weight(method: Seq<char>, memory: int, wire: int) -> int {
    saturated(
        (if memory >= wire {
            memory
        } else {
            wire
        }) + byte_len(method) + 128,
    )
}

/// Bytes that a command retains, or the error where they are too many.
///
/// # Errors
///
/// `PayloadTooLarge` where the command is over the record bound.
pub fn retained_bytes(method: &'static str, memory: usize, wire: usize) -> (retained: Result<
    usize,
    RpcError,
>)
    ensures
        ({
            let weight = retained_weight(method@, memory as int, wire as int);
            retained == if weight > MAX_JSONL_LINE_BYTES {
                Err::<usize, RpcError>(RpcError::PayloadTooLarge { method })
            } else {
                Ok::<usize, RpcError>(weight as usize)
            }
        }),
{
    let by_memory: usize = memory.saturating_add(text_bytes(method)).saturating_add(128);
    let by_wire: usize = wire.saturating_add(text_bytes(method)).saturating_add(128);
    let retained: usize = if by_memory >= by_wire {
        by_memory
    } else {
        by_wire
    };
    if retained > MAX_JSONL_LINE_BYTES {
        return Err(RpcError::PayloadTooLarge { method });
    }
    Ok(retained)
}

/// The identifier of a request: the epoch and its number within the epoch.
pub open spec fn request_name(epoch: u64, sequence: u64) -> Seq<char> {
    "c:"@ + decimal(epoch as nat) + ":"@ + decimal(sequence as nat)
}

/// Issues request identifiers of one connection.
pub struct RequestIds {
    pub epoch: ConnectionEpoch,
    pub next: u64,
}

impl RequestIds {
    /// The next identifier. The last number of an epoch is never issued.
    pub fn next_request_id(&mut self) -> (id: Result<RequestId, RpcError>)
        ensures
            final(self).epoch == old(self).epoch,
            match id {
                Ok(id) => old(self).next < u64::MAX && id@ == RequestIdView::Text(
                    request_name(old(self).epoch@, old(self).next),
                ) && final(self).next == old(self).next + 1,
                Err(error) => old(self).next == u64::MAX && error == RpcError::RequestIdExhausted
                    && final(self).next == old(self).next,
            },
    {
        let sequence: u64 = self.next;
        match sequence.checked_add(1) {
            Some(next) => {
                self.next = next;
                let mut text = "c:".to_owned();
                append_decimal(&mut text, self.epoch.get());
                text.append(":");
                append_decimal(&mut text, sequence);
                Ok(RequestId::String(text))
            },
            None => Err(RpcError::RequestIdExhausted),
        }
    }
}

/// Identifiers never correlate across epochs or within one: two requests with
/// the same identifier are the same request of the same connection.
pub proof fn request_names_are_unique(epoch: u64, sequence: u64, other_epoch: u64, other: u64)
    requires
        request_name(epoch, sequence) == request_name(other_epoch, other),
    ensures
        epoch == other_epoch,
        sequence == other,
{
    reveal_strlit("c:");
    reveal_strlit(":");
    let head = decimal(epoch as nat);
    let tail = decimal(sequence as nat);
    let other_head = decimal(other_epoch as nat);
    let other_tail = decimal(other as nat);
    let name = request_name(epoch, sequence);
    let other_name = request_name(other_epoch, other);
    lemma_decimal_digits(epoch as nat);
    lemma_decimal_digits(other_epoch as nat);
    assert(":"@ =~= seq![':']);
    assert(name.subrange(2, name.len() as int) =~= head + seq![':'] + tail);
    assert(other_name.subrange(2, name.len() as int) =~= other_head + seq![':'] + other_tail);
    lemma_split_at_mark(head, tail, other_head, other_tail, ':');
    lemma_decimal_injective(epoch as nat, other_epoch as nat);
    lemma_decimal_injective(sequence as nat, other as nat);
}

/// Takes the next number of a sequence; nothing once the numbers are used up.
pub fn take_event_sequence(next: &mut u64) -> (sequence: Option<u64>)
    ensures
        match sequence {
            Some(sequence) => sequence == *old(next) && *final(next) == *old(next) + 1,
            None => *old(next) == u64::MAX && *final(next) == *old(next),
        },
{
    let sequence: u64 = *next;
    match sequence.checked_add(1) {
        Some(following) => {
            *next = following;
            Some(sequence)
        },
        None => None,
    }
}

/// One more, up to the largest number.
pub fn increment_saturating(counter: &mut u64)
    ensures
        *final(counter) == if *old(counter) == u64::MAX {
            u64::MAX
        } else {
            (*old(counter) + 1) as u64
        },
{
    *counter = counter.saturating_add(1);
}

/// Something that happens to a lease.
pub enum LeaseStep {
    Handoff,
    Resolve,
    Fail,
    Abandon,
}

/// The state after a step, and whether the step ends the connection.
pub open spec fn lease_after(state: LeaseState, step: LeaseStep) -> (LeaseState, bool) {
    match (state, step) {
        (LeaseState::Armed, LeaseStep::Handoff) => (LeaseState::ActorOwned, false),
        (LeaseState::ActorOwned, LeaseStep::Resolve) => (LeaseState::Resolved, false),
        (LeaseState::ActorOwned, LeaseStep::Fail) => (LeaseState::Resolved, true),
        (LeaseState::Armed, LeaseStep::Abandon) => (LeaseState::Resolved, true),
        _ => (state, false),
    }
}

/// How many of some steps end the connection.
pub open spec fn lease_cancels(state: LeaseState, steps: Seq<LeaseStep>) -> nat
    decreases steps.len(),
{
    if steps.len() == 0 {
        0
    } else {
        let (next, cancel) = lease_after(state, steps.first());
        lease_cancels(next, steps.drop_first()) + if cancel {
            1nat
        } else {
            0nat
        }
    }
}

/// Whatever happens to a lease ends the connection at most once, and never
/// after the request was resolved.
pub proof fn lease_ends_the_connection_at_most_once(state: LeaseState, steps: Seq<LeaseStep>)
    ensures
        lease_cancels(state, steps) <= 1,
        state == LeaseState::Resolved ==> lease_cancels(state, steps) == 0,
    decreases steps.len(),
{
    if steps.len() > 0 {
        let (next, cancel) = lease_after(state, steps.first());
        lease_ends_the_connection_at_most_once(next, steps.drop_first());
    }
}

/// A request initiated by app-server and requiring a high-priority response.
pub struct ServerRequest {
    id: RequestId,
    pub method: String,
    pub params: Option<serde_json::Value>,
    epoch: ConnectionEpoch,
}

/// Content of a request of the server.
pub struct ServerRequestView {
    pub id: RequestIdView,
    pub method: Seq<char>,
    pub params: Option<Json>,
    pub epoch: u64,
}

impl View for ServerRequest {
    type V = ServerRequestView;

    closed spec fn view(&self) -> ServerRequestView {
        ServerRequestView {
            id: self.id@,
            method: self.method@,
            params: json_option(self.params),
            epoch: self.epoch@,
        }
    }
}

impl ServerRequest {
    pub fn new(
        id: RequestId,
        method: String,
        params: Option<serde_json::Value>,
        epoch: ConnectionEpoch,
    ) -> (request: ServerRequest)
        ensures
            request@ == (ServerRequestView {
                id: id@,
                method: method@,
                params: json_option(params),
                epoch: epoch@,
            }),
    {
        ServerRequest { id, method, params, epoch }
    }

    pub fn method(&self) -> (method: &str)
        ensures
            method@ == self@.method,
    {
        self.method.as_str()
    }

    pub fn has_params(&self) -> (held: bool)
        ensures
            held == (self@.params is Some),
    {
        self.params.is_some()
    }

    /// The opaque request token. It is read-only: answers go through the
    /// connection that issued it.
    pub fn id(&self) -> (id: &RequestId)
        ensures
            id@ == self@.id,
    {
        &self.id
    }

    pub fn epoch(&self) -> (epoch: ConnectionEpoch)
        ensures
            epoch@ == self@.epoch,
    {
        self.epoch
    }
}

/// Non-response traffic emitted by the RPC owner.
pub enum RpcEvent {
    Notification { method: String, params: Option<serde_json::Value> },
    ServerRequest(ServerRequest),
    TransportClosed(TransportExit),
    ProtocolDrift,
}

/// Content of non-response traffic.
pub enum RpcEventView {
    Notification { method: Seq<char>, params: Option<Json> },
    ServerRequest(ServerRequestView),
    TransportClosed(TransportExit),
    ProtocolDrift,
}

impl View for RpcEvent {
    type V = RpcEventView;

    open spec fn view(&self) -> RpcEventView {
        match self {
            RpcEvent::Notification { method, params } => RpcEventView::Notification {
                method: method@,
                params: json_option(*params),
            },
            RpcEvent::ServerRequest(request) => RpcEventView::ServerRequest(request@),
            RpcEvent::TransportClosed(exit) => RpcEventView::TransportClosed(*exit),
            RpcEvent::ProtocolDrift => RpcEventView::ProtocolDrift,
        }
    }
}

/// Restores the order of events that travelled on two lanes.
pub struct RpcEventReceiver {
    next_sequence: u64,
    buffered: std::collections::BTreeMap<u64, RpcEvent>,
}

/// Content of the reordering buffer: the number that is due, and what waits.
pub struct ReceiverView {
    pub next: u64,
    pub waiting: Map<u64, RpcEvent>,
}

impl View for RpcEventReceiver {
    type V = ReceiverView;

    closed spec fn view(&self) -> ReceiverView {
        ReceiverView { next: self.next_sequence, waiting: self.buffered@ }
    }
}

impl RpcEventReceiver {
    pub fn new() -> (receiver: RpcEventReceiver)
        ensures
            receiver@ == (ReceiverView { next: 0, waiting: Map::empty() }),
    {
        RpcEventReceiver { next_sequence: 0, buffered: std::collections::BTreeMap::new() }
    }

    /// Takes an event in under its number.
    pub fn buffer(&mut self, sequence: u64, event: RpcEvent)
        ensures
            final(self)@ == (ReceiverView {
                waiting: old(self)@.waiting.insert(sequence, event),
                ..old(self)@
            }),
    {
        broadcast use vstd::std_specs::btree::group_btree_axioms;

        let _ = self.buffered.insert(sequence, event);
    }

    /// Hands out the event whose number is due; nothing while it has not
    /// arrived.
    pub fn next_in_order(&mut self) -> (event: Option<RpcEvent>)
        ensures
            handed_out(old(self)@) == (final(self)@, event),
            match event {
                Some(event) => old(self)@.waiting.dom().contains(old(self)@.next) && event
                    == old(self)@.waiting[old(self)@.next] && final(self)@ == (ReceiverView {
                    next: clamped(old(self)@.next + 1, 0, u64::MAX as int) as u64,
                    waiting: old(self)@.waiting.remove(old(self)@.next),
                }),
                None => !old(self)@.waiting.dom().contains(old(self)@.next) && final(self)@
                    == old(self)@,
            },
    {
        broadcast use vstd::std_specs::btree::group_btree_axioms;

        let due: u64 = self.next_sequence;
        match self.buffered.remove(&due) {
            Some(event) => {
                self.next_sequence = self.next_sequence.saturating_add(1);
                Some(event)
            },
            None => {
                proof {
                    assert(self.buffered@ =~= old(self).buffered@);
                }
                None
            },
        }
    }
}

/// Under every external policy exactly the traffic that it is made for is
/// admitted: none for an observer, ends and the status for a reader, a running
/// turn and its approvals for a writer, and the queue besides for a queueing
/// one.
pub proof fn policies_admit_what_they_are_for(method: Seq<char>)
    ensures
        !admits_notification(RpcProtocolPolicy::FailClosedExternalObserve, method),
        !admits_request(RpcProtocolPolicy::FailClosedExternalObserve, method),
        !admits_request(RpcProtocolPolicy::FailClosedExternalResume, method),
        admits_notification(RpcProtocolPolicy::Permissive, method),
        admits_request(RpcProtocolPolicy::Permissive, method),
        admits_notification(RpcProtocolPolicy::FailClosedExternalResume, method) <==> method
            == "thread/status/changed"@ || method == "item/completed"@ || method
            == "turn/completed"@,
        method == "turn/started"@ || method == "item/started"@ || method
            == "item/agentMessage/delta"@ || method == "item/commandExecution/outputDelta"@ || method
            == "thread/tokenUsage/updated"@ || method == "error"@ || method
            == "serverRequest/resolved"@ || method == "thread/settings/updated"@ || method
            == "thread/goal/cleared"@ || method == "remoteControl/status/changed"@ || method
            == "account/rateLimits/updated"@ ==> admits_notification(
            RpcProtocolPolicy::FailClosedExternalMutate,
            method,
        ),
        admits_notification(RpcProtocolPolicy::FailClosedExternalQueue, method) <==> method
            == "thread/queue/changed"@ || admits_notification(
            RpcProtocolPolicy::FailClosedExternalMutate,
            method,
        ),
        admits_request(RpcProtocolPolicy::FailClosedExternalMutate, method) <==> method
            == "item/commandExecution/requestApproval"@ || method
            == "item/fileChange/requestApproval"@ || method == "item/permissions/requestApproval"@,
{
}

/// Whatever a reader is owed an end by may not be lost: every method that a
/// reader admits, and the other ends and changes, is sent so that it cannot be.
pub proof fn ends_may_not_be_lost(method: Seq<char>)
    ensures
        admits_notification(RpcProtocolPolicy::FailClosedExternalResume, method)
            ==> authoritative_method(method),
        method == "error"@ || method == "serverRequest/resolved"@ || method
            == "thread/queue/changed"@ || method == "thread/settings/updated"@
            ==> authoritative_method(method),
{
}

/// A lease is handed over once, resolved once, and ends the connection exactly
/// where an answer failed or nobody took the request over.
pub proof fn leases_go_one_way(state: LeaseState, step: LeaseStep)
    ensures
        lease_after(LeaseState::Armed, LeaseStep::Handoff) == (LeaseState::ActorOwned, false),
        lease_after(LeaseState::ActorOwned, LeaseStep::Resolve) == (LeaseState::Resolved, false),
        lease_after(LeaseState::ActorOwned, LeaseStep::Fail) == (LeaseState::Resolved, true),
        lease_after(LeaseState::Armed, LeaseStep::Abandon) == (LeaseState::Resolved, true),
        lease_after(state, step).1 <==> (state == LeaseState::ActorOwned && step == LeaseStep::Fail)
            || (state == LeaseState::Armed && step == LeaseStep::Abandon),
        state == LeaseState::Resolved ==> lease_after(state, step) == (state, false),
        state == LeaseState::ActorOwned && step == LeaseStep::Abandon ==> lease_after(state, step)
            == (state, false),
{
}

/// A payload weighs at least what it takes in memory and on the wire, with its
/// method, and a clamped number lies between its bounds.
pub proof fn payloads_weigh_what_they_take(
    method: Seq<char>,
    memory: int,
    wire: int,
    value: int,
    low: int,
    high: int,
)
    requires
        0 <= memory,
        0 <= wire,
        memory + byte_len(method) + 128 <= usize::MAX,
        wire + byte_len(method) + 128 <= usize::MAX,
        low <= high,
    ensures
        retained_weight(method, memory, wire) >= memory + byte_len(method) + 128,
        retained_weight(method, memory, wire) >= wire + byte_len(method) + 128,
        retained_weight(method, memory, wire) == memory + byte_len(method) + 128 || retained_weight(
            method,
            memory,
            wire,
        ) == wire + byte_len(method) + 128,
        low <= clamped(value, low, high) <= high,
        low <= value <= high ==> clamped(value, low, high) == value,
        value < low ==> clamped(value, low, high) == low,
        value > high ==> clamped(value, low, high) == high,
{
}

/// What a receiver hands out: the event whose number has come.
pub open spec fn handed_out(receiver: ReceiverView) -> (ReceiverView, Option<RpcEvent>) {
    if receiver.waiting.dom().contains(receiver.next) {
        (
            ReceiverView {
                next: if receiver.next < u64::MAX {
                    (receiver.next + 1) as u64
                } else {
                    u64::MAX
                },
                waiting: receiver.waiting.remove(receiver.next),
            },
            Some(receiver.waiting[receiver.next]),
        )
    } else {
        (receiver, None)
    }
}

/// Events come out in the order of their numbers, in whichever order they went
/// in: of two neighbours the later one waits for the earlier one.
pub proof fn events_come_out_in_order(
    receiver: ReceiverView,
    earlier: RpcEvent,
    later: RpcEvent,
)
    requires
        receiver.next + 1 < u64::MAX,
        !receiver.waiting.dom().contains(receiver.next),
    ensures
        ({
            let number = receiver.next;
            let early = ReceiverView {
                waiting: receiver.waiting.insert((number + 1) as u64, later),
                ..receiver
            };
            let both = ReceiverView { waiting: early.waiting.insert(number, earlier), ..early };
            let (rest, first) = handed_out(both);
            let (_, second) = handed_out(rest);
            &&& handed_out(early) == (early, None::<RpcEvent>)
            &&& first == Some(earlier)
            &&& second == Some(later)
        }),
{
}

} // verus!
