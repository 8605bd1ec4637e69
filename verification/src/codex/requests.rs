//! The way of a request, a notification and an answer to the owner of the
//! connection. Each step is only to be had from the one before it.
use vstd::prelude::*;

use crate::codex::owner::dispatched;
use crate::codex::owner::map_send_error;
use crate::codex::owner::DispatchView;
use crate::codex::owner::OwnerView;
use crate::codex::owner::PendingView;
use crate::codex::owner::Pump;
use crate::codex::owner::RpcCommand;
use crate::codex::owner::TransportSendError;
use crate::codex::protocol::MessageView;
use crate::codex::protocol::OutboundMessage;
use crate::codex::protocol::RequestId;
use crate::codex::protocol::RequestIdView;
use crate::codex::protocol::RpcErrorObject;
use crate::codex::protocol::RpcErrorView;
use crate::codex::rpc::bounded_permits;
use crate::codex::rpc::clamped;
use crate::codex::rpc::lease_after;
use crate::codex::rpc::request_name;
use crate::codex::rpc::retained_bytes;
use crate::codex::rpc::retained_weight;
use crate::codex::rpc::ConnectionEpoch;
use crate::codex::rpc::LeaseState;
use crate::codex::rpc::LeaseStep;
use crate::codex::rpc::RequestIds;
use crate::codex::rpc::RpcError;
use crate::codex::rpc::ServerRequestLease;
use crate::codex::types::saturated;
use crate::codex::types::text_bytes;
use crate::codex::types::TransportExit;
use crate::json::empty_object;
use crate::json::json;
use crate::json::Json;
use crate::limits::MAX_JSONL_LINE_BYTES;
use crate::limits::RPC_BYTE_BUDGET;
use crate::text::byte_len;

verus! {

/// What is sent, how urgently, until when and over which connection. Times are
/// in milliseconds of one steady clock.
#[derive(Clone, Copy, Debug, PartialEq, Eq)]
pub struct Call {
    pub method: &'static str,
    pub high: bool,
    pub deadline: u64,
    pub epoch: ConnectionEpoch,
}

/// The end of a time that starts now; now itself where it cannot be told.
pub fn deadline_after(now: u64, timeout: u64) -> (deadline: u64)
    ensures
        deadline == if now + timeout <= u64::MAX {
            (now + timeout) as u64
        } else {
            now
        },
{
    match now.checked_add(timeout) {
        Some(deadline) => deadline,
        None => now,
    }
}

/// Checks that a connection is open.
///
/// # Errors
///
/// `ConnectionLost` for one that is not.
pub fn ensure_open(open: bool, epoch: ConnectionEpoch) -> (checked: Result<(), RpcError>)
    ensures
        checked == if open {
            Ok::<(), RpcError>(())
        } else {
            Err::<(), RpcError>(RpcError::ConnectionLost(epoch))
        },
{
    if open {
        Ok(())
    } else {
        Err(RpcError::ConnectionLost(epoch))
    }
}

/// How waiting for room ended.
#[derive(Clone, Copy, Debug, PartialEq, Eq, Structural)]
pub enum Room {
    /// The connection ended first.
    Lost,
    /// The deadline passed first.
    Late,
    /// There will be no room any more.
    Closed,
    Granted,
}

/// What waiting for room that was not granted means.
pub open spec fn room_error(room: Room, call: Call) -> Option<RpcError> {
    match room {
        Room::Granted => None,
        Room::Late => Some(RpcError::Timeout { method: call.method }),
        _ => Some(RpcError::ConnectionLost(call.epoch)),
    }
}

fn check_room(room: Room, call: Call) -> (error: Option<RpcError>)
    ensures
        error == room_error(room, call),
{
    match room {
        Room::Granted => None,
        Room::Late => Some(RpcError::Timeout { method: call.method }),
        _ => Some(RpcError::ConnectionLost(call.epoch)),
    }
}

/// A request that waits for one of the places for requests in flight.
pub struct TakingSlot {
    call: Call,
}

/// Something to send whose size on the wire is to be counted.
pub struct Measuring {
    call: Call,
}

/// Something to send that waits for its share of the byte budget.
pub struct TakingBudget {
    call: Call,
    wire: usize,
}

/// Something to send, with the bytes that it holds of the budget.
pub struct Payload {
    call: Call,
    value: serde_json::Value,
    held: usize,
}

/// A request under its identifier.
pub struct NamedRequest {
    call: Call,
    id: RequestId,
    value: serde_json::Value,
}

/// A request whose answer is waited for once it is queued.
pub struct AwaitingAnswer {
    call: Call,
    id: RequestId,
}

/// A message that nobody answers.
pub struct OneWay {
    call: Call,
    message: OutboundMessage,
    answers: Option<RequestId>,
}

impl TakingSlot {
    pub closed spec fn call(&self) -> Call {
        self.call
    }

    /// Starts a request.
    ///
    /// # Errors
    ///
    /// `ConnectionLost` where the connection is not open.
    pub fn request(call: Call, open: bool) -> (begun: Result<TakingSlot, RpcError>)
        ensures
            match begun {
                Ok(request) => open && request.call() == call,
                Err(error) => !open && error == RpcError::ConnectionLost(call.epoch),
            },
    {
        match ensure_open(open, call.epoch) {
            Ok(()) => Ok(TakingSlot { call }),
            Err(error) => Err(error),
        }
    }

    /// Goes on once there is a place.
    ///
    /// # Errors
    ///
    /// Why there was none. Nothing was sent.
    pub fn taken(self, room: Room) -> (next: Result<Measuring, RpcError>)
        ensures
            match next {
                Ok(next) => room == Room::Granted && next.call() == self.call(),
                Err(error) => room_error(room, self.call()) == Some(error),
            },
    {
        match check_room(room, self.call) {
            None => Ok(Measuring { call: self.call }),
            Some(error) => Err(error),
        }
    }
}

impl Measuring {
    pub closed spec fn call(&self) -> Call {
        self.call
    }

    /// Starts a notification or an answer, which take no place.
    pub fn one_way(call: Call) -> (begun: Measuring)
        ensures
            begun.call() == call,
    {
        Measuring { call }
    }

    /// Goes on once the size on the wire is known.
    ///
    /// # Errors
    ///
    /// `ConnectionLost` where the connection is not open any more, else why the
    /// value may not be sent. Nothing was sent.
    pub fn measured(self, open: bool, counted: Result<usize, RpcError>) -> (next: Result<
        TakingBudget,
        RpcError,
    >)
        ensures
            match next {
                Ok(next) => open && counted == Ok::<usize, RpcError>(next.wire()) && next.call()
                    == self.call(),
                Err(error) => if open {
                    counted == Err::<usize, RpcError>(error)
                } else {
                    error == RpcError::ConnectionLost(self.call().epoch)
                },
            },
    {
        match ensure_open(open, self.call.epoch) {
            Ok(()) => match counted {
                Ok(wire) => Ok(TakingBudget { call: self.call, wire }),
                Err(error) => Err(error),
            },
            Err(error) => Err(error),
        }
    }
}

impl TakingBudget {
    pub closed spec fn call(&self) -> Call {
        self.call
    }

    pub closed spec fn wire(&self) -> usize {
        self.wire
    }

    /// The permits that are asked for before the value is built: those of the
    /// longest record.
    pub fn permits(&self) -> (permits: u32)
        ensures
            permits == clamped(MAX_JSONL_LINE_BYTES as int, 1, RPC_BYTE_BUDGET as int),
    {
        bounded_permits(MAX_JSONL_LINE_BYTES)
    }

    /// Goes on once the permits are held and the value is built; `built` is
    /// the value with its size in memory, nothing where it could not be built.
    ///
    /// # Errors
    ///
    /// In this order: why there were no permits, `Serialize` for a value that
    /// could not be built, `Timeout` past the deadline, `PayloadTooLarge` for
    /// more bytes than a record may have. Nothing was sent.
    pub fn taken(self, room: Room, built: Option<(serde_json::Value, usize)>, now: u64) -> (next:
        Result<Payload, RpcError>)
        ensures
            ({
                let call = self.call();
                match next {
                    Ok(payload) => {
                        &&& room == Room::Granted
                        &&& now < call.deadline
                        &&& built matches Some((value, memory)) && payload.value() == json(value)
                            && payload.held() == retained_weight(
                            call.method@,
                            memory as int,
                            self.wire() as int,
                        )
                        &&& payload.held() <= MAX_JSONL_LINE_BYTES
                        &&& payload.call() == call
                    },
                    Err(error) => if room != Room::Granted {
                        room_error(room, call) == Some(error)
                    } else {
                        match built {
                            None => error == RpcError::Serialize { method: call.method },
                            Some((_, memory)) => if now >= call.deadline {
                                error == RpcError::Timeout { method: call.method }
                            } else {
                                error == RpcError::PayloadTooLarge { method: call.method }
                                    && retained_weight(
                                    call.method@,
                                    memory as int,
                                    self.wire() as int,
                                ) > MAX_JSONL_LINE_BYTES
                            },
                        }
                    },
                }
            }),
    {
        if let Some(error) = check_room(room, self.call) {
            return Err(error);
        }
        let method = self.call.method;
        let (value, memory): (serde_json::Value, usize) = match built {
            Some((value, memory)) => (value, memory),
            None => {
                return Err(RpcError::Serialize { method });
            },
        };
        if now >= self.call.deadline {
            return Err(RpcError::Timeout { method });
        }
        match retained_bytes(method, memory, self.wire) {
            Ok(held) => Ok(Payload { call: self.call, value, held }),
            Err(error) => Err(error),
        }
    }
}

impl Payload {
    pub closed spec fn call(&self) -> Call {
        self.call
    }

    pub closed spec fn value(&self) -> Json {
        json(self.value)
    }

    pub closed spec fn held(&self) -> usize {
        self.held
    }

    /// The permits that stay with the command; the others are given back.
    pub fn kept_permits(&self) -> (kept: usize)
        ensures
            kept == self.held(),
    {
        self.held
    }

    /// Names a request.
    ///
    /// # Errors
    ///
    /// `RequestIdExhausted` where the connection has no identifier left.
    pub fn into_request(self, ids: &mut RequestIds) -> (named: Result<NamedRequest, RpcError>)
        ensures
            final(ids).epoch == old(ids).epoch,
            match named {
                Ok(named) => {
                    &&& old(ids).next < u64::MAX
                    &&& final(ids).next == old(ids).next + 1
                    &&& named.call() == self.call()
                    &&& named.value() == self.value()
                    &&& named.id() == RequestIdView::Text(
                        request_name(old(ids).epoch@, old(ids).next),
                    )
                },
                Err(error) => old(ids).next == u64::MAX && final(ids).next == old(ids).next
                    && error == RpcError::RequestIdExhausted,
            },
    {
        match ids.next_request_id() {
            Ok(id) => Ok(NamedRequest { call: self.call, id, value: self.value }),
            Err(error) => Err(error),
        }
    }

    /// Makes a notification of it.
    pub fn into_notification(self) -> (message: OneWay)
        ensures
            message.call() == self.call(),
            message.answers() is None,
            message.message() == (MessageView::Notification {
                method: self.call().method@,
                params: Some(self.value()),
            }),
    {
        let message = OutboundMessage::Notification {
            method: self.call.method.to_owned(),
            params: Some(self.value),
        };
        OneWay { call: self.call, message, answers: None }
    }

    /// Makes the answer to a request of the server of it.
    pub fn into_response(self, id: &RequestId) -> (message: OneWay)
        ensures
            message.call() == self.call(),
            message.answers() == Some(id@),
            message.message() == (MessageView::Response { id: id@, result: self.value() }),
    {
        let message = OutboundMessage::Response { id: id.duplicate(), result: self.value };
        OneWay { call: self.call, message, answers: Some(id.duplicate()) }
    }
}

/// How waiting for a reply ended.
pub enum Reply<T> {
    /// The connection ended first.
    Lost,
    /// The deadline passed first.
    Late,
    /// Whoever was to reply is gone.
    Dropped,
    Said(Result<T, RpcError>),
}

/// What the requester is told.
pub open spec fn told<T>(reply: Reply<T>, call: Call) -> Result<T, RpcError> {
    match reply {
        Reply::Lost => Err(RpcError::ConnectionLost(call.epoch)),
        Reply::Late => Err(RpcError::Timeout { method: call.method }),
        Reply::Dropped => Err(RpcError::ConnectionLost(call.epoch)),
        Reply::Said(said) => said,
    }
}

/// Whether a request that is not waited for any more is to be withdrawn: the
/// owner of the connection may still hold it.
pub open spec fn left_behind<T>(reply: Reply<T>) -> bool {
    reply is Lost || reply is Late
}

/// What the requester is told.
pub fn settle_reply<T>(reply: Reply<T>, call: Call) -> (result: Result<T, RpcError>)
    ensures
        result == told(reply, call),
{
    match reply {
        Reply::Lost => Err(RpcError::ConnectionLost(call.epoch)),
        Reply::Late => Err(RpcError::Timeout { method: call.method }),
        Reply::Dropped => Err(RpcError::ConnectionLost(call.epoch)),
        Reply::Said(said) => said,
    }
}

impl NamedRequest {
    pub closed spec fn call(&self) -> Call {
        self.call
    }

    pub closed spec fn id(&self) -> RequestIdView {
        self.id@
    }

    pub closed spec fn value(&self) -> Json {
        json(self.value)
    }

    /// The command to queue and the wait for its answer.
    ///
    /// # Errors
    ///
    /// `ConnectionLost` where the connection is not open any more.
    pub fn command(self, open: bool, reply: u64) -> (begun: Result<
        (RpcCommand, AwaitingAnswer),
        RpcError,
    >)
        ensures
            begun matches Ok((command, _)) ==> asks(
                command,
                self.call(),
                self.id(),
                self.value(),
                reply,
            ),
            match begun {
                Ok((command, wait)) => {
                    &&& open
                    &&& wait.call() == self.call()
                    &&& wait.id() == self.id()
                    &&& command matches RpcCommand::Request {
                        id,
                        method,
                        params,
                        deadline,
                        reply: named,
                        requester_gone,
                    } && id@ == self.id() && method == self.call().method && json(params)
                        == self.value() && deadline == self.call().deadline && named == reply
                        && !requester_gone
                },
                Err(error) => !open && error == RpcError::ConnectionLost(self.call().epoch),
            },
    {
        match ensure_open(open, self.call.epoch) {
            Ok(()) => {
                let wait = AwaitingAnswer { call: self.call, id: self.id.duplicate() };
                let command = RpcCommand::Request {
                    id: self.id,
                    method: self.call.method,
                    params: self.value,
                    deadline: self.call.deadline,
                    reply,
                    requester_gone: false,
                };
                Ok((command, wait))
            },
            Err(error) => Err(error),
        }
    }
}

impl AwaitingAnswer {
    pub closed spec fn call(&self) -> Call {
        self.call
    }

    pub closed spec fn id(&self) -> RequestIdView {
        self.id@
    }

    /// Goes on once the command is queued.
    ///
    /// # Errors
    ///
    /// Why it could not be queued.
    pub fn queued(self, room: Room) -> (next: Result<AwaitingAnswer, RpcError>)
        ensures
            match next {
                Ok(next) => room == Room::Granted && next.call() == self.call() && next.id()
                    == self.id(),
                Err(error) => room_error(room, self.call()) == Some(error),
            },
    {
        match check_room(room, self.call) {
            None => Ok(self),
            Some(error) => Err(error),
        }
    }

    /// What the requester is told, and the request to withdraw where its answer
    /// is not waited for any more.
    pub fn answered(self, reply: Reply<serde_json::Value>) -> (ended: (
        Result<serde_json::Value, RpcError>,
        Option<RequestId>,
    ))
        ensures
            ended.0 == told(reply, self.call()),
            ended.1 is Some == left_behind(reply),
            ended.1 matches Some(id) ==> id@ == self.id(),
    {
        let withdrawn = match &reply {
            Reply::Lost => true,
            Reply::Late => true,
            _ => false,
        };
        let result = settle_reply(reply, self.call);
        if withdrawn {
            (result, Some(self.id))
        } else {
            (result, None)
        }
    }
}

impl OneWay {
    pub closed spec fn call(&self) -> Call {
        self.call
    }

    pub closed spec fn message(&self) -> MessageView {
        self.message@
    }

    pub closed spec fn answers(&self) -> Option<RequestIdView> {
        match self.answers {
            Some(id) => Some(id@),
            None => None,
        }
    }

    /// A notification without parameters, and the permits that it takes.
    pub fn bare_notification(call: Call) -> (begun: (OneWay, u32))
        ensures
            begun.0.call() == call,
            begun.0.answers() is None,
            begun.0.message() == (MessageView::Notification {
                method: call.method@,
                params: Some(Json::Object(Map::empty())),
            }),
            begun.1 == clamped(
                saturated((byte_len(call.method@) + 32) as int),
                1,
                RPC_BYTE_BUDGET as int,
            ),
    {
        let message = OutboundMessage::Notification {
            method: call.method.to_owned(),
            params: Some(empty_object()),
        };
        let permits: u32 = bounded_permits(text_bytes(call.method).saturating_add(32));
        (OneWay { call, message, answers: None }, permits)
    }

    /// The refusal of a request of the server, and the permits that it takes;
    /// `counted` is the size of its text on the wire.
    ///
    /// # Errors
    ///
    /// Why the text may not be sent, `PayloadTooLarge` for more than a record
    /// holds. Nothing was sent.
    pub fn refusal(
        call: Call,
        id: &RequestId,
        code: i64,
        text: &str,
        counted: Result<usize, RpcError>,
    ) -> (begun: Result<(OneWay, u32), RpcError>)
        ensures
            match begun {
                Ok((message, permits)) => {
                    &&& counted matches Ok(wire) && wire + 128 <= MAX_JSONL_LINE_BYTES && permits
                        == clamped(
                        saturated(
                            (if byte_len(text@) >= wire {
                                byte_len(text@) as int
                            } else {
                                wire as int
                            }) + 128,
                        ),
                        1,
                        RPC_BYTE_BUDGET as int,
                    )
                    &&& message.call() == call
                    &&& message.answers() == Some(id@)
                    &&& message.message() == (MessageView::ErrorResponse {
                        id: id@,
                        error: RpcErrorView { code: code as int, message: text@, data: None },
                    })
                },
                Err(error) => match counted {
                    Ok(wire) => wire + 128 > MAX_JSONL_LINE_BYTES && error
                        == RpcError::PayloadTooLarge { method: call.method },
                    Err(failure) => error == failure,
                },
            },
    {
        let wire: usize = match counted {
            Ok(wire) => wire.saturating_add(128),
            Err(error) => {
                return Err(error);
            },
        };
        if wire > MAX_JSONL_LINE_BYTES {
            return Err(RpcError::PayloadTooLarge { method: call.method });
        }
        let memory: usize = text_bytes(text).saturating_add(128);
        let permits: u32 = bounded_permits(
            if memory >= wire {
                memory
            } else {
                wire
            },
        );
        let message = OutboundMessage::ErrorResponse {
            id: id.duplicate(),
            error: RpcErrorObject { code, message: text.to_owned(), data: None },
        };
        Ok((OneWay { call, message, answers: Some(id.duplicate()) }, permits))
    }

    /// The command to queue. The responsibility for a request of the server
    /// goes to the owner of the connection first, so that from here on an
    /// answer that is lost ends the connection.
    ///
    /// # Errors
    ///
    /// `ConnectionLost` where the connection is not open any more; the
    /// responsibility stays where it was.
    pub fn command(self, open: bool, lease: &mut ServerRequestLease, ack: u64) -> (begun: Result<
        RpcCommand,
        RpcError,
    >)
        ensures
            final(lease).state == if open && self.answers() is Some {
                lease_after(old(lease).state, LeaseStep::Handoff).0
            } else {
                old(lease).state
            },
            match begun {
                Ok(command) => {
                    &&& open
                    &&& command matches RpcCommand::Fire {
                        method,
                        message,
                        answers,
                        deadline,
                        ack: named,
                        requester_gone,
                    } && method == self.call().method && message@ == self.message() && (match answers {
                        Some(id) => self.answers() == Some(id@),
                        None => self.answers() is None,
                    }) && deadline == self.call().deadline && named == ack && !requester_gone
                },
                Err(error) => !open && error == RpcError::ConnectionLost(self.call().epoch),
            },
    {
        match ensure_open(open, self.call.epoch) {
            Ok(()) => {
                if self.answers.is_some() {
                    lease.handoff_to_actor();
                }
                Ok(
                    RpcCommand::Fire {
                        method: self.call.method,
                        message: self.message,
                        answers: self.answers,
                        deadline: self.call.deadline,
                        ack,
                        requester_gone: false,
                    },
                )
            },
            Err(error) => Err(error),
        }
    }
}

/// How handing a message to the transport ended.
#[derive(Clone, Copy, Debug, PartialEq, Eq, Structural)]
pub enum Handing {
    /// The connection ended first.
    Lost,
    /// The deadline passed first.
    Late,
    Failed(TransportSendError),
    Sent,
}

/// What handing a message to the transport means for its sender.
pub open spec fn handing_error(handing: Handing, call: Call) -> Option<RpcError> {
    match handing {
        Handing::Lost => Some(RpcError::ConnectionLost(call.epoch)),
        Handing::Late => Some(RpcError::Timeout { method: call.method }),
        Handing::Failed(TransportSendError::Protocol) => Some(
            RpcError::PayloadTooLarge { method: call.method },
        ),
        Handing::Failed(_) => Some(RpcError::ConnectionLost(call.epoch)),
        Handing::Sent => None,
    }
}

/// What the sender of a message is told after it was handed to the transport.
///
/// # Errors
///
/// Why it was not sent.
pub fn settle_handing(handing: Handing, call: Call) -> (result: Result<(), RpcError>)
    ensures
        result == match handing_error(handing, call) {
            Some(error) => Err::<(), RpcError>(error),
            None => Ok::<(), RpcError>(()),
        },
{
    match handing {
        Handing::Lost => Err(RpcError::ConnectionLost(call.epoch)),
        Handing::Late => Err(RpcError::Timeout { method: call.method }),
        Handing::Failed(error) => Err(map_send_error(error, call.method, call.epoch)),
        Handing::Sent => Ok(()),
    }
}

/// Ends the responsibility for a request of the server once its answer was
/// handed to the transport; `true` means that the connection ends.
pub fn settle_lease(lease: &mut ServerRequestLease, sent: bool) -> (cancel: bool)
    ensures
        (final(lease).state, cancel) == lease_after(
            old(lease).state,
            if sent {
                LeaseStep::Resolve
            } else {
                LeaseStep::Fail
            },
        ),
{
    if sent {
        lease.resolve_actor_owned();
        false
    } else {
        lease.fail_actor_owned()
    }
}

/// Who is told what about a command that is left when the connection ends.
pub open spec fn rejected(command: RpcCommand, epoch: ConnectionEpoch) -> (u64, RpcError) {
    match command {
        RpcCommand::Request { reply, .. } => (reply, RpcError::ConnectionLost(epoch)),
        RpcCommand::Fire { ack, .. } => (ack, RpcError::ConnectionLost(epoch)),
    }
}

/// Who is told what about the commands that are left when the connection ends,
/// in their order.
pub fn reject_queued(commands: &Vec<RpcCommand>, epoch: ConnectionEpoch) -> (notices: Vec<
    (u64, RpcError),
>)
    ensures
        notices@ == commands@.map_values(|command: RpcCommand| rejected(command, epoch)),
{
    let mut notices: Vec<(u64, RpcError)> = Vec::new();
    let mut at: usize = 0;
    while at < commands.len()
        invariant
            at <= commands@.len(),
            notices@ == commands@.take(at as int).map_values(
                |command: RpcCommand| rejected(command, epoch),
            ),
        decreases commands@.len() - at,
    {
        let requester: u64 = match &commands[at] {
            RpcCommand::Request { reply, .. } => *reply,
            RpcCommand::Fire { ack, .. } => *ack,
        };
        notices.push((requester, RpcError::ConnectionLost(epoch)));
        at += 1;
        proof {
            assert(notices@ =~= commands@.take(at as int).map_values(
                |command: RpcCommand| rejected(command, epoch),
            ));
        }
    }
    proof {
        assert(commands@.take(at as int) =~= commands@);
    }
    notices
}

/// A response that still holds its share of the inbound byte budget.
pub struct BudgetedResponse<T> {
    pub value: T,
    pub transport_budget: usize,
}

impl<T> BudgetedResponse<T> {
    pub fn into_inner(self) -> (value: T)
        ensures
            value == self.value,
    {
        self.value
    }

    pub fn into_parts(self) -> (parts: (T, usize))
        ensures
            parts == (self.value, self.transport_budget),
    {
        (self.value, self.transport_budget)
    }

    /// Maps the value while its share of the budget is kept.
    ///
    /// # Errors
    ///
    /// The error of the mapping.
    pub fn try_map<U, E, F: FnOnce(T) -> Result<U, E>>(self, map: F) -> (mapped: Result<
        BudgetedResponse<U>,
        E,
    >)
        requires
            map.requires((self.value,)),
        ensures
            match mapped {
                Ok(response) => map.ensures((self.value,), Ok::<U, E>(response.value))
                    && response.transport_budget == self.transport_budget,
                Err(error) => map.ensures((self.value,), Err::<U, E>(error)),
            },
    {
        let transport_budget: usize = self.transport_budget;
        match map(self.value) {
            Ok(value) => Ok(BudgetedResponse { value, transport_budget }),
            Err(error) => Err(error),
        }
    }
}

/// The task that owns a connection, and how it ended.
#[derive(Clone, Copy, Debug, PartialEq, Eq, Structural)]
pub struct ConnectionLifecycle {
    pub running: bool,
    pub exit: Option<TransportExit>,
}

impl ConnectionLifecycle {
    pub fn new() -> (lifecycle: ConnectionLifecycle)
        ensures
            lifecycle == (ConnectionLifecycle { running: true, exit: None }),
    {
        ConnectionLifecycle { running: true, exit: None }
    }

    /// How the connection ended, where that is known; nothing where it has to
    /// be cancelled, and its task joined, first.
    pub fn ended(&self) -> (exit: Option<TransportExit>)
        ensures
            exit == self.exit,
    {
        self.exit
    }

    /// Takes note of how the task ended; nothing where it panicked, was aborted
    /// or is gone.
    pub fn joined(&mut self, joined: Option<TransportExit>) -> (exit: TransportExit)
        ensures
            exit == match old(self).exit {
                Some(known) => known,
                None => match joined {
                    Some(joined) => joined,
                    None => TransportExit::TaskFailed,
                },
            },
            *final(self) == (ConnectionLifecycle { running: false, exit: Some(exit) }),
    {
        let exit = match self.exit {
            Some(known) => known,
            None => match joined {
                Some(joined) => joined,
                None => TransportExit::TaskFailed,
            },
        };
        self.running = false;
        self.exit = Some(exit);
        exit
    }

    /// Drops the connection at once. Answers whether its task is to be aborted
    /// and how the connection ended.
    pub fn abort(&mut self) -> (aborted: (bool, TransportExit))
        ensures
            aborted == match old(self).exit {
                Some(known) => (false, known),
                None => (old(self).running, TransportExit::Aborted),
            },
            *final(self) == match old(self).exit {
                Some(_) => *old(self),
                None => ConnectionLifecycle {
                    running: false,
                    exit: Some(TransportExit::Aborted),
                },
            },
    {
        match self.exit {
            Some(known) => (false, known),
            None => {
                let running = self.running;
                self.running = false;
                self.exit = Some(TransportExit::Aborted);
                (running, TransportExit::Aborted)
            },
        }
    }
}

/// What a command holds of the budget was granted to it: it is at least one
/// permit and no more than was asked for before its value was built.
pub proof fn held_bytes_were_granted(method: Seq<char>, memory: nat, wire: nat)
    requires
        retained_weight(method, memory as int, wire as int) <= MAX_JSONL_LINE_BYTES,
    ensures
        1 <= retained_weight(method, memory as int, wire as int) <= clamped(
            MAX_JSONL_LINE_BYTES as int,
            1,
            RPC_BYTE_BUDGET as int,
        ),
{
}

/// A request of the server that was handed to the owner of the connection can
/// be handed over only once: whatever happens afterwards, nobody else becomes
/// responsible for it again.
pub proof fn handed_over_requests_stay_handed_over(state: LeaseState, step: LeaseStep)
    ensures
        lease_after(state, LeaseStep::Handoff).0 != LeaseState::Armed,
        state != LeaseState::Armed ==> lease_after(state, step).0 != LeaseState::Armed,
{
}

/// A caller that is kept waiting learns why: past its deadline that its own
/// method timed out, else that the connection of its own epoch is lost; a reply
/// that came is handed on as it is.
pub proof fn callers_learn_why_they_waited<T>(
    call: Call,
    room: Room,
    reply: Reply<T>,
    handing: Handing,
)
    ensures
        room_error(room, call) is None <==> room == Room::Granted,
        room_error(room, call) == Some(RpcError::Timeout { method: call.method }) <==> room
            == Room::Late,
        room_error(room, call) == Some(RpcError::ConnectionLost(call.epoch)) <==> room == Room::Lost
            || room == Room::Closed,
        reply matches Reply::Said(said) ==> told(reply, call) == said,
        reply is Late ==> told(reply, call) == Err::<T, RpcError>(
            RpcError::Timeout { method: call.method },
        ),
        reply is Lost || reply is Dropped ==> told(reply, call) == Err::<T, RpcError>(
            RpcError::ConnectionLost(call.epoch),
        ),
        left_behind(reply) <==> !(reply is Said || reply is Dropped),
        handing_error(handing, call) is None <==> handing is Sent,
        handing_error(handing, call) == Some(RpcError::Timeout { method: call.method }) <==> handing
            is Late,
        handing_error(handing, call) == Some(
            RpcError::PayloadTooLarge { method: call.method },
        ) <==> handing == Handing::Failed(TransportSendError::Protocol),
        handing is Lost ==> handing_error(handing, call) == Some(
            RpcError::ConnectionLost(call.epoch),
        ),
        handing is Failed && handing != Handing::Failed(TransportSendError::Protocol)
            ==> handing_error(handing, call) == Some(RpcError::ConnectionLost(call.epoch)),
{
}

/// A command that is turned away is answered at its own requester.
pub proof fn turned_away_commands_are_answered(command: RpcCommand, epoch: ConnectionEpoch)
    ensures
        rejected(command, epoch).1 == RpcError::ConnectionLost(epoch),
        command matches RpcCommand::Request { reply, .. } ==> rejected(command, epoch).0 == reply,
        command matches RpcCommand::Fire { ack, .. } ==> rejected(command, epoch).0 == ack,
{
}

/// Whether a command asks what a call is to ask, for whoever waits for it.
pub open spec fn asks(
    command: RpcCommand,
    call: Call,
    asked: RequestIdView,
    value: Json,
    requester: u64,
) -> bool {
    match command {
        RpcCommand::Request { id, method, params, deadline, reply, requester_gone } => {
            &&& id@ == asked
            &&& method == call.method
            &&& json(params) == value
            &&& deadline == call.deadline
            &&& reply == requester
            &&& !requester_gone
        },
        _ => false,
    }
}

/// From the call to the wire: what is sent for a call is its own method and
/// value under its own identifier, before its own deadline, and the answer goes
/// to its own requester.
pub proof fn calls_are_sent_as_they_are(
    owner: OwnerView,
    command: RpcCommand,
    call: Call,
    asked: RequestIdView,
    value: Json,
    requester: u64,
    pump: Pump,
    now: u64,
)
    requires
        asks(command, call, asked, value, requester),
    ensures
        ({
            let (next, step) = dispatched(owner, command, pump, now);
            &&& step matches DispatchView::Send { message } ==> now < call.deadline && message == (
            MessageView::Request { id: asked, method: call.method@, params: Some(value) })
                && next.pending == owner.pending.push(
                PendingView {
                    id: asked,
                    method: call.method,
                    deadline: call.deadline,
                    reply: requester,
                },
            )
            &&& now >= call.deadline ==> step == (DispatchView::Refuse {
                requester,
                error: RpcError::Timeout { method: call.method },
            })
        }),
{
}

} // verus!
