//! The state of the RPC owner: pending requests in both directions, the order
//! of emitted events, and what each message and command leads to.
use vstd::prelude::*;

use crate::codex::protocol::InboundMessage;
use crate::codex::protocol::MessageView;
use crate::codex::protocol::OutboundMessage;
use crate::codex::protocol::RequestId;
use crate::codex::protocol::RequestIdView;
use crate::codex::protocol::RpcErrorView;
use crate::codex::rpc::admits_notification;
use crate::codex::rpc::admits_request;
use crate::codex::rpc::authoritative_method;
use crate::codex::rpc::bounded_permits;
use crate::codex::rpc::clamped;
use crate::codex::rpc::increment_saturating;
use crate::codex::rpc::is_authoritative_notification;
use crate::codex::rpc::take_event_sequence;
use crate::codex::rpc::ConnectionEpoch;
use crate::codex::rpc::RpcError;
use crate::codex::rpc::RpcEvent;
use crate::codex::rpc::RpcEventView;
use crate::codex::rpc::RpcProtocolPolicy;
use crate::codex::rpc::ServerRequest;
use crate::codex::rpc::ServerRequestView;
use crate::codex::types::saturated;
use crate::codex::types::text_bytes;
use crate::codex::types::IoErrorKind;
use crate::codex::types::TransportExit;
use crate::codex::types::WebSocketCloseReport;
use crate::json::json;
use crate::json::Json;
use crate::limits::HIGH_PRIORITY_BURST;
use crate::limits::RPC_BYTE_BUDGET;
use crate::limits::RPC_RELIABLE_EVENT_BYTE_BUDGET;
use crate::limits::RPC_SERVER_REQUEST_CAPACITY;
use crate::text::byte_len;

verus! {

/// One request that waits for its response. `reply` names the requester.
pub struct PendingRequest {
    pub id: RequestId,
    pub method: &'static str,
    pub deadline: u64,
    pub reply: u64,
}

/// Content of one pending request.
pub struct PendingView {
    pub id: RequestIdView,
    pub method: &'static str,
    pub deadline: u64,
    pub reply: u64,
}

impl View for PendingRequest {
    type V = PendingView;

    open spec fn view(&self) -> PendingView {
        PendingView {
            id: self.id@,
            method: self.method,
            deadline: self.deadline,
            reply: self.reply,
        }
    }
}

/// Contents of pending requests.
pub open spec fn pending_views(pending: Seq<PendingRequest>) -> Seq<PendingView> {
    pending.map_values(|entry: PendingRequest| entry@)
}

/// Contents of identifiers.
pub open spec fn id_views(ids: Seq<RequestId>) -> Seq<RequestIdView> {
    ids.map_values(|id: RequestId| id@)
}

/// Whether a request with the identifier is pending.
pub open spec fn is_pending(pending: Seq<PendingView>, id: RequestIdView) -> bool {
    exists|at: int| 0 <= at < pending.len() && (#[trigger] pending[at]).id == id
}

/// Where the request with the identifier stands.
pub open spec fn pending_place(pending: Seq<PendingView>, id: RequestIdView) -> int {
    choose|at: int| 0 <= at < pending.len() && (#[trigger] pending[at]).id == id
}

/// The pending request with the identifier.
pub open spec fn pending_entry(pending: Seq<PendingView>, id: RequestIdView) -> PendingView {
    pending[pending_place(pending, id)]
}

/// The pending requests without the one with the identifier.
pub open spec fn without_pending(pending: Seq<PendingView>, id: RequestIdView) -> Seq<
    PendingView,
> {
    if is_pending(pending, id) {
        pending.remove(pending_place(pending, id))
    } else {
        pending
    }
}

/// No identifier is pending twice.
pub open spec fn unique_pending(pending: Seq<PendingView>) -> bool {
    forall|i: int, j: int|
        0 <= i < j < pending.len() ==> (#[trigger] pending[i]).id != (#[trigger] pending[j]).id
}

/// Whether a lane for events has room: free permits and free slots, or a
/// consumer that is gone.
#[derive(Clone, Copy, Debug, PartialEq, Eq, Structural)]
pub struct Lane {
    pub permits: usize,
    pub slots: usize,
    pub closed: bool,
}

/// Whether an event that may be dropped has room.
pub open spec fn lane_admits(lane: Lane, weight: int) -> bool {
    weight <= RPC_BYTE_BUDGET && clamped(weight, 1, RPC_BYTE_BUDGET as int) <= lane.permits
        && lane.slots > 0 && !lane.closed
}

/// Content of the owner.
pub struct OwnerView {
    pub epoch: ConnectionEpoch,
    pub policy: RpcProtocolPolicy,
    pub pending: Seq<PendingView>,
    pub server_pending: Seq<RequestIdView>,
    pub sequence: u64,
    pub high_burst: usize,
    pub drifts: u64,
    pub dropped: u64,
}

/// What is known of an inbound message beside its content: the sizes of its
/// identifier and its parameters in memory, the room for events that may be
/// dropped, and whether room was granted for one that may not.
#[derive(Clone, Copy, Debug, PartialEq, Eq, Structural)]
pub struct InboundFacts {
    pub id_bytes: usize,
    pub params_bytes: usize,
    pub lane: Lane,
    pub granted: bool,
}

/// What an inbound message leads to.
pub enum InboundStep {
    /// The requester is answered.
    Reply { reply: u64, outcome: Result<serde_json::Value, RpcError> },
    /// An event is emitted under its number.
    Emit { sequence: u64, event: RpcEvent, reliable: bool },
    /// A notification that may be dropped was dropped.
    Dropped,
    /// The connection ends.
    Fault,
}

/// Content of what an inbound message leads to.
pub enum InboundStepView {
    Reply { reply: u64, outcome: Result<Json, RpcError> },
    Emit { sequence: u64, event: RpcEventView, reliable: bool },
    Dropped,
    Fault,
}

impl View for InboundStep {
    type V = InboundStepView;

    open spec fn view(&self) -> InboundStepView {
        match *self {
            InboundStep::Reply { reply, outcome } => InboundStepView::Reply {
                reply,
                outcome: match outcome {
                    Ok(value) => Ok(json(value)),
                    Err(error) => Err(error),
                },
            },
            InboundStep::Emit { sequence, event, reliable } => InboundStepView::Emit {
                sequence,
                event: event@,
                reliable,
            },
            InboundStep::Dropped => InboundStepView::Dropped,
            InboundStep::Fault => InboundStepView::Fault,
        }
    }
}

/// One more, up to the largest number.
pub open spec fn counted_up(value: u64) -> u64 {
    if value == u64::MAX {
        value
    } else {
        (value + 1) as u64
    }
}

/// What an emission leads to: the event goes out under the next number, where
/// there is room and a number left.
pub open spec fn emitted(
    owner: OwnerView,
    event: RpcEventView,
    reliable: bool,
    room: bool,
) -> Option<(OwnerView, InboundStepView)> {
    if room && owner.sequence < u64::MAX {
        Some(
            (
                OwnerView { sequence: (owner.sequence + 1) as u64, ..owner },
                InboundStepView::Emit { sequence: owner.sequence, event, reliable },
            ),
        )
    } else {
        None
    }
}

/// What must be emitted or else ends the connection.
pub open spec fn emitted_or_fault(
    owner: OwnerView,
    event: RpcEventView,
    reliable: bool,
    room: bool,
) -> (OwnerView, InboundStepView) {
    match emitted(owner, event, reliable, room) {
        Some(step) => step,
        None => (owner, InboundStepView::Fault),
    }
}

/// What unexpected traffic leads to: drift that is reported, or the end of a
/// connection that fails closed.
pub open spec fn drift(owner: OwnerView, lane: Lane) -> (OwnerView, InboundStepView) {
    if owner.policy != RpcProtocolPolicy::Permissive {
        (owner, InboundStepView::Fault)
    } else {
        emitted_or_fault(
            OwnerView { drifts: counted_up(owner.drifts), ..owner },
            RpcEventView::ProtocolDrift,
            false,
            lane_admits(lane, 64),
        )
    }
}

/// Bytes that a notification event is taken to retain.
pub open spec fn notification_event_weight(method: Seq<char>, params_bytes: int) -> int {
    saturated(byte_len(method) + params_bytes + 128)
}

/// Bytes that a server-request event is taken to retain.
pub open spec fn request_event_weight(method: Seq<char>, id_bytes: int, params_bytes: int) -> int {
    saturated(byte_len(method) + id_bytes + params_bytes + 192)
}

/// What a response to one of our requests leads to.
pub open spec fn answered(
    owner: OwnerView,
    id: RequestIdView,
    result: Result<Json, int>,
    lane: Lane,
) -> (OwnerView, InboundStepView) {
    if is_pending(owner.pending, id) {
        let entry = pending_entry(owner.pending, id);
        (
            OwnerView { pending: without_pending(owner.pending, id), ..owner },
            InboundStepView::Reply {
                reply: entry.reply,
                outcome: match result {
                    Ok(value) => Ok(value),
                    Err(code) => Err(RpcError::Server { method: entry.method, code: code as i64 }),
                },
            },
        )
    } else {
        drift(owner, lane)
    }
}

/// What an inbound message leads to.
pub open spec fn inbound(owner: OwnerView, message: MessageView, facts: InboundFacts) -> (
    OwnerView,
    InboundStepView,
) {
    match message {
        MessageView::Response { id, result } => answered(owner, id, Ok(result), facts.lane),
        MessageView::ErrorResponse { id, error } => answered(
            owner,
            id,
            Err(error.code),
            facts.lane,
        ),
        MessageView::Request { id, method, params } => if !admits_request(owner.policy, method)
            || owner.server_pending.len() >= RPC_SERVER_REQUEST_CAPACITY
            || owner.server_pending.contains(id) {
            (owner, InboundStepView::Fault)
        } else {
            let weight = request_event_weight(
                method,
                facts.id_bytes as int,
                facts.params_bytes as int,
            );
            emitted_or_fault(
                OwnerView { server_pending: owner.server_pending.push(id), ..owner },
                RpcEventView::ServerRequest(
                    ServerRequestView { id, method, params, epoch: owner.epoch@ },
                ),
                true,
                weight <= RPC_RELIABLE_EVENT_BYTE_BUDGET && facts.granted,
            )
        },
        MessageView::Notification { method, params } => {
            let weight = notification_event_weight(method, facts.params_bytes as int);
            let event = RpcEventView::Notification { method, params };
            if !admits_notification(owner.policy, method) {
                (owner, InboundStepView::Fault)
            } else if authoritative_method(method) {
                emitted_or_fault(
                    owner,
                    event,
                    true,
                    weight <= RPC_RELIABLE_EVENT_BYTE_BUDGET && facts.granted,
                )
            } else {
                match emitted(owner, event, false, lane_admits(facts.lane, weight)) {
                    Some(step) => step,
                    None => if facts.lane.closed {
                        (owner, InboundStepView::Fault)
                    } else {
                        (
                            OwnerView { dropped: counted_up(owner.dropped), ..owner },
                            InboundStepView::Dropped,
                        )
                    },
                }
            }
        },
    }
}

/// Whether the queue towards the transport takes a job.
#[derive(Clone, Copy, Debug, PartialEq, Eq, Structural)]
pub enum Pump {
    Ready,
    Full,
    Closed,
}

/// A command to the owner. `reply` and `ack` name the requester, which may be
/// gone by the time the command is taken.
pub enum RpcCommand {
    Request {
        id: RequestId,
        method: &'static str,
        params: serde_json::Value,
        deadline: u64,
        reply: u64,
        requester_gone: bool,
    },
    Fire {
        method: &'static str,
        message: OutboundMessage,
        answers: Option<RequestId>,
        deadline: u64,
        ack: u64,
        requester_gone: bool,
    },
}

/// What a command leads to.
pub enum DispatchStep {
    /// Nothing is sent and nobody is told.
    Skip,
    /// Nothing is sent; the requester is told why.
    Refuse { requester: u64, error: RpcError },
    /// The message goes to the transport.
    Send { message: OutboundMessage },
    /// The connection ends; a requester may be told why.
    Fault { told: Option<(u64, RpcError)> },
}

/// Content of what a command leads to.
pub enum DispatchView {
    Skip,
    Refuse { requester: u64, error: RpcError },
    Send { message: MessageView },
    Fault { told: Option<(u64, RpcError)> },
}

impl View for DispatchStep {
    type V = DispatchView;

    open spec fn view(&self) -> DispatchView {
        match *self {
            DispatchStep::Skip => DispatchView::Skip,
            DispatchStep::Refuse { requester, error } => DispatchView::Refuse { requester, error },
            DispatchStep::Send { message } => DispatchView::Send { message: message@ },
            DispatchStep::Fault { told } => DispatchView::Fault { told },
        }
    }
}

/// The identifiers without the first that equals one.
pub open spec fn without_id(ids: Seq<RequestIdView>, id: RequestIdView) -> Seq<RequestIdView> {
    if ids.contains(id) {
        ids.remove(ids.index_of(id))
    } else {
        ids
    }
}

/// What a command leads to at a time. A request under an identifier that is
/// pending takes the place of the one before it, whose requester is left
/// without an answer, and ends the connection.
pub open spec fn dispatched(owner: OwnerView, command: RpcCommand, pump: Pump, now: u64) -> (
    OwnerView,
    DispatchView,
) {
    match command {
        RpcCommand::Request { id, method, params, deadline, reply, requester_gone } => {
            if requester_gone {
                (owner, DispatchView::Skip)
            } else if now >= deadline {
                (
                    owner,
                    DispatchView::Refuse { requester: reply, error: RpcError::Timeout { method } },
                )
            } else if is_pending(owner.pending, id@) {
                (
                    OwnerView {
                        pending: owner.pending.update(
                            pending_place(owner.pending, id@),
                            PendingView { id: id@, method, deadline, reply },
                        ),
                        ..owner
                    },
                    DispatchView::Fault { told: None },
                )
            } else {
                match pump {
                    Pump::Full => (owner, DispatchView::Skip),
                    Pump::Closed => (owner, DispatchView::Fault { told: None }),
                    Pump::Ready => (
                        OwnerView {
                            pending: owner.pending.push(
                                PendingView { id: id@, method, deadline, reply },
                            ),
                            ..owner
                        },
                        DispatchView::Send {
                            message: MessageView::Request {
                                id: id@,
                                method: method@,
                                params: Some(json(params)),
                            },
                        },
                    ),
                }
            }
        },
        RpcCommand::Fire { method, message, answers, deadline, ack, requester_gone } => {
            if requester_gone && answers is None {
                (owner, DispatchView::Skip)
            } else if now >= deadline {
                (
                    owner,
                    DispatchView::Refuse { requester: ack, error: RpcError::Timeout { method } },
                )
            } else if answers matches Some(id) && !owner.server_pending.contains(id@) {
                (
                    owner,
                    DispatchView::Refuse { requester: ack, error: RpcError::UnknownServerRequest },
                )
            } else {
                let next = match answers {
                    Some(id) => OwnerView {
                        server_pending: without_id(owner.server_pending, id@),
                        ..owner
                    },
                    None => owner,
                };
                if pump == Pump::Ready {
                    (next, DispatchView::Send { message: message@ })
                } else {
                    (
                        next,
                        DispatchView::Fault {
                            told: Some((ack, RpcError::ConnectionLost(owner.epoch))),
                        },
                    )
                }
            }
        },
    }
}

/// The pending requests that are neither overdue nor abandoned.
pub open spec fn still_due(pending: Seq<PendingView>, gone: Seq<u64>, now: u64) -> Seq<PendingView>
    decreases pending.len(),
{
    if pending.len() == 0 {
        Seq::empty()
    } else {
        let rest = still_due(pending.drop_last(), gone, now);
        let entry = pending.last();
        if gone.contains(entry.reply) || now >= entry.deadline {
            rest
        } else {
            rest.push(entry)
        }
    }
}

/// The requesters that still wait for an overdue request, each with the
/// failure that it is told.
pub open spec fn overdue(pending: Seq<PendingView>, gone: Seq<u64>, now: u64) -> Seq<
    (u64, RpcError),
>
    decreases pending.len(),
{
    if pending.len() == 0 {
        Seq::empty()
    } else {
        let rest = overdue(pending.drop_last(), gone, now);
        let entry = pending.last();
        if !gone.contains(entry.reply) && now >= entry.deadline {
            rest.push((entry.reply, RpcError::Timeout { method: entry.method }))
        } else {
            rest
        }
    }
}

/// All requesters, each with the same failure.
pub open spec fn all_told(pending: Seq<PendingView>, error: RpcError) -> Seq<(u64, RpcError)> {
    Seq::new(pending.len(), |at: int| (pending[at].reply, error))
}

/// The state of the RPC owner.
pub struct RpcOwner {
    epoch: ConnectionEpoch,
    policy: RpcProtocolPolicy,
    pending: Vec<PendingRequest>,
    server_pending: Vec<RequestId>,
    event_sequence: u64,
    high_burst: usize,
    protocol_drift_count: u64,
    dropped_notification_count: u64,
}

impl View for RpcOwner {
    type V = OwnerView;

    closed spec fn view(&self) -> OwnerView {
        OwnerView {
            epoch: self.epoch,
            policy: self.policy,
            pending: pending_views(self.pending@),
            server_pending: id_views(self.server_pending@),
            sequence: self.event_sequence,
            high_burst: self.high_burst,
            drifts: self.protocol_drift_count,
            dropped: self.dropped_notification_count,
        }
    }
}

/// Whether the owner keeps its bounds: nothing is pending twice, and requests
/// of the server are bounded.
pub open spec fn owner_bounded(owner: OwnerView) -> bool {
    &&& unique_pending(owner.pending)
    &&& owner.server_pending.no_duplicates()
    &&& owner.server_pending.len() <= RPC_SERVER_REQUEST_CAPACITY
}

impl RpcOwner {
    pub open spec fn wf(&self) -> bool {
        owner_bounded(self@)
    }

    pub fn new(epoch: ConnectionEpoch, policy: RpcProtocolPolicy) -> (owner: RpcOwner)
        ensures
            owner.wf(),
            owner@ == (OwnerView {
                epoch,
                policy,
                pending: Seq::empty(),
                server_pending: Seq::empty(),
                sequence: 0,
                high_burst: 0,
                drifts: 0,
                dropped: 0,
            }),
    {
        let owner = RpcOwner {
            epoch,
            policy,
            pending: Vec::new(),
            server_pending: Vec::new(),
            event_sequence: 0,
            high_burst: 0,
            protocol_drift_count: 0,
            dropped_notification_count: 0,
        };
        proof {
            assert(owner@.pending =~= Seq::empty());
            assert(owner@.server_pending =~= Seq::empty());
        }
        owner
    }

    pub fn pending_count(&self) -> (count: usize)
        ensures
            count == self@.pending.len(),
    {
        self.pending.len()
    }

    pub fn protocol_drift_count(&self) -> (count: u64)
        ensures
            count == self@.drifts,
    {
        self.protocol_drift_count
    }

    pub fn dropped_notification_count(&self) -> (count: u64)
        ensures
            count == self@.dropped,
    {
        self.dropped_notification_count
    }

    fn pending_position(&self, id: &RequestId) -> (place: Option<usize>)
        requires
            self.wf(),
        ensures
            place is Some == is_pending(self@.pending, id@),
            place matches Some(at) ==> at < self.pending@.len() && at == pending_place(
                self@.pending,
                id@,
            ) && self@.pending[at as int].id == id@,
    {
        let mut at: usize = 0;
        while at < self.pending.len()
            invariant
                self.wf(),
                at <= self.pending@.len(),
                self@.pending.len() == self.pending@.len(),
                forall|k: int| 0 <= k < at ==> (#[trigger] self@.pending[k]).id != id@,
            decreases self.pending@.len() - at,
        {
            proof {
                assert(self@.pending[at as int] == self.pending@[at as int]@);
            }
            if self.pending[at].id.same(id) {
                proof {
                    let found = pending_place(self@.pending, id@);
                    assert(self@.pending[at as int].id == id@);
                    assert(0 <= found < self@.pending.len() && self@.pending[found].id == id@);
                    if found < at {
                        assert(self@.pending[found].id != id@);
                    } else if (at as int) < found {
                        assert(self@.pending[at as int].id != self@.pending[found].id);
                    }
                }
                return Some(at);
            }
            at += 1;
        }
        None
    }

    /// Takes a pending request out.
    fn take_pending(&mut self, id: &RequestId) -> (entry: Option<PendingRequest>)
        requires
            old(self).wf(),
        ensures
            final(self).wf(),
            final(self)@ == (OwnerView {
                pending: without_pending(old(self)@.pending, id@),
                ..old(self)@
            }),
            entry is Some == is_pending(old(self)@.pending, id@),
            entry matches Some(held) ==> held@ == pending_entry(old(self)@.pending, id@),
    {
        match self.pending_position(id) {
            Some(at) => {
                let ghost before = self@.pending;
                let entry = self.pending.remove(at);
                proof {
                    assert(self@.pending =~= before.remove(at as int));
                    assert forall|i: int, j: int| 0 <= i < j < self@.pending.len() implies (
                    #[trigger] self@.pending[i]).id != (#[trigger] self@.pending[j]).id by {
                        let from_i = if i < at {
                            i
                        } else {
                            i + 1
                        };
                        let from_j = if j < at {
                            j
                        } else {
                            j + 1
                        };
                        assert(before[from_i].id != before[from_j].id);
                    }
                }
                Some(entry)
            },
            None => None,
        }
    }

    /// Forgets a pending request whose requester has gone.
    pub fn remove_pending(&mut self, id: &RequestId)
        requires
            old(self).wf(),
        ensures
            final(self).wf(),
            final(self)@ == (OwnerView {
                pending: without_pending(old(self)@.pending, id@),
                ..old(self)@
            }),
    {
        let _ = self.take_pending(id);
    }

    fn emit(&mut self, event: RpcEvent, reliable: bool, room: bool) -> (step: Option<InboundStep>)
        requires
            old(self).wf(),
        ensures
            final(self).wf(),
            match emitted(old(self)@, event@, reliable, room) {
                Some((next, view)) => step matches Some(held) && held@ == view && final(self)@
                    == next,
                None => step is None && final(self)@ == old(self)@,
            },
    {
        if !room {
            return None;
        }
        match take_event_sequence(&mut self.event_sequence) {
            Some(sequence) => Some(InboundStep::Emit { sequence, event, reliable }),
            None => None,
        }
    }

    fn lane_has_room(lane: Lane, weight: usize) -> (room: bool)
        ensures
            room == lane_admits(lane, weight as int),
    {
        weight <= RPC_BYTE_BUDGET && bounded_permits(weight) as usize <= lane.permits && lane.slots
            > 0 && !lane.closed
    }

    fn note_drift(&mut self, lane: Lane) -> (step: InboundStep)
        requires
            old(self).wf(),
        ensures
            final(self).wf(),
            (final(self)@, step@) == drift(old(self)@, lane),
    {
        if self.policy.is_fail_closed_external() {
            return InboundStep::Fault;
        }
        increment_saturating(&mut self.protocol_drift_count);
        let room = RpcOwner::lane_has_room(lane, 64);
        match self.emit(RpcEvent::ProtocolDrift, false, room) {
            Some(step) => step,
            None => InboundStep::Fault,
        }
    }

    fn server_request_known(&self, id: &RequestId) -> (place: Option<usize>)
        ensures
            place is Some == self@.server_pending.contains(id@),
            place matches Some(at) ==> at < self@.server_pending.len() && self@.server_pending[at
                as int] == id@,
    {
        let mut at: usize = 0;
        while at < self.server_pending.len()
            invariant
                at <= self.server_pending@.len(),
                self@.server_pending.len() == self.server_pending@.len(),
                forall|k: int| 0 <= k < at ==> (#[trigger] self@.server_pending[k]) != id@,
            decreases self.server_pending@.len() - at,
        {
            proof {
                assert(self@.server_pending[at as int] == self.server_pending@[at as int]@);
            }
            if self.server_pending[at].same(id) {
                return Some(at);
            }
            at += 1;
        }
        None
    }

    /// Decides what one inbound message leads to.
    pub fn handle_inbound(&mut self, message: InboundMessage, facts: InboundFacts) -> (step:
        InboundStep)
        requires
            old(self).wf(),
        ensures
            final(self).wf(),
            (final(self)@, step@) == inbound(old(self)@, message@, facts),
    {
        match message {
            InboundMessage::Response { id, result } => match self.take_pending(&id) {
                Some(entry) => InboundStep::Reply { reply: entry.reply, outcome: Ok(result) },
                None => self.note_drift(facts.lane),
            },
            InboundMessage::ErrorResponse { id, error } => match self.take_pending(&id) {
                Some(entry) => InboundStep::Reply {
                    reply: entry.reply,
                    outcome: Err(RpcError::Server { method: entry.method, code: error.code }),
                },
                None => self.note_drift(facts.lane),
            },
            InboundMessage::Request { id, method, params } => {
                if !self.policy.allows_server_request(method.as_str()) {
                    return InboundStep::Fault;
                }
                if self.server_pending.len() >= RPC_SERVER_REQUEST_CAPACITY
                    || self.server_request_known(&id).is_some() {
                    return InboundStep::Fault;
                }
                let weight: usize = text_bytes(method.as_str()).saturating_add(
                    facts.id_bytes,
                ).saturating_add(facts.params_bytes).saturating_add(192);
                self.server_pending.push(id.duplicate());
                proof {
                    assert(self@.server_pending =~= old(self)@.server_pending.push(id@));
                }
                let epoch = self.epoch;
                let event = RpcEvent::ServerRequest(ServerRequest::new(id, method, params, epoch));
                let room = weight <= RPC_RELIABLE_EVENT_BYTE_BUDGET && facts.granted;
                match self.emit(event, true, room) {
                    Some(step) => step,
                    None => InboundStep::Fault,
                }
            },
            InboundMessage::Notification { method, params } => {
                if !self.policy.allows_notification(method.as_str()) {
                    return InboundStep::Fault;
                }
                let authoritative = is_authoritative_notification(method.as_str());
                let weight: usize = text_bytes(method.as_str()).saturating_add(
                    facts.params_bytes,
                ).saturating_add(128);
                let event = RpcEvent::Notification { method, params };
                let room = if authoritative {
                    weight <= RPC_RELIABLE_EVENT_BYTE_BUDGET && facts.granted
                } else {
                    RpcOwner::lane_has_room(facts.lane, weight)
                };
                match self.emit(event, authoritative, room) {
                    Some(step) => step,
                    None => {
                        if authoritative || facts.lane.closed {
                            return InboundStep::Fault;
                        }
                        increment_saturating(&mut self.dropped_notification_count);
                        InboundStep::Dropped
                    },
                }
            },
        }
    }

    /// Decides what one command leads to.
    pub fn dispatch_command(&mut self, command: RpcCommand, pump: Pump, now: u64) -> (step:
        DispatchStep)
        requires
            old(self).wf(),
        ensures
            final(self).wf(),
            (final(self)@, step@) == dispatched(old(self)@, command, pump, now),
    {
        match command {
            RpcCommand::Request { id, method, params, deadline, reply, requester_gone } => {
                if requester_gone {
                    return DispatchStep::Skip;
                }
                if now >= deadline {
                    return DispatchStep::Refuse {
                        requester: reply,
                        error: RpcError::Timeout { method },
                    };
                }
                if let Some(at) = self.pending_position(&id) {
                    let entry = PendingRequest { id, method, deadline, reply };
                    self.pending[at] = entry;
                    proof {
                        let before = old(self)@.pending;
                        assert(self@.pending =~= before.update(at as int, entry@));
                        assert forall|i: int, j: int| 0 <= i < j < self@.pending.len() implies (
                        #[trigger] self@.pending[i]).id != (#[trigger] self@.pending[j]).id by {
                            assert(before[i].id != before[j].id);
                        }
                    }
                    return DispatchStep::Fault { told: None };
                }
                match pump {
                    Pump::Full => DispatchStep::Skip,
                    Pump::Closed => DispatchStep::Fault { told: None },
                    Pump::Ready => {
                        let entry = PendingRequest { id: id.duplicate(), method, deadline, reply };
                        self.pending.push(entry);
                        proof {
                            assert(self@.pending =~= old(self)@.pending.push(entry@));
                            assert forall|i: int, j: int| 0 <= i < j
                                < self@.pending.len() implies (#[trigger] self@.pending[i]).id != (
                            #[trigger] self@.pending[j]).id by {
                                if j < old(self)@.pending.len() {
                                    assert(old(self)@.pending[i].id != old(self)@.pending[j].id);
                                } else {
                                    assert(old(self)@.pending[i].id != id@);
                                }
                            }
                        }
                        DispatchStep::Send {
                            message: OutboundMessage::Request {
                                id,
                                method: method.to_owned(),
                                params: Some(params),
                            },
                        }
                    },
                }
            },
            RpcCommand::Fire { method, message, answers, deadline, ack, requester_gone } => {
                if requester_gone && answers.is_none() {
                    return DispatchStep::Skip;
                }
                if now >= deadline {
                    return DispatchStep::Refuse {
                        requester: ack,
                        error: RpcError::Timeout { method },
                    };
                }
                if let Some(id) = &answers {
                    match self.server_request_known(id) {
                        None => {
                            return DispatchStep::Refuse {
                                requester: ack,
                                error: RpcError::UnknownServerRequest,
                            };
                        },
                        Some(at) => {
                            let ghost before = self@.server_pending;
                            let _ = self.server_pending.remove(at);
                            proof {
                                lemma_index_of_unique(before, at as int);
                                assert(self@.server_pending =~= before.remove(at as int));
                            }
                        },
                    }
                }
                if matches!(pump, Pump::Ready) {
                    DispatchStep::Send { message }
                } else {
                    DispatchStep::Fault { told: Some((ack, RpcError::ConnectionLost(self.epoch))) }
                }
            },
        }
    }
}

proof fn lemma_index_of_unique(ids: Seq<RequestIdView>, at: int)
    requires
        ids.no_duplicates(),
        0 <= at < ids.len(),
    ensures
        ids.contains(ids[at]),
        ids.index_of(ids[at]) == at,
        ids.remove(at).no_duplicates(),
        ids.remove(at).len() == ids.len() - 1,
{
    assert(ids[at] == ids[at]);
    let found = ids.index_of(ids[at]);
    assert(ids[found] == ids[at]);
    assert forall|i: int, j: int| 0 <= i < j < ids.remove(at).len() implies ids.remove(at)[i]
        != ids.remove(at)[j] by {
        let from_i = if i < at {
            i
        } else {
            i + 1
        };
        let from_j = if j < at {
            j
        } else {
            j + 1
        };
        assert(ids[from_i] != ids[from_j]);
    }
}

/// Whether a requester is among some.
fn among(requesters: &Vec<u64>, requester: u64) -> (found: bool)
    ensures
        found == requesters@.contains(requester),
{
    let mut at: usize = 0;
    while at < requesters.len()
        invariant
            at <= requesters@.len(),
            forall|k: int| 0 <= k < at ==> requesters@[k] != requester,
        decreases requesters@.len() - at,
    {
        if requesters[at] == requester {
            return true;
        }
        at += 1;
    }
    false
}

proof fn lemma_still_due_unique(pending: Seq<PendingView>, gone: Seq<u64>, now: u64)
    requires
        unique_pending(pending),
    ensures
        unique_pending(still_due(pending, gone, now)),
        forall|k: int|
            0 <= k < still_due(pending, gone, now).len() ==> is_pending(
                pending,
                (#[trigger] still_due(pending, gone, now)[k]).id,
            ),
    decreases pending.len(),
{
    if pending.len() > 0 {
        let head = pending.drop_last();
        let rest = still_due(head, gone, now);
        assert forall|i: int, j: int| 0 <= i < j < head.len() implies (#[trigger] head[i]).id != (
        #[trigger] head[j]).id by {
            assert(pending[i].id != pending[j].id);
        }
        lemma_still_due_unique(head, gone, now);
        let whole = still_due(pending, gone, now);
        assert forall|k: int| 0 <= k < whole.len() implies is_pending(
            pending,
            (#[trigger] whole[k]).id,
        ) by {
            if k < rest.len() {
                assert(is_pending(head, rest[k].id));
                let at = pending_place(head, rest[k].id);
                assert(head[at].id == rest[k].id);
                assert(pending[at].id == rest[k].id);
            } else {
                assert(pending[pending.len() - 1].id == whole[k].id);
            }
        }
        assert forall|i: int, j: int| 0 <= i < j < whole.len() implies (#[trigger] whole[i]).id != (
        #[trigger] whole[j]).id by {
            if j < rest.len() {
                assert(rest[i].id != rest[j].id);
            } else {
                assert(is_pending(head, rest[i].id));
                let at = pending_place(head, rest[i].id);
                assert(head[at].id == rest[i].id);
                assert(pending[at].id != pending[pending.len() - 1].id);
            }
        }
    }
}

/// Something that the transport reports.
#[derive(Clone, Copy, Debug, PartialEq, Eq, Structural)]
pub enum TransportReport {
    ProtocolError,
    ReadError(IoErrorKind),
    WriteError(IoErrorKind),
    StdoutEof,
    WebSocketClosed(WebSocketCloseReport),
    ConnectionError,
    Cancelled,
    StderrLine,
    /// The transport ended with this reason.
    Ended(TransportExit),
}

/// What a report of the transport leads to.
pub enum TransportStep {
    Continue,
    Emit { sequence: u64, event: RpcEvent },
    Exit(TransportExit),
}

impl RpcOwner {
    /// Answers every requester whose deadline has passed and forgets them and
    /// those that are gone.
    pub fn sweep_pending(&mut self, gone: &Vec<u64>, now: u64) -> (told: Vec<(u64, RpcError)>)
        requires
            old(self).wf(),
        ensures
            final(self).wf(),
            final(self)@ == (OwnerView {
                pending: still_due(old(self)@.pending, gone@, now),
                ..old(self)@
            }),
            told@ == overdue(old(self)@.pending, gone@, now),
    {
        let ghost views = self@.pending;
        let mut told: Vec<(u64, RpcError)> = Vec::new();
        let mut kept: Vec<PendingRequest> = Vec::new();
        let mut at: usize = 0;
        proof {
            assert(views.subrange(0, 0) =~= Seq::empty());
            assert(pending_views(kept@) =~= Seq::empty());
        }
        while at < self.pending.len()
            invariant
                *self == *old(self),
                at <= self.pending@.len(),
                views == pending_views(self.pending@),
                told@ == overdue(views.subrange(0, at as int), gone@, now),
                pending_views(kept@) == still_due(views.subrange(0, at as int), gone@, now),
            decreases self.pending@.len() - at,
        {
            let entry = &self.pending[at];
            let ghost kept_views = pending_views(kept@);
            proof {
                let next = views.subrange(0, at + 1);
                assert(next.drop_last() =~= views.subrange(0, at as int));
                assert(next.last() == entry@);
            }
            let is_gone = among(gone, entry.reply);
            if is_gone || now >= entry.deadline {
                if !is_gone {
                    told.push((entry.reply, RpcError::Timeout { method: entry.method }));
                }
            } else {
                let copy = PendingRequest {
                    id: entry.id.duplicate(),
                    method: entry.method,
                    deadline: entry.deadline,
                    reply: entry.reply,
                };
                kept.push(copy);
                proof {
                    assert(pending_views(kept@) =~= kept_views.push(entry@));
                }
            }
            at += 1;
        }
        proof {
            assert(views.subrange(0, at as int) =~= views);
            lemma_still_due_unique(views, gone@, now);
        }
        self.pending = kept;
        told
    }

    /// Answers every requester with the loss of the connection.
    pub fn fail_all_pending(&mut self) -> (told: Vec<(u64, RpcError)>)
        requires
            old(self).wf(),
        ensures
            final(self).wf(),
            final(self)@ == (OwnerView { pending: Seq::empty(), ..old(self)@ }),
            told@ == all_told(old(self)@.pending, RpcError::ConnectionLost(old(self)@.epoch)),
    {
        let mut told: Vec<(u64, RpcError)> = Vec::new();
        let mut at: usize = 0;
        while at < self.pending.len()
            invariant
                *self == *old(self),
                at <= self.pending@.len(),
                told@.len() == at,
                forall|k: int|
                    0 <= k < at ==> (#[trigger] told@[k]) == (
                        self.pending@[k].reply,
                        RpcError::ConnectionLost(self.epoch),
                    ),
            decreases self.pending@.len() - at,
        {
            told.push((self.pending[at].reply, RpcError::ConnectionLost(self.epoch)));
            at += 1;
        }
        proof {
            assert(told@ =~= all_told(
                old(self)@.pending,
                RpcError::ConnectionLost(old(self)@.epoch),
            ));
        }
        self.pending = Vec::new();
        proof {
            assert(self@.pending =~= Seq::empty());
        }
        told
    }

    /// Takes note of how sending a request ended. Only a failure answers the
    /// requester; after a success its response is awaited.
    pub fn handle_completion(&mut self, id: &RequestId, result: Result<(), RpcError>) -> (told:
        Option<(u64, RpcError)>)
        requires
            old(self).wf(),
        ensures
            final(self).wf(),
            match result {
                Ok(()) => told is None && final(self)@ == old(self)@,
                Err(error) => final(self)@ == (OwnerView {
                    pending: without_pending(old(self)@.pending, id@),
                    ..old(self)@
                }) && told == if is_pending(old(self)@.pending, id@) {
                    Some((pending_entry(old(self)@.pending, id@).reply, error))
                } else {
                    None
                },
            },
    {
        match result {
            Ok(()) => None,
            Err(error) => match self.take_pending(id) {
                Some(entry) => Some((entry.reply, error)),
                None => None,
            },
        }
    }

    /// The earliest deadline of a pending request.
    pub fn next_deadline(&self) -> (deadline: Option<u64>)
        ensures
            match deadline {
                Some(deadline) => (exists|k: int|
                    0 <= k < self@.pending.len() && (#[trigger] self@.pending[k]).deadline
                        == deadline) && (forall|k: int|
                    0 <= k < self@.pending.len() ==> deadline <= (
                    #[trigger] self@.pending[k]).deadline),
                None => self@.pending.len() == 0,
            },
    {
        if self.pending.len() == 0 {
            return None;
        }
        let mut earliest: u64 = self.pending[0].deadline;
        let mut at: usize = 1;
        proof {
            assert(self@.pending[0].deadline == earliest);
        }
        while at < self.pending.len()
            invariant
                1 <= at <= self.pending@.len(),
                self@.pending.len() == self.pending@.len(),
                exists|k: int|
                    0 <= k < at && (#[trigger] self@.pending[k]).deadline == earliest,
                forall|k: int| 0 <= k < at ==> earliest <= (#[trigger] self@.pending[k]).deadline,
            decreases self.pending@.len() - at,
        {
            proof {
                assert(self@.pending[at as int] == self.pending@[at as int]@);
            }
            if self.pending[at].deadline < earliest {
                earliest = self.pending[at].deadline;
                proof {
                    assert(self@.pending[at as int].deadline == earliest);
                }
            }
            at += 1;
        }
        Some(earliest)
    }

    /// Whether the next command is taken from the normal queue first: after a
    /// burst of high-priority ones it is.
    pub fn prefer_normal(&self) -> (prefer: bool)
        ensures
            prefer == (self@.high_burst >= HIGH_PRIORITY_BURST),
    {
        self.high_burst >= HIGH_PRIORITY_BURST
    }

    /// Takes note of the queue that a command came from.
    pub fn note_command(&mut self, high: bool)
        requires
            old(self).wf(),
        ensures
            final(self).wf(),
            final(self)@ == (OwnerView {
                high_burst: if !high {
                    0
                } else if old(self)@.high_burst == usize::MAX {
                    usize::MAX
                } else {
                    (old(self)@.high_burst + 1) as usize
                },
                ..old(self)@
            }),
    {
        if high {
            self.high_burst = self.high_burst.saturating_add(1);
        } else {
            self.high_burst = 0;
        }
    }

    /// Why the connection ends after a message or command that it may not
    /// survive.
    pub fn fault_exit(&self, cancelled: bool) -> (exit: TransportExit)
        ensures
            exit == if cancelled {
                TransportExit::Cancelled
            } else if self@.policy != RpcProtocolPolicy::Permissive {
                TransportExit::ProtocolViolation
            } else {
                TransportExit::TaskFailed
            },
    {
        if cancelled {
            TransportExit::Cancelled
        } else if self.policy.is_fail_closed_external() {
            TransportExit::ProtocolViolation
        } else {
            TransportExit::TaskFailed
        }
    }

    /// Decides what a report of the transport leads to. A record that could
    /// not be read is drift, or the end of a connection that fails closed.
    pub fn handle_transport(&mut self, report: TransportReport, lane: Lane) -> (step: TransportStep)
        requires
            old(self).wf(),
        ensures
            ended_by(report) matches Some(exit) ==> step == TransportStep::Exit(exit),
            final(self).wf(),
            report != TransportReport::ProtocolError ==> final(self)@ == old(self)@,
            match report {
                TransportReport::ProtocolError => if old(self)@.policy
                    != RpcProtocolPolicy::Permissive {
                    step == TransportStep::Exit(TransportExit::ProtocolViolation) && final(self)@
                        == old(self)@
                } else {
                    match drift(old(self)@, lane) {
                        (next, InboundStepView::Emit { sequence, event, reliable }) => step
                            matches TransportStep::Emit { sequence: number, event: held } && number
                            == sequence && held@ == event && final(self)@ == next,
                        (next, _) => step == TransportStep::Exit(TransportExit::TaskFailed)
                            && final(self)@ == next,
                    }
                },
                TransportReport::ReadError(kind) => step == TransportStep::Exit(
                    TransportExit::ReadError(kind),
                ),
                TransportReport::WriteError(kind) => step == TransportStep::Exit(
                    TransportExit::WriteError(kind),
                ),
                TransportReport::StdoutEof => step == TransportStep::Exit(TransportExit::StdoutEof),
                TransportReport::WebSocketClosed(closed) => step == TransportStep::Exit(
                    TransportExit::WebSocketClosed(closed),
                ),
                TransportReport::ConnectionError => step == TransportStep::Exit(
                    TransportExit::ConnectionFailed,
                ),
                TransportReport::Cancelled => step == TransportStep::Exit(TransportExit::Cancelled),
                TransportReport::StderrLine => step is Continue,
                TransportReport::Ended(exit) => step == TransportStep::Exit(exit),
            },
    {
        match report {
            TransportReport::ProtocolError => {
                if self.policy.is_fail_closed_external() {
                    return TransportStep::Exit(TransportExit::ProtocolViolation);
                }
                match self.note_drift(lane) {
                    InboundStep::Emit { sequence, event, .. } => TransportStep::Emit {
                        sequence,
                        event,
                    },
                    _ => TransportStep::Exit(TransportExit::TaskFailed),
                }
            },
            TransportReport::ReadError(kind) => TransportStep::Exit(TransportExit::ReadError(kind)),
            TransportReport::WriteError(kind) => TransportStep::Exit(
                TransportExit::WriteError(kind),
            ),
            TransportReport::StdoutEof => TransportStep::Exit(TransportExit::StdoutEof),
            TransportReport::WebSocketClosed(closed) => TransportStep::Exit(
                TransportExit::WebSocketClosed(closed),
            ),
            TransportReport::ConnectionError => TransportStep::Exit(
                TransportExit::ConnectionFailed,
            ),
            TransportReport::Cancelled => TransportStep::Exit(TransportExit::Cancelled),
            TransportReport::StderrLine => TransportStep::Continue,
            TransportReport::Ended(exit) => TransportStep::Exit(exit),
        }
    }
}

/// The reason that a closed connection gives: a mere cancellation yields to
/// what the transport itself reports.
pub fn final_exit(exit: TransportExit, transport_exit: TransportExit) -> (reason: TransportExit)
    ensures
        reason == if exit == TransportExit::Cancelled {
            transport_exit
        } else {
            exit
        },
{
    if exit == TransportExit::Cancelled && transport_exit != TransportExit::Cancelled {
        transport_exit
    } else {
        exit
    }
}

/// Why sending a message to the transport failed.
#[derive(Clone, Copy, Debug, PartialEq, Eq, Structural)]
pub enum TransportSendError {
    Protocol,
    Closed,
    Cancelled,
    Io,
}

/// The failure that a requester is told when its message could not be sent.
pub fn map_send_error(
    error: TransportSendError,
    method: &'static str,
    epoch: ConnectionEpoch,
) -> (mapped: RpcError)
    ensures
        mapped == if error == TransportSendError::Protocol {
            RpcError::PayloadTooLarge { method }
        } else {
            RpcError::ConnectionLost(epoch)
        },
{
    match error {
        TransportSendError::Protocol => RpcError::PayloadTooLarge { method },
        _ => RpcError::ConnectionLost(epoch),
    }
}

/// A request is answered once: after a response was taken, its identifier is
/// pending no more, so the same response again is drift.
pub proof fn request_is_answered_once(
    owner: OwnerView,
    id: RequestIdView,
    result: Json,
    facts: InboundFacts,
)
    requires
        owner_bounded(owner),
        is_pending(owner.pending, id),
    ensures
        ({
            let (next, step) = inbound(owner, MessageView::Response { id, result }, facts);
            &&& step == InboundStepView::Reply {
                reply: pending_entry(owner.pending, id).reply,
                outcome: Ok(result),
            }
            &&& !is_pending(next.pending, id)
            &&& inbound(next, MessageView::Response { id, result }, facts) == drift(
                next,
                facts.lane,
            )
        }),
{
    let at = pending_place(owner.pending, id);
    assert(owner.pending[at].id == id);
    let rest = owner.pending.remove(at);
    if is_pending(rest, id) {
        let other = pending_place(rest, id);
        assert(rest[other].id == id);
        if other < at {
            assert(owner.pending[other].id == id);
            assert(owner.pending[other].id != owner.pending[at].id);
        } else {
            assert(owner.pending[other + 1].id == id);
            assert(owner.pending[at].id != owner.pending[other + 1].id);
        }
    }
}

/// A connection that fails closed ends on anything that it did not ask for: a
/// response to no request, a request or a notification that its policy does
/// not admit.
pub proof fn external_connection_fails_closed(
    owner: OwnerView,
    message: MessageView,
    facts: InboundFacts,
)
    requires
        owner.policy != RpcProtocolPolicy::Permissive,
        match message {
            MessageView::Response { id, .. } => !is_pending(owner.pending, id),
            MessageView::ErrorResponse { id, .. } => !is_pending(owner.pending, id),
            MessageView::Request { method, .. } => !admits_request(owner.policy, method),
            MessageView::Notification { method, .. } => !admits_notification(owner.policy, method),
        },
    ensures
        inbound(owner, message, facts) == (owner, InboundStepView::Fault),
{
}

/// An authoritative notification is emitted or ends the connection; it is
/// never dropped.
pub proof fn authoritative_notification_is_never_dropped(
    owner: OwnerView,
    method: Seq<char>,
    params: Option<Json>,
    facts: InboundFacts,
)
    requires
        authoritative_method(method),
    ensures
        !(inbound(owner, MessageView::Notification { method, params }, facts).1 is Dropped),
{
}

/// Events leave in the order in which they were taken in: each one that is
/// emitted has the number after the last.
pub proof fn emitted_events_are_numbered_in_order(
    owner: OwnerView,
    message: MessageView,
    facts: InboundFacts,
)
    ensures
        match inbound(owner, message, facts) {
            (next, InboundStepView::Emit { sequence, .. }) => sequence == owner.sequence
                && next.sequence == owner.sequence + 1,
            (next, _) => next.sequence == owner.sequence,
        },
{
}

/// Every requester gets its own answer: a result under the identifier of a
/// pending request goes to whoever asked it, and so does an error, with the
/// method that was asked and the code that came. The request is pending no
/// more, every other one still is, and nothing else changes.
pub proof fn answers_reach_their_requester(
    owner: OwnerView,
    at: int,
    result: Json,
    error: RpcErrorView,
    facts: InboundFacts,
)
    requires
        owner_bounded(owner),
        0 <= at < owner.pending.len(),
    ensures
        ({
            let asked = owner.pending[at];
            let (told, step) = inbound(
                owner,
                MessageView::Response { id: asked.id, result },
                facts,
            );
            let (refused, refusal) = inbound(
                owner,
                MessageView::ErrorResponse { id: asked.id, error },
                facts,
            );
            &&& step == (InboundStepView::Reply { reply: asked.reply, outcome: Ok(result) })
            &&& refusal == (InboundStepView::Reply {
                reply: asked.reply,
                outcome: Err(RpcError::Server { method: asked.method, code: error.code as i64 }),
            })
            &&& told == refused
            &&& told == (OwnerView { pending: told.pending, ..owner })
            &&& told.pending.len() == owner.pending.len() - 1
            &&& forall|k: int|
                0 <= k < told.pending.len() ==> (#[trigger] told.pending[k]).id != asked.id
            &&& forall|k: int|
                0 <= k < owner.pending.len() && k != at ==> told.pending.contains(
                    #[trigger] owner.pending[k],
                )
        }),
{
    let asked = owner.pending[at];
    let found = pending_place(owner.pending, asked.id);
    assert(owner.pending[found].id == asked.id);
    if found < at {
        assert(owner.pending[found].id != owner.pending[at].id);
    } else if at < found {
        assert(owner.pending[at].id != owner.pending[found].id);
    }
    let rest = owner.pending.remove(at);
    assert forall|k: int| 0 <= k < rest.len() implies (#[trigger] rest[k]).id != asked.id by {
        if k < at {
            assert(owner.pending[k].id != owner.pending[at].id);
        } else {
            assert(owner.pending[at].id != owner.pending[k + 1].id);
        }
    }
    assert forall|k: int| 0 <= k < owner.pending.len() && k != at implies rest.contains(
        #[trigger] owner.pending[k],
    ) by {
        let moved = if k < at {
            k
        } else {
            k - 1
        };
        assert(rest[moved] == owner.pending[k]);
    }
}

/// An answer that nobody waits for answers nobody: it ends a connection that
/// fails closed, and elsewhere it is counted and reported, as long as there is
/// room. What is pending stays so.
pub proof fn stray_answers_are_drift(
    owner: OwnerView,
    id: RequestIdView,
    result: Json,
    error: RpcErrorView,
    facts: InboundFacts,
)
    requires
        forall|k: int| 0 <= k < owner.pending.len() ==> (#[trigger] owner.pending[k]).id != id,
    ensures
        ({
            let (next, step) = inbound(owner, MessageView::Response { id, result }, facts);
            &&& inbound(owner, MessageView::ErrorResponse { id, error }, facts) == (next, step)
            &&& next.pending == owner.pending
            &&& next.server_pending == owner.server_pending
            &&& owner.policy != RpcProtocolPolicy::Permissive ==> step is Fault && next == owner
            &&& owner.policy == RpcProtocolPolicy::Permissive ==> next.drifts == (
            if owner.drifts == u64::MAX {
                u64::MAX
            } else {
                (owner.drifts + 1) as u64
            })
            &&& owner.policy == RpcProtocolPolicy::Permissive && !facts.lane.closed
                && facts.lane.slots > 0 && facts.lane.permits >= 64 && owner.sequence < u64::MAX
                ==> step == (InboundStepView::Emit {
                sequence: owner.sequence,
                event: RpcEventView::ProtocolDrift,
                reliable: false,
            })
            &&& step is Emit || step is Fault
        }),
{
}

/// A request of the server is handed on as it came, over the way that loses
/// nothing, and is owed an answer from then on. It ends the connection instead
/// where its method is not admitted, its identifier is owed an answer already,
/// too many are, or there is no room.
pub proof fn server_requests_are_handed_on(
    owner: OwnerView,
    id: RequestIdView,
    method: Seq<char>,
    params: Option<Json>,
    facts: InboundFacts,
)
    ensures
        ({
            let (next, step) = inbound(owner, MessageView::Request { id, method, params }, facts);
            let fits = byte_len(method) + facts.id_bytes + facts.params_bytes + 192
                <= RPC_RELIABLE_EVENT_BYTE_BUDGET;
            let accepted = admits_request(owner.policy, method) && !owner.server_pending.contains(
                id,
            ) && owner.server_pending.len() < RPC_SERVER_REQUEST_CAPACITY && fits && facts.granted
                && owner.sequence < u64::MAX;
            &&& accepted ==> step == (InboundStepView::Emit {
                sequence: owner.sequence,
                event: RpcEventView::ServerRequest(
                    ServerRequestView { id, method, params, epoch: owner.epoch@ },
                ),
                reliable: true,
            })
            &&& accepted ==> next.server_pending == owner.server_pending.push(id)
                && next.sequence == owner.sequence + 1
            &&& !accepted ==> step is Fault
            &&& next.pending == owner.pending
            &&& next.drifts == owner.drifts && next.dropped == owner.dropped
        }),
{
}

/// A notification is handed on as it came: one that may not be lost over the
/// way that loses nothing, any other over the common way where there is room.
/// Only such another one is ever dropped, and that is counted.
pub proof fn notifications_are_handed_on(
    owner: OwnerView,
    method: Seq<char>,
    params: Option<Json>,
    facts: InboundFacts,
)
    requires
        admits_notification(owner.policy, method),
        owner.sequence < u64::MAX,
    ensures
        ({
            let (next, step) = inbound(
                owner,
                MessageView::Notification { method, params },
                facts,
            );
            let weight = byte_len(method) + facts.params_bytes + 128;
            let event = RpcEventView::Notification { method, params };
            let owed = method == "item/completed"@ || method == "turn/completed"@ || method
                == "error"@ || method == "thread/status/changed"@ || method
                == "thread/settings/updated"@ || method == "thread/queue/changed"@ || method
                == "serverRequest/resolved"@;
            let room = if owed {
                facts.granted && weight <= RPC_RELIABLE_EVENT_BYTE_BUDGET
            } else {
                weight <= RPC_BYTE_BUDGET && weight <= facts.lane.permits && facts.lane.slots > 0
                    && !facts.lane.closed
            };
            &&& room ==> step == (InboundStepView::Emit {
                sequence: owner.sequence,
                event,
                reliable: owed,
            }) && next == (OwnerView { sequence: (owner.sequence + 1) as u64, ..owner })
            &&& !room && owed ==> step is Fault && next == owner
            &&& !room && !owed && facts.lane.closed ==> step is Fault
            &&& !room && !owed && !facts.lane.closed ==> step is Dropped && next == (OwnerView {
                dropped: if owner.dropped == u64::MAX {
                    u64::MAX
                } else {
                    (owner.dropped + 1) as u64
                },
                ..owner
            })
        }),
{
}

/// A request that is sent is the one that was asked, and its answer is waited
/// for until its own deadline by its own requester. Past the deadline nothing
/// is sent and the requester is told so; for a requester that is gone, and
/// where there is no room, nothing is sent and nothing is waited for.
pub proof fn requests_are_sent_and_waited_for(
    owner: OwnerView,
    id: RequestId,
    method: &'static str,
    params: serde_json::Value,
    deadline: u64,
    reply: u64,
    gone: bool,
    pump: Pump,
    now: u64,
)
    ensures
        ({
            let command = RpcCommand::Request {
                id,
                method,
                params,
                deadline,
                reply,
                requester_gone: gone,
            };
            let (next, step) = dispatched(owner, command, pump, now);
            let fresh = forall|k: int|
                0 <= k < owner.pending.len() ==> (#[trigger] owner.pending[k]).id != id@;
            &&& gone ==> step is Skip && next == owner
            &&& !gone && now >= deadline ==> next == owner && step == (DispatchView::Refuse {
                requester: reply,
                error: RpcError::Timeout { method },
            })
            &&& !gone && now < deadline && fresh && pump == Pump::Ready ==> step == (
            DispatchView::Send {
                message: MessageView::Request {
                    id: id@,
                    method: method@,
                    params: Some(json(params)),
                },
            }) && next == (OwnerView {
                pending: owner.pending.push(PendingView { id: id@, method, deadline, reply }),
                ..owner
            })
            &&& !gone && now < deadline && fresh && pump == Pump::Full ==> step is Skip && next
                == owner
            &&& !gone && now < deadline && fresh && pump == Pump::Closed ==> step is Fault && next
                == owner
            &&& !gone && now < deadline && !fresh ==> step is Fault && next.pending.len()
                == owner.pending.len()
            &&& step is Send ==> fresh
        }),
{
}

/// An answer to the server is sent as it is, and only while the server still
/// waits for it: it is owed no more then, so it is never sent twice. Nothing
/// that the server did not ask leaves as an answer.
pub proof fn answers_leave_once(
    owner: OwnerView,
    method: &'static str,
    message: OutboundMessage,
    answers: Option<RequestId>,
    deadline: u64,
    ack: u64,
    gone: bool,
    now: u64,
)
    requires
        owner_bounded(owner),
        now < deadline,
    ensures
        ({
            let command = RpcCommand::Fire {
                method,
                message,
                answers,
                deadline,
                ack,
                requester_gone: gone,
            };
            let (next, step) = dispatched(owner, command, Pump::Ready, now);
            let unwanted = gone && answers is None;
            &&& unwanted ==> step is Skip && next == owner
            &&& !unwanted && answers is None ==> step == (DispatchView::Send { message: message@ })
                && next == owner
            &&& answers matches Some(id) ==> (owner.server_pending.contains(id@) ==> step == (
            DispatchView::Send { message: message@ }) && !next.server_pending.contains(id@)
                && next.server_pending.len() == owner.server_pending.len() - 1 && next.pending
                == owner.pending)
            &&& answers matches Some(id) ==> (!owner.server_pending.contains(id@) ==> next == owner
                && step == (DispatchView::Refuse {
                requester: ack,
                error: RpcError::UnknownServerRequest,
            }))
        }),
{
    match answers {
        Some(id) => {
            if owner.server_pending.contains(id@) {
                let at = owner.server_pending.index_of(id@);
                let rest = owner.server_pending.remove(at);
                assert(owner.server_pending[at] == id@);
                if rest.contains(id@) {
                    let k = choose|k: int| 0 <= k < rest.len() && rest[k] == id@;
                    let from = if k < at {
                        k
                    } else {
                        k + 1
                    };
                    assert(owner.server_pending[from] == id@);
                }
            }
        },
        None => {},
    }
}

/// Past its deadline, or where the transport takes nothing, no answer leaves:
/// its sender is told, and of a transport that takes nothing the connection
/// ends.
pub proof fn unsent_answers_are_reported(
    owner: OwnerView,
    method: &'static str,
    message: OutboundMessage,
    deadline: u64,
    ack: u64,
    pump: Pump,
    now: u64,
)
    ensures
        ({
            let command = RpcCommand::Fire {
                method,
                message,
                answers: None,
                deadline,
                ack,
                requester_gone: false,
            };
            let step = dispatched(owner, command, pump, now).1;
            &&& now >= deadline ==> step == (DispatchView::Refuse {
                requester: ack,
                error: RpcError::Timeout { method },
            })
            &&& now < deadline && pump != Pump::Ready ==> step == (DispatchView::Fault {
                told: Some((ack, RpcError::ConnectionLost(owner.epoch))),
            })
        }),
{
}

/// A sweep tells every requester whose deadline has passed, and nobody else,
/// that its own method timed out; it keeps exactly the requests whose deadline
/// is still to come and whose requester is still there.
pub proof fn sweeps_tell_the_overdue(
    pending: Seq<PendingView>,
    gone: Seq<u64>,
    now: u64,
    entry: PendingView,
    told: (u64, RpcError),
)
    ensures
        still_due(pending, gone, now).contains(entry) <==> pending.contains(entry)
            && entry.deadline > now && !gone.contains(entry.reply),
        overdue(pending, gone, now).contains(told) <==> exists|k: int|
            0 <= k < pending.len() && (#[trigger] pending[k]).reply == told.0
                && pending[k].deadline <= now && !gone.contains(told.0) && told.1
                == (RpcError::Timeout { method: pending[k].method }),
        overdue(pending, gone, now).len() + still_due(pending, gone, now).len() <= pending.len(),
    decreases pending.len(),
{
    if pending.len() > 0 {
        let head = pending.drop_last();
        let last = pending.last();
        sweeps_tell_the_overdue(head, gone, now, entry, told);
        let kept = still_due(head, gone, now);
        let late = overdue(head, gone, now);
        assert(pending[pending.len() - 1] == last);
        assert(pending.contains(entry) <==> head.contains(entry) || entry == last) by {
            if head.contains(entry) {
                let k = choose|k: int| 0 <= k < head.len() && head[k] == entry;
                assert(pending[k] == entry);
            }
            if pending.contains(entry) && entry != last {
                let k = choose|k: int| 0 <= k < pending.len() && pending[k] == entry;
                assert(head[k] == entry);
            }
        }
        assert(kept.push(last).contains(entry) <==> kept.contains(entry) || entry == last) by {
            assert(kept.push(last)[kept.len() as int] == last);
            if kept.contains(entry) {
                let k = choose|k: int| 0 <= k < kept.len() && kept[k] == entry;
                assert(kept.push(last)[k] == entry);
            }
        }
        let notice = (last.reply, RpcError::Timeout { method: last.method });
        assert(late.push(notice).contains(told) <==> late.contains(told) || told == notice) by {
            assert(late.push(notice)[late.len() as int] == notice);
            if late.contains(told) {
                let k = choose|k: int| 0 <= k < late.len() && late[k] == told;
                assert(late.push(notice)[k] == told);
            }
        }
        let holds = |entries: Seq<PendingView>| exists|k: int|
            0 <= k < entries.len() && (#[trigger] entries[k]).reply == told.0
                && entries[k].deadline <= now && !gone.contains(told.0) && told.1
                == (RpcError::Timeout { method: entries[k].method });
        if holds(head) {
            let k = choose|k: int|
                0 <= k < head.len() && (#[trigger] head[k]).reply == told.0 && head[k].deadline
                    <= now && !gone.contains(told.0) && told.1 == (RpcError::Timeout {
                    method: head[k].method,
                });
            assert(pending[k] == head[k]);
        }
        if holds(pending) {
            let k = choose|k: int|
                0 <= k < pending.len() && (#[trigger] pending[k]).reply == told.0
                    && pending[k].deadline <= now && !gone.contains(told.0) && told.1 == (
                RpcError::Timeout { method: pending[k].method });
            if k < head.len() {
                assert(head[k] == pending[k]);
            }
        }
    }
}

/// Every requester that still waits is told the same at the end of the
/// connection, none twice and none left out.
pub proof fn nobody_is_left_waiting(pending: Seq<PendingView>, error: RpcError)
    ensures
        all_told(pending, error).len() == pending.len(),
        forall|k: int|
            0 <= k < pending.len() ==> #[trigger] all_told(pending, error)[k] == (
                pending[k].reply,
                error,
            ),
{
}

/// How a report of the transport ends the connection, where it does by itself.
pub open spec fn ended_by(report: TransportReport) -> Option<TransportExit> {
    match report {
        TransportReport::ProtocolError => None,
        TransportReport::StderrLine => None,
        TransportReport::ReadError(kind) => Some(TransportExit::ReadError(kind)),
        TransportReport::WriteError(kind) => Some(TransportExit::WriteError(kind)),
        TransportReport::StdoutEof => Some(TransportExit::StdoutEof),
        TransportReport::WebSocketClosed(closed) => Some(TransportExit::WebSocketClosed(closed)),
        TransportReport::ConnectionError => Some(TransportExit::ConnectionFailed),
        TransportReport::Cancelled => Some(TransportExit::Cancelled),
        TransportReport::Ended(exit) => Some(exit),
    }
}

/// A connection ends for the reason that the transport gives, in every case but
/// two: a line of diagnostics ends nothing, and a record that cannot be read is
/// judged by the policy.
pub proof fn connections_end_for_their_reason(report: TransportReport, exit: TransportExit)
    ensures
        ended_by(report) is None <==> report is ProtocolError || report is StderrLine,
        ended_by(TransportReport::Ended(exit)) == Some(exit),
        report matches TransportReport::ReadError(kind) ==> ended_by(report) == Some(
            TransportExit::ReadError(kind),
        ),
        report matches TransportReport::WriteError(kind) ==> ended_by(report) == Some(
            TransportExit::WriteError(kind),
        ),
        report matches TransportReport::WebSocketClosed(closed) ==> ended_by(report) == Some(
            TransportExit::WebSocketClosed(closed),
        ),
        ended_by(TransportReport::StdoutEof) == Some(TransportExit::StdoutEof),
        ended_by(TransportReport::ConnectionError) == Some(TransportExit::ConnectionFailed),
        ended_by(TransportReport::Cancelled) == Some(TransportExit::Cancelled),
{
}

} // verus!
