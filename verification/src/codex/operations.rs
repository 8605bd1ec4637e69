//! Client operations that must not be repeated: what each step's outcome
//! means for the caller and for the connection.
use vstd::prelude::*;

use crate::codex::client::routable;
use crate::codex::client::valid_routing_id;
use crate::codex::client::ThreadId;
use crate::codex::client::TurnId;
use crate::codex::compat::WireAdapter;
use crate::codex::rpc::error_text;
use crate::codex::rpc::ConnectionEpoch;
use crate::codex::rpc::RpcError;
use crate::codex::types::TransportExit;
use crate::codex::types::Turn;
use crate::text::append_decimal;
use crate::text::decimal;
use crate::text::same_text;
use vstd::string::StringExecFns;

verus! {

/// Reverse request that the bridge answers.
pub const DYNAMIC_TOOL_CALL_METHOD: &'static str = "item/tool/call";

/// A persisted conversation.
#[derive(Clone)]
pub struct Thread {
    pub id: String,
    pub body: serde_json::Value,
}

/// Safe failures of a client operation.
pub enum ClientError {
    Rpc(RpcError),
    RouterClosed(ConnectionEpoch),
    RouterTaskFailed(ConnectionEpoch),
    RouterTimeout(ConnectionEpoch),
    Capacity,
    ControlEventsTaken,
    ConfirmedThreadUntracked { method: &'static str, thread: Box<Thread> },
    ConfirmedTurnUntracked { turn: Box<Turn> },
    InvalidNotification { method: String },
}

/// What a failure is reported as.
pub open spec fn client_error_text(error: ClientError) -> Seq<char> {
    match error {
        ClientError::Rpc(error) => error_text(error),
        ClientError::RouterClosed(epoch) => "client router for epoch "@ + decimal(epoch@ as nat)
            + " is closed"@,
        ClientError::RouterTaskFailed(epoch) => "client router for epoch "@ + decimal(epoch@ as nat)
            + " failed"@,
        ClientError::RouterTimeout(epoch) => "client router for epoch "@ + decimal(epoch@ as nat)
            + " timed out"@,
        ClientError::Capacity => "client routing capacity is exhausted"@,
        ClientError::ControlEventsTaken => "client control event stream already has an owner"@,
        ClientError::ConfirmedThreadUntracked { method, .. } => "RPC "@ + method@
            + " was confirmed but its local event projection was lost"@,
        ClientError::ConfirmedTurnUntracked { .. } =>
            "RPC turn/start was confirmed but its local event projection was lost"@,
        ClientError::InvalidNotification { method } => "invalid app-server notification for "@
            + method@,
    }
}

fn about_epoch(epoch: ConnectionEpoch, tail: &str) -> (text: String)
    ensures
        text@ == "client router for epoch "@ + decimal(epoch@ as nat) + tail@,
{
    let mut text = "client router for epoch ".to_owned();
    append_decimal(&mut text, epoch.get());
    text.append(tail);
    text
}

/// Whether a failed request is known not to have reached a point where the
/// server could act on it.
pub open spec fn not_applied(error: RpcError) -> bool {
    ||| error is Serialize
    ||| error is PayloadTooLarge
    ||| error is RequestIdExhausted
    ||| error is Server
}

/// Whether a failed request is known not to have been applied.
pub fn definitely_not_applied(error: &RpcError) -> (held: bool)
    ensures
        held == not_applied(*error),
{
    matches!(
        error,
        RpcError::Serialize { .. } | RpcError::PayloadTooLarge { .. } | RpcError::RequestIdExhausted
        | RpcError::Server { .. }
    )
}

impl ClientError {
    /// What the failure is reported as.
    pub fn to_text(&self) -> (text: String)
        ensures
            text@ == client_error_text(*self),
    {
        match self {
            ClientError::Rpc(error) => error.to_text(),
            ClientError::RouterClosed(epoch) => about_epoch(*epoch, " is closed"),
            ClientError::RouterTaskFailed(epoch) => about_epoch(*epoch, " failed"),
            ClientError::RouterTimeout(epoch) => about_epoch(*epoch, " timed out"),
            ClientError::Capacity => "client routing capacity is exhausted".to_owned(),
            ClientError::ControlEventsTaken =>
                "client control event stream already has an owner".to_owned(),
            ClientError::ConfirmedThreadUntracked { method, .. } => {
                let mut text = "RPC ".to_owned();
                text.append(method);
                text.append(" was confirmed but its local event projection was lost");
                text
            },
            ClientError::ConfirmedTurnUntracked { .. } =>
                "RPC turn/start was confirmed but its local event projection was lost".to_owned(),
            ClientError::InvalidNotification { method } => {
                let mut text = "invalid app-server notification for ".to_owned();
                text.append(method.as_str());
                text
            },
        }
    }

    /// Reports whether a failed `turn/start` is known not to have reached a
    /// point where Codex could execute it. Callers may finalize local
    /// resources at once only in this case; every other error remains
    /// uncertain until the owning connection epoch ends.
    pub fn turn_start_definitely_not_applied(&self) -> (held: bool)
        ensures
            held == (match *self {
                ClientError::Rpc(error) => not_applied(error),
                ClientError::ConfirmedThreadUntracked { .. } => false,
                ClientError::ConfirmedTurnUntracked { .. } => false,
                _ => true,
            }),
    {
        match self {
            ClientError::Rpc(error) => definitely_not_applied(error),
            ClientError::RouterClosed(_) => true,
            ClientError::RouterTaskFailed(_) => true,
            ClientError::RouterTimeout(_) => true,
            ClientError::Capacity => true,
            ClientError::ControlEventsTaken => true,
            ClientError::InvalidNotification { .. } => true,
            ClientError::ConfirmedThreadUntracked { .. } => false,
            ClientError::ConfirmedTurnUntracked { .. } => false,
        }
    }
}

/// What the router answered to a request.
#[derive(Clone, Copy, Debug, PartialEq, Eq, Structural)]
pub enum RouterAnswer {
    Accepted,
    Refused,
    Closed,
    TimedOut,
}

/// What an answer of the router means for the caller.
pub fn router_accepted(answer: RouterAnswer, epoch: ConnectionEpoch) -> (accepted: Result<
    (),
    ClientError,
>)
    ensures
        match answer {
            RouterAnswer::Accepted => accepted is Ok,
            RouterAnswer::Refused => accepted == Err::<(), ClientError>(ClientError::Capacity),
            RouterAnswer::Closed => accepted == Err::<(), ClientError>(
                ClientError::RouterClosed(epoch),
            ),
            RouterAnswer::TimedOut => accepted == Err::<(), ClientError>(
                ClientError::RouterTimeout(epoch),
            ),
        },
{
    match answer {
        RouterAnswer::Accepted => Ok(()),
        RouterAnswer::Refused => Err(ClientError::Capacity),
        RouterAnswer::Closed => Err(ClientError::RouterClosed(epoch)),
        RouterAnswer::TimedOut => Err(ClientError::RouterTimeout(epoch)),
    }
}

/// Checks that a thread may be addressed at all.
pub fn check_thread(thread_id: &ThreadId) -> (checked: Result<(), ClientError>)
    ensures
        checked == if routable(thread_id@) {
            Ok::<(), ClientError>(())
        } else {
            Err::<(), ClientError>(ClientError::Capacity)
        },
{
    if thread_id.is_valid() {
        Ok(())
    } else {
        Err(ClientError::Capacity)
    }
}

/// Checks that a turn may be interrupted by its identifiers.
pub fn check_interrupt(thread_id: &ThreadId, turn_id: &TurnId) -> (checked: Result<(), ClientError>)
    ensures
        checked == if routable(thread_id@) && routable(turn_id@) {
            Ok::<(), ClientError>(())
        } else {
            Err::<(), ClientError>(ClientError::Capacity)
        },
{
    if thread_id.is_valid() && valid_routing_id(turn_id.as_str()) {
        Ok(())
    } else {
        Err(ClientError::Capacity)
    }
}

/// Checks that a request of the server is the one that the bridge decodes.
pub fn check_dynamic_tool_call(method: &str) -> (checked: Result<(), ClientError>)
    ensures
        checked == if method@ == DYNAMIC_TOOL_CALL_METHOD@ {
            Ok::<(), ClientError>(())
        } else {
            Err::<(), ClientError>(ClientError::Rpc(RpcError::UnknownServerRequest))
        },
{
    if same_text(method, DYNAMIC_TOOL_CALL_METHOD) {
        Ok(())
    } else {
        Err(ClientError::Rpc(RpcError::UnknownServerRequest))
    }
}

/// What becomes of the guard around an operation that must not be repeated.
#[derive(Clone, Copy, Debug, PartialEq, Eq, Structural)]
pub enum GuardFate {
    /// The operation is settled.
    Disarm,
    /// The operation is known to have had no effect; local state is released.
    Abort,
    /// What the operation did is not known; the connection ends with a fault.
    FailClosed,
}

/// What a failed request leaves behind.
pub open spec fn failed_request_fate(error: RpcError) -> GuardFate {
    if not_applied(error) {
        GuardFate::Abort
    } else {
        GuardFate::FailClosed
    }
}

/// The answer to a request: the decoded value, nothing where the answer could
/// not be decoded, or a failure.
pub type Answer<T> = Result<Option<T>, RpcError>;

/// What the answer to a request that must not be repeated means: the value to
/// track, or the failure with what it leaves behind. An answer that cannot be
/// decoded leaves it unknown what was done.
pub fn settle_answer<T>(method: &'static str, answer: Answer<T>) -> (settled: Result<
    T,
    (ClientError, GuardFate),
>)
    ensures
        match answer {
            Ok(Some(value)) => settled == Ok::<T, (ClientError, GuardFate)>(value),
            Ok(None) => settled == Err::<T, (ClientError, GuardFate)>(
                (ClientError::Rpc(RpcError::Deserialize { method }), GuardFate::FailClosed),
            ),
            Err(error) => settled == Err::<T, (ClientError, GuardFate)>(
                (ClientError::Rpc(error), failed_request_fate(error)),
            ),
        },
{
    match answer {
        Ok(Some(value)) => Ok(value),
        Ok(None) => Err(
            (ClientError::Rpc(RpcError::Deserialize { method }), GuardFate::FailClosed),
        ),
        Err(error) => {
            let fate = if definitely_not_applied(&error) {
                GuardFate::Abort
            } else {
                GuardFate::FailClosed
            };
            Err((ClientError::Rpc(error), fate))
        },
    }
}

/// Finishes a started or resumed thread: the caller gets it only once the
/// router tracks it. A confirmed thread that is not tracked ends the
/// connection.
pub fn finish_thread(method: &'static str, thread: Thread, observed: RouterAnswer) -> (finished: (
    Result<Thread, ClientError>,
    GuardFate,
))
    ensures
        observed == RouterAnswer::Accepted ==> finished.0 == Ok::<Thread, ClientError>(thread)
            && finished.1 == GuardFate::Disarm,
        observed != RouterAnswer::Accepted ==> finished.1 == GuardFate::FailClosed && (
        finished.0 matches Err(ClientError::ConfirmedThreadUntracked { method: named, thread: held })
            && named == method && *held == thread),
{
    match observed {
        RouterAnswer::Accepted => (Ok(thread), GuardFate::Disarm),
        _ => (
            Err(ClientError::ConfirmedThreadUntracked { method, thread: Box::new(thread) }),
            GuardFate::FailClosed,
        ),
    }
}

/// Finishes a started turn: the caller gets it only once the router tracks
/// it. A confirmed turn that is not tracked ends the connection.
pub fn finish_turn(confirmed: Turn, observed: Option<Turn>) -> (finished: (
    Result<Turn, ClientError>,
    GuardFate,
))
    ensures
        match observed {
            Some(turn) => finished.0 == Ok::<Turn, ClientError>(turn) && finished.1
                == GuardFate::Disarm,
            None => finished.1 == GuardFate::FailClosed && (finished.0 matches Err(
                ClientError::ConfirmedTurnUntracked { turn },
            ) && *turn == confirmed),
        },
{
    match observed {
        Some(turn) => (Ok(turn), GuardFate::Disarm),
        None => (
            Err(ClientError::ConfirmedTurnUntracked { turn: Box::new(confirmed) }),
            GuardFate::FailClosed,
        ),
    }
}

/// Opaque proof that a client uses a wire contract with the exact semantics of
/// adopting a persisted thread.
#[derive(Clone, Copy, Debug, PartialEq, Eq)]
pub struct ThreadAdoptionContract(());

/// The proof, where the contract has it.
pub fn thread_adoption_contract(wire: WireAdapter) -> (contract: Option<ThreadAdoptionContract>)
    ensures
        contract is Some == (wire == WireAdapter::V0_149_0),
{
    if wire.supports_adoption() {
        Some(ThreadAdoptionContract(()))
    } else {
        None
    }
}

/// How far the handshake of a connection has come.
#[derive(Clone, Copy, Debug, PartialEq, Eq, Structural)]
pub enum InitializeState {
    New,
    Running,
    Ready,
    Failed,
}

/// How a handshake ended.
#[derive(Clone, Copy, PartialEq, Eq)]
pub enum HandshakeOutcome {
    /// The parameters could not be encoded.
    ParamsInvalid,
    /// The request failed.
    RequestFailed(RpcError),
    /// The answer could not be decoded.
    ResponseInvalid,
    /// The answer names a home directory that is not absolute.
    HomeNotAbsolute,
    /// The confirmation could not be sent.
    ConfirmationFailed(RpcError),
    /// Everything went through.
    Confirmed,
}

/// The failure that a handshake ends with, if any.
pub open spec fn handshake_error(outcome: HandshakeOutcome) -> Option<RpcError> {
    match outcome {
        HandshakeOutcome::ParamsInvalid => Some(RpcError::Serialize { method: "initialize" }),
        HandshakeOutcome::RequestFailed(error) => Some(error),
        HandshakeOutcome::ResponseInvalid => Some(RpcError::Deserialize { method: "initialize" }),
        HandshakeOutcome::HomeNotAbsolute => Some(RpcError::Deserialize { method: "initialize" }),
        HandshakeOutcome::ConfirmationFailed(error) => Some(error),
        HandshakeOutcome::Confirmed => None,
    }
}

/// The handshake of one connection, which happens at most once.
#[derive(Clone, Copy, Debug, PartialEq, Eq, Structural)]
pub struct Handshake {
    pub state: InitializeState,
}

impl Handshake {
    pub fn new() -> (handshake: Handshake)
        ensures
            handshake.state == InitializeState::New,
    {
        Handshake { state: InitializeState::New }
    }

    /// Starts the handshake; any earlier attempt on the connection forbids it.
    pub fn begin(&mut self) -> (begun: Result<(), RpcError>)
        ensures
            begun is Ok == (old(self).state == InitializeState::New),
            begun is Ok ==> final(self).state == InitializeState::Running,
            begun matches Err(error) ==> error == RpcError::AlreadyInitialized && *final(self)
                == *old(self),
    {
        if self.state == InitializeState::New {
            self.state = InitializeState::Running;
            Ok(())
        } else {
            Err(RpcError::AlreadyInitialized)
        }
    }

    /// Ends the handshake.
    pub fn finish(&mut self, outcome: HandshakeOutcome) -> (finished: Result<(), RpcError>)
        requires
            old(self).state == InitializeState::Running,
        ensures
            match handshake_error(outcome) {
                None => finished is Ok && final(self).state == InitializeState::Ready,
                Some(error) => finished == Err::<(), RpcError>(error) && final(self).state
                    == InitializeState::Failed,
            },
    {
        let error = match outcome {
            HandshakeOutcome::ParamsInvalid => RpcError::Serialize { method: "initialize" },
            HandshakeOutcome::RequestFailed(error) => error,
            HandshakeOutcome::ResponseInvalid => RpcError::Deserialize { method: "initialize" },
            HandshakeOutcome::HomeNotAbsolute => RpcError::Deserialize { method: "initialize" },
            HandshakeOutcome::ConfirmationFailed(error) => error,
            HandshakeOutcome::Confirmed => {
                self.state = InitializeState::Ready;
                return Ok(());
            },
        };
        self.state = InitializeState::Failed;
        Err(error)
    }
}

/// The task that routes for one client, and how it ended.
#[derive(Clone, Copy, Debug, PartialEq, Eq, Structural)]
pub struct RouterLifecycle {
    pub running: bool,
    pub exit: Option<TransportExit>,
    pub failed: bool,
}

impl RouterLifecycle {
    /// The result of an earlier shutdown, where there was one; nothing while
    /// the task still has to be joined.
    pub fn settled(&self, epoch: ConnectionEpoch) -> (result: Option<
        Result<TransportExit, ClientError>,
    >)
        ensures
            match self.exit {
                Some(exit) => result == Some(Ok::<TransportExit, ClientError>(exit)),
                None => if self.failed || !self.running {
                    result == Some(
                        Err::<TransportExit, ClientError>(ClientError::RouterTaskFailed(epoch)),
                    )
                } else {
                    result is None
                },
            },
    {
        match self.exit {
            Some(exit) => Some(Ok(exit)),
            None => if self.failed || !self.running {
                Some(Err(ClientError::RouterTaskFailed(epoch)))
            } else {
                None
            },
        }
    }

    /// Takes note of how the joined task ended; nothing where it panicked or
    /// was aborted.
    pub fn join(&mut self, joined: Option<TransportExit>, epoch: ConnectionEpoch) -> (result: Result<
        TransportExit,
        ClientError,
    >)
        ensures
            match joined {
                Some(exit) => result == Ok::<TransportExit, ClientError>(exit) && *final(self) == (
                RouterLifecycle { running: false, exit: Some(exit), failed: old(self).failed }),
                None => result == Err::<TransportExit, ClientError>(
                    ClientError::RouterTaskFailed(epoch),
                ) && *final(self) == (RouterLifecycle {
                    running: false,
                    exit: old(self).exit,
                    failed: true,
                }),
            },
    {
        self.running = false;
        match joined {
            Some(exit) => {
                self.exit = Some(exit);
                Ok(exit)
            },
            None => {
                self.failed = true;
                Err(ClientError::RouterTaskFailed(epoch))
            },
        }
    }
}

/// A request counts as not applied exactly where it never left, or the server
/// itself refused it; of a lost answer or a late one that is not known.
pub proof fn lost_answers_may_have_been_applied(error: RpcError)
    ensures
        not_applied(error) <==> error is Serialize || error is PayloadTooLarge || error
            is RequestIdExhausted || error is Server,
        error is Timeout || error is ConnectionLost || error is Deserialize
            ==> failed_request_fate(error) == GuardFate::FailClosed,
        error is Server || error is Serialize || error is PayloadTooLarge || error
            is RequestIdExhausted ==> failed_request_fate(error) == GuardFate::Abort,
{
}

/// A handshake ends well exactly where everything went through, and hands on
/// the failure of its request or its confirmation.
pub proof fn handshakes_end_as_they_went(outcome: HandshakeOutcome)
    ensures
        handshake_error(outcome) is None <==> outcome is Confirmed,
        outcome matches HandshakeOutcome::RequestFailed(error) ==> handshake_error(outcome)
            == Some(error),
        outcome matches HandshakeOutcome::ConfirmationFailed(error) ==> handshake_error(outcome)
            == Some(error),
        outcome is ResponseInvalid || outcome is HomeNotAbsolute ==> handshake_error(outcome)
            == Some(RpcError::Deserialize { method: "initialize" }),
        outcome is ParamsInvalid ==> handshake_error(outcome) == Some(
            RpcError::Serialize { method: "initialize" },
        ),
{
}

} // verus!
