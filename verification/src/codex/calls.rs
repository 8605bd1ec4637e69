//! The order of the steps of operations that must not be repeated. Each step
//! is only to be had from the one before it.
use vstd::prelude::*;

use crate::codex::client::routable;
use crate::codex::client::valid_routing_id;
use crate::codex::compat::thread_list_carried;
use crate::codex::compat::thread_resume_carried;
use crate::codex::compat::thread_start_carried;
use crate::codex::compat::turn_start_carried;
use crate::codex::compat::validate_thread_list_params;
use crate::codex::compat::validate_thread_resume_params;
use crate::codex::compat::validate_thread_start_params;
use crate::codex::compat::validate_turn_start_params;
use crate::codex::compat::ThreadListParams;
use crate::codex::compat::ThreadResumeParams;
use crate::codex::compat::ThreadStartParams;
use crate::codex::compat::TurnStartParams;
use crate::codex::compat::WireAdapter;
use crate::codex::operations::failed_request_fate;
use crate::codex::operations::finish_thread;
use crate::codex::operations::finish_turn;
use crate::codex::operations::not_applied;
use crate::codex::operations::router_accepted;
use crate::codex::operations::settle_answer;
use crate::codex::operations::Answer;
use crate::codex::operations::ClientError;
use crate::codex::operations::GuardFate;
use crate::codex::operations::RouterAnswer;
use crate::codex::operations::Thread;
use crate::codex::rpc::ConnectionEpoch;
use crate::codex::rpc::RpcError;
use crate::codex::types::Turn;

verus! {

/// What an answer of the router means for the caller, where it is no success.
pub open spec fn router_error(answer: RouterAnswer, epoch: ConnectionEpoch) -> Option<ClientError> {
    match answer {
        RouterAnswer::Accepted => None,
        RouterAnswer::Refused => Some(ClientError::Capacity),
        RouterAnswer::Closed => Some(ClientError::RouterClosed(epoch)),
        RouterAnswer::TimedOut => Some(ClientError::RouterTimeout(epoch)),
    }
}

/// Checks that parameters were encoded within the wire contract.
///
/// # Errors
///
/// `Serialize` for the method where they were not.
pub fn encode_params(method: &'static str, encoded: bool) -> (result: Result<(), ClientError>)
    ensures
        result == if encoded {
            Ok::<(), ClientError>(())
        } else {
            Err::<(), ClientError>(ClientError::Rpc(RpcError::Serialize { method }))
        },
{
    if encoded {
        Ok(())
    } else {
        Err(ClientError::Rpc(RpcError::Serialize { method }))
    }
}

/// Checks the parameters of a thread list; `converted` says that the wire form
/// could be built of them.
///
/// # Errors
///
/// `Serialize` for parameters outside the wire contract. Nothing was sent.
pub fn list_threads(wire: WireAdapter, params: &ThreadListParams, converted: bool) -> (checked:
    Result<(), ClientError>)
    ensures
        checked == if thread_list_carried(wire, *params) && converted {
            Ok::<(), ClientError>(())
        } else {
            Err::<(), ClientError>(ClientError::Rpc(RpcError::Serialize { method: "thread/list" }))
        },
{
    let carried = validate_thread_list_params(wire, params).is_ok();
    encode_params("thread/list", carried && converted)
}

/// A thread request whose route is being made sure of.
pub struct EnsuringThread {
    params: ThreadResumeParams,
    epoch: ConnectionEpoch,
}

/// A thread request that is to be sent, under a guard.
pub struct RequestingThread {
    method: &'static str,
}

/// A thread that the server confirmed and the router is to track.
pub struct ObservingThread {
    method: &'static str,
    thread: Thread,
}

impl EnsuringThread {
    pub closed spec fn held(&self) -> ThreadResumeParams {
        self.params
    }

    pub closed spec fn epoch(&self) -> ConnectionEpoch {
        self.epoch
    }

    /// Resumes a thread: its route comes first.
    ///
    /// # Errors
    ///
    /// `Capacity` for a thread that cannot be addressed.
    pub fn resume_thread(params: ThreadResumeParams, epoch: ConnectionEpoch) -> (begun: Result<
        EnsuringThread,
        ClientError,
    >)
        ensures
            match begun {
                Ok(call) => routable(params.thread_id@) && call.held() == params && call.epoch()
                    == epoch,
                Err(error) => !routable(params.thread_id@) && error == ClientError::Capacity,
            },
    {
        if valid_routing_id(params.thread_id.as_str()) {
            Ok(EnsuringThread { params, epoch })
        } else {
            Err(ClientError::Capacity)
        }
    }

    /// The parameters that the thread is resumed with.
    pub fn params(&self) -> (params: &ThreadResumeParams)
        ensures
            *params == self.held(),
    {
        &self.params
    }

    /// Goes on once the route is there and the parameters can be carried;
    /// `converted` says that the wire form could be built of them.
    ///
    /// # Errors
    ///
    /// Why there is no route, or `Serialize`. Nothing was sent.
    pub fn ensured(self, answer: RouterAnswer, converted: bool) -> (next: Result<
        RequestingThread,
        ClientError,
    >)
        ensures
            ({
                let encoded = thread_resume_carried(self.held()) && converted;
                match next {
                    Ok(call) => router_error(answer, self.epoch()) is None && encoded
                        && call.method() == "thread/resume",
                    Err(error) => match router_error(answer, self.epoch()) {
                        Some(refusal) => error == refusal,
                        None => !encoded && error == ClientError::Rpc(
                            RpcError::Serialize { method: "thread/resume" },
                        ),
                    },
                }
            }),
    {
        if let Err(error) = router_accepted(answer, self.epoch) {
            return Err(error);
        }
        let carried = validate_thread_resume_params(&self.params).is_ok();
        match encode_params("thread/resume", carried && converted) {
            Ok(()) => Ok(RequestingThread { method: "thread/resume" }),
            Err(error) => Err(error),
        }
    }
}

impl RequestingThread {
    pub closed spec fn method(&self) -> &'static str {
        self.method
    }

    /// Creates a thread: its parameters come first. `converted` says that the
    /// wire form could be built of them.
    ///
    /// # Errors
    ///
    /// `Serialize` for parameters outside the wire contract. Nothing was sent.
    pub fn start_thread(wire: WireAdapter, params: &ThreadStartParams, converted: bool) -> (begun:
        Result<RequestingThread, ClientError>)
        ensures
            ({
                let encoded = thread_start_carried(wire, *params) && converted;
                match begun {
                    Ok(call) => encoded && call.method() == "thread/start",
                    Err(error) => !encoded && error == ClientError::Rpc(
                        RpcError::Serialize { method: "thread/start" },
                    ),
                }
            }),
    {
        let carried = validate_thread_start_params(wire, params).is_ok();
        match encode_params("thread/start", carried && converted) {
            Ok(()) => Ok(RequestingThread { method: "thread/start" }),
            Err(error) => Err(error),
        }
    }

    /// Takes the answer to the request: the router is to know the confirmed thread.
    ///
    /// # Errors
    ///
    /// The failure, and what becomes of the guard.
    pub fn answered(self, answer: Answer<Thread>) -> (next: Result<
        ObservingThread,
        (ClientError, GuardFate),
    >)
        ensures
            match answer {
                Ok(Some(thread)) => next is Ok && next->Ok_0.thread() == thread
                    && next->Ok_0.method() == self.method(),
                Ok(None) => next == Err::<ObservingThread, (ClientError, GuardFate)>(
                    (
                        ClientError::Rpc(RpcError::Deserialize { method: self.method() }),
                        GuardFate::FailClosed,
                    ),
                ),
                Err(error) => next == Err::<ObservingThread, (ClientError, GuardFate)>(
                    (ClientError::Rpc(error), failed_request_fate(error)),
                ),
            },
    {
        match settle_answer(self.method, answer) {
            Ok(thread) => Ok(ObservingThread { method: self.method, thread }),
            Err(failure) => Err(failure),
        }
    }
}

impl ObservingThread {
    pub closed spec fn method(&self) -> &'static str {
        self.method
    }

    pub closed spec fn thread(&self) -> Thread {
        self.thread
    }

    /// The identifier that the router is to track, where it can.
    pub fn tracked_id(&self) -> (id: Option<&str>)
        ensures
            id is Some == routable(self.thread().id@),
            id is Some ==> id->Some_0@ == self.thread().id@,
    {
        if valid_routing_id(self.thread.id.as_str()) {
            Some(self.thread.id.as_str())
        } else {
            None
        }
    }

    /// Finishes: the caller gets the thread only once the router tracks it.
    ///
    /// # Errors
    ///
    /// `ConfirmedThreadUntracked` where it does not; the connection ends.
    pub fn observed(self, answer: RouterAnswer) -> (finished: (
        Result<Thread, ClientError>,
        GuardFate,
    ))
        ensures
            answer == RouterAnswer::Accepted && routable(self.thread().id@) ==> finished.0 == Ok::<
                Thread,
                ClientError,
            >(self.thread()) && finished.1 == GuardFate::Disarm,
            !(answer == RouterAnswer::Accepted && routable(self.thread().id@)) ==> finished.1
                == GuardFate::FailClosed && (finished.0 matches Err(
                ClientError::ConfirmedThreadUntracked { method: named, thread: held },
            ) && named == self.method() && *held == self.thread()),
    {
        let known = if valid_routing_id(self.thread.id.as_str()) {
            answer
        } else {
            RouterAnswer::Refused
        };
        finish_thread(self.method, self.thread, known)
    }
}

/// A turn whose route is being made sure of.
pub struct EnsuringTurn {
    epoch: ConnectionEpoch,
}

/// A turn whose start is being announced to the router.
pub struct BeginningTurn {
    epoch: ConnectionEpoch,
}

/// A turn that is to be requested, under a guard.
pub struct RequestingTurn {
    epoch: ConnectionEpoch,
}

/// A turn that the server confirmed and the router is to track.
pub struct ObservingTurn {
    confirmed: Turn,
}

impl EnsuringTurn {
    pub closed spec fn epoch(&self) -> ConnectionEpoch {
        self.epoch
    }

    /// Starts a turn: its parameters come first, then its route. `converted`
    /// says that the wire form could be built of them.
    ///
    /// # Errors
    ///
    /// `Serialize` for parameters outside the wire contract, `Capacity` for a
    /// thread that cannot be addressed.
    pub fn start_turn(params: &TurnStartParams, converted: bool, epoch: ConnectionEpoch) -> (begun:
        Result<EnsuringTurn, ClientError>)
        ensures
            ({
                let encoded = turn_start_carried(*params) && converted;
                match begun {
                    Ok(call) => encoded && routable(params.thread_id@) && call.epoch() == epoch,
                    Err(error) => if !encoded {
                        error == ClientError::Rpc(RpcError::Serialize { method: "turn/start" })
                    } else {
                        !routable(params.thread_id@) && error == ClientError::Capacity
                    },
                }
            }),
    {
        let carried = validate_turn_start_params(params).is_ok();
        if let Err(error) = encode_params("turn/start", carried && converted) {
            return Err(error);
        }
        if valid_routing_id(params.thread_id.as_str()) {
            Ok(EnsuringTurn { epoch })
        } else {
            Err(ClientError::Capacity)
        }
    }

    /// Goes on once the route is there.
    ///
    /// # Errors
    ///
    /// Why there is none. Nothing was sent.
    pub fn ensured(self, answer: RouterAnswer) -> (next: Result<BeginningTurn, ClientError>)
        ensures
            match router_error(answer, self.epoch()) {
                None => next is Ok && next->Ok_0.epoch() == self.epoch(),
                Some(error) => next == Err::<BeginningTurn, ClientError>(error),
            },
    {
        match router_accepted(answer, self.epoch) {
            Ok(()) => Ok(BeginningTurn { epoch: self.epoch }),
            Err(error) => Err(error),
        }
    }
}

impl BeginningTurn {
    pub closed spec fn epoch(&self) -> ConnectionEpoch {
        self.epoch
    }

    /// Goes on once the router expects the turn.
    ///
    /// # Errors
    ///
    /// Why it does not. Nothing was sent.
    pub fn begun(self, answer: RouterAnswer) -> (next: Result<RequestingTurn, ClientError>)
        ensures
            match router_error(answer, self.epoch()) {
                None => next is Ok && next->Ok_0.epoch() == self.epoch(),
                Some(error) => next == Err::<RequestingTurn, ClientError>(error),
            },
    {
        match router_accepted(answer, self.epoch) {
            Ok(()) => Ok(RequestingTurn { epoch: self.epoch }),
            Err(error) => Err(error),
        }
    }
}

impl RequestingTurn {
    pub closed spec fn epoch(&self) -> ConnectionEpoch {
        self.epoch
    }

    /// Takes the answer to the request: the router is to know the confirmed turn.
    ///
    /// # Errors
    ///
    /// The failure, and what becomes of the guard.
    pub fn answered(self, answer: Answer<Turn>) -> (next: Result<
        ObservingTurn,
        (ClientError, GuardFate),
    >)
        ensures
            match answer {
                Ok(Some(turn)) => next is Ok && next->Ok_0.confirmed() == turn,
                Ok(None) => next == Err::<ObservingTurn, (ClientError, GuardFate)>(
                    (
                        ClientError::Rpc(RpcError::Deserialize { method: "turn/start" }),
                        GuardFate::FailClosed,
                    ),
                ),
                Err(error) => next == Err::<ObservingTurn, (ClientError, GuardFate)>(
                    (ClientError::Rpc(error), failed_request_fate(error)),
                ),
            },
    {
        match settle_answer("turn/start", answer) {
            Ok(confirmed) => Ok(ObservingTurn { confirmed }),
            Err(failure) => Err(failure),
        }
    }
}

impl ObservingTurn {
    pub closed spec fn confirmed(&self) -> Turn {
        self.confirmed
    }

    /// The confirmed turn.
    pub fn turn(&self) -> (turn: &Turn)
        ensures
            *turn == self.confirmed(),
    {
        &self.confirmed
    }

    /// Finishes: the caller gets the turn, as the router knows it, only once
    /// the router tracks it.
    ///
    /// # Errors
    ///
    /// `ConfirmedTurnUntracked` where it does not; the connection ends.
    pub fn observed(self, known: Option<Turn>) -> (finished: (
        Result<Turn, ClientError>,
        GuardFate,
    ))
        ensures
            match known {
                Some(turn) => finished.0 == Ok::<Turn, ClientError>(turn) && finished.1
                    == GuardFate::Disarm,
                None => finished.1 == GuardFate::FailClosed && (finished.0 matches Err(
                    ClientError::ConfirmedTurnUntracked { turn },
                ) && *turn == self.confirmed()),
            },
    {
        finish_turn(self.confirmed, known)
    }
}

/// A request that may have been applied ends the connection unless its outcome
/// is known: only a failure that rules out any effect spares it.
pub proof fn unknown_outcomes_end_the_connection(error: RpcError)
    ensures
        failed_request_fate(error) == GuardFate::FailClosed <==> !not_applied(error),
{
}

/// What the router answered decides the failure: no room, gone, or too late,
/// each for the connection of the call.
pub proof fn router_answers_decide_the_failure(answer: RouterAnswer, epoch: ConnectionEpoch)
    ensures
        router_error(answer, epoch) is None <==> answer is Accepted,
        router_error(answer, epoch) == Some(ClientError::Capacity) <==> answer is Refused,
        router_error(answer, epoch) == Some(ClientError::RouterClosed(epoch)) <==> answer is Closed,
        router_error(answer, epoch) == Some(ClientError::RouterTimeout(epoch)) <==> answer
            is TimedOut,
{
}

} // verus!
