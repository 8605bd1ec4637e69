//! What may be asked over an external connection, by the capability profile
//! that it was admitted with.
use vstd::prelude::*;

use crate::codex::compat::mutate_methods;
use crate::codex::compat::observe_methods;
use crate::codex::compat::profile_methods;
use crate::codex::compat::queue_methods;
use crate::codex::compat::resume_methods;
use crate::codex::compat::shared_list_carried;
use crate::codex::compat::thread_list_carried;
use crate::codex::compat::thread_resume_carried;
use crate::codex::compat::turn_start_carried;
use crate::codex::compat::validate_thread_items_list_params;
use crate::codex::compat::validate_thread_list_params;
use crate::codex::compat::validate_thread_resume_params;
use crate::codex::compat::validate_thread_turns_list_params;
use crate::codex::compat::validate_turn_start_params;
use crate::codex::compat::ThreadItemsListParams;
use crate::codex::compat::ThreadListParams;
use crate::codex::compat::ThreadQueueListParams;
use crate::codex::compat::ThreadReadParams;
use crate::codex::compat::ThreadResumeParams;
use crate::codex::compat::ThreadTurnsListParams;
use crate::codex::compat::TurnStartParams;
use crate::codex::compat::WireAdapter;
use crate::codex::external::wire_profile;
use crate::codex::external::ExternalCapabilityProfile;
use crate::codex::external::ExternalEndpointGate;
use crate::codex::external::ExternalGateReport;
use crate::codex::external::ReportView;
use crate::codex::external_transport::map_rpc_error;
use crate::codex::external_transport::require_mutation;
use crate::codex::external_transport::require_queue;
use crate::codex::external_transport::require_resume;
use crate::codex::external_transport::transport_error;
use crate::codex::external_transport::ApprovalKind;
use crate::codex::external_transport::ExternalTransportError;
use crate::codex::operations::Answer;
use crate::codex::rpc::check_answerable;
use crate::codex::rpc::ConnectionEpoch;
use crate::codex::rpc::LeaseState;
use crate::codex::rpc::RpcError;
use crate::codex::rpc::ServerRequestLease;
use crate::limits::CONTROL_RPC_TIMEOUT_MS;

verus! {

/// An operation on an external endpoint.
#[derive(Clone, Copy, Debug, PartialEq, Eq, Structural)]
pub enum ExternalOperation {
    ListThreads,
    ResumeThread,
    ReadThread,
    ListThreadTurns,
    ListThreadItems,
    StartTurn,
    SteerTurn,
    InterruptTurn,
    AddToQueue,
    ListQueue,
    StartQueued,
}

/// The method of an operation.
pub open spec fn operation_method(operation: ExternalOperation) -> Seq<char> {
    match operation {
        ExternalOperation::ListThreads => "thread/list"@,
        ExternalOperation::ResumeThread => "thread/resume"@,
        ExternalOperation::ReadThread => "thread/read"@,
        ExternalOperation::ListThreadTurns => "thread/turns/list"@,
        ExternalOperation::ListThreadItems => "thread/items/list"@,
        ExternalOperation::StartTurn => "turn/start"@,
        ExternalOperation::SteerTurn => "turn/steer"@,
        ExternalOperation::InterruptTurn => "turn/interrupt"@,
        ExternalOperation::AddToQueue => "thread/queue/add"@,
        ExternalOperation::ListQueue => "thread/queue/list"@,
        ExternalOperation::StartQueued => "thread/queue/start"@,
    }
}

/// Whether a profile offers an operation: every profile lists threads, all but
/// the observing one resume and read them, those that write use turns, and
/// only the queueing one uses queues.
pub open spec fn offered(profile: ExternalCapabilityProfile, operation: ExternalOperation) -> bool {
    match operation {
        ExternalOperation::ListThreads => true,
        ExternalOperation::ResumeThread => profile != ExternalCapabilityProfile::ObserveShared,
        ExternalOperation::ReadThread => profile != ExternalCapabilityProfile::ObserveShared,
        ExternalOperation::ListThreadTurns => profile != ExternalCapabilityProfile::ObserveShared,
        ExternalOperation::ListThreadItems => profile != ExternalCapabilityProfile::ObserveShared,
        ExternalOperation::StartTurn => writes(profile),
        ExternalOperation::SteerTurn => writes(profile),
        ExternalOperation::InterruptTurn => writes(profile),
        ExternalOperation::AddToQueue => profile == ExternalCapabilityProfile::QueueShared,
        ExternalOperation::ListQueue => profile == ExternalCapabilityProfile::QueueShared,
        ExternalOperation::StartQueued => profile == ExternalCapabilityProfile::QueueShared,
    }
}

/// Whether a profile writes.
pub open spec fn writes(profile: ExternalCapabilityProfile) -> bool {
    profile == ExternalCapabilityProfile::MutateShared || profile
        == ExternalCapabilityProfile::QueueShared
}

/// A request that may be sent over an external connection.
pub struct ExternalCall {
    operation: ExternalOperation,
    timeout_ms: u64,
}

/// How the start of an operation ends: with the request, or with the failure
/// of the profile or of its parameters, in this order. `encoded` says that the
/// wire contract carries the parameters.
pub open spec fn begun(
    result: Result<ExternalCall, ExternalTransportError>,
    profile: ExternalCapabilityProfile,
    operation: ExternalOperation,
    timeout_ms: u64,
    encoded: bool,
) -> bool {
    match result {
        Ok(call) => offered(profile, operation) && encoded && call.operation() == operation
            && call.timeout() == timeout_ms,
        Err(error) => if !offered(profile, operation) {
            error == ExternalTransportError::UnsupportedProfile
        } else {
            !encoded && error == ExternalTransportError::ProtocolViolation
        },
    }
}

impl ExternalCall {
    pub closed spec fn operation(&self) -> ExternalOperation {
        self.operation
    }

    pub closed spec fn timeout(&self) -> u64 {
        self.timeout_ms
    }

    fn encoded(operation: ExternalOperation, timeout_ms: u64, encoded: bool) -> (result: Result<
        ExternalCall,
        ExternalTransportError,
    >)
        ensures
            match result {
                Ok(call) => encoded && call.operation() == operation && call.timeout()
                    == timeout_ms,
                Err(error) => !encoded && error == ExternalTransportError::ProtocolViolation,
            },
    {
        if encoded {
            Ok(ExternalCall { operation, timeout_ms })
        } else {
            Err(ExternalTransportError::ProtocolViolation)
        }
    }

    /// The method that is asked for.
    pub fn method(&self) -> (method: &'static str)
        ensures
            method@ == operation_method(self.operation()),
    {
        match self.operation {
            ExternalOperation::ListThreads => "thread/list",
            ExternalOperation::ResumeThread => "thread/resume",
            ExternalOperation::ReadThread => "thread/read",
            ExternalOperation::ListThreadTurns => "thread/turns/list",
            ExternalOperation::ListThreadItems => "thread/items/list",
            ExternalOperation::StartTurn => "turn/start",
            ExternalOperation::SteerTurn => "turn/steer",
            ExternalOperation::InterruptTurn => "turn/interrupt",
            ExternalOperation::AddToQueue => "thread/queue/add",
            ExternalOperation::ListQueue => "thread/queue/list",
            ExternalOperation::StartQueued => "thread/queue/start",
        }
    }

    /// Whether it goes ahead of other traffic.
    pub fn is_high(&self) -> (high: bool)
        ensures
            high == (self.operation() == ExternalOperation::InterruptTurn),
    {
        matches!(self.operation, ExternalOperation::InterruptTurn)
    }

    /// How long its answer is waited for, in milliseconds.
    pub fn timeout_ms(&self) -> (timeout: u64)
        ensures
            timeout == self.timeout(),
    {
        self.timeout_ms
    }

    /// What the answer means.
    ///
    /// # Errors
    ///
    /// The class of the failure, `ProtocolViolation` for an answer that could
    /// not be decoded.
    pub fn answered<T>(self, answer: Answer<T>) -> (result: Result<T, ExternalTransportError>)
        ensures
            result == match answer {
                Ok(Some(value)) => Ok::<T, ExternalTransportError>(value),
                Ok(None) => Err::<T, ExternalTransportError>(
                    ExternalTransportError::ProtocolViolation,
                ),
                Err(error) => Err::<T, ExternalTransportError>(transport_error(error)),
            },
    {
        match answer {
            Ok(Some(value)) => Ok(value),
            Ok(None) => Err(ExternalTransportError::ProtocolViolation),
            Err(error) => Err(map_rpc_error(&error)),
        }
    }
}

/// Reads over an external connection. It offers no change of a turn or a
/// queue, no approval and no process.
pub struct ExternalReadOnlyClient {
    report: ExternalGateReport,
    wire: WireAdapter,
    epoch: ConnectionEpoch,
}

/// Writes over an external connection whose profile writes.
pub struct ExternalMutationClient {
    report: ExternalGateReport,
    wire: WireAdapter,
    epoch: ConnectionEpoch,
}

/// An admitted external connection. It offers no process.
pub struct ExternalReadOnlyConnection {
    report: ExternalGateReport,
    wire: WireAdapter,
    epoch: ConnectionEpoch,
}

impl ExternalReadOnlyConnection {
    pub closed spec fn reported(&self) -> ReportView {
        self.report@
    }

    pub closed spec fn wire(&self) -> WireAdapter {
        self.wire
    }

    pub closed spec fn spec_epoch(&self) -> ConnectionEpoch {
        self.epoch
    }

    /// The connection that a gate admitted.
    pub fn admitted(gate: &ExternalEndpointGate, epoch: ConnectionEpoch) -> (connection:
        ExternalReadOnlyConnection)
        ensures
            connection.reported() == (ReportView {
                label: gate@.label,
                version: gate@.version,
                profile: gate@.profile,
            }),
            connection.wire() == gate@.wire,
            connection.spec_epoch() == epoch,
    {
        ExternalReadOnlyConnection { report: gate.report(), wire: gate.wire(), epoch }
    }

    pub fn report(&self) -> (report: &ExternalGateReport)
        ensures
            report@ == self.reported(),
    {
        &self.report
    }

    pub fn epoch(&self) -> (epoch: ConnectionEpoch)
        ensures
            epoch == self.spec_epoch(),
    {
        self.epoch
    }

    pub fn client(&self) -> (client: ExternalReadOnlyClient)
        ensures
            client.reported() == self.reported(),
            client.wire() == self.wire(),
            client.spec_epoch() == self.spec_epoch(),
    {
        ExternalReadOnlyClient {
            report: self.report.duplicate(),
            wire: self.wire,
            epoch: self.epoch,
        }
    }

    /// A writing client, for a profile that writes only.
    ///
    /// # Errors
    ///
    /// `UnsupportedProfile` for every other profile.
    pub fn mutation_client(&self) -> (client: Result<ExternalMutationClient, ExternalTransportError>)
        ensures
            match client {
                Ok(client) => writes(self.reported().profile) && client.reported()
                    == self.reported() && client.wire() == self.wire() && client.spec_epoch()
                    == self.spec_epoch(),
                Err(error) => !writes(self.reported().profile) && error
                    == ExternalTransportError::UnsupportedProfile,
            },
    {
        match require_mutation(self.report.capability_profile) {
            Ok(()) => Ok(
                ExternalMutationClient {
                    report: self.report.duplicate(),
                    wire: self.wire,
                    epoch: self.epoch,
                },
            ),
            Err(error) => Err(error),
        }
    }
}

impl ExternalReadOnlyClient {
    pub fn report(&self) -> (report: &ExternalGateReport)
        ensures
            report@ == self.reported(),
    {
        &self.report
    }

    pub closed spec fn reported(&self) -> ReportView {
        self.report@
    }

    pub closed spec fn wire(&self) -> WireAdapter {
        self.wire
    }

    pub open spec fn profile(&self) -> ExternalCapabilityProfile {
        self.reported().profile
    }

    pub closed spec fn spec_epoch(&self) -> ConnectionEpoch {
        self.epoch
    }

    pub fn epoch(&self) -> (epoch: ConnectionEpoch)
        ensures
            epoch == self.spec_epoch(),
    {
        self.epoch
    }

    /// Lists threads.
    ///
    /// # Errors
    ///
    /// `ProtocolViolation` for parameters that the wire contract cannot carry
    /// or that could not be converted.
    pub fn list_threads(
        &self,
        params: &ThreadListParams,
        converted: bool,
    ) -> (result: Result<ExternalCall, ExternalTransportError>)
        ensures
            begun(
                result,
                self.profile(),
                ExternalOperation::ListThreads,
                CONTROL_RPC_TIMEOUT_MS,
                thread_list_carried(self.wire(), *params) && converted,
            ),
    {
        self.list_threads_with_timeout(params, converted, CONTROL_RPC_TIMEOUT_MS)
    }

    /// Lists threads with a time bound of the caller.
    ///
    /// # Errors
    ///
    /// `ProtocolViolation` for parameters that the wire contract cannot carry
    /// or that could not be converted.
    pub fn list_threads_with_timeout(
        &self,
        params: &ThreadListParams,
        converted: bool,
        timeout_ms: u64,
    ) -> (result: Result<ExternalCall, ExternalTransportError>)
        ensures
            begun(
                result,
                self.profile(),
                ExternalOperation::ListThreads,
                timeout_ms,
                thread_list_carried(self.wire(), *params) && converted,
            ),
    {
        ExternalCall::encoded(
                ExternalOperation::ListThreads,
                timeout_ms,
                validate_thread_list_params(self.wire, params).is_ok() && converted,
            )
    }

    /// Resumes a thread without admitting any change to its turns.
    ///
    /// # Errors
    ///
    /// `UnsupportedProfile` where the profile does not offer it,
    /// `ProtocolViolation` for parameters that the wire contract cannot carry
    /// or that could not be converted.
    pub fn resume_thread(
        &self,
        params: &ThreadResumeParams,
        converted: bool,
    ) -> (result: Result<ExternalCall, ExternalTransportError>)
        ensures
            begun(
                result,
                self.profile(),
                ExternalOperation::ResumeThread,
                CONTROL_RPC_TIMEOUT_MS,
                thread_resume_carried(*params) && converted,
            ),
    {
        self.resume_thread_with_timeout(params, converted, CONTROL_RPC_TIMEOUT_MS)
    }

    /// Resumes a thread without admitting any change to its turns with a time bound of the caller.
    ///
    /// # Errors
    ///
    /// `UnsupportedProfile` where the profile does not offer it,
    /// `ProtocolViolation` for parameters that the wire contract cannot carry
    /// or that could not be converted.
    pub fn resume_thread_with_timeout(
        &self,
        params: &ThreadResumeParams,
        converted: bool,
        timeout_ms: u64,
    ) -> (result: Result<ExternalCall, ExternalTransportError>)
        ensures
            begun(
                result,
                self.profile(),
                ExternalOperation::ResumeThread,
                timeout_ms,
                thread_resume_carried(*params) && converted,
            ),
    {
        match require_resume(self.report.capability_profile) {
            Ok(()) => ExternalCall::encoded(
                ExternalOperation::ResumeThread,
                timeout_ms,
                validate_thread_resume_params(params).is_ok() && converted,
            ),
            Err(error) => Err(error),
        }
    }

    /// Reads one thread.
    ///
    /// # Errors
    ///
    /// `UnsupportedProfile` where the profile does not offer it,
    /// `ProtocolViolation` for parameters that the wire contract cannot carry
    /// or that could not be converted.
    pub fn read_thread(
        &self,
        _params: &ThreadReadParams,
        converted: bool,
    ) -> (result: Result<ExternalCall, ExternalTransportError>)
        ensures
            begun(
                result,
                self.profile(),
                ExternalOperation::ReadThread,
                CONTROL_RPC_TIMEOUT_MS,
                converted,
            ),
    {
        self.read_thread_with_timeout(_params, converted, CONTROL_RPC_TIMEOUT_MS)
    }

    /// Reads one thread with a time bound of the caller.
    ///
    /// # Errors
    ///
    /// `UnsupportedProfile` where the profile does not offer it,
    /// `ProtocolViolation` for parameters that the wire contract cannot carry
    /// or that could not be converted.
    pub fn read_thread_with_timeout(
        &self,
        _params: &ThreadReadParams,
        converted: bool,
        timeout_ms: u64,
    ) -> (result: Result<ExternalCall, ExternalTransportError>)
        ensures
            begun(
                result,
                self.profile(),
                ExternalOperation::ReadThread,
                timeout_ms,
                converted,
            ),
    {
        match require_resume(self.report.capability_profile) {
            Ok(()) => ExternalCall::encoded(
                ExternalOperation::ReadThread,
                timeout_ms,
                converted,
            ),
            Err(error) => Err(error),
        }
    }

    /// Lists the turns of a thread.
    ///
    /// # Errors
    ///
    /// `UnsupportedProfile` where the profile does not offer it,
    /// `ProtocolViolation` for parameters that the wire contract cannot carry
    /// or that could not be converted.
    pub fn list_thread_turns(
        &self,
        params: &ThreadTurnsListParams,
        converted: bool,
    ) -> (result: Result<ExternalCall, ExternalTransportError>)
        ensures
            begun(
                result,
                self.profile(),
                ExternalOperation::ListThreadTurns,
                CONTROL_RPC_TIMEOUT_MS,
                shared_list_carried(self.wire(), params.sort_direction) && converted,
            ),
    {
        self.list_thread_turns_with_timeout(params, converted, CONTROL_RPC_TIMEOUT_MS)
    }

    /// Lists the turns of a thread with a time bound of the caller.
    ///
    /// # Errors
    ///
    /// `UnsupportedProfile` where the profile does not offer it,
    /// `ProtocolViolation` for parameters that the wire contract cannot carry
    /// or that could not be converted.
    pub fn list_thread_turns_with_timeout(
        &self,
        params: &ThreadTurnsListParams,
        converted: bool,
        timeout_ms: u64,
    ) -> (result: Result<ExternalCall, ExternalTransportError>)
        ensures
            begun(
                result,
                self.profile(),
                ExternalOperation::ListThreadTurns,
                timeout_ms,
                shared_list_carried(self.wire(), params.sort_direction) && converted,
            ),
    {
        match require_resume(self.report.capability_profile) {
            Ok(()) => ExternalCall::encoded(
                ExternalOperation::ListThreadTurns,
                timeout_ms,
                validate_thread_turns_list_params(self.wire, params).is_ok() && converted,
            ),
            Err(error) => Err(error),
        }
    }

    /// Lists the items of a thread.
    ///
    /// # Errors
    ///
    /// `UnsupportedProfile` where the profile does not offer it,
    /// `ProtocolViolation` for parameters that the wire contract cannot carry
    /// or that could not be converted.
    pub fn list_thread_items(
        &self,
        params: &ThreadItemsListParams,
        converted: bool,
    ) -> (result: Result<ExternalCall, ExternalTransportError>)
        ensures
            begun(
                result,
                self.profile(),
                ExternalOperation::ListThreadItems,
                CONTROL_RPC_TIMEOUT_MS,
                shared_list_carried(self.wire(), params.sort_direction) && converted,
            ),
    {
        self.list_thread_items_with_timeout(params, converted, CONTROL_RPC_TIMEOUT_MS)
    }

    /// Lists the items of a thread with a time bound of the caller.
    ///
    /// # Errors
    ///
    /// `UnsupportedProfile` where the profile does not offer it,
    /// `ProtocolViolation` for parameters that the wire contract cannot carry
    /// or that could not be converted.
    pub fn list_thread_items_with_timeout(
        &self,
        params: &ThreadItemsListParams,
        converted: bool,
        timeout_ms: u64,
    ) -> (result: Result<ExternalCall, ExternalTransportError>)
        ensures
            begun(
                result,
                self.profile(),
                ExternalOperation::ListThreadItems,
                timeout_ms,
                shared_list_carried(self.wire(), params.sort_direction) && converted,
            ),
    {
        match require_resume(self.report.capability_profile) {
            Ok(()) => ExternalCall::encoded(
                ExternalOperation::ListThreadItems,
                timeout_ms,
                validate_thread_items_list_params(self.wire, params).is_ok() && converted,
            ),
            Err(error) => Err(error),
        }
    }
}

impl ExternalMutationClient {
    pub fn report(&self) -> (report: &ExternalGateReport)
        ensures
            report@ == self.reported(),
    {
        &self.report
    }

    pub closed spec fn reported(&self) -> ReportView {
        self.report@
    }

    pub closed spec fn wire(&self) -> WireAdapter {
        self.wire
    }

    pub open spec fn profile(&self) -> ExternalCapabilityProfile {
        self.reported().profile
    }

    pub closed spec fn spec_epoch(&self) -> ConnectionEpoch {
        self.epoch
    }

    /// A writing client is only to be had for a profile that writes.
    #[verifier::type_invariant]
    spec fn writing(&self) -> bool {
        writes(self.report.capability_profile)
    }

    pub fn epoch(&self) -> (epoch: ConnectionEpoch)
        ensures
            epoch == self.spec_epoch(),
    {
        self.epoch
    }

    /// Starts a turn of exactly one thread.
    ///
    /// # Errors
    ///
    /// `ProtocolViolation` for parameters that the wire contract cannot carry
    /// or that could not be converted.
    pub fn start_turn(
        &self,
        params: &TurnStartParams,
        converted: bool,
        timeout_ms: u64,
    ) -> (result: Result<ExternalCall, ExternalTransportError>)
        ensures
            begun(
                result,
                self.profile(),
                ExternalOperation::StartTurn,
                timeout_ms,
                turn_start_carried(*params) && converted,
            ),
    {
        proof {
            use_type_invariant(self);
        }
        ExternalCall::encoded(
                ExternalOperation::StartTurn,
                timeout_ms,
                validate_turn_start_params(params).is_ok() && converted,
            )
    }

    /// Steers exactly one active turn.
    ///
    /// # Errors
    ///
    /// `ProtocolViolation` for parameters that the wire contract cannot carry
    /// or that could not be converted.
    pub fn steer_turn(
        &self,
        converted: bool,
        timeout_ms: u64,
    ) -> (result: Result<ExternalCall, ExternalTransportError>)
        ensures
            begun(
                result,
                self.profile(),
                ExternalOperation::SteerTurn,
                timeout_ms,
                self.wire() == WireAdapter::V0_149_0 && converted,
            ),
    {
        proof {
            use_type_invariant(self);
        }
        ExternalCall::encoded(
                ExternalOperation::SteerTurn,
                timeout_ms,
                matches!(self.wire, WireAdapter::V0_149_0) && converted,
            )
    }

    /// Interrupts exactly one active turn, ahead of other traffic.
    ///
    /// # Errors
    ///
    /// `ProtocolViolation` for parameters that the wire contract cannot carry
    /// or that could not be converted.
    pub fn interrupt_turn(
        &self,
        converted: bool,
        timeout_ms: u64,
    ) -> (result: Result<ExternalCall, ExternalTransportError>)
        ensures
            begun(
                result,
                self.profile(),
                ExternalOperation::InterruptTurn,
                timeout_ms,
                converted,
            ),
    {
        proof {
            use_type_invariant(self);
        }
        ExternalCall::encoded(
                ExternalOperation::InterruptTurn,
                timeout_ms,
                converted,
            )
    }

    /// Adds an input to the queue of a thread.
    ///
    /// # Errors
    ///
    /// `UnsupportedProfile` where the profile does not offer it,
    /// `ProtocolViolation` for parameters that the wire contract cannot carry
    /// or that could not be converted.
    pub fn add_to_queue(
        &self,
        converted: bool,
        timeout_ms: u64,
    ) -> (result: Result<ExternalCall, ExternalTransportError>)
        ensures
            begun(
                result,
                self.profile(),
                ExternalOperation::AddToQueue,
                timeout_ms,
                self.wire() == WireAdapter::V0_149_0 && converted,
            ),
    {
        match require_queue(self.report.capability_profile) {
            Ok(()) => ExternalCall::encoded(
                ExternalOperation::AddToQueue,
                timeout_ms,
                matches!(self.wire, WireAdapter::V0_149_0) && converted,
            ),
            Err(error) => Err(error),
        }
    }

    /// Lists the queue of a thread.
    ///
    /// # Errors
    ///
    /// `UnsupportedProfile` where the profile does not offer it,
    /// `ProtocolViolation` for parameters that the wire contract cannot carry
    /// or that could not be converted.
    pub fn list_queue(
        &self,
        _params: &ThreadQueueListParams,
        converted: bool,
        timeout_ms: u64,
    ) -> (result: Result<ExternalCall, ExternalTransportError>)
        ensures
            begun(
                result,
                self.profile(),
                ExternalOperation::ListQueue,
                timeout_ms,
                self.wire() == WireAdapter::V0_149_0 && converted,
            ),
    {
        match require_queue(self.report.capability_profile) {
            Ok(()) => ExternalCall::encoded(
                ExternalOperation::ListQueue,
                timeout_ms,
                matches!(self.wire, WireAdapter::V0_149_0) && converted,
            ),
            Err(error) => Err(error),
        }
    }

    /// Starts a queued input.
    ///
    /// # Errors
    ///
    /// `UnsupportedProfile` where the profile does not offer it,
    /// `ProtocolViolation` for parameters that the wire contract cannot carry
    /// or that could not be converted.
    pub fn start_queued(
        &self,
        converted: bool,
        timeout_ms: u64,
    ) -> (result: Result<ExternalCall, ExternalTransportError>)
        ensures
            begun(
                result,
                self.profile(),
                ExternalOperation::StartQueued,
                timeout_ms,
                self.wire() == WireAdapter::V0_149_0 && converted,
            ),
    {
        match require_queue(self.report.capability_profile) {
            Ok(()) => ExternalCall::encoded(
                ExternalOperation::StartQueued,
                timeout_ms,
                matches!(self.wire, WireAdapter::V0_149_0) && converted,
            ),
            Err(error) => Err(error),
        }
    }

    /// Checks that an approval may be answered with a result of a kind.
    ///
    /// # Errors
    ///
    /// In this order: `ProtocolViolation` for a result of another kind, the
    /// same for one that could not be encoded, `Rpc` for a request that was
    /// asked over another connection or is answered already.
    fn check_answer(
        &self,
        asked: ApprovalKind,
        kind: ApprovalKind,
        encoded: bool,
        request_epoch: ConnectionEpoch,
        lease: &ServerRequestLease,
    ) -> (checked: Result<(), ExternalTransportError>)
        ensures
            checked == answer_checked(
                asked == kind && encoded,
                request_epoch@ == self.spec_epoch()@,
                lease.state,
            ),
    {
        let matching = match (asked, kind) {
            (ApprovalKind::Command, ApprovalKind::Command) => true,
            (ApprovalKind::FileChange, ApprovalKind::FileChange) => true,
            (ApprovalKind::Permissions, ApprovalKind::Permissions) => true,
            _ => false,
        };
        if !matching || !encoded {
            return Err(ExternalTransportError::ProtocolViolation);
        }
        match check_answerable(request_epoch, self.epoch, lease) {
            Ok(()) => Ok(()),
            Err(error) => Err(map_rpc_error(&error)),
        }
    }

    /// Checks that a command approval may be answered over this connection.
    ///
    /// # Errors
    ///
    /// `ProtocolViolation` for an approval of another kind or a result that
    /// could not be encoded, `Rpc` for a request that was asked over another
    /// connection or is answered already.
    pub fn respond_command_approval(
        &self,
        asked: ApprovalKind,
        encoded: bool,
        request_epoch: ConnectionEpoch,
        lease: &ServerRequestLease,
    ) -> (checked: Result<(), ExternalTransportError>)
        ensures
            checked == answer_checked(
                asked == ApprovalKind::Command && encoded,
                request_epoch@ == self.spec_epoch()@,
                lease.state,
            ),
    {
        self.check_answer(asked, ApprovalKind::Command, encoded, request_epoch, lease)
    }

    /// Checks that a file-change approval may be answered over this connection.
    ///
    /// # Errors
    ///
    /// `ProtocolViolation` for an approval of another kind or a result that
    /// could not be encoded, `Rpc` for a request that was asked over another
    /// connection or is answered already.
    pub fn respond_file_change_approval(
        &self,
        asked: ApprovalKind,
        encoded: bool,
        request_epoch: ConnectionEpoch,
        lease: &ServerRequestLease,
    ) -> (checked: Result<(), ExternalTransportError>)
        ensures
            checked == answer_checked(
                asked == ApprovalKind::FileChange && encoded,
                request_epoch@ == self.spec_epoch()@,
                lease.state,
            ),
    {
        self.check_answer(asked, ApprovalKind::FileChange, encoded, request_epoch, lease)
    }

    /// Checks that a permissions approval may be answered over this connection.
    ///
    /// # Errors
    ///
    /// `ProtocolViolation` for an approval of another kind or a result that
    /// could not be encoded, `Rpc` for a request that was asked over another
    /// connection or is answered already.
    pub fn respond_permissions_approval(
        &self,
        asked: ApprovalKind,
        encoded: bool,
        request_epoch: ConnectionEpoch,
        lease: &ServerRequestLease,
    ) -> (checked: Result<(), ExternalTransportError>)
        ensures
            checked == answer_checked(
                asked == ApprovalKind::Permissions && encoded,
                request_epoch@ == self.spec_epoch()@,
                lease.state,
            ),
    {
        self.check_answer(asked, ApprovalKind::Permissions, encoded, request_epoch, lease)
    }

    /// Gives an approval up that cannot be routed. Success ends the connection.
    ///
    /// # Errors
    ///
    /// `Rpc` for a request that was asked over another connection or is
    /// answered already; nothing changes.
    pub fn abandon_approval(&self, request_epoch: ConnectionEpoch, lease: &mut ServerRequestLease) -> (
    abandoned: Result<(), ExternalTransportError>)
        ensures
            abandoned == answer_checked(
                true,
                request_epoch@ == self.spec_epoch()@,
                old(lease).state,
            ),
            final(lease).state == if abandoned is Ok {
                LeaseState::Resolved
            } else {
                old(lease).state
            },
    {
        match check_answerable(request_epoch, self.epoch, lease) {
            Ok(()) => {
                lease.abandon_if_armed();
                Ok(())
            },
            Err(error) => Err(map_rpc_error(&error)),
        }
    }
}

/// Whether an approval may be answered: the result fits, and the request was
/// asked over the same connection and is answered by nobody yet.
pub open spec fn answer_checked(fits: bool, same_epoch: bool, state: LeaseState) -> Result<
    (),
    ExternalTransportError,
> {
    if !fits {
        Err(ExternalTransportError::ProtocolViolation)
    } else if !same_epoch || state != LeaseState::Armed {
        Err(transport_error(RpcError::UnknownServerRequest))
    } else {
        Ok(())
    }
}

/// Whatever a profile offers is asked by a method that the profile's wire
/// contract requires of the server.
pub proof fn offered_operations_are_in_the_contract(
    profile: ExternalCapabilityProfile,
    operation: ExternalOperation,
)
    requires
        offered(profile, operation),
    ensures
        profile_methods(wire_profile(profile)).contains(operation_method(operation)),
{
    let observe = observe_methods();
    let resume = resume_methods();
    let mutate = mutate_methods();
    let queue = queue_methods();
    assert(observe[1] == "thread/list"@ && observe[2] == "thread/read"@);
    assert(resume[1] == observe[1] && resume[2] == observe[2]);
    assert(resume[3] == "thread/resume"@);
    assert(resume[5] == "thread/turns/list"@ && resume[6] == "thread/items/list"@);
    assert forall|k: int| 0 <= k < 7 implies mutate[k] == #[trigger] resume[k] by {}
    assert(mutate[7] == "turn/start"@ && mutate[8] == "turn/steer"@ && mutate[9]
        == "turn/interrupt"@);
    assert forall|k: int| 0 <= k < 10 implies queue[k] == #[trigger] mutate[k] by {}
    assert(queue[10] == "thread/queue/add"@ && queue[11] == "thread/queue/list"@ && queue[12]
        == "thread/queue/start"@);
    let at: int = match operation {
        ExternalOperation::ListThreads => 1,
        ExternalOperation::ReadThread => 2,
        ExternalOperation::ResumeThread => 3,
        ExternalOperation::ListThreadTurns => 5,
        ExternalOperation::ListThreadItems => 6,
        ExternalOperation::StartTurn => 7,
        ExternalOperation::SteerTurn => 8,
        ExternalOperation::InterruptTurn => 9,
        ExternalOperation::AddToQueue => 10,
        ExternalOperation::ListQueue => 11,
        ExternalOperation::StartQueued => 12,
    };
    assert(profile_methods(wire_profile(profile))[at] == operation_method(operation));
}

/// An operation is offered exactly by the profiles that are made for it:
/// listing by all, reading and resuming by all but the observer, writing by the
/// two that share writes, the queue by the one that shares it. More is offered
/// by the larger profile.
pub proof fn operations_are_offered_by_their_profiles(
    profile: ExternalCapabilityProfile,
    operation: ExternalOperation,
)
    ensures
        offered(ExternalCapabilityProfile::ObserveShared, operation) <==> operation is ListThreads,
        offered(ExternalCapabilityProfile::ResumeShared, operation) <==> operation is ListThreads
            || operation is ResumeThread || operation is ReadThread || operation is ListThreadTurns
            || operation is ListThreadItems,
        offered(ExternalCapabilityProfile::MutateShared, operation) <==> offered(
            ExternalCapabilityProfile::ResumeShared,
            operation,
        ) || operation is StartTurn || operation is SteerTurn || operation is InterruptTurn,
        offered(ExternalCapabilityProfile::QueueShared, operation),
        offered(profile, operation) ==> offered(ExternalCapabilityProfile::QueueShared, operation),
{
}

/// Different operations are different methods, each its own.
pub proof fn operations_have_their_own_method(one: ExternalOperation, other: ExternalOperation)
    requires
        operation_method(one) == operation_method(other),
    ensures
        one == other,
{
    reveal_strlit("thread/list");
    reveal_strlit("thread/resume");
    reveal_strlit("thread/read");
    reveal_strlit("thread/turns/list");
    reveal_strlit("thread/items/list");
    reveal_strlit("turn/start");
    reveal_strlit("turn/steer");
    reveal_strlit("turn/interrupt");
    reveal_strlit("thread/queue/add");
    reveal_strlit("thread/queue/list");
    reveal_strlit("thread/queue/start");
    assert("thread/list"@.len() == 11 && "thread/read"@.len() == 11 && "thread/list"@[7] == 'l'
        && "thread/read"@[7] == 'r');
    assert("thread/resume"@.len() == 13);
    assert("thread/turns/list"@.len() == 17 && "thread/items/list"@.len() == 17
        && "thread/queue/list"@.len() == 17 && "thread/turns/list"@[7] == 't'
        && "thread/items/list"@[7] == 'i' && "thread/queue/list"@[7] == 'q');
    assert("turn/start"@.len() == 10 && "turn/steer"@.len() == 10 && "turn/start"@[7] == 'a'
        && "turn/steer"@[7] == 'e');
    assert("turn/interrupt"@.len() == 14);
    assert("thread/queue/add"@.len() == 16 && "thread/queue/start"@.len() == 18);
}

/// A call is begun under its own operation and time exactly where the profile
/// offers it and its parameters could be encoded.
pub proof fn offered_calls_are_begun(
    result: Result<ExternalCall, ExternalTransportError>,
    profile: ExternalCapabilityProfile,
    operation: ExternalOperation,
    timeout_ms: u64,
    encoded: bool,
)
    requires
        begun(result, profile, operation, timeout_ms, encoded),
    ensures
        result is Ok <==> offered(profile, operation) && encoded,
        result matches Ok(call) ==> call.operation() == operation && call.timeout() == timeout_ms,
        !offered(profile, operation) ==> result == Err::<ExternalCall, ExternalTransportError>(
            ExternalTransportError::UnsupportedProfile,
        ),
        offered(profile, operation) && !encoded ==> result == Err::<
            ExternalCall,
            ExternalTransportError,
        >(ExternalTransportError::ProtocolViolation),
{
}

/// An approval is answered exactly where the answer fits it, on the connection
/// that it came by, and while nobody has answered it.
pub proof fn fitting_answers_are_given(fits: bool, same_epoch: bool, state: LeaseState)
    ensures
        answer_checked(fits, same_epoch, state) is Ok <==> fits && same_epoch && state
            == LeaseState::Armed,
        !fits ==> answer_checked(fits, same_epoch, state) == Err::<(), ExternalTransportError>(
            ExternalTransportError::ProtocolViolation,
        ),
        fits && !(same_epoch && state == LeaseState::Armed) ==> answer_checked(
            fits,
            same_epoch,
            state,
        ) == Err::<(), ExternalTransportError>(ExternalTransportError::Rpc),
{
}

} // verus!
