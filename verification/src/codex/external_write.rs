//! Exact-target writes to a shared external endpoint: settings, static
//! failures, and the order in which a writer is admitted.
use vstd::prelude::*;

use crate::codex::external::ExternalCapabilityProfile;
use crate::codex::external::ExternalEndpointGate;
use crate::codex::external_recovery::ExternalEndpointState;
use crate::codex::external_transport::ExternalTransportError;
use crate::codex::reconcile::failure_reason;
use crate::codex::reconcile::EpochFailure;
use crate::codex::reconcile::ExternalUncertaintyReason;
use crate::codex::types::text_bytes;
use crate::codex::types::text_option;
use crate::limits::EXTERNAL_ACTOR_BYTES;
use crate::limits::MAX_OUTBOUND_VALUE_WIRE_BYTES;
use crate::limits::ROUTING_ID_BYTE_LIMIT;
use crate::text::append_span;
use crate::text::byte_len;
use crate::text::same_text;
use crate::text::span_text;
use vstd::string::StringExecFns;

verus! {

/// How a writer is configured. Times are in milliseconds.
pub struct ExternalWriteSettings {
    pub request_timeout_ms: u64,
    pub approval_timeout_ms: u64,
    pub client_actor: String,
    pub approval_actor: String,
    pub approval_reviewer: String,
    pub approval_recipient: String,
}

/// Content of a writer's settings.
pub struct WriteSettingsView {
    pub request_timeout_ms: u64,
    pub approval_timeout_ms: u64,
    pub client_actor: Seq<char>,
    pub approval_actor: Seq<char>,
    pub approval_reviewer: Seq<char>,
    pub approval_recipient: Seq<char>,
}

impl View for ExternalWriteSettings {
    type V = WriteSettingsView;

    open spec fn view(&self) -> WriteSettingsView {
        WriteSettingsView {
            request_timeout_ms: self.request_timeout_ms,
            approval_timeout_ms: self.approval_timeout_ms,
            client_actor: self.client_actor@,
            approval_actor: self.approval_actor@,
            approval_reviewer: self.approval_reviewer@,
            approval_recipient: self.approval_recipient@,
        }
    }
}

/// Whether a name of an actor is neither empty nor too long.
pub open spec fn named_actor(name: Seq<char>) -> bool {
    name.len() > 0 && byte_len(name) <= EXTERNAL_ACTOR_BYTES
}

/// Whether times are positive, names are sound, and the writer, the approval
/// handler and the recipient are three different actors.
pub open spec fn sound_write_settings(settings: WriteSettingsView) -> bool {
    &&& settings.request_timeout_ms > 0
    &&& settings.approval_timeout_ms > 0
    &&& named_actor(settings.client_actor)
    &&& named_actor(settings.approval_actor)
    &&& named_actor(settings.approval_reviewer)
    &&& settings.client_actor != settings.approval_actor
    &&& settings.client_actor != settings.approval_recipient
    &&& settings.approval_actor != settings.approval_recipient
}

fn is_named_actor(name: &str) -> (named: bool)
    ensures
        named == named_actor(name@),
{
    !name.is_empty() && text_bytes(name) <= EXTERNAL_ACTOR_BYTES
}

/// How settings are shown: without the names of actors.
pub open spec fn write_settings_text(settings: WriteSettingsView) -> Seq<char> {
    "ExternalWriteSettings { request_timeout: "@ + span_text(settings.request_timeout_ms)
        + ", approval_timeout: "@ + span_text(settings.approval_timeout_ms)
        + ", client_actor: \"[redacted]\", approval_actor: \"[redacted]\", approval_reviewer: \"[configured]\", .. }"@
}

impl ExternalWriteSettings {
    /// How the settings are shown.
    pub fn debug_text(&self) -> (text: String)
        ensures
            text@ == write_settings_text(self@),
    {
        let mut text = "ExternalWriteSettings { request_timeout: ".to_owned();
        append_span(&mut text, self.request_timeout_ms);
        text.append(", approval_timeout: ");
        append_span(&mut text, self.approval_timeout_ms);
        text.append(
            ", client_actor: \"[redacted]\", approval_actor: \"[redacted]\", approval_reviewer: \"[configured]\", .. }",
        );
        text
    }
}

/// Settings that differ only in the names of actors are shown alike.
pub proof fn shown_settings_hide_actors(left: WriteSettingsView, right: WriteSettingsView)
    requires
        left.request_timeout_ms == right.request_timeout_ms,
        left.approval_timeout_ms == right.approval_timeout_ms,
    ensures
        write_settings_text(left) == write_settings_text(right),
{
}

/// Static failures of a writer.
#[derive(Clone, Copy, Debug, PartialEq, Eq, Structural)]
pub enum ExternalWriteError {
    UnsupportedProfile,
    InvalidSettings,
    Store,
    Transport,
    NotReady,
    Busy,
    Uncertain,
    Unauthorized,
    Conflict,
    Ambiguous,
    Closed,
}

/// What a failure is reported as.
pub open spec fn write_error_text(error: ExternalWriteError) -> Seq<char> {
    match error {
        ExternalWriteError::UnsupportedProfile =>
            "external writes require mutate_shared or queue_shared"@,
        ExternalWriteError::InvalidSettings =>
            "external write settings or parameters are invalid"@,
        ExternalWriteError::Store => "external write durable state failed"@,
        ExternalWriteError::Transport => "external write transport failed"@,
        ExternalWriteError::NotReady => "external thread is not authoritatively ready"@,
        ExternalWriteError::Busy => "external thread already has a writer"@,
        ExternalWriteError::Uncertain => "external thread is fenced by uncertainty"@,
        ExternalWriteError::Unauthorized =>
            "external mutation source does not own the exact target"@,
        ExternalWriteError::Conflict =>
            "external live state conflicts with the exact mutation target"@,
        ExternalWriteError::Ambiguous => "external mutation result is ambiguous and was fenced"@,
        ExternalWriteError::Closed => "external write coordinator is closed"@,
    }
}

impl ExternalWriteError {
    /// What the failure is reported as.
    pub fn to_text(self) -> (text: String)
        ensures
            text@ == write_error_text(self),
    {
        let text: &str = match self {
            ExternalWriteError::UnsupportedProfile =>
                "external writes require mutate_shared or queue_shared",
            ExternalWriteError::InvalidSettings =>
                "external write settings or parameters are invalid",
            ExternalWriteError::Store => "external write durable state failed",
            ExternalWriteError::Transport => "external write transport failed",
            ExternalWriteError::NotReady => "external thread is not authoritatively ready",
            ExternalWriteError::Busy => "external thread already has a writer",
            ExternalWriteError::Uncertain => "external thread is fenced by uncertainty",
            ExternalWriteError::Unauthorized =>
                "external mutation source does not own the exact target",
            ExternalWriteError::Conflict =>
                "external live state conflicts with the exact mutation target",
            ExternalWriteError::Ambiguous => "external mutation result is ambiguous and was fenced",
            ExternalWriteError::Closed => "external write coordinator is closed",
        };
        text.to_owned()
    }
}

/// What a write was applied as.
pub struct ExternalMutationApplied {
    pub result_id: Option<String>,
}

impl View for ExternalMutationApplied {
    type V = Option<Seq<char>>;

    open spec fn view(&self) -> Option<Seq<char>> {
        text_option(self.result_id)
    }
}

impl ExternalMutationApplied {
    /// How the outcome is shown: without the identifier.
    pub fn debug_text(&self) -> (text: &'static str)
        ensures
            text@ == if self@ is Some {
                "ExternalMutationApplied { has_result_id: true }"@
            } else {
                "ExternalMutationApplied { has_result_id: false }"@
            },
    {
        if self.result_id.is_some() {
            "ExternalMutationApplied { has_result_id: true }"
        } else {
            "ExternalMutationApplied { has_result_id: false }"
        }
    }
}

/// Checks settings before anything is opened.
///
/// # Errors
///
/// `InvalidSettings` for settings that are not sound.
pub fn validate_settings(settings: &ExternalWriteSettings) -> (result: Result<
    (),
    ExternalWriteError,
>)
    ensures
        result == if sound_write_settings(settings@) {
            Ok::<(), ExternalWriteError>(())
        } else {
            Err::<(), ExternalWriteError>(ExternalWriteError::InvalidSettings)
        },
{
    if settings.request_timeout_ms == 0 || settings.approval_timeout_ms == 0 || !is_named_actor(
        settings.client_actor.as_str(),
    ) || !is_named_actor(settings.approval_actor.as_str()) || same_text(
        settings.client_actor.as_str(),
        settings.approval_actor.as_str(),
    ) || same_text(settings.client_actor.as_str(), settings.approval_recipient.as_str())
        || same_text(settings.approval_actor.as_str(), settings.approval_recipient.as_str())
        || !is_named_actor(settings.approval_reviewer.as_str()) {
        return Err(ExternalWriteError::InvalidSettings);
    }
    Ok(())
}

/// Whether a command names its intent and its parameters fit on the wire; their
/// encoded length is missing where they could not be encoded.
pub open spec fn sound_command(intent_id: Seq<char>, params_bytes: Option<usize>) -> bool {
    &&& intent_id.len() > 0
    &&& byte_len(intent_id) <= ROUTING_ID_BYTE_LIMIT
    &&& params_bytes is Some
    &&& params_bytes->Some_0 <= MAX_OUTBOUND_VALUE_WIRE_BYTES
}

/// Checks a command before anything is written.
///
/// # Errors
///
/// `InvalidSettings` for a command that is not sound.
pub fn validate_command(intent_id: &str, params_bytes: Option<usize>) -> (result: Result<
    (),
    ExternalWriteError,
>)
    ensures
        result == if sound_command(intent_id@, params_bytes) {
            Ok::<(), ExternalWriteError>(())
        } else {
            Err::<(), ExternalWriteError>(ExternalWriteError::InvalidSettings)
        },
{
    match params_bytes {
        Some(bytes) => if intent_id.is_empty() || text_bytes(intent_id) > ROUTING_ID_BYTE_LIMIT
            || bytes > MAX_OUTBOUND_VALUE_WIRE_BYTES {
            Err(ExternalWriteError::InvalidSettings)
        } else {
            Ok(())
        },
        None => Err(ExternalWriteError::InvalidSettings),
    }
}

/// Checks that a turn is started under the configured approval handling.
///
/// # Errors
///
/// `InvalidSettings` for any other.
pub fn validate_static_approval(
    approval: &Option<String>,
    settings: &ExternalWriteSettings,
) -> (result: Result<(), ExternalWriteError>)
    ensures
        result == if text_option(*approval) == Some(settings@.approval_reviewer) {
            Ok::<(), ExternalWriteError>(())
        } else {
            Err::<(), ExternalWriteError>(ExternalWriteError::InvalidSettings)
        },
{
    match approval {
        Some(text) => if same_text(text.as_str(), settings.approval_reviewer.as_str()) {
            Ok(())
        } else {
            Err(ExternalWriteError::InvalidSettings)
        },
        None => Err(ExternalWriteError::InvalidSettings),
    }
}

/// What a failed read around a write means: a refusal is a conflict, anything
/// unclear is uncertain.
pub open spec fn preflight_error(error: ExternalTransportError) -> ExternalWriteError {
    match error {
        ExternalTransportError::ServerRejected { .. } => ExternalWriteError::Conflict,
        ExternalTransportError::UnsupportedProfile => ExternalWriteError::UnsupportedProfile,
        _ => ExternalWriteError::Uncertain,
    }
}

/// What a failed read around a write means.
pub fn map_preflight_error(error: ExternalTransportError) -> (mapped: ExternalWriteError)
    ensures
        mapped == preflight_error(error),
{
    match error {
        ExternalTransportError::ServerRejected { .. } => ExternalWriteError::Conflict,
        ExternalTransportError::UnsupportedProfile => ExternalWriteError::UnsupportedProfile,
        _ => ExternalWriteError::Uncertain,
    }
}

/// How the store answered a durable transition.
#[derive(Clone, Copy, Debug, PartialEq, Eq, Structural)]
pub enum TransitionOutcome {
    Applied,
    Stale,
    /// The store could not be asked.
    Failed,
}

/// What a durable transition means for a write.
pub open spec fn transition_error(outcome: TransitionOutcome) -> Option<ExternalWriteError> {
    match outcome {
        TransitionOutcome::Applied => None,
        TransitionOutcome::Stale => Some(ExternalWriteError::NotReady),
        TransitionOutcome::Failed => Some(ExternalWriteError::Store),
    }
}

/// What a durable transition means for a write.
pub fn map_transition(outcome: TransitionOutcome) -> (error: Option<ExternalWriteError>)
    ensures
        error == transition_error(outcome),
{
    match outcome {
        TransitionOutcome::Applied => None,
        TransitionOutcome::Stale => Some(ExternalWriteError::NotReady),
        TransitionOutcome::Failed => Some(ExternalWriteError::Store),
    }
}

/// Whether an outcome leaves the writer without knowledge of what it did, so
/// that it must not go on.
pub open spec fn fatal_error(error: Option<ExternalWriteError>) -> bool {
    error == Some(ExternalWriteError::Uncertain) || error == Some(ExternalWriteError::Ambiguous)
}

/// The failure of an outcome.
pub open spec fn error_of<T>(result: Result<T, ExternalWriteError>) -> Option<ExternalWriteError> {
    match result {
        Ok(_) => None,
        Err(error) => Some(error),
    }
}

/// Whether a write's outcome ends the writer.
pub fn is_fatal_result(result: &Result<ExternalMutationApplied, ExternalWriteError>) -> (fatal:
    bool)
    ensures
        fatal == fatal_error(error_of(*result)),
{
    match result {
        Err(ExternalWriteError::Uncertain) => true,
        Err(ExternalWriteError::Ambiguous) => true,
        _ => false,
    }
}

/// How a writer's end is reported: it was asked, answered in time, and its task
/// ended.
///
/// # Errors
///
/// `Closed` where any of that did not happen.
pub fn finish_shutdown(orderly: bool, joined: bool) -> (result: Result<(), ExternalWriteError>)
    ensures
        result == if orderly && joined {
            Ok::<(), ExternalWriteError>(())
        } else {
            Err::<(), ExternalWriteError>(ExternalWriteError::Closed)
        },
{
    if joined && orderly {
        Ok(())
    } else {
        Err(ExternalWriteError::Closed)
    }
}

/// An effect of admitting a writer, to be performed in order.
#[derive(Clone, Copy, Debug, PartialEq, Eq, Structural)]
pub enum AdmissionAction {
    Reserve { reason: ExternalUncertaintyReason },
    Connect { epoch: u64 },
    SetState { epoch: u64, state: ExternalEndpointState },
    Reconcile { epoch: u64 },
    MarkUnavailable { epoch: u64, reason: ExternalUncertaintyReason },
    Abort,
    /// Commands are admitted on this epoch.
    Admit { epoch: u64 },
    /// The writer is not admitted.
    Refuse(ExternalWriteError),
}

/// What happens while a writer is admitted.
#[derive(Clone, Copy, Debug, PartialEq, Eq)]
pub enum AdmissionEvent {
    Reserved { epoch: Option<u64> },
    Connected { connected: bool },
    StateSet { set: bool },
    Reconciled { outcome: Result<(), EpochFailure> },
}

/// What the admission of a writer waits for.
#[derive(Clone, Copy, Debug, PartialEq, Eq, Structural)]
pub enum AdmissionPhase {
    Reserving,
    Connecting { epoch: u64 },
    /// The durable state `Reconciling`.
    Preparing { epoch: u64 },
    Reconciling { epoch: u64 },
    /// The durable state `Ready`.
    Readying { epoch: u64 },
    Admitted { epoch: u64 },
    Refused,
}

/// Whether an event can happen in a phase.
pub open spec fn admission_expected(phase: AdmissionPhase, event: AdmissionEvent) -> bool {
    match phase {
        AdmissionPhase::Reserving => event is Reserved,
        AdmissionPhase::Connecting { .. } => event is Connected,
        AdmissionPhase::Preparing { .. } => event is StateSet,
        AdmissionPhase::Reconciling { .. } => event is Reconciled,
        AdmissionPhase::Readying { .. } => event is StateSet,
        AdmissionPhase::Admitted { .. } => false,
        AdmissionPhase::Refused => false,
    }
}

/// A refusal once the connection is open: the loss is recorded and the
/// connection dropped.
pub open spec fn admission_dropped(
    epoch: u64,
    reason: ExternalUncertaintyReason,
    error: ExternalWriteError,
) -> (AdmissionPhase, Seq<AdmissionAction>) {
    (
        AdmissionPhase::Refused,
        seq![
            AdmissionAction::MarkUnavailable { epoch, reason },
            AdmissionAction::Abort,
            AdmissionAction::Refuse(error),
        ],
    )
}

/// What an event leads to while a writer is admitted.
pub open spec fn admission_stepped(phase: AdmissionPhase, event: AdmissionEvent) -> (
    AdmissionPhase,
    Seq<AdmissionAction>,
) {
    match (phase, event) {
        (AdmissionPhase::Reserving, AdmissionEvent::Reserved { epoch }) => match epoch {
            Some(epoch) => (
                AdmissionPhase::Connecting { epoch },
                seq![AdmissionAction::Connect { epoch }],
            ),
            None => (
                AdmissionPhase::Refused,
                seq![AdmissionAction::Refuse(ExternalWriteError::Store)],
            ),
        },
        (AdmissionPhase::Connecting { epoch }, AdmissionEvent::Connected { connected }) =>
            if connected {
                (
                    AdmissionPhase::Preparing { epoch },
                    seq![
                        AdmissionAction::SetState {
                            epoch,
                            state: ExternalEndpointState::Reconciling,
                        },
                    ],
                )
            } else {
                (
                    AdmissionPhase::Refused,
                    seq![
                        AdmissionAction::MarkUnavailable {
                            epoch,
                            reason: ExternalUncertaintyReason::SocketDisconnect,
                        },
                        AdmissionAction::Refuse(ExternalWriteError::Transport),
                    ],
                )
            },
        (AdmissionPhase::Preparing { epoch }, AdmissionEvent::StateSet { set }) => if set {
            (AdmissionPhase::Reconciling { epoch }, seq![AdmissionAction::Reconcile { epoch }])
        } else {
            admission_dropped(
                epoch,
                ExternalUncertaintyReason::ProtocolViolation,
                ExternalWriteError::Store,
            )
        },
        (AdmissionPhase::Reconciling { epoch }, AdmissionEvent::Reconciled { outcome }) =>
            match outcome {
                Ok(_) => (
                    AdmissionPhase::Readying { epoch },
                    seq![
                        AdmissionAction::SetState { epoch, state: ExternalEndpointState::Ready },
                    ],
                ),
                Err(failure) => admission_dropped(
                    epoch,
                    failure_reason(failure),
                    ExternalWriteError::NotReady,
                ),
            },
        (AdmissionPhase::Readying { epoch }, AdmissionEvent::StateSet { set }) => if set {
            (AdmissionPhase::Admitted { epoch }, seq![AdmissionAction::Admit { epoch }])
        } else {
            admission_dropped(
                epoch,
                ExternalUncertaintyReason::ProtocolViolation,
                ExternalWriteError::Store,
            )
        },
        _ => (phase, Seq::empty()),
    }
}

/// Whether a profile allows writes.
pub open spec fn writing_profile(profile: ExternalCapabilityProfile) -> bool {
    profile == ExternalCapabilityProfile::MutateShared || profile
        == ExternalCapabilityProfile::QueueShared
}

/// The admission of one statically configured writer: it reconciles first, and
/// commands are admitted only on an epoch that is durably ready.
pub struct WriterAdmission {
    phase: AdmissionPhase,
}

impl View for WriterAdmission {
    type V = AdmissionPhase;

    closed spec fn view(&self) -> AdmissionPhase {
        self.phase
    }
}

impl WriterAdmission {
    /// Starts with the reservation of an epoch.
    ///
    /// # Errors
    ///
    /// `UnsupportedProfile` for a gate that does not write, `InvalidSettings`
    /// for settings that are not sound.
    pub fn start(gate: &ExternalEndpointGate, settings: &ExternalWriteSettings) -> (started: Result<
        (WriterAdmission, Vec<AdmissionAction>),
        ExternalWriteError,
    >)
        ensures
            match started {
                Ok((admission, actions)) => {
                    &&& writing_profile(gate@.profile)
                    &&& sound_write_settings(settings@)
                    &&& admission@ == AdmissionPhase::Reserving
                    &&& actions@ == seq![
                        AdmissionAction::Reserve {
                            reason: ExternalUncertaintyReason::BridgeRestart,
                        },
                    ]
                },
                Err(error) => if !writing_profile(gate@.profile) {
                    error == ExternalWriteError::UnsupportedProfile
                } else {
                    error == ExternalWriteError::InvalidSettings && !sound_write_settings(
                        settings@,
                    )
                },
            },
    {
        let writing = match gate.capability_profile() {
            ExternalCapabilityProfile::MutateShared => true,
            ExternalCapabilityProfile::QueueShared => true,
            _ => false,
        };
        if !writing {
            return Err(ExternalWriteError::UnsupportedProfile);
        }
        if let Err(error) = validate_settings(settings) {
            return Err(error);
        }
        Ok(
            (
                WriterAdmission { phase: AdmissionPhase::Reserving },
                vec![
                    AdmissionAction::Reserve { reason: ExternalUncertaintyReason::BridgeRestart },
                ],
            ),
        )
    }

    fn drop_connection(
        &mut self,
        epoch: u64,
        reason: ExternalUncertaintyReason,
        error: ExternalWriteError,
    ) -> (actions: Vec<AdmissionAction>)
        ensures
            (final(self)@, actions@) == admission_dropped(epoch, reason, error),
    {
        self.phase = AdmissionPhase::Refused;
        let actions = vec![
            AdmissionAction::MarkUnavailable { epoch, reason },
            AdmissionAction::Abort,
            AdmissionAction::Refuse(error),
        ];
        proof {
            assert(actions@ =~= admission_dropped(epoch, reason, error).1);
        }
        actions
    }

    /// Takes what happened: the effects, to be performed in order.
    pub fn step(&mut self, event: AdmissionEvent) -> (actions: Vec<AdmissionAction>)
        requires
            admission_expected(old(self)@, event),
        ensures
            (final(self)@, actions@) == admission_stepped(old(self)@, event),
    {
        let actions = match self.phase {
            AdmissionPhase::Reserving => match event {
                AdmissionEvent::Reserved { epoch: Some(epoch) } => {
                    self.phase = AdmissionPhase::Connecting { epoch };
                    vec![AdmissionAction::Connect { epoch }]
                },
                _ => {
                    self.phase = AdmissionPhase::Refused;
                    vec![AdmissionAction::Refuse(ExternalWriteError::Store)]
                },
            },
            AdmissionPhase::Connecting { epoch } => match event {
                AdmissionEvent::Connected { connected: true } => {
                    self.phase = AdmissionPhase::Preparing { epoch };
                    vec![
                        AdmissionAction::SetState {
                            epoch,
                            state: ExternalEndpointState::Reconciling,
                        },
                    ]
                },
                _ => {
                    self.phase = AdmissionPhase::Refused;
                    vec![
                        AdmissionAction::MarkUnavailable {
                            epoch,
                            reason: ExternalUncertaintyReason::SocketDisconnect,
                        },
                        AdmissionAction::Refuse(ExternalWriteError::Transport),
                    ]
                },
            },
            AdmissionPhase::Preparing { epoch } => match event {
                AdmissionEvent::StateSet { set: true } => {
                    self.phase = AdmissionPhase::Reconciling { epoch };
                    vec![AdmissionAction::Reconcile { epoch }]
                },
                _ => self.drop_connection(
                    epoch,
                    ExternalUncertaintyReason::ProtocolViolation,
                    ExternalWriteError::Store,
                ),
            },
            AdmissionPhase::Reconciling { epoch } => match event {
                AdmissionEvent::Reconciled { outcome: Err(failure) } => self.drop_connection(
                    epoch,
                    failure.reason(),
                    ExternalWriteError::NotReady,
                ),
                _ => {
                    self.phase = AdmissionPhase::Readying { epoch };
                    vec![AdmissionAction::SetState { epoch, state: ExternalEndpointState::Ready }]
                },
            },
            AdmissionPhase::Readying { epoch } => match event {
                AdmissionEvent::StateSet { set: true } => {
                    self.phase = AdmissionPhase::Admitted { epoch };
                    vec![AdmissionAction::Admit { epoch }]
                },
                _ => self.drop_connection(
                    epoch,
                    ExternalUncertaintyReason::ProtocolViolation,
                    ExternalWriteError::Store,
                ),
            },
            AdmissionPhase::Admitted { .. } => Vec::new(),
            AdmissionPhase::Refused => Vec::new(),
        };
        proof {
            assert(actions@ =~= admission_stepped(old(self)@, event).1);
        }
        actions
    }
}

/// Commands are admitted only when the epoch was reconciled and its readiness
/// is durable: the step before is the record of `Ready` for the same epoch,
/// which follows the success of that epoch's reconciliation.
pub proof fn writers_are_admitted_last(phase: AdmissionPhase, event: AdmissionEvent, epoch: u64)
    requires
        admission_expected(phase, event),
    ensures
        admission_stepped(phase, event).1.contains(AdmissionAction::Admit { epoch }) ==> phase == (
        AdmissionPhase::Readying { epoch }) && event == (AdmissionEvent::StateSet { set: true }),
        admission_stepped(phase, event).0 == (AdmissionPhase::Readying { epoch }) ==> phase == (
        AdmissionPhase::Reconciling { epoch }) && event is Reconciled && event->outcome is Ok,
{
}

/// An admission goes on step by step on one epoch, the one that was reserved:
/// each success leads to the next step, and commands are admitted at the end.
pub proof fn admissions_keep_their_epoch(epoch: u64)
    ensures
        admission_stepped(
            AdmissionPhase::Reserving,
            AdmissionEvent::Reserved { epoch: Some(epoch) },
        ) == (AdmissionPhase::Connecting { epoch }, seq![AdmissionAction::Connect { epoch }]),
        admission_stepped(
            AdmissionPhase::Connecting { epoch },
            AdmissionEvent::Connected { connected: true },
        ) == (
            AdmissionPhase::Preparing { epoch },
            seq![
                AdmissionAction::SetState { epoch, state: ExternalEndpointState::Reconciling },
            ],
        ),
        admission_stepped(
            AdmissionPhase::Preparing { epoch },
            AdmissionEvent::StateSet { set: true },
        ) == (AdmissionPhase::Reconciling { epoch }, seq![AdmissionAction::Reconcile { epoch }]),
        admission_stepped(
            AdmissionPhase::Reconciling { epoch },
            AdmissionEvent::Reconciled { outcome: Ok(()) },
        ) == (
            AdmissionPhase::Readying { epoch },
            seq![AdmissionAction::SetState { epoch, state: ExternalEndpointState::Ready }],
        ),
        admission_stepped(
            AdmissionPhase::Readying { epoch },
            AdmissionEvent::StateSet { set: true },
        ) == (AdmissionPhase::Admitted { epoch }, seq![AdmissionAction::Admit { epoch }]),
{
}

/// A failed admission marks its epoch unavailable for the reason that it failed
/// for, drops a connection that it has, and says so last; without an epoch
/// there is nothing to mark.
pub proof fn failed_admissions_are_undone(epoch: u64, failure: EpochFailure)
    ensures
        ({
            let unreserved = admission_stepped(
                AdmissionPhase::Reserving,
                AdmissionEvent::Reserved { epoch: None },
            );
            let unconnected = admission_stepped(
                AdmissionPhase::Connecting { epoch },
                AdmissionEvent::Connected { connected: false },
            );
            let unreconciled = admission_stepped(
                AdmissionPhase::Reconciling { epoch },
                AdmissionEvent::Reconciled { outcome: Err(failure) },
            );
            let reason = match failure {
                EpochFailure::ConnectionLost => ExternalUncertaintyReason::SocketDisconnect,
                EpochFailure::RequestTimeout => ExternalUncertaintyReason::RequestTimeout,
                _ => ExternalUncertaintyReason::ProtocolViolation,
            };
            let unset = seq![
                AdmissionAction::MarkUnavailable {
                    epoch,
                    reason: ExternalUncertaintyReason::ProtocolViolation,
                },
                AdmissionAction::Abort,
                AdmissionAction::Refuse(ExternalWriteError::Store),
            ];
            &&& unreserved == (
                AdmissionPhase::Refused,
                seq![AdmissionAction::Refuse(ExternalWriteError::Store)],
            )
            &&& unconnected == (
                AdmissionPhase::Refused,
                seq![
                    AdmissionAction::MarkUnavailable {
                        epoch,
                        reason: ExternalUncertaintyReason::SocketDisconnect,
                    },
                    AdmissionAction::Refuse(ExternalWriteError::Transport),
                ],
            )
            &&& unreconciled == (
                AdmissionPhase::Refused,
                seq![
                    AdmissionAction::MarkUnavailable { epoch, reason },
                    AdmissionAction::Abort,
                    AdmissionAction::Refuse(ExternalWriteError::NotReady),
                ],
            )
            &&& admission_stepped(
                AdmissionPhase::Preparing { epoch },
                AdmissionEvent::StateSet { set: false },
            ) == (AdmissionPhase::Refused, unset)
            &&& admission_stepped(
                AdmissionPhase::Readying { epoch },
                AdmissionEvent::StateSet { set: false },
            ) == (AdmissionPhase::Refused, unset)
        }),
{
}

/// Client, approval handler and recipient are three parties: settings under
/// which two of them coincide, or one has no usable name, are not sound, and
/// any others with both times set are.
pub proof fn roles_are_kept_apart(settings: WriteSettingsView)
    ensures
        ({
            let usable = |name: Seq<char>| name.len() > 0 && byte_len(name) <= EXTERNAL_ACTOR_BYTES;
            sound_write_settings(settings) <==> settings.client_actor != settings.approval_actor
                && settings.approval_actor != settings.approval_recipient
                && settings.approval_recipient != settings.client_actor && usable(
                settings.client_actor,
            ) && usable(settings.approval_actor) && usable(settings.approval_reviewer)
                && settings.request_timeout_ms != 0 && settings.approval_timeout_ms != 0
        }),
{
}

/// A writer goes on after every outcome but those that leave open what it did;
/// writes need a profile that shares them.
pub proof fn only_unclear_outcomes_stop_a_writer(
    error: Option<ExternalWriteError>,
    profile: ExternalCapabilityProfile,
    failed: ExternalTransportError,
    outcome: TransitionOutcome,
)
    ensures
        fatal_error(error) <==> error is Some && (error->Some_0 is Uncertain || error->Some_0
            is Ambiguous),
        writing_profile(profile) <==> profile is MutateShared || profile is QueueShared,
        preflight_error(failed) is Conflict <==> failed is ServerRejected,
        preflight_error(failed) is UnsupportedProfile <==> failed is UnsupportedProfile,
        preflight_error(failed) is Conflict || preflight_error(failed) is UnsupportedProfile
            || preflight_error(failed) is Uncertain,
        transition_error(outcome) is None <==> outcome is Applied,
        transition_error(outcome) == Some(ExternalWriteError::NotReady) <==> outcome is Stale,
        transition_error(outcome) == Some(ExternalWriteError::Store) <==> outcome is Failed,
{
}

} // verus!
