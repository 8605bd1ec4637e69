//! The admission of an external socket, step by step: a handshake that names
//! the exact version, then one read-only canary.
use vstd::prelude::*;

use crate::codex::external::check_capability;
use crate::codex::external::classify_connect_error;
use crate::codex::external::gate_message;
use crate::codex::external::names_version;
use crate::codex::external::ExternalEndpointGate;
use crate::codex::external::ExternalGateError;
use crate::codex::external::GateFrame;
use crate::codex::external::GateReceive;
use crate::codex::external::GateStage;
use crate::codex::external::GateWait;
use crate::json::json;
use crate::json::Json;
use crate::limits::EXTERNAL_GATE_CANARY_ROWS;
use crate::limits::EXTERNAL_GATE_MAX_MESSAGES;
use crate::limits::EXTERNAL_GATE_MESSAGE_BYTES;
use crate::limits::EXTERNAL_GATE_TOTAL_BYTES;
use crate::version::VersionView;

verus! {

/// How opening the socket went.
#[derive(Clone, Copy, Debug, PartialEq, Eq)]
pub enum ConnectOutcome {
    Connected,
    /// The endpoint makes no request.
    RequestInvalid,
    /// The credential makes no header.
    HeaderInvalid,
    /// It failed, with the status of a refused upgrade if there was one.
    Failed { status: Option<u16> },
}

/// How sending a message went.
#[derive(Clone, Copy, Debug, PartialEq, Eq, Structural)]
pub enum SendOutcome {
    Sent,
    /// Its parameters are outside the wire contract.
    ParamsInvalid,
    /// It makes no record.
    Unencodable,
    Failed,
}

/// What an admission does next.
pub enum GateAction {
    Connect,
    SendInitialize,
    Receive,
    /// Decode the answer to the handshake.
    DecodeInitialize { answer: serde_json::Value },
    SendInitialized,
    SendCapability,
    /// Decode the answer to the canary.
    DecodeCapability { answer: serde_json::Value },
    Admit,
    Refuse(ExternalGateError),
}

/// Content of what an admission does next.
pub enum GateActionView {
    Connect,
    SendInitialize,
    Receive,
    DecodeInitialize { answer: Json },
    SendInitialized,
    SendCapability,
    DecodeCapability { answer: Json },
    Admit,
    Refuse(ExternalGateError),
}

impl View for GateAction {
    type V = GateActionView;

    open spec fn view(&self) -> GateActionView {
        match *self {
            GateAction::Connect => GateActionView::Connect,
            GateAction::SendInitialize => GateActionView::SendInitialize,
            GateAction::Receive => GateActionView::Receive,
            GateAction::DecodeInitialize { answer } => GateActionView::DecodeInitialize {
                answer: json(answer),
            },
            GateAction::SendInitialized => GateActionView::SendInitialized,
            GateAction::SendCapability => GateActionView::SendCapability,
            GateAction::DecodeCapability { answer } => GateActionView::DecodeCapability {
                answer: json(answer),
            },
            GateAction::Admit => GateActionView::Admit,
            GateAction::Refuse(error) => GateActionView::Refuse(error),
        }
    }
}

/// What happens to an admission.
pub enum GateEvent {
    /// The time for the whole admission is over.
    TimedOut,
    Connected { outcome: ConnectOutcome },
    Sent { outcome: SendOutcome },
    Received { frame: GateFrame },
    /// The user agent that the handshake's answer names; nothing where it could
    /// not be decoded.
    InitializeDecoded { user_agent: Option<String> },
    /// The rows of the canary's answer; nothing where it could not be decoded.
    CapabilityDecoded { rows: Option<usize> },
}

/// The wait for an answer, as far as it has come.
pub struct WaitView {
    pub frames_left: int,
    pub total_bytes: int,
}

/// What an admission waits for.
pub enum GatePhase {
    Connecting,
    SendingInitialize,
    AwaitingInitialize(WaitView),
    DecodingInitialize,
    SendingInitialized,
    SendingCapability,
    AwaitingCapability(WaitView),
    DecodingCapability,
    Admitted,
    Refused,
}

/// A step of an admission.
pub type GateStep = (GatePhase, GateActionView);

/// The admission is refused.
pub open spec fn refused(error: ExternalGateError) -> GateStep {
    (GatePhase::Refused, GateActionView::Refuse(error))
}

/// The wait for an answer, before any frame came.
pub open spec fn fresh_wait() -> WaitView {
    WaitView { frames_left: EXTERNAL_GATE_MAX_MESSAGES as int, total_bytes: 0 }
}

/// What a frame leads to in a wait: the wait after it and the answer, where it
/// came, or why the admission fails.
pub open spec fn wait_stepped(stage: GateStage, wait: WaitView, frame: GateFrame) -> Result<
    (WaitView, Option<Json>),
    ExternalGateError,
> {
    let left = wait.frames_left - 1;
    match frame {
        GateFrame::Ended => Err(ExternalGateError::ConnectionFailed),
        GateFrame::Other => Err(ExternalGateError::ProtocolViolation),
        GateFrame::Control => if left == 0 {
            Err(ExternalGateError::ProtocolViolation)
        } else {
            Ok((WaitView { frames_left: left, ..wait }, None))
        },
        GateFrame::Text { length, message } => if length > EXTERNAL_GATE_MESSAGE_BYTES
            || wait.total_bytes + length > EXTERNAL_GATE_TOTAL_BYTES {
            Err(ExternalGateError::ProtocolViolation)
        } else {
            match message {
                None => Err(ExternalGateError::ProtocolViolation),
                Some(message) => match gate_message(stage, message@) {
                    Err(error) => Err(error),
                    Ok(Some(answer)) => Ok(
                        (
                            WaitView {
                                frames_left: left,
                                total_bytes: wait.total_bytes + length,
                            },
                            Some(answer),
                        ),
                    ),
                    Ok(None) => if left == 0 {
                        Err(ExternalGateError::ProtocolViolation)
                    } else {
                        Ok(
                            (
                                WaitView {
                                    frames_left: left,
                                    total_bytes: wait.total_bytes + length,
                                },
                                None,
                            ),
                        )
                    },
                },
            }
        },
    }
}

/// Why a message was not sent, where it was not.
pub open spec fn send_error(outcome: SendOutcome, capability: bool) -> Option<ExternalGateError> {
    match outcome {
        SendOutcome::Sent => None,
        SendOutcome::ParamsInvalid => Some(
            if capability {
                ExternalGateError::UnsupportedCapabilityProfile
            } else {
                ExternalGateError::ProtocolViolation
            },
        ),
        SendOutcome::Unencodable => Some(ExternalGateError::ProtocolViolation),
        SendOutcome::Failed => Some(ExternalGateError::ConnectionFailed),
    }
}

/// Whether an event can happen in a phase.
pub open spec fn gate_expected(phase: GatePhase, event: GateEvent) -> bool {
    match phase {
        GatePhase::Connecting => event is TimedOut || event is Connected,
        GatePhase::SendingInitialize => event is TimedOut || event is Sent,
        GatePhase::AwaitingInitialize(_) => event is TimedOut || event is Received,
        GatePhase::DecodingInitialize => event is InitializeDecoded,
        GatePhase::SendingInitialized => event is TimedOut || event is Sent,
        GatePhase::SendingCapability => event is TimedOut || event is Sent,
        GatePhase::AwaitingCapability(_) => event is TimedOut || event is Received,
        GatePhase::DecodingCapability => event is CapabilityDecoded,
        GatePhase::Admitted => false,
        GatePhase::Refused => false,
    }
}

/// What an event leads to, for the version that is expected.
pub open spec fn gate_stepped(version: VersionView, phase: GatePhase, event: GateEvent) -> GateStep {
    match event {
        GateEvent::TimedOut => refused(ExternalGateError::Timeout),
        GateEvent::Connected { outcome } => match outcome {
            ConnectOutcome::Connected => (
                GatePhase::SendingInitialize,
                GateActionView::SendInitialize,
            ),
            ConnectOutcome::RequestInvalid => refused(ExternalGateError::InvalidEndpoint),
            ConnectOutcome::HeaderInvalid => refused(ExternalGateError::CredentialUnavailable),
            ConnectOutcome::Failed { status } => refused(
                if status == Some(401u16) || status == Some(403u16) {
                    ExternalGateError::AuthenticationRejected
                } else {
                    ExternalGateError::ConnectionFailed
                },
            ),
        },
        GateEvent::Sent { outcome } => match send_error(outcome, phase is SendingCapability) {
            Some(error) => refused(error),
            None => match phase {
                GatePhase::SendingInitialize => (
                    GatePhase::AwaitingInitialize(fresh_wait()),
                    GateActionView::Receive,
                ),
                GatePhase::SendingInitialized => (
                    GatePhase::SendingCapability,
                    GateActionView::SendCapability,
                ),
                _ => (GatePhase::AwaitingCapability(fresh_wait()), GateActionView::Receive),
            },
        },
        GateEvent::Received { frame } => match phase {
            GatePhase::AwaitingInitialize(wait) => match wait_stepped(
                GateStage::Initialize,
                wait,
                frame,
            ) {
                Err(error) => refused(error),
                Ok((_, Some(answer))) => (
                    GatePhase::DecodingInitialize,
                    GateActionView::DecodeInitialize { answer },
                ),
                Ok((next, None)) => (
                    GatePhase::AwaitingInitialize(next),
                    GateActionView::Receive,
                ),
            },
            GatePhase::AwaitingCapability(wait) => match wait_stepped(
                GateStage::Capability,
                wait,
                frame,
            ) {
                Err(error) => refused(error),
                Ok((_, Some(answer))) => (
                    GatePhase::DecodingCapability,
                    GateActionView::DecodeCapability { answer },
                ),
                Ok((next, None)) => (
                    GatePhase::AwaitingCapability(next),
                    GateActionView::Receive,
                ),
            },
            _ => refused(ExternalGateError::ProtocolViolation),
        },
        GateEvent::InitializeDecoded { user_agent } => match user_agent {
            None => refused(ExternalGateError::ProtocolViolation),
            Some(text) => if names_version(text@, version) {
                (GatePhase::SendingInitialized, GateActionView::SendInitialized)
            } else {
                refused(ExternalGateError::VersionMismatch)
            },
        },
        GateEvent::CapabilityDecoded { rows } => if rows is Some && rows->Some_0
            <= EXTERNAL_GATE_CANARY_ROWS {
            (GatePhase::Admitted, GateActionView::Admit)
        } else {
            refused(ExternalGateError::MissingCapability)
        },
    }
}

enum Phase {
    Connecting,
    SendingInitialize,
    AwaitingInitialize(GateWait),
    DecodingInitialize,
    SendingInitialized,
    SendingCapability,
    AwaitingCapability(GateWait),
    DecodingCapability,
    Admitted,
    Refused,
}

/// One admission of an external socket.
pub struct GateAdmission {
    phase: Phase,
}

spec fn wait_view(wait: GateWait) -> WaitView {
    WaitView { frames_left: wait.frames_left as int, total_bytes: wait.total_bytes as int }
}

impl View for GateAdmission {
    type V = GatePhase;

    closed spec fn view(&self) -> GatePhase {
        match self.phase {
            Phase::Connecting => GatePhase::Connecting,
            Phase::SendingInitialize => GatePhase::SendingInitialize,
            Phase::AwaitingInitialize(wait) => GatePhase::AwaitingInitialize(wait_view(wait)),
            Phase::DecodingInitialize => GatePhase::DecodingInitialize,
            Phase::SendingInitialized => GatePhase::SendingInitialized,
            Phase::SendingCapability => GatePhase::SendingCapability,
            Phase::AwaitingCapability(wait) => GatePhase::AwaitingCapability(wait_view(wait)),
            Phase::DecodingCapability => GatePhase::DecodingCapability,
            Phase::Admitted => GatePhase::Admitted,
            Phase::Refused => GatePhase::Refused,
        }
    }
}

impl GateAdmission {
    /// A wait has frames left and has taken no more text than it may.
    pub closed spec fn wf(&self) -> bool {
        match self.phase {
            Phase::AwaitingInitialize(wait) => wait.stage == GateStage::Initialize
                && wait.frames_left > 0 && wait.total_bytes <= EXTERNAL_GATE_TOTAL_BYTES,
            Phase::AwaitingCapability(wait) => wait.stage == GateStage::Capability
                && wait.frames_left > 0 && wait.total_bytes <= EXTERNAL_GATE_TOTAL_BYTES,
            _ => true,
        }
    }

    /// Starts with opening the socket.
    pub fn start() -> (started: (GateAdmission, GateAction))
        ensures
            started.0.wf(),
            started.0@ == GatePhase::Connecting,
            started.1@ == GateActionView::Connect,
    {
        (GateAdmission { phase: Phase::Connecting }, GateAction::Connect)
    }

    fn refuse(&mut self, error: ExternalGateError) -> (action: GateAction)
        ensures
            final(self).wf(),
            (final(self)@, action@) == refused(error),
    {
        self.phase = Phase::Refused;
        GateAction::Refuse(error)
    }

    fn on_sent(&mut self, outcome: SendOutcome) -> (action: GateAction)
        requires
            old(self)@ is SendingInitialize || old(self)@ is SendingInitialized || old(
                self,
            )@ is SendingCapability,
        ensures
            final(self).wf(),
            forall|version: VersionView|
                (final(self)@, action@) == #[trigger] gate_stepped(
                    version,
                    old(self)@,
                    GateEvent::Sent { outcome },
                ),
    {
        match outcome {
            SendOutcome::ParamsInvalid => {
                if matches!(self.phase, Phase::SendingCapability) {
                    self.refuse(ExternalGateError::UnsupportedCapabilityProfile)
                } else {
                    self.refuse(ExternalGateError::ProtocolViolation)
                }
            },
            SendOutcome::Unencodable => self.refuse(ExternalGateError::ProtocolViolation),
            SendOutcome::Failed => self.refuse(ExternalGateError::ConnectionFailed),
            SendOutcome::Sent => match self.phase {
                Phase::SendingInitialize => {
                    self.phase = Phase::AwaitingInitialize(GateWait::new(GateStage::Initialize));
                    GateAction::Receive
                },
                Phase::SendingInitialized => {
                    self.phase = Phase::SendingCapability;
                    GateAction::SendCapability
                },
                _ => {
                    self.phase = Phase::AwaitingCapability(GateWait::new(GateStage::Capability));
                    GateAction::Receive
                },
            },
        }
    }

    fn on_received(&mut self, frame: GateFrame) -> (action: GateAction)
        requires
            old(self).wf(),
            old(self)@ is AwaitingInitialize || old(self)@ is AwaitingCapability,
        ensures
            final(self).wf(),
            forall|version: VersionView|
                (final(self)@, action@) == #[trigger] gate_stepped(
                    version,
                    old(self)@,
                    GateEvent::Received { frame },
                ),
    {
        let mut phase = Phase::Refused;
        std::mem::swap(&mut self.phase, &mut phase);
        match phase {
            Phase::AwaitingInitialize(mut wait) => match wait.receive(frame) {
                GateReceive::Fail(error) => GateAction::Refuse(error),
                GateReceive::Answer(answer) => {
                    self.phase = Phase::DecodingInitialize;
                    GateAction::DecodeInitialize { answer }
                },
                GateReceive::Wait => {
                    self.phase = Phase::AwaitingInitialize(wait);
                    GateAction::Receive
                },
            },
            Phase::AwaitingCapability(mut wait) => match wait.receive(frame) {
                GateReceive::Fail(error) => GateAction::Refuse(error),
                GateReceive::Answer(answer) => {
                    self.phase = Phase::DecodingCapability;
                    GateAction::DecodeCapability { answer }
                },
                GateReceive::Wait => {
                    self.phase = Phase::AwaitingCapability(wait);
                    GateAction::Receive
                },
            },
            _ => GateAction::Refuse(ExternalGateError::ProtocolViolation),
        }
    }

    /// Takes what happened: what the admission does next.
    pub fn step(&mut self, gate: &ExternalEndpointGate, event: GateEvent) -> (action: GateAction)
        requires
            old(self).wf(),
            gate_expected(old(self)@, event),
        ensures
            final(self).wf(),
            (final(self)@, action@) == gate_stepped(gate@.version, old(self)@, event),
    {
        match event {
            GateEvent::TimedOut => self.refuse(ExternalGateError::Timeout),
            GateEvent::Connected { outcome } => match outcome {
                ConnectOutcome::Connected => {
                    self.phase = Phase::SendingInitialize;
                    GateAction::SendInitialize
                },
                ConnectOutcome::RequestInvalid => self.refuse(ExternalGateError::InvalidEndpoint),
                ConnectOutcome::HeaderInvalid => self.refuse(
                    ExternalGateError::CredentialUnavailable,
                ),
                ConnectOutcome::Failed { status } => self.refuse(classify_connect_error(status)),
            },
            GateEvent::Sent { outcome } => self.on_sent(outcome),
            GateEvent::Received { frame } => self.on_received(frame),
            GateEvent::InitializeDecoded { user_agent } => {
                let checked = match &user_agent {
                    Some(text) => gate.check_initialize(Some(text.as_str())),
                    None => gate.check_initialize(None),
                };
                match checked {
                    Ok(()) => {
                        self.phase = Phase::SendingInitialized;
                        GateAction::SendInitialized
                    },
                    Err(error) => self.refuse(error),
                }
            },
            GateEvent::CapabilityDecoded { rows } => match check_capability(rows) {
                Ok(()) => {
                    self.phase = Phase::Admitted;
                    GateAction::Admit
                },
                Err(error) => self.refuse(error),
            },
        }
    }
}

/// How far an admission has come.
pub open spec fn gate_progress(phase: GatePhase) -> int {
    match phase {
        GatePhase::Connecting => 0,
        GatePhase::SendingInitialize => 1,
        GatePhase::AwaitingInitialize(_) => 2,
        GatePhase::DecodingInitialize => 3,
        GatePhase::SendingInitialized => 4,
        GatePhase::SendingCapability => 5,
        GatePhase::AwaitingCapability(_) => 6,
        GatePhase::DecodingCapability => 7,
        GatePhase::Admitted => 8,
        GatePhase::Refused => 9,
    }
}

/// An admission goes through its steps in order and skips none: it comes past
/// the handshake only with the exact version, and to its end only with a canary
/// of at most one row.
pub proof fn admissions_prove_version_and_capability(
    version: VersionView,
    phase: GatePhase,
    event: GateEvent,
)
    requires
        gate_expected(phase, event),
    ensures
        ({
            let next = gate_stepped(version, phase, event).0;
            &&& next is Refused || gate_progress(phase) <= gate_progress(next) <= gate_progress(
                phase,
            ) + 1
            &&& next is SendingInitialized ==> event is InitializeDecoded
                && event->user_agent is Some && names_version(event->user_agent->Some_0@, version)
            &&& next is Admitted ==> event is CapabilityDecoded && event->rows is Some
                && event->rows->Some_0 <= EXTERNAL_GATE_CANARY_ROWS
        }),
{
}

/// An admission takes a bounded number of frames and a bounded amount of text.
pub proof fn admissions_are_bounded(stage: GateStage, wait: WaitView, frame: GateFrame)
    requires
        wait.frames_left > 0,
        wait_stepped(stage, wait, frame) is Ok,
    ensures
        wait_stepped(stage, wait, frame)->Ok_0.0.frames_left < wait.frames_left,
        wait.total_bytes <= EXTERNAL_GATE_TOTAL_BYTES ==> wait_stepped(
            stage,
            wait,
            frame,
        )->Ok_0.0.total_bytes <= EXTERNAL_GATE_TOTAL_BYTES,
{
}

/// An admission that succeeds takes every step in order: connect, the
/// handshake and its answer, the notice that it is complete, the canary and its
/// answer; each success leads to the next step and to no other.
pub proof fn admissions_go_step_by_step(
    version: VersionView,
    user_agent: String,
    rows: usize,
)
    ensures
        ({
            let sent = GateEvent::Sent { outcome: SendOutcome::Sent };
            let fresh = WaitView {
                frames_left: EXTERNAL_GATE_MAX_MESSAGES as int,
                total_bytes: 0,
            };
            &&& gate_stepped(
                version,
                GatePhase::Connecting,
                GateEvent::Connected { outcome: ConnectOutcome::Connected },
            ) == (GatePhase::SendingInitialize, GateActionView::SendInitialize)
            &&& gate_stepped(version, GatePhase::SendingInitialize, sent) == (
                GatePhase::AwaitingInitialize(fresh),
                GateActionView::Receive,
            )
            &&& names_version(user_agent@, version) ==> gate_stepped(
                version,
                GatePhase::DecodingInitialize,
                GateEvent::InitializeDecoded { user_agent: Some(user_agent) },
            ) == (GatePhase::SendingInitialized, GateActionView::SendInitialized)
            &&& !names_version(user_agent@, version) ==> gate_stepped(
                version,
                GatePhase::DecodingInitialize,
                GateEvent::InitializeDecoded { user_agent: Some(user_agent) },
            ) == (
                GatePhase::Refused,
                GateActionView::Refuse(ExternalGateError::VersionMismatch),
            )
            &&& gate_stepped(version, GatePhase::SendingInitialized, sent) == (
                GatePhase::SendingCapability,
                GateActionView::SendCapability,
            )
            &&& gate_stepped(version, GatePhase::SendingCapability, sent) == (
                GatePhase::AwaitingCapability(fresh),
                GateActionView::Receive,
            )
            &&& gate_stepped(
                version,
                GatePhase::DecodingCapability,
                GateEvent::CapabilityDecoded { rows: Some(rows) },
            ) == (if rows <= EXTERNAL_GATE_CANARY_ROWS {
                (GatePhase::Admitted, GateActionView::Admit)
            } else {
                (
                    GatePhase::Refused,
                    GateActionView::Refuse(ExternalGateError::MissingCapability),
                )
            })
        }),
{
}

/// Each way to fail has its own refusal: out of time, an endpoint or a
/// credential that makes no request, a refused upgrade, a lost connection, an
/// answer that cannot be decoded.
pub proof fn refusals_say_what_failed(
    version: VersionView,
    phase: GatePhase,
    status: Option<u16>,
    outcome: SendOutcome,
)
    ensures
        ({
            let refused = |event: GateEvent, error: ExternalGateError|
                gate_stepped(version, phase, event) == (
                    GatePhase::Refused,
                    GateActionView::Refuse(error),
                );
            let failed = |outcome: ConnectOutcome| GateEvent::Connected { outcome };
            let unauthorized = status == Some(401u16) || status == Some(403u16);
            &&& refused(GateEvent::TimedOut, ExternalGateError::Timeout)
            &&& refused(failed(ConnectOutcome::RequestInvalid), ExternalGateError::InvalidEndpoint)
            &&& refused(
                failed(ConnectOutcome::HeaderInvalid),
                ExternalGateError::CredentialUnavailable,
            )
            &&& unauthorized ==> refused(
                failed(ConnectOutcome::Failed { status }),
                ExternalGateError::AuthenticationRejected,
            )
            &&& !unauthorized ==> refused(
                failed(ConnectOutcome::Failed { status }),
                ExternalGateError::ConnectionFailed,
            )
            &&& refused(
                GateEvent::InitializeDecoded { user_agent: None },
                ExternalGateError::ProtocolViolation,
            )
            &&& refused(
                GateEvent::CapabilityDecoded { rows: None },
                ExternalGateError::MissingCapability,
            )
            &&& outcome == SendOutcome::Failed ==> refused(
                GateEvent::Sent { outcome },
                ExternalGateError::ConnectionFailed,
            )
            &&& outcome == SendOutcome::Unencodable ==> refused(
                GateEvent::Sent { outcome },
                ExternalGateError::ProtocolViolation,
            )
            &&& outcome == SendOutcome::ParamsInvalid ==> refused(
                GateEvent::Sent { outcome },
                if phase is SendingCapability {
                    ExternalGateError::UnsupportedCapabilityProfile
                } else {
                    ExternalGateError::ProtocolViolation
                },
            )
        }),
{
}

/// While an answer is awaited, a frame within the bounds that holds the answer
/// is decoded as that answer, a frame that holds nothing of note is passed over
/// and counted, and any other ends the admission.
pub proof fn answers_are_awaited_within_bounds(
    version: VersionView,
    wait: WaitView,
    length: usize,
    message: crate::codex::protocol::InboundMessage,
)
    requires
        wait.frames_left > 1,
        length <= EXTERNAL_GATE_MESSAGE_BYTES,
        wait.total_bytes + length <= EXTERNAL_GATE_TOTAL_BYTES,
    ensures
        ({
            let frame = GateFrame::Text { length, message: Some(message) };
            let next = WaitView {
                frames_left: wait.frames_left - 1,
                total_bytes: wait.total_bytes + length,
            };
            let first = gate_stepped(
                version,
                GatePhase::AwaitingInitialize(wait),
                GateEvent::Received { frame },
            );
            let second = gate_stepped(
                version,
                GatePhase::AwaitingCapability(wait),
                GateEvent::Received { frame },
            );
            &&& match gate_message(GateStage::Initialize, message@) {
                Ok(Some(answer)) => first == (
                    GatePhase::DecodingInitialize,
                    GateActionView::DecodeInitialize { answer },
                ),
                Ok(None) => first == (
                    GatePhase::AwaitingInitialize(next),
                    GateActionView::Receive,
                ),
                Err(error) => first == (GatePhase::Refused, GateActionView::Refuse(error)),
            }
            &&& match gate_message(GateStage::Capability, message@) {
                Ok(Some(answer)) => second == (
                    GatePhase::DecodingCapability,
                    GateActionView::DecodeCapability { answer },
                ),
                Ok(None) => second == (
                    GatePhase::AwaitingCapability(next),
                    GateActionView::Receive,
                ),
                Err(error) => second == (GatePhase::Refused, GateActionView::Refuse(error)),
            }
            &&& wait_stepped(GateStage::Initialize, wait, GateFrame::Control) == Ok::<
                (WaitView, Option<Json>),
                ExternalGateError,
            >((WaitView { frames_left: wait.frames_left - 1, ..wait }, None))
        }),
{
}

/// What is over a bound, and what is no message, ends the wait as a violation;
/// the end of the connection ends it as a failed connection.
pub proof fn excess_ends_the_wait(
    stage: GateStage,
    wait: WaitView,
    length: usize,
    message: Option<crate::codex::protocol::InboundMessage>,
)
    ensures
        ({
            let violation = Err::<(WaitView, Option<Json>), ExternalGateError>(
                ExternalGateError::ProtocolViolation,
            );
            &&& length > EXTERNAL_GATE_MESSAGE_BYTES || wait.total_bytes + length
                > EXTERNAL_GATE_TOTAL_BYTES || message is None ==> wait_stepped(
                stage,
                wait,
                GateFrame::Text { length, message },
            ) == violation
            &&& wait_stepped(stage, wait, GateFrame::Other) == violation
            &&& wait.frames_left == 1 ==> wait_stepped(stage, wait, GateFrame::Control) == violation
            &&& wait_stepped(stage, wait, GateFrame::Ended) == Err::<
                (WaitView, Option<Json>),
                ExternalGateError,
            >(ExternalGateError::ConnectionFailed)
        }),
{
}

} // verus!
