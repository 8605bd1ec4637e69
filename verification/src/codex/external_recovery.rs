//! Recovery of an external endpoint: it reconnects sockets, never processes,
//! and reports an epoch ready only when that epoch was reconciled.
use vstd::prelude::*;

use crate::codex::external::ExternalCapabilityProfile;
use crate::codex::external::ExternalEndpointGate;
use crate::codex::reconcile::closed_failure;
use crate::codex::reconcile::failure_reason;
use crate::codex::reconcile::EpochFailure;
use crate::codex::reconcile::ExternalUncertaintyReason;
use crate::codex::types::TransportExit;
use crate::limits::CONTROL_RPC_TIMEOUT_MS;
use crate::limits::EXTERNAL_RECONNECT_INITIAL_DELAY_MS;
use crate::limits::EXTERNAL_RECONNECT_MAX_DELAY_MS;

verus! {

/// Time bounds of the recovery, in milliseconds.
#[derive(Clone, Copy, Debug, PartialEq, Eq, Structural)]
pub struct ExternalRecoverySettings {
    pub request_timeout_ms: u64,
    pub reconnect_initial_delay_ms: u64,
    pub reconnect_max_delay_ms: u64,
}

impl Default for ExternalRecoverySettings {
    fn default() -> (settings: ExternalRecoverySettings)
        ensures
            settings == (ExternalRecoverySettings {
                request_timeout_ms: CONTROL_RPC_TIMEOUT_MS,
                reconnect_initial_delay_ms: EXTERNAL_RECONNECT_INITIAL_DELAY_MS,
                reconnect_max_delay_ms: EXTERNAL_RECONNECT_MAX_DELAY_MS,
            }),
    {
        ExternalRecoverySettings {
            request_timeout_ms: CONTROL_RPC_TIMEOUT_MS,
            reconnect_initial_delay_ms: EXTERNAL_RECONNECT_INITIAL_DELAY_MS,
            reconnect_max_delay_ms: EXTERNAL_RECONNECT_MAX_DELAY_MS,
        }
    }
}

/// Whether time bounds are neither zero nor inverted.
pub open spec fn sound_settings(settings: ExternalRecoverySettings) -> bool {
    &&& settings.request_timeout_ms > 0
    &&& settings.reconnect_initial_delay_ms > 0
    &&& settings.reconnect_max_delay_ms >= settings.reconnect_initial_delay_ms
}

/// What the recovery reports.
#[derive(Clone, Copy, Debug, PartialEq, Eq, Structural)]
pub enum ExternalRecoveryState {
    Connecting { epoch: u64 },
    Reconciling { epoch: u64 },
    Ready { epoch: u64 },
    Unavailable { epoch: u64, reason: ExternalUncertaintyReason },
    Stopped,
}

impl ExternalRecoveryState {
    /// The epoch that is ready, where one is.
    pub fn ready_epoch(self) -> (epoch: Option<u64>)
        ensures
            epoch == ready_epoch_of(self),
    {
        match self {
            ExternalRecoveryState::Ready { epoch } => Some(epoch),
            _ => None,
        }
    }

    /// The epoch that is ready, where it is newer than a given one.
    pub fn ready_after(self, prior_epoch: u64) -> (epoch: Option<u64>)
        ensures
            epoch == match ready_epoch_of(self) {
                Some(ready) => if ready > prior_epoch {
                    Some(ready)
                } else {
                    None
                },
                None => None,
            },
    {
        match self.ready_epoch() {
            Some(ready) => if ready > prior_epoch {
                Some(ready)
            } else {
                None
            },
            None => None,
        }
    }
}

/// The epoch that is ready, where one is.
pub open spec fn ready_epoch_of(state: ExternalRecoveryState) -> Option<u64> {
    match state {
        ExternalRecoveryState::Ready { epoch } => Some(epoch),
        _ => None,
    }
}

/// Why recovery could not be started or asked.
#[derive(Clone, Copy, Debug, PartialEq, Eq, Structural)]
pub enum ExternalRecoveryError {
    UnsupportedProfile,
    InvalidSettings,
    Store,
    Closed,
    Timeout,
}

/// What an error is reported as.
pub open spec fn recovery_error_text(error: ExternalRecoveryError) -> Seq<char> {
    match error {
        ExternalRecoveryError::UnsupportedProfile =>
            "external recovery requires the resume_shared capability profile"@,
        ExternalRecoveryError::InvalidSettings => "external recovery settings are invalid"@,
        ExternalRecoveryError::Store => "external recovery durable state failed"@,
        ExternalRecoveryError::Closed => "external recovery actor is closed"@,
        ExternalRecoveryError::Timeout => "external recovery wait timed out"@,
    }
}

impl ExternalRecoveryError {
    /// What the error is reported as.
    pub fn to_text(self) -> (text: String)
        ensures
            text@ == recovery_error_text(self),
    {
        match self {
            ExternalRecoveryError::UnsupportedProfile =>
                "external recovery requires the resume_shared capability profile".to_owned(),
            ExternalRecoveryError::InvalidSettings =>
                "external recovery settings are invalid".to_owned(),
            ExternalRecoveryError::Store => "external recovery durable state failed".to_owned(),
            ExternalRecoveryError::Closed => "external recovery actor is closed".to_owned(),
            ExternalRecoveryError::Timeout => "external recovery wait timed out".to_owned(),
        }
    }
}

/// What the recovery is asked.
#[derive(Clone, Copy, Debug, PartialEq, Eq, Structural)]
pub enum RecoveryCommand {
    /// The set of managed threads changed.
    Wake,
    /// Fence the socket epoch and connect again.
    Reconnect { reason: ExternalUncertaintyReason },
    Shutdown,
}

/// Durable state of an endpoint.
#[derive(Clone, Copy, Debug, PartialEq, Eq, Structural)]
pub enum ExternalEndpointState {
    Connecting,
    Reconciling,
    Ready,
    Unavailable,
    Stopped,
}

/// An effect of the recovery, to be performed in order.
#[derive(Clone, Copy, Debug, PartialEq, Eq, Structural)]
pub enum RecoveryAction {
    /// Reserve the next epoch durably, unless the bridge stops.
    Reserve { reason: ExternalUncertaintyReason },
    /// Report a state.
    Publish(ExternalRecoveryState),
    /// Open the socket of an epoch.
    Connect { epoch: u64 },
    /// Record durably that an epoch is over, and why.
    MarkUnavailable { epoch: u64, reason: ExternalUncertaintyReason },
    /// Record the state of an epoch durably.
    SetState { epoch: u64, state: ExternalEndpointState },
    /// Reconcile the managed threads over an epoch.
    Reconcile { epoch: u64 },
    /// Drop the connection.
    Abort,
    /// Close the connection in order.
    CloseConnection,
    /// Answer the command at hand.
    Reply,
    /// Wait for a command or for a delay to pass.
    Wait { delay_ms: u64 },
    /// Read the newest epoch of the endpoint from the store.
    ReadLatest,
}

/// What happens to the recovery.
#[derive(Clone, Copy, Debug, PartialEq, Eq)]
pub enum RecoveryEvent {
    /// The bridge stops.
    Cancelled,
    /// An epoch was reserved, or none could be.
    Reserved { epoch: Option<u64> },
    /// The socket was opened, or it could not be.
    Connected { connected: bool },
    /// Reconciliation ended.
    Reconciled { outcome: Result<(), EpochFailure> },
    /// A command, or nothing where nobody can send one any more.
    Command { command: Option<RecoveryCommand> },
    /// The delay passed.
    Elapsed,
    /// The transport closed.
    TransportClosed { exit: TransportExit },
    /// The events ended.
    EventsEnded,
    /// An event could not be read.
    Unreadable,
    /// An event was taken, or could not be.
    Taken { taken: bool },
    /// The newest epoch of the endpoint and its durable state.
    Latest { latest: Option<(u64, ExternalEndpointState)> },
}

/// What the recovery waits for.
#[derive(Clone, Copy, Debug, PartialEq, Eq, Structural)]
pub enum RecoveryPhase {
    Reserving,
    Connecting { epoch: u64 },
    Reconciling { epoch: u64 },
    Live { epoch: u64 },
    Waiting,
    Ending,
    Stopped,
}

/// Content of a recovery.
pub struct RecoveryView {
    pub settings: ExternalRecoverySettings,
    pub reason: ExternalUncertaintyReason,
    pub delay_ms: u64,
    pub phase: RecoveryPhase,
    pub state: ExternalRecoveryState,
}

/// Twice a delay, up to the largest.
pub open spec fn doubled(current: u64, maximum: u64) -> u64 {
    if 2 * current <= maximum {
        (2 * current) as u64
    } else {
        maximum
    }
}

/// The delay after one that was waited for.
pub fn next_delay(current: u64, maximum: u64) -> (next: u64)
    ensures
        next == doubled(current, maximum),
{
    if current <= maximum / 2 {
        2 * current
    } else {
        maximum
    }
}

/// The recovery starts over with an epoch.
pub open spec fn restarted(view: RecoveryView) -> (RecoveryView, Seq<RecoveryAction>) {
    (
        RecoveryView { phase: RecoveryPhase::Reserving, ..view },
        seq![RecoveryAction::Reserve { reason: view.reason }],
    )
}

/// The recovery comes to its end.
pub open spec fn ending(view: RecoveryView) -> (RecoveryView, Seq<RecoveryAction>) {
    (RecoveryView { phase: RecoveryPhase::Ending, ..view }, seq![RecoveryAction::ReadLatest])
}

/// An epoch is over: that is recorded, then reported, and its connection
/// dropped; the next epoch waits.
pub open spec fn epoch_lost(
    view: RecoveryView,
    epoch: u64,
    reason: ExternalUncertaintyReason,
) -> (RecoveryView, Seq<RecoveryAction>) {
    let state = ExternalRecoveryState::Unavailable { epoch, reason };
    (
        RecoveryView { reason, state, phase: RecoveryPhase::Waiting, ..view },
        seq![
            RecoveryAction::MarkUnavailable { epoch, reason },
            RecoveryAction::Publish(state),
            RecoveryAction::Abort,
            RecoveryAction::Wait { delay_ms: view.delay_ms },
        ],
    )
}

/// A command that comes while no epoch is live: the state after it, whether a
/// reply is owed, and whether the recovery stops.
pub open spec fn preconnect(
    reason: ExternalUncertaintyReason,
    command: Option<RecoveryCommand>,
) -> (ExternalUncertaintyReason, bool, bool) {
    match command {
        Some(RecoveryCommand::Wake) => (reason, false, false),
        Some(RecoveryCommand::Reconnect { reason }) => (reason, true, false),
        Some(RecoveryCommand::Shutdown) => (reason, true, true),
        None => (reason, false, true),
    }
}

/// Takes a command that comes while no epoch is live.
pub fn handle_preconnect_command(
    reason: ExternalUncertaintyReason,
    command: Option<RecoveryCommand>,
) -> (handled: (ExternalUncertaintyReason, bool, bool))
    ensures
        handled == preconnect(reason, command),
{
    match command {
        Some(RecoveryCommand::Wake) => (reason, false, false),
        Some(RecoveryCommand::Reconnect { reason }) => (reason, true, false),
        Some(RecoveryCommand::Shutdown) => (reason, true, true),
        None => (reason, false, true),
    }
}

/// What a command leads to while no epoch is live.
pub open spec fn commanded(view: RecoveryView, command: Option<RecoveryCommand>) -> (
    RecoveryView,
    Seq<RecoveryAction>,
) {
    let (reason, reply, stop) = preconnect(view.reason, command);
    let answered = if reply {
        seq![RecoveryAction::Reply]
    } else {
        Seq::empty()
    };
    let (next, actions) = if stop {
        ending(RecoveryView { reason, ..view })
    } else {
        restarted(RecoveryView { reason, ..view })
    };
    (next, answered + actions)
}

/// Whether an event can happen in a phase.
pub open spec fn expected(phase: RecoveryPhase, event: RecoveryEvent) -> bool {
    match phase {
        RecoveryPhase::Reserving => event is Cancelled || event is Reserved,
        RecoveryPhase::Connecting { .. } => event is Cancelled || event is Command || event
            is Connected,
        RecoveryPhase::Reconciling { .. } => event is Reconciled,
        RecoveryPhase::Live { .. } => event is Cancelled || event is Command || event
            is TransportClosed || event is EventsEnded || event is Unreadable || event is Taken,
        RecoveryPhase::Waiting => event is Cancelled || event is Command || event is Elapsed,
        RecoveryPhase::Ending => event is Latest,
        RecoveryPhase::Stopped => false,
    }
}

/// What an event leads to while an epoch is live.
pub open spec fn live_stepped(view: RecoveryView, epoch: u64, event: RecoveryEvent) -> (
    RecoveryView,
    Seq<RecoveryAction>,
) {
    match event {
        RecoveryEvent::Command { command } => match command {
            Some(RecoveryCommand::Wake) => {
                let (next, actions) = restarted(
                    RecoveryView { reason: ExternalUncertaintyReason::SocketDisconnect, ..view },
                );
                (next, seq![RecoveryAction::Abort] + actions)
            },
            Some(RecoveryCommand::Reconnect { reason }) => {
                let state = ExternalRecoveryState::Unavailable { epoch, reason };
                let (next, actions) = restarted(RecoveryView { reason, state, ..view });
                (
                    next,
                    seq![
                        RecoveryAction::MarkUnavailable { epoch, reason },
                        RecoveryAction::Publish(state),
                        RecoveryAction::Abort,
                        RecoveryAction::Reply,
                    ] + actions,
                )
            },
            Some(RecoveryCommand::Shutdown) => {
                let (next, actions) = ending(view);
                (next, seq![RecoveryAction::CloseConnection, RecoveryAction::Reply] + actions)
            },
            None => ending(view),
        },
        RecoveryEvent::TransportClosed { exit } => epoch_lost(
            view,
            epoch,
            failure_reason(
                if exit == TransportExit::ProtocolViolation || exit == TransportExit::TaskFailed {
                    EpochFailure::ProtocolViolation
                } else {
                    EpochFailure::ConnectionLost
                },
            ),
        ),
        RecoveryEvent::EventsEnded => epoch_lost(
            view,
            epoch,
            ExternalUncertaintyReason::SocketDisconnect,
        ),
        RecoveryEvent::Unreadable => epoch_lost(
            view,
            epoch,
            ExternalUncertaintyReason::ProtocolViolation,
        ),
        RecoveryEvent::Taken { taken: true } => (view, Seq::empty()),
        RecoveryEvent::Taken { taken: false } => epoch_lost(
            view,
            epoch,
            ExternalUncertaintyReason::ProtocolViolation,
        ),
        _ => {
            let (next, actions) = ending(view);
            (next, seq![RecoveryAction::CloseConnection] + actions)
        },
    }
}

/// What an event leads to: the state after it and the effects, in order.
pub open spec fn recovery_stepped(view: RecoveryView, event: RecoveryEvent) -> (
    RecoveryView,
    Seq<RecoveryAction>,
) {
    match view.phase {
        RecoveryPhase::Reserving => match event {
            RecoveryEvent::Reserved { epoch: Some(epoch) } => {
                let state = ExternalRecoveryState::Connecting { epoch };
                (
                    RecoveryView { state, phase: RecoveryPhase::Connecting { epoch }, ..view },
                    seq![RecoveryAction::Publish(state), RecoveryAction::Connect { epoch }],
                )
            },
            RecoveryEvent::Reserved { epoch: None } => {
                let state = ExternalRecoveryState::Unavailable {
                    epoch: 0,
                    reason: ExternalUncertaintyReason::ProtocolViolation,
                };
                (
                    RecoveryView { state, phase: RecoveryPhase::Waiting, ..view },
                    seq![
                        RecoveryAction::Publish(state),
                        RecoveryAction::Wait { delay_ms: view.delay_ms },
                    ],
                )
            },
            _ => ending(view),
        },
        RecoveryPhase::Connecting { epoch } => match event {
            RecoveryEvent::Command { command } => commanded(view, command),
            RecoveryEvent::Connected { connected: true } => {
                let state = ExternalRecoveryState::Reconciling { epoch };
                (
                    RecoveryView {
                        state,
                        delay_ms: view.settings.reconnect_initial_delay_ms,
                        phase: RecoveryPhase::Reconciling { epoch },
                        ..view
                    },
                    seq![
                        RecoveryAction::Publish(state),
                        RecoveryAction::SetState {
                            epoch,
                            state: ExternalEndpointState::Reconciling,
                        },
                        RecoveryAction::Reconcile { epoch },
                    ],
                )
            },
            RecoveryEvent::Connected { connected: false } => {
                let reason = ExternalUncertaintyReason::SocketDisconnect;
                let state = ExternalRecoveryState::Unavailable { epoch, reason };
                (
                    RecoveryView { state, phase: RecoveryPhase::Waiting, ..view },
                    seq![
                        RecoveryAction::MarkUnavailable { epoch, reason },
                        RecoveryAction::Publish(state),
                        RecoveryAction::Wait { delay_ms: view.delay_ms },
                    ],
                )
            },
            _ => ending(view),
        },
        RecoveryPhase::Reconciling { epoch } => match event {
            RecoveryEvent::Reconciled { outcome: Err(failure) } => epoch_lost(
                view,
                epoch,
                failure_reason(failure),
            ),
            _ => {
                let state = ExternalRecoveryState::Ready { epoch };
                (
                    RecoveryView { state, phase: RecoveryPhase::Live { epoch }, ..view },
                    seq![
                        RecoveryAction::SetState { epoch, state: ExternalEndpointState::Ready },
                        RecoveryAction::Publish(state),
                    ],
                )
            },
        },
        RecoveryPhase::Live { epoch } => live_stepped(view, epoch, event),
        RecoveryPhase::Waiting => {
            let later = RecoveryView {
                delay_ms: doubled(view.delay_ms, view.settings.reconnect_max_delay_ms),
                ..view
            };
            match event {
                RecoveryEvent::Elapsed => restarted(later),
                RecoveryEvent::Command { command } => if preconnect(view.reason, command).2 {
                    commanded(view, command)
                } else {
                    commanded(later, command)
                },
                _ => ending(view),
            }
        },
        RecoveryPhase::Ending => {
            let stopped = RecoveryView {
                state: ExternalRecoveryState::Stopped,
                phase: RecoveryPhase::Stopped,
                ..view
            };
            let publish = seq![RecoveryAction::Publish(ExternalRecoveryState::Stopped)];
            match event {
                RecoveryEvent::Latest { latest: Some((epoch, state)) } => {
                    let mark = if state is Unavailable {
                        Seq::empty()
                    } else {
                        seq![
                            RecoveryAction::MarkUnavailable {
                                epoch,
                                reason: ExternalUncertaintyReason::BridgeRestart,
                            },
                        ]
                    };
                    (
                        stopped,
                        mark + seq![
                            RecoveryAction::SetState {
                                epoch,
                                state: ExternalEndpointState::Stopped,
                            },
                        ] + publish,
                    )
                },
                _ => (stopped, publish),
            }
        },
        RecoveryPhase::Stopped => (view, Seq::empty()),
    }
}

/// How the recovery begins.
pub open spec fn recovery_begun(settings: ExternalRecoverySettings) -> RecoveryView {
    RecoveryView {
        settings,
        reason: ExternalUncertaintyReason::BridgeRestart,
        delay_ms: settings.reconnect_initial_delay_ms,
        phase: RecoveryPhase::Reserving,
        state: ExternalRecoveryState::Connecting { epoch: 0 },
    }
}

/// What a run of the recovery leads to: the state after all events and all
/// effects, in order.
pub open spec fn recovery_run(settings: ExternalRecoverySettings, events: Seq<RecoveryEvent>) -> (
    RecoveryView,
    Seq<RecoveryAction>,
)
    decreases events.len(),
{
    if events.len() == 0 {
        (recovery_begun(settings), Seq::empty())
    } else {
        let (view, actions) = recovery_run(settings, events.drop_last());
        let (next, more) = recovery_stepped(view, events.last());
        (next, actions + more)
    }
}

/// Whether the events of a run can happen one after the other.
pub open spec fn recovery_ran(
    settings: ExternalRecoverySettings,
    events: Seq<RecoveryEvent>,
) -> bool
    decreases events.len(),
{
    events.len() > 0 ==> {
        &&& recovery_ran(settings, events.drop_last())
        &&& expected(recovery_run(settings, events.drop_last()).0.phase, events.last())
    }
}

/// The states that are reported by some effects, in order.
pub open spec fn published(actions: Seq<RecoveryAction>) -> Seq<ExternalRecoveryState>
    decreases actions.len(),
{
    if actions.len() == 0 {
        Seq::empty()
    } else {
        match actions.last() {
            RecoveryAction::Publish(state) => published(actions.drop_last()).push(state),
            _ => published(actions.drop_last()),
        }
    }
}

/// Whether the delay lies between its bounds.
pub open spec fn recovery_bounded(view: RecoveryView) -> bool {
    &&& sound_settings(view.settings)
    &&& view.settings.reconnect_initial_delay_ms <= view.delay_ms
        <= view.settings.reconnect_max_delay_ms
}

/// The socket-only recovery of one external endpoint.
pub struct ExternalRecoveryCoordinator {
    settings: ExternalRecoverySettings,
    reason: ExternalUncertaintyReason,
    delay_ms: u64,
    phase: RecoveryPhase,
    state: ExternalRecoveryState,
}

impl View for ExternalRecoveryCoordinator {
    type V = RecoveryView;

    closed spec fn view(&self) -> RecoveryView {
        RecoveryView {
            settings: self.settings,
            reason: self.reason,
            delay_ms: self.delay_ms,
            phase: self.phase,
            state: self.state,
        }
    }
}

impl ExternalRecoveryCoordinator {
    pub open spec fn wf(&self) -> bool {
        recovery_bounded(self@)
    }

    /// Starts recovery for an admitted endpoint.
    ///
    /// # Errors
    ///
    /// Rejects gates that do not resume, and zero or inverted time bounds.
    pub fn start(gate: &ExternalEndpointGate, settings: ExternalRecoverySettings) -> (started:
        Result<(ExternalRecoveryCoordinator, Vec<RecoveryAction>), ExternalRecoveryError>)
        ensures
            match started {
                Ok((recovery, actions)) => {
                    &&& gate@.profile == ExternalCapabilityProfile::ResumeShared
                    &&& sound_settings(settings)
                    &&& recovery.wf()
                    &&& recovery@ == recovery_begun(settings)
                    &&& actions@ == seq![
                        RecoveryAction::Reserve {
                            reason: ExternalUncertaintyReason::BridgeRestart,
                        },
                    ]
                },
                Err(error) => if gate@.profile != ExternalCapabilityProfile::ResumeShared {
                    error == ExternalRecoveryError::UnsupportedProfile
                } else {
                    error == ExternalRecoveryError::InvalidSettings && !sound_settings(settings)
                },
            },
    {
        if !matches!(gate.capability_profile(), ExternalCapabilityProfile::ResumeShared) {
            return Err(ExternalRecoveryError::UnsupportedProfile);
        }
        if settings.request_timeout_ms == 0 || settings.reconnect_initial_delay_ms == 0
            || settings.reconnect_max_delay_ms < settings.reconnect_initial_delay_ms {
            return Err(ExternalRecoveryError::InvalidSettings);
        }
        let reason = ExternalUncertaintyReason::BridgeRestart;
        let recovery = ExternalRecoveryCoordinator {
            settings,
            reason,
            delay_ms: settings.reconnect_initial_delay_ms,
            phase: RecoveryPhase::Reserving,
            state: ExternalRecoveryState::Connecting { epoch: 0 },
        };
        Ok((recovery, vec![RecoveryAction::Reserve { reason }]))
    }

    /// What was reported last.
    pub fn state(&self) -> (state: ExternalRecoveryState)
        ensures
            state == self@.state,
    {
        self.state
    }

    /// What the recovery waits for.
    pub fn phase(&self) -> (phase: RecoveryPhase)
        ensures
            phase == self@.phase,
    {
        self.phase
    }

    fn restart(&mut self, actions: &mut Vec<RecoveryAction>)
        ensures
            final(self)@ == restarted(old(self)@).0,
            final(actions)@ == old(actions)@ + restarted(old(self)@).1,
    {
        self.phase = RecoveryPhase::Reserving;
        actions.push(RecoveryAction::Reserve { reason: self.reason });
        proof {
            assert(actions@ =~= old(actions)@ + restarted(old(self)@).1);
        }
    }

    fn end(&mut self, actions: &mut Vec<RecoveryAction>)
        ensures
            final(self)@ == ending(old(self)@).0,
            final(actions)@ == old(actions)@ + ending(old(self)@).1,
    {
        self.phase = RecoveryPhase::Ending;
        actions.push(RecoveryAction::ReadLatest);
        proof {
            assert(actions@ =~= old(actions)@ + ending(old(self)@).1);
        }
    }

    fn lose_epoch(&mut self, epoch: u64, reason: ExternalUncertaintyReason) -> (actions: Vec<
        RecoveryAction,
    >)
        ensures
            (final(self)@, actions@) == epoch_lost(old(self)@, epoch, reason),
    {
        self.reason = reason;
        self.state = ExternalRecoveryState::Unavailable { epoch, reason };
        self.phase = RecoveryPhase::Waiting;
        let actions = vec![
            RecoveryAction::MarkUnavailable { epoch, reason },
            RecoveryAction::Publish(self.state),
            RecoveryAction::Abort,
            RecoveryAction::Wait { delay_ms: self.delay_ms },
        ];
        proof {
            assert(actions@ =~= epoch_lost(old(self)@, epoch, reason).1);
        }
        actions
    }

    fn command(&mut self, command: Option<RecoveryCommand>) -> (actions: Vec<RecoveryAction>)
        ensures
            (final(self)@, actions@) == commanded(old(self)@, command),
    {
        let (reason, reply, stop) = handle_preconnect_command(self.reason, command);
        let mut actions: Vec<RecoveryAction> = Vec::new();
        if reply {
            actions.push(RecoveryAction::Reply);
        }
        proof {
            assert(actions@ =~= if reply {
                seq![RecoveryAction::Reply]
            } else {
                Seq::empty()
            });
        }
        self.reason = reason;
        if stop {
            self.end(&mut actions);
        } else {
            self.restart(&mut actions);
        }
        actions
    }

    fn live_step(&mut self, epoch: u64, event: RecoveryEvent) -> (actions: Vec<RecoveryAction>)
        requires
            expected(RecoveryPhase::Live { epoch }, event),
            old(self)@.phase == (RecoveryPhase::Live { epoch }),
        ensures
            (final(self)@, actions@) == live_stepped(old(self)@, epoch, event),
    {
        let mut actions: Vec<RecoveryAction> = Vec::new();
        match event {
            RecoveryEvent::Command { command } => match command {
                Some(RecoveryCommand::Wake) => {
                    self.reason = ExternalUncertaintyReason::SocketDisconnect;
                    actions.push(RecoveryAction::Abort);
                    proof {
                        assert(actions@ =~= seq![RecoveryAction::Abort]);
                    }
                    self.restart(&mut actions);
                    actions
                },
                Some(RecoveryCommand::Reconnect { reason }) => {
                    self.reason = reason;
                    self.state = ExternalRecoveryState::Unavailable { epoch, reason };
                    actions.push(RecoveryAction::MarkUnavailable { epoch, reason });
                    actions.push(RecoveryAction::Publish(self.state));
                    actions.push(RecoveryAction::Abort);
                    actions.push(RecoveryAction::Reply);
                    proof {
                        assert(actions@ =~= seq![
                            RecoveryAction::MarkUnavailable { epoch, reason },
                            RecoveryAction::Publish(self.state),
                            RecoveryAction::Abort,
                            RecoveryAction::Reply,
                        ]);
                    }
                    self.restart(&mut actions);
                    actions
                },
                Some(RecoveryCommand::Shutdown) => {
                    actions.push(RecoveryAction::CloseConnection);
                    actions.push(RecoveryAction::Reply);
                    proof {
                        assert(actions@ =~= seq![
                            RecoveryAction::CloseConnection,
                            RecoveryAction::Reply,
                        ]);
                    }
                    self.end(&mut actions);
                    actions
                },
                None => {
                    self.end(&mut actions);
                    proof {
                        assert(actions@ =~= ending(old(self)@).1);
                    }
                    actions
                },
            },
            RecoveryEvent::TransportClosed { exit } => self.lose_epoch(
                epoch,
                closed_failure(exit).reason(),
            ),
            RecoveryEvent::EventsEnded => self.lose_epoch(
                epoch,
                ExternalUncertaintyReason::SocketDisconnect,
            ),
            RecoveryEvent::Unreadable => self.lose_epoch(
                epoch,
                ExternalUncertaintyReason::ProtocolViolation,
            ),
            RecoveryEvent::Taken { taken } => {
                if taken {
                    proof {
                        assert(actions@ =~= Seq::empty());
                    }
                    actions
                } else {
                    self.lose_epoch(epoch, ExternalUncertaintyReason::ProtocolViolation)
                }
            },
            _ => {
                actions.push(RecoveryAction::CloseConnection);
                proof {
                    assert(actions@ =~= seq![RecoveryAction::CloseConnection]);
                }
                self.end(&mut actions);
                actions
            },
        }
    }

    fn finish(&mut self, latest: Option<(u64, ExternalEndpointState)>) -> (actions: Vec<
        RecoveryAction,
    >)
        requires
            old(self)@.phase == RecoveryPhase::Ending,
        ensures
            (final(self)@, actions@) == recovery_stepped(
                old(self)@,
                RecoveryEvent::Latest { latest },
            ),
    {
        let mut actions: Vec<RecoveryAction> = Vec::new();
        if let Some((epoch, state)) = latest {
            if !matches!(state, ExternalEndpointState::Unavailable) {
                actions.push(
                    RecoveryAction::MarkUnavailable {
                        epoch,
                        reason: ExternalUncertaintyReason::BridgeRestart,
                    },
                );
            }
            actions.push(
                RecoveryAction::SetState { epoch, state: ExternalEndpointState::Stopped },
            );
        }
        self.state = ExternalRecoveryState::Stopped;
        self.phase = RecoveryPhase::Stopped;
        actions.push(RecoveryAction::Publish(ExternalRecoveryState::Stopped));
        proof {
            assert(actions@ =~= recovery_stepped(old(self)@, RecoveryEvent::Latest { latest }).1);
        }
        actions
    }

    /// Takes what happened: the effects, to be performed in order.
    pub fn step(&mut self, event: RecoveryEvent) -> (actions: Vec<RecoveryAction>)
        requires
            old(self).wf(),
            expected(old(self)@.phase, event),
        ensures
            final(self).wf(),
            (final(self)@, actions@) == recovery_stepped(old(self)@, event),
    {
        let mut actions: Vec<RecoveryAction> = Vec::new();
        match self.phase {
            RecoveryPhase::Reserving => match event {
                RecoveryEvent::Reserved { epoch } => match epoch {
                    Some(epoch) => {
                        self.state = ExternalRecoveryState::Connecting { epoch };
                        self.phase = RecoveryPhase::Connecting { epoch };
                        actions.push(RecoveryAction::Publish(self.state));
                        actions.push(RecoveryAction::Connect { epoch });
                    },
                    None => {
                        self.state = ExternalRecoveryState::Unavailable {
                            epoch: 0,
                            reason: ExternalUncertaintyReason::ProtocolViolation,
                        };
                        self.phase = RecoveryPhase::Waiting;
                        actions.push(RecoveryAction::Publish(self.state));
                        actions.push(RecoveryAction::Wait { delay_ms: self.delay_ms });
                    },
                },
                _ => {
                    self.end(&mut actions);
                },
            },
            RecoveryPhase::Connecting { epoch } => match event {
                RecoveryEvent::Command { command } => {
                    actions = self.command(command);
                },
                RecoveryEvent::Connected { connected } => {
                    if connected {
                        self.delay_ms = self.settings.reconnect_initial_delay_ms;
                        self.state = ExternalRecoveryState::Reconciling { epoch };
                        self.phase = RecoveryPhase::Reconciling { epoch };
                        actions.push(RecoveryAction::Publish(self.state));
                        actions.push(
                            RecoveryAction::SetState {
                                epoch,
                                state: ExternalEndpointState::Reconciling,
                            },
                        );
                        actions.push(RecoveryAction::Reconcile { epoch });
                    } else {
                        let reason = ExternalUncertaintyReason::SocketDisconnect;
                        self.state = ExternalRecoveryState::Unavailable { epoch, reason };
                        self.phase = RecoveryPhase::Waiting;
                        actions.push(RecoveryAction::MarkUnavailable { epoch, reason });
                        actions.push(RecoveryAction::Publish(self.state));
                        actions.push(RecoveryAction::Wait { delay_ms: self.delay_ms });
                    }
                },
                _ => {
                    self.end(&mut actions);
                },
            },
            RecoveryPhase::Reconciling { epoch } => match event {
                RecoveryEvent::Reconciled { outcome: Err(failure) } => {
                    actions = self.lose_epoch(epoch, failure.reason());
                },
                _ => {
                    self.state = ExternalRecoveryState::Ready { epoch };
                    self.phase = RecoveryPhase::Live { epoch };
                    actions.push(
                        RecoveryAction::SetState { epoch, state: ExternalEndpointState::Ready },
                    );
                    actions.push(RecoveryAction::Publish(self.state));
                },
            },
            RecoveryPhase::Live { epoch } => {
                actions = self.live_step(epoch, event);
            },
            RecoveryPhase::Waiting => match event {
                RecoveryEvent::Elapsed => {
                    self.delay_ms = next_delay(
                        self.delay_ms,
                        self.settings.reconnect_max_delay_ms,
                    );
                    self.restart(&mut actions);
                },
                RecoveryEvent::Command { command } => {
                    let handled = handle_preconnect_command(self.reason, command);
                    if !handled.2 {
                        self.delay_ms = next_delay(
                            self.delay_ms,
                            self.settings.reconnect_max_delay_ms,
                        );
                    }
                    actions = self.command(command);
                },
                _ => {
                    self.end(&mut actions);
                },
            },
            RecoveryPhase::Ending => match event {
                RecoveryEvent::Latest { latest } => {
                    actions = self.finish(latest);
                },
                _ => {},
            },
            RecoveryPhase::Stopped => {},
        }
        proof {
            assert(actions@ =~= recovery_stepped(old(self)@, event).1);
        }
        actions
    }
}

/// An epoch is reported ready only by the step that takes the success of its
/// own reconciliation.
pub proof fn ready_follows_reconciliation(view: RecoveryView, event: RecoveryEvent, epoch: u64)
    requires
        expected(view.phase, event),
        recovery_stepped(view, event).1.contains(
            RecoveryAction::Publish(ExternalRecoveryState::Ready { epoch }),
        ),
    ensures
        view.phase == (RecoveryPhase::Reconciling { epoch }),
        event is Reconciled && event->outcome is Ok,
{
}

/// The loss of a reserved epoch is recorded before it is reported.
pub proof fn loss_is_recorded_before_it_is_reported(
    view: RecoveryView,
    event: RecoveryEvent,
    at: int,
    epoch: u64,
    reason: ExternalUncertaintyReason,
)
    requires
        expected(view.phase, event),
        0 <= at < recovery_stepped(view, event).1.len(),
        recovery_stepped(view, event).1[at] == RecoveryAction::Publish(
            ExternalRecoveryState::Unavailable { epoch, reason },
        ),
    ensures
        view.phase == RecoveryPhase::Reserving || (at > 0 && recovery_stepped(view, event).1[at - 1]
            == (RecoveryAction::MarkUnavailable { epoch, reason })),
{
}

/// The reported state changes only by a report, and the last report of a step
/// is the state after it.
pub proof fn reports_are_the_state(view: RecoveryView, event: RecoveryEvent)
    requires
        expected(view.phase, event),
    ensures
        ({
            let (next, actions) = recovery_stepped(view, event);
            next.state != view.state ==> actions.contains(RecoveryAction::Publish(next.state))
        }),
        ({
            let (next, actions) = recovery_stepped(view, event);
            forall|k: int|
                0 <= k < actions.len() ==> (#[trigger] actions[k] matches RecoveryAction::Publish(
                    state,
                ) ==> state == next.state)
        }),
{
    let (next, actions) = recovery_stepped(view, event);
    if next.state != view.state {
        assert(exists|k: int|
            0 <= k < actions.len() && actions[k] == RecoveryAction::Publish(next.state)) by {
            if actions.len() > 0 && actions[0] == RecoveryAction::Publish(next.state) {
            } else if actions.len() > 1 && actions[1] == RecoveryAction::Publish(next.state) {
            } else {
                assert(actions[2] == RecoveryAction::Publish(next.state));
            }
        }
    }
}

/// A command that wants an answer gets one, whenever it comes.
pub proof fn commands_are_answered(view: RecoveryView, command: RecoveryCommand)
    requires
        expected(view.phase, RecoveryEvent::Command { command: Some(command) }),
        command is Reconnect || command is Shutdown,
    ensures
        recovery_stepped(view, RecoveryEvent::Command { command: Some(command) }).1.contains(
            RecoveryAction::Reply,
        ),
{
    let actions = recovery_stepped(view, RecoveryEvent::Command { command: Some(command) }).1;
    if view.phase is Live {
        if command is Reconnect {
            assert(actions[3] == RecoveryAction::Reply);
        } else {
            assert(actions[1] == RecoveryAction::Reply);
        }
    } else {
        assert(actions[0] == RecoveryAction::Reply);
    }
}

/// The next epoch is reserved with the reason why the one before was lost.
pub proof fn next_epoch_carries_the_reason(view: RecoveryView, event: RecoveryEvent, at: int)
    requires
        expected(view.phase, event),
        0 <= at < recovery_stepped(view, event).1.len(),
        recovery_stepped(view, event).1[at] is Reserve,
    ensures
        recovery_stepped(view, event).1[at] == (RecoveryAction::Reserve {
            reason: recovery_stepped(view, event).0.reason,
        }),
        at == recovery_stepped(view, event).1.len() - 1,
{
}

proof fn lemma_published_concat(left: Seq<RecoveryAction>, right: Seq<RecoveryAction>)
    ensures
        published(left + right) == published(left) + published(right),
    decreases right.len(),
{
    if right.len() == 0 {
        assert(left + right =~= left);
        assert(published(left) + published(right) =~= published(left));
    } else {
        lemma_published_concat(left, right.drop_last());
        assert((left + right).drop_last() =~= left + right.drop_last());
        assert((left + right).last() == right.last());
        assert(published(left + right) =~= published(left) + published(right));
    }
}

proof fn lemma_one_report(actions: Seq<RecoveryAction>, at: int)
    requires
        forall|k: int| 0 <= k < actions.len() && k != at ==> !(#[trigger] actions[k] is Publish),
    ensures
        published(actions) == if 0 <= at < actions.len() && actions[at] is Publish {
            seq![actions[at]->Publish_0]
        } else {
            Seq::empty()
        },
    decreases actions.len(),
{
    if actions.len() > 0 {
        lemma_one_report(actions.drop_last(), at);
        assert(Seq::<ExternalRecoveryState>::empty().push(actions.last()->Publish_0) =~= seq![
            actions.last()->Publish_0,
        ]);
    }
}

/// What one step reports: at most one state, and which one where it matters.
spec fn step_told(
    phase: RecoveryPhase,
    event: RecoveryEvent,
    next: RecoveryPhase,
    reports: Seq<ExternalRecoveryState>,
) -> bool {
    &&& reports.len() <= 1
    &&& next is Stopped <==> reports.len() == 1 && reports[0] is Stopped
    &&& !(phase is Stopped)
    &&& next matches RecoveryPhase::Connecting { epoch } ==> event == (RecoveryEvent::Reserved {
        epoch: Some(epoch),
    }) && reports.len() == 1 && reports[0] == (ExternalRecoveryState::Connecting { epoch })
    &&& next matches RecoveryPhase::Reconciling { epoch } ==> phase == (RecoveryPhase::Connecting {
        epoch,
    }) && event == (RecoveryEvent::Connected { connected: true }) && reports.len() == 1
        && reports[0] == (ExternalRecoveryState::Reconciling { epoch })
    &&& reports.len() == 1 ==> (reports[0] matches ExternalRecoveryState::Ready { epoch } ==> phase
        == (RecoveryPhase::Reconciling { epoch }))
}

proof fn lemma_step_publishes(view: RecoveryView, event: RecoveryEvent)
    requires
        expected(view.phase, event),
    ensures
        step_told(
            view.phase,
            event,
            recovery_stepped(view, event).0.phase,
            published(recovery_stepped(view, event).1),
        ),
{
    let (next, actions) = recovery_stepped(view, event);
    let at: int = if actions.len() > 0 && actions[0] is Publish {
        0
    } else if actions.len() > 1 && actions[1] is Publish {
        1
    } else {
        2
    };
    assert(actions.len() <= 5);
    assert forall|k: int| 0 <= k < actions.len() && k != at implies !(
    #[trigger] actions[k] is Publish) by {}
    lemma_one_report(actions, at);
    reports_are_the_state(view, event);
}

/// What a run has reported by the time that it is in a phase.
spec fn run_told(
    phase: RecoveryPhase,
    events: Seq<RecoveryEvent>,
    reports: Seq<ExternalRecoveryState>,
) -> bool {
    let last = events.len() - 1;
    let end = reports.len() - 1;
    &&& phase is Stopped ==> end >= 0 && reports[end] is Stopped
    &&& forall|k: int|
        0 <= k < reports.len() && #[trigger] reports[k] is Stopped ==> phase is Stopped && k == end
    &&& phase matches RecoveryPhase::Connecting { epoch } ==> last >= 0 && events[last] == (
    RecoveryEvent::Reserved { epoch: Some(epoch) }) && end >= 0 && reports[end] == (
    ExternalRecoveryState::Connecting { epoch })
    &&& phase matches RecoveryPhase::Reconciling { epoch } ==> last >= 1 && events[last - 1] == (
    RecoveryEvent::Reserved { epoch: Some(epoch) }) && events[last] == (RecoveryEvent::Connected {
        connected: true,
    }) && end >= 1 && reports[end - 1] == (ExternalRecoveryState::Connecting { epoch })
        && reports[end] == (ExternalRecoveryState::Reconciling { epoch })
    &&& forall|k: int|
        0 <= k < reports.len() ==> (#[trigger] reports[k] matches ExternalRecoveryState::Ready {
            epoch,
        } ==> k >= 2 && reports[k - 2] == (ExternalRecoveryState::Connecting { epoch })
            && reports[k - 1] == (ExternalRecoveryState::Reconciling { epoch }))
}

proof fn lemma_told_step(
    phase: RecoveryPhase,
    events: Seq<RecoveryEvent>,
    reports: Seq<ExternalRecoveryState>,
    event: RecoveryEvent,
    next: RecoveryPhase,
    more: Seq<ExternalRecoveryState>,
)
    requires
        run_told(phase, events, reports),
        step_told(phase, event, next, more),
    ensures
        run_told(next, events.push(event), reports + more),
{
    let all = reports + more;
    assert forall|k: int| 0 <= k < reports.len() implies #[trigger] all[k] == reports[k] by {}
    if more.len() == 1 {
        assert(all[all.len() - 1] == more[0]);
    } else {
        assert(all =~= reports);
    }
}

proof fn lemma_recovery_run(settings: ExternalRecoverySettings, events: Seq<RecoveryEvent>)
    requires
        recovery_ran(settings, events),
    ensures
        run_told(
            recovery_run(settings, events).0.phase,
            events,
            published(recovery_run(settings, events).1),
        ),
    decreases events.len(),
{
    if events.len() > 0 {
        let before = events.drop_last();
        lemma_recovery_run(settings, before);
        let (view, actions) = recovery_run(settings, before);
        let more = recovery_stepped(view, events.last()).1;
        lemma_step_publishes(view, events.last());
        lemma_published_concat(actions, more);
        lemma_told_step(
            view.phase,
            before,
            published(actions),
            events.last(),
            recovery_stepped(view, events.last()).0.phase,
            published(more),
        );
        assert(before.push(events.last()) =~= events);
    }
}

/// Over a whole run, a recovery that has stopped reported that it stopped, last
/// of all and once; every epoch that was reported ready was reported as
/// connecting and as reconciling right before; and a recovery that is cancelled
/// before it begins reports nothing but that it stopped.
pub proof fn runs_report_their_epochs_in_order(
    settings: ExternalRecoverySettings,
    events: Seq<RecoveryEvent>,
)
    requires
        recovery_ran(settings, events),
    ensures
        ({
            let (view, actions) = recovery_run(settings, events);
            let reports = published(actions);
            &&& view.phase is Stopped ==> reports.len() > 0 && reports.last() is Stopped
            &&& forall|k: int|
                0 <= k < reports.len() && #[trigger] reports[k] is Stopped ==> view.phase is Stopped
                    && k == reports.len() - 1
            &&& forall|k: int|
                0 <= k < reports.len() ==> (#[trigger] reports[k] matches
                    ExternalRecoveryState::Ready { epoch } ==> k >= 2 && reports[k - 2] == (
                ExternalRecoveryState::Connecting { epoch }) && reports[k - 1] == (
                ExternalRecoveryState::Reconciling { epoch }))
            &&& events.len() > 0 && events[0] is Cancelled ==> reports == (
            if view.phase is Stopped {
                seq![ExternalRecoveryState::Stopped]
            } else {
                Seq::empty()
            })
        }),
{
    lemma_recovery_run(settings, events);
    if events.len() > 0 && events[0] is Cancelled {
        lemma_cancelled_run(settings, events);
    }
}

proof fn lemma_cancelled_run(settings: ExternalRecoverySettings, events: Seq<RecoveryEvent>)
    requires
        recovery_ran(settings, events),
        events.len() > 0,
        events[0] is Cancelled,
    ensures
        ({
            let (view, actions) = recovery_run(settings, events);
            ||| view.phase is Ending && published(actions) == Seq::<ExternalRecoveryState>::empty()
            ||| view.phase is Stopped && published(actions) == seq![ExternalRecoveryState::Stopped]
        }),
    decreases events.len(),
{
    let before = events.drop_last();
    let (view, actions) = recovery_run(settings, before);
    let (next, more) = recovery_stepped(view, events.last());
    lemma_step_publishes(view, events.last());
    lemma_published_concat(actions, more);
    if events.len() == 1 {
        assert(recovery_run(settings, before) == (
            recovery_begun(settings),
            Seq::<RecoveryAction>::empty(),
        ));
        assert(published(actions) =~= Seq::empty());
        reveal_with_fuel(published, 2);
        assert(published(more) =~= Seq::empty());
        assert(published(actions + more) =~= Seq::empty());
    } else {
        assert(before[0] == events[0]);
        lemma_cancelled_run(settings, before);
        assert(published(actions + more) =~= seq![ExternalRecoveryState::Stopped]);
    }
}

/// Over a whole run, an epoch is reported ready only by the step that takes the
/// success of its reconciliation, right after the store reserved that epoch and
/// its socket was opened.
pub proof fn ready_epochs_were_reserved_and_reconciled(
    settings: ExternalRecoverySettings,
    events: Seq<RecoveryEvent>,
    at: int,
    epoch: u64,
)
    requires
        recovery_ran(settings, events),
        0 <= at < events.len(),
        recovery_stepped(recovery_run(settings, events.take(at)).0, events[at]).1.contains(
            RecoveryAction::Publish(ExternalRecoveryState::Ready { epoch }),
        ),
    ensures
        at >= 2,
        events[at - 2] == (RecoveryEvent::Reserved { epoch: Some(epoch) }),
        events[at - 1] == (RecoveryEvent::Connected { connected: true }),
        events[at] is Reconciled && events[at]->outcome is Ok,
    decreases events.len(),
{
    let before = events.drop_last();
    if at < before.len() {
        assert(before.take(at) =~= events.take(at));
        ready_epochs_were_reserved_and_reconciled(settings, before, at, epoch);
    } else {
        assert(events.take(at) =~= before);
        lemma_recovery_run(settings, before);
        let view = recovery_run(settings, before).0;
        ready_follows_reconciliation(view, events[at], epoch);
    }
}

/// Recovery goes on step by step on one epoch: the reserved epoch is connected,
/// the connected one reconciled, the reconciled one ready; and a connection that
/// came about makes the next delay the first one again.
pub proof fn epochs_go_step_by_step(view: RecoveryView, epoch: u64)
    ensures
        view.phase is Reserving ==> ({
            let (next, actions) = recovery_stepped(
                view,
                RecoveryEvent::Reserved { epoch: Some(epoch) },
            );
            &&& next.phase == (RecoveryPhase::Connecting { epoch })
            &&& next.delay_ms == view.delay_ms && next.reason == view.reason
            &&& actions == seq![
                RecoveryAction::Publish(ExternalRecoveryState::Connecting { epoch }),
                RecoveryAction::Connect { epoch },
            ]
        }),
        view.phase == (RecoveryPhase::Connecting { epoch }) ==> ({
            let (next, actions) = recovery_stepped(
                view,
                RecoveryEvent::Connected { connected: true },
            );
            &&& next.phase == (RecoveryPhase::Reconciling { epoch })
            &&& next.delay_ms == view.settings.reconnect_initial_delay_ms
            &&& actions == seq![
                RecoveryAction::Publish(ExternalRecoveryState::Reconciling { epoch }),
                RecoveryAction::SetState { epoch, state: ExternalEndpointState::Reconciling },
                RecoveryAction::Reconcile { epoch },
            ]
        }),
        view.phase == (RecoveryPhase::Reconciling { epoch }) ==> ({
            let (next, actions) = recovery_stepped(
                view,
                RecoveryEvent::Reconciled { outcome: Ok(()) },
            );
            &&& next.phase == (RecoveryPhase::Live { epoch })
            &&& actions == seq![
                RecoveryAction::SetState { epoch, state: ExternalEndpointState::Ready },
                RecoveryAction::Publish(ExternalRecoveryState::Ready { epoch }),
            ]
        }),
        view.phase == (RecoveryPhase::Live { epoch }) ==> recovery_stepped(
            view,
            RecoveryEvent::Taken { taken: true },
        ) == (view, Seq::<RecoveryAction>::empty()),
{
}

/// An epoch that is lost goes on record for the reason that it was lost for,
/// its connection is dropped, and the next attempt waits for the delay at hand.
pub proof fn lost_epochs_are_dropped(
    view: RecoveryView,
    epoch: u64,
    failure: EpochFailure,
    exit: TransportExit,
)
    ensures
        ({
            let lost = |step: (RecoveryView, Seq<RecoveryAction>), reason: ExternalUncertaintyReason|
                {
                    &&& step.0.phase is Waiting
                    &&& step.0.reason == reason
                    &&& step.0.delay_ms == view.delay_ms
                    &&& step.1 == seq![
                        RecoveryAction::MarkUnavailable { epoch, reason },
                        RecoveryAction::Publish(ExternalRecoveryState::Unavailable { epoch, reason }),
                        RecoveryAction::Abort,
                        RecoveryAction::Wait { delay_ms: view.delay_ms },
                    ]
                };
            let broken = ExternalUncertaintyReason::ProtocolViolation;
            let gone = ExternalUncertaintyReason::SocketDisconnect;
            &&& view.phase == (RecoveryPhase::Reconciling { epoch }) ==> lost(
                recovery_stepped(view, RecoveryEvent::Reconciled { outcome: Err(failure) }),
                match failure {
                    EpochFailure::ConnectionLost => gone,
                    EpochFailure::RequestTimeout => ExternalUncertaintyReason::RequestTimeout,
                    _ => broken,
                },
            )
            &&& view.phase == (RecoveryPhase::Live { epoch }) ==> {
                &&& lost(recovery_stepped(view, RecoveryEvent::EventsEnded), gone)
                &&& lost(recovery_stepped(view, RecoveryEvent::Unreadable), broken)
                &&& lost(recovery_stepped(view, RecoveryEvent::Taken { taken: false }), broken)
                &&& lost(
                    recovery_stepped(view, RecoveryEvent::TransportClosed { exit }),
                    if exit == TransportExit::ProtocolViolation || exit
                        == TransportExit::TaskFailed {
                        broken
                    } else {
                        gone
                    },
                )
            }
        }),
{
}

/// An attempt that fails before it has a connection waits for the delay at
/// hand, and each wait that passes doubles the next delay, up to the longest.
pub proof fn failed_attempts_wait_longer(view: RecoveryView, epoch: u64)
    ensures
        view.phase is Reserving ==> ({
            let (next, actions) = recovery_stepped(view, RecoveryEvent::Reserved { epoch: None });
            next.phase is Waiting && next.delay_ms == view.delay_ms && next.reason == view.reason
                && actions.last() == (RecoveryAction::Wait { delay_ms: view.delay_ms })
        }),
        view.phase == (RecoveryPhase::Connecting { epoch }) ==> ({
            let (next, actions) = recovery_stepped(
                view,
                RecoveryEvent::Connected { connected: false },
            );
            next.phase is Waiting && next.delay_ms == view.delay_ms && next.reason == view.reason
                && actions.first() == (RecoveryAction::MarkUnavailable {
                epoch,
                reason: ExternalUncertaintyReason::SocketDisconnect,
            }) && actions.last() == (RecoveryAction::Wait { delay_ms: view.delay_ms })
        }),
        view.phase is Waiting ==> ({
            let (next, actions) = recovery_stepped(view, RecoveryEvent::Elapsed);
            &&& next.phase is Reserving
            &&& actions == seq![RecoveryAction::Reserve { reason: view.reason }]
            &&& 2 * view.delay_ms <= view.settings.reconnect_max_delay_ms ==> next.delay_ms == 2
                * view.delay_ms
            &&& 2 * view.delay_ms > view.settings.reconnect_max_delay_ms ==> next.delay_ms
                == view.settings.reconnect_max_delay_ms
        }),
{
}

/// What a command does: a wake begins a new epoch, a reconnection begins one
/// for the reason that it names and is answered, a shutdown is answered and
/// ends the recovery, and so does the loss of whoever could command it. A live
/// epoch is fenced first where it is given up for a reason.
pub proof fn commands_are_obeyed(
    view: RecoveryView,
    epoch: u64,
    reason: ExternalUncertaintyReason,
)
    ensures
        ({
            let step = |command: Option<RecoveryCommand>|
                recovery_stepped(view, RecoveryEvent::Command { command });
            let wake = step(Some(RecoveryCommand::Wake));
            let reconnect = step(Some(RecoveryCommand::Reconnect { reason }));
            let shutdown = step(Some(RecoveryCommand::Shutdown));
            let gone = step(None);
            &&& view.phase == (RecoveryPhase::Connecting { epoch }) || view.phase is Waiting ==> {
                &&& wake.0.phase is Reserving && wake.1 == seq![
                    RecoveryAction::Reserve { reason: view.reason },
                ]
                &&& reconnect.0.phase is Reserving && reconnect.0.reason == reason
                &&& reconnect.1 == seq![RecoveryAction::Reply, RecoveryAction::Reserve { reason }]
                &&& shutdown.0.phase is Ending && shutdown.1 == seq![
                    RecoveryAction::Reply,
                    RecoveryAction::ReadLatest,
                ]
                &&& gone.0.phase is Ending && gone.1 == seq![RecoveryAction::ReadLatest]
            }
            &&& view.phase == (RecoveryPhase::Live { epoch }) ==> {
                &&& wake.0.phase is Reserving && wake.1 == seq![
                    RecoveryAction::Abort,
                    RecoveryAction::Reserve {
                        reason: ExternalUncertaintyReason::SocketDisconnect,
                    },
                ]
                &&& reconnect.0.phase is Reserving && reconnect.1 == seq![
                    RecoveryAction::MarkUnavailable { epoch, reason },
                    RecoveryAction::Publish(ExternalRecoveryState::Unavailable { epoch, reason }),
                    RecoveryAction::Abort,
                    RecoveryAction::Reply,
                    RecoveryAction::Reserve { reason },
                ]
                &&& shutdown.0.phase is Ending && shutdown.1 == seq![
                    RecoveryAction::CloseConnection,
                    RecoveryAction::Reply,
                    RecoveryAction::ReadLatest,
                ]
                &&& gone.0.phase is Ending && gone.1 == seq![RecoveryAction::ReadLatest]
            }
        }),
{
    let step = |command: Option<RecoveryCommand>|
        recovery_stepped(view, RecoveryEvent::Command { command });
    let reserve = seq![RecoveryAction::Reserve { reason: view.reason }];
    assert(Seq::<RecoveryAction>::empty() + reserve =~= reserve);
    assert(Seq::<RecoveryAction>::empty() + seq![RecoveryAction::ReadLatest] =~= seq![
        RecoveryAction::ReadLatest,
    ]);
    assert(seq![RecoveryAction::Reply] + seq![RecoveryAction::ReadLatest] =~= seq![
        RecoveryAction::Reply,
        RecoveryAction::ReadLatest,
    ]);
    assert(seq![RecoveryAction::Reply] + seq![RecoveryAction::Reserve { reason }] =~= seq![
        RecoveryAction::Reply,
        RecoveryAction::Reserve { reason },
    ]);
    assert(view.phase == (RecoveryPhase::Live { epoch }) ==> step(Some(RecoveryCommand::Wake)).1
        =~= seq![
        RecoveryAction::Abort,
        RecoveryAction::Reserve { reason: ExternalUncertaintyReason::SocketDisconnect },
    ]);
    assert(view.phase == (RecoveryPhase::Live { epoch }) ==> step(
        Some(RecoveryCommand::Reconnect { reason }),
    ).1 =~= seq![
        RecoveryAction::MarkUnavailable { epoch, reason },
        RecoveryAction::Publish(ExternalRecoveryState::Unavailable { epoch, reason }),
        RecoveryAction::Abort,
        RecoveryAction::Reply,
        RecoveryAction::Reserve { reason },
    ]);
    assert(view.phase == (RecoveryPhase::Live { epoch }) ==> step(
        Some(RecoveryCommand::Shutdown),
    ).1 =~= seq![
        RecoveryAction::CloseConnection,
        RecoveryAction::Reply,
        RecoveryAction::ReadLatest,
    ]);
}

/// At the end the newest epoch of the endpoint is marked for a restart of the
/// bridge, unless it is unavailable already, and left as stopped.
pub proof fn the_newest_epoch_is_stopped(
    view: RecoveryView,
    epoch: u64,
    state: ExternalEndpointState,
)
    requires
        view.phase is Ending,
    ensures
        ({
            let (next, actions) = recovery_stepped(
                view,
                RecoveryEvent::Latest { latest: Some((epoch, state)) },
            );
            let stopped = RecoveryAction::SetState {
                epoch,
                state: ExternalEndpointState::Stopped,
            };
            let told = RecoveryAction::Publish(ExternalRecoveryState::Stopped);
            &&& next.phase is Stopped && next.state is Stopped
            &&& state is Unavailable ==> actions == seq![stopped, told]
            &&& !(state is Unavailable) ==> actions == seq![
                RecoveryAction::MarkUnavailable {
                    epoch,
                    reason: ExternalUncertaintyReason::BridgeRestart,
                },
                stopped,
                told,
            ]
            &&& recovery_stepped(view, RecoveryEvent::Latest { latest: None }).1 == seq![told]
        }),
{
    let actions = recovery_stepped(
        view,
        RecoveryEvent::Latest { latest: Some((epoch, state)) },
    ).1;
    let stopped = RecoveryAction::SetState { epoch, state: ExternalEndpointState::Stopped };
    let told = RecoveryAction::Publish(ExternalRecoveryState::Stopped);
    if state is Unavailable {
        assert(actions =~= seq![stopped, told]);
    } else {
        assert(actions =~= seq![
            RecoveryAction::MarkUnavailable {
                epoch,
                reason: ExternalUncertaintyReason::BridgeRestart,
            },
            stopped,
            told,
        ]);
    }
}

/// A stop of the bridge ends the recovery from every phase that it can come in,
/// and closes a live connection in order first.
pub proof fn stops_end_the_recovery(view: RecoveryView)
    requires
        expected(view.phase, RecoveryEvent::Cancelled),
    ensures
        ({
            let (next, actions) = recovery_stepped(view, RecoveryEvent::Cancelled);
            &&& next.phase is Ending
            &&& actions.last() is ReadLatest
            &&& view.phase is Live ==> actions.len() == 2 && actions[0] is CloseConnection
            &&& !(view.phase is Live) ==> actions.len() == 1
        }),
        ready_epoch_of(view.state) is Some <==> view.state is Ready,
        view.state matches ExternalRecoveryState::Ready { epoch } ==> ready_epoch_of(view.state)
            == Some(epoch),
{
}

/// Settings are sound where a request has time and the delays grow from more
/// than nothing.
pub proof fn sound_delays_grow(settings: ExternalRecoverySettings)
    ensures
        sound_settings(settings) <==> settings.request_timeout_ms != 0 && 0
            < settings.reconnect_initial_delay_ms <= settings.reconnect_max_delay_ms,
        sound_settings(settings) ==> ({
            let view = recovery_begun(settings);
            &&& view.delay_ms == settings.reconnect_initial_delay_ms
            &&& view.phase is Reserving
            &&& view.reason == ExternalUncertaintyReason::BridgeRestart
            &&& recovery_bounded(view)
        }),
{
}

/// Failures of the recovery are told apart by their text.
pub proof fn recovery_errors_are_told_apart(one: ExternalRecoveryError, other: ExternalRecoveryError)
    requires
        recovery_error_text(one) == recovery_error_text(other),
    ensures
        one == other,
{
    reveal_strlit("external recovery requires the resume_shared capability profile");
    reveal_strlit("external recovery settings are invalid");
    reveal_strlit("external recovery durable state failed");
    reveal_strlit("external recovery actor is closed");
    reveal_strlit("external recovery wait timed out");
    assert("external recovery requires the resume_shared capability profile"@.len() == 63);
    assert("external recovery settings are invalid"@.len() == 38);
    assert("external recovery durable state failed"@.len() == 38);
    assert("external recovery actor is closed"@.len() == 33);
    assert("external recovery wait timed out"@.len() == 32);
    assert("external recovery settings are invalid"@[18] == 's');
    assert("external recovery durable state failed"@[18] == 'd');
}

} // verus!
