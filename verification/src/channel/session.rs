//! One run of the channel sidecar, and its supervision: bootstrap, health,
//! restart with backoff, acknowledgements in flight, and the orderly end.
use vstd::prelude::*;

use crate::channel::native::protocol_failure;
use crate::channel::native::retryable_failure;
use crate::channel::native::LarkError;
use crate::channel::native::LarkErrorView;
use crate::channel::sidecar::accepting_response;
use crate::channel::sidecar::compatible_hello;
use crate::channel::sidecar::config_fault;
use crate::channel::sidecar::failure_of;
use crate::channel::sidecar::negative_ack;
use crate::channel::sidecar::negative_ack_value;
use crate::channel::sidecar::state_named;
use crate::channel::sidecar::without_text;
use crate::channel::sidecar::ActiveEventIds;
use crate::channel::sidecar::BaseFrame;
use crate::channel::sidecar::FrameEffect;
use crate::channel::sidecar::HelloFrame;
use crate::channel::sidecar::NodeSidecarConfig;
use crate::channel::sidecar::ResponseFrame;
use crate::channel::ConnectionState;
use crate::channel::ConnectionView;
use crate::json::json;
use crate::limits::MAX_STDERR_LINE_BYTES;
use crate::text::same_text;

verus! {

/// What waiting for one line of the sidecar came to.
pub enum LineRead<T> {
    TimedOut,
    /// The sidecar's output ended.
    Ended,
    Oversized,
    Undecodable,
    Decoded(T),
}

/// Judges the sidecar's hello.
///
/// # Errors
///
/// A static classification of why there is no compatible hello.
pub fn judge_hello(read: LineRead<HelloFrame>, max_frame_bytes: usize) -> (judged: Result<
    (),
    LarkError,
>)
    ensures
        failure_of(judged) == match read {
            LineRead::TimedOut => Some(retryable_failure("waiting for node sidecar hello"@)),
            LineRead::Ended => Some(retryable_failure("reading node sidecar hello"@)),
            LineRead::Oversized => Some(
                protocol_failure("node sidecar hello exceeds the frame bound"@),
            ),
            LineRead::Undecodable => Some(protocol_failure("decoding node sidecar hello"@)),
            LineRead::Decoded(hello) => if compatible_hello(hello, max_frame_bytes) {
                None
            } else {
                Some(protocol_failure("node sidecar hello is incompatible"@))
            },
        },
{
    match read {
        LineRead::TimedOut => Err(LarkError::retryable("waiting for node sidecar hello")),
        LineRead::Ended => Err(LarkError::retryable("reading node sidecar hello")),
        LineRead::Oversized => Err(
            LarkError::protocol("node sidecar hello exceeds the frame bound"),
        ),
        LineRead::Undecodable => Err(LarkError::protocol("decoding node sidecar hello")),
        LineRead::Decoded(hello) => hello.validate(max_frame_bytes),
    }
}

/// Judges the sidecar's answer to its configuration.
///
/// # Errors
///
/// A static classification of why the configuration was not accepted.
pub fn judge_configuration(read: LineRead<ResponseFrame>, id: &str) -> (judged: Result<
    (),
    LarkError,
>)
    ensures
        failure_of(judged) == match read {
            LineRead::TimedOut => Some(
                retryable_failure("waiting for node sidecar configuration"@),
            ),
            LineRead::Ended => Some(retryable_failure("reading node sidecar configuration"@)),
            LineRead::Oversized => Some(
                protocol_failure("node sidecar configuration response exceeds the frame bound"@),
            ),
            LineRead::Undecodable => Some(
                protocol_failure("decoding node sidecar configuration response"@),
            ),
            LineRead::Decoded(response) => if accepting_response(response, id@) {
                None
            } else {
                Some(protocol_failure("node sidecar response is incompatible"@))
            },
        },
{
    match read {
        LineRead::TimedOut => Err(LarkError::retryable("waiting for node sidecar configuration")),
        LineRead::Ended => Err(LarkError::retryable("reading node sidecar configuration")),
        LineRead::Oversized => Err(
            LarkError::protocol("node sidecar configuration response exceeds the frame bound"),
        ),
        LineRead::Undecodable => Err(
            LarkError::protocol("decoding node sidecar configuration response"),
        ),
        LineRead::Decoded(response) => response.validate(id),
    }
}

/// What happens while the first connection is awaited.
pub enum ConnectEvent {
    /// The deadline passed.
    TimedOut,
    /// The sidecar's leader exited.
    LeaderExited,
    /// The sidecar's output ended.
    Ended,
    Oversized,
    /// A line could not be taken.
    Rejected { error: LarkError },
    /// A line was taken.
    Taken { effect: FrameEffect },
}

/// Judges what happens while the first connection is awaited: nothing while it
/// is still awaited.
pub fn wait_until_connected(event: ConnectEvent) -> (judged: Option<Result<(), LarkError>>)
    ensures
        match judged {
            Some(result) => connect_judged(event) == Some(failure_of(result)),
            None => connect_judged(event) is None,
        },
        match event {
            ConnectEvent::TimedOut => judged is Some && failure_of(judged->Some_0) == Some(
                retryable_failure("waiting for initial node sidecar connection"@),
            ),
            ConnectEvent::LeaderExited => judged is Some && failure_of(judged->Some_0) == Some(
                retryable_failure("establishing the initial node sidecar connection"@),
            ),
            ConnectEvent::Ended => judged is Some && failure_of(judged->Some_0) == Some(
                retryable_failure("reading initial node sidecar connection state"@),
            ),
            ConnectEvent::Oversized => judged is Some && failure_of(judged->Some_0) == Some(
                protocol_failure("node sidecar initial state exceeds the frame bound"@),
            ),
            ConnectEvent::Rejected { error } => judged is Some && failure_of(judged->Some_0)
                == Some(error@),
            ConnectEvent::Taken { effect } => match effect {
                FrameEffect::Connected => judged is Some && judged->Some_0 is Ok,
                FrameEffect::Failed => judged is Some && failure_of(judged->Some_0) == Some(
                    retryable_failure("establishing the initial node sidecar connection"@),
                ),
                FrameEffect::Stopped => judged is Some && failure_of(judged->Some_0) == Some(
                    retryable_failure("establishing the initial node sidecar connection"@),
                ),
                FrameEffect::Continue => judged is None,
                FrameEffect::Disconnected => judged is None,
            },
        },
{
    match event {
        ConnectEvent::TimedOut => Some(
            Err(LarkError::retryable("waiting for initial node sidecar connection")),
        ),
        ConnectEvent::LeaderExited => Some(
            Err(LarkError::retryable("establishing the initial node sidecar connection")),
        ),
        ConnectEvent::Ended => Some(
            Err(LarkError::retryable("reading initial node sidecar connection state")),
        ),
        ConnectEvent::Oversized => Some(
            Err(LarkError::protocol("node sidecar initial state exceeds the frame bound")),
        ),
        ConnectEvent::Rejected { error } => Some(Err(error)),
        ConnectEvent::Taken { effect } => match effect {
            FrameEffect::Connected => Some(Ok(())),
            FrameEffect::Failed => Some(
                Err(LarkError::retryable("establishing the initial node sidecar connection")),
            ),
            FrameEffect::Stopped => Some(
                Err(LarkError::retryable("establishing the initial node sidecar connection")),
            ),
            FrameEffect::Continue => None,
            FrameEffect::Disconnected => None,
        },
    }
}

/// How a run of the sidecar ended.
#[derive(Clone, Copy, Debug, PartialEq, Eq, Structural)]
pub enum SessionEnd {
    Crashed { was_healthy: bool },
    Shutdown,
}

/// What happens in a run, at a time of the steady clock where that matters.
#[derive(Clone, Copy, Debug, PartialEq, Eq, Structural)]
pub enum SessionEvent {
    /// The bridge stops.
    Shutdown,
    LeaderExited { now_ms: u64 },
    /// A line was taken.
    Taken { effect: FrameEffect, now_ms: u64 },
    /// A line could not be taken.
    Rejected,
    /// A line was too long or no text.
    Unreadable { now_ms: u64 },
    /// The sidecar's output ended.
    Ended { now_ms: u64 },
}

/// Content of a run.
pub struct SessionView {
    pub healthy_uptime_ms: u64,
    pub connected_since_ms: Option<u64>,
    pub was_healthy: bool,
}

/// Whether a connection has lasted long enough.
pub open spec fn lasted(since_ms: Option<u64>, now_ms: u64, threshold_ms: u64) -> bool {
    since_ms is Some && (if now_ms >= since_ms->Some_0 {
        now_ms - since_ms->Some_0
    } else {
        0
    }) >= threshold_ms
}

/// Whether a connection has lasted long enough.
pub fn connected_for(since_ms: Option<u64>, now_ms: u64, threshold_ms: u64) -> (long: bool)
    ensures
        long == lasted(since_ms, now_ms, threshold_ms),
{
    match since_ms {
        Some(since) => {
            let elapsed: u64 = if now_ms >= since {
                now_ms - since
            } else {
                0
            };
            elapsed >= threshold_ms
        },
        None => false,
    }
}

/// The run with its health brought up to date.
pub open spec fn measured(view: SessionView, now_ms: u64) -> SessionView {
    SessionView {
        was_healthy: view.was_healthy || lasted(
            view.connected_since_ms,
            now_ms,
            view.healthy_uptime_ms,
        ),
        ..view
    }
}

/// What an event leads to: the run after it, and its end where it ended.
pub open spec fn session_stepped(view: SessionView, event: SessionEvent) -> (
    SessionView,
    Option<SessionEnd>,
) {
    match event {
        SessionEvent::Shutdown => (view, Some(SessionEnd::Shutdown)),
        SessionEvent::LeaderExited { now_ms } => {
            let next = measured(view, now_ms);
            (next, Some(SessionEnd::Crashed { was_healthy: next.was_healthy }))
        },
        SessionEvent::Unreadable { now_ms } => {
            let next = measured(view, now_ms);
            (next, Some(SessionEnd::Crashed { was_healthy: next.was_healthy }))
        },
        SessionEvent::Ended { now_ms } => {
            let next = measured(view, now_ms);
            (next, Some(SessionEnd::Crashed { was_healthy: next.was_healthy }))
        },
        SessionEvent::Rejected => (
            view,
            Some(SessionEnd::Crashed { was_healthy: view.was_healthy }),
        ),
        SessionEvent::Taken { effect, now_ms } => match effect {
            FrameEffect::Continue => (view, None),
            FrameEffect::Connected => (
                SessionView {
                    connected_since_ms: if view.connected_since_ms is Some {
                        view.connected_since_ms
                    } else {
                        Some(now_ms)
                    },
                    ..view
                },
                None,
            ),
            _ => {
                let next = SessionView { connected_since_ms: None, ..measured(view, now_ms) };
                if effect == FrameEffect::Disconnected {
                    (next, None)
                } else {
                    (next, Some(SessionEnd::Crashed { was_healthy: next.was_healthy }))
                }
            },
        },
    }
}

/// One run of the sidecar, from its first connection on.
pub struct SidecarSession {
    healthy_uptime_ms: u64,
    connected_since_ms: Option<u64>,
    was_healthy: bool,
}

impl View for SidecarSession {
    type V = SessionView;

    closed spec fn view(&self) -> SessionView {
        SessionView {
            healthy_uptime_ms: self.healthy_uptime_ms,
            connected_since_ms: self.connected_since_ms,
            was_healthy: self.was_healthy,
        }
    }
}

impl SidecarSession {
    /// A run that is connected now.
    pub fn new(healthy_uptime_ms: u64, now_ms: u64) -> (session: SidecarSession)
        ensures
            session@ == (SessionView {
                healthy_uptime_ms,
                connected_since_ms: Some(now_ms),
                was_healthy: false,
            }),
    {
        SidecarSession { healthy_uptime_ms, connected_since_ms: Some(now_ms), was_healthy: false }
    }

    fn measure(&mut self, now_ms: u64)
        ensures
            final(self)@ == measured(old(self)@, now_ms),
    {
        if connected_for(self.connected_since_ms, now_ms, self.healthy_uptime_ms) {
            self.was_healthy = true;
        }
    }

    /// Takes what happened: how the run ended, where it did.
    pub fn run(&mut self, event: SessionEvent) -> (end: Option<SessionEnd>)
        ensures
            (final(self)@, end) == session_stepped(old(self)@, event),
    {
        match event {
            SessionEvent::Shutdown => Some(SessionEnd::Shutdown),
            SessionEvent::LeaderExited { now_ms } => {
                self.measure(now_ms);
                Some(SessionEnd::Crashed { was_healthy: self.was_healthy })
            },
            SessionEvent::Unreadable { now_ms } => {
                self.measure(now_ms);
                Some(SessionEnd::Crashed { was_healthy: self.was_healthy })
            },
            SessionEvent::Ended { now_ms } => {
                self.measure(now_ms);
                Some(SessionEnd::Crashed { was_healthy: self.was_healthy })
            },
            SessionEvent::Rejected => Some(
                SessionEnd::Crashed { was_healthy: self.was_healthy },
            ),
            SessionEvent::Taken { effect, now_ms } => match effect {
                FrameEffect::Continue => None,
                FrameEffect::Connected => {
                    if self.connected_since_ms.is_none() {
                        self.connected_since_ms = Some(now_ms);
                    }
                    None
                },
                _ => {
                    self.measure(now_ms);
                    self.connected_since_ms = None;
                    if matches!(effect, FrameEffect::Disconnected) {
                        None
                    } else {
                        Some(SessionEnd::Crashed { was_healthy: self.was_healthy })
                    }
                },
            },
        }
    }
}

/// A run ends on exactly those frames that leave the source degraded or
/// stopped.
pub proof fn runs_end_when_the_source_is_lost(
    view: SessionView,
    word: Seq<char>,
    attempt: Option<u32>,
    delay_ms: Option<u64>,
    now_ms: u64,
)
    requires
        state_named(word, attempt, delay_ms) is Some,
    ensures
        ({
            let (state, effect) = state_named(word, attempt, delay_ms)->Some_0;
            session_stepped(view, SessionEvent::Taken { effect, now_ms }).1 is Some <==> (state
                is Degraded || state is Stopped)
        }),
{
}

/// A run that was healthy once stays so.
pub proof fn health_is_kept(view: SessionView, event: SessionEvent)
    requires
        view.was_healthy,
    ensures
        session_stepped(view, event).0.was_healthy,
        session_stepped(view, event).1 matches Some(SessionEnd::Crashed { was_healthy })
            ==> was_healthy,
{
}

/// An effect of the supervision, to be performed in order.
pub enum SupervisorAction {
    Publish { state: ConnectionState },
    /// Start a run and wait for its first connection.
    Start,
    /// Report how the first start went.
    ReportReady { result: Result<(), LarkError> },
    /// Go on with the run.
    Run,
    /// Choose the delay after this many failures.
    ChooseDelay { failures: u32 },
    /// Wait for the delay to pass, or for the bridge to stop.
    Wait { delay_ms: u64 },
}

/// Content of an effect of the supervision.
pub enum SupervisorActionView {
    Publish { state: ConnectionView },
    Start,
    ReportReady { failure: Option<LarkErrorView> },
    Run,
    ChooseDelay { failures: u32 },
    Wait { delay_ms: u64 },
}

impl View for SupervisorAction {
    type V = SupervisorActionView;

    open spec fn view(&self) -> SupervisorActionView {
        match *self {
            SupervisorAction::Publish { state } => SupervisorActionView::Publish { state: state@ },
            SupervisorAction::Start => SupervisorActionView::Start,
            SupervisorAction::ReportReady { result } => SupervisorActionView::ReportReady {
                failure: failure_of(result),
            },
            SupervisorAction::Run => SupervisorActionView::Run,
            SupervisorAction::ChooseDelay { failures } => SupervisorActionView::ChooseDelay {
                failures,
            },
            SupervisorAction::Wait { delay_ms } => SupervisorActionView::Wait { delay_ms },
        }
    }
}

/// Contents of a list of effects.
pub open spec fn supervisor_actions(actions: Seq<SupervisorAction>) -> Seq<SupervisorActionView> {
    actions.map_values(|action: SupervisorAction| action@)
}

/// What happens to the supervision.
pub enum SupervisorEvent {
    /// A run was started and connected, or it could not be.
    Started { result: Result<(), LarkError> },
    /// A run ended.
    SessionEnded { end: SessionEnd },
    /// The delay was chosen.
    DelayChosen { delay_ms: u64 },
    /// The delay passed; whether the bridge stops.
    Elapsed { cancelled: bool },
    /// The bridge stops.
    Cancelled,
}

/// What the supervision waits for.
#[derive(Clone, Copy, Debug, PartialEq, Eq, Structural)]
pub enum SupervisorPhase {
    Starting,
    Running,
    Choosing,
    Waiting,
    Ended,
}

/// Content of the supervision.
pub struct SupervisorView {
    /// Failures of the current outage.
    pub failures: u32,
    /// Whether the first start was reported.
    pub reported: bool,
    pub phase: SupervisorPhase,
}

/// A number of failures with one more, up to the largest.
pub open spec fn one_more(failures: u32) -> u32 {
    if failures < u32::MAX {
        (failures + 1) as u32
    } else {
        failures
    }
}

/// The supervision ends in order.
pub open spec fn supervision_stopped(view: SupervisorView) -> (
    SupervisorView,
    Seq<SupervisorActionView>,
) {
    (
        SupervisorView { phase: SupervisorPhase::Ended, ..view },
        seq![SupervisorActionView::Publish { state: ConnectionView::Stopped }],
    )
}

/// A run is started, unless the bridge stops.
pub open spec fn run_started(view: SupervisorView, cancelled: bool) -> (
    SupervisorView,
    Seq<SupervisorActionView>,
) {
    if cancelled {
        supervision_stopped(view)
    } else {
        (
            SupervisorView { phase: SupervisorPhase::Starting, ..view },
            seq![
                SupervisorActionView::Publish {
                    state: ConnectionView::Connecting { attempt: one_more(view.failures) },
                },
                SupervisorActionView::Start,
            ],
        )
    }
}

/// A run failed: the delay before the next is to be chosen.
pub open spec fn run_failed(view: SupervisorView) -> (SupervisorView, Seq<SupervisorActionView>) {
    let failures = one_more(view.failures);
    (
        SupervisorView { failures, phase: SupervisorPhase::Choosing, ..view },
        seq![SupervisorActionView::ChooseDelay { failures }],
    )
}

/// Whether an event can happen in a phase.
pub open spec fn supervisor_expected(phase: SupervisorPhase, event: SupervisorEvent) -> bool {
    match phase {
        SupervisorPhase::Starting => event is Started,
        SupervisorPhase::Running => event is SessionEnded,
        SupervisorPhase::Choosing => event is DelayChosen,
        SupervisorPhase::Waiting => event is Elapsed || event is Cancelled,
        SupervisorPhase::Ended => false,
    }
}

/// What an event leads to.
pub open spec fn supervised(view: SupervisorView, event: SupervisorEvent) -> (
    SupervisorView,
    Seq<SupervisorActionView>,
) {
    match event {
        SupervisorEvent::Started { result } => match result {
            Ok(_) => (
                SupervisorView { reported: true, phase: SupervisorPhase::Running, ..view },
                if view.reported {
                    seq![SupervisorActionView::Run]
                } else {
                    seq![
                        SupervisorActionView::ReportReady { failure: None },
                        SupervisorActionView::Run,
                    ]
                },
            ),
            Err(error) => if view.reported {
                run_failed(view)
            } else {
                (
                    SupervisorView { reported: true, phase: SupervisorPhase::Ended, ..view },
                    seq![
                        SupervisorActionView::ReportReady { failure: Some(error@) },
                        SupervisorActionView::Publish {
                            state: ConnectionView::Degraded {
                                reason: "node_sidecar_startup_failed"@,
                            },
                        },
                    ],
                )
            },
        },
        SupervisorEvent::SessionEnded { end } => match end {
            SessionEnd::Shutdown => supervision_stopped(view),
            SessionEnd::Crashed { was_healthy } => run_failed(
                SupervisorView {
                    failures: if was_healthy {
                        0
                    } else {
                        view.failures
                    },
                    ..view
                },
            ),
        },
        SupervisorEvent::DelayChosen { delay_ms } => (
            SupervisorView { phase: SupervisorPhase::Waiting, ..view },
            seq![
                SupervisorActionView::Publish {
                    state: ConnectionView::Backoff { attempt: view.failures, delay_ms },
                },
                SupervisorActionView::Wait { delay_ms },
            ],
        ),
        SupervisorEvent::Elapsed { cancelled } => run_started(view, cancelled),
        SupervisorEvent::Cancelled => supervision_stopped(view),
    }
}

/// The supervision of the sidecar.
pub struct SidecarSupervisor {
    failures: u32,
    reported: bool,
    phase: SupervisorPhase,
}

impl View for SidecarSupervisor {
    type V = SupervisorView;

    closed spec fn view(&self) -> SupervisorView {
        SupervisorView { failures: self.failures, reported: self.reported, phase: self.phase }
    }
}

/// Entry point of the official-SDK sidecar.
pub struct NodeSidecar;

impl NodeSidecar {
    /// Starts supervision under checked settings.
    ///
    /// # Errors
    ///
    /// A static classification of what is wrong with the settings.
    pub fn start(config: &NodeSidecarConfig, cancelled: bool) -> (started: Result<
        (SidecarSupervisor, Vec<SupervisorAction>),
        LarkError,
    >)
        ensures
            failure_of(started) == config_fault(*config),
            started matches Ok((supervisor, actions)) ==> (
                supervisor@,
                supervisor_actions(actions@),
            ) == run_started(
                SupervisorView { failures: 0, reported: false, phase: SupervisorPhase::Starting },
                cancelled,
            ),
    {
        if let Err(error) = config.validate() {
            return Err(error);
        }
        let mut supervisor = SidecarSupervisor {
            failures: 0,
            reported: false,
            phase: SupervisorPhase::Starting,
        };
        let actions = supervisor.start_run(cancelled);
        Ok((supervisor, actions))
    }

    /// What the first start is reported as, given what the supervision said;
    /// nothing where it said nothing.
    ///
    /// # Errors
    ///
    /// What was reported, or that the supervision ended without a word.
    pub fn finish_start(reported: Option<Result<(), LarkError>>) -> (result: Result<(), LarkError>)
        ensures
            failure_of(result) == match reported {
                Some(result) => failure_of(result),
                None => Some(retryable_failure("starting the node sidecar supervisor"@)),
            },
    {
        match reported {
            Some(result) => result,
            None => Err(LarkError::retryable("starting the node sidecar supervisor")),
        }
    }
}

impl SidecarSupervisor {
    fn stop(&mut self) -> (actions: Vec<SupervisorAction>)
        ensures
            (final(self)@, supervisor_actions(actions@)) == supervision_stopped(old(self)@),
    {
        self.phase = SupervisorPhase::Ended;
        let actions = vec![SupervisorAction::Publish { state: ConnectionState::Stopped }];
        proof {
            assert(supervisor_actions(actions@) =~= supervision_stopped(old(self)@).1);
        }
        actions
    }

    fn start_run(&mut self, cancelled: bool) -> (actions: Vec<SupervisorAction>)
        ensures
            (final(self)@, supervisor_actions(actions@)) == run_started(old(self)@, cancelled),
    {
        if cancelled {
            return self.stop();
        }
        let attempt: u32 = if self.failures < u32::MAX {
            self.failures + 1
        } else {
            self.failures
        };
        self.phase = SupervisorPhase::Starting;
        let actions = vec![
            SupervisorAction::Publish { state: ConnectionState::Connecting { attempt } },
            SupervisorAction::Start,
        ];
        proof {
            assert(supervisor_actions(actions@) =~= run_started(old(self)@, cancelled).1);
        }
        actions
    }

    fn fail_run(&mut self) -> (actions: Vec<SupervisorAction>)
        ensures
            (final(self)@, supervisor_actions(actions@)) == run_failed(old(self)@),
    {
        if self.failures < u32::MAX {
            self.failures += 1;
        }
        self.phase = SupervisorPhase::Choosing;
        let actions = vec![SupervisorAction::ChooseDelay { failures: self.failures }];
        proof {
            assert(supervisor_actions(actions@) =~= run_failed(old(self)@).1);
        }
        actions
    }

    /// Takes what happened: the effects, to be performed in order.
    pub fn supervise(&mut self, event: SupervisorEvent) -> (actions: Vec<SupervisorAction>)
        requires
            supervisor_expected(old(self)@.phase, event),
        ensures
            (final(self)@, supervisor_actions(actions@)) == supervised(old(self)@, event),
    {
        match event {
            SupervisorEvent::Started { result } => match result {
                Ok(()) => {
                    let mut actions: Vec<SupervisorAction> = Vec::new();
                    if !self.reported {
                        actions.push(SupervisorAction::ReportReady { result: Ok(()) });
                    }
                    actions.push(SupervisorAction::Run);
                    self.reported = true;
                    self.phase = SupervisorPhase::Running;
                    proof {
                        assert(supervisor_actions(actions@) =~= supervised(old(self)@, event).1);
                    }
                    actions
                },
                Err(error) => {
                    if self.reported {
                        return self.fail_run();
                    }
                    self.reported = true;
                    self.phase = SupervisorPhase::Ended;
                    let actions = vec![
                        SupervisorAction::ReportReady { result: Err(error) },
                        SupervisorAction::Publish {
                            state: ConnectionState::Degraded {
                                reason: "node_sidecar_startup_failed",
                            },
                        },
                    ];
                    proof {
                        assert(supervisor_actions(actions@) =~= supervised(old(self)@, event).1);
                    }
                    actions
                },
            },
            SupervisorEvent::SessionEnded { end } => match end {
                SessionEnd::Shutdown => self.stop(),
                SessionEnd::Crashed { was_healthy } => {
                    if was_healthy {
                        self.failures = 0;
                    }
                    self.fail_run()
                },
            },
            SupervisorEvent::DelayChosen { delay_ms } => {
                self.phase = SupervisorPhase::Waiting;
                let actions = vec![
                    SupervisorAction::Publish {
                        state: ConnectionState::Backoff { attempt: self.failures, delay_ms },
                    },
                    SupervisorAction::Wait { delay_ms },
                ];
                proof {
                    assert(supervisor_actions(actions@) =~= supervised(old(self)@, event).1);
                }
                actions
            },
            SupervisorEvent::Elapsed { cancelled } => self.start_run(cancelled),
            SupervisorEvent::Cancelled => self.stop(),
        }
    }
}

/// The first start is reported once, and only a first start that failed ends
/// the supervision by itself: later failures lead to another attempt.
pub proof fn only_the_first_start_may_fail(view: SupervisorView, event: SupervisorEvent)
    requires
        supervisor_expected(view.phase, event),
        event is Started,
    ensures
        view.reported ==> !(supervised(view, event).0.phase is Ended),
        view.reported ==> forall|k: int|
            0 <= k < supervised(view, event).1.len() ==> !((#[trigger] supervised(view, event).1[k])
                is ReportReady),
        supervised(view, event).0.phase is Ended <==> !view.reported && event->Started_result is Err,
        view.reported ==> supervised(view, event).0.reported,
        !view.reported ==> supervised(view, event).0.reported,
{
}

/// The count of failures starts over only after a healthy run; a run that
/// crashed otherwise counts one more.
pub proof fn backoff_resets_after_health(view: SupervisorView, was_healthy: bool)
    requires
        view.failures < u32::MAX,
    ensures
        supervised(
            view,
            SupervisorEvent::SessionEnded { end: SessionEnd::Crashed { was_healthy } },
        ).0.failures == if was_healthy {
            1
        } else {
            (view.failures + 1) as u32
        },
{
}

/// What a line means while the sidecar is asked to stop.
pub enum ShutdownLine {
    /// The wait is over; whether the sidecar acknowledged it.
    Over { acknowledged: bool },
    /// An event that is refused.
    Refuse { frame: serde_json::Value },
    Ignore,
}

/// Judges a line while the sidecar is asked to stop, given its header and, for
/// a response, its decoded form; either is missing where it could not be
/// decoded.
pub fn judge_shutdown_line(
    base: Option<BaseFrame>,
    response: Option<ResponseFrame>,
    id: &str,
) -> (line: ShutdownLine)
    ensures
        shutdown_judged(base, response, id@, line),
        match base {
            None => line == (ShutdownLine::Over { acknowledged: false }),
            Some(base) => if base.kind@ == "response"@ && base.id@ == id@ {
                line == (ShutdownLine::Over {
                    acknowledged: response is Some && accepting_response(response->Some_0, id@),
                })
            } else if base.kind@ == "event"@ {
                line is Refuse && json(line->frame) == negative_ack(base.id@, "shutting_down"@)
            } else {
                line is Ignore
            },
        },
{
    let base = match base {
        Some(base) => base,
        None => {
            return ShutdownLine::Over { acknowledged: false };
        },
    };
    if same_text(base.kind.as_str(), "response") && same_text(base.id.as_str(), id) {
        return match response {
            Some(response) => ShutdownLine::Over { acknowledged: response.validate(id).is_ok() },
            None => ShutdownLine::Over { acknowledged: false },
        };
    }
    if same_text(base.kind.as_str(), "event") {
        return ShutdownLine::Refuse {
            frame: negative_ack_value(base.id.as_str(), "shutting_down"),
        };
    }
    ShutdownLine::Ignore
}

/// How long the end of the supervision is waited for.
pub fn join_bound_ms(shutdown_grace_ms: u64) -> (bound: u64)
    ensures
        bound == if 3 * shutdown_grace_ms <= u64::MAX {
            (3 * shutdown_grace_ms) as u64
        } else {
            u64::MAX
        },
{
    if shutdown_grace_ms <= u64::MAX / 3 {
        3 * shutdown_grace_ms
    } else {
        u64::MAX
    }
}

/// Content of the intake.
pub struct PumpView {
    pub concurrency: usize,
    /// Events that are being decided.
    pub deciding: usize,
    /// No event will follow.
    pub input_closed: bool,
    /// The intake broke off.
    pub broken: bool,
}

/// The intake of inbound events: how many are decided at a time, and when it
/// is over.
pub struct EventPump {
    concurrency: usize,
    deciding: usize,
    input_closed: bool,
    broken: bool,
}

impl View for EventPump {
    type V = PumpView;

    closed spec fn view(&self) -> PumpView {
        PumpView {
            concurrency: self.concurrency,
            deciding: self.deciding,
            input_closed: self.input_closed,
            broken: self.broken,
        }
    }
}

impl EventPump {
    /// Never more events are decided at a time than allowed.
    pub open spec fn wf(&self) -> bool {
        self@.deciding <= self@.concurrency
    }

    pub fn new(concurrency: usize) -> (pump: EventPump)
        ensures
            pump.wf(),
            pump@ == (PumpView { concurrency, deciding: 0, input_closed: false, broken: false }),
    {
        EventPump { concurrency, deciding: 0, input_closed: false, broken: false }
    }

    /// Whether the intake is over.
    pub fn is_over(&self) -> (over: bool)
        ensures
            over == (self@.broken || (self@.input_closed && self@.deciding == 0)),
    {
        self.broken || (self.input_closed && self.deciding == 0)
    }

    /// Whether another event is to be taken.
    pub fn wants_event(&self) -> (wants: bool)
        ensures
            wants == (!self@.input_closed && self@.deciding < self@.concurrency),
    {
        !self.input_closed && self.deciding < self.concurrency
    }

    /// An event was taken, or none will follow.
    pub fn on_input(&mut self, event: bool)
        requires
            old(self).wf(),
            old(self)@.deciding < old(self)@.concurrency,
        ensures
            final(self).wf(),
            final(self)@ == if event {
                PumpView { deciding: (old(self)@.deciding + 1) as usize, ..old(self)@ }
            } else {
                PumpView { input_closed: true, ..old(self)@ }
            },
    {
        if event {
            self.deciding += 1;
        } else {
            self.input_closed = true;
        }
    }

    /// An event was decided, and its acknowledgement sent or not. One that
    /// cannot be sent ends the intake, and nothing is owed any more.
    pub fn on_decided(&mut self, id: &str, sent: bool, active: &mut ActiveEventIds)
        requires
            old(self).wf(),
            old(self)@.deciding > 0,
            old(active).wf(),
        ensures
            final(self).wf(),
            final(active).wf(),
            final(self)@ == (PumpView {
                deciding: (old(self)@.deciding - 1) as usize,
                broken: old(self)@.broken || !sent,
                ..old(self)@
            }),
            sent ==> final(active)@ == without_text(old(active)@, id@),
            !sent ==> final(active)@.len() == 0,
    {
        self.deciding -= 1;
        if sent {
            active.remove(id);
        } else {
            self.broken = true;
            active.clear();
        }
    }
}

/// What is noted of the sidecar's diagnostics: never their content.
#[derive(Clone, Copy, Debug, PartialEq, Eq, Structural)]
pub enum StderrNote {
    /// A line of this many bytes.
    Line { bytes: usize },
    /// A line over the bound.
    Oversized,
}

/// Content of the count of a diagnostics line.
pub struct StderrView {
    pub line_bytes: usize,
    pub discarding: bool,
}

/// The count of a diagnostics line after one more byte, and what is noted.
pub open spec fn stderr_fed(view: StderrView, byte: u8) -> (StderrView, Option<StderrNote>) {
    if byte == 10 {
        (
            StderrView { line_bytes: 0, discarding: false },
            if !view.discarding && view.line_bytes > 0 {
                Some(StderrNote::Line { bytes: view.line_bytes })
            } else {
                None
            },
        )
    } else if view.discarding {
        (view, None)
    } else {
        let line_bytes = (view.line_bytes + 1) as usize;
        let oversized = line_bytes > MAX_STDERR_LINE_BYTES;
        (
            StderrView { line_bytes, discarding: oversized },
            if oversized {
                Some(StderrNote::Oversized)
            } else {
                None
            },
        )
    }
}

/// The count of the sidecar's diagnostics, line by line.
pub struct StderrCounter {
    line_bytes: usize,
    discarding: bool,
}

impl View for StderrCounter {
    type V = StderrView;

    closed spec fn view(&self) -> StderrView {
        StderrView { line_bytes: self.line_bytes, discarding: self.discarding }
    }
}

impl StderrCounter {
    /// A line is counted up to one byte over its bound.
    pub open spec fn wf(&self) -> bool {
        &&& self@.line_bytes <= MAX_STDERR_LINE_BYTES + 1
        &&& !self@.discarding ==> self@.line_bytes <= MAX_STDERR_LINE_BYTES
    }

    pub fn new() -> (counter: StderrCounter)
        ensures
            counter.wf(),
            counter@ == (StderrView { line_bytes: 0, discarding: false }),
    {
        StderrCounter { line_bytes: 0, discarding: false }
    }

    /// Counts a byte.
    pub fn feed(&mut self, byte: u8) -> (note: Option<StderrNote>)
        requires
            old(self).wf(),
        ensures
            final(self).wf(),
            (final(self)@, note) == stderr_fed(old(self)@, byte),
    {
        if byte == 10 {
            let note = if !self.discarding && self.line_bytes > 0 {
                Some(StderrNote::Line { bytes: self.line_bytes })
            } else {
                None
            };
            self.line_bytes = 0;
            self.discarding = false;
            note
        } else if self.discarding {
            None
        } else {
            self.line_bytes += 1;
            if self.line_bytes > MAX_STDERR_LINE_BYTES {
                self.discarding = true;
                Some(StderrNote::Oversized)
            } else {
                None
            }
        }
    }

    /// What is noted at the end of the diagnostics.
    pub fn finish(&self) -> (note: Option<StderrNote>)
        ensures
            note == if !self@.discarding && self@.line_bytes > 0 {
                Some(StderrNote::Line { bytes: self@.line_bytes })
            } else {
                None
            },
    {
        if !self.discarding && self.line_bytes > 0 {
            Some(StderrNote::Line { bytes: self.line_bytes })
        } else {
            None
        }
    }
}

/// A session counts as healthy exactly once it was connected without a break
/// for as long as is asked; the time counts from the first word that it is
/// connected, and begins anew after a break.
pub proof fn health_is_measured(
    view: SessionView,
    now_ms: u64,
    later_ms: u64,
)
    requires
        now_ms <= later_ms,
    ensures
        ({
            let connected = session_stepped(
                view,
                SessionEvent::Taken { effect: FrameEffect::Connected, now_ms },
            );
            let again = session_stepped(
                connected.0,
                SessionEvent::Taken { effect: FrameEffect::Connected, now_ms: later_ms },
            );
            let broken = session_stepped(
                connected.0,
                SessionEvent::Taken { effect: FrameEffect::Disconnected, now_ms: later_ms },
            );
            let since = match view.connected_since_ms {
                Some(held) => held,
                None => now_ms,
            };
            &&& connected.1 is None && again.1 is None && broken.1 is None
            &&& connected.0.connected_since_ms == Some(since)
            &&& connected.0.was_healthy == view.was_healthy
            &&& again == connected
            &&& broken.0.connected_since_ms is None
            &&& since <= later_ms ==> (broken.0.was_healthy <==> view.was_healthy || later_ms - since
                >= view.healthy_uptime_ms)
            &&& broken.0.healthy_uptime_ms == view.healthy_uptime_ms
        }),
{
}

/// A session ends when its sidecar exits, falls silent or breaks the contract,
/// and says whether it had been healthy by then; a stop ends it without a
/// crash; a word of no note changes nothing.
pub proof fn sessions_end_for_a_reason(view: SessionView, now_ms: u64)
    ensures
        ({
            let healthy = view.was_healthy || (view.connected_since_ms is Some && now_ms
                >= view.connected_since_ms->Some_0 && now_ms - view.connected_since_ms->Some_0
                >= view.healthy_uptime_ms) || (view.connected_since_ms is Some
                && view.healthy_uptime_ms == 0);
            let crashed = Some(SessionEnd::Crashed { was_healthy: healthy });
            &&& session_stepped(view, SessionEvent::LeaderExited { now_ms }).1 == crashed
            &&& session_stepped(view, SessionEvent::Unreadable { now_ms }).1 == crashed
            &&& session_stepped(view, SessionEvent::Ended { now_ms }).1 == crashed
            &&& session_stepped(
                view,
                SessionEvent::Taken { effect: FrameEffect::Failed, now_ms },
            ).1 == crashed
            &&& session_stepped(
                view,
                SessionEvent::Taken { effect: FrameEffect::Stopped, now_ms },
            ).1 == crashed
            &&& session_stepped(view, SessionEvent::Rejected).1 == Some(
                SessionEnd::Crashed { was_healthy: view.was_healthy },
            )
            &&& session_stepped(view, SessionEvent::Shutdown) == (view, Some(SessionEnd::Shutdown))
            &&& session_stepped(
                view,
                SessionEvent::Taken { effect: FrameEffect::Continue, now_ms },
            ) == (view, None::<SessionEnd>)
        }),
{
}

/// What the supervision does and reports: a start announces its attempt, a
/// connected run goes on, a crash chooses the delay of its own failure count,
/// the delay is announced and waited for, and a stop ends everything and says
/// so.
pub proof fn supervision_reports_what_it_does(
    view: SupervisorView,
    delay_ms: u64,
    was_healthy: bool,
    error: LarkError,
)
    requires
        view.failures < u32::MAX,
    ensures
        ({
            let started = run_started(view, false);
            let crashed = supervised(
                view,
                SupervisorEvent::SessionEnded { end: SessionEnd::Crashed { was_healthy } },
            );
            let chosen = supervised(view, SupervisorEvent::DelayChosen { delay_ms });
            let failures = if was_healthy {
                1u32
            } else {
                (view.failures + 1) as u32
            };
            let stopped = |step: (SupervisorView, Seq<SupervisorActionView>)| {
                &&& step.0.phase is Ended
                &&& step.1 == seq![
                    SupervisorActionView::Publish { state: ConnectionView::Stopped },
                ]
            };
            &&& started.0.phase is Starting && started.0.failures == view.failures
            &&& started.1 == seq![
                SupervisorActionView::Publish {
                    state: ConnectionView::Connecting { attempt: (view.failures + 1) as u32 },
                },
                SupervisorActionView::Start,
            ]
            &&& crashed.0.phase is Choosing && crashed.0.failures == failures
            &&& crashed.1 == seq![SupervisorActionView::ChooseDelay { failures }]
            &&& chosen.0.phase is Waiting && chosen.0.failures == view.failures
            &&& chosen.1 == seq![
                SupervisorActionView::Publish {
                    state: ConnectionView::Backoff { attempt: view.failures, delay_ms },
                },
                SupervisorActionView::Wait { delay_ms },
            ]
            &&& supervised(view, SupervisorEvent::Elapsed { cancelled: false }) == started
            &&& stopped(supervised(view, SupervisorEvent::Elapsed { cancelled: true }))
            &&& stopped(supervised(view, SupervisorEvent::Cancelled))
            &&& stopped(
                supervised(view, SupervisorEvent::SessionEnded { end: SessionEnd::Shutdown }),
            )
            &&& stopped(run_started(view, true))
            &&& view.reported ==> supervised(view, SupervisorEvent::Started { result: Ok(()) }).1
                == seq![SupervisorActionView::Run]
            &&& !view.reported ==> supervised(view, SupervisorEvent::Started { result: Ok(()) }).1
                == seq![
                SupervisorActionView::ReportReady { failure: None },
                SupervisorActionView::Run,
            ]
            &&& supervised(view, SupervisorEvent::Started { result: Ok(()) }).0.phase is Running
            &&& view.reported ==> supervised(
                view,
                SupervisorEvent::Started { result: Err(error) },
            ).1 == seq![
                SupervisorActionView::ChooseDelay { failures: (view.failures + 1) as u32 },
            ]
            &&& !view.reported ==> supervised(
                view,
                SupervisorEvent::Started { result: Err(error) },
            ).1.first() == (SupervisorActionView::ReportReady { failure: Some(error@) })
        }),
{
}

/// A line of diagnostics is noted once, when it ends, with its own length; an
/// empty one is not, and one over the bound is noted once as that.
pub proof fn diagnostics_are_noted_line_by_line(view: StderrView, byte: u8)
    ensures
        ({
            let (next, note) = stderr_fed(view, byte);
            &&& byte == 10 ==> next == (StderrView { line_bytes: 0, discarding: false })
            &&& byte == 10 && !view.discarding && view.line_bytes > 0 ==> note == Some(
                StderrNote::Line { bytes: view.line_bytes },
            )
            &&& byte == 10 && (view.discarding || view.line_bytes == 0) ==> note is None
            &&& byte != 10 && view.discarding ==> next == view && note is None
            &&& byte != 10 && !view.discarding && view.line_bytes < MAX_STDERR_LINE_BYTES ==> note
                is None && next.line_bytes == view.line_bytes + 1 && !next.discarding
            &&& byte != 10 && !view.discarding && view.line_bytes == MAX_STDERR_LINE_BYTES ==> note
                == Some(StderrNote::Oversized) && next.discarding
        }),
{
}

/// What the wait for the first connection comes to: nothing yet, or its end,
/// with the failure if there was one.
pub open spec fn connect_judged(event: ConnectEvent) -> Option<Option<LarkErrorView>> {
    match event {
        ConnectEvent::TimedOut => Some(
            Some(retryable_failure("waiting for initial node sidecar connection"@)),
        ),
        ConnectEvent::LeaderExited => Some(
            Some(retryable_failure("establishing the initial node sidecar connection"@)),
        ),
        ConnectEvent::Ended => Some(
            Some(retryable_failure("reading initial node sidecar connection state"@)),
        ),
        ConnectEvent::Oversized => Some(
            Some(protocol_failure("node sidecar initial state exceeds the frame bound"@)),
        ),
        ConnectEvent::Rejected { error } => Some(Some(error@)),
        ConnectEvent::Taken { effect } => match effect {
            FrameEffect::Connected => Some(None),
            FrameEffect::Failed => Some(
                Some(retryable_failure("establishing the initial node sidecar connection"@)),
            ),
            FrameEffect::Stopped => Some(
                Some(retryable_failure("establishing the initial node sidecar connection"@)),
            ),
            _ => None,
        },
    }
}

/// The first connection is established exactly by the word that says so. Words
/// that say it is not yet there are waited out; what ends the wait otherwise
/// may be tried again, unless the sidecar broke the contract.
pub proof fn only_the_word_connects(event: ConnectEvent, error: LarkError)
    ensures
        connect_judged(event) == Some(None::<LarkErrorView>) <==> event == (ConnectEvent::Taken {
            effect: FrameEffect::Connected,
        }),
        connect_judged(event) is None <==> event == (ConnectEvent::Taken {
            effect: FrameEffect::Continue,
        }) || event == (ConnectEvent::Taken { effect: FrameEffect::Disconnected }),
        event is TimedOut || event is LeaderExited || event is Ended || event == (
        ConnectEvent::Taken { effect: FrameEffect::Failed }) || event == (ConnectEvent::Taken {
            effect: FrameEffect::Stopped,
        }) ==> (connect_judged(event) matches Some(Some(LarkErrorView::Retryable { code, .. }))
            && code is None),
        event is Oversized ==> (connect_judged(event) matches Some(
            Some(LarkErrorView::ProtocolViolation { code, .. }),
        ) && code is None),
        connect_judged(ConnectEvent::Rejected { error }) == Some(Some(error@)),
{
}

/// What a line during the shutdown comes to.
pub open spec fn shutdown_judged(
    base: Option<BaseFrame>,
    response: Option<ResponseFrame>,
    id: Seq<char>,
    line: ShutdownLine,
) -> bool {
    match line {
        ShutdownLine::Over { acknowledged } => base is None && !acknowledged || (base is Some
            && base->Some_0.kind@ == "response"@ && base->Some_0.id@ == id && acknowledged == (
        response is Some && accepting_response(response->Some_0, id))),
        ShutdownLine::Refuse { frame } => base is Some && base->Some_0.kind@ == "event"@ && json(
            frame,
        ) == negative_ack(base->Some_0.id@, "shutting_down"@),
        ShutdownLine::Ignore => base is Some && base->Some_0.kind@ != "event"@ && !(
        base->Some_0.kind@ == "response"@ && base->Some_0.id@ == id),
    }
}

/// A shutdown counts as acknowledged only by the answer under its own number
/// that says yes; an event that still comes is refused under its own number;
/// answers to others are passed over.
pub proof fn shutdowns_are_acknowledged_by_their_answer(
    base: BaseFrame,
    response: ResponseFrame,
    id: Seq<char>,
    line: ShutdownLine,
)
    requires
        shutdown_judged(Some(base), Some(response), id, line),
    ensures
        line == (ShutdownLine::Over { acknowledged: true }) ==> response.ok && response.id@ == id
            && base.id@ == id && base.kind@ == "response"@,
        base.kind@ == "response"@ && base.id@ == id && accepting_response(response, id) ==> line == (
        ShutdownLine::Over { acknowledged: true }),
        base.kind@ == "event"@ ==> line is Refuse && json(line->frame) == negative_ack(
            base.id@,
            "shutting_down"@,
        ),
        base.kind@ == "response"@ && base.id@ != id ==> line is Ignore,
{
    reveal_strlit("response");
    reveal_strlit("event");
    assert("response"@.len() == 8 && "event"@.len() == 5);
}

} // verus!
