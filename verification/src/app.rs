//! Application assembly: the order in which components start and stop, the
//! driver of durable inbound events, and the static failures of a run.
use vstd::prelude::*;


verus! {

/// Startup, runtime and shutdown failures of the application. All are free of
/// content but the reason of a permanent Codex failure, which is shown only in
/// the text of the error, never in its debug form.
#[derive(Clone, PartialEq, Eq)]
pub enum AppError {
    /// Configuration loading or policy validation failed.
    Config,
    /// Credentials could not be loaded or no source was configured.
    Credentials,
    /// The durable store failed to start or stop.
    Store,
    /// Lark HTTP, identity, or transport startup failed.
    Lark,
    /// The Codex app-server supervisor failed.
    Supervisor,
    /// The supervisor failed permanently before the runtime was ready.
    CodexUnavailable { reason: String },
    /// The durable outbound runtime failed to start.
    Outbound,
    /// The attachment cache failed to open or reconcile.
    Attachments,
    /// The scope router failed to start or stop.
    Router,
    /// The durable inbound producer disappeared without a shutdown request.
    InboundClosed,
}

/// Content of a failure of the application.
pub enum AppErrorView {
    Config,
    Credentials,
    Store,
    Lark,
    Supervisor,
    CodexUnavailable { reason: Seq<char> },
    Outbound,
    Attachments,
    Router,
    InboundClosed,
}

impl View for AppError {
    type V = AppErrorView;

    open spec fn view(&self) -> AppErrorView {
        match *self {
            AppError::Config => AppErrorView::Config,
            AppError::Credentials => AppErrorView::Credentials,
            AppError::Store => AppErrorView::Store,
            AppError::Lark => AppErrorView::Lark,
            AppError::Supervisor => AppErrorView::Supervisor,
            AppError::CodexUnavailable { reason } => AppErrorView::CodexUnavailable {
                reason: reason@,
            },
            AppError::Outbound => AppErrorView::Outbound,
            AppError::Attachments => AppErrorView::Attachments,
            AppError::Router => AppErrorView::Router,
            AppError::InboundClosed => AppErrorView::InboundClosed,
        }
    }
}

/// What a failure is reported as.
pub open spec fn app_error_text(error: AppErrorView) -> Seq<char> {
    match error {
        AppErrorView::Config => "bridge configuration is unavailable or invalid"@,
        AppErrorView::Credentials => "Lark credentials are unavailable or invalid"@,
        AppErrorView::Store => "the durable store failed"@,
        AppErrorView::Lark => "the Lark runtime failed"@,
        AppErrorView::Supervisor => "the Codex supervisor failed"@,
        AppErrorView::CodexUnavailable { reason } => reason,
        AppErrorView::Outbound => "the durable outbound runtime failed"@,
        AppErrorView::Attachments => "the attachment cache failed"@,
        AppErrorView::Router => "the scope router failed"@,
        AppErrorView::InboundClosed => "the durable inbound stream closed unexpectedly"@,
    }
}

/// How a failure is shown in diagnostics.
pub open spec fn app_error_name(error: AppErrorView) -> Seq<char> {
    match error {
        AppErrorView::Config => "Config"@,
        AppErrorView::Credentials => "Credentials"@,
        AppErrorView::Store => "Store"@,
        AppErrorView::Lark => "Lark"@,
        AppErrorView::Supervisor => "Supervisor"@,
        AppErrorView::CodexUnavailable { .. } => "CodexUnavailable"@,
        AppErrorView::Outbound => "Outbound"@,
        AppErrorView::Attachments => "Attachments"@,
        AppErrorView::Router => "Router"@,
        AppErrorView::InboundClosed => "InboundClosed"@,
    }
}

impl AppError {
    /// What the failure is reported as.
    pub fn to_text(&self) -> (text: String)
        ensures
            text@ == app_error_text(self@),
    {
        match self {
            AppError::Config => "bridge configuration is unavailable or invalid".to_owned(),
            AppError::Credentials => "Lark credentials are unavailable or invalid".to_owned(),
            AppError::Store => "the durable store failed".to_owned(),
            AppError::Lark => "the Lark runtime failed".to_owned(),
            AppError::Supervisor => "the Codex supervisor failed".to_owned(),
            AppError::CodexUnavailable { reason } => reason.clone(),
            AppError::Outbound => "the durable outbound runtime failed".to_owned(),
            AppError::Attachments => "the attachment cache failed".to_owned(),
            AppError::Router => "the scope router failed".to_owned(),
            AppError::InboundClosed => "the durable inbound stream closed unexpectedly".to_owned(),
        }
    }

    /// How the failure is shown in diagnostics.
    pub fn debug_text(&self) -> (text: &'static str)
        ensures
            text@ == app_error_name(self@),
    {
        match self {
            AppError::Config => "Config",
            AppError::Credentials => "Credentials",
            AppError::Store => "Store",
            AppError::Lark => "Lark",
            AppError::Supervisor => "Supervisor",
            AppError::CodexUnavailable { .. } => "CodexUnavailable",
            AppError::Outbound => "Outbound",
            AppError::Attachments => "Attachments",
            AppError::Router => "Router",
            AppError::InboundClosed => "InboundClosed",
        }
    }
}

/// Diagnostics of a failure never show a reason.
pub proof fn diagnostics_hide_reasons(left: Seq<char>, right: Seq<char>)
    ensures
        app_error_name(AppErrorView::CodexUnavailable { reason: left }) == app_error_name(
            AppErrorView::CodexUnavailable { reason: right },
        ),
{
}

/// The outbound runtime could not start.
#[derive(Clone, Copy, Debug, PartialEq, Eq, Structural)]
pub struct OutboundStartError;

impl OutboundStartError {
    /// What the failure is reported as.
    pub fn to_text(self) -> (text: &'static str)
        ensures
            text@ == "the durable outbound runtime could not start"@,
    {
        "the durable outbound runtime could not start"
    }
}

/// Production durable-outbox assembly.
#[derive(Clone, Copy, Debug, Default)]
pub struct ProductionOutboundFactory;

/// Whom the app-server identified itself to be.
#[derive(Clone)]
pub struct PeerInfo {
    pub user_agent: String,
    pub platform_family: String,
    pub platform_os: String,
}

/// State of the Codex supervisor.
pub enum SupervisorState {
    Starting { epoch: u64, attempt: u32 },
    Ready { epoch: u64, version: String, peer: PeerInfo },
    Backoff { epoch: u64, attempt: u32, delay_ms: u64 },
    Degraded { reason: String },
    Stopped,
}

/// Why assembly cannot go on in a state of the supervisor, where it cannot.
pub open spec fn assembly_fault(state: SupervisorState) -> Option<AppErrorView> {
    match state {
        SupervisorState::Degraded { reason } => Some(
            AppErrorView::CodexUnavailable { reason: reason@ },
        ),
        SupervisorState::Stopped => Some(AppErrorView::Supervisor),
        _ => None,
    }
}

/// Content of an optional failure.
pub open spec fn fault_view(error: Option<AppError>) -> Option<AppErrorView> {
    match error {
        Some(error) => Some(error@),
        None => None,
    }
}

/// What the supervisor means for a step of the assembly that is under way: its
/// state, or nothing where the supervisor is gone.
pub fn supervise_assembly_step(state: Option<SupervisorState>) -> (fault: Option<AppError>)
    ensures
        fault_view(fault) == match state {
            Some(state) => assembly_fault(state),
            None => Some(AppErrorView::Supervisor),
        },
{
    match state {
        Some(SupervisorState::Degraded { reason }) => Some(AppError::CodexUnavailable { reason }),
        Some(SupervisorState::Stopped) => Some(AppError::Supervisor),
        Some(_) => None,
        None => Some(AppError::Supervisor),
    }
}

/// How inbound events arrive.
#[derive(Clone, Copy, Debug, PartialEq, Eq, Structural)]
pub enum ChannelTransport {
    Native,
    NodeSidecar,
}

/// The source that is started.
#[derive(Clone, Copy, Debug, PartialEq, Eq, Structural)]
pub enum InboundChoice {
    Native,
    Sidecar,
}

/// The source that is started first.
pub fn first_source(transport: ChannelTransport) -> (choice: InboundChoice)
    ensures
        choice == match transport {
            ChannelTransport::Native => InboundChoice::Native,
            ChannelTransport::NodeSidecar => InboundChoice::Sidecar,
        },
{
    match transport {
        ChannelTransport::Native => InboundChoice::Native,
        ChannelTransport::NodeSidecar => InboundChoice::Sidecar,
    }
}

/// The source after the sidecar was tried: the native one takes its place only
/// where that is configured.
///
/// # Errors
///
/// `Lark` where the sidecar failed and there is no other source.
pub fn source_after_sidecar(started: bool, fallback_to_native: bool) -> (choice: Result<
    InboundChoice,
    AppError,
>)
    ensures
        match source_chosen(started, fallback_to_native) {
            Some(chosen) => choice == Ok::<InboundChoice, AppError>(chosen),
            None => choice == Err::<InboundChoice, AppError>(AppError::Lark),
        },
        started ==> choice == Ok::<InboundChoice, AppError>(InboundChoice::Sidecar),
        !started && fallback_to_native ==> choice == Ok::<InboundChoice, AppError>(
            InboundChoice::Native,
        ),
        !started && !fallback_to_native ==> choice == Err::<InboundChoice, AppError>(
            AppError::Lark,
        ),
{
    if started {
        Ok(InboundChoice::Sidecar)
    } else if fallback_to_native {
        Ok(InboundChoice::Native)
    } else {
        Err(AppError::Lark)
    }
}

/// The bot's identity.
///
/// # Errors
///
/// `Lark` where the provider gave none.
pub fn bot_identity(open_id: Option<String>) -> (identity: Result<String, AppError>)
    ensures
        match identity {
            Ok(text) => open_id is Some && open_id->Some_0@ == text@ && text@.len() > 0,
            Err(error) => error == AppError::Lark && (open_id is None || open_id->Some_0@.len()
                == 0),
        },
{
    match open_id {
        Some(text) => if text.as_str().is_empty() {
            Err(AppError::Lark)
        } else {
            Ok(text)
        },
        None => Err(AppError::Lark),
    }
}

/// Why the durable inbound driver stopped.
#[derive(Clone, Copy, Debug, PartialEq, Eq, Structural)]
pub enum DriveExit {
    /// The process received its external shutdown signal.
    Shutdown,
    /// Every durable inbound producer disappeared unexpectedly.
    InboundClosed,
    /// The router consumed an event and failed, or stopped accepting work.
    RouterFailed,
}

/// Bounded, content-free observations from one driver run.
#[derive(Clone, Copy, Debug, PartialEq, Eq, Structural)]
pub struct DriveSummary {
    /// The condition that stopped the driver.
    pub exit: DriveExit,
    /// Events accepted by the scope router.
    pub routed: u64,
    /// Events the router could not accept during this run.
    pub route_failures: u64,
}

/// Content of the outcome of a run.
pub open spec fn run_view(result: Result<DriveSummary, AppError>) -> Result<
    DriveSummary,
    AppErrorView,
> {
    match result {
        Ok(summary) => Ok(summary),
        Err(error) => Err(error@),
    }
}

/// The outcome of a run: a router or a store that did not stop well comes
/// first, then why the driver stopped.
pub open spec fn run_finished(summary: DriveSummary, router_stopped: bool, store_stopped: bool) -> Result<
    DriveSummary,
    AppErrorView,
> {
    if !router_stopped {
        Err(AppErrorView::Router)
    } else if !store_stopped {
        Err(AppErrorView::Store)
    } else {
        match summary.exit {
            DriveExit::Shutdown => Ok(summary),
            DriveExit::InboundClosed => Err(AppErrorView::InboundClosed),
            DriveExit::RouterFailed => Err(AppErrorView::Router),
        }
    }
}

/// The outcome of a run.
///
/// # Errors
///
/// `Router` or `Store` where they did not stop well, and why the driver stopped
/// where nobody asked for it.
pub fn finish_run(summary: DriveSummary, router_stopped: bool, store_stopped: bool) -> (result:
    Result<DriveSummary, AppError>)
    ensures
        run_view(result) == run_finished(summary, router_stopped, store_stopped),
{
    if !router_stopped {
        return Err(AppError::Router);
    }
    if !store_stopped {
        return Err(AppError::Store);
    }
    match summary.exit {
        DriveExit::Shutdown => Ok(summary),
        DriveExit::InboundClosed => Err(AppError::InboundClosed),
        DriveExit::RouterFailed => Err(AppError::Router),
    }
}

/// How the scope router failed on an event.
#[derive(Clone, Copy, Debug, PartialEq, Eq, Structural)]
pub enum RouteError {
    /// It has no room for the event now.
    Capacity,
    /// It takes no more events.
    Closed,
    /// Codex is permanently unavailable.
    CodexUnavailable,
    /// Anything else.
    Failed,
}

/// How one attempt to route an event ended.
pub enum RouteOutcome<E> {
    Accepted,
    /// The router gave the event back.
    Retry { event: E },
    Fatal,
}

/// Classifies a failed attempt: only a lack of room, with the event given back,
/// can be tried again.
pub fn classify_route_failure<E>(error: RouteError, event: Option<E>) -> (outcome: RouteOutcome<E>)
    ensures
        outcome == route_failed(error, event),
        outcome == match event {
            Some(event) => if error == RouteError::Capacity {
                RouteOutcome::Retry { event }
            } else {
                RouteOutcome::Fatal
            },
            None => RouteOutcome::Fatal,
        },
{
    match event {
        Some(event) => match error {
            RouteError::Capacity => RouteOutcome::Retry { event },
            _ => RouteOutcome::Fatal,
        },
        None => RouteOutcome::Fatal,
    }
}

/// Two to a power.
pub open spec fn power_of_two(exponent: nat) -> nat
    decreases exponent,
{
    if exponent == 0 {
        1
    } else {
        2 * power_of_two((exponent - 1) as nat)
    }
}

/// The pause before an attempt is repeated: 25 milliseconds, doubled with each
/// further failure, up to a second.
pub open spec fn retry_pause(attempt: u32) -> int {
    let doublings = if attempt <= 1 {
        0
    } else if attempt <= 7 {
        attempt - 1
    } else {
        6
    };
    let pause = 25 * power_of_two(doublings as nat);
    if pause <= 1000 {
        pause as int
    } else {
        1000
    }
}

/// The pause before an attempt is repeated, in milliseconds.
pub fn route_retry_delay(attempt: u32) -> (millis: u64)
    ensures
        millis == retry_pause(attempt),
{
    proof {
        reveal_with_fuel(power_of_two, 7);
    }
    if attempt <= 1 {
        25
    } else if attempt == 2 {
        50
    } else if attempt == 3 {
        100
    } else if attempt == 4 {
        200
    } else if attempt == 5 {
        400
    } else if attempt == 6 {
        800
    } else {
        1000
    }
}

/// Pauses grow with the number of failures and stay between their bounds.
pub proof fn pauses_grow(attempt: u32, later: u32)
    requires
        attempt <= later,
    ensures
        25 <= retry_pause(attempt) <= retry_pause(later) <= 1000,
{
    reveal_with_fuel(power_of_two, 7);
}

/// What the driver does next.
pub enum DriveAction<E> {
    /// Wait for an event, or for the shutdown.
    Receive,
    /// Hand an event to the router.
    Route { event: E },
    /// Wait for the pause to pass, or for the shutdown.
    Wait { delay_ms: u64 },
    /// The driver stopped.
    Finish { summary: DriveSummary },
}

/// What happens to the driver.
pub enum DriveEvent<E> {
    /// The shutdown was asked for.
    Shutdown,
    /// An event, or the end of the events.
    Received { event: Option<E> },
    /// An attempt to route ended.
    Routed { outcome: RouteOutcome<E> },
    /// The pause passed.
    Elapsed,
}

/// What the driver waits for.
pub enum DrivePhase<E> {
    Receiving,
    Routing,
    /// A pause before this event is tried again.
    Pausing { event: E },
    Done,
}

/// Content of a driver.
pub struct DriverView<E> {
    pub routed: u64,
    pub failures: u64,
    pub attempt: u32,
    pub phase: DrivePhase<E>,
}

/// A count with one more, up to the largest.
pub open spec fn counted(count: u64) -> u64 {
    if count < u64::MAX {
        (count + 1) as u64
    } else {
        count
    }
}

/// The driver stops.
pub open spec fn drive_stopped<E>(view: DriverView<E>, exit: DriveExit) -> (
    DriverView<E>,
    DriveAction<E>,
) {
    (
        DriverView { phase: DrivePhase::Done, ..view },
        DriveAction::Finish {
            summary: DriveSummary { exit, routed: view.routed, route_failures: view.failures },
        },
    )
}

/// Whether an event can happen to a driver.
pub open spec fn drive_expected<E>(phase: DrivePhase<E>, event: DriveEvent<E>) -> bool {
    match phase {
        DrivePhase::Receiving => event is Shutdown || event is Received,
        DrivePhase::Routing => event is Routed,
        DrivePhase::Pausing { .. } => event is Shutdown || event is Elapsed,
        DrivePhase::Done => false,
    }
}

/// What an event leads to.
pub open spec fn driven<E>(view: DriverView<E>, event: DriveEvent<E>) -> (
    DriverView<E>,
    DriveAction<E>,
) {
    match event {
        DriveEvent::Shutdown => drive_stopped(view, DriveExit::Shutdown),
        DriveEvent::Received { event } => match event {
            None => drive_stopped(view, DriveExit::InboundClosed),
            Some(event) => (
                DriverView { attempt: 0, phase: DrivePhase::Routing, ..view },
                DriveAction::Route { event },
            ),
        },
        DriveEvent::Routed { outcome } => match outcome {
            RouteOutcome::Accepted => (
                DriverView { routed: counted(view.routed), phase: DrivePhase::Receiving, ..view },
                DriveAction::Receive,
            ),
            RouteOutcome::Retry { event } => {
                let attempt = if view.attempt < u32::MAX {
                    (view.attempt + 1) as u32
                } else {
                    view.attempt
                };
                (
                    DriverView {
                        failures: counted(view.failures),
                        attempt,
                        phase: DrivePhase::Pausing { event },
                        ..view
                    },
                    DriveAction::Wait { delay_ms: retry_pause(attempt) as u64 },
                )
            },
            RouteOutcome::Fatal => drive_stopped(
                DriverView { failures: counted(view.failures), ..view },
                DriveExit::RouterFailed,
            ),
        },
        DriveEvent::Elapsed => (
            DriverView { phase: DrivePhase::Routing, ..view },
            DriveAction::Route { event: view.phase->event },
        ),
    }
}

/// How a driver begins.
pub open spec fn driver_begun<E>() -> DriverView<E> {
    DriverView { routed: 0, failures: 0, attempt: 0, phase: DrivePhase::Receiving }
}

/// What a run of the driver leads to: the driver after all events, and what it
/// did after each of them.
pub open spec fn drive_run<E>(events: Seq<DriveEvent<E>>) -> (DriverView<E>, Seq<DriveAction<E>>)
    decreases events.len(),
{
    if events.len() == 0 {
        (driver_begun(), Seq::empty())
    } else {
        let (view, actions) = drive_run(events.drop_last());
        let (next, action) = driven(view, events.last());
        (next, actions.push(action))
    }
}

/// Whether the events of a run can happen one after the other.
pub open spec fn drive_ran<E>(events: Seq<DriveEvent<E>>) -> bool
    decreases events.len(),
{
    events.len() > 0 ==> {
        &&& drive_ran(events.drop_last())
        &&& drive_expected(drive_run(events.drop_last()).0.phase, events.last())
    }
}

/// The events that were received, in order.
pub open spec fn received<E>(events: Seq<DriveEvent<E>>) -> Seq<E>
    decreases events.len(),
{
    if events.len() == 0 {
        Seq::empty()
    } else {
        match events.last() {
            DriveEvent::Received { event: Some(event) } => received(events.drop_last()).push(event),
            _ => received(events.drop_last()),
        }
    }
}

/// The events that were handed to the router, in order, each as often as it was.
pub open spec fn routes<E>(actions: Seq<DriveAction<E>>) -> Seq<E>
    decreases actions.len(),
{
    if actions.len() == 0 {
        Seq::empty()
    } else {
        match actions.last() {
            DriveAction::Route { event } => routes(actions.drop_last()).push(event),
            _ => routes(actions.drop_last()),
        }
    }
}

/// Whether the router gives back the event that it was handed, wherever it
/// gives one back.
pub open spec fn gives_back<E>(events: Seq<DriveEvent<E>>) -> bool {
    forall|k: int|
        0 < k < events.len() ==> (#[trigger] events[k] matches DriveEvent::Routed {
            outcome: RouteOutcome::Retry { event },
        } ==> drive_run(events.take(k)).1.last() == (DriveAction::Route { event }))
}

/// A list of events in which each stands once or several times in a row, in the
/// order of another list.
pub open spec fn repeats<E>(tries: Seq<E>, order: Seq<E>) -> bool
    decreases tries.len(),
{
    if tries.len() == 0 {
        order.len() == 0
    } else {
        order.len() > 0 && tries.last() == order.last() && (repeats(
            tries.drop_last(),
            order.drop_last(),
        ) || repeats(tries.drop_last(), order))
    }
}

/// The driver of durable inbound events: one at a time, in order, each until it
/// is routed.
pub struct InboundDriver<E> {
    routed: u64,
    failures: u64,
    attempt: u32,
    phase: DrivePhase<E>,
}

impl<E> View for InboundDriver<E> {
    type V = DriverView<E>;

    closed spec fn view(&self) -> DriverView<E> {
        DriverView {
            routed: self.routed,
            failures: self.failures,
            attempt: self.attempt,
            phase: self.phase,
        }
    }
}

impl<E> InboundDriver<E> {
    /// Starts with the wait for an event.
    pub fn start() -> (started: (InboundDriver<E>, DriveAction<E>))
        ensures
            started.0@ == driver_begun::<E>(),
            started.1 == DriveAction::<E>::Receive,
    {
        (
            InboundDriver { routed: 0, failures: 0, attempt: 0, phase: DrivePhase::Receiving },
            DriveAction::Receive,
        )
    }

    fn stop(&mut self, exit: DriveExit) -> (action: DriveAction<E>)
        ensures
            (final(self)@, action) == drive_stopped(old(self)@, exit),
    {
        self.phase = DrivePhase::Done;
        DriveAction::Finish {
            summary: DriveSummary { exit, routed: self.routed, route_failures: self.failures },
        }
    }

    /// Takes what happened: what the driver does next.
    pub fn drive_inbound(&mut self, event: DriveEvent<E>) -> (action: DriveAction<E>)
        requires
            drive_expected(old(self)@.phase, event),
        ensures
            (final(self)@, action) == driven(old(self)@, event),
    {
        let mut phase = DrivePhase::Done;
        std::mem::swap(&mut self.phase, &mut phase);
        match event {
            DriveEvent::Shutdown => self.stop(DriveExit::Shutdown),
            DriveEvent::Received { event } => match event {
                None => self.stop(DriveExit::InboundClosed),
                Some(event) => {
                    self.attempt = 0;
                    self.phase = DrivePhase::Routing;
                    DriveAction::Route { event }
                },
            },
            DriveEvent::Routed { outcome } => match outcome {
                RouteOutcome::Accepted => {
                    if self.routed < u64::MAX {
                        self.routed += 1;
                    }
                    self.phase = DrivePhase::Receiving;
                    DriveAction::Receive
                },
                RouteOutcome::Retry { event } => {
                    if self.failures < u64::MAX {
                        self.failures += 1;
                    }
                    if self.attempt < u32::MAX {
                        self.attempt += 1;
                    }
                    self.phase = DrivePhase::Pausing { event };
                    DriveAction::Wait { delay_ms: route_retry_delay(self.attempt) }
                },
                RouteOutcome::Fatal => {
                    if self.failures < u64::MAX {
                        self.failures += 1;
                    }
                    self.stop(DriveExit::RouterFailed)
                },
            },
            DriveEvent::Elapsed => match phase {
                DrivePhase::Pausing { event } => {
                    self.phase = DrivePhase::Routing;
                    DriveAction::Route { event }
                },
                _ => self.stop(DriveExit::RouterFailed),
            },
        }
    }
}

/// An event that the router gave back is the next one that it gets: no other is
/// received before.
pub proof fn a_returned_event_is_routed_next<E>(view: DriverView<E>, event: E)
    requires
        view.phase is Routing,
    ensures
        ({
            let (paused, action) = driven(
                view,
                DriveEvent::Routed { outcome: RouteOutcome::Retry { event } },
            );
            &&& action is Wait
            &&& paused.phase == DrivePhase::Pausing { event }
            &&& !drive_expected(paused.phase, DriveEvent::Received { event: Some(event) })
            &&& driven(paused, DriveEvent::<E>::Elapsed).1 == (DriveAction::Route { event })
        }),
{
}

/// What holds of a run by the time that its driver is in a phase: every try
/// but the one under way is counted once, and every event that was received is
/// routed but the one under way.
spec fn run_counts<E>(view: DriverView<E>, received: nat, tries: nat) -> bool {
    &&& tries == view.routed + view.failures + if view.phase is Routing {
        1int
    } else {
        0int
    }
    &&& view.phase is Receiving ==> received == view.routed
    &&& view.phase is Routing || view.phase is Pausing ==> received == view.routed + 1
}

proof fn lemma_run_counts<E>(events: Seq<DriveEvent<E>>)
    requires
        drive_ran(events),
        routes(drive_run(events).1).len() <= u64::MAX,
    ensures
        run_counts(
            drive_run(events).0,
            received(events).len(),
            routes(drive_run(events).1).len(),
        ),
    decreases events.len(),
{
    if events.len() > 0 {
        let before = events.drop_last();
        let (view, actions) = drive_run(before);
        let action = driven(view, events.last()).1;
        assert(actions.push(action).drop_last() =~= actions);
        lemma_run_counts(before);
    }
}

/// While an event is under way, it is the last one that was received and the
/// last one that was tried, and what the router may give back.
spec fn run_ordered<E>(view: DriverView<E>, received: Seq<E>, tries: Seq<E>) -> bool {
    &&& repeats(tries, received)
    &&& view.phase is Routing ==> tries.len() > 0
    &&& view.phase matches DrivePhase::Pausing { event } ==> tries.len() > 0 && event
        == tries.last()
}

proof fn lemma_last_route<E>(actions: Seq<DriveAction<E>>)
    requires
        actions.len() > 0,
        actions.last() is Route,
    ensures
        routes(actions).len() > 0,
        routes(actions).last() == actions.last()->Route_event,
{
}

proof fn lemma_run_ordered<E>(events: Seq<DriveEvent<E>>)
    requires
        drive_ran(events),
        gives_back(events),
    ensures
        run_ordered(drive_run(events).0, received(events), routes(drive_run(events).1)),
        drive_run(events).1.len() == events.len(),
        drive_run(events).0.phase is Routing ==> events.len() > 0 && drive_run(
            events,
        ).1.last() is Route,
    decreases events.len(),
{
    if events.len() > 0 {
        let before = events.drop_last();
        assert(gives_back(before)) by {
            assert forall|k: int| 0 < k < before.len() implies (#[trigger] before[k] matches
                DriveEvent::Routed { outcome: RouteOutcome::Retry { event } } ==> drive_run(
                before.take(k),
            ).1.last() == (DriveAction::Route { event })) by {
                assert(before[k] == events[k]);
                assert(before.take(k) =~= events.take(k));
            }
        }
        lemma_run_ordered(before);
        let (view, actions) = drive_run(before);
        let (next, action) = driven(view, events.last());
        assert(actions.push(action).drop_last() =~= actions);
        let tries = routes(actions);
        let order = received(before);
        match events.last() {
            DriveEvent::Received { event: Some(event) } => {
                assert(tries.push(event).drop_last() =~= tries);
                assert(order.push(event).drop_last() =~= order);
            },
            DriveEvent::Routed { outcome: RouteOutcome::Retry { event } } => {
                let last = events.len() - 1;
                assert(before.len() > 0);
                assert(events[last] == events.last());
                assert(events.take(last) =~= before);
                lemma_last_route(actions);
            },
            DriveEvent::Elapsed => {
                assert(tries.push(tries.last()).drop_last() =~= tries);
                assert(repeats(tries, order));
            },
            _ => {},
        }
    }
}

/// Over a whole run, what was handed to the router is what was received, in
/// that order, each event once or several times in a row. The router must give
/// back the event that it was handed, where it gives one back.
pub proof fn events_are_routed_in_order<E>(events: Seq<DriveEvent<E>>)
    requires
        drive_ran(events),
        gives_back(events),
    ensures
        repeats(routes(drive_run(events).1), received(events)),
{
    lemma_run_ordered(events);
}

/// Over a whole run that ended, every event handed to the router counts once,
/// as routed or as failed; the run failed exactly where the last answer of the
/// router was fatal, and no answer before was; and where the events ended, all
/// of them were routed. The router must not be asked more often than the
/// counters reach.
pub proof fn runs_account_for_every_event<E>(events: Seq<DriveEvent<E>>)
    requires
        drive_ran(events),
        events.len() > 0,
        routes(drive_run(events).1).len() <= u64::MAX,
        drive_run(events).1.last() is Finish,
    ensures
        ({
            let summary = drive_run(events).1.last()->summary;
            &&& routes(drive_run(events).1).len() == summary.routed + summary.route_failures
            &&& summary.exit == DriveExit::RouterFailed <==> events.last() == (DriveEvent::<
                E,
            >::Routed { outcome: RouteOutcome::Fatal })
            &&& summary.exit == DriveExit::InboundClosed <==> events.last() == (DriveEvent::<
                E,
            >::Received { event: None })
            &&& summary.exit == DriveExit::Shutdown <==> events.last() == DriveEvent::<
                E,
            >::Shutdown
            &&& summary.exit == DriveExit::InboundClosed ==> summary.routed == received(
                events,
            ).len()
            &&& forall|k: int|
                0 <= k < events.len() - 1 ==> #[trigger] events[k] != (DriveEvent::<E>::Routed {
                    outcome: RouteOutcome::Fatal,
                })
        }),
{
    lemma_run_counts(events);
    let (view, actions) = drive_run(events.drop_last());
    assert(actions.push(driven(view, events.last()).1).drop_last() =~= actions);
    lemma_run_counts(events.drop_last());
    assert forall|k: int| 0 <= k < events.len() - 1 implies #[trigger] events[k] != (DriveEvent::<
        E,
    >::Routed { outcome: RouteOutcome::Fatal }) by {
        lemma_runs_go_on(events, k);
    }
}

proof fn lemma_runs_go_on<E>(events: Seq<DriveEvent<E>>, at: int)
    requires
        drive_ran(events),
        0 <= at < events.len() - 1,
    ensures
        events[at] != (DriveEvent::<E>::Routed { outcome: RouteOutcome::Fatal }),
    decreases events.len(),
{
    let before = events.drop_last();
    if at < before.len() - 1 {
        lemma_runs_go_on(before, at);
    } else {
        assert(before.last() == events[at]);
    }
}

/// A driver that stopped without a signal says so: nothing but the signal ends
/// a run well.
pub proof fn only_a_signal_ends_a_run_well<E>(
    view: DriverView<E>,
    event: DriveEvent<E>,
    router_stopped: bool,
    store_stopped: bool,
)
    requires
        drive_expected(view.phase, event),
        driven(view, event).1 is Finish,
        run_finished(driven(view, event).1->summary, router_stopped, store_stopped) is Ok,
    ensures
        event is Shutdown,
        router_stopped && store_stopped,
{
}

/// A part of the running application.
#[derive(Clone, Copy, Debug, PartialEq, Eq, Structural)]
pub enum Component {
    Store,
    Attachments,
    Supervisor,
    Source,
    Outbound,
    Router,
    Maintenance,
}

/// What the assembly does next.
pub enum AssemblyAction {
    OpenStore,
    OpenAttachments,
    ReconcileAttachments,
    StartSupervisor,
    /// Start the source of inbound events while the supervisor is watched.
    StartInbound,
    StartOutbound,
    /// Start the router, which takes the supervisor over.
    StartRouter,
    StartMaintenance,
    Drive,
    Stop { component: Component },
    Finish { result: Result<DriveSummary, AppError> },
}

/// Content of what the assembly does next.
pub enum AssemblyActionView {
    OpenStore,
    OpenAttachments,
    ReconcileAttachments,
    StartSupervisor,
    StartInbound,
    StartOutbound,
    StartRouter,
    StartMaintenance,
    Drive,
    Stop { component: Component },
    Finish { result: Result<DriveSummary, AppErrorView> },
}

impl View for AssemblyAction {
    type V = AssemblyActionView;

    open spec fn view(&self) -> AssemblyActionView {
        match *self {
            AssemblyAction::OpenStore => AssemblyActionView::OpenStore,
            AssemblyAction::OpenAttachments => AssemblyActionView::OpenAttachments,
            AssemblyAction::ReconcileAttachments => AssemblyActionView::ReconcileAttachments,
            AssemblyAction::StartSupervisor => AssemblyActionView::StartSupervisor,
            AssemblyAction::StartInbound => AssemblyActionView::StartInbound,
            AssemblyAction::StartOutbound => AssemblyActionView::StartOutbound,
            AssemblyAction::StartRouter => AssemblyActionView::StartRouter,
            AssemblyAction::StartMaintenance => AssemblyActionView::StartMaintenance,
            AssemblyAction::Drive => AssemblyActionView::Drive,
            AssemblyAction::Stop { component } => AssemblyActionView::Stop { component },
            AssemblyAction::Finish { result } => AssemblyActionView::Finish {
                result: run_view(result),
            },
        }
    }
}

/// Contents of a list of actions.
pub open spec fn assembly_actions(actions: Seq<AssemblyAction>) -> Seq<AssemblyActionView> {
    actions.map_values(|action: AssemblyAction| action@)
}

/// What the checks before anything is opened came to.
#[derive(Clone, Copy, Debug, PartialEq, Eq, Structural)]
pub struct Preflight {
    /// The access policy is sound.
    pub policy: bool,
    /// The backend is one that this assembly may spawn. An external backend
    /// fails closed and never falls back to spawning.
    pub spawnable: bool,
    /// The HTTP client could be built.
    pub http: bool,
}

/// What happens to the assembly.
pub enum AssemblyEvent {
    StoreOpened { opened: bool },
    AttachmentsOpened { opened: bool },
    AttachmentsReconciled { reconciled: bool },
    SupervisorStarted { started: bool },
    /// The supervisor's state right after its start.
    SupervisorObserved { degraded: Option<String> },
    /// The source started, failed, or the supervisor failed meanwhile.
    InboundStarted { outcome: Result<bool, AppError> },
    OutboundStarted { started: bool },
    RouterStarted,
    RouterFailed { unavailable: Option<String> },
    Driven { summary: DriveSummary },
    /// Everything was stopped.
    Stopped { router_stopped: bool, store_stopped: bool },
}

/// What the assembly waits for.
#[derive(Clone, Copy, Debug, PartialEq, Eq, Structural)]
pub enum AssemblyPhase {
    OpeningStore,
    OpeningAttachments,
    Reconciling,
    StartingSupervisor,
    ObservingSupervisor,
    StartingInbound,
    StartingOutbound,
    StartingRouter,
    Driving,
    Stopping { summary: DriveSummary },
    Done,
}

/// The parts that run while the assembly waits, in the order in which they are
/// stopped: producers first, the store last. The router owns the supervisor
/// from the moment it is started with it.
pub open spec fn running(phase: AssemblyPhase) -> Seq<Component> {
    match phase {
        AssemblyPhase::OpeningStore => Seq::empty(),
        AssemblyPhase::OpeningAttachments => seq![Component::Store],
        AssemblyPhase::Reconciling => seq![Component::Attachments, Component::Store],
        AssemblyPhase::StartingSupervisor => seq![Component::Attachments, Component::Store],
        AssemblyPhase::ObservingSupervisor => seq![
            Component::Supervisor,
            Component::Attachments,
            Component::Store,
        ],
        AssemblyPhase::StartingInbound => seq![
            Component::Supervisor,
            Component::Attachments,
            Component::Store,
        ],
        AssemblyPhase::StartingOutbound => seq![
            Component::Source,
            Component::Supervisor,
            Component::Attachments,
            Component::Store,
        ],
        AssemblyPhase::StartingRouter => seq![
            Component::Source,
            Component::Outbound,
            Component::Attachments,
            Component::Store,
        ],
        AssemblyPhase::Driving => seq![
            Component::Source,
            Component::Maintenance,
            Component::Router,
            Component::Outbound,
            Component::Attachments,
            Component::Store,
        ],
        _ => Seq::empty(),
    }
}

/// The actions that stop parts, in order.
pub open spec fn stops(components: Seq<Component>) -> Seq<AssemblyActionView> {
    components.map_values(|component: Component| AssemblyActionView::Stop { component })
}

/// The assembly gives up: everything that runs is stopped, then the failure is
/// reported.
pub open spec fn assembly_failed(phase: AssemblyPhase, error: AppErrorView) -> (
    AssemblyPhase,
    Seq<AssemblyActionView>,
) {
    (
        AssemblyPhase::Done,
        stops(running(phase)).push(AssemblyActionView::Finish { result: Err(error) }),
    )
}

/// The assembly goes on.
pub open spec fn assembly_went_on(next: AssemblyPhase, action: AssemblyActionView) -> (
    AssemblyPhase,
    Seq<AssemblyActionView>,
) {
    (next, seq![action])
}

/// Whether an event can happen in a phase.
pub open spec fn assembly_expected(phase: AssemblyPhase, event: AssemblyEvent) -> bool {
    match phase {
        AssemblyPhase::OpeningStore => event is StoreOpened,
        AssemblyPhase::OpeningAttachments => event is AttachmentsOpened,
        AssemblyPhase::Reconciling => event is AttachmentsReconciled,
        AssemblyPhase::StartingSupervisor => event is SupervisorStarted,
        AssemblyPhase::ObservingSupervisor => event is SupervisorObserved,
        AssemblyPhase::StartingInbound => event is InboundStarted,
        AssemblyPhase::StartingOutbound => event is OutboundStarted,
        AssemblyPhase::StartingRouter => event is RouterStarted || event is RouterFailed,
        AssemblyPhase::Driving => event is Driven,
        AssemblyPhase::Stopping { .. } => event is Stopped,
        AssemblyPhase::Done => false,
    }
}

/// What an event leads to.
pub open spec fn assembled(phase: AssemblyPhase, event: AssemblyEvent) -> (
    AssemblyPhase,
    Seq<AssemblyActionView>,
) {
    match event {
        AssemblyEvent::StoreOpened { opened } => if opened {
            assembly_went_on(
                AssemblyPhase::OpeningAttachments,
                AssemblyActionView::OpenAttachments,
            )
        } else {
            assembly_failed(phase, AppErrorView::Store)
        },
        AssemblyEvent::AttachmentsOpened { opened } => if opened {
            assembly_went_on(
                AssemblyPhase::Reconciling,
                AssemblyActionView::ReconcileAttachments,
            )
        } else {
            assembly_failed(phase, AppErrorView::Attachments)
        },
        AssemblyEvent::AttachmentsReconciled { reconciled } => if reconciled {
            assembly_went_on(
                AssemblyPhase::StartingSupervisor,
                AssemblyActionView::StartSupervisor,
            )
        } else {
            assembly_failed(phase, AppErrorView::Attachments)
        },
        AssemblyEvent::SupervisorStarted { started } => if started {
            (AssemblyPhase::ObservingSupervisor, Seq::empty())
        } else {
            assembly_failed(phase, AppErrorView::Supervisor)
        },
        AssemblyEvent::SupervisorObserved { degraded } => match degraded {
            None => assembly_went_on(
                AssemblyPhase::StartingInbound,
                AssemblyActionView::StartInbound,
            ),
            Some(reason) => assembly_failed(
                phase,
                AppErrorView::CodexUnavailable { reason: reason@ },
            ),
        },
        AssemblyEvent::InboundStarted { outcome } => match outcome {
            Ok(started) => if started {
                assembly_went_on(
                    AssemblyPhase::StartingOutbound,
                    AssemblyActionView::StartOutbound,
                )
            } else {
                assembly_failed(phase, AppErrorView::Lark)
            },
            Err(error) => assembly_failed(phase, error@),
        },
        AssemblyEvent::OutboundStarted { started } => if started {
            assembly_went_on(AssemblyPhase::StartingRouter, AssemblyActionView::StartRouter)
        } else {
            assembly_failed(phase, AppErrorView::Outbound)
        },
        AssemblyEvent::RouterStarted => (
            AssemblyPhase::Driving,
            seq![AssemblyActionView::StartMaintenance, AssemblyActionView::Drive],
        ),
        AssemblyEvent::RouterFailed { unavailable } => match unavailable {
            Some(reason) => assembly_failed(
                phase,
                AppErrorView::CodexUnavailable { reason: reason@ },
            ),
            None => assembly_failed(phase, AppErrorView::Router),
        },
        AssemblyEvent::Driven { summary } => (
            AssemblyPhase::Stopping { summary },
            stops(running(phase)),
        ),
        AssemblyEvent::Stopped { router_stopped, store_stopped } => (
            AssemblyPhase::Done,
            seq![
                AssemblyActionView::Finish {
                    result: run_finished(phase->summary, router_stopped, store_stopped),
                },
            ],
        ),
    }
}

/// The assembly of the application.
pub struct Assembly {
    phase: AssemblyPhase,
}

impl View for Assembly {
    type V = AssemblyPhase;

    closed spec fn view(&self) -> AssemblyPhase {
        self.phase
    }
}

fn append_stops(actions: &mut Vec<AssemblyAction>, phase: AssemblyPhase)
    ensures
        assembly_actions(final(actions)@) == assembly_actions(old(actions)@) + stops(
            running(phase),
        ),
{
    let parts: Vec<Component> = match phase {
        AssemblyPhase::OpeningStore => Vec::new(),
        AssemblyPhase::OpeningAttachments => vec![Component::Store],
        AssemblyPhase::Reconciling => vec![Component::Attachments, Component::Store],
        AssemblyPhase::StartingSupervisor => vec![Component::Attachments, Component::Store],
        AssemblyPhase::ObservingSupervisor => vec![
            Component::Supervisor,
            Component::Attachments,
            Component::Store,
        ],
        AssemblyPhase::StartingInbound => vec![
            Component::Supervisor,
            Component::Attachments,
            Component::Store,
        ],
        AssemblyPhase::StartingOutbound => vec![
            Component::Source,
            Component::Supervisor,
            Component::Attachments,
            Component::Store,
        ],
        AssemblyPhase::StartingRouter => vec![
            Component::Source,
            Component::Outbound,
            Component::Attachments,
            Component::Store,
        ],
        AssemblyPhase::Driving => vec![
            Component::Source,
            Component::Maintenance,
            Component::Router,
            Component::Outbound,
            Component::Attachments,
            Component::Store,
        ],
        AssemblyPhase::Stopping { .. } => Vec::new(),
        AssemblyPhase::Done => Vec::new(),
    };
    proof {
        assert(parts@ =~= running(phase));
        assert(assembly_actions(actions@) + stops(parts@.take(0)) =~= assembly_actions(actions@));
    }
    let ghost before = assembly_actions(actions@);
    let mut at: usize = 0;
    while at < parts.len()
        invariant
            at <= parts@.len(),
            assembly_actions(actions@) == before + stops(parts@.take(at as int)),
        decreases parts@.len() - at,
    {
        let ghost held = actions@;
        actions.push(AssemblyAction::Stop { component: parts[at] });
        proof {
            assert(assembly_actions(actions@) =~= before + stops(parts@.take(at + 1))) by {
                assert(assembly_actions(actions@) =~= assembly_actions(held).push(
                    AssemblyActionView::Stop { component: parts@[at as int] },
                ));
                assert(stops(parts@.take(at + 1)) =~= stops(parts@.take(at as int)).push(
                    AssemblyActionView::Stop { component: parts@[at as int] },
                ));
            }
        }
        at += 1;
    }
    proof {
        assert(parts@.take(parts@.len() as int) =~= parts@);
    }
}

impl Assembly {
    /// Starts with the store, once the checks before it have passed.
    ///
    /// # Errors
    ///
    /// `Config`, `Supervisor` or `Lark`, whichever check failed first.
    pub fn start(preflight: Preflight) -> (started: Result<(Assembly, AssemblyAction), AppError>)
        ensures
            match started {
                Ok((assembly, action)) => {
                    &&& preflight.policy && preflight.spawnable && preflight.http
                    &&& assembly@ == AssemblyPhase::OpeningStore
                    &&& action@ == AssemblyActionView::OpenStore
                },
                Err(error) => error@ == if !preflight.policy {
                    AppErrorView::Config
                } else if !preflight.spawnable {
                    AppErrorView::Supervisor
                } else {
                    AppErrorView::Lark
                } && !(preflight.policy && preflight.spawnable && preflight.http),
            },
    {
        if !preflight.policy {
            return Err(AppError::Config);
        }
        if !preflight.spawnable {
            return Err(AppError::Supervisor);
        }
        if !preflight.http {
            return Err(AppError::Lark);
        }
        Ok((Assembly { phase: AssemblyPhase::OpeningStore }, AssemblyAction::OpenStore))
    }

    fn fail(&mut self, error: AppError) -> (actions: Vec<AssemblyAction>)
        ensures
            (final(self)@, assembly_actions(actions@)) == assembly_failed(old(self)@, error@),
    {
        let mut actions: Vec<AssemblyAction> = Vec::new();
        proof {
            assert(assembly_actions(actions@) =~= Seq::empty());
        }
        append_stops(&mut actions, self.phase);
        let ghost stopped = actions@;
        actions.push(AssemblyAction::Finish { result: Err(error) });
        self.phase = AssemblyPhase::Done;
        proof {
            assert(assembly_actions(actions@) =~= assembly_actions(stopped).push(
                AssemblyActionView::Finish { result: Err(error@) },
            ));
            assert(Seq::empty() + stops(running(old(self)@)) =~= stops(running(old(self)@)));
        }
        actions
    }

    fn go_on(&mut self, next: AssemblyPhase, action: AssemblyAction) -> (actions: Vec<
        AssemblyAction,
    >)
        ensures
            (final(self)@, assembly_actions(actions@)) == assembly_went_on(next, action@),
    {
        self.phase = next;
        let actions = vec![action];
        proof {
            assert(assembly_actions(actions@) =~= seq![action@]);
        }
        actions
    }

    /// Takes what happened: what is to be done next, in order.
    pub fn step(&mut self, event: AssemblyEvent) -> (actions: Vec<AssemblyAction>)
        requires
            assembly_expected(old(self)@, event),
        ensures
            (final(self)@, assembly_actions(actions@)) == assembled(old(self)@, event),
    {
        match event {
            AssemblyEvent::StoreOpened { opened } => if opened {
                self.go_on(AssemblyPhase::OpeningAttachments, AssemblyAction::OpenAttachments)
            } else {
                self.fail(AppError::Store)
            },
            AssemblyEvent::AttachmentsOpened { opened } => if opened {
                self.go_on(AssemblyPhase::Reconciling, AssemblyAction::ReconcileAttachments)
            } else {
                self.fail(AppError::Attachments)
            },
            AssemblyEvent::AttachmentsReconciled { reconciled } => if reconciled {
                self.go_on(AssemblyPhase::StartingSupervisor, AssemblyAction::StartSupervisor)
            } else {
                self.fail(AppError::Attachments)
            },
            AssemblyEvent::SupervisorStarted { started } => if started {
                self.phase = AssemblyPhase::ObservingSupervisor;
                let actions: Vec<AssemblyAction> = Vec::new();
                proof {
                    assert(assembly_actions(actions@) =~= Seq::empty());
                }
                actions
            } else {
                self.fail(AppError::Supervisor)
            },
            AssemblyEvent::SupervisorObserved { degraded } => match degraded {
                None => self.go_on(AssemblyPhase::StartingInbound, AssemblyAction::StartInbound),
                Some(reason) => self.fail(AppError::CodexUnavailable { reason }),
            },
            AssemblyEvent::InboundStarted { outcome } => match outcome {
                Ok(started) => if started {
                    self.go_on(AssemblyPhase::StartingOutbound, AssemblyAction::StartOutbound)
                } else {
                    self.fail(AppError::Lark)
                },
                Err(error) => self.fail(error),
            },
            AssemblyEvent::OutboundStarted { started } => if started {
                self.go_on(AssemblyPhase::StartingRouter, AssemblyAction::StartRouter)
            } else {
                self.fail(AppError::Outbound)
            },
            AssemblyEvent::RouterStarted => {
                self.phase = AssemblyPhase::Driving;
                let actions = vec![AssemblyAction::StartMaintenance, AssemblyAction::Drive];
                proof {
                    assert(assembly_actions(actions@) =~= assembled(old(self)@, event).1);
                }
                actions
            },
            AssemblyEvent::RouterFailed { unavailable } => match unavailable {
                Some(reason) => self.fail(AppError::CodexUnavailable { reason }),
                None => self.fail(AppError::Router),
            },
            AssemblyEvent::Driven { summary } => {
                let mut actions: Vec<AssemblyAction> = Vec::new();
                proof {
                    assert(assembly_actions(actions@) =~= Seq::empty());
                }
                append_stops(&mut actions, self.phase);
                self.phase = AssemblyPhase::Stopping { summary };
                proof {
                    assert(Seq::empty() + stops(running(old(self)@)) =~= stops(
                        running(old(self)@),
                    ));
                }
                actions
            },
            AssemblyEvent::Stopped { router_stopped, store_stopped } => {
                let result = match self.phase {
                    AssemblyPhase::Stopping { summary } => finish_run(
                        summary,
                        router_stopped,
                        store_stopped,
                    ),
                    _ => Err(AppError::Supervisor),
                };
                self.phase = AssemblyPhase::Done;
                let actions = vec![AssemblyAction::Finish { result }];
                proof {
                    assert(assembly_actions(actions@) =~= assembled(old(self)@, event).1);
                }
                actions
            },
        }
    }
}

/// The part that a start brings up, where it succeeds.
pub open spec fn brought_up(event: AssemblyEvent) -> Option<Component> {
    match event {
        AssemblyEvent::StoreOpened { opened: true } => Some(Component::Store),
        AssemblyEvent::AttachmentsOpened { opened: true } => Some(Component::Attachments),
        AssemblyEvent::SupervisorStarted { started: true } => Some(Component::Supervisor),
        AssemblyEvent::InboundStarted { outcome: Ok(true) } => Some(Component::Source),
        AssemblyEvent::OutboundStarted { started: true } => Some(Component::Outbound),
        _ => None,
    }
}

/// Whatever is up is stopped in a failure, once, and before the failure is
/// reported: a start that succeeds adds its part to those that are stopped, and
/// none leaves them but the supervisor, which the router takes over.
pub proof fn nothing_is_left_running(
    phase: AssemblyPhase,
    event: AssemblyEvent,
    component: Component,
    error: AppErrorView,
)
    requires
        assembly_expected(phase, event),
        !(assembled(phase, event).0 is Done) && !(assembled(phase, event).0 is Stopping),
        running(phase).contains(component) || brought_up(event) == Some(component),
    ensures
        running(assembled(phase, event).0).contains(component) || (component
            == Component::Supervisor && phase is StartingOutbound),
        running(phase).no_duplicates(),
        assembly_failed(phase, error).1.last() == (AssemblyActionView::Finish {
            result: Err(error),
        }),
        assembly_failed(phase, error).1.drop_last() == stops(running(phase)),
{
    let next = running(assembled(phase, event).0);
    assert(assembly_failed(phase, error).1.drop_last() =~= stops(running(phase)));
    if running(phase).contains(component) {
        let at = choose|at: int| 0 <= at < running(phase).len() && running(phase)[at] == component;
        assert(next.len() > 0);
        if next[0] == component {
        } else if next.len() > 1 && next[1] == component {
        } else if next.len() > 2 && next[2] == component {
        } else if next.len() > 3 && next[3] == component {
        } else if next.len() > 4 && next[4] == component {
        } else if next.len() > 5 && next[5] == component {
        }
    } else {
        if next[0] == component {
        } else if next.len() > 1 && next[1] == component {
        }
    }
}

/// Producers stop before the parts that they feed, and the store stops last.
pub proof fn the_store_stops_last(phase: AssemblyPhase)
    requires
        running(phase).contains(Component::Store),
    ensures
        running(phase).last() == Component::Store,
        running(phase).contains(Component::Source) ==> running(phase).first()
            == Component::Source,
{
}

/// A run ends well exactly where a signal stopped it and both the router and
/// the store stopped in order; each other end has its own error, the router's
/// before the store's and both before the reason of the stop.
pub proof fn runs_end_as_they_went(
    summary: DriveSummary,
    router_stopped: bool,
    store_stopped: bool,
)
    ensures
        ({
            let result = run_finished(summary, router_stopped, store_stopped);
            &&& result is Ok <==> summary.exit == DriveExit::Shutdown && router_stopped
                && store_stopped
            &&& result matches Ok(held) ==> held == summary
            &&& !router_stopped ==> result == Err::<DriveSummary, AppErrorView>(
                AppErrorView::Router,
            )
            &&& router_stopped && !store_stopped ==> result == Err::<DriveSummary, AppErrorView>(
                AppErrorView::Store,
            )
            &&& router_stopped && store_stopped && summary.exit == DriveExit::InboundClosed
                ==> result == Err::<DriveSummary, AppErrorView>(AppErrorView::InboundClosed)
            &&& router_stopped && store_stopped && summary.exit == DriveExit::RouterFailed
                ==> result == Err::<DriveSummary, AppErrorView>(AppErrorView::Router)
        }),
{
}

/// The parts are brought up one by one in their order, each once the one before
/// is up.
pub proof fn parts_are_brought_up_in_order(summary: DriveSummary)
    ensures
        assembled(AssemblyPhase::OpeningStore, AssemblyEvent::StoreOpened { opened: true }) == (
            AssemblyPhase::OpeningAttachments,
            seq![AssemblyActionView::OpenAttachments],
        ),
        assembled(
            AssemblyPhase::OpeningAttachments,
            AssemblyEvent::AttachmentsOpened { opened: true },
        ) == (AssemblyPhase::Reconciling, seq![AssemblyActionView::ReconcileAttachments]),
        assembled(
            AssemblyPhase::Reconciling,
            AssemblyEvent::AttachmentsReconciled { reconciled: true },
        ) == (AssemblyPhase::StartingSupervisor, seq![AssemblyActionView::StartSupervisor]),
        assembled(
            AssemblyPhase::StartingSupervisor,
            AssemblyEvent::SupervisorStarted { started: true },
        ) == (AssemblyPhase::ObservingSupervisor, Seq::<AssemblyActionView>::empty()),
        assembled(
            AssemblyPhase::ObservingSupervisor,
            AssemblyEvent::SupervisorObserved { degraded: None },
        ) == (AssemblyPhase::StartingInbound, seq![AssemblyActionView::StartInbound]),
        assembled(
            AssemblyPhase::StartingInbound,
            AssemblyEvent::InboundStarted { outcome: Ok(true) },
        ) == (AssemblyPhase::StartingOutbound, seq![AssemblyActionView::StartOutbound]),
        assembled(
            AssemblyPhase::StartingOutbound,
            AssemblyEvent::OutboundStarted { started: true },
        ) == (AssemblyPhase::StartingRouter, seq![AssemblyActionView::StartRouter]),
        assembled(AssemblyPhase::StartingRouter, AssemblyEvent::RouterStarted) == (
            AssemblyPhase::Driving,
            seq![AssemblyActionView::StartMaintenance, AssemblyActionView::Drive],
        ),
        assembled(AssemblyPhase::Driving, AssemblyEvent::Driven { summary }).0 == (
        AssemblyPhase::Stopping { summary }),
{
}

/// A part that cannot be brought up ends the assembly with its own error, and
/// an unavailable server with its own reason, once everything that is up was
/// stopped.
pub proof fn failed_parts_end_the_assembly(
    phase: AssemblyPhase,
    event: AssemblyEvent,
    summary: DriveSummary,
    router_stopped: bool,
    store_stopped: bool,
)
    requires
        assembly_expected(phase, event),
    ensures
        ({
            let (next, actions) = assembled(phase, event);
            let failed = |error: AppErrorView| {
                &&& next is Done
                &&& actions.len() == running(phase).len() + 1
                &&& actions.last() == (AssemblyActionView::Finish { result: Err(error) })
                &&& forall|k: int|
                    0 <= k < running(phase).len() ==> #[trigger] actions[k] == (
                    AssemblyActionView::Stop { component: running(phase)[k] })
            };
            match event {
                AssemblyEvent::StoreOpened { opened: false } => failed(AppErrorView::Store),
                AssemblyEvent::AttachmentsOpened { opened: false } => failed(
                    AppErrorView::Attachments,
                ),
                AssemblyEvent::AttachmentsReconciled { reconciled: false } => failed(
                    AppErrorView::Attachments,
                ),
                AssemblyEvent::SupervisorStarted { started: false } => failed(
                    AppErrorView::Supervisor,
                ),
                AssemblyEvent::SupervisorObserved { degraded: Some(reason) } => failed(
                    AppErrorView::CodexUnavailable { reason: reason@ },
                ),
                AssemblyEvent::InboundStarted { outcome: Ok(false) } => failed(AppErrorView::Lark),
                AssemblyEvent::InboundStarted { outcome: Err(error) } => failed(error@),
                AssemblyEvent::OutboundStarted { started: false } => failed(AppErrorView::Outbound),
                AssemblyEvent::RouterFailed { unavailable: Some(reason) } => failed(
                    AppErrorView::CodexUnavailable { reason: reason@ },
                ),
                AssemblyEvent::RouterFailed { unavailable: None } => failed(AppErrorView::Router),
                AssemblyEvent::Stopped { router_stopped, store_stopped } => actions == seq![
                    AssemblyActionView::Finish {
                        result: run_finished(phase->summary, router_stopped, store_stopped),
                    },
                ] && next is Done,
                _ => !(next is Done),
            }
        }),
{
}

/// While the events are driven, everything that was brought up is up, and is
/// stopped in the order in which it is used up: the source first, the router
/// before what it sends by, the store last.
pub proof fn everything_up_is_stopped(summary: DriveSummary)
    ensures
        assembled(AssemblyPhase::Driving, AssemblyEvent::Driven { summary }).1 == seq![
            AssemblyActionView::Stop { component: Component::Source },
            AssemblyActionView::Stop { component: Component::Maintenance },
            AssemblyActionView::Stop { component: Component::Router },
            AssemblyActionView::Stop { component: Component::Outbound },
            AssemblyActionView::Stop { component: Component::Attachments },
            AssemblyActionView::Stop { component: Component::Store },
        ],
{
    assert(assembled(AssemblyPhase::Driving, AssemblyEvent::Driven { summary }).1 =~= seq![
        AssemblyActionView::Stop { component: Component::Source },
        AssemblyActionView::Stop { component: Component::Maintenance },
        AssemblyActionView::Stop { component: Component::Router },
        AssemblyActionView::Stop { component: Component::Outbound },
        AssemblyActionView::Stop { component: Component::Attachments },
        AssemblyActionView::Stop { component: Component::Store },
    ]);
}

/// The assembly gives up on a supervisor exactly where it is degraded, with its
/// own reason, or stopped.
pub proof fn only_lost_supervisors_end_the_assembly(state: SupervisorState)
    ensures
        assembly_fault(state) is None <==> !(state is Degraded || state is Stopped),
        state matches SupervisorState::Degraded { reason } ==> assembly_fault(state) == Some(
            AppErrorView::CodexUnavailable { reason: reason@ },
        ),
        state is Stopped ==> assembly_fault(state) == Some(AppErrorView::Supervisor),
{
}

/// Each try that the router sends back doubles the pause before the next one,
/// from 25 milliseconds up to a second.
pub proof fn pauses_double(attempt: u32)
    ensures
        retry_pause(1) == 25,
        1 <= attempt <= 5 ==> retry_pause((attempt + 1) as u32) == 2 * retry_pause(attempt),
        attempt >= 7 ==> retry_pause(attempt) == 1000,
        attempt == 6 ==> retry_pause(attempt) == 800,
{
    reveal_with_fuel(power_of_two, 8);
}

/// What becomes of an event: an accepted one is counted and the next one is
/// awaited, one that is sent back is counted as a failure and waits for its own
/// pause, and a router that failed ends the run with both counts.
pub proof fn routed_events_are_counted<E>(view: DriverView<E>, event: E)
    requires
        view.routed < u64::MAX,
        view.failures < u64::MAX,
        view.attempt < u32::MAX,
    ensures
        ({
            let accepted = driven(
                view,
                DriveEvent::<E>::Routed { outcome: RouteOutcome::Accepted },
            );
            let returned = driven(
                view,
                DriveEvent::Routed { outcome: RouteOutcome::Retry { event } },
            );
            let fatal = driven(view, DriveEvent::<E>::Routed { outcome: RouteOutcome::Fatal });
            let fresh = driven(view, DriveEvent::Received { event: Some(event) });
            &&& accepted.0 == (DriverView {
                routed: (view.routed + 1) as u64,
                phase: DrivePhase::Receiving,
                ..view
            }) && accepted.1 is Receive
            &&& returned.0.failures == view.failures + 1 && returned.0.routed == view.routed
                && returned.0.attempt == view.attempt + 1
            &&& returned.1 == (DriveAction::<E>::Wait {
                delay_ms: retry_pause((view.attempt + 1) as u32) as u64,
            })
            &&& fatal.1 == (DriveAction::<E>::Finish {
                summary: DriveSummary {
                    exit: DriveExit::RouterFailed,
                    routed: view.routed,
                    route_failures: (view.failures + 1) as u64,
                },
            })
            &&& fresh.0.attempt == 0 && fresh.1 == (DriveAction::Route { event })
            &&& driven(view, DriveEvent::<E>::Shutdown).1 == (DriveAction::<E>::Finish {
                summary: DriveSummary {
                    exit: DriveExit::Shutdown,
                    routed: view.routed,
                    route_failures: view.failures,
                },
            })
            &&& driven(view, DriveEvent::<E>::Received { event: None }).1 == (DriveAction::<
                E,
            >::Finish {
                summary: DriveSummary {
                    exit: DriveExit::InboundClosed,
                    routed: view.routed,
                    route_failures: view.failures,
                },
            })
        }),
{
}

/// What becomes of an event that the router could not take.
pub open spec fn route_failed<E>(error: RouteError, event: Option<E>) -> RouteOutcome<E> {
    match (error, event) {
        (RouteError::Capacity, Some(event)) => RouteOutcome::Retry { event },
        _ => RouteOutcome::Fatal,
    }
}

/// An event is tried again exactly where the router had no room and gave that
/// very event back; it is never taken for accepted.
pub proof fn only_returned_events_are_tried_again<E>(error: RouteError, event: Option<E>)
    ensures
        route_failed(error, event) is Retry <==> error == RouteError::Capacity && event is Some,
        route_failed(error, event) matches RouteOutcome::Retry { event: held } ==> event == Some(
            held,
        ),
        !(route_failed(error, event) is Accepted),
{
}

/// The source of inbound events after a sidecar was tried.
pub open spec fn source_chosen(started: bool, fallback: bool) -> Option<InboundChoice> {
    if started {
        Some(InboundChoice::Sidecar)
    } else if fallback {
        Some(InboundChoice::Native)
    } else {
        None
    }
}

/// A sidecar that started is the source, whatever else is allowed; the native
/// source takes its place exactly where that is allowed.
pub proof fn sidecars_are_replaced_where_allowed(started: bool, fallback: bool)
    ensures
        source_chosen(started, fallback) == Some(InboundChoice::Sidecar) <==> started,
        source_chosen(started, fallback) == Some(InboundChoice::Native) <==> !started && fallback,
        source_chosen(started, fallback) is None <==> !started && !fallback,
{
}

} // verus!
