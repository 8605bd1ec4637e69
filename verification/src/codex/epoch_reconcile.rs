//! Reconciliation of every managed thread over one connection epoch, while the
//! connection's own events keep arriving.
use vstd::prelude::*;

use crate::codex::external_transport::ExternalApprovalRequest;
use crate::codex::external_transport::ExternalReadEvent;
use crate::codex::external_transport::ExternalTransportError;
use crate::codex::reconcile::closed_failure;
use crate::codex::reconcile::event_buffered;
use crate::codex::reconcile::event_thread;
use crate::codex::reconcile::event_thread_id;
use crate::codex::reconcile::nothing_finished;
use crate::codex::reconcile::terminal_from_event;
use crate::codex::reconcile::terminal_of;
use crate::codex::reconcile::BuffersView;
use crate::codex::reconcile::EpochFailure;
use crate::codex::reconcile::ExternalTerminalStatus;
use crate::codex::reconcile::ExternalUncertaintyReason;
use crate::codex::reconcile::ReconcileMailboxes;
use crate::codex::reconcile::Terminal;
use crate::codex::reconcile::TerminalView;
use crate::codex::reconcile::ThreadFailure;
use crate::codex::thread_reconcile::apply_result;
use crate::codex::thread_reconcile::awaited;
use crate::codex::thread_reconcile::reconciled;
use crate::codex::thread_reconcile::ActionView;
use crate::codex::thread_reconcile::ApplyOutcome;
use crate::codex::thread_reconcile::ReconcileAction;
use crate::codex::thread_reconcile::ReconcileResponse;
use crate::codex::thread_reconcile::ReconcileView;
use crate::codex::thread_reconcile::StageView;
use crate::codex::thread_reconcile::ThreadReconcile;
use crate::codex::types::TransportExit;
use crate::codex::types::TurnStatusView;
use crate::keyed::has_key;
use crate::limits::EXTERNAL_MANAGED_THREAD_CAPACITY;
use crate::ordered::holds;
use crate::ordered::views;
use crate::text::same_text;

verus! {

/// What a failed request means for the epoch.
pub fn map_transport_failure(error: ExternalTransportError) -> (failure: EpochFailure)
    ensures
        failure == transport_failure(error),
{
    match error {
        ExternalTransportError::RequestTimeout => EpochFailure::RequestTimeout,
        ExternalTransportError::ConnectionLost => EpochFailure::ConnectionLost,
        _ => EpochFailure::ProtocolViolation,
    }
}

/// What a failed request means for the epoch.
pub open spec fn transport_failure(error: ExternalTransportError) -> EpochFailure {
    match error {
        ExternalTransportError::RequestTimeout => EpochFailure::RequestTimeout,
        ExternalTransportError::ConnectionLost => EpochFailure::ConnectionLost,
        _ => EpochFailure::ProtocolViolation,
    }
}

/// What an event on a thread whose reconciliation is over leads to.
pub enum LiveEvent {
    /// Nothing.
    Nothing,
    /// The durable record of what finished.
    Record { thread_id: String, terminal: Terminal },
}

/// Content of what an event on a reconciled thread leads to.
pub enum LiveView {
    Nothing,
    Record { thread_id: Seq<char>, terminal: TerminalView },
}

impl View for LiveEvent {
    type V = LiveView;

    open spec fn view(&self) -> LiveView {
        match *self {
            LiveEvent::Nothing => LiveView::Nothing,
            LiveEvent::Record { thread_id, terminal } => LiveView::Record {
                thread_id: thread_id@,
                terminal: terminal@,
            },
        }
    }
}

/// What an event on a reconciled thread leads to: what it finishes is recorded.
pub open spec fn live(event: ExternalReadEvent) -> Result<LiveView, EpochFailure> {
    if event is RemoteControlStatusChanged {
        Ok(LiveView::Nothing)
    } else {
        match event_thread(event) {
            None => Err(EpochFailure::ConnectionLost),
            Some(thread_id) => match terminal_of(event) {
                Err(failure) => Err(failure),
                Ok(terminal) => if terminal.turn is None && terminal.item is None {
                    Ok(LiveView::Nothing)
                } else {
                    Ok(LiveView::Record { thread_id, terminal })
                },
            },
        }
    }
}

/// Content of the outcome of an event.
pub open spec fn live_view(result: Result<LiveEvent, EpochFailure>) -> Result<
    LiveView,
    EpochFailure,
> {
    match result {
        Ok(event) => Ok(event@),
        Err(failure) => Err(failure),
    }
}

/// Takes an event on a reconciled thread: what it finishes is to be recorded.
///
/// # Errors
///
/// The loss of the connection for an event without a thread, and a violation
/// for one that may not occur.
pub fn apply_live_event(event: ExternalReadEvent) -> (result: Result<LiveEvent, EpochFailure>)
    ensures
        live_view(result) == live(event),
{
    if matches!(event, ExternalReadEvent::RemoteControlStatusChanged) {
        return Ok(LiveEvent::Nothing);
    }
    let thread_id = match event_thread_id(&event) {
        Some(text) => text.to_owned(),
        None => {
            return Err(EpochFailure::ConnectionLost);
        },
    };
    match terminal_from_event(event) {
        Err(failure) => Err(failure),
        Ok(terminal) => {
            if terminal.turn.is_none() && terminal.item.is_none() {
                Ok(LiveEvent::Nothing)
            } else {
                Ok(LiveEvent::Record { thread_id, terminal })
            }
        },
    }
}

/// What the durable record of a live event means for the epoch: a contradiction
/// is kept by the store and fails nothing.
pub fn recorded(outcome: ApplyOutcome) -> (result: Result<(), EpochFailure>)
    ensures
        result == (match outcome {
            ApplyOutcome::Applied => Ok::<(), EpochFailure>(()),
            ApplyOutcome::ConflictingTerminal => Ok::<(), EpochFailure>(()),
            ApplyOutcome::Stale => Err::<(), EpochFailure>(EpochFailure::ConnectionLost),
            ApplyOutcome::Failed => Err::<(), EpochFailure>(EpochFailure::Store),
        }),
{
    match outcome {
        ApplyOutcome::Applied => Ok(()),
        ApplyOutcome::ConflictingTerminal => Ok(()),
        ApplyOutcome::Stale => Err(EpochFailure::ConnectionLost),
        ApplyOutcome::Failed => Err(EpochFailure::Store),
    }
}

/// A thread that is recovered, and whether what it did is uncertain already.
pub struct ManagedThread {
    pub thread_id: String,
    pub uncertain: bool,
}

impl View for ManagedThread {
    type V = (Seq<char>, bool);

    open spec fn view(&self) -> (Seq<char>, bool) {
        (self.thread_id@, self.uncertain)
    }
}

/// How the fence of an epoch answered a thread.
#[derive(Clone, Copy, Debug, PartialEq, Eq, Structural)]
pub enum FenceOutcome {
    Current,
    Stale,
    Failed,
}

/// What is to be done next in an epoch.
pub enum EpochAction {
    /// Fence a thread for this epoch.
    Begin { thread_id: String },
    /// Make a request, or the durable write, of the thread at hand.
    Thread { thread_id: String, action: ReconcileAction },
    /// Mark the thread at hand uncertain.
    MarkUncertain { thread_id: String, reason: ExternalUncertaintyReason },
    /// Every managed thread is settled.
    Ready,
}

/// Content of what is to be done next.
pub enum EpochActionView {
    Begin { thread_id: Seq<char> },
    Thread { thread_id: Seq<char>, action: ActionView },
    MarkUncertain { thread_id: Seq<char>, reason: ExternalUncertaintyReason },
    Ready,
}

impl View for EpochAction {
    type V = EpochActionView;

    open spec fn view(&self) -> EpochActionView {
        match *self {
            EpochAction::Begin { thread_id } => EpochActionView::Begin { thread_id: thread_id@ },
            EpochAction::Thread { thread_id, action } => EpochActionView::Thread {
                thread_id: thread_id@,
                action: action@,
            },
            EpochAction::MarkUncertain { thread_id, reason } => EpochActionView::MarkUncertain {
                thread_id: thread_id@,
                reason,
            },
            EpochAction::Ready => EpochActionView::Ready,
        }
    }
}

/// Content of what a step gives back.
pub open spec fn epoch_action_view(action: Result<EpochAction, EpochFailure>) -> Result<
    EpochActionView,
    EpochFailure,
> {
    match action {
        Ok(action) => Ok(action@),
        Err(failure) => Err(failure),
    }
}

/// What an epoch waits for.
pub enum EpochPhase {
    /// The fence of the thread at hand.
    Beginning,
    /// An answer to, or the durable write of, the thread at hand.
    Thread(ReconcileView),
    /// The mark of the thread at hand.
    Marking,
    /// Nothing more.
    Ready,
    /// The epoch failed.
    Failed,
}

/// Content of the reconciliation of an epoch.
pub struct EpochView {
    pub managed: Seq<(Seq<char>, bool)>,
    pub at: int,
    pub ready: Seq<Seq<char>>,
    pub buffers: BuffersView,
    pub phase: EpochPhase,
}

/// A step of an epoch.
pub type EpochStep = (EpochView, Result<EpochActionView, EpochFailure>);

/// The first thread, from a place on, that is not uncertain already.
pub open spec fn next_thread(managed: Seq<(Seq<char>, bool)>, from: int) -> int
    decreases managed.len() - from,
{
    if from < 0 || from >= managed.len() || !managed[from].1 {
        from
    } else {
        next_thread(managed, from + 1)
    }
}

/// Goes on to the next thread that is not uncertain already.
pub open spec fn went_on(state: EpochView, from: int) -> EpochStep {
    let at = next_thread(state.managed, from);
    if at < state.managed.len() {
        (
            EpochView { at, phase: EpochPhase::Beginning, ..state },
            Ok(EpochActionView::Begin { thread_id: state.managed[at].0 }),
        )
    } else {
        (EpochView { at, phase: EpochPhase::Ready, ..state }, Ok(EpochActionView::Ready))
    }
}

/// The thread at hand is settled: the next one follows.
pub open spec fn thread_settled(state: EpochView) -> EpochStep {
    went_on(
        EpochView { ready: state.ready.push(state.managed[state.at].0), ..state },
        state.at + 1,
    )
}

/// The epoch fails.
pub open spec fn epoch_failed(state: EpochView, failure: EpochFailure) -> EpochStep {
    (EpochView { phase: EpochPhase::Failed, ..state }, Err(failure))
}

/// The thread at hand could not be reconciled.
pub open spec fn thread_failed(state: EpochView, failure: ThreadFailure) -> EpochStep {
    match failure {
        ThreadFailure::Uncertain(reason) => (
            EpochView { phase: EpochPhase::Marking, ..state },
            Ok(
                EpochActionView::MarkUncertain { thread_id: state.managed[state.at].0, reason },
            ),
        ),
        ThreadFailure::Epoch(failure) => epoch_failed(state, failure),
    }
}

/// What the fence of the thread at hand leads to.
pub open spec fn epoch_begun(state: EpochView, outcome: FenceOutcome) -> EpochStep {
    let thread_id = state.managed[state.at].0;
    match outcome {
        FenceOutcome::Current => (
            EpochView {
                phase: EpochPhase::Thread(
                    ReconcileView {
                        thread_id,
                        finished: nothing_finished(),
                        stage: StageView::Resume,
                    },
                ),
                ..state
            },
            Ok(EpochActionView::Thread { thread_id, action: ActionView::Resume }),
        ),
        FenceOutcome::Stale => epoch_failed(state, EpochFailure::ConnectionLost),
        FenceOutcome::Failed => epoch_failed(state, EpochFailure::Store),
    }
}

/// What an answer leads to.
pub open spec fn epoch_answered(
    state: EpochView,
    response: Result<ReconcileResponse, ExternalTransportError>,
) -> EpochStep {
    match response {
        Err(error) => epoch_failed(state, transport_failure(error)),
        Ok(response) => {
            let (thread, buffers, action) = reconciled(
                state.phase->Thread_0,
                state.buffers,
                response,
            );
            let next = EpochView { buffers, phase: EpochPhase::Thread(thread), ..state };
            match action {
                Ok(action) => (
                    next,
                    Ok(EpochActionView::Thread { thread_id: state.managed[state.at].0, action }),
                ),
                Err(failure) => thread_failed(next, failure),
            }
        },
    }
}

/// What the durable write of the thread at hand leads to.
pub open spec fn epoch_applied(state: EpochView, outcome: ApplyOutcome) -> EpochStep {
    match outcome {
        ApplyOutcome::Applied => thread_settled(state),
        ApplyOutcome::ConflictingTerminal => thread_failed(
            state,
            ThreadFailure::Uncertain(ExternalUncertaintyReason::ConflictingTerminal),
        ),
        ApplyOutcome::Stale => epoch_failed(state, EpochFailure::ConnectionLost),
        ApplyOutcome::Failed => epoch_failed(state, EpochFailure::Store),
    }
}

/// What the mark of the thread at hand leads to.
pub open spec fn epoch_marked(state: EpochView, marked: bool) -> EpochStep {
    if marked {
        thread_settled(state)
    } else {
        epoch_failed(state, EpochFailure::Store)
    }
}

/// Whether a thread is managed.
pub open spec fn is_managed(managed: Seq<(Seq<char>, bool)>, thread_id: Seq<char>) -> bool {
    exists|k: int| 0 <= k < managed.len() && #[trigger] managed[k].0 == thread_id
}

/// Whether a thread was uncertain already when the epoch began.
pub open spec fn was_uncertain(managed: Seq<(Seq<char>, bool)>, thread_id: Seq<char>) -> bool {
    exists|k: int|
        0 <= k < managed.len() && #[trigger] managed[k].0 == thread_id && managed[k].1
}

/// What arrives on the connection while an answer is awaited.
pub enum Arrival {
    /// An event, with its encoded length, which is missing where it could not
    /// be encoded.
    Event { event: ExternalReadEvent, bytes: Option<usize> },
    /// An event that could not be read.
    Unreadable,
    /// The end of the events.
    Ended,
    /// The bridge stops.
    Cancelled,
}

/// What an event leads to: one on a thread that is settled is recorded, one on
/// a thread that is not yet settled waits, and one on a thread that nobody
/// manages fails the epoch.
pub open spec fn event_routed(
    state: EpochView,
    event: ExternalReadEvent,
    bytes: Option<usize>,
) -> (BuffersView, Result<LiveView, EpochFailure>) {
    if event is RemoteControlStatusChanged {
        (state.buffers, Ok(LiveView::Nothing))
    } else {
        match event_thread(event) {
            None => (state.buffers, Err(EpochFailure::ProtocolViolation)),
            Some(thread_id) => if !is_managed(state.managed, thread_id) {
                (state.buffers, Err(EpochFailure::ProtocolViolation))
            } else if was_uncertain(state.managed, thread_id) {
                (state.buffers, Ok(LiveView::Nothing))
            } else if state.ready.contains(thread_id) {
                (state.buffers, live(event))
            } else {
                match bytes {
                    Some(bytes) => (
                        event_buffered(state.buffers, thread_id, event, bytes),
                        Ok(LiveView::Nothing),
                    ),
                    None => (
                        state.buffers,
                        if has_key(state.buffers.overflow, thread_id) {
                            Ok(LiveView::Nothing)
                        } else {
                            Err(EpochFailure::ProtocolViolation)
                        },
                    ),
                }
            },
        }
    }
}

/// What an arrival leads to.
pub open spec fn arrived(state: EpochView, arrival: Arrival) -> (
    EpochView,
    Result<LiveView, EpochFailure>,
) {
    let (buffers, result) = match arrival {
        Arrival::Cancelled => (state.buffers, Err(EpochFailure::ConnectionLost)),
        Arrival::Unreadable => (state.buffers, Err(EpochFailure::ProtocolViolation)),
        Arrival::Ended => (state.buffers, Err(EpochFailure::ConnectionLost)),
        Arrival::Event { event, bytes } => match event {
            ExternalReadEvent::Closed(exit) => (
                state.buffers,
                Err(
                    if exit == TransportExit::ProtocolViolation || exit
                        == TransportExit::TaskFailed {
                        EpochFailure::ProtocolViolation
                    } else {
                        EpochFailure::ConnectionLost
                    },
                ),
            ),
            _ => event_routed(state, event, bytes),
        },
    };
    (
        EpochView {
            buffers,
            phase: if result is Err {
                EpochPhase::Failed
            } else {
                state.phase
            },
            ..state
        },
        result,
    )
}

/// Whether every thread in front of the one at hand is settled.
pub open spec fn settled_before(
    managed: Seq<(Seq<char>, bool)>,
    at: int,
    ready: Seq<Seq<char>>,
) -> bool {
    forall|k: int|
        0 <= k < managed.len() && k < at ==> (#[trigger] managed[k]).1 || ready.contains(
            managed[k].0,
        )
}

enum Phase {
    Beginning,
    Thread(ThreadReconcile),
    Marking,
    Ready,
    Failed,
}

/// The reconciliation of one connection epoch.
pub struct EpochReconcile {
    managed: Vec<ManagedThread>,
    at: usize,
    ready: Vec<String>,
    mailboxes: ReconcileMailboxes,
    phase: Phase,
}

impl View for EpochReconcile {
    type V = EpochView;

    closed spec fn view(&self) -> EpochView {
        EpochView {
            managed: views(self.managed@),
            at: self.at as int,
            ready: views(self.ready@),
            buffers: self.mailboxes@,
            phase: match self.phase {
                Phase::Beginning => EpochPhase::Beginning,
                Phase::Thread(thread) => EpochPhase::Thread(thread@),
                Phase::Marking => EpochPhase::Marking,
                Phase::Ready => EpochPhase::Ready,
                Phase::Failed => EpochPhase::Failed,
            },
        }
    }
}

impl EpochReconcile {
    /// The buffers are bounded, and every thread in front of the one at hand is
    /// settled; at the end that is every thread.
    pub closed spec fn wf(&self) -> bool {
        &&& self.mailboxes.wf()
        &&& self.phase matches Phase::Thread(thread) ==> thread.wf()
        &&& !(self.phase is Ready || self.phase is Failed) ==> self.at < self.managed@.len()
        &&& self.phase is Ready ==> self.at == self.managed@.len()
        &&& settled_before(views(self.managed@), self.at as int, views(self.ready@))
    }

    /// When reconciliation is over, every managed thread is settled: its
    /// outcome was written, or it is marked uncertain.
    pub proof fn ready_settles_every_thread(&self)
        requires
            self.wf(),
            self@.phase is Ready,
        ensures
            forall|k: int|
                0 <= k < self@.managed.len() ==> (#[trigger] self@.managed[k]).1
                    || self@.ready.contains(self@.managed[k].0),
    {
        assert(self@.managed.len() == self.managed@.len());
    }

    /// Starts with the threads that are managed, which are missing where the
    /// store could not list them.
    ///
    /// # Errors
    ///
    /// `Store` without a list, or with one that is too long.
    pub fn start(managed: Option<Vec<ManagedThread>>) -> (started: Result<
        (EpochReconcile, EpochAction),
        EpochFailure,
    >)
        ensures
            started is Ok <==> managed is Some && managed->Some_0@.len()
                <= EXTERNAL_MANAGED_THREAD_CAPACITY,
            match started {
                Ok((epoch, action)) => {
                    let state = EpochView {
                        managed: views(managed->Some_0@),
                        at: 0,
                        ready: Seq::empty(),
                        buffers: BuffersView {
                            threads: Seq::empty(),
                            endpoint_bytes: 0,
                            overflow: Seq::empty(),
                        },
                        phase: EpochPhase::Beginning,
                    };
                    &&& epoch.wf()
                    &&& (epoch@, Ok::<EpochActionView, EpochFailure>(action@)) == went_on(state, 0)
                },
                Err(failure) => failure == EpochFailure::Store,
            },
    {
        let threads = match managed {
            Some(threads) => threads,
            None => {
                return Err(EpochFailure::Store);
            },
        };
        if threads.len() > EXTERNAL_MANAGED_THREAD_CAPACITY {
            return Err(EpochFailure::Store);
        }
        let mut epoch = EpochReconcile {
            managed: threads,
            at: 0,
            ready: Vec::new(),
            mailboxes: ReconcileMailboxes::new(),
            phase: Phase::Beginning,
        };
        proof {
            assert(epoch@.ready =~= Seq::empty());
        }
        let action = epoch.go_on();
        Ok((epoch, action))
    }

    fn go_on(&mut self) -> (action: EpochAction)
        requires
            old(self).mailboxes.wf(),
            old(self).at <= old(self).managed@.len(),
            settled_before(
                views(old(self).managed@),
                old(self).at as int,
                views(old(self).ready@),
            ),
        ensures
            final(self).wf(),
            (final(self)@, Ok::<EpochActionView, EpochFailure>(action@)) == went_on(
                old(self)@,
                old(self)@.at,
            ),
    {
        let ghost before = self@;
        while self.at < self.managed.len() && self.managed[self.at].uncertain
            invariant
                self.mailboxes.wf(),
                self.at <= self.managed@.len(),
                before == old(self)@,
                self@ == (EpochView { at: self.at as int, ..before }),
                settled_before(views(self.managed@), self.at as int, views(self.ready@)),
                next_thread(before.managed, self.at as int) == next_thread(
                    before.managed,
                    before.at,
                ),
            decreases self.managed@.len() - self.at,
        {
            proof {
                assert(before.managed[self.at as int] == self.managed@[self.at as int]@);
                assert(self@.managed == before.managed);
            }
            self.at += 1;
        }
        if self.at < self.managed.len() {
            proof {
                assert(before.managed == views(self.managed@));
                assert(before.managed[self.at as int] == self.managed@[self.at as int]@);
            }
            self.phase = Phase::Beginning;
            EpochAction::Begin { thread_id: self.managed[self.at].thread_id.clone() }
        } else {
            self.phase = Phase::Ready;
            EpochAction::Ready
        }
    }

    fn settle(&mut self) -> (action: EpochAction)
        requires
            old(self).wf(),
            old(self).at < old(self).managed@.len(),
        ensures
            final(self).wf(),
            (final(self)@, Ok::<EpochActionView, EpochFailure>(action@)) == thread_settled(
                old(self)@,
            ),
    {
        let ghost before = self@;
        let thread_id = self.managed[self.at].thread_id.clone();
        proof {
            assert(before.managed[before.at] == self.managed@[self.at as int]@);
        }
        self.ready.push(thread_id);
        if self.at < self.managed.len() {
            self.at += 1;
        }
        proof {
            assert(self@.ready =~= before.ready.push(before.managed[before.at].0));
            let managed = views(self.managed@);
            assert forall|k: int|
                0 <= k < managed.len() && k < self.at implies (
            #[trigger] managed[k]).1 || views(self.ready@).contains(managed[k].0) by {
                if k < before.at {
                    assert(before.managed[k].1 || before.ready.contains(before.managed[k].0));
                    if !before.managed[k].1 {
                        let j = choose|j: int|
                            0 <= j < before.ready.len() && before.ready[j] == before.managed[k].0;
                        assert(self@.ready[j] == before.managed[k].0);
                    }
                } else {
                    assert(self@.ready[before.ready.len() as int] == before.managed[k].0);
                }
            }
        }
        self.go_on()
    }

    fn fail_thread(&mut self, failure: ThreadFailure) -> (action: Result<
        EpochAction,
        EpochFailure,
    >)
        requires
            old(self).wf(),
            old(self).at < old(self).managed@.len(),
        ensures
            final(self).wf(),
            (final(self)@, epoch_action_view(action)) == thread_failed(old(self)@, failure),
    {
        proof {
            assert(self@.managed[self@.at] == self.managed@[self.at as int]@);
        }
        match failure {
            ThreadFailure::Uncertain(reason) => {
                self.phase = Phase::Marking;
                Ok(
                    EpochAction::MarkUncertain {
                        thread_id: self.managed[self.at].thread_id.clone(),
                        reason,
                    },
                )
            },
            ThreadFailure::Epoch(failure) => {
                self.phase = Phase::Failed;
                Err(failure)
            },
        }
    }

    /// Takes the answer of the fence.
    pub fn on_begun(&mut self, outcome: FenceOutcome) -> (action: Result<
        EpochAction,
        EpochFailure,
    >)
        requires
            old(self).wf(),
            old(self)@.phase is Beginning,
        ensures
            final(self).wf(),
            (final(self)@, epoch_action_view(action)) == epoch_begun(old(self)@, outcome),
    {
        proof {
            assert(self@.managed[self@.at] == self.managed@[self.at as int]@);
        }
        match outcome {
            FenceOutcome::Current => {
                let thread_id = self.managed[self.at].thread_id.clone();
                let (thread, action) = ThreadReconcile::start(thread_id.clone());
                self.phase = Phase::Thread(thread);
                Ok(EpochAction::Thread { thread_id, action })
            },
            FenceOutcome::Stale => {
                self.phase = Phase::Failed;
                Err(EpochFailure::ConnectionLost)
            },
            FenceOutcome::Failed => {
                self.phase = Phase::Failed;
                Err(EpochFailure::Store)
            },
        }
    }

    /// Takes an awaited answer, or why there is none.
    pub fn on_response(
        &mut self,
        response: Result<ReconcileResponse, ExternalTransportError>,
    ) -> (action: Result<EpochAction, EpochFailure>)
        requires
            old(self).wf(),
            old(self)@.phase is Thread,
            response is Ok ==> awaited(old(self)@.phase->Thread_0.stage, response->Ok_0),
        ensures
            final(self).wf(),
            (final(self)@, epoch_action_view(action)) == epoch_answered(old(self)@, response),
    {
        proof {
            assert(self@.managed[self@.at] == self.managed@[self.at as int]@);
        }
        let answer = match response {
            Ok(answer) => answer,
            Err(error) => {
                self.phase = Phase::Failed;
                return Err(map_transport_failure(error));
            },
        };
        let mut phase = Phase::Failed;
        std::mem::swap(&mut self.phase, &mut phase);
        match phase {
            Phase::Thread(mut thread) => {
                let step = thread.on_response(&mut self.mailboxes, answer);
                self.phase = Phase::Thread(thread);
                match step {
                    Ok(action) => Ok(
                        EpochAction::Thread {
                            thread_id: self.managed[self.at].thread_id.clone(),
                            action,
                        },
                    ),
                    Err(failure) => self.fail_thread(failure),
                }
            },
            _ => Err(EpochFailure::ProtocolViolation),
        }
    }

    /// Takes the outcome of the durable write.
    pub fn on_applied(&mut self, outcome: ApplyOutcome) -> (action: Result<
        EpochAction,
        EpochFailure,
    >)
        requires
            old(self).wf(),
            old(self)@.phase is Thread,
        ensures
            final(self).wf(),
            (final(self)@, epoch_action_view(action)) == epoch_applied(old(self)@, outcome),
    {
        match apply_result(outcome) {
            Ok(()) => Ok(self.settle()),
            Err(failure) => self.fail_thread(failure),
        }
    }

    /// Takes the outcome of marking the thread at hand uncertain.
    pub fn on_marked(&mut self, marked: bool) -> (action: Result<EpochAction, EpochFailure>)
        requires
            old(self).wf(),
            old(self)@.phase is Marking,
        ensures
            final(self).wf(),
            (final(self)@, epoch_action_view(action)) == epoch_marked(old(self)@, marked),
    {
        if marked {
            Ok(self.settle())
        } else {
            self.phase = Phase::Failed;
            Err(EpochFailure::Store)
        }
    }

    fn standing(&self, thread_id: &str) -> (standing: (bool, bool))
        ensures
            standing.0 == is_managed(self@.managed, thread_id@),
            standing.1 == was_uncertain(self@.managed, thread_id@),
    {
        let mut managed = false;
        let mut uncertain = false;
        let mut at: usize = 0;
        while at < self.managed.len()
            invariant
                at <= self.managed@.len(),
                managed ==> is_managed(self@.managed, thread_id@),
                uncertain ==> was_uncertain(self@.managed, thread_id@),
                !managed ==> forall|k: int|
                    0 <= k < at ==> (#[trigger] self@.managed[k]).0 != thread_id@,
                !uncertain ==> forall|k: int|
                    0 <= k < at ==> !((#[trigger] self@.managed[k]).0 == thread_id@
                        && self@.managed[k].1),
            decreases self.managed@.len() - at,
        {
            proof {
                assert(self@.managed[at as int] == self.managed@[at as int]@);
            }
            if same_text(self.managed[at].thread_id.as_str(), thread_id) {
                managed = true;
                proof {
                    assert(self@.managed[at as int].0 == thread_id@);
                }
                if self.managed[at].uncertain {
                    uncertain = true;
                }
            }
            at += 1;
        }
        proof {
            assert(self@.managed.len() == self.managed@.len());
        }
        (managed, uncertain)
    }

    fn route_reconcile_event(&mut self, event: ExternalReadEvent, bytes: Option<usize>) -> (
    result: Result<LiveEvent, EpochFailure>)
        requires
            old(self).wf(),
        ensures
            final(self).wf(),
            final(self)@ == (EpochView {
                buffers: event_routed(old(self)@, event, bytes).0,
                ..old(self)@
            }),
            live_view(result) == event_routed(old(self)@, event, bytes).1,
    {
        if matches!(event, ExternalReadEvent::RemoteControlStatusChanged) {
            return Ok(LiveEvent::Nothing);
        }
        let thread_id = match event_thread_id(&event) {
            Some(text) => text.to_owned(),
            None => {
                return Err(EpochFailure::ProtocolViolation);
            },
        };
        let (managed, uncertain) = self.standing(thread_id.as_str());
        if !managed {
            return Err(EpochFailure::ProtocolViolation);
        }
        if uncertain {
            return Ok(LiveEvent::Nothing);
        }
        if holds(&self.ready, thread_id.as_str()) {
            return apply_live_event(event);
        }
        match self.mailboxes.push(thread_id.as_str(), event, bytes) {
            Ok(()) => Ok(LiveEvent::Nothing),
            Err(failure) => Err(failure),
        }
    }

    /// Takes what arrives while an answer is awaited: what is to be recorded,
    /// or why the epoch fails.
    pub fn on_arrival(&mut self, arrival: Arrival) -> (result: Result<LiveEvent, EpochFailure>)
        requires
            old(self).wf(),
            !(old(self)@.phase is Ready),
        ensures
            final(self).wf(),
            (final(self)@, live_view(result)) == arrived(old(self)@, arrival),
    {
        let result = match arrival {
            Arrival::Cancelled => Err(EpochFailure::ConnectionLost),
            Arrival::Unreadable => Err(EpochFailure::ProtocolViolation),
            Arrival::Ended => Err(EpochFailure::ConnectionLost),
            Arrival::Event { event, bytes } => match event {
                ExternalReadEvent::Closed(exit) => Err(closed_failure(exit)),
                _ => self.route_reconcile_event(event, bytes),
            },
        };
        if result.is_err() {
            self.phase = Phase::Failed;
        }
        result
    }

    /// Takes the outcome of a record that an arrival asked for.
    pub fn on_recorded(&mut self, outcome: ApplyOutcome) -> (result: Result<(), EpochFailure>)
        requires
            old(self).wf(),
        ensures
            final(self).wf(),
            final(self)@ == if outcome is Stale || outcome is Failed {
                EpochView { phase: EpochPhase::Failed, ..old(self)@ }
            } else {
                old(self)@
            },
            result == (match outcome {
                ApplyOutcome::Applied => Ok::<(), EpochFailure>(()),
                ApplyOutcome::ConflictingTerminal => Ok::<(), EpochFailure>(()),
                ApplyOutcome::Stale => Err::<(), EpochFailure>(EpochFailure::ConnectionLost),
                ApplyOutcome::Failed => Err::<(), EpochFailure>(EpochFailure::Store),
            }),
    {
        let result = recorded(outcome);
        if result.is_err() {
            self.phase = Phase::Failed;
        }
        result
    }
}

/// Nothing that arrives on a thread is recorded while its snapshot is still
/// being read: it waits for the snapshot, or the epoch fails.
pub proof fn unsettled_threads_record_nothing(
    state: EpochView,
    event: ExternalReadEvent,
    bytes: Option<usize>,
)
    requires
        event_thread(event) is Some,
        !state.ready.contains(event_thread(event)->Some_0),
    ensures
        !(arrived(state, Arrival::Event { event, bytes }).1 matches Ok(LiveView::Record { .. })),
{
}

/// An event on a thread that nobody manages fails the epoch.
pub proof fn unmanaged_threads_fail_the_epoch(
    state: EpochView,
    event: ExternalReadEvent,
    bytes: Option<usize>,
)
    requires
        event_thread(event) is Some,
        !is_managed(state.managed, event_thread(event)->Some_0),
    ensures
        arrived(state, Arrival::Event { event, bytes }).1 == Err::<LiveView, EpochFailure>(
            EpochFailure::ProtocolViolation,
        ),
        arrived(state, Arrival::Event { event, bytes }).0.phase is Failed,
{
}

/// Threads are taken in their order, and only those are left out that were
/// uncertain before.
pub proof fn only_uncertain_threads_are_left_out(managed: Seq<(Seq<char>, bool)>, from: int)
    requires
        0 <= from <= managed.len(),
    ensures
        from <= next_thread(managed, from) <= managed.len(),
        next_thread(managed, from) < managed.len() ==> !managed[next_thread(managed, from)].1,
        forall|k: int|
            from <= k < next_thread(managed, from) ==> (#[trigger] managed[k]).1,
    decreases managed.len() - from,
{
    if from < managed.len() && managed[from].1 {
        only_uncertain_threads_are_left_out(managed, from + 1);
    }
}

/// After a thread comes the next one that is not uncertain, from its fence on;
/// after the last one the epoch is ready, and not before.
pub proof fn epochs_go_thread_by_thread(state: EpochView, from: int)
    requires
        0 <= from <= state.managed.len(),
    ensures
        ({
            let (next, action) = went_on(state, from);
            &&& next.managed == state.managed && next.ready == state.ready && next.buffers
                == state.buffers
            &&& action is Ok
            &&& action matches Ok(EpochActionView::Begin { thread_id }) ==> {
                &&& from <= next.at < state.managed.len()
                &&& thread_id == state.managed[next.at].0
                &&& !state.managed[next.at].1
                &&& next.phase is Beginning
                &&& forall|k: int| from <= k < next.at ==> (#[trigger] state.managed[k]).1
            }
            &&& action == Ok::<EpochActionView, EpochFailure>(EpochActionView::Ready)
                ==> next.phase is Ready && forall|k: int|
                from <= k < state.managed.len() ==> (#[trigger] state.managed[k]).1
            &&& action->Ok_0 is Begin || action->Ok_0 is Ready
        }),
{
    only_uncertain_threads_are_left_out(state.managed, from);
}

/// A thread that is fenced is reconciled from the start, under its own name; a
/// fence that is out of date is a lost connection, one that could not be set a
/// failure of the store.
pub proof fn fenced_threads_are_resumed(state: EpochView, outcome: FenceOutcome)
    ensures
        ({
            let thread_id = state.managed[state.at].0;
            let (next, action) = epoch_begun(state, outcome);
            match outcome {
                FenceOutcome::Current => action == Ok::<EpochActionView, EpochFailure>(
                    EpochActionView::Thread { thread_id, action: ActionView::Resume },
                ) && next.phase is Thread && next.phase->Thread_0.thread_id == thread_id
                    && next.phase->Thread_0.stage is Resume
                    && next.phase->Thread_0.finished.turns.len() == 0
                    && next.phase->Thread_0.finished.all_turns.len() == 0
                    && next.phase->Thread_0.finished.items.len() == 0
                    && next.phase->Thread_0.finished.listed.len() == 0
                    && next.phase->Thread_0.finished.bytes == 0,
                FenceOutcome::Stale => action == Err::<EpochActionView, EpochFailure>(
                    EpochFailure::ConnectionLost,
                ) && next.phase is Failed,
                FenceOutcome::Failed => action == Err::<EpochActionView, EpochFailure>(
                    EpochFailure::Store,
                ) && next.phase is Failed,
            }
        }),
{
}

/// The next request of a thread is that thread's own. A failure of the thread
/// alone marks it uncertain, for the reason that came, and leaves the epoch
/// going; a failure of the epoch, and a failed request, end the epoch.
pub proof fn threads_fail_alone(
    state: EpochView,
    response: Result<ReconcileResponse, ExternalTransportError>,
)
    requires
        state.phase is Thread,
    ensures
        ({
            let thread_id = state.managed[state.at].0;
            let (next, action) = epoch_answered(state, response);
            &&& next.managed == state.managed && next.at == state.at && next.ready == state.ready
            &&& response matches Ok(response) ==> {
                let (thread, buffers, result) = reconciled(
                    state.phase->Thread_0,
                    state.buffers,
                    response,
                );
                &&& next.buffers == buffers
                &&& result matches Ok(asked) ==> next.phase == EpochPhase::Thread(thread) && action
                    == Ok::<EpochActionView, EpochFailure>(
                    EpochActionView::Thread { thread_id, action: asked },
                )
                &&& result matches Err(ThreadFailure::Uncertain(reason)) ==> next.phase is Marking
                    && action == Ok::<EpochActionView, EpochFailure>(
                    EpochActionView::MarkUncertain { thread_id, reason },
                )
                &&& result matches Err(ThreadFailure::Epoch(failure)) ==> next.phase is Failed
                    && action == Err::<EpochActionView, EpochFailure>(failure)
            }
            &&& response matches Err(error) ==> next.phase is Failed && action == Err::<
                EpochActionView,
                EpochFailure,
            >(
                match error {
                    ExternalTransportError::RequestTimeout => EpochFailure::RequestTimeout,
                    ExternalTransportError::ConnectionLost => EpochFailure::ConnectionLost,
                    _ => EpochFailure::ProtocolViolation,
                },
            )
        }),
{
}

/// A thread is settled once its result is written, or its uncertainty is: then
/// it is among the settled ones, behind those before it, and the next thread's
/// turn has come. A write that contradicts what is on record makes the thread
/// uncertain; one that is out of date or failed ends the epoch.
pub proof fn written_threads_are_settled(
    state: EpochView,
    outcome: ApplyOutcome,
    marked: bool,
)
    ensures
        ({
            let thread_id = state.managed[state.at].0;
            let settled = went_on(
                EpochView { ready: state.ready.push(thread_id), ..state },
                state.at + 1,
            );
            let written = epoch_applied(state, outcome);
            let noted = epoch_marked(state, marked);
            &&& outcome == ApplyOutcome::Applied ==> written == settled && written.0.ready
                == state.ready.push(thread_id)
            &&& outcome == ApplyOutcome::ConflictingTerminal ==> written.0.phase is Marking
                && written.1 == Ok::<EpochActionView, EpochFailure>(
                EpochActionView::MarkUncertain {
                    thread_id,
                    reason: ExternalUncertaintyReason::ConflictingTerminal,
                },
            ) && written.0.ready == state.ready
            &&& outcome == ApplyOutcome::Stale ==> written.1 == Err::<
                EpochActionView,
                EpochFailure,
            >(EpochFailure::ConnectionLost) && written.0.phase is Failed
            &&& outcome == ApplyOutcome::Failed ==> written.1 == Err::<
                EpochActionView,
                EpochFailure,
            >(EpochFailure::Store) && written.0.phase is Failed
            &&& marked ==> noted == settled && noted.0.ready == state.ready.push(thread_id)
            &&& !marked ==> noted.1 == Err::<EpochActionView, EpochFailure>(EpochFailure::Store)
                && noted.0.phase is Failed
        }),
{
}

/// What an event of a settled thread puts on record is what it says, under its
/// own thread: the turn that ended, with how, or the item that finished.
pub proof fn live_events_go_on_record(event: ExternalReadEvent)
    ensures
        ({
            let recorded = live(event);
            let violation = Err::<LiveView, EpochFailure>(EpochFailure::ProtocolViolation);
            match event {
                ExternalReadEvent::TurnCompleted { thread_id, turn } => match turn@.status {
                    TurnStatusView::Completed | TurnStatusView::Failed
                    | TurnStatusView::Interrupted => recorded == Ok::<LiveView, EpochFailure>(
                        LiveView::Record {
                            thread_id: thread_id@,
                            terminal: TerminalView {
                                turn: Some(
                                    (
                                        turn@.id,
                                        match turn@.status {
                                            TurnStatusView::Completed =>
                                                ExternalTerminalStatus::Completed,
                                            TurnStatusView::Failed =>
                                                ExternalTerminalStatus::Failed,
                                            _ => ExternalTerminalStatus::Interrupted,
                                        },
                                    ),
                                ),
                                item: None,
                            },
                        },
                    ),
                    _ => recorded == violation,
                },
                ExternalReadEvent::ItemCompleted { thread_id, turn_id, item } => match item@.id {
                    Some(item_id) => recorded == Ok::<LiveView, EpochFailure>(
                        LiveView::Record {
                            thread_id: thread_id@,
                            terminal: TerminalView { turn: None, item: Some((turn_id@, item_id)) },
                        },
                    ),
                    None => recorded == violation,
                },
                ExternalReadEvent::RemoteControlStatusChanged
                | ExternalReadEvent::ThreadGoalCleared { .. }
                | ExternalReadEvent::ThreadStatusChanged { .. } => recorded == Ok::<
                    LiveView,
                    EpochFailure,
                >(LiveView::Nothing),
                ExternalReadEvent::Closed(_) | ExternalReadEvent::AccountRateLimitsUpdated =>
                    recorded == Err::<LiveView, EpochFailure>(EpochFailure::ConnectionLost),
                _ => recorded == violation,
            }
        }),
{
}

/// An event of a managed thread waits until the thread is settled and is taken
/// at once after that; of a thread that was uncertain before it is passed over.
/// It concerns the thread that it names.
pub proof fn events_wait_for_their_thread(
    state: EpochView,
    event: ExternalReadEvent,
    size: usize,
    thread_id: Seq<char>,
)
    requires
        event_names(event) == Some(thread_id),
        is_managed(state.managed, thread_id),
    ensures
        ({
            let (next, result) = arrived(state, Arrival::Event { event, bytes: Some(size) });
            let (_, unsized_result) = arrived(state, Arrival::Event { event, bytes: None });
            let uncertain = was_uncertain(state.managed, thread_id);
            let settled = state.ready.contains(thread_id);
            &&& next.managed == state.managed && next.at == state.at && next.ready == state.ready
            &&& result is Ok ==> next.phase == state.phase
            &&& result is Err ==> next.phase is Failed
            &&& uncertain ==> next == state && result == Ok::<LiveView, EpochFailure>(
                LiveView::Nothing,
            )
            &&& !uncertain && settled ==> result == live(event) && next.buffers == state.buffers
            &&& !uncertain && !settled ==> result == Ok::<LiveView, EpochFailure>(LiveView::Nothing)
                && next.buffers == event_buffered(state.buffers, thread_id, event, size)
            &&& !uncertain && !settled && !has_key(state.buffers.overflow, thread_id)
                ==> unsized_result == Err::<LiveView, EpochFailure>(
                EpochFailure::ProtocolViolation,
            )
        }),
{
}

/// The thread that an event of a thread names.
pub open spec fn event_names(event: ExternalReadEvent) -> Option<Seq<char>> {
    match event {
        ExternalReadEvent::ThreadGoalCleared { thread_id } => Some(thread_id@),
        ExternalReadEvent::ThreadSettingsUpdated { thread_id, .. } => Some(thread_id@),
        ExternalReadEvent::ThreadStatusChanged { thread_id } => Some(thread_id@),
        ExternalReadEvent::ThreadQueueChanged { thread_id } => Some(thread_id@),
        ExternalReadEvent::ServerRequestResolved { thread_id, .. } => Some(thread_id@),
        ExternalReadEvent::TurnStarted { thread_id, .. } => Some(thread_id@),
        ExternalReadEvent::ItemStarted { thread_id } => Some(thread_id@),
        ExternalReadEvent::AgentMessageDelta { thread_id } => Some(thread_id@),
        ExternalReadEvent::CommandOutputDelta { thread_id } => Some(thread_id@),
        ExternalReadEvent::ItemCompleted { thread_id, .. } => Some(thread_id@),
        ExternalReadEvent::TokenUsageUpdated { thread_id } => Some(thread_id@),
        ExternalReadEvent::Error { thread_id } => Some(thread_id@),
        ExternalReadEvent::TurnCompleted { thread_id, .. } => Some(thread_id@),
        ExternalReadEvent::Approval(ExternalApprovalRequest::Command { params, .. }) => Some(
            params.thread_id@,
        ),
        ExternalReadEvent::Approval(ExternalApprovalRequest::FileChange { params, .. }) => Some(
            params.thread_id@,
        ),
        ExternalReadEvent::Approval(ExternalApprovalRequest::Permissions { params, .. }) => Some(
            params.thread_id@,
        ),
        _ => None,
    }
}

/// What ends the events ends the epoch: the end itself, a stop and a closed
/// transport as a lost connection, what could not be read and a transport that
/// failed as a violation; and so does an event that names no thread.
pub proof fn ended_events_end_the_epoch(
    state: EpochView,
    exit: TransportExit,
    bytes: Option<usize>,
)
    ensures
        ({
            let lost = Err::<LiveView, EpochFailure>(EpochFailure::ConnectionLost);
            let violation = Err::<LiveView, EpochFailure>(EpochFailure::ProtocolViolation);
            let closed = arrived(
                state,
                Arrival::Event { event: ExternalReadEvent::Closed(exit), bytes },
            );
            &&& arrived(state, Arrival::Cancelled).1 == lost
            &&& arrived(state, Arrival::Ended).1 == lost
            &&& arrived(state, Arrival::Unreadable).1 == violation
            &&& exit == TransportExit::ProtocolViolation || exit == TransportExit::TaskFailed
                ==> closed.1 == violation
            &&& !(exit == TransportExit::ProtocolViolation || exit == TransportExit::TaskFailed)
                ==> closed.1 == lost
            &&& closed.0.phase is Failed
            &&& arrived(
                state,
                Arrival::Event { event: ExternalReadEvent::AccountRateLimitsUpdated, bytes },
            ).1 == violation
            &&& arrived(
                state,
                Arrival::Event { event: ExternalReadEvent::RemoteControlStatusChanged, bytes },
            ) == (state, Ok::<LiveView, EpochFailure>(LiveView::Nothing))
        }),
{
}

} // verus!
