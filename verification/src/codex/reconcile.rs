//! Read-only reconciliation of one external thread: bounded snapshots, folded
//! with the events that arrived meanwhile.
use vstd::prelude::*;

use crate::codex::external_transport::ExternalReadEvent;
use crate::codex::types::item_views;
use crate::codex::types::saturated;
use crate::codex::types::ItemView;
use crate::codex::types::ThreadItem;
use crate::codex::types::TransportExit;
use crate::codex::types::Turn;
use crate::codex::types::TurnStatus;
use crate::codex::types::TurnStatusView;
use crate::codex::types::TurnView;
use crate::keyed::bind;
use crate::keyed::has_key;
use crate::keyed::key_index;
use crate::keyed::lemma_bind_lookup;
use crate::keyed::lemma_bind_unique;
use crate::keyed::lemma_key_index;
use crate::keyed::lemma_unbind_lookup;
use crate::keyed::lookup;
use crate::keyed::pair_added;
use crate::keyed::unbind;
use crate::keyed::unique_keys;
use crate::keyed::Keyed;
use crate::keyed::PairSet;
use crate::limits::EXTERNAL_RECONCILE_ENDPOINT_BYTES;
use crate::limits::EXTERNAL_RECONCILE_ENTRY_CAPACITY;
use crate::limits::EXTERNAL_RECONCILE_EVENT_CAPACITY;
use crate::limits::EXTERNAL_RECONCILE_MAILBOX_BYTES;
use crate::limits::EXTERNAL_RECONCILE_THREAD_BYTES;
use crate::ordered::in_order;
use crate::ordered::is_text_before;
use crate::ordered::ordered;
use crate::ordered::text_before;
use crate::ordered::views;
use crate::ordered::Ranked;

verus! {

/// Why what an endpoint did is not known.
#[derive(Clone, Copy, Debug, PartialEq, Eq, Structural)]
pub enum ExternalUncertaintyReason {
    BridgeRestart,
    BufferOverflow,
    ConflictingTerminal,
    PageLimit,
    ProtocolViolation,
    RequestTimeout,
    ServerRestart,
    SocketDisconnect,
}

impl View for ExternalUncertaintyReason {
    type V = ExternalUncertaintyReason;

    open spec fn view(&self) -> ExternalUncertaintyReason {
        *self
    }
}

/// How a finished turn ended.
#[derive(Clone, Copy, Debug, PartialEq, Eq, Structural)]
pub enum ExternalTerminalStatus {
    Completed,
    Failed,
    Interrupted,
}

impl View for ExternalTerminalStatus {
    type V = ExternalTerminalStatus;

    open spec fn view(&self) -> ExternalTerminalStatus {
        *self
    }
}

/// Why a connection epoch failed.
#[derive(Clone, Copy, Debug, PartialEq, Eq, Structural)]
pub enum EpochFailure {
    ConnectionLost,
    RequestTimeout,
    ProtocolViolation,
    Store,
}

impl EpochFailure {
    /// What a failed epoch leaves uncertain.
    pub fn reason(self) -> (reason: ExternalUncertaintyReason)
        ensures
            reason == failure_reason(self),
    {
        match self {
            EpochFailure::ConnectionLost => ExternalUncertaintyReason::SocketDisconnect,
            EpochFailure::RequestTimeout => ExternalUncertaintyReason::RequestTimeout,
            EpochFailure::ProtocolViolation => ExternalUncertaintyReason::ProtocolViolation,
            EpochFailure::Store => ExternalUncertaintyReason::ProtocolViolation,
        }
    }
}

/// What a failed epoch leaves uncertain.
pub open spec fn failure_reason(failure: EpochFailure) -> ExternalUncertaintyReason {
    match failure {
        EpochFailure::ConnectionLost => ExternalUncertaintyReason::SocketDisconnect,
        EpochFailure::RequestTimeout => ExternalUncertaintyReason::RequestTimeout,
        EpochFailure::ProtocolViolation => ExternalUncertaintyReason::ProtocolViolation,
        EpochFailure::Store => ExternalUncertaintyReason::ProtocolViolation,
    }
}

/// Why a thread could not be reconciled: the thread alone is uncertain, or the
/// whole epoch failed.
#[derive(Clone, Copy, Debug, PartialEq, Eq, Structural)]
pub enum ThreadFailure {
    Uncertain(ExternalUncertaintyReason),
    Epoch(EpochFailure),
}

/// How a status says that a turn finished, where it does.
pub open spec fn terminal_status_of(status: TurnStatusView) -> Option<ExternalTerminalStatus> {
    match status {
        TurnStatusView::Completed => Some(ExternalTerminalStatus::Completed),
        TurnStatusView::Failed => Some(ExternalTerminalStatus::Failed),
        TurnStatusView::Interrupted => Some(ExternalTerminalStatus::Interrupted),
        _ => None,
    }
}

/// How a status says that a turn finished.
///
/// # Errors
///
/// `ProtocolViolation` for a status that is not terminal.
pub fn terminal_status(status: &TurnStatus) -> (terminal: Result<
    ExternalTerminalStatus,
    EpochFailure,
>)
    ensures
        match terminal_status_of(status@) {
            Some(held) => terminal == Ok::<ExternalTerminalStatus, EpochFailure>(held),
            None => terminal == Err::<ExternalTerminalStatus, EpochFailure>(
                EpochFailure::ProtocolViolation,
            ),
        },
{
    match status {
        TurnStatus::Completed => Ok(ExternalTerminalStatus::Completed),
        TurnStatus::Failed => Ok(ExternalTerminalStatus::Failed),
        TurnStatus::Interrupted => Ok(ExternalTerminalStatus::Interrupted),
        _ => Err(EpochFailure::ProtocolViolation),
    }
}

/// What a closed transport means for the epoch.
pub fn closed_failure(exit: TransportExit) -> (failure: EpochFailure)
    ensures
        failure == exit_failure(exit),
        failure == if exit == TransportExit::ProtocolViolation || exit
            == TransportExit::TaskFailed {
            EpochFailure::ProtocolViolation
        } else {
            EpochFailure::ConnectionLost
        },
{
    match exit {
        TransportExit::ProtocolViolation => EpochFailure::ProtocolViolation,
        TransportExit::TaskFailed => EpochFailure::ProtocolViolation,
        _ => EpochFailure::ConnectionLost,
    }
}

/// The thread that an event names.
pub open spec fn event_thread(event: ExternalReadEvent) -> Option<Seq<char>> {
    match event {
        ExternalReadEvent::AccountRateLimitsUpdated => None,
        ExternalReadEvent::RemoteControlStatusChanged => None,
        ExternalReadEvent::ThreadGoalCleared { thread_id } => Some(thread_id@),
        ExternalReadEvent::ThreadSettingsUpdated { thread_id, .. } => Some(thread_id@),
        ExternalReadEvent::ThreadStatusChanged { thread_id } => Some(thread_id@),
        ExternalReadEvent::ThreadQueueChanged { thread_id } => Some(thread_id@),
        ExternalReadEvent::ServerRequestResolved { thread_id, .. } => Some(thread_id@),
        ExternalReadEvent::Approval(approval) => Some(
            crate::codex::external_transport::approval_params(approval).thread_id@,
        ),
        ExternalReadEvent::TurnStarted { thread_id, .. } => Some(thread_id@),
        ExternalReadEvent::ItemStarted { thread_id } => Some(thread_id@),
        ExternalReadEvent::AgentMessageDelta { thread_id } => Some(thread_id@),
        ExternalReadEvent::CommandOutputDelta { thread_id } => Some(thread_id@),
        ExternalReadEvent::ItemCompleted { thread_id, .. } => Some(thread_id@),
        ExternalReadEvent::TokenUsageUpdated { thread_id } => Some(thread_id@),
        ExternalReadEvent::Error { thread_id } => Some(thread_id@),
        ExternalReadEvent::TurnCompleted { thread_id, .. } => Some(thread_id@),
        ExternalReadEvent::Closed(_) => None,
    }
}

/// The thread that an event names.
pub fn event_thread_id(event: &ExternalReadEvent) -> (thread_id: Option<&str>)
    ensures
        match thread_id {
            Some(text) => event_thread(*event) == Some(text@),
            None => event_thread(*event) is None,
        },
{
    match event {
        ExternalReadEvent::AccountRateLimitsUpdated => None,
        ExternalReadEvent::RemoteControlStatusChanged => None,
        ExternalReadEvent::ThreadGoalCleared { thread_id } => Some(thread_id.as_str()),
        ExternalReadEvent::ThreadSettingsUpdated { thread_id, .. } => Some(thread_id.as_str()),
        ExternalReadEvent::ThreadStatusChanged { thread_id } => Some(thread_id.as_str()),
        ExternalReadEvent::ThreadQueueChanged { thread_id } => Some(thread_id.as_str()),
        ExternalReadEvent::ServerRequestResolved { thread_id, .. } => Some(thread_id.as_str()),
        ExternalReadEvent::Approval(approval) => Some(approval.thread_id()),
        ExternalReadEvent::TurnStarted { thread_id, .. } => Some(thread_id.as_str()),
        ExternalReadEvent::ItemStarted { thread_id } => Some(thread_id.as_str()),
        ExternalReadEvent::AgentMessageDelta { thread_id } => Some(thread_id.as_str()),
        ExternalReadEvent::CommandOutputDelta { thread_id } => Some(thread_id.as_str()),
        ExternalReadEvent::ItemCompleted { thread_id, .. } => Some(thread_id.as_str()),
        ExternalReadEvent::TokenUsageUpdated { thread_id } => Some(thread_id.as_str()),
        ExternalReadEvent::Error { thread_id } => Some(thread_id.as_str()),
        ExternalReadEvent::TurnCompleted { thread_id, .. } => Some(thread_id.as_str()),
        ExternalReadEvent::Closed(_) => None,
    }
}

/// What an event finishes: a turn with its status, or an item of a turn.
pub struct Terminal {
    pub turn: Option<(String, ExternalTerminalStatus)>,
    pub item: Option<(String, String)>,
}

/// Content of what an event finishes.
pub struct TerminalView {
    pub turn: Option<(Seq<char>, ExternalTerminalStatus)>,
    pub item: Option<(Seq<char>, Seq<char>)>,
}

impl View for Terminal {
    type V = TerminalView;

    open spec fn view(&self) -> TerminalView {
        TerminalView {
            turn: match self.turn {
                Some((turn_id, status)) => Some((turn_id@, status)),
                None => None,
            },
            item: match self.item {
                Some((turn_id, item_id)) => Some((turn_id@, item_id@)),
                None => None,
            },
        }
    }
}

/// Whether recovery expects an event at all.
pub open spec fn recoverable(event: ExternalReadEvent) -> bool {
    event is RemoteControlStatusChanged || event is ThreadGoalCleared || event
        is ThreadStatusChanged || event is ItemCompleted || event is TurnCompleted
}

/// What an event finishes, or why it may not occur. The end of the transport
/// is the loss of the connection; traffic that a resuming connection does not
/// expect is a violation.
pub open spec fn terminal_of(event: ExternalReadEvent) -> Result<TerminalView, EpochFailure> {
    match event {
        ExternalReadEvent::ItemCompleted { turn_id, item, .. } => match item@.id {
            Some(item_id) => Ok(
                TerminalView { turn: None, item: Some((turn_id@, item_id)) },
            ),
            None => Err(EpochFailure::ProtocolViolation),
        },
        ExternalReadEvent::TurnCompleted { turn, .. } => match terminal_status_of(turn@.status) {
            Some(status) => Ok(TerminalView { turn: Some((turn@.id, status)), item: None }),
            None => Err(EpochFailure::ProtocolViolation),
        },
        ExternalReadEvent::Closed(_) => Err(EpochFailure::ConnectionLost),
        _ => if recoverable(event) {
            Ok(TerminalView { turn: None, item: None })
        } else {
            Err(EpochFailure::ProtocolViolation)
        },
    }
}

/// What an event finishes, or why it may not occur.
pub fn terminal_from_event(event: ExternalReadEvent) -> (terminal: Result<Terminal, EpochFailure>)
    ensures
        match terminal {
            Ok(held) => terminal_of(event) == Ok::<TerminalView, EpochFailure>(held@),
            Err(failure) => terminal_of(event) == Err::<TerminalView, EpochFailure>(failure),
        },
{
    match event {
        ExternalReadEvent::ItemCompleted { turn_id, item, .. } => match item.id {
            Some(item_id) => Ok(Terminal { turn: None, item: Some((turn_id, item_id)) }),
            None => Err(EpochFailure::ProtocolViolation),
        },
        ExternalReadEvent::TurnCompleted { turn, .. } => match terminal_status(&turn.status) {
            Ok(status) => Ok(Terminal { turn: Some((turn.id, status)), item: None }),
            Err(failure) => Err(failure),
        },
        ExternalReadEvent::Closed(_) => Err(EpochFailure::ConnectionLost),
        ExternalReadEvent::RemoteControlStatusChanged => Ok(Terminal { turn: None, item: None }),
        ExternalReadEvent::ThreadGoalCleared { .. } => Ok(Terminal { turn: None, item: None }),
        ExternalReadEvent::ThreadStatusChanged { .. } => Ok(Terminal { turn: None, item: None }),
        _ => Err(EpochFailure::ProtocolViolation),
    }
}

/// Content of a projection of finished turns and items.
pub struct FinishedView {
    pub turns: Seq<(Seq<char>, ExternalTerminalStatus)>,
    pub all_turns: Seq<(Seq<char>, ())>,
    pub items: Seq<(Seq<char>, Seq<char>)>,
    pub listed: Seq<(Seq<char>, Seq<char>)>,
    pub bytes: usize,
}

/// Nothing is known to have finished.
pub open spec fn nothing_finished() -> FinishedView {
    FinishedView {
        turns: Seq::empty(),
        all_turns: Seq::empty(),
        items: Seq::empty(),
        listed: Seq::empty(),
        bytes: 0,
    }
}

/// What a projection and a failure, if any, a step leads to.
pub type FinishedStep = (FinishedView, Option<ThreadFailure>);

/// A thread whose contents may not be trusted.
pub open spec fn uncertain(reason: ExternalUncertaintyReason) -> Option<ThreadFailure> {
    Some(ThreadFailure::Uncertain(reason))
}

/// The projection with the failure that it is over a bound, if it is.
pub open spec fn bounded(view: FinishedView) -> FinishedStep {
    if view.turns.len() > EXTERNAL_RECONCILE_ENTRY_CAPACITY || view.all_turns.len()
        > EXTERNAL_RECONCILE_ENTRY_CAPACITY || view.items.len() > EXTERNAL_RECONCILE_ENTRY_CAPACITY
        || view.listed.len() > EXTERNAL_RECONCILE_ENTRY_CAPACITY {
        (view, uncertain(ExternalUncertaintyReason::PageLimit))
    } else {
        (view, None)
    }
}

/// The projection after an item of a finished turn.
pub open spec fn item_added(view: FinishedView, turn_id: Seq<char>, item: ItemView) -> FinishedStep {
    match item.id {
        None => (view, uncertain(ExternalUncertaintyReason::ProtocolViolation)),
        Some(item_id) => bounded(
            FinishedView { items: pair_added(view.items, (turn_id, item_id)), ..view },
        ),
    }
}

/// The projection after items of a finished turn, up to one that fails.
pub open spec fn items_added(view: FinishedView, turn_id: Seq<char>, items: Seq<ItemView>) -> FinishedStep
    decreases items.len(),
{
    if items.len() == 0 {
        (view, None)
    } else {
        let (next, failure) = item_added(view, turn_id, items.first());
        if failure is Some {
            (next, failure)
        } else {
            items_added(next, turn_id, items.drop_first())
        }
    }
}

/// The projection after a listed item, which counts once its turn is known to
/// have finished.
pub open spec fn listed_added(view: FinishedView, turn_id: Seq<char>, item: ItemView) -> FinishedStep {
    match item.id {
        None => (view, uncertain(ExternalUncertaintyReason::ProtocolViolation)),
        Some(item_id) => bounded(
            FinishedView { listed: pair_added(view.listed, (turn_id, item_id)), ..view },
        ),
    }
}

/// The projection after the end of a turn: a turn ends in one way only.
pub open spec fn turn_ended(
    view: FinishedView,
    turn_id: Seq<char>,
    status: ExternalTerminalStatus,
) -> FinishedStep {
    let next = FinishedView { turns: bind(view.turns, turn_id, status), ..view };
    match lookup(view.turns, turn_id) {
        Some(prior) => if prior != status {
            (next, uncertain(ExternalUncertaintyReason::ConflictingTerminal))
        } else {
            (next, None)
        },
        None => (next, None),
    }
}

/// The projection after a turn of a snapshot.
pub open spec fn turn_added(view: FinishedView, turn: TurnView) -> FinishedStep {
    let known = FinishedView { all_turns: bind(view.all_turns, turn.id, ()), ..view };
    match terminal_status_of(turn.status) {
        None => if turn.status is InProgress {
            bounded(known)
        } else {
            (known, uncertain(ExternalUncertaintyReason::ProtocolViolation))
        },
        Some(status) => {
            let (with_items, failure) = items_added(known, turn.id, turn.items);
            if failure is Some {
                (with_items, failure)
            } else {
                let (next, failure) = turn_ended(with_items, turn.id, status);
                if failure is Some {
                    (next, failure)
                } else {
                    bounded(next)
                }
            }
        },
    }
}

/// The projection after turns of a snapshot, up to one that fails.
pub open spec fn turns_added(view: FinishedView, turns: Seq<TurnView>) -> FinishedStep
    decreases turns.len(),
{
    if turns.len() == 0 {
        (view, None)
    } else {
        let (next, failure) = turn_added(view, turns.first());
        if failure is Some {
            (next, failure)
        } else {
            turns_added(next, turns.drop_first())
        }
    }
}

/// The projection after an event.
pub open spec fn event_added(view: FinishedView, event: ExternalReadEvent) -> FinishedStep {
    match terminal_of(event) {
        Err(failure) => (view, Some(ThreadFailure::Epoch(failure))),
        Ok(terminal) => {
            let (ended, failure) = match terminal.turn {
                Some((turn_id, status)) => turn_ended(view, turn_id, status),
                None => (view, None),
            };
            if failure is Some {
                (ended, failure)
            } else {
                bounded(
                    match terminal.item {
                        Some(pair) => FinishedView {
                            items: pair_added(ended.items, pair),
                            ..ended
                        },
                        None => ended,
                    },
                )
            }
        },
    }
}

/// The projection after events, up to one that fails.
pub open spec fn events_added(view: FinishedView, events: Seq<ExternalReadEvent>) -> FinishedStep
    decreases events.len(),
{
    if events.len() == 0 {
        (view, None)
    } else {
        let (next, failure) = event_added(view, events.first());
        if failure is Some {
            (next, failure)
        } else {
            events_added(next, events.drop_first())
        }
    }
}

/// The finished items with those listed ones whose turn has finished.
pub open spec fn items_folded(
    items: Seq<(Seq<char>, Seq<char>)>,
    listed: Seq<(Seq<char>, Seq<char>)>,
    turns: Seq<(Seq<char>, ExternalTerminalStatus)>,
) -> Seq<(Seq<char>, Seq<char>)>
    decreases listed.len(),
{
    if listed.len() == 0 {
        items
    } else {
        items_folded(
            if has_key(turns, listed.first().0) {
                pair_added(items, listed.first())
            } else {
                items
            },
            listed.drop_first(),
            turns,
        )
    }
}

/// The projection once listed items are folded in.
pub open spec fn folded(view: FinishedView) -> FinishedStep {
    bounded(
        FinishedView {
            items: items_folded(view.items, view.listed, view.turns),
            listed: Seq::empty(),
            ..view
        },
    )
}

/// Finished turns and items of one thread.
pub struct TerminalProjection {
    turns: Keyed<ExternalTerminalStatus>,
    all_turns: Keyed<()>,
    items: PairSet,
    listed_items: PairSet,
    bytes: usize,
}

impl View for TerminalProjection {
    type V = FinishedView;

    closed spec fn view(&self) -> FinishedView {
        FinishedView {
            turns: self.turns@,
            all_turns: self.all_turns@,
            items: self.items@,
            listed: self.listed_items@,
            bytes: self.bytes,
        }
    }
}

/// What a failure is to a caller.
pub open spec fn failed(result: Result<(), ThreadFailure>) -> Option<ThreadFailure> {
    match result {
        Ok(()) => None,
        Err(failure) => Some(failure),
    }
}

impl TerminalProjection {
    /// No turn is known twice.
    pub open spec fn wf(&self) -> bool {
        unique_keys(self@.turns) && unique_keys(self@.all_turns)
    }

    pub fn new() -> (projection: TerminalProjection)
        ensures
            projection.wf(),
            projection@ == nothing_finished(),
    {
        TerminalProjection {
            turns: Keyed::new(),
            all_turns: Keyed::new(),
            items: PairSet::new(),
            listed_items: PairSet::new(),
            bytes: 0,
        }
    }

    fn ensure_entry_bounds(&self) -> (result: Result<(), ThreadFailure>)
        ensures
            (self@, failed(result)) == bounded(self@),
    {
        if self.turns.len() > EXTERNAL_RECONCILE_ENTRY_CAPACITY || self.all_turns.len()
            > EXTERNAL_RECONCILE_ENTRY_CAPACITY || self.items.len()
            > EXTERNAL_RECONCILE_ENTRY_CAPACITY || self.listed_items.len()
            > EXTERNAL_RECONCILE_ENTRY_CAPACITY {
            Err(ThreadFailure::Uncertain(ExternalUncertaintyReason::PageLimit))
        } else {
            Ok(())
        }
    }

    fn add_item(&mut self, turn_id: &str, item: &ThreadItem) -> (result: Result<(), ThreadFailure>)
        requires
            old(self).wf(),
        ensures
            final(self).wf(),
            (final(self)@, failed(result)) == item_added(old(self)@, turn_id@, item@),
    {
        match &item.id {
            Some(item_id) => {
                self.items.insert(turn_id, item_id.as_str());
                self.ensure_entry_bounds()
            },
            None => Err(ThreadFailure::Uncertain(ExternalUncertaintyReason::ProtocolViolation)),
        }
    }

    /// Takes a listed item in.
    pub fn add_listed_item(&mut self, turn_id: &str, item: &ThreadItem) -> (result: Result<
        (),
        ThreadFailure,
    >)
        requires
            old(self).wf(),
        ensures
            final(self).wf(),
            (final(self)@, failed(result)) == listed_added(old(self)@, turn_id@, item@),
    {
        match &item.id {
            Some(item_id) => {
                self.listed_items.insert(turn_id, item_id.as_str());
                self.ensure_entry_bounds()
            },
            None => Err(ThreadFailure::Uncertain(ExternalUncertaintyReason::ProtocolViolation)),
        }
    }

    fn end_turn(&mut self, turn_id: &str, status: ExternalTerminalStatus) -> (result: Result<
        (),
        ThreadFailure,
    >)
        requires
            old(self).wf(),
        ensures
            final(self).wf(),
            (final(self)@, failed(result)) == turn_ended(old(self)@, turn_id@, status),
    {
        let conflict = match self.turns.position(turn_id) {
            Some(at) => *self.turns.value_at(at) != status,
            None => false,
        };
        self.turns.set(turn_id, status);
        if conflict {
            Err(ThreadFailure::Uncertain(ExternalUncertaintyReason::ConflictingTerminal))
        } else {
            Ok(())
        }
    }

    fn add_items(&mut self, turn_id: &str, items: &Vec<ThreadItem>) -> (result: Result<
        (),
        ThreadFailure,
    >)
        requires
            old(self).wf(),
        ensures
            final(self).wf(),
            (final(self)@, failed(result)) == items_added(
                old(self)@,
                turn_id@,
                item_views(items@),
            ),
    {
        let ghost views = item_views(items@);
        let mut at: usize = 0;
        proof {
            assert(views.subrange(0, views.len() as int) =~= views);
        }
        while at < items.len()
            invariant
                self.wf(),
                at <= items@.len(),
                views == item_views(items@),
                items_added(self@, turn_id@, views.subrange(at as int, views.len() as int))
                    == items_added(old(self)@, turn_id@, views),
            decreases items@.len() - at,
        {
            proof {
                let rest = views.subrange(at as int, views.len() as int);
                assert(rest.first() == items@[at as int]@);
                assert(rest.drop_first() =~= views.subrange(at + 1, views.len() as int));
            }
            if let Err(failure) = self.add_item(turn_id, &items[at]) {
                return Err(failure);
            }
            at += 1;
        }
        Ok(())
    }

    /// Takes a turn of a snapshot in.
    pub fn add_turn(&mut self, turn: &Turn) -> (result: Result<(), ThreadFailure>)
        requires
            old(self).wf(),
        ensures
            final(self).wf(),
            (final(self)@, failed(result)) == turn_added(old(self)@, turn@),
    {
        self.all_turns.set(turn.id.as_str(), ());
        let status = match terminal_status(&turn.status) {
            Ok(status) => status,
            Err(_) => {
                return if matches!(turn.status, TurnStatus::InProgress) {
                    self.ensure_entry_bounds()
                } else {
                    Err(ThreadFailure::Uncertain(ExternalUncertaintyReason::ProtocolViolation))
                };
            },
        };
        if let Err(failure) = self.add_items(turn.id.as_str(), &turn.items) {
            return Err(failure);
        }
        if let Err(failure) = self.end_turn(turn.id.as_str(), status) {
            return Err(failure);
        }
        self.ensure_entry_bounds()
    }

    /// Takes the turns of a snapshot in.
    pub fn add_turns(&mut self, turns: &Vec<Turn>) -> (result: Result<(), ThreadFailure>)
        requires
            old(self).wf(),
        ensures
            final(self).wf(),
            (final(self)@, failed(result)) == turns_added(old(self)@, turn_views(turns@)),
    {
        let ghost views = turn_views(turns@);
        let mut at: usize = 0;
        proof {
            assert(views.subrange(0, views.len() as int) =~= views);
        }
        while at < turns.len()
            invariant
                self.wf(),
                at <= turns@.len(),
                views == turn_views(turns@),
                turns_added(self@, views.subrange(at as int, views.len() as int)) == turns_added(
                    old(self)@,
                    views,
                ),
            decreases turns@.len() - at,
        {
            proof {
                let rest = views.subrange(at as int, views.len() as int);
                assert(rest.first() == turns@[at as int]@);
                assert(rest.drop_first() =~= views.subrange(at + 1, views.len() as int));
            }
            if let Err(failure) = self.add_turn(&turns[at]) {
                return Err(failure);
            }
            at += 1;
        }
        Ok(())
    }

    fn add_event(&mut self, event: ExternalReadEvent) -> (result: Result<(), ThreadFailure>)
        requires
            old(self).wf(),
        ensures
            final(self).wf(),
            (final(self)@, failed(result)) == event_added(old(self)@, event),
    {
        let terminal = match terminal_from_event(event) {
            Ok(terminal) => terminal,
            Err(failure) => {
                return Err(ThreadFailure::Epoch(failure));
            },
        };
        if let Some((turn_id, status)) = terminal.turn {
            if let Err(failure) = self.end_turn(turn_id.as_str(), status) {
                return Err(failure);
            }
        }
        if let Some((turn_id, item_id)) = terminal.item {
            self.items.insert(turn_id.as_str(), item_id.as_str());
        }
        self.ensure_entry_bounds()
    }

    /// Takes the events in that arrived during the reconciliation.
    pub fn add_events(&mut self, events: Vec<ExternalReadEvent>) -> (result: Result<
        (),
        ThreadFailure,
    >)
        requires
            old(self).wf(),
        ensures
            final(self).wf(),
            (final(self)@, failed(result)) == events_added(old(self)@, events@),
    {
        let mut waiting = events;
        while waiting.len() > 0
            invariant
                self.wf(),
                events_added(self@, waiting@) == events_added(old(self)@, events@),
            decreases waiting@.len(),
        {
            let ghost before = waiting@;
            let event = waiting.remove(0);
            proof {
                assert(before.first() == event);
                assert(before.drop_first() =~= waiting@);
            }
            if let Err(failure) = self.add_event(event) {
                return Err(failure);
            }
        }
        Ok(())
    }

    /// Folds the listed items of finished turns in.
    pub fn fold_listed_items(&mut self) -> (result: Result<(), ThreadFailure>)
        requires
            old(self).wf(),
        ensures
            final(self).wf(),
            (final(self)@, failed(result)) == folded(old(self)@),
    {
        let ghost listed = self.listed_items@;
        let ghost turns = self.turns@;
        let ghost items = self.items@;
        let mut at: usize = 0;
        proof {
            assert(listed.subrange(0, listed.len() as int) =~= listed);
        }
        while at < self.listed_items.len()
            invariant
                self.wf(),
                listed == self.listed_items@,
                turns == self.turns@,
                self@ == (FinishedView { items: self.items@, ..old(self)@ }),
                at <= listed.len(),
                items_folded(
                    self.items@,
                    listed.subrange(at as int, listed.len() as int),
                    turns,
                ) == items_folded(items, listed, turns),
            decreases listed.len() - at,
        {
            proof {
                let rest = listed.subrange(at as int, listed.len() as int);
                assert(rest.first() == listed[at as int]);
                assert(rest.drop_first() =~= listed.subrange(at + 1, listed.len() as int));
            }
            if self.turns.contains(self.listed_items.first_at(at)) {
                self.items.insert(self.listed_items.first_at(at), self.listed_items.second_at(at));
            }
            at += 1;
        }
        self.listed_items = PairSet::new();
        self.ensure_entry_bounds()
    }
}

impl Ranked for (String, ExternalTerminalStatus) {
    open spec fn ranked_before(
        left: (Seq<char>, ExternalTerminalStatus),
        right: (Seq<char>, ExternalTerminalStatus),
    ) -> bool {
        text_before(left.0, right.0)
    }

    fn comes_before(&self, other: &(String, ExternalTerminalStatus)) -> (before: bool) {
        is_text_before(self.0.as_str(), other.0.as_str())
    }
}

/// The turns that a projection knows of, in order.
pub open spec fn known_turns(finished: FinishedView) -> Seq<Seq<char>> {
    ordered::<String>(finished.all_turns.map_values(|entry: (Seq<char>, ())| entry.0))
}

impl TerminalProjection {
    /// The turns that are known of, in order.
    pub fn turn_ids(&self) -> (ids: Vec<String>)
        ensures
            views(ids@) == known_turns(self@),
    {
        let mut ids: Vec<String> = Vec::new();
        let mut at: usize = 0;
        while at < self.all_turns.len()
            invariant
                at <= self.all_turns@.len(),
                ids@.len() == at,
                forall|k: int| 0 <= k < at ==> (#[trigger] ids@[k])@ == self.all_turns@[k].0,
            decreases self.all_turns@.len() - at,
        {
            ids.push(self.all_turns.key_at(at).to_owned());
            at += 1;
        }
        proof {
            assert(views(ids@) =~= self@.all_turns.map_values(|entry: (Seq<char>, ())| entry.0));
        }
        in_order(ids)
    }

    /// The turns that ended, each with how, in order.
    pub fn ended_turns(&self) -> (turns: Vec<(String, ExternalTerminalStatus)>)
        ensures
            views(turns@) == ordered::<(String, ExternalTerminalStatus)>(self@.turns),
    {
        let mut turns: Vec<(String, ExternalTerminalStatus)> = Vec::new();
        let mut at: usize = 0;
        while at < self.turns.len()
            invariant
                at <= self.turns@.len(),
                turns@.len() == at,
                forall|k: int|
                    0 <= k < at ==> (#[trigger] turns@[k]).0@ == self.turns@[k].0 && turns@[k].1
                        == self.turns@[k].1,
            decreases self.turns@.len() - at,
        {
            turns.push((self.turns.key_at(at).to_owned(), *self.turns.value_at(at)));
            at += 1;
        }
        proof {
            assert(views(turns@) =~= self@.turns);
        }
        in_order(turns)
    }

    /// The items that finished, each with its turn, in order.
    pub fn finished_items(&self) -> (items: Vec<(String, String)>)
        ensures
            views(items@) == ordered::<(String, String)>(self@.items),
    {
        let mut items: Vec<(String, String)> = Vec::new();
        let mut at: usize = 0;
        while at < self.items.len()
            invariant
                at <= self.items@.len(),
                items@.len() == at,
                forall|k: int|
                    0 <= k < at ==> (#[trigger] items@[k]).0@ == self.items@[k].0 && items@[k].1@
                        == self.items@[k].1,
            decreases self.items@.len() - at,
        {
            items.push((self.items.first_at(at).to_owned(), self.items.second_at(at).to_owned()));
            at += 1;
        }
        proof {
            assert(views(items@) =~= self@.items);
        }
        in_order(items)
    }
}

/// Contents of a list of turns.
pub open spec fn turn_views(turns: Seq<Turn>) -> Seq<TurnView> {
    turns.map_values(|turn: Turn| turn@)
}

/// Content of the events of one thread that wait for its reconciliation.
pub struct BufferView {
    pub events: Seq<ExternalReadEvent>,
    pub bytes: usize,
}

/// Events of one thread that wait for its reconciliation.
pub struct ThreadBuffer {
    pub events: Vec<ExternalReadEvent>,
    pub bytes: usize,
}

impl View for ThreadBuffer {
    type V = BufferView;

    open spec fn view(&self) -> BufferView {
        BufferView { events: self.events@, bytes: self.bytes }
    }
}

/// Content of all buffers: by thread, the bytes taken altogether, and the
/// threads that overflowed.
pub struct BuffersView {
    pub threads: Seq<(Seq<char>, BufferView)>,
    pub endpoint_bytes: usize,
    pub overflow: Seq<(Seq<char>, ExternalUncertaintyReason)>,
}

/// The buffer of a thread.
pub open spec fn buffer_of(buffers: BuffersView, thread_id: Seq<char>) -> BufferView {
    match lookup(buffers.threads, thread_id) {
        Some(buffer) => buffer,
        None => BufferView { events: Seq::empty(), bytes: 0 },
    }
}

/// The buffers after an event: it waits, or its thread overflows and takes no
/// more events.
pub open spec fn event_buffered(
    buffers: BuffersView,
    thread_id: Seq<char>,
    event: ExternalReadEvent,
    bytes: usize,
) -> BuffersView {
    let buffer = buffer_of(buffers, thread_id);
    if has_key(buffers.overflow, thread_id) {
        buffers
    } else if buffer.events.len() >= EXTERNAL_RECONCILE_EVENT_CAPACITY || buffer.bytes + bytes
        > EXTERNAL_RECONCILE_MAILBOX_BYTES || buffers.endpoint_bytes + bytes
        > EXTERNAL_RECONCILE_ENDPOINT_BYTES {
        BuffersView {
            threads: bind(buffers.threads, thread_id, buffer),
            overflow: bind(
                buffers.overflow,
                thread_id,
                ExternalUncertaintyReason::BufferOverflow,
            ),
            ..buffers
        }
    } else {
        BuffersView {
            threads: bind(
                buffers.threads,
                thread_id,
                BufferView {
                    events: buffer.events.push(event),
                    bytes: (buffer.bytes + bytes) as usize,
                },
            ),
            endpoint_bytes: (buffers.endpoint_bytes + bytes) as usize,
            ..buffers
        }
    }
}

/// The buffers without that of a thread.
pub open spec fn buffer_taken(buffers: BuffersView, thread_id: Seq<char>) -> BuffersView {
    let bytes = buffer_of(buffers, thread_id).bytes;
    BuffersView {
        threads: unbind(buffers.threads, thread_id),
        endpoint_bytes: if buffers.endpoint_bytes >= bytes {
            (buffers.endpoint_bytes - bytes) as usize
        } else {
            0
        },
        ..buffers
    }
}

/// The bytes after an answer, for the thread and for the endpoint, and the
/// failure where they are too many.
pub open spec fn answer_counted(thread_bytes: usize, buffers: BuffersView, bytes: Option<usize>) -> (
    usize,
    BuffersView,
    Option<ThreadFailure>,
) {
    match bytes {
        None => (
            thread_bytes,
            buffers,
            Some(ThreadFailure::Epoch(EpochFailure::ProtocolViolation)),
        ),
        Some(bytes) => {
            let thread = saturated(thread_bytes + bytes) as usize;
            let endpoint = saturated(buffers.endpoint_bytes + bytes) as usize;
            (
                thread,
                BuffersView { endpoint_bytes: endpoint, ..buffers },
                if thread > EXTERNAL_RECONCILE_THREAD_BYTES || endpoint
                    > EXTERNAL_RECONCILE_ENDPOINT_BYTES {
                    uncertain(ExternalUncertaintyReason::BufferOverflow)
                } else {
                    None
                },
            )
        },
    }
}

/// Whether no buffer is over its bounds.
pub open spec fn buffers_bounded(buffers: BuffersView) -> bool {
    &&& unique_keys(buffers.threads)
    &&& unique_keys(buffers.overflow)
    &&& forall|k: int|
        0 <= k < buffers.threads.len() ==> (#[trigger] buffers.threads[k]).1.events.len()
            <= EXTERNAL_RECONCILE_EVENT_CAPACITY && buffers.threads[k].1.bytes
            <= EXTERNAL_RECONCILE_MAILBOX_BYTES
}

/// Events of all threads that wait for their reconciliation.
pub struct ReconcileMailboxes {
    threads: Keyed<ThreadBuffer>,
    endpoint_bytes: usize,
    overflow: Keyed<ExternalUncertaintyReason>,
}

impl View for ReconcileMailboxes {
    type V = BuffersView;

    closed spec fn view(&self) -> BuffersView {
        BuffersView {
            threads: self.threads@,
            endpoint_bytes: self.endpoint_bytes,
            overflow: self.overflow@,
        }
    }
}

impl ReconcileMailboxes {
    pub open spec fn wf(&self) -> bool {
        buffers_bounded(self@)
    }

    pub fn new() -> (mailboxes: ReconcileMailboxes)
        ensures
            mailboxes.wf(),
            mailboxes@ == (BuffersView {
                threads: Seq::empty(),
                endpoint_bytes: 0,
                overflow: Seq::empty(),
            }),
    {
        ReconcileMailboxes { threads: Keyed::new(), endpoint_bytes: 0, overflow: Keyed::new() }
    }

    /// Lets an event of a thread wait, given its encoded length, which is
    /// missing where it could not be encoded.
    ///
    /// # Errors
    ///
    /// `ProtocolViolation` for an event that could not be encoded, unless its
    /// thread takes no more events anyway.
    pub fn push(&mut self, thread_id: &str, event: ExternalReadEvent, bytes: Option<usize>) -> (
    pushed: Result<(), EpochFailure>)
        requires
            old(self).wf(),
        ensures
            final(self).wf(),
            match bytes {
                Some(bytes) => pushed is Ok && final(self)@ == event_buffered(
                    old(self)@,
                    thread_id@,
                    event,
                    bytes,
                ),
                None => final(self)@ == old(self)@ && pushed == if has_key(
                    old(self)@.overflow,
                    thread_id@,
                ) {
                    Ok::<(), EpochFailure>(())
                } else {
                    Err::<(), EpochFailure>(EpochFailure::ProtocolViolation)
                },
            },
    {
        if self.overflow.contains(thread_id) {
            return Ok(());
        }
        let bytes: usize = match bytes {
            Some(bytes) => bytes,
            None => {
                return Err(EpochFailure::ProtocolViolation);
            },
        };
        let ghost before = self.threads@;
        let ghost buffer = buffer_of(self@, thread_id@);
        let at: usize = match self.threads.position(thread_id) {
            Some(at) => {
                proof {
                    assert(bind(before, thread_id@, buffer) =~= before);
                }
                at
            },
            None => {
                let at: usize = self.threads.len();
                self.threads.set(thread_id, ThreadBuffer { events: Vec::new(), bytes: 0 });
                proof {
                    assert(self.threads@[at as int] == (thread_id@, buffer)) by {
                        assert(self.threads@[at as int].1.events =~= Seq::empty());
                    }
                    lemma_key_index(self.threads@, at as int);
                }
                at
            },
        };
        let ghost mid = self.threads@;
        proof {
            assert(mid == bind(before, thread_id@, buffer));
            assert(mid[at as int] == (thread_id@, buffer));
            lemma_bind_unique(before, thread_id@, buffer);
        }
        let held = self.threads.value_at(at);
        if held.events.len() >= EXTERNAL_RECONCILE_EVENT_CAPACITY || held.bytes.saturating_add(
            bytes,
        ) > EXTERNAL_RECONCILE_MAILBOX_BYTES || self.endpoint_bytes.saturating_add(bytes)
            > EXTERNAL_RECONCILE_ENDPOINT_BYTES {
            self.overflow.set(thread_id, ExternalUncertaintyReason::BufferOverflow);
            return Ok(());
        }
        let slot = self.threads.value_mut(at);
        slot.bytes = slot.bytes + bytes;
        slot.events.push(event);
        let ghost next = slot@;
        self.endpoint_bytes = self.endpoint_bytes + bytes;
        proof {
            assert(self.threads@ == mid.update(at as int, (thread_id@, next)));
            assert(next.events =~= buffer.events.push(event));
            lemma_bind_unique(before, thread_id@, next);
            assert(bind(before, thread_id@, next) =~= mid.update(at as int, (thread_id@, next)));
        }
        Ok(())
    }

    /// Takes the events of a thread out.
    pub fn take(&mut self, thread_id: &str) -> (events: Vec<ExternalReadEvent>)
        requires
            old(self).wf(),
        ensures
            final(self).wf(),
            final(self)@ == buffer_taken(old(self)@, thread_id@),
            events@ == buffer_of(old(self)@, thread_id@).events,
    {
        let ghost before = self.threads@;
        match self.threads.remove(thread_id) {
            Some(buffer) => {
                self.endpoint_bytes = self.endpoint_bytes.saturating_sub(buffer.bytes);
                proof {
                    let at = key_index(before, thread_id@);
                    assert(before[at].0 == thread_id@);
                    assert forall|k: int| 0 <= k < self.threads@.len() implies (
                    #[trigger] self@.threads[k]).1.events.len() <= EXTERNAL_RECONCILE_EVENT_CAPACITY
                        && self@.threads[k].1.bytes <= EXTERNAL_RECONCILE_MAILBOX_BYTES by {
                        let from = if k < at {
                            k
                        } else {
                            k + 1
                        };
                        assert(self@.threads[k] == before[from]);
                    }
                }
                buffer.events
            },
            None => Vec::new(),
        }
    }

    /// Takes the overflow mark of a thread away and tells what it was.
    pub fn take_overflow(&mut self, thread_id: &str) -> (reason: Option<ExternalUncertaintyReason>)
        requires
            old(self).wf(),
        ensures
            final(self).wf(),
            final(self)@ == (BuffersView {
                overflow: unbind(old(self)@.overflow, thread_id@),
                ..old(self)@
            }),
            reason == lookup(old(self)@.overflow, thread_id@),
    {
        self.overflow.remove(thread_id)
    }

    /// Counts an answer about a thread.
    pub fn add_response_bytes(&mut self, projection: &mut TerminalProjection, bytes: Option<usize>) -> (
    result: Result<(), ThreadFailure>)
        requires
            old(self).wf(),
            old(projection).wf(),
        ensures
            final(self).wf(),
            final(projection).wf(),
            (final(projection)@.bytes, final(self)@, failed(result)) == answer_counted(
                old(projection)@.bytes,
                old(self)@,
                bytes,
            ),
            final(projection)@ == (FinishedView {
                bytes: final(projection)@.bytes,
                ..old(projection)@
            }),
    {
        let bytes: usize = match bytes {
            Some(bytes) => bytes,
            None => {
                return Err(ThreadFailure::Epoch(EpochFailure::ProtocolViolation));
            },
        };
        projection.bytes = projection.bytes.saturating_add(bytes);
        self.endpoint_bytes = self.endpoint_bytes.saturating_add(bytes);
        if projection.bytes > EXTERNAL_RECONCILE_THREAD_BYTES || self.endpoint_bytes
            > EXTERNAL_RECONCILE_ENDPOINT_BYTES {
            Err(ThreadFailure::Uncertain(ExternalUncertaintyReason::BufferOverflow))
        } else {
            Ok(())
        }
    }
}

proof fn lemma_items_keep_turns(view: FinishedView, turn_id: Seq<char>, items: Seq<ItemView>)
    ensures
        items_added(view, turn_id, items).0.turns == view.turns,
    decreases items.len(),
{
    if items.len() > 0 {
        let (next, failure) = item_added(view, turn_id, items.first());
        if failure is None {
            lemma_items_keep_turns(next, turn_id, items.drop_first());
        }
    }
}

/// A turn ends in one way: whatever a snapshot or an event adds without a
/// failure, a turn that was known to have ended keeps its status.
pub proof fn ended_turns_keep_their_status(
    view: FinishedView,
    turn: TurnView,
    event: ExternalReadEvent,
    turn_id: Seq<char>,
)
    requires
        unique_keys(view.turns),
        has_key(view.turns, turn_id),
    ensures
        turn_added(view, turn).1 is None ==> lookup(turn_added(view, turn).0.turns, turn_id)
            == lookup(view.turns, turn_id),
        event_added(view, event).1 is None ==> lookup(event_added(view, event).0.turns, turn_id)
            == lookup(view.turns, turn_id),
{
    if let Some(status) = terminal_status_of(turn.status) {
        let known = FinishedView { all_turns: bind(view.all_turns, turn.id, ()), ..view };
        lemma_items_keep_turns(known, turn.id, turn.items);
        lemma_bind_lookup(view.turns, turn.id, status, turn_id);
    }
    if let Ok(terminal) = terminal_of(event) {
        if let Some((ended, status)) = terminal.turn {
            lemma_bind_lookup(view.turns, ended, status, turn_id);
        }
    }
}

/// Only what is known to have finished is reported: a listed item is folded in
/// exactly when its turn has ended.
pub proof fn folded_items_belong_to_ended_turns(
    items: Seq<(Seq<char>, Seq<char>)>,
    listed: Seq<(Seq<char>, Seq<char>)>,
    turns: Seq<(Seq<char>, ExternalTerminalStatus)>,
    pair: (Seq<char>, Seq<char>),
)
    ensures
        items_folded(items, listed, turns).contains(pair) <==> items.contains(pair) || (
        listed.contains(pair) && has_key(turns, pair.0)),
    decreases listed.len(),
{
    if listed.len() > 0 {
        let first = listed.first();
        let next = if has_key(turns, first.0) {
            pair_added(items, first)
        } else {
            items
        };
        folded_items_belong_to_ended_turns(next, listed.drop_first(), turns, pair);
        assert(next.contains(pair) <==> items.contains(pair) || (pair == first && has_key(
            turns,
            first.0,
        ))) by {
            if has_key(turns, first.0) && !items.contains(first) {
                let pushed = items.push(first);
                assert(pushed[items.len() as int] == first);
                if items.contains(pair) {
                    let k = choose|k: int| 0 <= k < items.len() && items[k] == pair;
                    assert(pushed[k] == pair);
                }
                if pushed.contains(pair) && pair != first {
                    let k = choose|k: int| 0 <= k < pushed.len() && pushed[k] == pair;
                    assert(items[k] == pair);
                }
            }
        }
        assert(listed.contains(pair) <==> pair == first || listed.drop_first().contains(pair)) by {
            assert(listed[0] == first);
            if listed.contains(pair) && pair != first {
                let k = choose|k: int| 0 <= k < listed.len() && listed[k] == pair;
                assert(listed.drop_first()[k - 1] == pair);
            }
            if listed.drop_first().contains(pair) {
                let k = choose|k: int|
                    0 <= k < listed.drop_first().len() && listed.drop_first()[k] == pair;
                assert(listed[k + 1] == pair);
            }
        }
    }
}

pub proof fn lemma_pair_added(pairs: Seq<(Seq<char>, Seq<char>)>, pair: (Seq<char>, Seq<char>))
    ensures
        forall|other: (Seq<char>, Seq<char>)|
            #[trigger] pair_added(pairs, pair).contains(other) <==> pairs.contains(other) || other
                == pair,
        pair_added(pairs, pair).len() <= pairs.len() + 1,
{
    let next = pair_added(pairs, pair);
    assert forall|other: (Seq<char>, Seq<char>)| #[trigger]
        next.contains(other) <==> pairs.contains(other) || other == pair by {
        if !pairs.contains(pair) {
            let pushed = pairs.push(pair);
            assert(pushed[pairs.len() as int] == pair);
            if pairs.contains(other) {
                let k = choose|k: int| 0 <= k < pairs.len() && pairs[k] == other;
                assert(pushed[k] == other);
            }
            if pushed.contains(other) && other != pair {
                let k = choose|k: int| 0 <= k < pushed.len() && pushed[k] == other;
                assert(pairs[k] == other);
            }
        }
    }
}

/// Whether items hold one with an identifier.
pub open spec fn names_item(items: Seq<ItemView>, item_id: Seq<char>) -> bool {
    exists|k: int| 0 <= k < items.len() && (#[trigger] items[k]).id == Some(item_id)
}

/// The items of an ended turn are recorded, all of them, and no others; an
/// item without an identifier is refused, and so is one too many.
pub proof fn items_of_an_ended_turn_are_recorded(
    view: FinishedView,
    turn_id: Seq<char>,
    items: Seq<ItemView>,
)
    ensures
        ({
            let (next, failure) = items_added(view, turn_id, items);
            &&& next == (FinishedView { items: next.items, ..view })
            &&& forall|pair: (Seq<char>, Seq<char>)|
                #[trigger] next.items.contains(pair) ==> view.items.contains(pair) || (pair.0
                    == turn_id && names_item(items, pair.1))
            &&& forall|pair: (Seq<char>, Seq<char>)|
                view.items.contains(pair) ==> #[trigger] next.items.contains(pair)
            &&& failure is None ==> forall|k: int|
                0 <= k < items.len() ==> (#[trigger] items[k]).id is Some && next.items.contains(
                    (turn_id, items[k].id->Some_0),
                )
            &&& next.items.len() <= view.items.len() + items.len()
            &&& failure is Some ==> (exists|k: int|
                0 <= k < items.len() && (#[trigger] items[k]).id is None && failure
                    == Some(ThreadFailure::Uncertain(
                    ExternalUncertaintyReason::ProtocolViolation,
                ))) || (failure == Some(
                ThreadFailure::Uncertain(ExternalUncertaintyReason::PageLimit),
            ) && (view.turns.len() > EXTERNAL_RECONCILE_ENTRY_CAPACITY || view.all_turns.len()
                > EXTERNAL_RECONCILE_ENTRY_CAPACITY || view.listed.len()
                > EXTERNAL_RECONCILE_ENTRY_CAPACITY || view.items.len() + items.len()
                > EXTERNAL_RECONCILE_ENTRY_CAPACITY))
        }),
    decreases items.len(),
{
    if items.len() > 0 {
        let (first, failure) = item_added(view, turn_id, items.first());
        let rest = items.drop_first();
        let (next, _) = items_added(view, turn_id, items);
        assert(items[0] == items.first());
        if let Some(item_id) = items.first().id {
            lemma_pair_added(view.items, (turn_id, item_id));
        }
        if failure is None {
            items_of_an_ended_turn_are_recorded(first, turn_id, rest);
            assert forall|pair: (Seq<char>, Seq<char>)| #[trigger]
                next.items.contains(pair) implies view.items.contains(pair) || (pair.0 == turn_id
                && names_item(items, pair.1)) by {
                if !first.items.contains(pair) {
                    let k = choose|k: int|
                        0 <= k < rest.len() && (#[trigger] rest[k]).id == Some(pair.1);
                    assert(items[k + 1].id == Some(pair.1));
                } else if !view.items.contains(pair) {
                    assert(items[0].id == Some(pair.1));
                }
            }
            if items_added(view, turn_id, items).1 is None {
                assert forall|k: int| 0 <= k < items.len() implies (#[trigger] items[k]).id is Some
                    && next.items.contains((turn_id, items[k].id->Some_0)) by {
                    if k > 0 {
                        assert(rest[k - 1] == items[k]);
                    } else {
                        assert(first.items.contains((turn_id, items[0].id->Some_0)));
                    }
                }
            } else {
                assert forall|k: int| 0 <= k < rest.len() && (#[trigger] rest[k]).id is None implies
                    items[k + 1].id is None by {}
            }
        }
    }
}

/// A turn of a snapshot is known from then on. One that ended is recorded with
/// how it ended and with its items; of one in progress nothing but that it is
/// known is recorded. What was recorded before stays.
pub proof fn snapshot_turns_are_recorded(view: FinishedView, turn: TurnView, other: Seq<char>)
    requires
        unique_keys(view.turns),
        unique_keys(view.all_turns),
        turn_added(view, turn).1 is None,
    ensures
        ({
            let next = turn_added(view, turn).0;
            let ended = match turn.status {
                TurnStatusView::Completed => Some(ExternalTerminalStatus::Completed),
                TurnStatusView::Failed => Some(ExternalTerminalStatus::Failed),
                TurnStatusView::Interrupted => Some(ExternalTerminalStatus::Interrupted),
                _ => None,
            };
            &&& unique_keys(next.turns) && unique_keys(next.all_turns)
            &&& has_key(next.all_turns, other) <==> has_key(view.all_turns, other) || other
                == turn.id
            &&& ended is Some ==> lookup(next.turns, turn.id) == ended
            &&& lookup(next.turns, other) == (if ended is Some && other == turn.id {
                ended
            } else {
                lookup(view.turns, other)
            })
            &&& ended is None ==> turn.status is InProgress && next.items == view.items
                && next.turns == view.turns
            &&& forall|pair: (Seq<char>, Seq<char>)| #[trigger]
                next.items.contains(pair) <==> view.items.contains(pair) || (ended is Some
                    && pair.0 == turn.id && names_item(turn.items, pair.1))
            &&& next.listed == view.listed && next.bytes == view.bytes
        }),
{
    let known = FinishedView { all_turns: bind(view.all_turns, turn.id, ()), ..view };
    lemma_bind_unique(view.all_turns, turn.id, ());
    lemma_bind_lookup(view.all_turns, turn.id, (), other);
    if let Some(status) = terminal_status_of(turn.status) {
        items_of_an_ended_turn_are_recorded(known, turn.id, turn.items);
        lemma_bind_unique(view.turns, turn.id, status);
        lemma_bind_lookup(view.turns, turn.id, status, other);
        let next = turn_added(view, turn).0;
        assert forall|pair: (Seq<char>, Seq<char>)| #[trigger]
            next.items.contains(pair) <==> view.items.contains(pair) || (pair.0 == turn.id
                && names_item(turn.items, pair.1)) by {
            if pair.0 == turn.id && names_item(turn.items, pair.1) {
                let k = choose|k: int|
                    0 <= k < turn.items.len() && (#[trigger] turn.items[k]).id == Some(pair.1);
                assert(turn.items[k].id->Some_0 == pair.1);
            }
        }
    }
}

/// A turn of a snapshot is refused for a reason only: its status is none that
/// is known, an item of an ended turn has no identifier, it ended otherwise
/// before, or there is one entry too many.
pub proof fn snapshot_turns_are_refused_for_a_reason(view: FinishedView, turn: TurnView)
    requires
        unique_keys(view.turns),
        unique_keys(view.all_turns),
    ensures
        ({
            let failure = turn_added(view, turn).1;
            let over = view.turns.len() + 1 > EXTERNAL_RECONCILE_ENTRY_CAPACITY
                || view.all_turns.len() + 1 > EXTERNAL_RECONCILE_ENTRY_CAPACITY
                || view.listed.len() > EXTERNAL_RECONCILE_ENTRY_CAPACITY || view.items.len()
                + turn.items.len() > EXTERNAL_RECONCILE_ENTRY_CAPACITY;
            let nameless = exists|k: int|
                0 <= k < turn.items.len() && (#[trigger] turn.items[k]).id is None;
            let ended = match turn.status {
                TurnStatusView::Completed => Some(ExternalTerminalStatus::Completed),
                TurnStatusView::Failed => Some(ExternalTerminalStatus::Failed),
                TurnStatusView::Interrupted => Some(ExternalTerminalStatus::Interrupted),
                _ => None,
            };
            let prior = lookup(view.turns, turn.id);
            &&& ended is None && !(turn.status is InProgress) ==> failure == Some(
                ThreadFailure::Uncertain(ExternalUncertaintyReason::ProtocolViolation),
            )
            &&& turn.status is InProgress && !over ==> failure is None
            &&& ended is Some && nameless ==> failure is Some
            &&& ended is Some && nameless && !over ==> failure == Some(
                ThreadFailure::Uncertain(ExternalUncertaintyReason::ProtocolViolation),
            )
            &&& ended is Some && prior is Some && prior != ended ==> failure is Some
            &&& ended is Some && prior is Some && prior != ended && !nameless && !over
                ==> failure == Some(
                ThreadFailure::Uncertain(ExternalUncertaintyReason::ConflictingTerminal),
            )
            &&& ended is Some && (prior is None || prior == ended) && !nameless && !over
                ==> failure is None
        }),
{
    let known = FinishedView { all_turns: bind(view.all_turns, turn.id, ()), ..view };
    lemma_bind_unique(view.all_turns, turn.id, ());
    if let Some(status) = terminal_status_of(turn.status) {
        items_of_an_ended_turn_are_recorded(known, turn.id, turn.items);
        lemma_bind_unique(view.turns, turn.id, status);
    }
}

/// Every turn of a snapshot is recorded, not only the first or the last one.
pub proof fn whole_snapshots_are_recorded(
    view: FinishedView,
    turns: Seq<TurnView>,
    other: Seq<char>,
)
    requires
        unique_keys(view.turns),
        unique_keys(view.all_turns),
        turns_added(view, turns).1 is None,
    ensures
        ({
            let next = turns_added(view, turns).0;
            &&& unique_keys(next.turns) && unique_keys(next.all_turns)
            &&& has_key(view.all_turns, other) ==> has_key(next.all_turns, other)
            &&& has_key(view.turns, other) ==> lookup(next.turns, other) == lookup(
                view.turns,
                other,
            )
            &&& has_key(next.all_turns, other) ==> has_key(view.all_turns, other) || exists|k: int|
                0 <= k < turns.len() && (#[trigger] turns[k]).id == other
            &&& has_key(next.turns, other) ==> has_key(view.turns, other) || exists|k: int|
                0 <= k < turns.len() && (#[trigger] turns[k]).id == other && !(
                turns[k].status is InProgress)
            &&& forall|pair: (Seq<char>, Seq<char>)|
                view.items.contains(pair) ==> #[trigger] next.items.contains(pair)
            &&& forall|k: int|
                0 <= k < turns.len() && (#[trigger] turns[k]).id == other ==> has_key(
                    next.all_turns,
                    other,
                ) && match turns[k].status {
                    TurnStatusView::InProgress => true,
                    TurnStatusView::Completed => lookup(next.turns, other) == Some(
                        ExternalTerminalStatus::Completed,
                    ),
                    TurnStatusView::Failed => lookup(next.turns, other) == Some(
                        ExternalTerminalStatus::Failed,
                    ),
                    TurnStatusView::Interrupted => lookup(next.turns, other) == Some(
                        ExternalTerminalStatus::Interrupted,
                    ),
                    _ => false,
                }
            &&& forall|k: int, i: int|
                #![trigger turns[k].items[i]]
                0 <= k < turns.len() && turns[k].id == other && !(turns[k].status is InProgress)
                    && 0 <= i < turns[k].items.len() ==> turns[k].items[i].id is Some
                    && next.items.contains((other, turns[k].items[i].id->Some_0))
            &&& next.listed == view.listed && next.bytes == view.bytes
        }),
    decreases turns.len(),
{
    if turns.len() > 0 {
        let first = turn_added(view, turns.first()).0;
        let rest = turns.drop_first();
        let next = turns_added(view, turns).0;
        assert(turns[0] == turns.first());
        snapshot_turns_are_recorded(view, turns.first(), other);
        if has_key(view.turns, other) {
            if let Some(status) = terminal_status_of(turns.first().status) {
                let known = FinishedView {
                    all_turns: bind(view.all_turns, turns.first().id, ()),
                    ..view
                };
                lemma_items_keep_turns(known, turns.first().id, turns.first().items);
            }
        }
        whole_snapshots_are_recorded(first, rest, other);
        assert forall|k: int| 0 <= k < rest.len() implies turns[k + 1] == #[trigger] rest[k] by {}
        if has_key(next.all_turns, other) && !has_key(first.all_turns, other) {
            let k = choose|k: int| 0 <= k < rest.len() && (#[trigger] rest[k]).id == other;
            assert(turns[k + 1].id == other);
        }
        if has_key(next.turns, other) && !has_key(first.turns, other) {
            let k = choose|k: int|
                0 <= k < rest.len() && (#[trigger] rest[k]).id == other && !(
                rest[k].status is InProgress);
            assert(turns[k + 1].id == other);
        }
        assert forall|k: int| 0 <= k < turns.len() && (#[trigger] turns[k]).id == other implies
            has_key(next.all_turns, other) && match turns[k].status {
            TurnStatusView::InProgress => true,
            TurnStatusView::Completed => lookup(next.turns, other) == Some(
                ExternalTerminalStatus::Completed,
            ),
            TurnStatusView::Failed => lookup(next.turns, other) == Some(
                ExternalTerminalStatus::Failed,
            ),
            TurnStatusView::Interrupted => lookup(next.turns, other) == Some(
                ExternalTerminalStatus::Interrupted,
            ),
            _ => false,
        } by {
            if k > 0 {
                assert(rest[k - 1] == turns[k]);
            }
        }
        assert forall|k: int, i: int|
            #![trigger turns[k].items[i]]
            0 <= k < turns.len() && turns[k].id == other && !(turns[k].status is InProgress) && 0
                <= i < turns[k].items.len() implies turns[k].items[i].id is Some
            && next.items.contains((other, turns[k].items[i].id->Some_0)) by {
            if k > 0 {
                assert(rest[k - 1].items[i] == turns[k].items[i]);
            } else {
                let known = FinishedView {
                    all_turns: bind(view.all_turns, turns.first().id, ()),
                    ..view
                };
                items_of_an_ended_turn_are_recorded(
                    known,
                    turns.first().id,
                    turns.first().items,
                );
                assert(turns.first().items[i].id is Some);
                assert(first.items.contains((other, turns[k].items[i].id->Some_0)));
            }
        }
    }
}

/// The events that came while a thread was reconciled count as well: each
/// turn that one of them ended is recorded with how it ended, each item that
/// one of them finished is recorded, and nothing recorded before is lost.
pub proof fn events_are_recorded(
    view: FinishedView,
    events: Seq<ExternalReadEvent>,
    other: Seq<char>,
)
    requires
        unique_keys(view.turns),
        events_added(view, events).1 is None,
    ensures
        ({
            let next = events_added(view, events).0;
            &&& unique_keys(next.turns)
            &&& has_key(view.turns, other) ==> lookup(next.turns, other) == lookup(
                view.turns,
                other,
            )
            &&& has_key(next.turns, other) ==> has_key(view.turns, other) || exists|k: int|
                0 <= k < events.len() && (#[trigger] events[k]) is TurnCompleted
                    && events[k]->TurnCompleted_turn@.id == other
            &&& forall|pair: (Seq<char>, Seq<char>)|
                view.items.contains(pair) ==> #[trigger] next.items.contains(pair)
            &&& forall|pair: (Seq<char>, Seq<char>)| #[trigger]
                next.items.contains(pair) ==> view.items.contains(pair) || exists|k: int|
                    0 <= k < events.len() && (#[trigger] events[k]) is ItemCompleted
                        && events[k]->ItemCompleted_turn_id@ == pair.0
                        && events[k]->ItemCompleted_item@.id == Some(pair.1)
            &&& forall|k: int|
                0 <= k < events.len() ==> match #[trigger] events[k] {
                    ExternalReadEvent::TurnCompleted { turn, .. } => turn@.id == other ==> lookup(
                        next.turns,
                        other,
                    ) == (match turn@.status {
                        TurnStatusView::Completed => Some(ExternalTerminalStatus::Completed),
                        TurnStatusView::Failed => Some(ExternalTerminalStatus::Failed),
                        TurnStatusView::Interrupted => Some(ExternalTerminalStatus::Interrupted),
                        _ => None,
                    }) && lookup(next.turns, other) is Some,
                    ExternalReadEvent::ItemCompleted { turn_id, item, .. } => item@.id is Some
                        && next.items.contains((turn_id@, item@.id->Some_0)),
                    ExternalReadEvent::RemoteControlStatusChanged => true,
                    ExternalReadEvent::ThreadGoalCleared { .. } => true,
                    ExternalReadEvent::ThreadStatusChanged { .. } => true,
                    _ => false,
                }
            &&& next.all_turns == view.all_turns && next.listed == view.listed && next.bytes
                == view.bytes
        }),
    decreases events.len(),
{
    if events.len() > 0 {
        let event = events.first();
        let first = event_added(view, event).0;
        let rest = events.drop_first();
        let next = events_added(view, events).0;
        assert(events[0] == event);
        if let Ok(terminal) = terminal_of(event) {
            if let Some((ended, status)) = terminal.turn {
                lemma_bind_lookup(view.turns, ended, status, other);
                lemma_bind_unique(view.turns, ended, status);
            }
            if let Some(pair) = terminal.item {
                lemma_pair_added(view.items, pair);
                assert(first.items.contains(pair));
            }
        }
        events_are_recorded(first, rest, other);
        if has_key(next.turns, other) && !has_key(first.turns, other) {
            let k = choose|k: int|
                0 <= k < rest.len() && (#[trigger] rest[k]) is TurnCompleted
                    && rest[k]->TurnCompleted_turn@.id == other;
            assert(events[k + 1] == rest[k]);
        }
        assert forall|pair: (Seq<char>, Seq<char>)| #[trigger]
            next.items.contains(pair) implies view.items.contains(pair) || exists|k: int|
            0 <= k < events.len() && (#[trigger] events[k]) is ItemCompleted
                && events[k]->ItemCompleted_turn_id@ == pair.0
                && events[k]->ItemCompleted_item@.id == Some(pair.1) by {
            if !first.items.contains(pair) {
                let k = choose|k: int|
                    0 <= k < rest.len() && (#[trigger] rest[k]) is ItemCompleted
                        && rest[k]->ItemCompleted_turn_id@ == pair.0
                        && rest[k]->ItemCompleted_item@.id == Some(pair.1);
                assert(events[k + 1] == rest[k]);
            } else if !view.items.contains(pair) {
                assert(events[0] is ItemCompleted);
            }
        }
        assert forall|k: int| 0 <= k < events.len() implies match #[trigger] events[k] {
            ExternalReadEvent::TurnCompleted { turn, .. } => turn@.id == other ==> lookup(
                next.turns,
                other,
            ) == (match turn@.status {
                TurnStatusView::Completed => Some(ExternalTerminalStatus::Completed),
                TurnStatusView::Failed => Some(ExternalTerminalStatus::Failed),
                TurnStatusView::Interrupted => Some(ExternalTerminalStatus::Interrupted),
                _ => None,
            }) && lookup(next.turns, other) is Some,
            ExternalReadEvent::ItemCompleted { turn_id, item, .. } => item@.id is Some
                && next.items.contains((turn_id@, item@.id->Some_0)),
            ExternalReadEvent::RemoteControlStatusChanged => true,
            ExternalReadEvent::ThreadGoalCleared { .. } => true,
            ExternalReadEvent::ThreadStatusChanged { .. } => true,
            _ => false,
        } by {
            if k > 0 {
                assert(rest[k - 1] == events[k]);
            }
        }
    }
}

/// Events that end or finish nothing change nothing, and one that does is
/// refused for a reason only.
pub proof fn events_are_refused_for_a_reason(view: FinishedView, event: ExternalReadEvent)
    requires
        unique_keys(view.turns),
        view.turns.len() < EXTERNAL_RECONCILE_ENTRY_CAPACITY,
        view.all_turns.len() <= EXTERNAL_RECONCILE_ENTRY_CAPACITY,
        view.items.len() < EXTERNAL_RECONCILE_ENTRY_CAPACITY,
        view.listed.len() <= EXTERNAL_RECONCILE_ENTRY_CAPACITY,
    ensures
        ({
            let (next, failure) = event_added(view, event);
            let violation = Some(ThreadFailure::Epoch(EpochFailure::ProtocolViolation));
            match event {
                ExternalReadEvent::RemoteControlStatusChanged => next == view && failure is None,
                ExternalReadEvent::ThreadGoalCleared { .. } => next == view && failure is None,
                ExternalReadEvent::ThreadStatusChanged { .. } => next == view && failure is None,
                ExternalReadEvent::ItemCompleted { item, .. } => if item@.id is Some {
                    failure is None
                } else {
                    failure == violation
                },
                ExternalReadEvent::TurnCompleted { turn, .. } => {
                    let ended = match turn@.status {
                        TurnStatusView::Completed => Some(ExternalTerminalStatus::Completed),
                        TurnStatusView::Failed => Some(ExternalTerminalStatus::Failed),
                        TurnStatusView::Interrupted => Some(ExternalTerminalStatus::Interrupted),
                        _ => None,
                    };
                    let prior = lookup(view.turns, turn@.id);
                    if ended is None {
                        failure == violation
                    } else if prior is Some && prior != ended {
                        failure == Some(
                            ThreadFailure::Uncertain(
                                ExternalUncertaintyReason::ConflictingTerminal,
                            ),
                        )
                    } else {
                        failure is None
                    }
                },
                ExternalReadEvent::Closed(_) => failure == Some(
                    ThreadFailure::Epoch(EpochFailure::ConnectionLost),
                ),
                _ => failure == violation,
            }
        }),
{
    if let Ok(terminal) = terminal_of(event) {
        if let Some((ended, status)) = terminal.turn {
            lemma_bind_unique(view.turns, ended, status);
        }
        if let Some(pair) = terminal.item {
            lemma_pair_added(view.items, pair);
        }
    }
}

/// An event waits at the end of its own thread's buffer, and takes its bytes
/// there and altogether, exactly while there is room; else the thread has
/// overflowed and loses its claim to be complete. No other thread notices.
pub proof fn waiting_events_keep_their_order(
    buffers: BuffersView,
    thread_id: Seq<char>,
    event: ExternalReadEvent,
    bytes: usize,
    other: Seq<char>,
)
    requires
        buffers_bounded(buffers),
    ensures
        ({
            let next = event_buffered(buffers, thread_id, event, bytes);
            let held = buffer_of(buffers, thread_id);
            let room = held.events.len() < EXTERNAL_RECONCILE_EVENT_CAPACITY && held.bytes + bytes
                <= EXTERNAL_RECONCILE_MAILBOX_BYTES && buffers.endpoint_bytes + bytes
                <= EXTERNAL_RECONCILE_ENDPOINT_BYTES;
            &&& lookup(buffers.overflow, thread_id) is Some ==> next == buffers
            &&& lookup(buffers.overflow, thread_id) is None && room ==> buffer_of(next, thread_id)
                == (BufferView {
                events: held.events.push(event),
                bytes: (held.bytes + bytes) as usize,
            }) && next.endpoint_bytes == buffers.endpoint_bytes + bytes && next.overflow
                == buffers.overflow
            &&& lookup(buffers.overflow, thread_id) is None && !room ==> buffer_of(next, thread_id)
                == held && next.endpoint_bytes == buffers.endpoint_bytes && lookup(
                next.overflow,
                thread_id,
            ) == Some(ExternalUncertaintyReason::BufferOverflow)
            &&& other != thread_id ==> buffer_of(next, other) == buffer_of(buffers, other)
                && lookup(next.overflow, other) == lookup(buffers.overflow, other)
            &&& buffers_bounded(next)
        }),
{
    let held = buffer_of(buffers, thread_id);
    let pushed = BufferView {
        events: held.events.push(event),
        bytes: (held.bytes + bytes) as usize,
    };
    lemma_bind_lookup(buffers.threads, thread_id, held, other);
    lemma_bind_lookup(buffers.threads, thread_id, pushed, other);
    lemma_bind_lookup(
        buffers.overflow,
        thread_id,
        ExternalUncertaintyReason::BufferOverflow,
        other,
    );
    lemma_bind_unique(buffers.threads, thread_id, held);
    lemma_bind_unique(buffers.threads, thread_id, pushed);
    lemma_bind_unique(
        buffers.overflow,
        thread_id,
        ExternalUncertaintyReason::BufferOverflow,
    );
}

/// Taking the events of a thread gives back the bytes that they took, and
/// leaves every other thread's.
pub proof fn taken_events_give_back_their_bytes(
    buffers: BuffersView,
    thread_id: Seq<char>,
    other: Seq<char>,
)
    requires
        buffers_bounded(buffers),
    ensures
        ({
            let next = buffer_taken(buffers, thread_id);
            let held = buffer_of(buffers, thread_id).bytes;
            &&& buffer_of(next, thread_id) == (BufferView { events: Seq::empty(), bytes: 0 })
            &&& held <= buffers.endpoint_bytes ==> next.endpoint_bytes + held
                == buffers.endpoint_bytes
            &&& held > buffers.endpoint_bytes ==> next.endpoint_bytes == 0
            &&& other != thread_id ==> buffer_of(next, other) == buffer_of(buffers, other)
            &&& next.overflow == buffers.overflow
        }),
{
    lemma_unbind_lookup(buffers.threads, thread_id, other);
}

/// The bytes of an answer count against its thread and the endpoint both, and
/// an answer that is too large for either, or whose size is not known, fails.
pub proof fn answers_are_counted(thread_bytes: usize, buffers: BuffersView, bytes: Option<usize>)
    ensures
        ({
            let (total, next, failure) = answer_counted(thread_bytes, buffers, bytes);
            &&& bytes is None ==> (total, next) == (thread_bytes, buffers) && failure == Some(
                ThreadFailure::Epoch(EpochFailure::ProtocolViolation),
            )
            &&& bytes matches Some(size) ==> (thread_bytes + size
                <= EXTERNAL_RECONCILE_THREAD_BYTES && buffers.endpoint_bytes + size
                <= EXTERNAL_RECONCILE_ENDPOINT_BYTES ==> failure is None && total == thread_bytes
                + size && next.endpoint_bytes == buffers.endpoint_bytes + size)
            &&& bytes matches Some(size) ==> (thread_bytes + size > EXTERNAL_RECONCILE_THREAD_BYTES
                || buffers.endpoint_bytes + size > EXTERNAL_RECONCILE_ENDPOINT_BYTES ==> failure
                == Some(ThreadFailure::Uncertain(ExternalUncertaintyReason::BufferOverflow)))
            &&& next.threads == buffers.threads && next.overflow == buffers.overflow
        }),
{
}

/// What a failed epoch leaves uncertain tells a lost connection and a request
/// out of time from everything else.
pub proof fn failures_leave_their_reason(failure: EpochFailure)
    ensures
        failure_reason(failure) == ExternalUncertaintyReason::SocketDisconnect <==> failure
            == EpochFailure::ConnectionLost,
        failure_reason(failure) == ExternalUncertaintyReason::RequestTimeout <==> failure
            == EpochFailure::RequestTimeout,
        failure_reason(failure) == ExternalUncertaintyReason::ProtocolViolation <==> failure
            == EpochFailure::ProtocolViolation || failure == EpochFailure::Store,
{
}

/// What the end of a transport means for the epoch.
pub open spec fn exit_failure(exit: TransportExit) -> EpochFailure {
    match exit {
        TransportExit::ProtocolViolation | TransportExit::TaskFailed =>
            EpochFailure::ProtocolViolation,
        _ => EpochFailure::ConnectionLost,
    }
}

/// A transport that broke the contract, or failed in itself, is a violation;
/// every other end of it is a lost connection.
pub proof fn ended_transports_are_lost_connections(exit: TransportExit)
    ensures
        exit_failure(exit) == EpochFailure::ProtocolViolation <==> exit
            == TransportExit::ProtocolViolation || exit == TransportExit::TaskFailed,
        exit_failure(exit) == EpochFailure::ConnectionLost <==> !(exit
            == TransportExit::ProtocolViolation || exit == TransportExit::TaskFailed),
{
}

} // verus!
