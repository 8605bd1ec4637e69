//! The requests that reconcile one external thread, and what each answer
//! leads to: resume, read, pages of turns, pages of the items of each turn,
//! and one durable write at the end.
use vstd::prelude::*;

use crate::codex::reconcile::answer_counted;
use crate::codex::reconcile::buffer_of;
use crate::codex::reconcile::buffer_taken;
use crate::codex::reconcile::buffers_bounded;
use crate::codex::reconcile::events_added;
use crate::codex::reconcile::events_are_recorded;
use crate::codex::reconcile::failed;
use crate::codex::reconcile::folded;
use crate::codex::reconcile::folded_items_belong_to_ended_turns;
use crate::codex::reconcile::items_folded;
use crate::codex::reconcile::known_turns;
use crate::codex::reconcile::lemma_pair_added;
use crate::codex::reconcile::listed_added;
use crate::codex::reconcile::nothing_finished;
use crate::codex::reconcile::taken_events_give_back_their_bytes;
use crate::codex::reconcile::turn_views;
use crate::codex::reconcile::turns_added;
use crate::codex::reconcile::uncertain;
use crate::codex::reconcile::whole_snapshots_are_recorded;
use crate::codex::reconcile::BuffersView;
use crate::codex::reconcile::EpochFailure;
use crate::codex::reconcile::ExternalTerminalStatus;
use crate::codex::reconcile::ExternalUncertaintyReason;
use crate::codex::reconcile::FinishedView;
use crate::codex::reconcile::ReconcileMailboxes;
use crate::codex::reconcile::TerminalProjection;
use crate::codex::reconcile::ThreadFailure;
use crate::codex::types::text_option;
use crate::codex::types::ItemView;
use crate::codex::types::ThreadItem;
use crate::codex::types::Turn;
use crate::codex::types::TurnView;
use crate::keyed::has_key;
use crate::keyed::key_index;
use crate::keyed::lemma_bind_unique;
use crate::keyed::lemma_key_index;
use crate::keyed::lemma_unbind_lookup;
use crate::keyed::lookup;
use crate::keyed::pair_added;
use crate::keyed::unbind;
use crate::keyed::unique_keys;
use crate::keyed::value_of;
use crate::limits::EXTERNAL_RECONCILE_ENDPOINT_BYTES;
use crate::limits::EXTERNAL_RECONCILE_ENTRY_CAPACITY;
use crate::limits::EXTERNAL_RECONCILE_PAGE_CAPACITY;
use crate::limits::EXTERNAL_RECONCILE_THREAD_BYTES;
use crate::ordered::holds;
use crate::ordered::ordered;
use crate::ordered::ordering_keeps_the_entries;
use crate::ordered::views;
use crate::ordered::Ranked;
use crate::text::same_text;

verus! {

/// One item of a page, with the turn that it belongs to.
pub struct ItemEntry {
    pub turn_id: String,
    pub item: ThreadItem,
}

/// Content of the items of a page.
pub open spec fn entry_views(entries: Seq<ItemEntry>) -> Seq<(Seq<char>, ItemView)> {
    entries.map_values(|entry: ItemEntry| (entry.turn_id@, entry.item@))
}

/// An answer, with its encoded length, which is missing where it could not be
/// encoded.
pub enum ReconcileResponse {
    /// To a resume or a read.
    Thread { bytes: Option<usize>, id: String, turns: Vec<Turn> },
    Turns { bytes: Option<usize>, turns: Vec<Turn>, next_cursor: Option<String> },
    Items { bytes: Option<usize>, entries: Vec<ItemEntry>, next_cursor: Option<String> },
}

/// The next request, or the durable write at the end.
pub enum ReconcileAction {
    Resume,
    Read,
    ListTurns { cursor: Option<String> },
    ListItems { turn_id: String, cursor: Option<String> },
    Apply { turns: Vec<(String, ExternalTerminalStatus)>, items: Vec<(String, String)> },
}

/// Content of the next step.
pub enum ActionView {
    Resume,
    Read,
    ListTurns { cursor: Option<Seq<char>> },
    ListItems { turn_id: Seq<char>, cursor: Option<Seq<char>> },
    Apply {
        turns: Seq<(Seq<char>, ExternalTerminalStatus)>,
        items: Seq<(Seq<char>, Seq<char>)>,
    },
}

impl View for ReconcileAction {
    type V = ActionView;

    open spec fn view(&self) -> ActionView {
        match *self {
            ReconcileAction::Resume => ActionView::Resume,
            ReconcileAction::Read => ActionView::Read,
            ReconcileAction::ListTurns { cursor } => ActionView::ListTurns {
                cursor: text_option(cursor),
            },
            ReconcileAction::ListItems { turn_id, cursor } => ActionView::ListItems {
                turn_id: turn_id@,
                cursor: text_option(cursor),
            },
            ReconcileAction::Apply { turns, items } => ActionView::Apply {
                turns: views(turns@),
                items: views(items@),
            },
        }
    }
}

/// How far the reconciliation of a thread has come.
pub enum StageView {
    Resume,
    Read,
    /// Pages of turns that were read, and the cursors that were given out.
    Turns { pages: nat, seen: Seq<Seq<char>> },
    /// The turns whose items are read, which of them is at hand, the pages of
    /// items that were asked for, and the cursors given out for that turn.
    Items { turns: Seq<Seq<char>>, at: nat, pages: nat, seen: Seq<Seq<char>> },
    Done,
}

/// Content of the reconciliation of a thread.
pub struct ReconcileView {
    pub thread_id: Seq<char>,
    pub finished: FinishedView,
    pub stage: StageView,
}

/// A step of a reconciliation: the state after it, the buffers after it, and
/// the next request or the failure.
pub type ReconcileStep = (ReconcileView, BuffersView, Result<ActionView, ThreadFailure>);

/// Ends a reconciliation: the events that arrived meanwhile and the listed
/// items are folded in, and the result is to be written.
pub open spec fn concluded(state: ReconcileView, buffers: BuffersView) -> ReconcileStep {
    let done = ReconcileView { stage: StageView::Done, ..state };
    let unmarked = BuffersView {
        overflow: unbind(buffers.overflow, state.thread_id),
        ..buffers
    };
    match lookup(buffers.overflow, state.thread_id) {
        Some(reason) => (done, unmarked, Err(ThreadFailure::Uncertain(reason))),
        None => {
            let rest = buffer_taken(unmarked, state.thread_id);
            let (with_events, failure) = events_added(
                state.finished,
                buffer_of(unmarked, state.thread_id).events,
            );
            if failure is Some {
                (ReconcileView { finished: with_events, ..done }, rest, Err(failure->Some_0))
            } else {
                let (next, failure) = folded(with_events);
                if failure is Some {
                    (ReconcileView { finished: next, ..done }, rest, Err(failure->Some_0))
                } else {
                    (
                        ReconcileView { finished: next, ..done },
                        rest,
                        Ok(
                            ActionView::Apply {
                                turns: ordered::<(String, ExternalTerminalStatus)>(next.turns),
                                items: ordered::<(String, String)>(next.items),
                            },
                        ),
                    )
                }
            }
        },
    }
}

/// Asks for a page of items of a turn, where there may be one more, or ends.
pub open spec fn items_requested(
    state: ReconcileView,
    buffers: BuffersView,
    turns: Seq<Seq<char>>,
    at: nat,
    pages: nat,
    seen: Seq<Seq<char>>,
    cursor: Option<Seq<char>>,
) -> ReconcileStep {
    if at >= turns.len() {
        concluded(state, buffers)
    } else if pages >= EXTERNAL_RECONCILE_PAGE_CAPACITY {
        (
            ReconcileView { stage: StageView::Done, ..state },
            buffers,
            Err(ThreadFailure::Uncertain(ExternalUncertaintyReason::PageLimit)),
        )
    } else {
        (
            ReconcileView {
                stage: StageView::Items { turns, at, pages: pages + 1, seen },
                ..state
            },
            buffers,
            Ok(ActionView::ListItems { turn_id: turns[at as int], cursor }),
        )
    }
}

/// The projection after the items of a page, up to one that fails or belongs
/// to another turn.
pub open spec fn entries_added(
    view: FinishedView,
    turn_id: Seq<char>,
    entries: Seq<(Seq<char>, ItemView)>,
) -> (FinishedView, Option<ThreadFailure>)
    decreases entries.len(),
{
    if entries.len() == 0 {
        (view, None)
    } else if entries.first().0 != turn_id {
        (view, uncertain(ExternalUncertaintyReason::ProtocolViolation))
    } else {
        let (next, failure) = listed_added(view, turn_id, entries.first().1);
        if failure is Some {
            (next, failure)
        } else {
            entries_added(next, turn_id, entries.drop_first())
        }
    }
}

/// A step that fails.
pub open spec fn abandoned(
    state: ReconcileView,
    finished: FinishedView,
    buffers: BuffersView,
    failure: ThreadFailure,
) -> ReconcileStep {
    (ReconcileView { finished, stage: StageView::Done, ..state }, buffers, Err(failure))
}

/// What the answer to a resume or a read leads to.
pub open spec fn thread_answered(
    state: ReconcileView,
    buffers: BuffersView,
    bytes: Option<usize>,
    id: Seq<char>,
    turns: Seq<TurnView>,
) -> ReconcileStep {
    let (total, counted, failure) = answer_counted(state.finished.bytes, buffers, bytes);
    let sized = FinishedView { bytes: total, ..state.finished };
    if failure is Some {
        abandoned(state, sized, counted, failure->Some_0)
    } else if id != state.thread_id {
        abandoned(
            state,
            sized,
            counted,
            ThreadFailure::Uncertain(ExternalUncertaintyReason::ProtocolViolation),
        )
    } else {
        let (next, failure) = turns_added(sized, turns);
        if failure is Some {
            abandoned(state, next, counted, failure->Some_0)
        } else if state.stage is Resume {
            (
                ReconcileView { finished: next, stage: StageView::Read, ..state },
                counted,
                Ok(ActionView::Read),
            )
        } else {
            (
                ReconcileView {
                    finished: next,
                    stage: StageView::Turns { pages: 0, seen: Seq::empty() },
                    ..state
                },
                counted,
                Ok(ActionView::ListTurns { cursor: None }),
            )
        }
    }
}

/// What a page of turns leads to: the next page while there is one, no cursor
/// comes twice and the pages are within the bound; else the items.
pub open spec fn turns_answered(
    state: ReconcileView,
    buffers: BuffersView,
    bytes: Option<usize>,
    turns: Seq<TurnView>,
    next_cursor: Option<Seq<char>>,
) -> ReconcileStep {
    let pages = state.stage->Turns_pages;
    let seen = state.stage->Turns_seen;
    let (total, counted, failure) = answer_counted(state.finished.bytes, buffers, bytes);
    let sized = FinishedView { bytes: total, ..state.finished };
    if failure is Some {
        abandoned(state, sized, counted, failure->Some_0)
    } else {
        let (next, failure) = turns_added(sized, turns);
        if failure is Some {
            abandoned(state, next, counted, failure->Some_0)
        } else {
            match next_cursor {
                None => items_requested(
                    ReconcileView { finished: next, ..state },
                    counted,
                    known_turns(next),
                    0,
                    0,
                    Seq::empty(),
                    None,
                ),
                Some(cursor) => if pages + 1 >= EXTERNAL_RECONCILE_PAGE_CAPACITY || seen.contains(
                    cursor,
                ) {
                    abandoned(
                        state,
                        next,
                        counted,
                        ThreadFailure::Uncertain(ExternalUncertaintyReason::PageLimit),
                    )
                } else {
                    (
                        ReconcileView {
                            finished: next,
                            stage: StageView::Turns { pages: pages + 1, seen: seen.push(cursor) },
                            ..state
                        },
                        counted,
                        Ok(ActionView::ListTurns { cursor: Some(cursor) }),
                    )
                },
            }
        }
    }
}

/// What a page of items leads to: the next page of the turn while there is one
/// and no cursor comes twice, else the next turn.
pub open spec fn items_answered(
    state: ReconcileView,
    buffers: BuffersView,
    bytes: Option<usize>,
    entries: Seq<(Seq<char>, ItemView)>,
    next_cursor: Option<Seq<char>>,
) -> ReconcileStep {
    let turns = state.stage->Items_turns;
    let at = state.stage->Items_at;
    let pages = state.stage->Items_pages;
    let seen = state.stage->Items_seen;
    let (total, counted, failure) = answer_counted(state.finished.bytes, buffers, bytes);
    let sized = FinishedView { bytes: total, ..state.finished };
    if failure is Some {
        abandoned(state, sized, counted, failure->Some_0)
    } else {
        let (next, failure) = entries_added(sized, turns[at as int], entries);
        if failure is Some {
            abandoned(state, next, counted, failure->Some_0)
        } else {
            match next_cursor {
                None => items_requested(
                    ReconcileView { finished: next, ..state },
                    counted,
                    turns,
                    at + 1,
                    pages,
                    Seq::empty(),
                    None,
                ),
                Some(cursor) => if seen.contains(cursor) {
                    abandoned(
                        state,
                        next,
                        counted,
                        ThreadFailure::Uncertain(ExternalUncertaintyReason::PageLimit),
                    )
                } else {
                    items_requested(
                        ReconcileView { finished: next, ..state },
                        counted,
                        turns,
                        at,
                        pages,
                        seen.push(cursor),
                        Some(cursor),
                    )
                },
            }
        }
    }
}

/// Whether an answer is of the kind that a stage waits for.
pub open spec fn awaited(stage: StageView, response: ReconcileResponse) -> bool {
    match response {
        ReconcileResponse::Thread { .. } => stage is Resume || stage is Read,
        ReconcileResponse::Turns { .. } => stage is Turns,
        ReconcileResponse::Items { .. } => stage is Items,
    }
}

/// What an answer leads to.
pub open spec fn reconciled(
    state: ReconcileView,
    buffers: BuffersView,
    response: ReconcileResponse,
) -> ReconcileStep {
    match response {
        ReconcileResponse::Thread { bytes, id, turns } => thread_answered(
            state,
            buffers,
            bytes,
            id@,
            turn_views(turns@),
        ),
        ReconcileResponse::Turns { bytes, turns, next_cursor } => turns_answered(
            state,
            buffers,
            bytes,
            turn_views(turns@),
            text_option(next_cursor),
        ),
        ReconcileResponse::Items { bytes, entries, next_cursor } => items_answered(
            state,
            buffers,
            bytes,
            entry_views(entries@),
            text_option(next_cursor),
        ),
    }
}

enum Stage {
    Resume,
    Read,
    Turns { pages: usize, seen: Vec<String> },
    Items { turns: Vec<String>, at: usize, pages: usize, seen: Vec<String> },
    Done,
}

/// The reconciliation of one thread.
pub struct ThreadReconcile {
    thread_id: String,
    projection: TerminalProjection,
    stage: Stage,
}

impl View for ThreadReconcile {
    type V = ReconcileView;

    closed spec fn view(&self) -> ReconcileView {
        ReconcileView {
            thread_id: self.thread_id@,
            finished: self.projection@,
            stage: match self.stage {
                Stage::Resume => StageView::Resume,
                Stage::Read => StageView::Read,
                Stage::Turns { pages, seen } => StageView::Turns {
                    pages: pages as nat,
                    seen: views(seen@),
                },
                Stage::Items { turns, at, pages, seen } => StageView::Items {
                    turns: views(turns@),
                    at: at as nat,
                    pages: pages as nat,
                    seen: views(seen@),
                },
                Stage::Done => StageView::Done,
            },
        }
    }
}

impl ThreadReconcile {
    /// Pages stay within their bound, and the turn at hand is one of those
    /// whose items are read.
    pub closed spec fn wf(&self) -> bool {
        &&& self.projection.wf()
        &&& match self.stage {
            Stage::Turns { pages, .. } => pages < EXTERNAL_RECONCILE_PAGE_CAPACITY,
            Stage::Items { turns, at, pages, .. } => at < turns@.len() && pages
                <= EXTERNAL_RECONCILE_PAGE_CAPACITY,
            _ => true,
        }
    }

    /// Starts with a resume.
    pub fn start(thread_id: String) -> (started: (ThreadReconcile, ReconcileAction))
        ensures
            started.0.wf(),
            started.0@ == (ReconcileView {
                thread_id: thread_id@,
                finished: nothing_finished(),
                stage: StageView::Resume,
            }),
            started.1@ == ActionView::Resume,
    {
        (
            ThreadReconcile {
                thread_id,
                projection: TerminalProjection::new(),
                stage: Stage::Resume,
            },
            ReconcileAction::Resume,
        )
    }

    fn conclude(&mut self, mailboxes: &mut ReconcileMailboxes) -> (action: Result<
        ReconcileAction,
        ThreadFailure,
    >)
        requires
            old(self).wf(),
            old(mailboxes).wf(),
        ensures
            final(self).wf(),
            final(mailboxes).wf(),
            (final(self)@, final(mailboxes)@, action_view(action)) == concluded(
                old(self)@,
                old(mailboxes)@,
            ),
    {
        self.stage = Stage::Done;
        if let Some(reason) = mailboxes.take_overflow(self.thread_id.as_str()) {
            return Err(ThreadFailure::Uncertain(reason));
        }
        let events = mailboxes.take(self.thread_id.as_str());
        if let Err(failure) = self.projection.add_events(events) {
            return Err(failure);
        }
        if let Err(failure) = self.projection.fold_listed_items() {
            return Err(failure);
        }
        let turns = self.projection.ended_turns();
        let items = self.projection.finished_items();
        Ok(ReconcileAction::Apply { turns, items })
    }

    fn request_items(
        &mut self,
        mailboxes: &mut ReconcileMailboxes,
        turns: Vec<String>,
        at: usize,
        pages: usize,
        seen: Vec<String>,
        cursor: Option<String>,
    ) -> (action: Result<ReconcileAction, ThreadFailure>)
        requires
            old(self).wf(),
            old(mailboxes).wf(),
            at <= turns@.len(),
        ensures
            final(self).wf(),
            final(mailboxes).wf(),
            (final(self)@, final(mailboxes)@, action_view(action)) == items_requested(
                old(self)@,
                old(mailboxes)@,
                views(turns@),
                at as nat,
                pages as nat,
                views(seen@),
                text_option(cursor),
            ),
    {
        if at >= turns.len() {
            return self.conclude(mailboxes);
        }
        if pages >= EXTERNAL_RECONCILE_PAGE_CAPACITY {
            self.stage = Stage::Done;
            return Err(ThreadFailure::Uncertain(ExternalUncertaintyReason::PageLimit));
        }
        let turn_id = turns[at].clone();
        self.stage = Stage::Items { turns, at, pages: pages + 1, seen };
        Ok(ReconcileAction::ListItems { turn_id, cursor })
    }

    fn add_entries(&mut self, turn_id: &str, entries: &Vec<ItemEntry>) -> (result: Result<
        (),
        ThreadFailure,
    >)
        requires
            old(self).projection.wf(),
        ensures
            final(self).projection.wf(),
            final(self).stage == old(self).stage,
            final(self).thread_id == old(self).thread_id,
            (final(self).projection@, failed(result)) == entries_added(
                old(self).projection@,
                turn_id@,
                entry_views(entries@),
            ),
    {
        let ghost views = entry_views(entries@);
        let mut at: usize = 0;
        proof {
            assert(views.subrange(0, views.len() as int) =~= views);
        }
        while at < entries.len()
            invariant
                self.projection.wf(),
                self.stage == old(self).stage,
                self.thread_id == old(self).thread_id,
                at <= entries@.len(),
                views == entry_views(entries@),
                entries_added(
                    self.projection@,
                    turn_id@,
                    views.subrange(at as int, views.len() as int),
                ) == entries_added(old(self).projection@, turn_id@, views),
            decreases entries@.len() - at,
        {
            proof {
                let rest = views.subrange(at as int, views.len() as int);
                assert(rest.first() == (
                    entries@[at as int].turn_id@,
                    entries@[at as int].item@,
                ));
                assert(rest.drop_first() =~= views.subrange(at + 1, views.len() as int));
            }
            let entry = &entries[at];
            if !same_text(entry.turn_id.as_str(), turn_id) {
                return Err(ThreadFailure::Uncertain(ExternalUncertaintyReason::ProtocolViolation));
            }
            if let Err(failure) = self.projection.add_listed_item(turn_id, &entry.item) {
                return Err(failure);
            }
            at += 1;
        }
        Ok(())
    }

    /// Takes the awaited answer in: the next request, the durable write at the
    /// end, or why the thread could not be reconciled.
    pub fn on_response(
        &mut self,
        mailboxes: &mut ReconcileMailboxes,
        response: ReconcileResponse,
    ) -> (action: Result<ReconcileAction, ThreadFailure>)
        requires
            old(self).wf(),
            old(mailboxes).wf(),
            awaited(old(self)@.stage, response),
        ensures
            final(self).wf(),
            final(mailboxes).wf(),
            (final(self)@, final(mailboxes)@, action_view(action)) == reconciled(
                old(self)@,
                old(mailboxes)@,
                response,
            ),
    {
        let mut stage = Stage::Done;
        std::mem::swap(&mut self.stage, &mut stage);
        match response {
            ReconcileResponse::Thread { bytes, id, turns } => {
                if let Err(failure) = mailboxes.add_response_bytes(&mut self.projection, bytes) {
                    return Err(failure);
                }
                if !same_text(id.as_str(), self.thread_id.as_str()) {
                    return Err(
                        ThreadFailure::Uncertain(ExternalUncertaintyReason::ProtocolViolation),
                    );
                }
                if let Err(failure) = self.projection.add_turns(&turns) {
                    return Err(failure);
                }
                if matches!(stage, Stage::Resume) {
                    self.stage = Stage::Read;
                    Ok(ReconcileAction::Read)
                } else {
                    self.stage = Stage::Turns { pages: 0, seen: Vec::new() };
                    proof {
                        assert(self@.stage->Turns_seen =~= Seq::empty());
                    }
                    Ok(ReconcileAction::ListTurns { cursor: None })
                }
            },
            ReconcileResponse::Turns { bytes, turns, next_cursor } => {
                let (pages, mut seen) = match stage {
                    Stage::Turns { pages, seen } => (pages, seen),
                    _ => {
                        return Err(ThreadFailure::Epoch(EpochFailure::ProtocolViolation));
                    },
                };
                if let Err(failure) = mailboxes.add_response_bytes(&mut self.projection, bytes) {
                    return Err(failure);
                }
                if let Err(failure) = self.projection.add_turns(&turns) {
                    return Err(failure);
                }
                match next_cursor {
                    None => {
                        let turn_ids = self.projection.turn_ids();
                        let none: Vec<String> = Vec::new();
                        proof {
                            assert(views(none@) =~= Seq::empty());
                        }
                        self.request_items(mailboxes, turn_ids, 0, 0, none, None)
                    },
                    Some(cursor) => {
                        if pages + 1 >= EXTERNAL_RECONCILE_PAGE_CAPACITY || holds(
                            &seen,
                            cursor.as_str(),
                        ) {
                            return Err(
                                ThreadFailure::Uncertain(ExternalUncertaintyReason::PageLimit),
                            );
                        }
                        let ghost before = views(seen@);
                        seen.push(cursor.clone());
                        proof {
                            assert(views(seen@) =~= before.push(cursor@));
                        }
                        self.stage = Stage::Turns { pages: pages + 1, seen };
                        Ok(ReconcileAction::ListTurns { cursor: Some(cursor) })
                    },
                }
            },
            ReconcileResponse::Items { bytes, entries, next_cursor } => {
                let (turns, at, pages, mut seen) = match stage {
                    Stage::Items { turns, at, pages, seen } => (turns, at, pages, seen),
                    _ => {
                        return Err(ThreadFailure::Epoch(EpochFailure::ProtocolViolation));
                    },
                };
                if let Err(failure) = mailboxes.add_response_bytes(&mut self.projection, bytes) {
                    return Err(failure);
                }
                proof {
                    assert(views(turns@)[at as int] == turns@[at as int]@);
                }
                if let Err(failure) = self.add_entries(turns[at].as_str(), &entries) {
                    return Err(failure);
                }
                match next_cursor {
                    None => {
                        let none: Vec<String> = Vec::new();
                        proof {
                            assert(views(none@) =~= Seq::empty());
                        }
                        let following: usize = if at < turns.len() {
                            at + 1
                        } else {
                            at
                        };
                        self.request_items(mailboxes, turns, following, pages, none, None)
                    },
                    Some(cursor) => {
                        if holds(&seen, cursor.as_str()) {
                            return Err(
                                ThreadFailure::Uncertain(ExternalUncertaintyReason::PageLimit),
                            );
                        }
                        let ghost before = views(seen@);
                        seen.push(cursor.clone());
                        proof {
                            assert(views(seen@) =~= before.push(cursor@));
                        }
                        self.request_items(mailboxes, turns, at, pages, seen, Some(cursor))
                    },
                }
            },
        }
    }
}

/// Content of a step's result.
pub open spec fn action_view(action: Result<ReconcileAction, ThreadFailure>) -> Result<
    ActionView,
    ThreadFailure,
> {
    match action {
        Ok(action) => Ok(action@),
        Err(failure) => Err(failure),
    }
}

/// How the durable write at the end went.
#[derive(Clone, Copy, Debug, PartialEq, Eq, Structural)]
pub enum ApplyOutcome {
    Applied,
    ConflictingTerminal,
    Stale,
    Failed,
}

/// What the durable write at the end means for the thread.
pub fn apply_result(outcome: ApplyOutcome) -> (result: Result<(), ThreadFailure>)
    ensures
        failed(result) == write_failed(outcome),
        result == (match outcome {
            ApplyOutcome::Applied => Ok::<(), ThreadFailure>(()),
            ApplyOutcome::ConflictingTerminal => Err::<(), ThreadFailure>(
                ThreadFailure::Uncertain(ExternalUncertaintyReason::ConflictingTerminal),
            ),
            ApplyOutcome::Stale => Err::<(), ThreadFailure>(
                ThreadFailure::Epoch(EpochFailure::ConnectionLost),
            ),
            ApplyOutcome::Failed => Err::<(), ThreadFailure>(
                ThreadFailure::Epoch(EpochFailure::Store),
            ),
        }),
{
    match outcome {
        ApplyOutcome::Applied => Ok(()),
        ApplyOutcome::ConflictingTerminal => Err(
            ThreadFailure::Uncertain(ExternalUncertaintyReason::ConflictingTerminal),
        ),
        ApplyOutcome::Stale => Err(ThreadFailure::Epoch(EpochFailure::ConnectionLost)),
        ApplyOutcome::Failed => Err(ThreadFailure::Epoch(EpochFailure::Store)),
    }
}

/// How many more requests a reconciliation may make at most.
pub open spec fn requests_left(stage: StageView) -> int {
    match stage {
        StageView::Resume => 2 * EXTERNAL_RECONCILE_PAGE_CAPACITY + 2,
        StageView::Read => 2 * EXTERNAL_RECONCILE_PAGE_CAPACITY + 1,
        StageView::Turns { pages, .. } => 2 * EXTERNAL_RECONCILE_PAGE_CAPACITY - pages,
        StageView::Items { pages, .. } => EXTERNAL_RECONCILE_PAGE_CAPACITY - pages + 1,
        StageView::Done => 0,
    }
}

/// A reconciliation ends whatever the server answers: every answer leaves
/// fewer requests to be made than before.
pub proof fn reconciliation_is_bounded(
    state: ReconcileView,
    buffers: BuffersView,
    response: ReconcileResponse,
)
    requires
        awaited(state.stage, response),
        match state.stage {
            StageView::Turns { pages, .. } => pages < EXTERNAL_RECONCILE_PAGE_CAPACITY,
            StageView::Items { pages, .. } => pages <= EXTERNAL_RECONCILE_PAGE_CAPACITY,
            _ => true,
        },
    ensures
        ({
            let next = reconciled(state, buffers, response).0.stage;
            &&& 0 <= requests_left(next) < requests_left(state.stage)
            &&& match next {
                StageView::Turns { pages, .. } => pages < EXTERNAL_RECONCILE_PAGE_CAPACITY,
                StageView::Items { pages, .. } => pages <= EXTERNAL_RECONCILE_PAGE_CAPACITY,
                _ => true,
            }
        }),
{
}

/// The items of a page are all listed, under the turn that was asked for and
/// under no other, and nothing but them; an item of another turn or without an
/// identifier is refused, and so is one too many.
pub proof fn items_of_a_page_are_listed(
    view: FinishedView,
    turn_id: Seq<char>,
    entries: Seq<(Seq<char>, ItemView)>,
)
    ensures
        ({
            let (next, failure) = entries_added(view, turn_id, entries);
            &&& next == (FinishedView { listed: next.listed, ..view })
            &&& forall|pair: (Seq<char>, Seq<char>)|
                view.listed.contains(pair) ==> #[trigger] next.listed.contains(pair)
            &&& forall|pair: (Seq<char>, Seq<char>)| #[trigger]
                next.listed.contains(pair) ==> view.listed.contains(pair) || (pair.0 == turn_id
                    && exists|k: int|
                    0 <= k < entries.len() && (#[trigger] entries[k]).1.id == Some(pair.1))
            &&& failure is None ==> forall|k: int|
                0 <= k < entries.len() ==> (#[trigger] entries[k]).0 == turn_id
                    && entries[k].1.id is Some && next.listed.contains(
                    (turn_id, entries[k].1.id->Some_0),
                )
            &&& next.listed.len() <= view.listed.len() + entries.len()
            &&& failure is Some ==> (failure == Some(
                ThreadFailure::Uncertain(ExternalUncertaintyReason::ProtocolViolation),
            ) && exists|k: int|
                0 <= k < entries.len() && ((#[trigger] entries[k]).0 != turn_id
                    || entries[k].1.id is None)) || (failure == Some(
                ThreadFailure::Uncertain(ExternalUncertaintyReason::PageLimit),
            ) && (view.turns.len() > EXTERNAL_RECONCILE_ENTRY_CAPACITY || view.all_turns.len()
                > EXTERNAL_RECONCILE_ENTRY_CAPACITY || view.items.len()
                > EXTERNAL_RECONCILE_ENTRY_CAPACITY || view.listed.len() + entries.len()
                > EXTERNAL_RECONCILE_ENTRY_CAPACITY))
        }),
    decreases entries.len(),
{
    if entries.len() > 0 {
        let head = entries.first();
        let rest = entries.drop_first();
        let next = entries_added(view, turn_id, entries).0;
        assert(entries[0] == head);
        assert forall|k: int| 0 <= k < rest.len() implies entries[k + 1] == #[trigger] rest[k] by {}
        if head.0 == turn_id {
            let (first, failure) = listed_added(view, turn_id, head.1);
            if let Some(item_id) = head.1.id {
                lemma_pair_added(view.listed, (turn_id, item_id));
            }
            if failure is None {
                items_of_a_page_are_listed(first, turn_id, rest);
                assert forall|pair: (Seq<char>, Seq<char>)| #[trigger]
                    next.listed.contains(pair) implies view.listed.contains(pair) || (pair.0
                    == turn_id && exists|k: int|
                    0 <= k < entries.len() && (#[trigger] entries[k]).1.id == Some(pair.1)) by {
                    if !first.listed.contains(pair) {
                        let k = choose|k: int|
                            0 <= k < rest.len() && (#[trigger] rest[k]).1.id == Some(pair.1);
                        assert(entries[k + 1].1.id == Some(pair.1));
                    } else if !view.listed.contains(pair) {
                        assert(entries[0].1.id == Some(pair.1));
                    }
                }
                if entries_added(view, turn_id, entries).1 is None {
                    assert forall|k: int| 0 <= k < entries.len() implies (#[trigger] entries[k]).0
                        == turn_id && entries[k].1.id is Some && next.listed.contains(
                        (turn_id, entries[k].1.id->Some_0),
                    ) by {
                        if k > 0 {
                            assert(rest[k - 1] == entries[k]);
                        } else {
                            assert(first.listed.contains((turn_id, entries[0].1.id->Some_0)));
                        }
                    }
                }
            }
        }
    }
}

/// A turn's items are read to the last page. While a page names a further one,
/// the next request is for the same turn, from exactly there; a cursor that
/// came before ends the reconciliation instead. Only a page that names none
/// leads to the first page of the next turn, and only that of the last turn to
/// the end.
pub proof fn item_pages_are_followed(
    state: ReconcileView,
    buffers: BuffersView,
    bytes: Option<usize>,
    entries: Vec<ItemEntry>,
    next_cursor: Option<String>,
)
    requires
        state.stage is Items,
        state.stage->Items_at < state.stage->Items_turns.len(),
        state.stage->Items_pages <= EXTERNAL_RECONCILE_PAGE_CAPACITY,
    ensures
        ({
            let turns = state.stage->Items_turns;
            let at = state.stage->Items_at;
            let seen = state.stage->Items_seen;
            let pages = state.stage->Items_pages;
            let (next, after, result) = reconciled(
                state,
                buffers,
                ReconcileResponse::Items { bytes, entries, next_cursor },
            );
            &&& next.thread_id == state.thread_id
            &&& result matches Ok(action) ==> match next_cursor {
                Some(cursor) => {
                    &&& !seen.contains(cursor@)
                    &&& action == (ActionView::ListItems {
                        turn_id: turns[at as int],
                        cursor: Some(cursor@),
                    })
                    &&& next.stage == (StageView::Items {
                        turns,
                        at,
                        pages: pages + 1,
                        seen: seen.push(cursor@),
                    })
                },
                None => if at + 1 < turns.len() {
                    &&& action == (ActionView::ListItems {
                        turn_id: turns[at as int + 1],
                        cursor: None,
                    })
                    &&& next.stage == (StageView::Items {
                        turns,
                        at: at + 1,
                        pages: pages + 1,
                        seen: Seq::empty(),
                    })
                } else {
                    &&& action is Apply
                    &&& next.stage is Done
                },
            }
            &&& result is Err ==> next.stage is Done
            &&& next_cursor matches Some(cursor) ==> (seen.contains(cursor@) ==> result is Err)
            &&& result is Ok && !(next.stage is Done) ==> forall|k: int|
                0 <= k < entries@.len() ==> (#[trigger] entries@[k]).turn_id@ == turns[at as int]
                    && entries@[k].item@.id is Some && next.finished.listed.contains(
                    (turns[at as int], entries@[k].item@.id->Some_0),
                )
        }),
{
    let views = entry_views(entries@);
    let (total, counted, failure) = answer_counted(state.finished.bytes, buffers, bytes);
    let sized = FinishedView { bytes: total, ..state.finished };
    items_of_a_page_are_listed(
        sized,
        state.stage->Items_turns[state.stage->Items_at as int],
        views,
    );
    assert forall|k: int| 0 <= k < entries@.len() implies views[k].0 == (
    #[trigger] entries@[k]).turn_id@ && views[k].1 == entries@[k].item@ by {}
}

/// A page of items that is sound leads on: whatever is within the bounds and
/// belongs to the turn that was asked for is taken, and the reading goes on.
pub proof fn sound_item_pages_are_taken(
    state: ReconcileView,
    buffers: BuffersView,
    size: usize,
    entries: Vec<ItemEntry>,
    next_cursor: Option<String>,
)
    requires
        state.stage is Items,
        state.stage->Items_at < state.stage->Items_turns.len(),
        state.stage->Items_pages < EXTERNAL_RECONCILE_PAGE_CAPACITY,
        state.finished.bytes + size <= EXTERNAL_RECONCILE_THREAD_BYTES,
        buffers.endpoint_bytes + size <= EXTERNAL_RECONCILE_ENDPOINT_BYTES,
        state.finished.turns.len() <= EXTERNAL_RECONCILE_ENTRY_CAPACITY,
        state.finished.all_turns.len() <= EXTERNAL_RECONCILE_ENTRY_CAPACITY,
        state.finished.items.len() <= EXTERNAL_RECONCILE_ENTRY_CAPACITY,
        state.finished.listed.len() + entries@.len() <= EXTERNAL_RECONCILE_ENTRY_CAPACITY,
        forall|k: int|
            0 <= k < entries@.len() ==> (#[trigger] entries@[k]).turn_id@
                == state.stage->Items_turns[state.stage->Items_at as int]
                && entries@[k].item@.id is Some,
        next_cursor matches Some(cursor) ==> !state.stage->Items_seen.contains(cursor@),
        next_cursor is None ==> state.stage->Items_at + 1 < state.stage->Items_turns.len(),
    ensures
        ({
            let (next, after, result) = reconciled(
                state,
                buffers,
                ReconcileResponse::Items { bytes: Some(size), entries, next_cursor },
            );
            &&& result is Ok
            &&& next.finished.bytes == state.finished.bytes + size
            &&& after.endpoint_bytes == buffers.endpoint_bytes + size
        }),
{
    let views = entry_views(entries@);
    let (total, counted, failure) = answer_counted(state.finished.bytes, buffers, Some(size));
    let sized = FinishedView { bytes: total, ..state.finished };
    items_of_a_page_are_listed(
        sized,
        state.stage->Items_turns[state.stage->Items_at as int],
        views,
    );
    assert forall|k: int| 0 <= k < views.len() implies (#[trigger] views[k]).0
        == entries@[k].turn_id@ && views[k].1 == entries@[k].item@ by {}
}

proof fn lemma_ordered_holds<T: Ranked>(list: Seq<T::V>)
    ensures
        ordered::<T>(list).len() == list.len(),
        forall|entry: T::V| #[trigger] ordered::<T>(list).contains(entry) <==> list.contains(entry),
{
    broadcast use vstd::seq_lib::group_to_multiset_ensures;

    ordering_keeps_the_entries::<T>(list);
    assert(ordered::<T>(list).to_multiset().len() == ordered::<T>(list).len());
    assert(list.to_multiset().len() == list.len());
    assert forall|entry: T::V| #[trigger]
        ordered::<T>(list).contains(entry) <==> list.contains(entry) by {
        assert(ordered::<T>(list).to_multiset().count(entry) == list.to_multiset().count(entry));
    }
}

proof fn lemma_known_turns(finished: FinishedView, turn_id: Seq<char>)
    ensures
        known_turns(finished).len() == finished.all_turns.len(),
        known_turns(finished).contains(turn_id) <==> has_key(finished.all_turns, turn_id),
{
    let keys = finished.all_turns.map_values(|entry: (Seq<char>, ())| entry.0);
    lemma_ordered_holds::<String>(keys);
    if keys.contains(turn_id) {
        let k = choose|k: int| 0 <= k < keys.len() && keys[k] == turn_id;
        assert(finished.all_turns[k].0 == turn_id);
    }
    if has_key(finished.all_turns, turn_id) {
        let k = choose|k: int|
            0 <= k < finished.all_turns.len() && (#[trigger] finished.all_turns[k]).0 == turn_id;
        assert(keys[k] == turn_id);
    }
}

/// The turns of a thread are read to the last page in the same way, and only
/// the last one leads to the items: of every turn that any page, the resume or
/// the read named, one after the other from the first.
pub proof fn turn_pages_are_followed(
    state: ReconcileView,
    buffers: BuffersView,
    bytes: Option<usize>,
    turns: Vec<Turn>,
    next_cursor: Option<String>,
    turn_id: Seq<char>,
)
    requires
        state.stage is Turns,
        state.stage->Turns_pages < EXTERNAL_RECONCILE_PAGE_CAPACITY,
        unique_keys(state.finished.turns),
        unique_keys(state.finished.all_turns),
    ensures
        ({
            let seen = state.stage->Turns_seen;
            let (next, after, result) = reconciled(
                state,
                buffers,
                ReconcileResponse::Turns { bytes, turns, next_cursor },
            );
            let named = has_key(state.finished.all_turns, turn_id) || exists|k: int|
                0 <= k < turns@.len() && (#[trigger] turns@[k])@.id == turn_id;
            &&& next.thread_id == state.thread_id
            &&& result is Err ==> next.stage is Done
            &&& result matches Ok(action) ==> match next_cursor {
                Some(cursor) => {
                    &&& !seen.contains(cursor@)
                    &&& action == (ActionView::ListTurns { cursor: Some(cursor@) })
                    &&& next.stage == (StageView::Turns {
                        pages: state.stage->Turns_pages + 1,
                        seen: seen.push(cursor@),
                    })
                    &&& has_key(next.finished.all_turns, turn_id) <==> named
                },
                None => match next.stage {
                    StageView::Items { turns: to_read, at, pages, seen: fresh } => {
                        &&& at == 0 && pages == 1 && fresh.len() == 0
                        &&& to_read.contains(turn_id) <==> named
                        &&& to_read.len() > 0
                        &&& action == (ActionView::ListItems {
                            turn_id: to_read[0],
                            cursor: None,
                        })
                    },
                    StageView::Done => action is Apply && !named,
                    _ => false,
                },
            }
            &&& next_cursor matches Some(cursor) ==> (seen.contains(cursor@) ==> result is Err)
        }),
{
    let views = turn_views(turns@);
    let (total, counted, failure) = answer_counted(state.finished.bytes, buffers, bytes);
    let sized = FinishedView { bytes: total, ..state.finished };
    let (added, refused) = turns_added(sized, views);
    assert forall|k: int| 0 <= k < turns@.len() implies views[k] == (#[trigger] turns@[k])@ by {}
    if refused is None {
        whole_snapshots_are_recorded(sized, views, turn_id);
        lemma_known_turns(added, turn_id);
        if exists|k: int| 0 <= k < views.len() && (#[trigger] views[k]).id == turn_id {
            let k = choose|k: int| 0 <= k < views.len() && (#[trigger] views[k]).id == turn_id;
            assert(turns@[k]@.id == turn_id);
        }
    }
}

/// A page of turns, and the answer to the resume and the read, are taken where
/// they are sound; the thread must be the one that was asked for. A resume is
/// followed by a read, and a read by the first page of turns.
pub proof fn snapshots_are_followed(
    state: ReconcileView,
    buffers: BuffersView,
    bytes: Option<usize>,
    id: String,
    turns: Vec<Turn>,
)
    requires
        state.stage is Resume || state.stage is Read,
    ensures
        ({
            let (next, after, result) = reconciled(
                state,
                buffers,
                ReconcileResponse::Thread { bytes, id, turns },
            );
            let violation = ThreadFailure::Uncertain(ExternalUncertaintyReason::ProtocolViolation);
            &&& next.thread_id == state.thread_id
            &&& result matches Ok(action) ==> {
                &&& id@ == state.thread_id
                &&& state.stage is Resume ==> action is Read && next.stage is Read
                &&& state.stage is Read ==> action == (ActionView::ListTurns { cursor: None })
                    && next.stage == (StageView::Turns { pages: 0, seen: Seq::empty() })
            }
            &&& result is Err ==> next.stage is Done
            &&& bytes matches Some(size) ==> (state.finished.bytes + size
                <= EXTERNAL_RECONCILE_THREAD_BYTES && buffers.endpoint_bytes + size
                <= EXTERNAL_RECONCILE_ENDPOINT_BYTES && id@ != state.thread_id ==> result == Err::<
                ActionView,
                ThreadFailure,
            >(violation))
            &&& bytes matches Some(size) ==> (state.finished.bytes + size
                <= EXTERNAL_RECONCILE_THREAD_BYTES && buffers.endpoint_bytes + size
                <= EXTERNAL_RECONCILE_ENDPOINT_BYTES && id@ == state.thread_id ==> {
                let sized = FinishedView {
                    bytes: (state.finished.bytes + size) as usize,
                    ..state.finished
                };
                &&& next.finished == turns_added(sized, turn_views(turns@)).0
                &&& result is Ok <==> turns_added(sized, turn_views(turns@)).1 is None
            })
        }),
{
}

/// What is written at the end is everything that is known by then, and nothing
/// else: every turn that ended, with how, whether a snapshot or an event that
/// came meanwhile said so; every item that finished; and of the listed items
/// those whose turn ended. A thread whose events overflowed writes nothing.
pub proof fn everything_finished_is_written(
    state: ReconcileView,
    buffers: BuffersView,
    turn_id: Seq<char>,
    pair: (Seq<char>, Seq<char>),
)
    requires
        unique_keys(state.finished.turns),
        buffers_bounded(buffers),
    ensures
        ({
            let (next, after, result) = concluded(state, buffers);
            let events = buffer_of(buffers, state.thread_id).events;
            let known = events_added(state.finished, events).0;
            &&& next.stage is Done
            &&& lookup(after.overflow, state.thread_id) is None
            &&& lookup(buffers.overflow, state.thread_id) matches Some(reason) ==> result == Err::<
                ActionView,
                ThreadFailure,
            >(ThreadFailure::Uncertain(reason))
            &&& lookup(buffers.overflow, state.thread_id) is None ==> buffer_of(
                after,
                state.thread_id,
            ).events.len() == 0
            &&& result matches Ok(action) ==> {
                &&& action is Apply
                &&& lookup(buffers.overflow, state.thread_id) is None
                &&& events_added(state.finished, events).1 is None
                &&& forall|status: ExternalTerminalStatus| #[trigger]
                    action->Apply_turns.contains((turn_id, status)) <==> lookup(
                        known.turns,
                        turn_id,
                    ) == Some(status)
                &&& has_key(state.finished.turns, turn_id) ==> lookup(known.turns, turn_id)
                    == lookup(state.finished.turns, turn_id)
                &&& action->Apply_items.contains(pair) <==> known.items.contains(pair) || (
                state.finished.listed.contains(pair) && has_key(known.turns, pair.0))
                &&& state.finished.items.contains(pair) ==> action->Apply_items.contains(pair)
            }
            &&& lookup(buffers.overflow, state.thread_id) is None && events_added(
                state.finished,
                events,
            ).1 is None && known.items.len() + known.listed.len()
                <= EXTERNAL_RECONCILE_ENTRY_CAPACITY && known.turns.len()
                <= EXTERNAL_RECONCILE_ENTRY_CAPACITY && known.all_turns.len()
                <= EXTERNAL_RECONCILE_ENTRY_CAPACITY ==> result is Ok
        }),
{
    let unmarked = BuffersView {
        overflow: unbind(buffers.overflow, state.thread_id),
        ..buffers
    };
    lemma_unbind_lookup(buffers.overflow, state.thread_id, state.thread_id);
    lemma_bind_unique(buffers.overflow, state.thread_id, ExternalUncertaintyReason::PageLimit);
    taken_events_give_back_their_bytes(unmarked, state.thread_id, state.thread_id);
    let events = buffer_of(buffers, state.thread_id).events;
    let (known, failure) = events_added(state.finished, events);
    if failure is None {
        events_are_recorded(state.finished, events, turn_id);
        folded_items_belong_to_ended_turns(known.items, known.listed, known.turns, pair);
        lemma_folded_len(known.items, known.listed, known.turns);
        let next = folded(known).0;
        lemma_ordered_holds::<(String, ExternalTerminalStatus)>(next.turns);
        lemma_ordered_holds::<(String, String)>(next.items);
        assert forall|status: ExternalTerminalStatus| #[trigger]
            next.turns.contains((turn_id, status)) <==> lookup(known.turns, turn_id) == Some(
                status,
            ) by {
            if known.turns.contains((turn_id, status)) {
                let k = choose|k: int|
                    0 <= k < known.turns.len() && known.turns[k] == (turn_id, status);
                lemma_key_index(known.turns, k);
            }
            if has_key(known.turns, turn_id) {
                let k = key_index(known.turns, turn_id);
                assert(known.turns[k].0 == turn_id);
                assert(known.turns[k] == (turn_id, value_of(known.turns, turn_id)));
            }
        }
    }
}

proof fn lemma_folded_len(
    items: Seq<(Seq<char>, Seq<char>)>,
    listed: Seq<(Seq<char>, Seq<char>)>,
    turns: Seq<(Seq<char>, ExternalTerminalStatus)>,
)
    ensures
        items_folded(items, listed, turns).len() <= items.len() + listed.len(),
    decreases listed.len(),
{
    if listed.len() > 0 {
        let next = if has_key(turns, listed.first().0) {
            pair_added(items, listed.first())
        } else {
            items
        };
        lemma_folded_len(next, listed.drop_first(), turns);
    }
}

/// Why a thread is not settled by its durable write, where it is not.
pub open spec fn write_failed(outcome: ApplyOutcome) -> Option<ThreadFailure> {
    match outcome {
        ApplyOutcome::Applied => None,
        ApplyOutcome::ConflictingTerminal => uncertain(
            ExternalUncertaintyReason::ConflictingTerminal,
        ),
        ApplyOutcome::Stale => Some(ThreadFailure::Epoch(EpochFailure::ConnectionLost)),
        ApplyOutcome::Failed => Some(ThreadFailure::Epoch(EpochFailure::Store)),
    }
}

/// A contradiction concerns the thread alone; a write out of date, or one that
/// the store could not make, the whole epoch.
pub proof fn contradictions_concern_the_thread(outcome: ApplyOutcome)
    ensures
        write_failed(outcome) is None <==> outcome == ApplyOutcome::Applied,
        write_failed(outcome) == Some(
            ThreadFailure::Uncertain(ExternalUncertaintyReason::ConflictingTerminal),
        ) <==> outcome == ApplyOutcome::ConflictingTerminal,
        write_failed(outcome) == Some(
            ThreadFailure::Epoch(EpochFailure::ConnectionLost),
        ) <==> outcome == ApplyOutcome::Stale,
        write_failed(outcome) == Some(ThreadFailure::Epoch(EpochFailure::Store)) <==> outcome
            == ApplyOutcome::Failed,
{
}

} // verus!
