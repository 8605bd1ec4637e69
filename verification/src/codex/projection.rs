//! What one thread is known to have done: started turns and items, completed
//! items, token counts and retained outcomes.
use vstd::prelude::*;

use crate::codex::client::outcome_memory_weight;
use crate::codex::client::outcome_weight;
use crate::codex::client::OutcomeView;
use crate::codex::client::SubscriptionInvalidation;
use crate::codex::client::ThreadId;
use crate::codex::client::TurnId;
use crate::codex::client::TurnOutcome;
use crate::codex::types::saturated;
use crate::codex::types::text_bytes;
use crate::codex::types::ItemView;
use crate::codex::types::ThreadItem;
use crate::codex::types::TokenUsageBreakdown;
use crate::codex::types::Turn;
use crate::codex::types::TurnView;
use crate::json::Json;
use crate::keyed::bind;
use crate::keyed::has_key;
use crate::keyed::key_index;
use crate::keyed::lemma_bind_lookup;
use crate::keyed::lemma_bind_unique;
use crate::keyed::lemma_key_index;
use crate::keyed::lemma_unbind_lookup;
use crate::keyed::lookup;
use crate::keyed::unbind;
use crate::keyed::unique_keys;
use crate::keyed::value_of;
use crate::keyed::Keyed;
use crate::limits::ROUTING_ID_BYTE_LIMIT;
use crate::limits::THREAD_EVENT_CAPACITY;
use crate::limits::THREAD_OUTCOME_CAPACITY;
use crate::limits::THREAD_PROJECTION_BYTE_BUDGET;
use crate::limits::THREAD_TERMINAL_CAPACITY;
use crate::text::byte_len;

verus! {

/// What one more completed item is to those before it.
#[derive(Clone, Copy, Debug, PartialEq, Eq, Structural)]
pub enum ItemUpsert {
    New,
    Same,
    Conflict,
}

/// Content of the completed items of one turn: fingerprints by item
/// identifier, and fingerprints of items without one.
pub struct CompletedView {
    pub by_id: Seq<(Seq<char>, u64)>,
    pub anonymous: Seq<u64>,
}

/// Bytes of all keys.
pub open spec fn key_bytes<W>(entries: Seq<(Seq<char>, W)>) -> int
    decreases entries.len(),
{
    if entries.len() == 0 {
        0
    } else {
        key_bytes(entries.drop_last()) + byte_len(entries.last().0)
    }
}

proof fn lemma_key_bytes_nonnegative<W>(entries: Seq<(Seq<char>, W)>)
    ensures
        key_bytes(entries) >= 0,
    decreases entries.len(),
{
    if entries.len() > 0 {
        lemma_key_bytes_nonnegative(entries.drop_last());
    }
}

proof fn lemma_key_bytes_update<W>(entries: Seq<(Seq<char>, W)>, at: int, value: W)
    requires
        0 <= at < entries.len(),
    ensures
        key_bytes(entries.update(at, (entries[at].0, value))) == key_bytes(entries),
    decreases entries.len(),
{
    let next = entries.update(at, (entries[at].0, value));
    if at == entries.len() - 1 {
        assert(next.drop_last() =~= entries.drop_last());
    } else {
        lemma_key_bytes_update(entries.drop_last(), at, value);
        assert(next.drop_last() =~= entries.drop_last().update(at, (entries[at].0, value)));
    }
}

/// The completed items of a turn after one more, and what that one was.
pub open spec fn upserted(items: CompletedView, item: ItemView) -> (CompletedView, ItemUpsert) {
    match item.id {
        Some(id) => (
            CompletedView { by_id: bind(items.by_id, id, item.fingerprint), ..items },
            match lookup(items.by_id, id) {
                None => ItemUpsert::New,
                Some(previous) => if previous == item.fingerprint {
                    ItemUpsert::Same
                } else {
                    ItemUpsert::Conflict
                },
            },
        ),
        None => if items.anonymous.contains(item.fingerprint) {
            (items, ItemUpsert::Same)
        } else {
            (
                CompletedView { anonymous: items.anonymous.push(item.fingerprint), ..items },
                ItemUpsert::New,
            )
        },
    }
}

/// No completed items.
pub open spec fn no_items() -> CompletedView {
    CompletedView { by_id: Seq::empty(), anonymous: Seq::empty() }
}

/// Number of completed items.
pub open spec fn item_count(items: CompletedView) -> int {
    (items.by_id.len() + items.anonymous.len()) as int
}

/// Bytes that the completed items of one turn retain.
pub open spec fn retained(items: CompletedView) -> int {
    key_bytes(items.by_id) + 8 * items.anonymous.len()
}

/// Completed items of one turn.
pub struct CompletedItems {
    by_id: Keyed<u64>,
    anonymous: Vec<u64>,
    retained_bytes: usize,
}

impl View for CompletedItems {
    type V = CompletedView;

    closed spec fn view(&self) -> CompletedView {
        CompletedView { by_id: self.by_id@, anonymous: self.anonymous@ }
    }
}

impl CompletedItems {
    pub closed spec fn wf(&self) -> bool {
        &&& unique_keys(self.by_id@)
        &&& self.retained_bytes == saturated(key_bytes(self.by_id@))
    }

    pub fn new() -> (items: CompletedItems)
        ensures
            items.wf(),
            items@ == no_items(),
    {
        CompletedItems { by_id: Keyed::new(), anonymous: Vec::new(), retained_bytes: 0 }
    }

    /// No identifier stands twice among the completed items.
    pub proof fn lemma_unique_ids(&self)
        requires
            self.wf(),
        ensures
            unique_keys(self@.by_id),
    {
    }

    /// Takes one more item in.
    pub fn upsert(&mut self, item: &ThreadItem) -> (kind: ItemUpsert)
        requires
            old(self).wf(),
        ensures
            final(self).wf(),
            (final(self)@, kind) == upserted(old(self)@, item@),
    {
        let fingerprint: u64 = item.fingerprint;
        match &item.id {
            Some(id) => {
                let ghost entries = self.by_id@;
                let kind = match self.by_id.position(id.as_str()) {
                    Some(at) => {
                        proof {
                            lemma_key_bytes_update(entries, at as int, fingerprint);
                        }
                        if *self.by_id.value_at(at) == fingerprint {
                            ItemUpsert::Same
                        } else {
                            ItemUpsert::Conflict
                        }
                    },
                    None => {
                        proof {
                            lemma_key_bytes_nonnegative(entries);
                            assert(entries.push((id@, fingerprint)).drop_last() =~= entries);
                        }
                        self.retained_bytes = self.retained_bytes.saturating_add(
                            text_bytes(id.as_str()),
                        );
                        ItemUpsert::New
                    },
                };
                self.by_id.set(id.as_str(), fingerprint);
                kind
            },
            None => {
                let mut at: usize = 0;
                while at < self.anonymous.len()
                    invariant
                        self.wf(),
                        *self == *old(self),
                        at <= self.anonymous@.len(),
                        forall|k: int| 0 <= k < at ==> self.anonymous@[k] != fingerprint,
                        item.id is None,
                        item.fingerprint == fingerprint,
                    decreases self.anonymous@.len() - at,
                {
                    if self.anonymous[at] == fingerprint {
                        return ItemUpsert::Same;
                    }
                    at += 1;
                }
                self.anonymous.push(fingerprint);
                ItemUpsert::New
            },
        }
    }

    pub fn len(&self) -> (length: usize)
        ensures
            length == saturated(item_count(self@)),
    {
        self.by_id.len().saturating_add(self.anonymous.len())
    }

    pub fn retained_bytes(&self) -> (bytes: usize)
        requires
            self.wf(),
        ensures
            bytes == saturated(retained(self@)),
    {
        let anonymous: usize = match self.anonymous.len().checked_mul(8) {
            Some(bytes) => bytes,
            None => usize::MAX,
        };
        proof {
            lemma_key_bytes_nonnegative(self.by_id@);
        }
        self.retained_bytes.saturating_add(anonymous)
    }
}

/// A completed item that comes once more is the same item and changes nothing;
/// the number of items grows by one for a new item and for no other.
pub proof fn repeated_items_are_the_same(items: CompletedView, item: ItemView)
    requires
        unique_keys(items.by_id),
    ensures
        ({
            let (next, kind) = upserted(items, item);
            &&& upserted(next, item) == (next, ItemUpsert::Same)
            &&& item_count(next) == item_count(items) + if kind == ItemUpsert::New {
                1int
            } else {
                0int
            }
            &&& unique_keys(next.by_id)
        }),
{
    let (next, kind) = upserted(items, item);
    match item.id {
        Some(id) => {
            lemma_bind_unique(items.by_id, id, item.fingerprint);
            lemma_bind_lookup(items.by_id, id, item.fingerprint, id);
            let at = key_index(next.by_id, id);
            assert(next.by_id[at].0 == id);
            assert(bind(next.by_id, id, item.fingerprint) =~= next.by_id);
        },
        None => {
            if kind == ItemUpsert::New {
                assert(next.anonymous[items.anonymous.len() as int] == item.fingerprint);
            }
        },
    }
}

/// One retained outcome.
pub struct OutcomeRecord {
    pub outcome: TurnOutcome,
    pub fingerprint: u64,
    pub weight: usize,
}

/// Content of one retained outcome.
pub struct RecordView {
    pub outcome: OutcomeView,
    pub fingerprint: u64,
}

impl View for OutcomeRecord {
    type V = RecordView;

    open spec fn view(&self) -> RecordView {
        RecordView { outcome: self.outcome@, fingerprint: self.fingerprint }
    }
}

/// Bytes that the retained outcomes take.
pub open spec fn outcome_bytes(outcomes: Seq<(Seq<char>, RecordView)>) -> int
    decreases outcomes.len(),
{
    if outcomes.len() == 0 {
        0
    } else {
        outcome_bytes(outcomes.drop_last()) + outcome_weight(outcomes.last().1.outcome)
    }
}

/// Bytes that the completed items of all turns take.
pub open spec fn completed_bytes(completed: Seq<(Seq<char>, CompletedView)>) -> int
    decreases completed.len(),
{
    if completed.len() == 0 {
        0
    } else {
        completed_bytes(completed.drop_last()) + retained(completed.last().1)
    }
}

proof fn lemma_outcome_weight_nonnegative(outcome: OutcomeView)
    ensures
        outcome_weight(outcome) >= 0,
{
    crate::codex::client::lemma_items_weight_nonnegative(
        outcome.completed_items,
        THREAD_PROJECTION_BYTE_BUDGET as int,
    );
}

proof fn lemma_outcome_bytes_nonnegative(outcomes: Seq<(Seq<char>, RecordView)>)
    ensures
        outcome_bytes(outcomes) >= 0,
    decreases outcomes.len(),
{
    if outcomes.len() > 0 {
        lemma_outcome_bytes_nonnegative(outcomes.drop_last());
        lemma_outcome_weight_nonnegative(outcomes.last().1.outcome);
    }
}

proof fn lemma_outcome_bytes_first(outcomes: Seq<(Seq<char>, RecordView)>)
    requires
        outcomes.len() > 0,
    ensures
        outcome_bytes(outcomes) == outcome_weight(outcomes.first().1.outcome) + outcome_bytes(
            outcomes.drop_first(),
        ),
    decreases outcomes.len(),
{
    if outcomes.len() == 1 {
        assert(outcomes.drop_first() =~= Seq::empty());
        assert(outcomes.drop_last() =~= Seq::empty());
    } else {
        lemma_outcome_bytes_first(outcomes.drop_last());
        assert(outcomes.drop_first().drop_last() =~= outcomes.drop_last().drop_first());
    }
}

proof fn lemma_completed_bytes_nonnegative(completed: Seq<(Seq<char>, CompletedView)>)
    ensures
        completed_bytes(completed) >= 0,
    decreases completed.len(),
{
    if completed.len() > 0 {
        lemma_completed_bytes_nonnegative(completed.drop_last());
        lemma_key_bytes_nonnegative(completed.last().1.by_id);
    }
}

proof fn lemma_completed_bytes_update(
    completed: Seq<(Seq<char>, CompletedView)>,
    at: int,
    items: CompletedView,
)
    requires
        0 <= at < completed.len(),
    ensures
        completed_bytes(completed.update(at, (completed[at].0, items))) == completed_bytes(
            completed,
        ) - retained(completed[at].1) + retained(items),
        completed_bytes(completed.remove(at)) == completed_bytes(completed) - retained(
            completed[at].1,
        ),
        0 <= retained(completed[at].1) <= completed_bytes(completed),
    decreases completed.len(),
{
    let next = completed.update(at, (completed[at].0, items));
    let rest = completed.remove(at);
    lemma_key_bytes_nonnegative(completed[at].1.by_id);
    if at == completed.len() - 1 {
        assert(next.drop_last() =~= completed.drop_last());
        assert(rest =~= completed.drop_last());
        lemma_completed_bytes_nonnegative(completed.drop_last());
    } else {
        lemma_completed_bytes_update(completed.drop_last(), at, items);
        assert(next.drop_last() =~= completed.drop_last().update(at, (completed[at].0, items)));
        assert(rest.drop_last() =~= completed.drop_last().remove(at));
        assert(rest.last() == completed.last());
        lemma_key_bytes_nonnegative(completed.last().1.by_id);
    }
}

/// Content of a projection.
pub struct ProjectionView {
    pub thread_started: bool,
    pub invalidated: Option<SubscriptionInvalidation>,
    pub started_turns: Seq<(Seq<char>, ())>,
    pub active_turns: Seq<(Seq<char>, ())>,
    pub started_items: Seq<(Seq<char>, Seq<char>)>,
    pub completed: Seq<(Seq<char>, CompletedView)>,
    pub usage: Seq<(Seq<char>, Json)>,
    pub outcomes: Seq<(Seq<char>, RecordView)>,
}

/// Whether every text of the projection fits a machine length, each list is
/// within its bound and no key occurs twice.
pub open spec fn projection_bounded(projection: ProjectionView) -> bool {
    &&& unique_keys(projection.started_turns)
    &&& unique_keys(projection.active_turns)
    &&& unique_keys(projection.completed)
    &&& unique_keys(projection.usage)
    &&& unique_keys(projection.outcomes)
    &&& projection.started_items.no_duplicates()
    &&& projection.started_turns.len() <= THREAD_TERMINAL_CAPACITY
    &&& projection.started_items.len() <= THREAD_EVENT_CAPACITY
    &&& projection.completed.len() <= THREAD_TERMINAL_CAPACITY
    &&& completed_bytes(projection.completed) <= THREAD_PROJECTION_BYTE_BUDGET
    &&& projection.usage.len() <= THREAD_TERMINAL_CAPACITY
    &&& projection.outcomes.len() <= THREAD_OUTCOME_CAPACITY
    &&& outcome_bytes(projection.outcomes) <= THREAD_PROJECTION_BYTE_BUDGET
}

/// The projection of a thread of which nothing is known.
pub open spec fn blank_projection() -> ProjectionView {
    ProjectionView {
        thread_started: false,
        invalidated: None,
        started_turns: Seq::empty(),
        active_turns: Seq::empty(),
        started_items: Seq::empty(),
        completed: Seq::empty(),
        usage: Seq::empty(),
        outcomes: Seq::empty(),
    }
}

/// The projection after it stopped being reliable: only what has finished is
/// kept.
pub open spec fn projection_invalidated(
    projection: ProjectionView,
    reason: SubscriptionInvalidation,
) -> ProjectionView {
    ProjectionView {
        thread_started: projection.thread_started,
        invalidated: Some(reason),
        outcomes: projection.outcomes,
        ..blank_projection()
    }
}

/// What a report about a thread leads to.
#[derive(Clone, Copy, Debug, PartialEq, Eq, Structural)]
pub enum Effect {
    /// Nobody is told.
    Quiet,
    /// Subscribers are told.
    Announce,
    /// The report broke the contract; the projection is invalidated.
    Drift,
}

/// Whether a text is over the bound for identifiers.
pub open spec fn oversized(text: Seq<char>) -> bool {
    byte_len(text) > ROUTING_ID_BYTE_LIMIT
}

/// The projection after a report of drift.
pub open spec fn drifted(projection: ProjectionView) -> (ProjectionView, Effect) {
    (
        projection_invalidated(projection, SubscriptionInvalidation::ProtocolDrift),
        Effect::Drift,
    )
}

/// The projection after the thread started.
pub open spec fn after_thread_started(projection: ProjectionView) -> (ProjectionView, Effect) {
    if projection.invalidated is Some || projection.thread_started {
        (projection, Effect::Quiet)
    } else {
        (ProjectionView { thread_started: true, ..projection }, Effect::Announce)
    }
}

/// The projection after a turn started.
pub open spec fn after_turn_started(projection: ProjectionView, turn_id: Seq<char>) -> (
    ProjectionView,
    Effect,
) {
    if oversized(turn_id) || (projection.started_turns.len() >= THREAD_TERMINAL_CAPACITY
        && !has_key(projection.started_turns, turn_id)) {
        drifted(projection)
    } else if projection.invalidated is Some || has_key(projection.outcomes, turn_id) {
        (projection, Effect::Quiet)
    } else {
        (
            ProjectionView {
                started_turns: bind(projection.started_turns, turn_id, ()),
                active_turns: bind(projection.active_turns, turn_id, ()),
                ..projection
            },
            if has_key(projection.started_turns, turn_id) {
                Effect::Quiet
            } else {
                Effect::Announce
            },
        )
    }
}

/// The projection after an item started.
pub open spec fn after_item_started(
    projection: ProjectionView,
    turn_id: Seq<char>,
    item_id: Option<Seq<char>>,
) -> (ProjectionView, Effect) {
    match item_id {
        None => (projection, Effect::Announce),
        Some(item_id) => if oversized(item_id) || oversized(turn_id) || (
        projection.started_items.len() >= THREAD_EVENT_CAPACITY
            && !projection.started_items.contains((turn_id, item_id))) {
            drifted(projection)
        } else if projection.started_items.contains((turn_id, item_id)) {
            (projection, Effect::Quiet)
        } else {
            (
                ProjectionView {
                    started_items: projection.started_items.push((turn_id, item_id)),
                    ..projection
                },
                Effect::Announce,
            )
        },
    }
}

/// The completed items that a turn has so far.
pub open spec fn items_so_far(projection: ProjectionView, turn_id: Seq<char>) -> CompletedView {
    match lookup(projection.completed, turn_id) {
        Some(items) => items,
        None => no_items(),
    }
}

/// The projection after an item completed.
pub open spec fn after_item_completed(
    projection: ProjectionView,
    turn_id: Seq<char>,
    item: ItemView,
) -> (ProjectionView, Effect) {
    if has_key(projection.outcomes, turn_id) {
        (projection, Effect::Quiet)
    } else if !has_key(projection.completed, turn_id) && projection.completed.len()
        >= THREAD_TERMINAL_CAPACITY {
        drifted(projection)
    } else {
        let (items, kind) = upserted(items_so_far(projection, turn_id), item);
        let completed = bind(projection.completed, turn_id, items);
        if kind == ItemUpsert::Conflict || oversized(turn_id) || item_count(items)
            > THREAD_EVENT_CAPACITY || completed_bytes(completed) > THREAD_PROJECTION_BYTE_BUDGET {
            drifted(projection)
        } else {
            (
                ProjectionView { completed, ..projection },
                if kind == ItemUpsert::New {
                    Effect::Announce
                } else {
                    Effect::Quiet
                },
            )
        }
    }
}

/// The projection after token counts came for a turn.
pub open spec fn after_usage(projection: ProjectionView, turn_id: Seq<char>, usage: Json) -> (
    ProjectionView,
    Effect,
) {
    if oversized(turn_id) {
        drifted(projection)
    } else if has_key(projection.outcomes, turn_id) {
        (projection, Effect::Announce)
    } else if !has_key(projection.usage, turn_id) && projection.usage.len()
        >= THREAD_TERMINAL_CAPACITY {
        drifted(projection)
    } else {
        (
            ProjectionView { usage: bind(projection.usage, turn_id, usage), ..projection },
            Effect::Announce,
        )
    }
}

/// The started items of other turns.
pub open spec fn without_turn(items: Seq<(Seq<char>, Seq<char>)>, turn_id: Seq<char>) -> Seq<
    (Seq<char>, Seq<char>),
> {
    items.filter(|pair: (Seq<char>, Seq<char>)| pair.0 != turn_id)
}

/// Whether one more outcome of a weight fits beside those retained.
pub open spec fn outcome_fits(outcomes: Seq<(Seq<char>, RecordView)>, weight: int) -> bool {
    outcomes.len() < THREAD_OUTCOME_CAPACITY && outcome_bytes(outcomes) + weight
        <= THREAD_PROJECTION_BYTE_BUDGET
}

/// The retained outcomes without the fewest oldest ones that must go for one
/// more to fit.
pub open spec fn make_room(outcomes: Seq<(Seq<char>, RecordView)>, weight: int) -> Seq<
    (Seq<char>, RecordView),
>
    decreases outcomes.len(),
{
    if outcomes.len() == 0 || outcome_fits(outcomes, weight) {
        outcomes
    } else {
        make_room(outcomes.drop_first(), weight)
    }
}

/// The outcome that a finished turn leaves.
pub open spec fn outcome_of(
    projection: ProjectionView,
    thread_id: Seq<char>,
    turn: TurnView,
) -> OutcomeView {
    OutcomeView {
        thread_id,
        turn_id: turn.id,
        status: turn.status,
        error: turn.error,
        completed_items: turn.items,
        token_usage: lookup(projection.usage, turn.id),
    }
}

/// The projection after a turn completed.
pub open spec fn after_turn_completed(
    projection: ProjectionView,
    thread_id: Seq<char>,
    turn: TurnView,
) -> (ProjectionView, Effect) {
    let outcome = outcome_of(projection, thread_id, turn);
    if oversized(turn.id) {
        drifted(projection)
    } else if has_key(projection.outcomes, turn.id) {
        if value_of(projection.outcomes, turn.id).fingerprint == turn.fingerprint {
            (projection, Effect::Quiet)
        } else {
            drifted(projection)
        }
    } else if outcome_weight(outcome) > THREAD_PROJECTION_BYTE_BUDGET {
        drifted(projection)
    } else {
        (
            ProjectionView {
                started_turns: unbind(projection.started_turns, turn.id),
                active_turns: unbind(projection.active_turns, turn.id),
                started_items: without_turn(projection.started_items, turn.id),
                completed: unbind(projection.completed, turn.id),
                usage: unbind(projection.usage, turn.id),
                outcomes: make_room(projection.outcomes, outcome_weight(outcome)).push(
                    (turn.id, RecordView { outcome, fingerprint: turn.fingerprint }),
                ),
                ..projection
            },
            Effect::Announce,
        )
    }
}

/// Content of one started item.
pub open spec fn pair_view(pair: (TurnId, String)) -> (Seq<char>, Seq<char>) {
    (pair.0@, pair.1@)
}

/// What one thread is known to have done.
pub struct ThreadProjection {
    thread_started: bool,
    invalidated: Option<SubscriptionInvalidation>,
    started_turns: Keyed<()>,
    active_turns: Keyed<()>,
    started_items: Vec<(TurnId, String)>,
    completed: Keyed<CompletedItems>,
    completed_id_bytes: usize,
    usage: Keyed<TokenUsageBreakdown>,
    outcomes: Keyed<OutcomeRecord>,
    outcome_bytes: usize,
}

impl View for ThreadProjection {
    type V = ProjectionView;

    closed spec fn view(&self) -> ProjectionView {
        ProjectionView {
            thread_started: self.thread_started,
            invalidated: self.invalidated,
            started_turns: self.started_turns@,
            active_turns: self.active_turns@,
            started_items: self.started_items@.map_values(
                |pair: (TurnId, String)| pair_view(pair),
            ),
            completed: self.completed@,
            usage: self.usage@,
            outcomes: self.outcomes@,
        }
    }
}

impl ThreadProjection {
    /// The byte counts tell the truth and everything is within its bound.
    pub closed spec fn wf(&self) -> bool {
        &&& projection_bounded(self@)
        &&& self.completed_id_bytes == completed_bytes(self.completed@)
        &&& self.outcome_bytes == outcome_bytes(self.outcomes@)
        &&& forall|k: int|
            0 <= k < self.completed.values().len() ==> (#[trigger] self.completed.values()[k]).wf()
        &&& forall|k: int|
            0 <= k < self.outcomes.values().len() ==> (
            #[trigger] self.outcomes.values()[k]).weight == outcome_weight(
                self.outcomes.values()[k].outcome@,
            )
    }

    /// A projection is never over its bounds.
    pub proof fn lemma_bounded(&self)
        requires
            self.wf(),
        ensures
            projection_bounded(self@),
    {
    }

    pub fn new() -> (projection: ThreadProjection)
        ensures
            projection.wf(),
            projection@ == blank_projection(),
    {
        let projection = ThreadProjection {
            thread_started: false,
            invalidated: None,
            started_turns: Keyed::new(),
            active_turns: Keyed::new(),
            started_items: Vec::new(),
            completed: Keyed::new(),
            completed_id_bytes: 0,
            usage: Keyed::new(),
            outcomes: Keyed::new(),
            outcome_bytes: 0,
        };
        proof {
            assert(projection@.started_items =~= Seq::empty());
        }
        projection
    }

    pub fn is_invalidated(&self) -> (invalidated: bool)
        ensures
            invalidated == (self@.invalidated is Some),
    {
        self.invalidated.is_some()
    }

    pub fn is_started(&self) -> (started: bool)
        ensures
            started == self@.thread_started,
    {
        self.thread_started
    }

    /// Whether no turn is active.
    pub fn is_quiescent(&self) -> (quiescent: bool)
        ensures
            quiescent == (self@.active_turns.len() == 0),
    {
        self.active_turns.len() == 0
    }

    /// Whether nothing is known of the thread.
    pub fn is_blank(&self) -> (blank: bool)
        ensures
            blank == (self@ == (ProjectionView {
                invalidated: self@.invalidated,
                ..blank_projection()
            })),
    {
        let blank = !self.thread_started && self.started_turns.len() == 0
            && self.active_turns.len() == 0 && self.started_items.len() == 0
            && self.completed.len() == 0 && self.usage.len() == 0 && self.outcomes.len() == 0;
        proof {
            if blank {
                assert(self@.started_turns =~= Seq::empty());
                assert(self@.active_turns =~= Seq::empty());
                assert(self@.started_items =~= Seq::empty());
                assert(self@.completed =~= Seq::empty());
                assert(self@.usage =~= Seq::empty());
                assert(self@.outcomes =~= Seq::empty());
            }
        }
        blank
    }

    /// The outcome of a turn, where it is retained.
    pub fn outcome(&self, turn_id: &TurnId) -> (outcome: Option<TurnOutcome>)
        requires
            self.wf(),
        ensures
            match lookup(self@.outcomes, turn_id@) {
                Some(record) => outcome matches Some(held) && held@ == record.outcome,
                None => outcome is None,
            },
    {
        match self.outcomes.position(turn_id.as_str()) {
            Some(at) => Some(self.outcomes.value_at(at).outcome.duplicate()),
            None => None,
        }
    }

    /// Forgets what has not finished and marks the projection unreliable.
    pub fn invalidate(&mut self, reason: SubscriptionInvalidation)
        requires
            old(self).wf(),
        ensures
            final(self).wf(),
            final(self)@ == projection_invalidated(old(self)@, reason),
    {
        self.invalidated = Some(reason);
        self.started_turns = Keyed::new();
        self.active_turns = Keyed::new();
        self.started_items = Vec::new();
        self.completed = Keyed::new();
        self.completed_id_bytes = 0;
        self.usage = Keyed::new();
        proof {
            assert(self@.started_items =~= Seq::empty());
        }
    }

    pub fn note_thread_started(&mut self) -> (effect: Effect)
        requires
            old(self).wf(),
        ensures
            final(self).wf(),
            (final(self)@, effect) == after_thread_started(old(self)@),
    {
        if self.invalidated.is_some() || self.thread_started {
            Effect::Quiet
        } else {
            self.thread_started = true;
            Effect::Announce
        }
    }

    pub fn note_turn_started(&mut self, turn_id: &TurnId) -> (effect: Effect)
        requires
            old(self).wf(),
        ensures
            final(self).wf(),
            (final(self)@, effect) == after_turn_started(old(self)@, turn_id@),
    {
        let known = self.started_turns.contains(turn_id.as_str());
        if text_bytes(turn_id.as_str()) > ROUTING_ID_BYTE_LIMIT || (self.started_turns.len()
            >= THREAD_TERMINAL_CAPACITY && !known) {
            self.invalidate(SubscriptionInvalidation::ProtocolDrift);
            return Effect::Drift;
        }
        if self.invalidated.is_some() || self.outcomes.contains(turn_id.as_str()) {
            return Effect::Quiet;
        }
        proof {
            lemma_bind_unique(self.started_turns@, turn_id@, ());
            lemma_bind_unique(self.active_turns@, turn_id@, ());
        }
        self.started_turns.set(turn_id.as_str(), ());
        self.active_turns.set(turn_id.as_str(), ());
        if known {
            Effect::Quiet
        } else {
            Effect::Announce
        }
    }

    fn started_item_known(&self, turn_id: &TurnId, item_id: &String) -> (known: bool)
        ensures
            known == self@.started_items.contains((turn_id@, item_id@)),
    {
        let mut at: usize = 0;
        while at < self.started_items.len()
            invariant
                at <= self.started_items@.len(),
                self@.started_items.len() == self.started_items@.len(),
                forall|k: int|
                    0 <= k < at ==> (#[trigger] self@.started_items[k]) != (turn_id@, item_id@),
            decreases self.started_items@.len() - at,
        {
            proof {
                assert(self@.started_items[at as int] == pair_view(self.started_items@[at as int]));
            }
            if self.started_items[at].0.same(turn_id) && self.started_items[at].1 == *item_id {
                return true;
            }
            at += 1;
        }
        false
    }

    pub fn note_item_started(&mut self, turn_id: &TurnId, item_id: &Option<String>) -> (effect:
        Effect)
        requires
            old(self).wf(),
        ensures
            final(self).wf(),
            (final(self)@, effect) == after_item_started(
                old(self)@,
                turn_id@,
                crate::codex::types::text_option(*item_id),
            ),
    {
        let item_id = match item_id {
            Some(item_id) => item_id,
            None => {
                return Effect::Announce;
            },
        };
        let known = self.started_item_known(turn_id, item_id);
        if text_bytes(item_id.as_str()) > ROUTING_ID_BYTE_LIMIT || text_bytes(turn_id.as_str())
            > ROUTING_ID_BYTE_LIMIT || (self.started_items.len() >= THREAD_EVENT_CAPACITY && !known) {
            self.invalidate(SubscriptionInvalidation::ProtocolDrift);
            return Effect::Drift;
        }
        if known {
            return Effect::Quiet;
        }
        self.started_items.push((turn_id.clone(), item_id.clone()));
        proof {
            assert(self@.started_items =~= old(self)@.started_items.push((turn_id@, item_id@)));
        }
        Effect::Announce
    }

    pub fn note_item_completed(&mut self, turn_id: &TurnId, item: &ThreadItem) -> (effect: Effect)
        requires
            old(self).wf(),
        ensures
            final(self).wf(),
            (final(self)@, effect) == after_item_completed(old(self)@, turn_id@, item@),
    {
        if self.outcomes.contains(turn_id.as_str()) {
            return Effect::Quiet;
        }
        let place = self.completed.position(turn_id.as_str());
        if place.is_none() && self.completed.len() >= THREAD_TERMINAL_CAPACITY {
            self.invalidate(SubscriptionInvalidation::ProtocolDrift);
            return Effect::Drift;
        }
        let ghost before = self.completed@;
        let ghost so_far = items_so_far(self@, turn_id@);
        let at: usize = match place {
            Some(at) => {
                proof {
                    self.completed.lemma_values();
                    lemma_completed_bytes_update(before, at as int, so_far);
                }
                at
            },
            None => {
                let at: usize = self.completed.len();
                self.completed.set(turn_id.as_str(), CompletedItems::new());
                proof {
                    assert(self.completed@.drop_last() =~= before);
                    lemma_key_index(self.completed@, at as int);
                }
                at
            },
        };
        let ghost mid = self.completed@;
        proof {
            self.completed.lemma_values();
            assert(mid[at as int] == (turn_id@, so_far));
            assert(completed_bytes(mid) == completed_bytes(before));
            assert(self.completed.values()[at as int].wf());
        }
        let items = self.completed.value_mut(at);
        let previous: usize = items.retained_bytes();
        let kind = items.upsert(item);
        let held: usize = items.retained_bytes();
        let count: usize = items.len();
        let ghost next = items@;
        proof {
            lemma_completed_bytes_update(mid, at as int, next);
            lemma_key_bytes_nonnegative(next.by_id);
            assert(bind(before, turn_id@, next) =~= mid.update(at as int, (turn_id@, next)));
        }
        self.completed_id_bytes = self.completed_id_bytes.saturating_sub(previous).saturating_add(
            held,
        );
        proof {
            assert(self.completed@ == bind(before, turn_id@, next));
            assert(self.completed_id_bytes == saturated(completed_bytes(self.completed@)));
        }
        if kind == ItemUpsert::Conflict || text_bytes(turn_id.as_str()) > ROUTING_ID_BYTE_LIMIT
            || count > THREAD_EVENT_CAPACITY || self.completed_id_bytes
            > THREAD_PROJECTION_BYTE_BUDGET {
            self.forget_unfinished();
            return Effect::Drift;
        }
        proof {
            lemma_bind_unique(before, turn_id@, next);
        }
        if kind == ItemUpsert::New {
            Effect::Announce
        } else {
            Effect::Quiet
        }
    }

    fn forget_unfinished(&mut self)
        requires
            unique_keys(old(self)@.outcomes),
            old(self)@.outcomes.len() <= THREAD_OUTCOME_CAPACITY,
            old(self).outcome_bytes == outcome_bytes(old(self).outcomes@),
            outcome_bytes(old(self).outcomes@) <= THREAD_PROJECTION_BYTE_BUDGET,
            forall|k: int|
                0 <= k < old(self).outcomes.values().len() ==> (
                #[trigger] old(self).outcomes.values()[k]).weight == outcome_weight(
                    old(self).outcomes.values()[k].outcome@,
                ),
        ensures
            final(self).wf(),
            final(self)@ == projection_invalidated(
                old(self)@,
                SubscriptionInvalidation::ProtocolDrift,
            ),
    {
        self.completed = Keyed::new();
        self.completed_id_bytes = 0;
        self.started_turns = Keyed::new();
        self.active_turns = Keyed::new();
        self.started_items = Vec::new();
        self.usage = Keyed::new();
        self.invalidated = Some(SubscriptionInvalidation::ProtocolDrift);
        proof {
            assert(self@.started_items =~= Seq::empty());
        }
    }

    pub fn note_usage(&mut self, turn_id: &TurnId, usage: &TokenUsageBreakdown) -> (effect: Effect)
        requires
            old(self).wf(),
        ensures
            final(self).wf(),
            (final(self)@, effect) == after_usage(old(self)@, turn_id@, usage@),
    {
        if text_bytes(turn_id.as_str()) > ROUTING_ID_BYTE_LIMIT {
            self.invalidate(SubscriptionInvalidation::ProtocolDrift);
            return Effect::Drift;
        }
        if self.outcomes.contains(turn_id.as_str()) {
            return Effect::Announce;
        }
        if !self.usage.contains(turn_id.as_str()) && self.usage.len() >= THREAD_TERMINAL_CAPACITY {
            self.invalidate(SubscriptionInvalidation::ProtocolDrift);
            return Effect::Drift;
        }
        proof {
            lemma_bind_unique(self.usage@, turn_id@, usage@);
        }
        self.usage.set(turn_id.as_str(), usage.duplicate());
        Effect::Announce
    }

    fn make_room_for(&mut self, weight: usize)
        requires
            old(self).wf(),
            weight <= THREAD_PROJECTION_BYTE_BUDGET,
        ensures
            final(self).wf(),
            final(self)@ == (ProjectionView {
                outcomes: make_room(old(self)@.outcomes, weight as int),
                ..old(self)@
            }),
            outcome_fits(final(self)@.outcomes, weight as int),
    {
        while self.outcomes.len() > 0 && (self.outcomes.len() >= THREAD_OUTCOME_CAPACITY
            || self.outcome_bytes.saturating_add(weight) > THREAD_PROJECTION_BYTE_BUDGET)
            invariant
                self.wf(),
                self@ == (ProjectionView { outcomes: self@.outcomes, ..old(self)@ }),
                make_room(self@.outcomes, weight as int) == make_room(
                    old(self)@.outcomes,
                    weight as int,
                ),
            decreases self@.outcomes.len(),
        {
            let ghost before = self.outcomes@;
            let ghost values = self.outcomes.values();
            proof {
                self.outcomes.lemma_values();
                lemma_outcome_bytes_first(before);
                lemma_outcome_weight_nonnegative(before.first().1.outcome);
                lemma_outcome_bytes_nonnegative(before.drop_first());
                assert(values[0].weight == outcome_weight(values[0].outcome@));
            }
            let oldest = self.outcomes.remove_at(0);
            proof {
                assert(before.remove(0) =~= before.drop_first());
                assert forall|i: int, j: int| 0 <= i < j < self.outcomes@.len() implies (
                #[trigger] self.outcomes@[i]).0 != (#[trigger] self.outcomes@[j]).0 by {
                    assert(before[i + 1].0 != before[j + 1].0);
                }
                assert forall|k: int| 0 <= k < self.outcomes.values().len() implies (
                #[trigger] self.outcomes.values()[k]).weight == outcome_weight(
                    self.outcomes.values()[k].outcome@,
                ) by {
                    assert(self.outcomes.values()[k] == values[k + 1]);
                }
            }
            self.outcome_bytes = self.outcome_bytes - oldest.weight;
        }
        proof {
            lemma_outcome_bytes_nonnegative(self@.outcomes);
        }
    }

    fn drop_started_items(&mut self, turn_id: &TurnId)
        requires
            old(self).wf(),
        ensures
            final(self).wf(),
            final(self)@ == (ProjectionView {
                started_items: without_turn(old(self)@.started_items, turn_id@),
                ..old(self)@
            }),
    {
        let ghost keep = |pair: (Seq<char>, Seq<char>)| pair.0 != turn_id@;
        let ghost views = self@.started_items;
        let mut kept: Vec<(TurnId, String)> = Vec::new();
        let mut at: usize = 0;
        proof {
            reveal(Seq::filter);
            assert(views.subrange(0, 0).filter(keep) =~= Seq::empty());
            assert(kept@.map_values(|pair: (TurnId, String)| pair_view(pair)) =~= Seq::empty());
        }
        while at < self.started_items.len()
            invariant
                *self == *old(self),
                at <= self.started_items@.len(),
                views == self@.started_items,
                views.len() == self.started_items@.len(),
                keep == (|pair: (Seq<char>, Seq<char>)| pair.0 != turn_id@),
                kept@.map_values(|pair: (TurnId, String)| pair_view(pair)) == views.subrange(
                    0,
                    at as int,
                ).filter(keep),
            decreases self.started_items@.len() - at,
        {
            let ghost kept_views = kept@.map_values(|pair: (TurnId, String)| pair_view(pair));
            proof {
                reveal(Seq::filter);
                let next = views.subrange(0, at + 1);
                assert(next.drop_last() =~= views.subrange(0, at as int));
                assert(next.last() == pair_view(self.started_items@[at as int]));
            }
            let pair = &self.started_items[at];
            if !pair.0.same(turn_id) {
                kept.push((pair.0.clone(), pair.1.clone()));
                proof {
                    assert(kept@.map_values(|pair: (TurnId, String)| pair_view(pair))
                        =~= kept_views.push(pair_view(*pair)));
                }
            }
            at += 1;
        }
        proof {
            assert(views.subrange(0, at as int) =~= views);
            lemma_filter_distinct(views, keep);
            views.lemma_filter_len(keep);
        }
        self.started_items = kept;
    }

    /// Records how a turn ended. Where subscribers are told, returns the
    /// outcome that they are told.
    pub fn note_turn_completed(&mut self, thread_id: &ThreadId, turn: Turn) -> (told: (
        Effect,
        Option<TurnOutcome>,
    ))
        requires
            old(self).wf(),
        ensures
            final(self).wf(),
            (final(self)@, told.0) == after_turn_completed(old(self)@, thread_id@, turn@),
            told.1 is Some == (told.0 == Effect::Announce),
            told.1 matches Some(outcome) ==> outcome@ == outcome_of(
                old(self)@,
                thread_id@,
                turn@,
            ),
    {
        if text_bytes(turn.id.as_str()) > ROUTING_ID_BYTE_LIMIT {
            self.invalidate(SubscriptionInvalidation::ProtocolDrift);
            return (Effect::Drift, None);
        }
        if let Some(at) = self.outcomes.position(turn.id.as_str()) {
            if self.outcomes.value_at(at).fingerprint != turn.fingerprint {
                self.invalidate(SubscriptionInvalidation::ProtocolDrift);
                return (Effect::Drift, None);
            }
            return (Effect::Quiet, None);
        }
        let fingerprint: u64 = turn.fingerprint;
        let turn_id = TurnId::new(turn.id.clone());
        let token_usage = match self.usage.position(turn.id.as_str()) {
            Some(at) => Some(self.usage.value_at(at).duplicate()),
            None => None,
        };
        let outcome = TurnOutcome {
            thread_id: thread_id.clone(),
            turn_id: turn_id.clone(),
            status: turn.status,
            error: turn.error,
            completed_items: turn.items,
            token_usage,
        };
        proof {
            assert(outcome@ == outcome_of(self@, thread_id@, turn@));
        }
        let weight: usize = outcome_memory_weight(&outcome);
        if weight > THREAD_PROJECTION_BYTE_BUDGET {
            self.invalidate(SubscriptionInvalidation::ProtocolDrift);
            return (Effect::Drift, None);
        }
        self.settle(&turn_id);
        self.make_room_for(weight);
        proof {
            lemma_room_has_no_new_key(old(self)@.outcomes, weight as int, turn_id@);
            lemma_bind_unique(
                self.outcomes@,
                turn_id@,
                RecordView { outcome: outcome@, fingerprint },
            );
            assert(self.outcomes@.push(
                (turn_id@, RecordView { outcome: outcome@, fingerprint }),
            ).drop_last() =~= self.outcomes@);
        }
        self.outcome_bytes = self.outcome_bytes + weight;
        let told = outcome.duplicate();
        self.outcomes.set(turn_id.as_str(), OutcomeRecord { outcome, fingerprint, weight });
        (Effect::Announce, Some(told))
    }

    fn settle(&mut self, turn_id: &TurnId)
        requires
            old(self).wf(),
        ensures
            final(self).wf(),
            final(self)@ == (ProjectionView {
                started_turns: unbind(old(self)@.started_turns, turn_id@),
                active_turns: unbind(old(self)@.active_turns, turn_id@),
                started_items: without_turn(old(self)@.started_items, turn_id@),
                completed: unbind(old(self)@.completed, turn_id@),
                usage: unbind(old(self)@.usage, turn_id@),
                ..old(self)@
            }),
    {
        let ghost completed = self.completed@;
        let ghost values = self.completed.values();
        proof {
            self.completed.lemma_values();
            if has_key(completed, turn_id@) {
                let at = key_index(completed, turn_id@);
                assert(completed[at].0 == turn_id@);
                lemma_completed_bytes_update(completed, at, completed[at].1);
                lemma_bind_unique(completed, turn_id@, completed[at].1);
                assert(values[at].wf());
            }
            if has_key(self.started_turns@, turn_id@) {
                lemma_bind_unique(self.started_turns@, turn_id@, ());
            }
            if has_key(self.usage@, turn_id@) {
                lemma_bind_unique(self.usage@, turn_id@, value_of(self.usage@, turn_id@));
            }
        }
        if let Some(items) = self.completed.remove(turn_id.as_str()) {
            self.completed_id_bytes = self.completed_id_bytes.saturating_sub(
                items.retained_bytes(),
            );
        }
        let _ = self.usage.remove(turn_id.as_str());
        let _ = self.started_turns.remove(turn_id.as_str());
        let _ = self.active_turns.remove(turn_id.as_str());
        self.drop_started_items(turn_id);
    }
}

pub proof fn lemma_filter_distinct<A>(items: Seq<A>, keep: spec_fn(A) -> bool)
    requires
        items.no_duplicates(),
    ensures
        items.filter(keep).no_duplicates(),
    decreases items.len(),
{
    reveal(Seq::filter);
    if items.len() > 0 {
        let head = items.drop_last();
        lemma_filter_distinct(head, keep);
        let kept = head.filter(keep);
        if keep(items.last()) && kept.contains(items.last()) {
            head.lemma_filter_contains_rev(keep, items.last());
            let k = choose|k: int| 0 <= k < head.len() && head[k] == items.last();
            assert(items[k] == items[items.len() - 1]);
        }
    }
}

proof fn lemma_room_has_no_new_key(
    outcomes: Seq<(Seq<char>, RecordView)>,
    weight: int,
    key: Seq<char>,
)
    requires
        !has_key(outcomes, key),
    ensures
        !has_key(make_room(outcomes, weight), key),
    decreases outcomes.len(),
{
    if outcomes.len() > 0 && !outcome_fits(outcomes, weight) {
        let rest = outcomes.drop_first();
        assert(!has_key(rest, key)) by {
            if has_key(rest, key) {
                let at = key_index(rest, key);
                assert(outcomes[at + 1].0 == key);
            }
        }
        lemma_room_has_no_new_key(rest, weight, key);
    }
}

/// A turn ends once: the same end reported again changes nothing and tells
/// nobody, and another end for the same turn is drift.
pub proof fn turn_ends_once(
    projection: ProjectionView,
    thread_id: Seq<char>,
    turn: TurnView,
    again: TurnView,
)
    requires
        unique_keys(projection.outcomes),
        after_turn_completed(projection, thread_id, turn).1 == Effect::Announce,
        again.id == turn.id,
    ensures
        ({
            let (next, _) = after_turn_completed(projection, thread_id, turn);
            after_turn_completed(next, thread_id, again) == if again.fingerprint
                == turn.fingerprint {
                (next, Effect::Quiet)
            } else {
                drifted(next)
            }
        }),
{
    let outcome = outcome_of(projection, thread_id, turn);
    let room = make_room(projection.outcomes, outcome_weight(outcome));
    let record = RecordView { outcome, fingerprint: turn.fingerprint };
    lemma_room_has_no_new_key(projection.outcomes, outcome_weight(outcome), turn.id);
    lemma_room_unique(projection.outcomes, outcome_weight(outcome));
    let outcomes = room.push((turn.id, record));
    assert(bind(room, turn.id, record) == outcomes);
    lemma_bind_unique(room, turn.id, record);
    assert(outcomes[room.len() as int] == (turn.id, record));
    lemma_key_index(outcomes, room.len() as int);
}

proof fn lemma_room_unique(outcomes: Seq<(Seq<char>, RecordView)>, weight: int)
    requires
        unique_keys(outcomes),
    ensures
        unique_keys(make_room(outcomes, weight)),
    decreases outcomes.len(),
{
    if outcomes.len() > 0 && !outcome_fits(outcomes, weight) {
        let rest = outcomes.drop_first();
        assert forall|i: int, j: int| 0 <= i < j < rest.len() implies (#[trigger] rest[i]).0 != (
        #[trigger] rest[j]).0 by {
            assert(outcomes[i + 1].0 != outcomes[j + 1].0);
        }
        lemma_room_unique(rest, weight);
    }
}

/// Making room drops oldest outcomes only: what remains is the newest part.
pub proof fn newest_outcomes_are_kept(outcomes: Seq<(Seq<char>, RecordView)>, weight: int)
    ensures
        ({
            let kept = make_room(outcomes, weight);
            &&& kept.len() <= outcomes.len()
            &&& kept == outcomes.subrange(outcomes.len() - kept.len(), outcomes.len() as int)
            &&& outcome_fits(outcomes, weight) ==> kept == outcomes
        }),
    decreases outcomes.len(),
{
    let kept = make_room(outcomes, weight);
    if outcomes.len() > 0 && !outcome_fits(outcomes, weight) {
        newest_outcomes_are_kept(outcomes.drop_first(), weight);
        assert(kept =~= outcomes.subrange(outcomes.len() - kept.len(), outcomes.len() as int));
    } else {
        assert(kept =~= outcomes.subrange(0, outcomes.len() as int));
    }
}

/// Once a turn has ended, late reports of its items and its start change
/// nothing and tell nobody.
pub proof fn ended_turn_is_not_reopened(
    projection: ProjectionView,
    turn_id: Seq<char>,
    item: ItemView,
)
    requires
        has_key(projection.outcomes, turn_id),
        !oversized(turn_id),
        projection.started_turns.len() < THREAD_TERMINAL_CAPACITY,
    ensures
        after_turn_started(projection, turn_id) == (projection, Effect::Quiet),
        after_item_completed(projection, turn_id, item) == (projection, Effect::Quiet),
{
}

/// A thread starts once: the first report is announced, a further one is not.
pub proof fn threads_start_once(projection: ProjectionView)
    requires
        projection.invalidated is None,
    ensures
        ({
            let (next, effect) = after_thread_started(projection);
            &&& next == (ProjectionView { thread_started: true, ..projection })
            &&& effect == (if projection.thread_started {
                Effect::Quiet
            } else {
                Effect::Announce
            })
            &&& after_thread_started(next) == (next, Effect::Quiet)
        }),
{
}

/// A turn that starts is active from then on, and is announced the first time.
/// Neither a turn nor an outcome of another turn changes.
pub proof fn started_turns_are_active(
    projection: ProjectionView,
    turn_id: Seq<char>,
    other: Seq<char>,
)
    requires
        projection_bounded(projection),
        projection.invalidated is None,
        byte_len(turn_id) <= ROUTING_ID_BYTE_LIMIT,
        !has_key(projection.outcomes, turn_id),
        has_key(projection.started_turns, turn_id) || projection.started_turns.len()
            < THREAD_TERMINAL_CAPACITY,
    ensures
        ({
            let (next, effect) = after_turn_started(projection, turn_id);
            &&& effect == (if has_key(projection.started_turns, turn_id) {
                Effect::Quiet
            } else {
                Effect::Announce
            })
            &&& has_key(next.active_turns, other) <==> other == turn_id || has_key(
                projection.active_turns,
                other,
            )
            &&& has_key(next.started_turns, other) <==> other == turn_id || has_key(
                projection.started_turns,
                other,
            )
            &&& next == (ProjectionView {
                started_turns: next.started_turns,
                active_turns: next.active_turns,
                ..projection
            })
        }),
{
    lemma_bind_lookup(projection.started_turns, turn_id, (), other);
    lemma_bind_lookup(projection.active_turns, turn_id, (), other);
}

/// A turn identifier over the bound, and one turn too many, are drift: only
/// what has finished is kept.
pub proof fn excess_is_drift(
    projection: ProjectionView,
    turn_id: Seq<char>,
    item: ItemView,
    usage: Json,
)
    ensures
        ({
            let broken = ProjectionView {
                thread_started: projection.thread_started,
                invalidated: Some(SubscriptionInvalidation::ProtocolDrift),
                started_turns: Seq::empty(),
                active_turns: Seq::empty(),
                started_items: Seq::empty(),
                completed: Seq::empty(),
                usage: Seq::empty(),
                outcomes: projection.outcomes,
            };
            let long = byte_len(turn_id) > ROUTING_ID_BYTE_LIMIT;
            &&& long || (!has_key(projection.started_turns, turn_id)
                && projection.started_turns.len() >= THREAD_TERMINAL_CAPACITY)
                ==> after_turn_started(projection, turn_id) == (broken, Effect::Drift)
            &&& item.id matches Some(item_id) ==> (long || byte_len(item_id)
                > ROUTING_ID_BYTE_LIMIT || (!projection.started_items.contains((turn_id, item_id))
                && projection.started_items.len() >= THREAD_EVENT_CAPACITY) ==> after_item_started(
                projection,
                turn_id,
                item.id,
            ) == (broken, Effect::Drift))
            &&& !has_key(projection.outcomes, turn_id) && (long || (!has_key(
                projection.completed,
                turn_id,
            ) && projection.completed.len() >= THREAD_TERMINAL_CAPACITY)) ==> after_item_completed(
                projection,
                turn_id,
                item,
            ) == (broken, Effect::Drift)
            &&& long || (!has_key(projection.outcomes, turn_id) && !has_key(
                projection.usage,
                turn_id,
            ) && projection.usage.len() >= THREAD_TERMINAL_CAPACITY) ==> after_usage(
                projection,
                turn_id,
                usage,
            ) == (broken, Effect::Drift)
        }),
{
}

/// An item of a turn starts once; one without an identifier is announced
/// whenever it comes.
pub proof fn items_start_once(
    projection: ProjectionView,
    turn_id: Seq<char>,
    item_id: Seq<char>,
)
    requires
        byte_len(turn_id) <= ROUTING_ID_BYTE_LIMIT,
        byte_len(item_id) <= ROUTING_ID_BYTE_LIMIT,
        projection.started_items.len() < THREAD_EVENT_CAPACITY,
    ensures
        ({
            let (next, effect) = after_item_started(projection, turn_id, Some(item_id));
            let known = projection.started_items.contains((turn_id, item_id));
            &&& known ==> next == projection && effect == Effect::Quiet
            &&& !known ==> effect == Effect::Announce && next == (ProjectionView {
                started_items: projection.started_items.push((turn_id, item_id)),
                ..projection
            })
            &&& after_item_started(projection, turn_id, None) == (projection, Effect::Announce)
        }),
{
}

/// A completed item is remembered under its turn and its identifier by what it
/// held; another item under the same identifier is drift. Nothing is changed
/// of other turns.
pub proof fn completed_items_are_remembered(
    projection: ProjectionView,
    turn_id: Seq<char>,
    item: ItemView,
    other: Seq<char>,
)
    requires
        projection_bounded(projection),
        !has_key(projection.outcomes, turn_id),
    ensures
        ({
            let (next, effect) = after_item_completed(projection, turn_id, item);
            let before = match lookup(projection.completed, turn_id) {
                Some(items) => items,
                None => CompletedView { by_id: Seq::empty(), anonymous: Seq::empty() },
            };
            let conflict = item.id matches Some(id) && lookup(before.by_id, id) matches Some(held)
                && held != item.fingerprint;
            &&& conflict ==> effect == Effect::Drift
            &&& effect != Effect::Drift ==> {
                &&& has_key(next.completed, turn_id)
                &&& item.id matches Some(id) ==> value_of(next.completed, turn_id).by_id == bind(
                    before.by_id,
                    id,
                    item.fingerprint,
                )
                &&& item.id is None ==> value_of(next.completed, turn_id).anonymous.contains(
                    item.fingerprint,
                )
                &&& other != turn_id ==> lookup(next.completed, other) == lookup(
                    projection.completed,
                    other,
                )
                &&& next == (ProjectionView { completed: next.completed, ..projection })
                &&& effect == Effect::Announce <==> match item.id {
                    Some(id) => lookup(before.by_id, id) is None,
                    None => !before.anonymous.contains(item.fingerprint),
                }
            }
            &&& effect == Effect::Drift ==> next.invalidated == Some(
                SubscriptionInvalidation::ProtocolDrift,
            ) && next.outcomes == projection.outcomes
        }),
{
    let items = upserted(items_so_far(projection, turn_id), item).0;
    lemma_bind_lookup(projection.completed, turn_id, items, other);
    lemma_bind_unique(projection.completed, turn_id, items);
    let before = items_so_far(projection, turn_id);
    if item.id is None && !before.anonymous.contains(item.fingerprint) {
        assert(items.anonymous[before.anonymous.len() as int] == item.fingerprint);
    }
}

/// The newest token counts of a turn are the ones kept, and they are announced
/// also once the turn has ended, which they change no more.
pub proof fn newest_usage_is_kept(
    projection: ProjectionView,
    turn_id: Seq<char>,
    usage: Json,
    other: Seq<char>,
)
    requires
        projection_bounded(projection),
        byte_len(turn_id) <= ROUTING_ID_BYTE_LIMIT,
        has_key(projection.usage, turn_id) || projection.usage.len() < THREAD_TERMINAL_CAPACITY,
    ensures
        ({
            let (next, effect) = after_usage(projection, turn_id, usage);
            &&& effect == Effect::Announce
            &&& has_key(projection.outcomes, turn_id) ==> next == projection
            &&& !has_key(projection.outcomes, turn_id) ==> lookup(next.usage, turn_id) == Some(
                usage,
            ) && next == (ProjectionView { usage: next.usage, ..projection })
            &&& other != turn_id ==> lookup(next.usage, other) == lookup(projection.usage, other)
        }),
{
    lemma_bind_lookup(projection.usage, turn_id, usage, other);
}

proof fn lemma_without_turn(
    items: Seq<(Seq<char>, Seq<char>)>,
    turn_id: Seq<char>,
    entry: (Seq<char>, Seq<char>),
)
    ensures
        without_turn(items, turn_id).contains(entry) <==> items.contains(entry) && entry.0
            != turn_id,
    decreases items.len(),
{
    reveal(Seq::filter);
    let rest = without_turn(items, turn_id);
    if items.len() > 0 {
        let head = items.drop_last();
        let last = items.last();
        let before = without_turn(head, turn_id);
        lemma_without_turn(head, turn_id, entry);
        assert(items[items.len() - 1] == last);
        assert(items.contains(entry) <==> head.contains(entry) || entry == last) by {
            if head.contains(entry) {
                let k = choose|k: int| 0 <= k < head.len() && head[k] == entry;
                assert(items[k] == entry);
            }
            if items.contains(entry) && entry != last {
                let k = choose|k: int| 0 <= k < items.len() && items[k] == entry;
                assert(head[k] == entry);
            }
        }
        if last.0 != turn_id {
            assert(rest == before.push(last));
            assert(rest[before.len() as int] == last);
            if before.contains(entry) {
                let k = choose|k: int| 0 <= k < before.len() && before[k] == entry;
                assert(rest[k] == entry);
            }
            if rest.contains(entry) && entry != last {
                let k = choose|k: int| 0 <= k < rest.len() && rest[k] == entry;
                assert(before[k] == entry);
            }
        } else {
            assert(rest == before);
        }
    }
}

/// What a turn leaves is what its end said: its status, its error and its
/// items, with the token counts that came for it. It is active no more, its
/// items are forgotten, and of other turns only outcomes may go, the oldest
/// first.
pub proof fn ended_turns_leave_their_outcome(
    projection: ProjectionView,
    thread_id: Seq<char>,
    turn: TurnView,
    other: Seq<char>,
    item_id: Seq<char>,
)
    requires
        projection_bounded(projection),
        byte_len(turn.id) <= ROUTING_ID_BYTE_LIMIT,
        !has_key(projection.outcomes, turn.id),
    ensures
        ({
            let outcome = OutcomeView {
                thread_id,
                turn_id: turn.id,
                status: turn.status,
                error: turn.error,
                completed_items: turn.items,
                token_usage: lookup(projection.usage, turn.id),
            };
            let (next, effect) = after_turn_completed(projection, thread_id, turn);
            &&& outcome_of(projection, thread_id, turn) == outcome
            &&& outcome_weight(outcome) > THREAD_PROJECTION_BYTE_BUDGET ==> effect == Effect::Drift
            &&& outcome_weight(outcome) <= THREAD_PROJECTION_BYTE_BUDGET ==> {
                &&& effect == Effect::Announce
                &&& lookup(next.outcomes, turn.id) == Some(
                    RecordView { outcome, fingerprint: turn.fingerprint },
                )
                &&& !has_key(next.active_turns, turn.id) && !has_key(next.started_turns, turn.id)
                    && !has_key(next.completed, turn.id) && !has_key(next.usage, turn.id)
                &&& !next.started_items.contains((turn.id, item_id))
                &&& other != turn.id ==> {
                    &&& has_key(next.active_turns, other) == has_key(
                        projection.active_turns,
                        other,
                    )
                    &&& has_key(next.started_turns, other) == has_key(
                        projection.started_turns,
                        other,
                    )
                    &&& lookup(next.completed, other) == lookup(projection.completed, other)
                    &&& lookup(next.usage, other) == lookup(projection.usage, other)
                    &&& next.started_items.contains((other, item_id))
                        == projection.started_items.contains((other, item_id))
                }
                &&& next.thread_started == projection.thread_started && next.invalidated
                    == projection.invalidated
            }
        }),
{
    let outcome = outcome_of(projection, thread_id, turn);
    let weight = outcome_weight(outcome);
    let room = make_room(projection.outcomes, weight);
    let record = RecordView { outcome, fingerprint: turn.fingerprint };
    lemma_room_has_no_new_key(projection.outcomes, weight, turn.id);
    lemma_room_unique(projection.outcomes, weight);
    assert(bind(room, turn.id, record) == room.push((turn.id, record)));
    lemma_bind_lookup(room, turn.id, record, other);
    lemma_unbind_lookup(projection.active_turns, turn.id, other);
    lemma_unbind_lookup(projection.started_turns, turn.id, other);
    lemma_unbind_lookup(projection.completed, turn.id, other);
    lemma_unbind_lookup(projection.usage, turn.id, other);
    lemma_without_turn(projection.started_items, turn.id, (turn.id, item_id));
    lemma_without_turn(projection.started_items, turn.id, (other, item_id));
}

/// Room is made by dropping no more than must go: one outcome more would not
/// have fitted.
pub proof fn no_outcome_goes_needlessly(outcomes: Seq<(Seq<char>, RecordView)>, weight: int)
    requires
        0 <= weight <= THREAD_PROJECTION_BYTE_BUDGET,
    ensures
        ({
            let kept = make_room(outcomes, weight);
            let from = outcomes.len() - kept.len();
            &&& kept.len() < THREAD_OUTCOME_CAPACITY
            &&& outcome_bytes(kept) + weight <= THREAD_PROJECTION_BYTE_BUDGET
            &&& from > 0 ==> ({
                let longer = outcomes.subrange(from - 1, outcomes.len() as int);
                longer.len() >= THREAD_OUTCOME_CAPACITY || outcome_bytes(longer) + weight
                    > THREAD_PROJECTION_BYTE_BUDGET
            })
        }),
    decreases outcomes.len(),
{
    if outcomes.len() > 0 && !outcome_fits(outcomes, weight) {
        let rest = outcomes.drop_first();
        let kept = make_room(rest, weight);
        no_outcome_goes_needlessly(rest, weight);
        newest_outcomes_are_kept(rest, weight);
        let from = outcomes.len() - kept.len();
        let longer = outcomes.subrange(from - 1, outcomes.len() as int);
        if from > 1 {
            assert(longer =~= rest.subrange(from - 2, rest.len() as int));
        } else {
            assert(longer =~= outcomes);
        }
    }
}

} // verus!
