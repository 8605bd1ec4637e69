//! Mailboxes of all live subscriptions, by subscription number.
use vstd::prelude::*;

use crate::codex::client::AppServerEvent;
use crate::codex::client::EventView;
use crate::codex::client::SubscriptionInvalidation;
use crate::codex::client::ThreadId;
use crate::codex::mailbox::invalidated_mailbox;
use crate::codex::mailbox::lossy_pushed;
use crate::codex::mailbox::terminal_pushed;
use crate::codex::mailbox::Mailbox;
use crate::codex::mailbox::MailboxView;
use crate::codex::mailbox::Received;
use crate::codex::types::TransportExit;

verus! {

/// Whether a subscription is there and takes events.
pub open spec fn takes_events(boxes: Map<u64, MailboxView>, id: u64) -> bool {
    boxes.dom().contains(id) && !boxes[id].closed
}

/// A mailbox after an event that may not be lost: the event waits, or the
/// mailbox says that it lagged.
pub open spec fn terminal_or_lagged(
    mailbox: MailboxView,
    event: EventView,
    thread_id: Seq<char>,
) -> MailboxView {
    match terminal_pushed(mailbox, event) {
        Some(next) => next,
        None => invalidated_mailbox(thread_id, SubscriptionInvalidation::Lagged),
    }
}

/// A mailbox after the connection closed: it takes no more events, and ends
/// with the reason or says that it lagged.
pub open spec fn ended(mailbox: MailboxView, exit: TransportExit, thread_id: Seq<char>) -> MailboxView {
    MailboxView {
        closed: true,
        ..terminal_or_lagged(mailbox, EventView::ConnectionClosed { exit }, thread_id)
    }
}

/// All mailboxes after those of some subscribers that are selected have
/// changed.
pub open spec fn changed(
    boxes: Map<u64, MailboxView>,
    subscribers: Seq<u64>,
    selected: spec_fn(u64) -> bool,
    change: spec_fn(MailboxView) -> MailboxView,
) -> Map<u64, MailboxView> {
    Map::new(
        |id: u64| boxes.dom().contains(id),
        |id: u64|
            if subscribers.contains(id) && selected(id) {
                change(boxes[id])
            } else {
                boxes[id]
            },
    )
}

/// The mailboxes after an event that may be lost went to some subscribers.
pub open spec fn lossy_sent(
    boxes: Map<u64, MailboxView>,
    subscribers: Seq<u64>,
    event: EventView,
) -> Map<u64, MailboxView> {
    changed(
        boxes,
        subscribers,
        |id: u64| takes_events(boxes, id),
        |mailbox: MailboxView| lossy_pushed(mailbox, event),
    )
}

/// The mailboxes after an event that may not be lost went to some subscribers.
pub open spec fn terminal_sent(
    boxes: Map<u64, MailboxView>,
    subscribers: Seq<u64>,
    event: EventView,
    thread_id: Seq<char>,
) -> Map<u64, MailboxView> {
    changed(
        boxes,
        subscribers,
        |id: u64| takes_events(boxes, id),
        |mailbox: MailboxView| terminal_or_lagged(mailbox, event, thread_id),
    )
}

/// The mailboxes after those of some subscribers were invalidated.
pub open spec fn all_invalidated(
    boxes: Map<u64, MailboxView>,
    subscribers: Seq<u64>,
    thread_id: Seq<char>,
    reason: SubscriptionInvalidation,
) -> Map<u64, MailboxView> {
    changed(
        boxes,
        subscribers,
        |id: u64| true,
        |mailbox: MailboxView| invalidated_mailbox(thread_id, reason),
    )
}

/// The mailboxes after those of some subscribers were ended.
pub open spec fn all_ended(
    boxes: Map<u64, MailboxView>,
    subscribers: Seq<u64>,
    exit: TransportExit,
    thread_id: Seq<char>,
) -> Map<u64, MailboxView> {
    changed(
        boxes,
        subscribers,
        |id: u64| true,
        |mailbox: MailboxView| ended(mailbox, exit, thread_id),
    )
}

/// The subscribers that still take events.
pub open spec fn live(boxes: Map<u64, MailboxView>, subscribers: Seq<u64>) -> Seq<u64> {
    subscribers.filter(|id: u64| takes_events(boxes, id))
}

/// The subscribers that took an event that may not be lost.
pub open spec fn reached(
    boxes: Map<u64, MailboxView>,
    subscribers: Seq<u64>,
    event: EventView,
) -> Seq<u64> {
    subscribers.filter(
        |id: u64| takes_events(boxes, id) && terminal_pushed(boxes[id], event) is Some,
    )
}

proof fn lemma_filter_step(subscribers: Seq<u64>, at: int, keep: spec_fn(u64) -> bool)
    requires
        0 <= at < subscribers.len(),
    ensures
        subscribers.subrange(0, at + 1).filter(keep) == if keep(subscribers[at]) {
            subscribers.subrange(0, at).filter(keep).push(subscribers[at])
        } else {
            subscribers.subrange(0, at).filter(keep)
        },
{
    reveal(Seq::filter);
    let next = subscribers.subrange(0, at + 1);
    assert(next.drop_last() =~= subscribers.subrange(0, at));
    assert(next.last() == subscribers[at]);
}

proof fn lemma_changed_step(
    boxes: Map<u64, MailboxView>,
    subscribers: Seq<u64>,
    at: int,
    selected: spec_fn(u64) -> bool,
    change: spec_fn(MailboxView) -> MailboxView,
)
    requires
        0 <= at < subscribers.len(),
        subscribers.no_duplicates(),
    ensures
        ({
            let id = subscribers[at];
            let before = changed(boxes, subscribers.subrange(0, at), selected, change);
            let after = changed(boxes, subscribers.subrange(0, at + 1), selected, change);
            &&& before.dom() == boxes.dom()
            &&& boxes.dom().contains(id) ==> before[id] == boxes[id]
            &&& boxes.dom().contains(id) && selected(id) ==> after == before.insert(
                id,
                change(boxes[id]),
            )
            &&& !(boxes.dom().contains(id) && selected(id)) ==> after == before
        }),
{
    let id = subscribers[at];
    let head = subscribers.subrange(0, at);
    let next = subscribers.subrange(0, at + 1);
    let before = changed(boxes, head, selected, change);
    let after = changed(boxes, next, selected, change);
    assert(before.dom() =~= boxes.dom());
    assert(after.dom() =~= boxes.dom());
    assert(!head.contains(id)) by {
        if head.contains(id) {
            let k = choose|k: int| 0 <= k < head.len() && head[k] == id;
            assert(subscribers[k] == subscribers[at]);
        }
    }
    assert forall|other: u64| next.contains(other) == (head.contains(other) || other == id) by {
        if next.contains(other) {
            let k = choose|k: int| 0 <= k < next.len() && next[k] == other;
            if k < at {
                assert(head[k] == other);
            }
        }
        if head.contains(other) {
            let k = choose|k: int| 0 <= k < head.len() && head[k] == other;
            assert(next[k] == other);
        }
        assert(next[at] == id);
    }
    if boxes.dom().contains(id) && selected(id) {
        assert(after =~= before.insert(id, change(boxes[id])));
    } else {
        assert(after =~= before);
    }
}

/// All mailboxes, by subscription number.
pub struct Mailboxes {
    slots: Vec<(u64, Mailbox)>,
}

impl View for Mailboxes {
    type V = Map<u64, MailboxView>;

    closed spec fn view(&self) -> Map<u64, MailboxView> {
        Map::new(
            |id: u64| exists|at: int| 0 <= at < self.slots@.len() && (#[trigger] self.slots@[at]).0 == id,
            |id: u64| self.slots@[self.place(id)].1@,
        )
    }
}

impl Mailboxes {
    spec fn place(&self, id: u64) -> int {
        choose|at: int| 0 <= at < self.slots@.len() && (#[trigger] self.slots@[at]).0 == id
    }

    /// Every number has one mailbox, and every mailbox is well formed.
    pub closed spec fn wf(&self) -> bool {
        &&& forall|i: int, j: int|
            0 <= i < j < self.slots@.len() ==> (#[trigger] self.slots@[i]).0 != (
            #[trigger] self.slots@[j]).0
        &&& forall|at: int| 0 <= at < self.slots@.len() ==> (#[trigger] self.slots@[at]).1.wf()
    }

    /// Every mailbox is within its bounds.
    pub proof fn lemma_within_bounds(&self, id: u64)
        requires
            self.wf(),
            self@.dom().contains(id),
        ensures
            crate::codex::mailbox::within_bounds(self@[id].events),
    {
        let at = self.place(id);
        assert(0 <= at < self.slots@.len() && self.slots@[at].0 == id);
        self.slots@[at].1.lemma_within_bounds();
    }

    proof fn lemma_place(&self, at: int)
        requires
            self.wf(),
            0 <= at < self.slots@.len(),
        ensures
            self@.dom().contains(self.slots@[at].0),
            self.place(self.slots@[at].0) == at,
            self@[self.slots@[at].0] == self.slots@[at].1@,
    {
        let id = self.slots@[at].0;
        let found = self.place(id);
        assert(self.slots@[at].0 == id);
        assert(0 <= found < self.slots@.len() && self.slots@[found].0 == id);
        if found < at {
            assert(self.slots@[found].0 != self.slots@[at].0);
        } else if at < found {
            assert(self.slots@[at].0 != self.slots@[found].0);
        }
    }

    pub fn new() -> (boxes: Mailboxes)
        ensures
            boxes.wf(),
            boxes@ == Map::<u64, MailboxView>::empty(),
    {
        let boxes = Mailboxes { slots: Vec::new() };
        proof {
            assert(boxes@ =~= Map::<u64, MailboxView>::empty());
        }
        boxes
    }

    fn position(&self, id: u64) -> (found: Option<usize>)
        requires
            self.wf(),
        ensures
            found is Some == self@.dom().contains(id),
            found matches Some(at) ==> at < self.slots@.len() && self.slots@[at as int].0 == id
                && self@[id] == self.slots@[at as int].1@,
    {
        let mut at: usize = 0;
        while at < self.slots.len()
            invariant
                self.wf(),
                at <= self.slots@.len(),
                forall|k: int| 0 <= k < at ==> (#[trigger] self.slots@[k]).0 != id,
            decreases self.slots@.len() - at,
        {
            if self.slots[at].0 == id {
                proof {
                    self.lemma_place(at as int);
                }
                return Some(at);
            }
            at += 1;
        }
        None
    }

    proof fn lemma_replaced(before: Mailboxes, after: Mailboxes, at: int)
        requires
            before.wf(),
            0 <= at < before.slots@.len(),
            after.slots@.len() == before.slots@.len(),
            forall|k: int| 0 <= k < before.slots@.len() && k != at ==> after.slots@[k] == before.slots@[k],
            after.slots@[at].0 == before.slots@[at].0,
            after.slots@[at].1.wf(),
        ensures
            after.wf(),
            after@ == before@.insert(before.slots@[at].0, after.slots@[at].1@),
    {
        let id = before.slots@[at].0;
        assert forall|i: int, j: int| 0 <= i < j < after.slots@.len() implies (
        #[trigger] after.slots@[i]).0 != (#[trigger] after.slots@[j]).0 by {
            assert(before.slots@[i].0 != before.slots@[j].0);
        }
        before.lemma_place(at);
        after.lemma_place(at);
        assert forall|other: u64|
            after@.dom().contains(other) == before@.dom().contains(other) by {
            if after@.dom().contains(other) {
                let k = after.place(other);
                assert(after.slots@[k].0 == other);
                assert(before.slots@[k].0 == other);
            }
            if before@.dom().contains(other) {
                let k = before.place(other);
                assert(before.slots@[k].0 == other);
                assert(after.slots@[k].0 == other);
            }
        }
        assert forall|other: u64| after@.dom().contains(other) && other != id implies after@[other]
            == before@[other] by {
            let k = before.place(other);
            assert(before.slots@[k].0 == other);
            before.lemma_place(k);
            after.lemma_place(k);
        }
        assert(after@ =~= before@.insert(id, after.slots@[at].1@));
    }

    /// Whether a subscription is there and takes events.
    pub fn is_open(&self, id: u64) -> (open: bool)
        requires
            self.wf(),
        ensures
            open == takes_events(self@, id),
    {
        match self.position(id) {
            Some(at) => !self.slots[at].1.is_closed(),
            None => false,
        }
    }

    /// Adds an empty mailbox under a new number.
    pub fn open(&mut self, id: u64)
        requires
            old(self).wf(),
            !old(self)@.dom().contains(id),
        ensures
            final(self).wf(),
            final(self)@ == old(self)@.insert(
                id,
                MailboxView { events: Seq::empty(), closed: false },
            ),
    {
        let ghost before = *self;
        self.slots.push((id, Mailbox::new()));
        proof {
            let last = before.slots@.len() as int;
            assert forall|i: int, j: int| 0 <= i < j < self.slots@.len() implies (
            #[trigger] self.slots@[i]).0 != (#[trigger] self.slots@[j]).0 by {
                if j == last {
                    before.lemma_place(i);
                } else {
                    assert(before.slots@[i].0 != before.slots@[j].0);
                }
            }
            self.lemma_place(last);
            assert forall|other: u64| other != id implies self@.dom().contains(other)
                == before@.dom().contains(other) by {
                if self@.dom().contains(other) {
                    let k = self.place(other);
                    assert(self.slots@[k].0 == other);
                    assert(before.slots@[k].0 == other);
                }
                if before@.dom().contains(other) {
                    let k = before.place(other);
                    assert(before.slots@[k].0 == other);
                    assert(self.slots@[k].0 == other);
                }
            }
            assert forall|other: u64| before@.dom().contains(other) && other != id implies self@[other]
                == before@[other] by {
                let k = before.place(other);
                assert(before.slots@[k].0 == other);
                before.lemma_place(k);
                self.lemma_place(k);
            }
            assert(self@ =~= before@.insert(
                id,
                MailboxView { events: Seq::empty(), closed: false },
            ));
        }
    }

    /// Forgets a subscription and what waits for it.
    pub fn forget(&mut self, id: u64)
        requires
            old(self).wf(),
        ensures
            final(self).wf(),
            final(self)@ == old(self)@.remove(id),
    {
        let ghost before = *self;
        match self.position(id) {
            Some(at) => {
                let _ = self.slots.remove(at);
                proof {
                    let gone = at as int;
                    assert forall|k: int| 0 <= k < self.slots@.len() implies #[trigger]
                        self.slots@[k] == before.slots@[if k < gone {
                            k
                        } else {
                            k + 1
                        }] by {}
                    assert forall|i: int, j: int| 0 <= i < j < self.slots@.len() implies (
                    #[trigger] self.slots@[i]).0 != (#[trigger] self.slots@[j]).0 by {
                        let from_i = if i < gone {
                            i
                        } else {
                            i + 1
                        };
                        let from_j = if j < gone {
                            j
                        } else {
                            j + 1
                        };
                        assert(before.slots@[from_i].0 != before.slots@[from_j].0);
                    }
                    assert(self.wf());
                    assert(!self@.dom().contains(id)) by {
                        if self@.dom().contains(id) {
                            let k = self.place(id);
                            assert(self.slots@[k].0 == id);
                            let from = if k < gone {
                                k
                            } else {
                                k + 1
                            };
                            assert(before.slots@[from].0 == id);
                            before.lemma_place(from);
                            before.lemma_place(gone);
                        }
                    }
                    assert forall|other: u64| #![trigger self@.dom().contains(other)] #![trigger self@[other]] other != id implies (
                    self@.dom().contains(other) == before@.dom().contains(other)) && (
                    before@.dom().contains(other) ==> self@[other] == before@[other]) by {
                        if self@.dom().contains(other) {
                            let k = self.place(other);
                            assert(self.slots@[k].0 == other);
                            let from = if k < gone {
                                k
                            } else {
                                k + 1
                            };
                            assert(before.slots@[from].0 == other);
                        }
                        if before@.dom().contains(other) {
                            let k = before.place(other);
                            assert(before.slots@[k].0 == other);
                            before.lemma_place(k);
                            let to = if k < gone {
                                k
                            } else {
                                k - 1
                            };
                            assert(self.slots@[to] == before.slots@[k]);
                            self.lemma_place(to);
                        }
                    }
                    assert(self@ =~= before@.remove(id));
                }
            },
            None => {
                proof {
                    assert(self@ =~= before@.remove(id));
                }
            },
        }
    }

    /// Takes the oldest event of a subscription.
    pub fn recv(&mut self, id: u64) -> (received: Received)
        requires
            old(self).wf(),
        ensures
            final(self).wf(),
            !old(self)@.dom().contains(id) ==> received is Closed && final(self)@ == old(self)@,
            old(self)@.dom().contains(id) ==> ({
                let mailbox = old(self)@[id];
                match received {
                    Received::Event(event) => mailbox.events.len() > 0 && event@
                        == mailbox.events.first().event && final(self)@ == old(self)@.insert(
                        id,
                        MailboxView { events: mailbox.events.drop_first(), ..mailbox },
                    ),
                    Received::Closed => mailbox.events.len() == 0 && mailbox.closed && final(self)@
                        == old(self)@,
                    Received::Empty => mailbox.events.len() == 0 && !mailbox.closed && final(self)@
                        == old(self)@,
                }
            }),
    {
        let ghost before = *self;
        match self.position(id) {
            Some(at) => {
                let received = self.slots[at].1.recv();
                proof {
                    Mailboxes::lemma_replaced(before, *self, at as int);
                    assert(self@ =~= before@.insert(id, self.slots@[at as int].1@));
                    if !(received is Event) {
                        assert(before@.insert(id, before@[id]) =~= before@);
                    }
                }
                received
            },
            None => Received::Closed,
        }
    }

    /// The subscribers that still take events.
    pub fn live_of(&self, subscribers: &Vec<u64>) -> (kept: Vec<u64>)
        requires
            self.wf(),
        ensures
            kept@ == live(self@, subscribers@),
    {
        let ghost keep = |id: u64| takes_events(self@, id);
        let mut kept: Vec<u64> = Vec::new();
        let mut at: usize = 0;
        proof {
            reveal(Seq::filter);
            assert(subscribers@.subrange(0, 0).filter(keep) =~= Seq::empty());
        }
        while at < subscribers.len()
            invariant
                self.wf(),
                at <= subscribers@.len(),
                keep == (|id: u64| takes_events(self@, id)),
                kept@ == subscribers@.subrange(0, at as int).filter(keep),
            decreases subscribers@.len() - at,
        {
            proof {
                lemma_filter_step(subscribers@, at as int, keep);
            }
            if self.is_open(subscribers[at]) {
                kept.push(subscribers[at]);
            }
            at += 1;
        }
        proof {
            assert(subscribers@.subrange(0, at as int) =~= subscribers@);
        }
        kept
    }

    /// Sends an event that may be lost; returns the subscribers that remain.
    pub fn send_lossy(&mut self, subscribers: &Vec<u64>, event: &AppServerEvent) -> (kept: Vec<u64>)
        requires
            old(self).wf(),
            subscribers@.no_duplicates(),
        ensures
            final(self).wf(),
            kept@ == live(old(self)@, subscribers@),
            final(self)@ == lossy_sent(old(self)@, subscribers@, event@),
    {
        let ghost boxes = self@;
        let ghost keep = |id: u64| takes_events(boxes, id);
        let ghost change = |mailbox: MailboxView| lossy_pushed(mailbox, event@);
        let mut kept: Vec<u64> = Vec::new();
        let mut at: usize = 0;
        proof {
            reveal(Seq::filter);
            assert(subscribers@.subrange(0, 0).filter(keep) =~= Seq::empty());
            assert(changed(boxes, subscribers@.subrange(0, 0), keep, change) =~= boxes);
        }
        while at < subscribers.len()
            invariant
                self.wf(),
                subscribers@.no_duplicates(),
                at <= subscribers@.len(),
                keep == (|id: u64| takes_events(boxes, id)),
                change == (|mailbox: MailboxView| lossy_pushed(mailbox, event@)),
                kept@ == subscribers@.subrange(0, at as int).filter(keep),
                self@ == changed(boxes, subscribers@.subrange(0, at as int), keep, change),
            decreases subscribers@.len() - at,
        {
            let id: u64 = subscribers[at];
            let ghost before = *self;
            proof {
                lemma_filter_step(subscribers@, at as int, keep);
                lemma_changed_step(boxes, subscribers@, at as int, keep, change);
            }
            if let Some(place) = self.position(id) {
                if !self.slots[place].1.is_closed() {
                    self.slots[place].1.push_lossy(event.duplicate());
                    proof {
                        Mailboxes::lemma_replaced(before, *self, place as int);
                    }
                    kept.push(id);
                }
            }
            at += 1;
        }
        proof {
            assert(subscribers@.subrange(0, at as int) =~= subscribers@);
        }
        kept
    }

    /// Sends an event that may not be lost; returns the subscribers that took
    /// it. The others are told that they lagged.
    pub fn send_terminal(
        &mut self,
        subscribers: &Vec<u64>,
        event: &AppServerEvent,
        thread_id: &ThreadId,
    ) -> (kept: Vec<u64>)
        requires
            old(self).wf(),
            subscribers@.no_duplicates(),
        ensures
            final(self).wf(),
            kept@ == reached(old(self)@, subscribers@, event@),
            final(self)@ == terminal_sent(old(self)@, subscribers@, event@, thread_id@),
    {
        let ghost boxes = self@;
        let ghost open = |id: u64| takes_events(boxes, id);
        let ghost keep = |id: u64|
            takes_events(boxes, id) && terminal_pushed(boxes[id], event@) is Some;
        let ghost change = |mailbox: MailboxView| terminal_or_lagged(mailbox, event@, thread_id@);
        let mut kept: Vec<u64> = Vec::new();
        let mut at: usize = 0;
        proof {
            reveal(Seq::filter);
            assert(subscribers@.subrange(0, 0).filter(keep) =~= Seq::empty());
            assert(changed(boxes, subscribers@.subrange(0, 0), open, change) =~= boxes);
        }
        while at < subscribers.len()
            invariant
                self.wf(),
                subscribers@.no_duplicates(),
                at <= subscribers@.len(),
                open == (|id: u64| takes_events(boxes, id)),
                keep == (|id: u64|
                    takes_events(boxes, id) && terminal_pushed(boxes[id], event@) is Some),
                change == (|mailbox: MailboxView|
                    terminal_or_lagged(mailbox, event@, thread_id@)),
                kept@ == subscribers@.subrange(0, at as int).filter(keep),
                self@ == changed(boxes, subscribers@.subrange(0, at as int), open, change),
            decreases subscribers@.len() - at,
        {
            let id: u64 = subscribers[at];
            let ghost before = *self;
            proof {
                lemma_filter_step(subscribers@, at as int, keep);
                lemma_changed_step(boxes, subscribers@, at as int, open, change);
            }
            if let Some(place) = self.position(id) {
                if !self.slots[place].1.is_closed() {
                    if self.slots[place].1.push_terminal(event.duplicate()) {
                        kept.push(id);
                    } else {
                        self.slots[place].1.invalidate(
                            thread_id.clone(),
                            SubscriptionInvalidation::Lagged,
                        );
                    }
                    proof {
                        Mailboxes::lemma_replaced(before, *self, place as int);
                    }
                }
            }
            at += 1;
        }
        proof {
            assert(subscribers@.subrange(0, at as int) =~= subscribers@);
        }
        kept
    }

    /// Invalidates the mailboxes of some subscribers.
    pub fn invalidate_all(
        &mut self,
        subscribers: &Vec<u64>,
        thread_id: &ThreadId,
        reason: SubscriptionInvalidation,
    )
        requires
            old(self).wf(),
            subscribers@.no_duplicates(),
        ensures
            final(self).wf(),
            final(self)@ == all_invalidated(old(self)@, subscribers@, thread_id@, reason),
    {
        let ghost boxes = self@;
        let ghost all = |id: u64| true;
        let ghost change = |mailbox: MailboxView| invalidated_mailbox(thread_id@, reason);
        let mut at: usize = 0;
        proof {
            assert(changed(boxes, subscribers@.subrange(0, 0), all, change) =~= boxes);
        }
        while at < subscribers.len()
            invariant
                self.wf(),
                subscribers@.no_duplicates(),
                at <= subscribers@.len(),
                all == (|id: u64| true),
                change == (|mailbox: MailboxView| invalidated_mailbox(thread_id@, reason)),
                self@ == changed(boxes, subscribers@.subrange(0, at as int), all, change),
            decreases subscribers@.len() - at,
        {
            let ghost before = *self;
            proof {
                lemma_changed_step(boxes, subscribers@, at as int, all, change);
            }
            if let Some(place) = self.position(subscribers[at]) {
                self.slots[place].1.invalidate(thread_id.clone(), reason);
                proof {
                    Mailboxes::lemma_replaced(before, *self, place as int);
                }
            }
            at += 1;
        }
        proof {
            assert(subscribers@.subrange(0, at as int) =~= subscribers@);
        }
    }

    /// Ends the mailboxes of some subscribers: each takes the reason as its
    /// last event, or says that it lagged.
    pub fn end_all(&mut self, subscribers: &Vec<u64>, exit: TransportExit, thread_id: &ThreadId)
        requires
            old(self).wf(),
            subscribers@.no_duplicates(),
        ensures
            final(self).wf(),
            final(self)@ == all_ended(old(self)@, subscribers@, exit, thread_id@),
    {
        let ghost boxes = self@;
        let ghost all = |id: u64| true;
        let ghost change = |mailbox: MailboxView| ended(mailbox, exit, thread_id@);
        let mut at: usize = 0;
        proof {
            assert(changed(boxes, subscribers@.subrange(0, 0), all, change) =~= boxes);
        }
        while at < subscribers.len()
            invariant
                self.wf(),
                subscribers@.no_duplicates(),
                at <= subscribers@.len(),
                all == (|id: u64| true),
                change == (|mailbox: MailboxView| ended(mailbox, exit, thread_id@)),
                self@ == changed(boxes, subscribers@.subrange(0, at as int), all, change),
            decreases subscribers@.len() - at,
        {
            let ghost before = *self;
            proof {
                lemma_changed_step(boxes, subscribers@, at as int, all, change);
            }
            if let Some(place) = self.position(subscribers[at]) {
                if self.slots[place].1.push_terminal(AppServerEvent::ConnectionClosed { exit }) {
                    self.slots[place].1.close();
                } else {
                    self.slots[place].1.invalidate(
                        thread_id.clone(),
                        SubscriptionInvalidation::Lagged,
                    );
                }
                proof {
                    Mailboxes::lemma_replaced(before, *self, place as int);
                }
            }
            at += 1;
        }
        proof {
            assert(subscribers@.subrange(0, at as int) =~= subscribers@);
        }
    }
}

/// An event that may not be lost reaches every subscriber or the subscriber
/// is told: after the send, each subscriber that took events holds the event
/// last, or holds nothing but the news that it lagged.
pub proof fn terminal_event_is_never_lost_silently(
    boxes: Map<u64, MailboxView>,
    subscribers: Seq<u64>,
    event: EventView,
    thread_id: Seq<char>,
    id: u64,
)
    requires
        subscribers.contains(id),
        takes_events(boxes, id),
    ensures
        ({
            let after = terminal_sent(boxes, subscribers, event, thread_id);
            &&& after.dom().contains(id)
            &&& (after[id].events.len() > 0 && after[id].events.last().event == event
                && after[id].events.last().terminal && reached(boxes, subscribers, event).contains(
                id,
            )) || (after[id] == invalidated_mailbox(thread_id, SubscriptionInvalidation::Lagged)
                && !reached(boxes, subscribers, event).contains(id))
        }),
{
    let keep = |id: u64| takes_events(boxes, id) && terminal_pushed(boxes[id], event) is Some;
    let took = subscribers.filter(keep);
    let place = choose|k: int| 0 <= k < subscribers.len() && subscribers[k] == id;
    if keep(id) {
        subscribers.lemma_filter_contains(keep, place);
    } else if took.contains(id) {
        let k = choose|k: int| 0 <= k < took.len() && took[k] == id;
        subscribers.lemma_filter_pred(keep, k);
    }
}

/// An event that may be lost is offered to every subscriber that is there and
/// open, and to nobody else.
pub proof fn lossy_events_go_to_their_subscribers(
    boxes: Map<u64, MailboxView>,
    subscribers: Seq<u64>,
    event: EventView,
    id: u64,
)
    ensures
        ({
            let after = lossy_sent(boxes, subscribers, event);
            &&& after.dom().contains(id) <==> boxes.dom().contains(id)
            &&& boxes.dom().contains(id) && subscribers.contains(id) && !boxes[id].closed
                ==> after[id] == lossy_pushed(boxes[id], event)
            &&& boxes.dom().contains(id) && !(subscribers.contains(id) && !boxes[id].closed)
                ==> after[id] == boxes[id]
        }),
{
}

/// An event that may not be lost is put before every subscriber that is there
/// and open; one without room for it is told that it lagged, and nobody else
/// notices.
pub proof fn terminal_events_go_to_their_subscribers(
    boxes: Map<u64, MailboxView>,
    subscribers: Seq<u64>,
    event: EventView,
    thread_id: Seq<char>,
    id: u64,
)
    ensures
        ({
            let after = terminal_sent(boxes, subscribers, event, thread_id);
            &&& after.dom().contains(id) <==> boxes.dom().contains(id)
            &&& boxes.dom().contains(id) && subscribers.contains(id) && !boxes[id].closed
                ==> match terminal_pushed(boxes[id], event) {
                Some(next) => after[id] == next,
                None => after[id] == invalidated_mailbox(
                    thread_id,
                    SubscriptionInvalidation::Lagged,
                ),
            }
            &&& boxes.dom().contains(id) && !(subscribers.contains(id) && !boxes[id].closed)
                ==> after[id] == boxes[id]
        }),
{
}

/// Invalidation reaches every subscriber of the thread and nobody else.
pub proof fn invalidation_reaches_every_subscriber(
    boxes: Map<u64, MailboxView>,
    subscribers: Seq<u64>,
    thread_id: Seq<char>,
    reason: SubscriptionInvalidation,
    id: u64,
)
    ensures
        ({
            let after = all_invalidated(boxes, subscribers, thread_id, reason);
            &&& after.dom().contains(id) <==> boxes.dom().contains(id)
            &&& boxes.dom().contains(id) && subscribers.contains(id) ==> after[id]
                == invalidated_mailbox(thread_id, reason)
            &&& boxes.dom().contains(id) && !subscribers.contains(id) ==> after[id] == boxes[id]
        }),
{
}

/// The end of the connection closes every subscriber's mailbox, behind the
/// reason of the end or the news that the mailbox lagged; nobody else notices.
pub proof fn the_end_reaches_every_subscriber(
    boxes: Map<u64, MailboxView>,
    subscribers: Seq<u64>,
    exit: TransportExit,
    thread_id: Seq<char>,
    id: u64,
)
    requires
        boxes.dom().contains(id),
    ensures
        ({
            let after = all_ended(boxes, subscribers, exit, thread_id);
            let news = EventView::ConnectionClosed { exit };
            &&& after.dom().contains(id)
            &&& !subscribers.contains(id) ==> after[id] == boxes[id]
            &&& subscribers.contains(id) ==> after[id].closed && match terminal_pushed(
                boxes[id],
                news,
            ) {
                Some(next) => after[id].events == next.events,
                None => after[id].events == invalidated_mailbox(
                    thread_id,
                    SubscriptionInvalidation::Lagged,
                ).events,
            }
        }),
{
}

/// Who still takes events is exactly who subscribed and has an open mailbox;
/// who took an event that may not be lost had room for it besides.
pub proof fn live_subscribers_take_events(
    boxes: Map<u64, MailboxView>,
    subscribers: Seq<u64>,
    event: EventView,
    id: u64,
)
    ensures
        live(boxes, subscribers).contains(id) <==> subscribers.contains(id)
            && boxes.dom().contains(id) && !boxes[id].closed,
        reached(boxes, subscribers, event).contains(id) <==> subscribers.contains(id)
            && boxes.dom().contains(id) && !boxes[id].closed && terminal_pushed(
            boxes[id],
            event,
        ) is Some,
{
    let open = |id: u64| takes_events(boxes, id);
    let took = |id: u64| takes_events(boxes, id) && terminal_pushed(boxes[id], event) is Some;
    if subscribers.contains(id) {
        let k = choose|k: int| 0 <= k < subscribers.len() && subscribers[k] == id;
        if open(id) {
            subscribers.lemma_filter_contains(open, k);
        }
        if took(id) {
            subscribers.lemma_filter_contains(took, k);
        }
    }
    if live(boxes, subscribers).contains(id) {
        subscribers.lemma_filter_contains_rev(open, id);
        let kept = subscribers.filter(open);
        let k = choose|k: int| 0 <= k < kept.len() && kept[k] == id;
        subscribers.lemma_filter_pred(open, k);
    }
    if reached(boxes, subscribers, event).contains(id) {
        subscribers.lemma_filter_contains_rev(took, id);
        let kept = subscribers.filter(took);
        let k = choose|k: int| 0 <= k < kept.len() && kept[k] == id;
        subscribers.lemma_filter_pred(took, k);
    }
}

} // verus!
