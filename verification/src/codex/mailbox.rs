//! Bounded event queue of one thread subscription.
//!
//! Events that a subscriber may not miss are terminal: they are queued or the
//! push is refused. Other events are dropped when the queue is full, and text
//! fragments of one stream are merged while they wait.
use vstd::prelude::*;

use crate::codex::client::delta_stream;
use crate::codex::client::delta_text_len;
use crate::codex::client::event_memory_weight;
use crate::codex::client::event_weight;
use crate::codex::client::fragment_of;
use crate::codex::client::merge_delta;
use crate::codex::client::merged;
use crate::codex::client::same_delta_stream;
use crate::codex::client::stream_of;
use crate::codex::client::AppServerEvent;
use crate::codex::client::EventView;
use crate::codex::client::SubscriptionInvalidation;
use crate::codex::client::ThreadId;
use crate::limits::THREAD_DELTA_BYTE_LIMIT;
use crate::limits::THREAD_EVENT_CAPACITY;
use crate::limits::THREAD_MAILBOX_BYTE_BUDGET;
use crate::limits::THREAD_TERMINAL_CAPACITY;
use crate::text::byte_len;
use crate::text::lemma_utf8_concat;

verus! {

/// One waiting event.
pub struct QueuedEvent {
    pub byte_len: usize,
    pub terminal: bool,
    pub event: AppServerEvent,
}

/// Content of one waiting event.
pub struct QueuedView {
    pub terminal: bool,
    pub event: EventView,
}

impl View for QueuedEvent {
    type V = QueuedView;

    open spec fn view(&self) -> QueuedView {
        QueuedView { terminal: self.terminal, event: self.event@ }
    }
}

/// Content of a mailbox: what waits, in order, and whether it takes no more.
pub struct MailboxView {
    pub events: Seq<QueuedView>,
    pub closed: bool,
}

/// Number of waiting events that are terminal, or that are not.
pub open spec fn count_kind(events: Seq<QueuedView>, terminal: bool) -> nat
    decreases events.len(),
{
    if events.len() == 0 {
        0
    } else {
        count_kind(events.drop_last(), terminal) + if events.last().terminal == terminal {
            1nat
        } else {
            0nat
        }
    }
}

/// Bytes that the waiting events retain.
pub open spec fn total_bytes(events: Seq<QueuedView>) -> int
    decreases events.len(),
{
    if events.len() == 0 {
        0
    } else {
        total_bytes(events.drop_last()) + event_weight(events.last().event)
    }
}

proof fn lemma_event_weight_nonnegative(event: EventView)
    ensures
        event_weight(event) >= 0,
{
    match event {
        EventView::TurnCompleted(outcome) => {
            crate::codex::client::lemma_items_weight_nonnegative(
                outcome.completed_items,
                crate::limits::THREAD_PROJECTION_BYTE_BUDGET as int,
            );
        },
        _ => {},
    }
}

proof fn lemma_total_nonnegative(events: Seq<QueuedView>)
    ensures
        total_bytes(events) >= 0,
    decreases events.len(),
{
    if events.len() > 0 {
        lemma_total_nonnegative(events.drop_last());
        lemma_event_weight_nonnegative(events.last().event);
    }
}

proof fn lemma_first(events: Seq<QueuedView>)
    requires
        events.len() > 0,
    ensures
        total_bytes(events) == event_weight(events.first().event) + total_bytes(
            events.drop_first(),
        ),
        forall|terminal: bool|
            #[trigger] count_kind(events, terminal) == count_kind(events.drop_first(), terminal)
                + if events.first().terminal == terminal {
                1nat
            } else {
                0nat
            },
    decreases events.len(),
{
    if events.len() == 1 {
        assert(events.drop_first() =~= Seq::empty());
        assert(events.drop_last() =~= Seq::empty());
        assert forall|terminal: bool| #[trigger]
            count_kind(events, terminal) == count_kind(events.drop_first(), terminal)
                + if events.first().terminal == terminal {
                1nat
            } else {
                0nat
            } by {
            assert(count_kind(events.drop_last(), terminal) == 0);
        }
    } else {
        lemma_first(events.drop_last());
        let rest = events.drop_first();
        assert(rest.drop_last() =~= events.drop_last().drop_first());
        assert(rest.last() == events.last());
        assert(events.drop_last().first() == events.first());
        assert forall|terminal: bool| #[trigger]
            count_kind(events, terminal) == count_kind(events.drop_first(), terminal)
                + if events.first().terminal == terminal {
                1nat
            } else {
                0nat
            } by {
            assert(count_kind(events.drop_last(), terminal) == count_kind(
                events.drop_last().drop_first(),
                terminal,
            ) + if events.first().terminal == terminal {
                1nat
            } else {
                0nat
            });
        }
    }
}

proof fn lemma_last_bounds(events: Seq<QueuedView>)
    requires
        events.len() > 0,
    ensures
        event_weight(events.last().event) <= total_bytes(events),
{
    lemma_total_nonnegative(events.drop_last());
}

/// What the queue looks like after a push that may not be lost; nothing
/// where the push is refused.
pub open spec fn terminal_pushed(mailbox: MailboxView, event: EventView) -> Option<MailboxView> {
    if mailbox.closed || count_kind(mailbox.events, true) >= THREAD_TERMINAL_CAPACITY
        || total_bytes(mailbox.events) + event_weight(event) > THREAD_MAILBOX_BYTE_BUDGET {
        None
    } else {
        Some(
            MailboxView { events: mailbox.events.push(QueuedView { terminal: true, event }), ..mailbox },
        )
    }
}

/// Whether a fragment joins the last waiting event.
pub open spec fn joins_last(events: Seq<QueuedView>, event: EventView) -> bool {
    stream_of(event) is Some && events.len() > 0 && !events.last().terminal && stream_of(
        events.last().event,
    ) == stream_of(event)
}

/// What the queue looks like after a push that may be lost.
pub open spec fn lossy_pushed(mailbox: MailboxView, event: EventView) -> MailboxView {
    let events = mailbox.events;
    let added = byte_len(fragment_of(event)) as int;
    if mailbox.closed || (stream_of(event) is Some && event_weight(event)
        > THREAD_DELTA_BYTE_LIMIT) {
        mailbox
    } else if joins_last(events, event) {
        if event_weight(events.last().event) + added <= THREAD_DELTA_BYTE_LIMIT && total_bytes(
            events,
        ) + added <= THREAD_MAILBOX_BYTE_BUDGET {
            MailboxView {
                events: events.drop_last().push(
                    QueuedView { terminal: false, event: merged(events.last().event, event) },
                ),
                ..mailbox
            }
        } else {
            mailbox
        }
    } else if count_kind(events, false) >= THREAD_EVENT_CAPACITY || total_bytes(events)
        + event_weight(event) > THREAD_MAILBOX_BYTE_BUDGET {
        mailbox
    } else {
        MailboxView { events: events.push(QueuedView { terminal: false, event }), ..mailbox }
    }
}

/// What an invalidated queue holds: the one event that says so.
pub open spec fn invalidated_mailbox(
    thread_id: Seq<char>,
    reason: SubscriptionInvalidation,
) -> MailboxView {
    MailboxView {
        events: seq![
            QueuedView {
                terminal: true,
                event: EventView::SubscriptionInvalidated { thread_id, reason },
            },
        ],
        closed: true,
    }
}

/// What a read found.
pub enum Received {
    Event(AppServerEvent),
    Closed,
    Empty,
}

/// Bounded event queue.
pub struct Mailbox {
    events: Vec<QueuedEvent>,
    terminal_count: usize,
    regular_count: usize,
    queued_bytes: usize,
    closed: bool,
}

impl View for Mailbox {
    type V = MailboxView;

    closed spec fn view(&self) -> MailboxView {
        MailboxView {
            events: self.events@.map_values(|queued: QueuedEvent| queued@),
            closed: self.closed,
        }
    }
}

/// Whether the queue is within its three bounds.
pub open spec fn within_bounds(events: Seq<QueuedView>) -> bool {
    &&& count_kind(events, true) <= THREAD_TERMINAL_CAPACITY
    &&& count_kind(events, false) <= THREAD_EVENT_CAPACITY
    &&& total_bytes(events) <= THREAD_MAILBOX_BYTE_BUDGET
}

impl Mailbox {
    /// The counters tell the truth about the queue, and it is within bounds.
    pub closed spec fn wf(&self) -> bool {
        &&& self.terminal_count == count_kind(self@.events, true)
        &&& self.regular_count == count_kind(self@.events, false)
        &&& self.queued_bytes == total_bytes(self@.events)
        &&& within_bounds(self@.events)
        &&& forall|k: int|
            0 <= k < self.events@.len() ==> (#[trigger] self.events@[k]).byte_len == event_weight(
                self.events@[k].event@,
            )
    }

    /// A queue is never over its bounds.
    pub proof fn lemma_within_bounds(&self)
        requires
            self.wf(),
        ensures
            within_bounds(self@.events),
    {
    }

    pub fn new() -> (mailbox: Mailbox)
        ensures
            mailbox.wf(),
            mailbox@ == (MailboxView { events: Seq::empty(), closed: false }),
    {
        let mailbox = Mailbox {
            events: Vec::new(),
            terminal_count: 0,
            regular_count: 0,
            queued_bytes: 0,
            closed: false,
        };
        proof {
            assert(mailbox@.events =~= Seq::empty());
        }
        mailbox
    }

    pub fn is_closed(&self) -> (closed: bool)
        ensures
            closed == self@.closed,
    {
        self.closed
    }

    /// Takes no more events; what waits can still be read.
    pub fn close(&mut self)
        requires
            old(self).wf(),
        ensures
            final(self).wf(),
            final(self)@ == (MailboxView { closed: true, ..old(self)@ }),
    {
        self.closed = true;
    }

    fn append_event(&mut self, byte_len: usize, terminal: bool, event: AppServerEvent)
        requires
            old(self).wf(),
            byte_len == event_weight(event@),
            total_bytes(old(self)@.events) + byte_len <= THREAD_MAILBOX_BYTE_BUDGET,
            terminal ==> count_kind(old(self)@.events, true) < THREAD_TERMINAL_CAPACITY,
            !terminal ==> count_kind(old(self)@.events, false) < THREAD_EVENT_CAPACITY,
        ensures
            final(self).wf(),
            final(self)@ == (MailboxView {
                events: old(self)@.events.push(QueuedView { terminal, event: event@ }),
                ..old(self)@
            }),
    {
        self.queued_bytes = self.queued_bytes + byte_len;
        if terminal {
            self.terminal_count = self.terminal_count + 1;
        } else {
            self.regular_count = self.regular_count + 1;
        }
        self.events.push(QueuedEvent { byte_len, terminal, event });
        proof {
            let added = QueuedView { terminal, event: event@ };
            assert(self@.events =~= old(self)@.events.push(added));
            assert(self@.events.drop_last() =~= old(self)@.events);
            assert(self@.events.last() == added);
        }
    }

    /// Queues an event that may not be lost. A refused push leaves the queue
    /// as it was.
    pub fn push_terminal(&mut self, event: AppServerEvent) -> (accepted: bool)
        requires
            old(self).wf(),
        ensures
            final(self).wf(),
            match terminal_pushed(old(self)@, event@) {
                Some(next) => accepted && final(self)@ == next,
                None => !accepted && final(self)@ == old(self)@,
            },
    {
        if self.closed || self.terminal_count >= THREAD_TERMINAL_CAPACITY {
            return false;
        }
        let byte_len: usize = event_memory_weight(&event);
        if self.queued_bytes.saturating_add(byte_len) > THREAD_MAILBOX_BYTE_BUDGET {
            return false;
        }
        self.append_event(byte_len, true, event);
        true
    }

    fn merge_last(&mut self, event: AppServerEvent)
        requires
            old(self).wf(),
            joins_last(old(self)@.events, event@),
            event_weight(old(self)@.events.last().event) + byte_len(fragment_of(event@))
                <= THREAD_DELTA_BYTE_LIMIT,
            total_bytes(old(self)@.events) + byte_len(fragment_of(event@))
                <= THREAD_MAILBOX_BYTE_BUDGET,
        ensures
            final(self).wf(),
            final(self)@ == (MailboxView {
                events: old(self)@.events.drop_last().push(
                    QueuedView {
                        terminal: false,
                        event: merged(old(self)@.events.last().event, event@),
                    },
                ),
                ..old(self)@
            }),
    {
        let ghost before = self@.events;
        let added: usize = delta_text_len(&event);
        let last = self.events.pop();
        if let Some(last) = last {
            let ghost held = last.event@;
            proof {
                assert(before.last() == last@);
                lemma_last_bounds(before);
            }
            let mut held_event = last.event;
            let done = merge_delta(&mut held_event, event, THREAD_DELTA_BYTE_LIMIT);
            proof {
                assert(done);
                lemma_merged_weight(held, event@);
            }
            let byte_len: usize = event_memory_weight(&held_event);
            self.queued_bytes = self.queued_bytes - last.byte_len + byte_len;
            self.events.push(QueuedEvent { byte_len, terminal: false, event: held_event });
            proof {
                let joined = QueuedView { terminal: false, event: merged(held, event@) };
                assert(self@.events =~= before.drop_last().push(joined));
                assert(self@.events.drop_last() =~= before.drop_last());
                assert(self@.events.last() == joined);
            }
        }
    }

    /// Queues an event that may be lost: a closed or full queue drops it, and
    /// a fragment joins the last waiting fragment of its stream.
    pub fn push_lossy(&mut self, event: AppServerEvent)
        requires
            old(self).wf(),
        ensures
            final(self).wf(),
            final(self)@ == lossy_pushed(old(self)@, event@),
    {
        if self.closed {
            return;
        }
        let byte_len: usize = event_memory_weight(&event);
        let is_delta = delta_stream(&event).is_some();
        if is_delta && byte_len > THREAD_DELTA_BYTE_LIMIT {
            return;
        }
        if is_delta && self.events.len() > 0 {
            let last = &self.events[self.events.len() - 1];
            proof {
                assert(self@.events.last() == last@);
                lemma_last_bounds(self@.events);
            }
            if !last.terminal && same_delta_stream(&last.event, &event) {
                let added: usize = delta_text_len(&event);
                let merged_weight: usize = last.byte_len.saturating_add(added);
                if merged_weight <= THREAD_DELTA_BYTE_LIMIT && self.queued_bytes.saturating_add(
                    added,
                ) <= THREAD_MAILBOX_BYTE_BUDGET {
                    self.merge_last(event);
                }
                return;
            }
        }
        if self.regular_count >= THREAD_EVENT_CAPACITY || self.queued_bytes.saturating_add(byte_len)
            > THREAD_MAILBOX_BYTE_BUDGET {
            return;
        }
        self.append_event(byte_len, false, event);
    }

    /// Takes the oldest waiting event.
    pub fn recv(&mut self) -> (received: Received)
        requires
            old(self).wf(),
        ensures
            taken_first(old(self)@) == (
                final(self)@,
                match received {
                    Received::Event(event) => Some(event@),
                    _ => None,
                },
            ),
            final(self).wf(),
            final(self)@.closed == old(self)@.closed,
            match received {
                Received::Event(event) => old(self)@.events.len() > 0 && event@
                    == old(self)@.events.first().event && final(self)@.events
                    == old(self)@.events.drop_first(),
                Received::Closed => old(self)@.events.len() == 0 && old(self)@.closed
                    && final(self)@ == old(self)@,
                Received::Empty => old(self)@.events.len() == 0 && !old(self)@.closed
                    && final(self)@ == old(self)@,
            },
    {
        if self.events.len() == 0 {
            return if self.closed {
                Received::Closed
            } else {
                Received::Empty
            };
        }
        proof {
            lemma_first(self@.events);
            lemma_event_weight_nonnegative(self@.events.first().event);
            lemma_total_nonnegative(self@.events.drop_first());
        }
        let queued = self.events.remove(0);
        proof {
            assert(old(self)@.events.first() == queued@);
            assert(self@.events =~= old(self)@.events.drop_first());
            assert(count_kind(old(self)@.events, true) >= 0);
            assert(count_kind(old(self)@.events, false) >= 0);
        }
        self.queued_bytes = self.queued_bytes - queued.byte_len;
        if queued.terminal {
            self.terminal_count = self.terminal_count - 1;
        } else {
            self.regular_count = self.regular_count - 1;
        }
        Received::Event(queued.event)
    }

    /// Drops everything that waits, leaves the one event that says why, and
    /// takes no more.
    pub fn invalidate(&mut self, thread_id: ThreadId, reason: SubscriptionInvalidation)
        requires
            old(self).wf(),
        ensures
            final(self).wf(),
            final(self)@ == invalidated_mailbox(thread_id@, reason),
    {
        let event = AppServerEvent::SubscriptionInvalidated { thread_id, reason };
        let byte_len: usize = event_memory_weight(&event);
        let mut events: Vec<QueuedEvent> = Vec::new();
        events.push(QueuedEvent { byte_len, terminal: true, event });
        self.events = events;
        self.terminal_count = 1;
        self.regular_count = 0;
        self.queued_bytes = byte_len;
        self.closed = true;
        proof {
            let view = invalidated_mailbox(thread_id@, reason);
            assert(self@.events =~= view.events);
            assert(view.events.drop_last() =~= Seq::empty());
            assert(count_kind(view.events.drop_last(), true) == 0);
            assert(count_kind(view.events.drop_last(), false) == 0);
            assert(total_bytes(view.events.drop_last()) == 0);
        }
    }
}

proof fn lemma_merged_weight(existing: EventView, incoming: EventView)
    requires
        stream_of(existing) is Some,
        event_weight(existing) + byte_len(fragment_of(incoming)) <= THREAD_DELTA_BYTE_LIMIT,
    ensures
        event_weight(merged(existing, incoming)) == event_weight(existing) + byte_len(
            fragment_of(incoming),
        ),
        byte_len(fragment_of(existing)) <= event_weight(existing),
{
    lemma_utf8_concat(fragment_of(existing), fragment_of(incoming));
}

/// The waiting events that may not be lost, in order.
pub open spec fn terminal_events(events: Seq<QueuedView>) -> Seq<EventView>
    decreases events.len(),
{
    if events.len() == 0 {
        Seq::empty()
    } else if events.last().terminal {
        terminal_events(events.drop_last()).push(events.last().event)
    } else {
        terminal_events(events.drop_last())
    }
}

/// The waiting text of one stream.
pub open spec fn stream_text(
    events: Seq<QueuedView>,
    stream: (Seq<char>, Seq<char>, bool),
) -> Seq<char>
    decreases events.len(),
{
    if events.len() == 0 {
        Seq::empty()
    } else if stream_of(events.last().event) == Some(stream) {
        stream_text(events.drop_last(), stream) + fragment_of(events.last().event)
    } else {
        stream_text(events.drop_last(), stream)
    }
}

/// A push that may be lost never displaces an event that may not.
pub proof fn lossy_push_keeps_terminal_events(mailbox: MailboxView, event: EventView)
    ensures
        terminal_events(lossy_pushed(mailbox, event).events) == terminal_events(mailbox.events),
{
    let after = lossy_pushed(mailbox, event).events;
    if after != mailbox.events {
        if joins_last(mailbox.events, event) {
            assert(after.drop_last() =~= mailbox.events.drop_last());
        } else {
            assert(after.drop_last() =~= mailbox.events);
        }
    }
}

/// Merging loses no text: a fragment is either appended whole to the waiting
/// text of its stream or dropped whole, and no other stream changes.
pub proof fn fragments_are_appended_or_dropped_whole(
    mailbox: MailboxView,
    event: EventView,
    stream: (Seq<char>, Seq<char>, bool),
)
    ensures
        ({
            let before = stream_text(mailbox.events, stream);
            let after = stream_text(lossy_pushed(mailbox, event).events, stream);
            after == before || (stream_of(event) == Some(stream) && after == before + fragment_of(
                event,
            ))
        }),
{
    let after = lossy_pushed(mailbox, event).events;
    if after != mailbox.events {
        if joins_last(mailbox.events, event) {
            assert(after.drop_last() =~= mailbox.events.drop_last());
            let earlier = stream_text(mailbox.events.drop_last(), stream);
            let held = fragment_of(mailbox.events.last().event);
            assert(earlier + (held + fragment_of(event)) =~= (earlier + held) + fragment_of(event));
        } else {
            assert(after.drop_last() =~= mailbox.events);
        }
    }
}

/// An event that may not be lost waits behind all others, as it is, exactly
/// while the mailbox is open and has room for it.
pub proof fn terminal_events_wait_last(mailbox: MailboxView, event: EventView)
    ensures
        ({
            let room = !mailbox.closed && count_kind(mailbox.events, true)
                < THREAD_TERMINAL_CAPACITY && total_bytes(mailbox.events) + event_weight(event)
                <= THREAD_MAILBOX_BYTE_BUDGET;
            match terminal_pushed(mailbox, event) {
                Some(next) => {
                    &&& room
                    &&& next.events == mailbox.events.push(QueuedView { terminal: true, event })
                    &&& !next.closed
                },
                None => !room,
            }
        }),
{
}

/// An event that may be lost changes nothing that waits but the last event,
/// and that only by adding its own text to a fragment of the same stream. A
/// closed mailbox takes none.
pub proof fn lossy_events_wait_last(mailbox: MailboxView, event: EventView)
    ensures
        ({
            let held = mailbox.events;
            let next = lossy_pushed(mailbox, event);
            let room = count_kind(held, false) < THREAD_EVENT_CAPACITY && total_bytes(held)
                + event_weight(event) <= THREAD_MAILBOX_BYTE_BUDGET;
            let fragment = event is AgentMessageDelta || event is CommandOutputDelta;
            &&& next.closed == mailbox.closed
            &&& mailbox.closed ==> next == mailbox
            &&& !mailbox.closed && !fragment && room ==> next.events == held.push(
                QueuedView { terminal: false, event },
            )
            &&& !fragment && !room ==> next == mailbox
            &&& fragment && event_weight(event) > THREAD_DELTA_BYTE_LIMIT ==> next == mailbox
            &&& next == mailbox || next.events == held.push(QueuedView { terminal: false, event })
                || (held.len() > 0 && !held.last().terminal && next.events.len() == held.len()
                && next.events.drop_last() == held.drop_last() && !next.events.last().terminal
                && match (event, held.last().event, next.events.last().event) {
                (
                    EventView::AgentMessageDelta { turn_id, item_id, delta },
                    EventView::AgentMessageDelta { turn_id: turn, item_id: item, delta: before },
                    EventView::AgentMessageDelta { turn_id: t, item_id: i, delta: after },
                ) => turn == turn_id && item == item_id && t == turn_id && i == item_id && after
                    == before + delta,
                (
                    EventView::CommandOutputDelta { turn_id, item_id, delta },
                    EventView::CommandOutputDelta { turn_id: turn, item_id: item, delta: before },
                    EventView::CommandOutputDelta { turn_id: t, item_id: i, delta: after },
                ) => turn == turn_id && item == item_id && t == turn_id && i == item_id && after
                    == before + delta,
                _ => false,
            })
        }),
{
    let held = mailbox.events;
    let next = lossy_pushed(mailbox, event);
    if next != mailbox && joins_last(held, event) {
        assert(next.events.drop_last() =~= held.drop_last());
    }
}

/// A fragment that fits is not dropped: it waits behind what waits, or it is
/// added to the fragment of its own stream where that is the last event.
pub proof fn fitting_fragments_are_kept(
    mailbox: MailboxView,
    turn_id: Seq<char>,
    item_id: Seq<char>,
    delta: Seq<char>,
    output: bool,
)
    requires
        !mailbox.closed,
        count_kind(mailbox.events, false) < THREAD_EVENT_CAPACITY,
        total_bytes(mailbox.events) + 128 + byte_len(turn_id) + byte_len(item_id) + byte_len(delta)
            <= THREAD_MAILBOX_BYTE_BUDGET,
        128 + byte_len(turn_id) + byte_len(item_id) + byte_len(delta) <= THREAD_DELTA_BYTE_LIMIT,
        mailbox.events.len() > 0 && !mailbox.events.last().terminal ==> event_weight(
            mailbox.events.last().event,
        ) + byte_len(delta) <= THREAD_DELTA_BYTE_LIMIT,
    ensures
        ({
            let event = if output {
                EventView::CommandOutputDelta { turn_id, item_id, delta }
            } else {
                EventView::AgentMessageDelta { turn_id, item_id, delta }
            };
            let stream = (turn_id, item_id, output);
            let next = lossy_pushed(mailbox, event);
            &&& stream_text(next.events, stream) == stream_text(mailbox.events, stream) + delta
            &&& next.events.last().event is CommandOutputDelta <==> output
            &&& next.events.last().event is AgentMessageDelta <==> !output
        }),
{
    let event = if output {
        EventView::CommandOutputDelta { turn_id, item_id, delta }
    } else {
        EventView::AgentMessageDelta { turn_id, item_id, delta }
    };
    let stream = (turn_id, item_id, output);
    let held = mailbox.events;
    let after = lossy_pushed(mailbox, event).events;
    if joins_last(held, event) {
        assert(after.drop_last() =~= held.drop_last());
        let earlier = stream_text(held.drop_last(), stream);
        let last = fragment_of(held.last().event);
        assert(earlier + (last + delta) =~= (earlier + last) + delta);
    } else {
        assert(after.drop_last() =~= held);
    }
}

/// An invalidated mailbox is closed and holds the one event that says of which
/// thread and why.
pub proof fn invalidated_mailboxes_say_why(
    thread_id: Seq<char>,
    reason: SubscriptionInvalidation,
)
    ensures
        ({
            let mailbox = invalidated_mailbox(thread_id, reason);
            &&& mailbox.closed
            &&& mailbox.events.len() == 1
            &&& mailbox.events[0].terminal
            &&& mailbox.events[0].event == (EventView::SubscriptionInvalidated {
                thread_id,
                reason,
            })
        }),
{
}

/// Every waiting event counts, as one of its kind and with its own weight.
pub proof fn waiting_events_count(events: Seq<QueuedView>, queued: QueuedView)
    ensures
        count_kind(events.push(queued), queued.terminal) == count_kind(events, queued.terminal) + 1,
        count_kind(events.push(queued), !queued.terminal) == count_kind(events, !queued.terminal),
        total_bytes(events.push(queued)) == total_bytes(events) + event_weight(queued.event),
        count_kind(events, true) + count_kind(events, false) == events.len(),
    decreases events.len(),
{
    assert(events.push(queued).drop_last() =~= events);
    if events.len() > 0 {
        let head = events.drop_last();
        waiting_events_count(head, events.last());
    }
}

/// What a read takes: the event that waits longest, and what is left.
pub open spec fn taken_first(mailbox: MailboxView) -> (MailboxView, Option<EventView>) {
    if mailbox.events.len() > 0 {
        (
            MailboxView { events: mailbox.events.drop_first(), ..mailbox },
            Some(mailbox.events.first().event),
        )
    } else {
        (mailbox, None)
    }
}

/// Events are read in the order in which they came, each once, also after the
/// mailbox was closed: an event behind others is read once those are.
pub proof fn events_are_read_in_order(mailbox: MailboxView, queued: QueuedView)
    ensures
        ({
            let longer = MailboxView { events: mailbox.events.push(queued), ..mailbox };
            let (rest, event) = taken_first(longer);
            &&& mailbox.events.len() > 0 ==> event == Some(mailbox.events[0].event) && rest
                == (MailboxView {
                events: taken_first(mailbox).0.events.push(queued),
                ..mailbox
            })
            &&& mailbox.events.len() == 0 ==> event == Some(queued.event) && rest == mailbox
            &&& taken_first(mailbox).0.events.len() <= mailbox.events.len()
            &&& mailbox.events.len() == 0 ==> taken_first(mailbox) == (mailbox, None::<EventView>)
        }),
{
    let longer = mailbox.events.push(queued);
    if mailbox.events.len() > 0 {
        assert(longer.drop_first() =~= mailbox.events.drop_first().push(queued));
    } else {
        assert(longer.drop_first() =~= mailbox.events);
    }
}

} // verus!
