//! The requests that reconciliation and writes read an external endpoint with.
use vstd::prelude::*;

use crate::codex::compat::SortDirection;
use crate::codex::compat::ThreadItemsListParams;
use crate::codex::compat::ThreadQueueListParams;
use crate::codex::compat::ThreadReadParams;
use crate::codex::compat::ThreadResumeParams;
use crate::codex::compat::ThreadTurnsListParams;
use crate::codex::mutation::MutationAction;
use crate::codex::mutation::MutationActionView;
use crate::codex::thread_reconcile::ActionView;
use crate::codex::thread_reconcile::ReconcileAction;
use crate::codex::types::duplicate_option;
use crate::codex::types::text_option;
use crate::limits::EXTERNAL_MESSAGE_SEARCH_PAGE_SIZE;
use crate::limits::EXTERNAL_RECONCILE_PAGE_SIZE;

verus! {

/// A read of an external endpoint.
pub enum ReadRequest {
    Resume(ThreadResumeParams),
    Read(ThreadReadParams),
    Turns(ThreadTurnsListParams),
    Items(ThreadItemsListParams),
    Queue(ThreadQueueListParams),
}

/// Content of a read. A resume overrides no approval setting.
pub enum ReadView {
    Resume { thread_id: Seq<char>, exclude_turns: Option<bool> },
    Read { thread_id: Seq<char>, include_turns: Option<bool> },
    Turns {
        thread_id: Seq<char>,
        cursor: Option<Seq<char>>,
        limit: Option<u32>,
        direction: Option<SortDirection>,
    },
    Items {
        thread_id: Seq<char>,
        turn_id: Option<Seq<char>>,
        cursor: Option<Seq<char>>,
        limit: Option<u32>,
        direction: Option<SortDirection>,
    },
    Queue { thread_id: Seq<char>, cursor: Option<Seq<char>>, limit: Option<u32> },
}

/// Whether a request is a read with this content.
pub open spec fn reads(request: ReadRequest, view: ReadView) -> bool {
    match (request, view) {
        (ReadRequest::Resume(params), ReadView::Resume { thread_id, exclude_turns }) => {
            &&& params.thread_id@ == thread_id
            &&& params.exclude_turns == exclude_turns
            &&& params.approval_policy is None
            &&& params.approvals_reviewer is None
        },
        (ReadRequest::Read(params), ReadView::Read { thread_id, include_turns }) => {
            &&& params.thread_id@ == thread_id
            &&& params.include_turns == include_turns
        },
        (ReadRequest::Turns(params), ReadView::Turns { thread_id, cursor, limit, direction }) => {
            &&& params.thread_id@ == thread_id
            &&& text_option(params.cursor) == cursor
            &&& params.limit == limit
            &&& params.sort_direction == direction
        },
        (
            ReadRequest::Items(params),
            ReadView::Items { thread_id, turn_id, cursor, limit, direction },
        ) => {
            &&& params.thread_id@ == thread_id
            &&& text_option(params.turn_id) == turn_id
            &&& text_option(params.cursor) == cursor
            &&& params.limit == limit
            &&& params.sort_direction == direction
        },
        (ReadRequest::Queue(params), ReadView::Queue { thread_id, cursor, limit }) => {
            &&& params.thread_id@ == thread_id
            &&& text_option(params.cursor) == cursor
            &&& params.limit == limit
        },
        _ => false,
    }
}

/// Whether an optional request is an optional read with this content.
pub open spec fn reads_option(request: Option<ReadRequest>, view: Option<ReadView>) -> bool {
    match (request, view) {
        (Some(request), Some(view)) => reads(request, view),
        (None, None) => true,
        _ => false,
    }
}

/// What a step of a reconciliation reads: no turns with the thread itself, and
/// pages of turns and items in ascending order.
pub open spec fn reconcile_read(thread_id: Seq<char>, action: ActionView) -> Option<ReadView> {
    match action {
        ActionView::Resume => Some(ReadView::Resume { thread_id, exclude_turns: Some(true) }),
        ActionView::Read => Some(ReadView::Read { thread_id, include_turns: Some(false) }),
        ActionView::ListTurns { cursor } => Some(
            ReadView::Turns {
                thread_id,
                cursor,
                limit: Some(EXTERNAL_RECONCILE_PAGE_SIZE),
                direction: Some(SortDirection::Ascending),
            },
        ),
        ActionView::ListItems { turn_id, cursor } => Some(
            ReadView::Items {
                thread_id,
                turn_id: Some(turn_id),
                cursor,
                limit: Some(EXTERNAL_RECONCILE_PAGE_SIZE),
                direction: Some(SortDirection::Ascending),
            },
        ),
        ActionView::Apply { .. } => None,
    }
}

impl ReconcileAction {
    /// What the step reads of its thread; nothing where it writes.
    pub fn read_request(&self, thread_id: &str) -> (request: Option<ReadRequest>)
        ensures
            reads_option(request, reconcile_read(thread_id@, self@)),
    {
        let thread_id = thread_id.to_owned();
        match self {
            ReconcileAction::Resume => Some(
                ReadRequest::Resume(
                    ThreadResumeParams {
                        thread_id,
                        approval_policy: None,
                        approvals_reviewer: None,
                        exclude_turns: Some(true),
                    },
                ),
            ),
            ReconcileAction::Read => Some(
                ReadRequest::Read(ThreadReadParams { thread_id, include_turns: Some(false) }),
            ),
            ReconcileAction::ListTurns { cursor } => Some(
                ReadRequest::Turns(
                    ThreadTurnsListParams {
                        thread_id,
                        cursor: duplicate_option(cursor),
                        limit: Some(EXTERNAL_RECONCILE_PAGE_SIZE),
                        sort_direction: Some(SortDirection::Ascending),
                    },
                ),
            ),
            ReconcileAction::ListItems { turn_id, cursor } => Some(
                ReadRequest::Items(
                    ThreadItemsListParams {
                        thread_id,
                        turn_id: Some(turn_id.clone()),
                        cursor: duplicate_option(cursor),
                        limit: Some(EXTERNAL_RECONCILE_PAGE_SIZE),
                        sort_direction: Some(SortDirection::Ascending),
                    },
                ),
            ),
            ReconcileAction::Apply { .. } => None,
        }
    }
}

/// What a step of a write reads: no turns with the thread itself, the newest
/// turns first, the first entries of the queue, and the first items of a turn.
pub open spec fn mutation_read(thread_id: Seq<char>, action: MutationActionView) -> Option<
    ReadView,
> {
    match action {
        MutationActionView::ReadThread => Some(
            ReadView::Read { thread_id, include_turns: Some(false) },
        ),
        MutationActionView::ListTurns { limit } => Some(
            ReadView::Turns {
                thread_id,
                cursor: None,
                limit: Some(limit),
                direction: Some(SortDirection::Descending),
            },
        ),
        MutationActionView::ListQueue { limit } => Some(
            ReadView::Queue { thread_id, cursor: None, limit: Some(limit) },
        ),
        MutationActionView::FindMessage { turn_id, .. } => Some(
            ReadView::Items {
                thread_id,
                turn_id: Some(turn_id),
                cursor: None,
                limit: Some(EXTERNAL_MESSAGE_SEARCH_PAGE_SIZE),
                direction: Some(SortDirection::Ascending),
            },
        ),
        _ => None,
    }
}

impl MutationAction {
    /// What the step reads of its thread; nothing where it does something else.
    pub fn read_request(&self, thread_id: &str) -> (request: Option<ReadRequest>)
        ensures
            reads_option(request, mutation_read(thread_id@, self@)),
    {
        let thread_id = thread_id.to_owned();
        match self {
            MutationAction::ReadThread => Some(
                ReadRequest::Read(ThreadReadParams { thread_id, include_turns: Some(false) }),
            ),
            MutationAction::ListTurns { limit } => Some(
                ReadRequest::Turns(
                    ThreadTurnsListParams {
                        thread_id,
                        cursor: None,
                        limit: Some(*limit),
                        sort_direction: Some(SortDirection::Descending),
                    },
                ),
            ),
            MutationAction::ListQueue { limit } => Some(
                ReadRequest::Queue(
                    ThreadQueueListParams { thread_id, cursor: None, limit: Some(*limit) },
                ),
            ),
            MutationAction::FindMessage { turn_id, .. } => Some(
                ReadRequest::Items(
                    ThreadItemsListParams {
                        thread_id,
                        turn_id: Some(turn_id.clone()),
                        cursor: None,
                        limit: Some(EXTERNAL_MESSAGE_SEARCH_PAGE_SIZE),
                        sort_direction: Some(SortDirection::Ascending),
                    },
                ),
            ),
            _ => None,
        }
    }
}

/// A request of a reconciliation reads its own thread from where it says: a
/// page from the cursor asked for, the items of the turn asked for, and in the
/// order in which they came to be. The durable write at the end reads nothing.
pub proof fn reconciliations_read_what_they_ask_for(
    thread_id: Seq<char>,
    action: ActionView,
    request: ReadRequest,
)
    ensures
        action is Apply <==> reconcile_read(thread_id, action) is None,
        reads_option(Some(request), reconcile_read(thread_id, action)) ==> match (action, request) {
            (ActionView::Resume, ReadRequest::Resume(params)) => params.thread_id@ == thread_id
                && params.exclude_turns == Some(true) && params.approval_policy is None
                && params.approvals_reviewer is None,
            (ActionView::Read, ReadRequest::Read(params)) => params.thread_id@ == thread_id
                && params.include_turns == Some(false),
            (ActionView::ListTurns { cursor }, ReadRequest::Turns(params)) => params.thread_id@
                == thread_id && text_option(params.cursor) == cursor && params.limit == Some(
                EXTERNAL_RECONCILE_PAGE_SIZE,
            ) && params.sort_direction == Some(SortDirection::Ascending),
            (ActionView::ListItems { turn_id, cursor }, ReadRequest::Items(params)) =>
                params.thread_id@ == thread_id && text_option(params.turn_id) == Some(turn_id)
                    && text_option(params.cursor) == cursor && params.limit == Some(
                    EXTERNAL_RECONCILE_PAGE_SIZE,
                ) && params.sort_direction == Some(SortDirection::Ascending),
            _ => false,
        },
{
}

/// What a write reads it reads of its own thread: the state without the turns,
/// the newest turns first, the head of the queue, and of the items those of the
/// turn that the message is sought in, from the first on.
pub proof fn writes_read_what_they_ask_for(
    thread_id: Seq<char>,
    action: MutationActionView,
    request: ReadRequest,
)
    ensures
        mutation_read(thread_id, action) is Some <==> action is ReadThread || action is ListTurns
            || action is ListQueue || action is FindMessage,
        reads_option(Some(request), mutation_read(thread_id, action)) ==> match (action, request) {
            (MutationActionView::ReadThread, ReadRequest::Read(params)) => params.thread_id@
                == thread_id && params.include_turns == Some(false),
            (MutationActionView::ListTurns { limit }, ReadRequest::Turns(params)) =>
                params.thread_id@ == thread_id && params.cursor is None && params.limit == Some(
                    limit,
                ) && params.sort_direction == Some(SortDirection::Descending),
            (MutationActionView::ListQueue { limit }, ReadRequest::Queue(params)) =>
                params.thread_id@ == thread_id && params.cursor is None && params.limit == Some(
                    limit,
                ),
            (MutationActionView::FindMessage { turn_id, .. }, ReadRequest::Items(params)) =>
                params.thread_id@ == thread_id && text_option(params.turn_id) == Some(turn_id)
                    && params.cursor is None && params.limit == Some(
                    EXTERNAL_MESSAGE_SEARCH_PAGE_SIZE,
                ) && params.sort_direction == Some(SortDirection::Ascending),
            _ => false,
        },
{
}

} // verus!
