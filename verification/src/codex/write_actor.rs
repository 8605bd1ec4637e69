//! The one writer of an external endpoint: what each event of its connection
//! and each command leads to, and when the writer may not go on.
use vstd::prelude::*;

use crate::codex::approvals::pending_of;
use crate::codex::approvals::request_key_from_value;
use crate::codex::approvals::request_key_of;
use crate::codex::approvals::resolved_requests_are_waited_for_no_more;
use crate::codex::approvals::without_request;
use crate::codex::approvals::ApprovalDesk;
use crate::codex::approvals::DeskView;
use crate::codex::external_recovery::ExternalEndpointState;
use crate::codex::external_transport::approval_token;
use crate::codex::external_transport::ExternalApprovalRequest;
use crate::codex::external_transport::ExternalReadEvent;
use crate::codex::external_transport::ExternalTransportError;
use crate::codex::external_write::error_of;
use crate::codex::external_write::fatal_error;
use crate::codex::external_write::is_fatal_result;
use crate::codex::external_write::ExternalMutationApplied;
use crate::codex::external_write::ExternalWriteError;
use crate::codex::external_write::ExternalWriteSettings;
use crate::codex::external_write::TransitionOutcome;
use crate::codex::protocol::id_json;
use crate::codex::reconcile::terminal_status;
use crate::codex::reconcile::terminal_status_of;
use crate::codex::reconcile::ExternalTerminalStatus;
use crate::codex::reconcile::ExternalUncertaintyReason;
use crate::codex::types::TurnStatusView;
use crate::json::json;
use crate::keyed::unique_keys;
use crate::text::same_text;

verus! {

/// What an event of the connection leads to.
pub enum WriterReaction {
    Nothing,
    /// Record that an item finished; a failure to do so changes nothing.
    RecordItem { thread_id: String, turn_id: String, item_id: String },
    /// Record that a turn ended; a failure to do so changes nothing.
    RecordTurn { thread_id: String, turn_id: String, status: ExternalTerminalStatus },
    /// Take an approval request in.
    ReceiveApproval { request: ExternalApprovalRequest },
    /// Record that the server resolved a request.
    ResolveRequest { request_key: String },
    /// The writer may not go on.
    Stop,
}

/// Whether a reaction is the one that an event calls for.
pub open spec fn reacts(
    approval_reviewer: Seq<char>,
    event: Result<Option<ExternalReadEvent>, ExternalTransportError>,
    reaction: WriterReaction,
) -> bool {
    match event {
        Err(_) => reaction is Stop,
        Ok(None) => reaction is Stop,
        Ok(Some(ExternalReadEvent::Closed(_))) => reaction is Stop,
        Ok(Some(ExternalReadEvent::ItemCompleted { thread_id, turn_id, item })) => match item.id {
            Some(item_id) => {
                &&& reaction is RecordItem
                &&& reaction->RecordItem_thread_id@ == thread_id@
                &&& reaction->RecordItem_turn_id@ == turn_id@
                &&& reaction->item_id@ == item_id@
            },
            None => reaction is Nothing,
        },
        Ok(Some(ExternalReadEvent::TurnCompleted { thread_id, turn })) => match terminal_status_of(
            turn@.status,
        ) {
            Some(status) => {
                &&& reaction is RecordTurn
                &&& reaction->RecordTurn_thread_id@ == thread_id@
                &&& reaction->RecordTurn_turn_id@ == turn@.id
                &&& reaction->status == status
            },
            None => reaction is Nothing,
        },
        Ok(Some(ExternalReadEvent::Approval(request))) => reaction is ReceiveApproval
            && reaction->request == request,
        Ok(Some(ExternalReadEvent::ServerRequestResolved { request_id, .. })) => reaction
            is ResolveRequest && reaction->request_key@ == request_key_of(json(request_id)),
        Ok(Some(ExternalReadEvent::ThreadSettingsUpdated { approvals_reviewer, .. })) =>
            if approvals_reviewer@ == approval_reviewer {
                reaction is Nothing
            } else {
                reaction is Stop
            },
        Ok(Some(_)) => reaction is Nothing,
    }
}

/// How the store took a new approval handler.
#[derive(Clone, Copy, Debug, PartialEq, Eq, Structural)]
pub enum ReassignmentOutcome {
    Reassigned,
    NotDrained,
    Stale,
    /// The store could not be asked.
    Failed,
}

/// Why a new approval handler is not installed.
pub open spec fn reassignment_error(outcome: ReassignmentOutcome) -> Option<ExternalWriteError> {
    match outcome {
        ReassignmentOutcome::Reassigned => None,
        ReassignmentOutcome::NotDrained => Some(ExternalWriteError::Busy),
        ReassignmentOutcome::Stale => Some(ExternalWriteError::NotReady),
        ReassignmentOutcome::Failed => Some(ExternalWriteError::Store),
    }
}

/// Why a new approval handler is not even asked for: it is the writer or the
/// recipient, or approvals still wait.
pub open spec fn reassignment_refusal(desk: DeskView, new_actor: Seq<char>) -> Option<
    ExternalWriteError,
> {
    if new_actor == desk.settings.client_actor || new_actor == desk.settings.approval_recipient {
        Some(ExternalWriteError::InvalidSettings)
    } else if desk.pending.len() > 0 {
        Some(ExternalWriteError::Busy)
    } else {
        None
    }
}

/// An effect of ending the writer, to be performed in order.
#[derive(Clone, Copy, Debug, PartialEq, Eq, Structural)]
pub enum EndingAction {
    MarkUnavailable { epoch: u64, reason: ExternalUncertaintyReason },
    SetState { epoch: u64, state: ExternalEndpointState },
    /// Close the connection in order.
    CloseConnection,
    /// Drop the connection.
    Abort,
    /// Answer the command at hand.
    Reply,
    /// Answer every command that still waits with `Closed`.
    DrainCommands,
}

/// The end of a writer that was asked to stop.
pub open spec fn orderly_end(epoch: u64) -> Seq<EndingAction> {
    seq![
        EndingAction::MarkUnavailable { epoch, reason: ExternalUncertaintyReason::BridgeRestart },
        EndingAction::SetState { epoch, state: ExternalEndpointState::Stopped },
        EndingAction::CloseConnection,
        EndingAction::Reply,
    ]
}

/// The end of a writer that may not go on.
pub open spec fn broken_end(epoch: u64) -> Seq<EndingAction> {
    seq![
        EndingAction::MarkUnavailable {
            epoch,
            reason: ExternalUncertaintyReason::SocketDisconnect,
        },
        EndingAction::Abort,
        EndingAction::DrainCommands,
    ]
}

/// Content of a writer.
pub struct WriterView {
    pub desk: DeskView,
    /// Whether the writer may not go on.
    pub fatal: bool,
}

/// The one writer of an external endpoint, over one epoch.
pub struct WriteActor {
    desk: ApprovalDesk,
    fatal: bool,
}

impl View for WriteActor {
    type V = WriterView;

    closed spec fn view(&self) -> WriterView {
        WriterView { desk: self.desk@, fatal: self.fatal }
    }
}

impl WriteActor {
    pub open spec fn wf(&self) -> bool {
        unique_keys(self@.desk.pending)
    }

    pub fn new(epoch: u64, settings: ExternalWriteSettings) -> (actor: WriteActor)
        ensures
            actor.wf(),
            actor@ == (WriterView {
                desk: DeskView { epoch, settings: settings@, pending: Seq::empty() },
                fatal: false,
            }),
    {
        WriteActor { desk: ApprovalDesk::new(epoch, settings), fatal: false }
    }

    /// Whether the writer may not go on.
    pub fn is_fatal(&self) -> (fatal: bool)
        ensures
            fatal == self@.fatal,
    {
        self.fatal
    }

    pub fn desk(&self) -> (desk: &ApprovalDesk)
        requires
            self.wf(),
        ensures
            desk.wf(),
            desk@ == self@.desk,
    {
        &self.desk
    }

    /// The desk, to be changed.
    pub fn desk_mut(&mut self) -> (desk: &mut ApprovalDesk)
        requires
            old(self).wf(),
        ensures
            (*desk).wf(),
            (*desk)@ == old(self)@.desk,
            final(self)@ == (WriterView { desk: (*final(desk))@, ..old(self)@ }),
    {
        &mut self.desk
    }

    /// Takes an event of the connection. Its end, what cannot be read, and a
    /// thread whose approvals go elsewhere than configured stop the writer.
    pub fn on_event(
        &mut self,
        event: Result<Option<ExternalReadEvent>, ExternalTransportError>,
    ) -> (reaction: WriterReaction)
        requires
            old(self).wf(),
        ensures
            final(self).wf(),
            reacts(old(self)@.desk.settings.approval_reviewer, event, reaction),
            final(self)@ == (WriterView {
                fatal: old(self)@.fatal || reaction is Stop,
                ..old(self)@
            }),
    {
        let reaction = match event {
            Err(_) => WriterReaction::Stop,
            Ok(None) => WriterReaction::Stop,
            Ok(Some(event)) => match event {
                ExternalReadEvent::Closed(_) => WriterReaction::Stop,
                ExternalReadEvent::ItemCompleted { thread_id, turn_id, item } => match item.id {
                    Some(item_id) => WriterReaction::RecordItem { thread_id, turn_id, item_id },
                    None => WriterReaction::Nothing,
                },
                ExternalReadEvent::TurnCompleted { thread_id, turn } => match terminal_status(
                    &turn.status,
                ) {
                    Ok(status) => WriterReaction::RecordTurn {
                        thread_id,
                        turn_id: turn.id,
                        status,
                    },
                    Err(_) => WriterReaction::Nothing,
                },
                ExternalReadEvent::Approval(request) => WriterReaction::ReceiveApproval {
                    request,
                },
                ExternalReadEvent::ServerRequestResolved { request_id, .. } =>
                    match request_key_from_value(&request_id) {
                        Some(request_key) => WriterReaction::ResolveRequest { request_key },
                        None => WriterReaction::Stop,
                    },
                ExternalReadEvent::ThreadSettingsUpdated { approvals_reviewer, .. } => {
                    if same_text(
                        approvals_reviewer.as_str(),
                        self.desk.settings().approval_reviewer.as_str(),
                    ) {
                        WriterReaction::Nothing
                    } else {
                        WriterReaction::Stop
                    }
                },
                _ => WriterReaction::Nothing,
            },
        };
        if matches!(reaction, WriterReaction::Stop) {
            self.fatal = true;
        }
        reaction
    }

    /// Takes the record that the server resolved a request.
    pub fn on_request_resolved(&mut self, request_key: &str, outcome: TransitionOutcome)
        requires
            old(self).wf(),
        ensures
            final(self).wf(),
            final(self)@ == if outcome == TransitionOutcome::Applied {
                WriterView {
                    desk: DeskView {
                        pending: without_request(old(self)@.desk.pending, request_key@),
                        ..old(self)@.desk
                    },
                    ..old(self)@
                }
            } else {
                WriterView { fatal: true, ..old(self)@ }
            },
    {
        if self.desk.request_resolved(request_key, outcome) {
            self.fatal = true;
        }
    }

    /// Notes how taking an approval in, or refusing one in time, went: any
    /// failure there stops the writer.
    pub fn note_approval(&mut self, error: Option<ExternalWriteError>)
        requires
            old(self).wf(),
        ensures
            final(self).wf(),
            final(self)@ == (WriterView { fatal: old(self)@.fatal || error is Some, ..old(self)@ }),
    {
        if error.is_some() {
            self.fatal = true;
        }
    }

    /// Notes how the recipient's answer went: only an uncertain one stops the
    /// writer.
    pub fn note_resolution(&mut self, result: &Result<(), ExternalWriteError>)
        requires
            old(self).wf(),
        ensures
            final(self).wf(),
            final(self)@ == (WriterView {
                fatal: old(self)@.fatal || error_of(*result) == Some(ExternalWriteError::Uncertain),
                ..old(self)@
            }),
    {
        if let Err(ExternalWriteError::Uncertain) = result {
            self.fatal = true;
        }
    }

    /// Notes how a write went: an uncertain or ambiguous one stops the writer.
    pub fn note_mutation(&mut self, result: &Result<ExternalMutationApplied, ExternalWriteError>)
        requires
            old(self).wf(),
        ensures
            final(self).wf(),
            final(self)@ == (WriterView {
                fatal: old(self)@.fatal || fatal_error(error_of(*result)),
                ..old(self)@
            }),
    {
        if is_fatal_result(result) {
            self.fatal = true;
        }
    }

    /// Checks a new approval handler before the store is asked.
    ///
    /// # Errors
    ///
    /// `InvalidSettings` for the writer or the recipient, `Busy` while approvals
    /// wait.
    pub fn check_reassignment(&self, new_actor: &str) -> (result: Result<(), ExternalWriteError>)
        requires
            self.wf(),
        ensures
            match reassignment_refusal(self@.desk, new_actor@) {
                None => result is Ok,
                Some(error) => result == Err::<(), ExternalWriteError>(error),
            },
    {
        let settings = self.desk.settings();
        if same_text(new_actor, settings.client_actor.as_str()) || same_text(
            new_actor,
            settings.approval_recipient.as_str(),
        ) {
            return Err(ExternalWriteError::InvalidSettings);
        }
        if self.desk.is_empty() {
            Ok(())
        } else {
            Err(ExternalWriteError::Busy)
        }
    }

    /// Takes the store's answer to a new approval handler: a writer whose
    /// handler was replaced ends in order.
    ///
    /// # Errors
    ///
    /// Why the handler was not replaced; the writer goes on.
    pub fn finish_reassignment(&self, outcome: ReassignmentOutcome) -> (result: Result<
        Vec<EndingAction>,
        ExternalWriteError,
    >)
        requires
            self.wf(),
        ensures
            match reassignment_error(outcome) {
                None => result is Ok && result->Ok_0@ == orderly_end(self@.desk.epoch),
                Some(error) => result == Err::<Vec<EndingAction>, ExternalWriteError>(error),
            },
    {
        match outcome {
            ReassignmentOutcome::Reassigned => Ok(self.stop()),
            ReassignmentOutcome::NotDrained => Err(ExternalWriteError::Busy),
            ReassignmentOutcome::Stale => Err(ExternalWriteError::NotReady),
            ReassignmentOutcome::Failed => Err(ExternalWriteError::Store),
        }
    }

    /// The end of a writer that was asked to stop.
    pub fn stop(&self) -> (actions: Vec<EndingAction>)
        requires
            self.wf(),
        ensures
            actions@ == orderly_end(self@.desk.epoch),
    {
        let epoch: u64 = self.desk.epoch();
        let actions = vec![
            EndingAction::MarkUnavailable {
                epoch,
                reason: ExternalUncertaintyReason::BridgeRestart,
            },
            EndingAction::SetState { epoch, state: ExternalEndpointState::Stopped },
            EndingAction::CloseConnection,
            EndingAction::Reply,
        ];
        proof {
            assert(actions@ =~= orderly_end(self@.desk.epoch));
        }
        actions
    }

    /// The end of a writer that may not go on, or whose commands ended.
    pub fn break_off(&self) -> (actions: Vec<EndingAction>)
        requires
            self.wf(),
        ensures
            actions@ == broken_end(self@.desk.epoch),
    {
        let epoch: u64 = self.desk.epoch();
        let actions = vec![
            EndingAction::MarkUnavailable {
                epoch,
                reason: ExternalUncertaintyReason::SocketDisconnect,
            },
            EndingAction::Abort,
            EndingAction::DrainCommands,
        ];
        proof {
            assert(actions@ =~= broken_end(self@.desk.epoch));
        }
        actions
    }
}

/// However a writer ends, its epoch is first recorded as over.
pub proof fn ended_epochs_are_recorded(epoch: u64)
    ensures
        orderly_end(epoch).first() is MarkUnavailable,
        orderly_end(epoch).first()->MarkUnavailable_epoch == epoch,
        broken_end(epoch).first() is MarkUnavailable,
        broken_end(epoch).first()->MarkUnavailable_epoch == epoch,
{
}

/// What the writer does about an event: an item that finished and a turn that
/// ended go on record under their own thread, turn and item, with how the turn
/// ended; an approval is taken in as it is; and the writer stops where the
/// events end or approvals are set to go elsewhere.
pub proof fn events_go_on_record(
    reviewer: Seq<char>,
    event: Result<Option<ExternalReadEvent>, ExternalTransportError>,
    reaction: WriterReaction,
)
    requires
        reacts(reviewer, event, reaction),
    ensures
        reaction is Stop <==> event is Err || event->Ok_0 is None || event->Ok_0->Some_0 is Closed
            || (event->Ok_0->Some_0 is ThreadSettingsUpdated
            && event->Ok_0->Some_0->approvals_reviewer@ != reviewer),
        event matches Ok(Some(ExternalReadEvent::ItemCompleted { thread_id, turn_id, item }))
            ==> match reaction {
            WriterReaction::RecordItem { thread_id: thread, turn_id: turn, item_id } => thread@
                == thread_id@ && turn@ == turn_id@ && item.id is Some && item.id->Some_0@
                == item_id@,
            _ => reaction is Nothing && item.id is None,
        },
        event matches Ok(Some(ExternalReadEvent::TurnCompleted { thread_id, turn }))
            ==> match reaction {
            WriterReaction::RecordTurn { thread_id: thread, turn_id, status } => thread@
                == thread_id@ && turn_id@ == turn@.id && match turn@.status {
                TurnStatusView::Completed => status == ExternalTerminalStatus::Completed,
                TurnStatusView::Failed => status == ExternalTerminalStatus::Failed,
                TurnStatusView::Interrupted => status == ExternalTerminalStatus::Interrupted,
                _ => false,
            },
            _ => reaction is Nothing && !(turn@.status is Completed || turn@.status is Failed
                || turn@.status is Interrupted),
        },
        event matches Ok(Some(ExternalReadEvent::Approval(request))) ==> reaction == (
        WriterReaction::ReceiveApproval { request }),
        reaction is RecordItem ==> event is Ok && event->Ok_0 is Some && event->Ok_0->Some_0
            is ItemCompleted,
        reaction is RecordTurn ==> event is Ok && event->Ok_0 is Some && event->Ok_0->Some_0
            is TurnCompleted,
        reaction is ReceiveApproval ==> event is Ok && event->Ok_0 is Some && event->Ok_0->Some_0
            is Approval,
        reaction is ResolveRequest <==> event is Ok && event->Ok_0 is Some && event->Ok_0->Some_0
            is ServerRequestResolved,
{
}

/// An approval that the server resolved itself leaves the desk: the key that the
/// writer finds for the resolved request is that of the approval.
pub proof fn resolved_approvals_leave_the_desk(
    desk: DeskView,
    request: ExternalApprovalRequest,
    approval_id: Seq<char>,
    now_ms: u64,
    reviewer: Seq<char>,
    thread_id: String,
    request_id: serde_json::Value,
    reaction: WriterReaction,
)
    requires
        json(request_id) == id_json(approval_token(request)@.id),
        reacts(
            reviewer,
            Ok(Some(ExternalReadEvent::ServerRequestResolved { thread_id, request_id })),
            reaction,
        ),
    ensures
        !without_request(
            desk.pending.push((approval_id, pending_of(desk, request, now_ms))),
            reaction->request_key@,
        ).contains((approval_id, pending_of(desk, request, now_ms))),
{
    resolved_requests_are_waited_for_no_more(
        desk.pending.push((approval_id, pending_of(desk, request, now_ms))),
        reaction->request_key@,
        (approval_id, pending_of(desk, request, now_ms)),
    );
}

/// Another approval handler is set exactly while nothing waits and it is
/// neither the client nor the recipient; what the store says decides the rest.
pub proof fn handlers_change_while_nothing_waits(
    desk: DeskView,
    actor: Seq<char>,
    outcome: ReassignmentOutcome,
)
    ensures
        ({
            let refusal = reassignment_refusal(desk, actor);
            let same = actor == desk.settings.client_actor || actor
                == desk.settings.approval_recipient;
            &&& refusal == Some(ExternalWriteError::InvalidSettings) <==> same
            &&& refusal == Some(ExternalWriteError::Busy) <==> !same && desk.pending.len() > 0
            &&& refusal is None <==> !same && desk.pending.len() == 0
        }),
        reassignment_error(outcome) is None <==> outcome == ReassignmentOutcome::Reassigned,
        reassignment_error(outcome) == Some(ExternalWriteError::Busy) <==> outcome
            == ReassignmentOutcome::NotDrained,
        reassignment_error(outcome) == Some(ExternalWriteError::NotReady) <==> outcome
            == ReassignmentOutcome::Stale,
        reassignment_error(outcome) == Some(ExternalWriteError::Store) <==> outcome
            == ReassignmentOutcome::Failed,
{
}

/// An orderly end marks its epoch for a restart of the bridge, then says that
/// it stopped, closes the connection and answers; a broken one marks it for a
/// lost connection, drops the connection and turns away whoever still waits.
pub proof fn ends_are_in_order(epoch: u64)
    ensures
        ({
            let orderly = orderly_end(epoch);
            &&& orderly.len() == 4
            &&& orderly[0] == (EndingAction::MarkUnavailable {
                epoch,
                reason: ExternalUncertaintyReason::BridgeRestart,
            })
            &&& orderly[1] == (EndingAction::SetState {
                epoch,
                state: ExternalEndpointState::Stopped,
            })
            &&& orderly[2] is CloseConnection
            &&& orderly[3] is Reply
        }),
        ({
            let broken = broken_end(epoch);
            &&& broken.len() == 3
            &&& broken[0] == (EndingAction::MarkUnavailable {
                epoch,
                reason: ExternalUncertaintyReason::SocketDisconnect,
            })
            &&& broken[1] is Abort
            &&& broken[2] is DrainCommands
        }),
{
}

} // verus!
