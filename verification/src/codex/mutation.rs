//! One write to an external thread, from the proof of its exact target to the
//! durable record of its outcome. Nothing is sent twice, and nothing is sent
//! before it is durably marked sent.
use vstd::prelude::*;

use crate::codex::external::ExternalCapabilityProfile;
use crate::codex::external_transport::ExternalTransportError;
use crate::codex::external_write::map_preflight_error;
use crate::codex::external_write::map_transition;
use crate::codex::external_write::preflight_error;
use crate::codex::external_write::sound_command;
use crate::codex::external_write::transition_error;
use crate::codex::external_write::validate_command;
use crate::codex::external_write::validate_static_approval;
use crate::codex::external_write::ExternalMutationApplied;
use crate::codex::external_write::ExternalWriteError;
use crate::codex::external_write::ExternalWriteSettings;
use crate::codex::external_write::TransitionOutcome;
use crate::codex::external_write::WriteSettingsView;
use crate::codex::types::duplicate_option;
use crate::codex::types::text_option;
use crate::codex::types::TurnStatus;
use crate::json::as_text;
use crate::json::field;
use crate::json::json;
use crate::json::member;
use crate::json::Json;
use crate::limits::MAX_OUTBOUND_VALUE_WIRE_BYTES;
use crate::limits::ROUTING_ID_BYTE_LIMIT;
use crate::text::byte_len;
use crate::text::same_text;

verus! {

/// What a write does to its thread.
pub enum MutationTarget {
    Start { client_message_id: Option<String>, approvals_reviewer: Option<String> },
    Steer { expected_turn_id: String, client_message_id: Option<String> },
    Interrupt { turn_id: String },
    QueueAdd { expected_turn_id: String, client_message_id: String },
    QueueStart { queued_id: Option<String> },
}

/// Content of what a write does.
pub enum TargetView {
    Start { client_message_id: Option<Seq<char>>, approvals_reviewer: Option<Seq<char>> },
    Steer { expected_turn_id: Seq<char>, client_message_id: Option<Seq<char>> },
    Interrupt { turn_id: Seq<char> },
    QueueAdd { expected_turn_id: Seq<char>, client_message_id: Seq<char> },
    QueueStart { queued_id: Option<Seq<char>> },
}

impl View for MutationTarget {
    type V = TargetView;

    open spec fn view(&self) -> TargetView {
        match *self {
            MutationTarget::Start { client_message_id, approvals_reviewer } => TargetView::Start {
                client_message_id: text_option(client_message_id),
                approvals_reviewer: text_option(approvals_reviewer),
            },
            MutationTarget::Steer { expected_turn_id, client_message_id } => TargetView::Steer {
                expected_turn_id: expected_turn_id@,
                client_message_id: text_option(client_message_id),
            },
            MutationTarget::Interrupt { turn_id } => TargetView::Interrupt { turn_id: turn_id@ },
            MutationTarget::QueueAdd { expected_turn_id, client_message_id } =>
                TargetView::QueueAdd {
                    expected_turn_id: expected_turn_id@,
                    client_message_id: client_message_id@,
                },
            MutationTarget::QueueStart { queued_id } => TargetView::QueueStart {
                queued_id: text_option(queued_id),
            },
        }
    }
}

/// A write, with the encoded length of its parameters, which is missing where
/// they could not be encoded.
pub struct MutationRequest {
    pub source: String,
    pub intent_id: String,
    pub thread_id: String,
    pub params_bytes: Option<usize>,
    pub target: MutationTarget,
}

/// Content of a write.
pub struct RequestView {
    pub source: Seq<char>,
    pub intent_id: Seq<char>,
    pub thread_id: Seq<char>,
    pub params_bytes: Option<usize>,
    pub target: TargetView,
}

impl View for MutationRequest {
    type V = RequestView;

    open spec fn view(&self) -> RequestView {
        RequestView {
            source: self.source@,
            intent_id: self.intent_id@,
            thread_id: self.thread_id@,
            params_bytes: self.params_bytes,
            target: self.target@,
        }
    }
}

/// The kind under which a write is recorded.
#[derive(Clone, Copy, Debug, PartialEq, Eq, Structural)]
pub enum ExternalMutationKind {
    TurnStart,
    TurnSteer,
    TurnInterrupt,
    QueueAdd,
    QueueStart,
}

/// The kind under which a write is recorded.
pub open spec fn mutation_kind(target: TargetView) -> ExternalMutationKind {
    match target {
        TargetView::Start { .. } => ExternalMutationKind::TurnStart,
        TargetView::Steer { .. } => ExternalMutationKind::TurnSteer,
        TargetView::Interrupt { .. } => ExternalMutationKind::TurnInterrupt,
        TargetView::QueueAdd { .. } => ExternalMutationKind::QueueAdd,
        TargetView::QueueStart { .. } => ExternalMutationKind::QueueStart,
    }
}

/// The turn that must be the active one.
pub open spec fn expected_turn(target: TargetView) -> Option<Seq<char>> {
    match target {
        TargetView::Steer { expected_turn_id, .. } => Some(expected_turn_id),
        TargetView::Interrupt { turn_id } => Some(turn_id),
        TargetView::QueueAdd { expected_turn_id, .. } => Some(expected_turn_id),
        _ => None,
    }
}

/// The message that a write can be recognised by.
pub open spec fn message_of(target: TargetView) -> Option<Seq<char>> {
    match target {
        TargetView::Start { client_message_id, .. } => client_message_id,
        TargetView::Steer { client_message_id, .. } => client_message_id,
        TargetView::QueueAdd { client_message_id, .. } => Some(client_message_id),
        _ => None,
    }
}

/// What the source must own: the active turn, or the queued submission.
pub open spec fn owned_target(target: TargetView) -> Option<Seq<char>> {
    match target {
        TargetView::QueueStart { queued_id } => queued_id,
        _ => expected_turn(target),
    }
}

impl MutationTarget {
    fn kind(&self) -> (kind: ExternalMutationKind)
        ensures
            kind == mutation_kind(self@),
    {
        match self {
            MutationTarget::Start { .. } => ExternalMutationKind::TurnStart,
            MutationTarget::Steer { .. } => ExternalMutationKind::TurnSteer,
            MutationTarget::Interrupt { .. } => ExternalMutationKind::TurnInterrupt,
            MutationTarget::QueueAdd { .. } => ExternalMutationKind::QueueAdd,
            MutationTarget::QueueStart { .. } => ExternalMutationKind::QueueStart,
        }
    }

    fn expected_turn(&self) -> (turn: Option<String>)
        ensures
            text_option(turn) == expected_turn(self@),
    {
        match self {
            MutationTarget::Steer { expected_turn_id, .. } => Some(expected_turn_id.clone()),
            MutationTarget::Interrupt { turn_id } => Some(turn_id.clone()),
            MutationTarget::QueueAdd { expected_turn_id, .. } => Some(expected_turn_id.clone()),
            _ => None,
        }
    }

    fn message(&self) -> (message: Option<String>)
        ensures
            text_option(message) == message_of(self@),
    {
        match self {
            MutationTarget::Start { client_message_id, .. } => duplicate_option(client_message_id),
            MutationTarget::Steer { client_message_id, .. } => duplicate_option(client_message_id),
            MutationTarget::QueueAdd { client_message_id, .. } => Some(client_message_id.clone()),
            _ => None,
        }
    }
}

/// Who made the write that a turn or a queued submission goes back to.
pub struct MutationOwner {
    pub source_actor: String,
    pub client_actor: String,
    pub approval_actor: String,
}

/// Whether an owner is the source, under the same client and approval handler.
pub open spec fn owns(
    owner: MutationOwner,
    source: Seq<char>,
    settings: WriteSettingsView,
) -> bool {
    &&& owner.source_actor@ == source
    &&& owner.client_actor@ == settings.client_actor
    &&& owner.approval_actor@ == settings.approval_actor
}

/// How the store answered the intent of a write.
#[derive(Clone, Copy, Debug, PartialEq, Eq, Structural)]
pub enum PrepareOutcome {
    Prepared,
    Busy,
    Uncertain,
    NotReady,
    StaleEpoch,
    ApprovalHandlerMismatch,
    Duplicate,
    /// The store could not be asked.
    Failed,
}

/// What the store's answer to an intent means for the write.
pub open spec fn prepare_error(outcome: PrepareOutcome) -> Option<ExternalWriteError> {
    match outcome {
        PrepareOutcome::Prepared => None,
        PrepareOutcome::Busy => Some(ExternalWriteError::Busy),
        PrepareOutcome::Uncertain => Some(ExternalWriteError::Uncertain),
        PrepareOutcome::NotReady => Some(ExternalWriteError::NotReady),
        PrepareOutcome::StaleEpoch => Some(ExternalWriteError::NotReady),
        PrepareOutcome::ApprovalHandlerMismatch => Some(ExternalWriteError::InvalidSettings),
        PrepareOutcome::Duplicate => Some(ExternalWriteError::Conflict),
        PrepareOutcome::Failed => Some(ExternalWriteError::Store),
    }
}

/// What the store's answer to an intent means for the write.
pub fn map_prepare(outcome: PrepareOutcome) -> (error: Option<ExternalWriteError>)
    ensures
        error == prepare_error(outcome),
{
    match outcome {
        PrepareOutcome::Prepared => None,
        PrepareOutcome::Busy => Some(ExternalWriteError::Busy),
        PrepareOutcome::Uncertain => Some(ExternalWriteError::Uncertain),
        PrepareOutcome::NotReady => Some(ExternalWriteError::NotReady),
        PrepareOutcome::StaleEpoch => Some(ExternalWriteError::NotReady),
        PrepareOutcome::ApprovalHandlerMismatch => Some(ExternalWriteError::InvalidSettings),
        PrepareOutcome::Duplicate => Some(ExternalWriteError::Conflict),
        PrepareOutcome::Failed => Some(ExternalWriteError::Store),
    }
}

/// The state of a thread as the server reports it.
pub struct ThreadReport {
    pub id: String,
    pub status: serde_json::Value,
}

/// Whether a report is of a thread and gives its status this type.
pub open spec fn reported(report: ThreadReport, thread_id: Seq<char>, status: Seq<char>) -> bool {
    &&& report.id@ == thread_id
    &&& json(report.status) is Object
    &&& member(json(report.status)->Object_0, "type"@) == Some(Json::Text(status))
}

fn is_reported(report: &ThreadReport, thread_id: &str, status: &str) -> (is: bool)
    ensures
        is == reported(*report, thread_id@, status@),
{
    if !same_text(report.id.as_str(), thread_id) {
        return false;
    }
    match field(&report.status, "type") {
        Some(kind) => match as_text(kind) {
            Some(text) => same_text(text, status),
            None => false,
        },
        None => false,
    }
}

/// A turn of a list, as far as the search for the active one reads it.
pub struct ListedTurn {
    pub id: String,
    pub status: TurnStatus,
}

/// The turns of a list that are in progress.
pub open spec fn in_progress(turns: Seq<ListedTurn>) -> Seq<Seq<char>>
    decreases turns.len(),
{
    if turns.len() == 0 {
        Seq::empty()
    } else if turns.last().status@ is InProgress {
        in_progress(turns.drop_last()).push(turns.last().id@)
    } else {
        in_progress(turns.drop_last())
    }
}

/// The one turn that is in progress.
///
/// # Errors
///
/// `Conflict` where none or more than one is.
pub fn active_turn(turns: &Vec<ListedTurn>) -> (active: Result<String, ExternalWriteError>)
    ensures
        match active {
            Ok(id) => in_progress(turns@) == seq![id@],
            Err(error) => error == ExternalWriteError::Conflict && in_progress(turns@).len() != 1,
        },
{
    let mut found: Vec<String> = Vec::new();
    let mut at: usize = 0;
    proof {
        assert(turns@.take(0) =~= Seq::empty());
        assert(found@.map_values(|id: String| id@) =~= Seq::empty());
    }
    while at < turns.len()
        invariant
            at <= turns@.len(),
            found@.map_values(|id: String| id@) == in_progress(turns@.take(at as int)),
        decreases turns@.len() - at,
    {
        proof {
            assert(turns@.take(at + 1).drop_last() =~= turns@.take(at as int));
            assert(turns@.take(at + 1).last() == turns@[at as int]);
        }
        if matches!(turns[at].status, TurnStatus::InProgress) {
            let ghost before = found@;
            found.push(turns[at].id.clone());
            proof {
                assert(found@.map_values(|id: String| id@) =~= before.map_values(
                    |id: String| id@,
                ).push(turns@[at as int].id@));
            }
        }
        at += 1;
    }
    proof {
        assert(turns@.take(turns@.len() as int) =~= turns@);
        assert(in_progress(turns@).len() == found@.len());
    }
    if found.len() != 1 {
        return Err(ExternalWriteError::Conflict);
    }
    proof {
        assert(in_progress(turns@) =~= seq![found@[0]@]);
    }
    Ok(found[0].clone())
}

/// How often a text stands in a list.
pub open spec fn occurrences(list: Seq<String>, text: Seq<char>) -> nat
    decreases list.len(),
{
    if list.len() == 0 {
        0
    } else {
        occurrences(list.drop_last(), text) + if list.last()@ == text {
            1nat
        } else {
            0
        }
    }
}

/// Whether a queue holds a submission exactly once.
pub fn queue_contains(queue: &Vec<String>, queued_id: &str) -> (contains: bool)
    ensures
        contains == (occurrences(queue@, queued_id@) == 1),
{
    let mut count: usize = 0;
    let mut at: usize = 0;
    proof {
        assert(queue@.take(0) =~= Seq::empty());
    }
    while at < queue.len()
        invariant
            at <= queue@.len(),
            count <= at,
            count == occurrences(queue@.take(at as int), queued_id@),
        decreases queue@.len() - at,
    {
        proof {
            assert(queue@.take(at + 1).drop_last() =~= queue@.take(at as int));
        }
        if same_text(queue[at].as_str(), queued_id) {
            count += 1;
        }
        at += 1;
    }
    proof {
        assert(queue@.take(queue@.len() as int) =~= queue@);
    }
    count == 1
}

/// Whether a page of items holds a user message of the client's own making,
/// given the client identifiers of its user messages.
pub fn page_has_message(client_ids: &Vec<Option<String>>, client_message_id: &str) -> (found: bool)
    ensures
        found == exists|k: int|
            0 <= k < client_ids@.len() && text_option(#[trigger] client_ids@[k]) == Some(
                client_message_id@,
            ),
{
    let mut at: usize = 0;
    while at < client_ids.len()
        invariant
            at <= client_ids@.len(),
            forall|k: int|
                0 <= k < at ==> text_option(#[trigger] client_ids@[k]) != Some(
                    client_message_id@,
                ),
        decreases client_ids@.len() - at,
    {
        if let Some(text) = &client_ids[at] {
            if same_text(text.as_str(), client_message_id) {
                proof {
                    assert(text_option(client_ids@[at as int]) == Some(client_message_id@));
                }
                return true;
            }
        }
        at += 1;
    }
    false
}

/// The search for the client's message among the items of a turn, which appears
/// there a little later than the answer.
#[derive(Clone, Copy, Debug, PartialEq, Eq, Structural)]
pub struct MessageSearch {
    pub deadline_ms: u64,
}

/// What a page of items leads to.
#[derive(Clone, Copy, Debug, PartialEq, Eq, Structural)]
pub enum SearchStep {
    Found,
    /// Look again after a pause.
    Pause { millis: u64 },
}

impl MessageSearch {
    /// A search that takes no longer than a request may.
    pub fn new(now_ms: u64, timeout_ms: u64) -> (search: MessageSearch)
        ensures
            search.deadline_ms == if now_ms + timeout_ms <= u64::MAX {
                (now_ms + timeout_ms) as u64
            } else {
                u64::MAX
            },
    {
        let deadline_ms: u64 = if now_ms <= u64::MAX - timeout_ms {
            now_ms + timeout_ms
        } else {
            u64::MAX
        };
        MessageSearch { deadline_ms }
    }

    /// The time that is left for one more page; nothing where the message was
    /// not found in time.
    pub fn remaining(&self, now_ms: u64) -> (left_ms: Option<u64>)
        ensures
            left_ms == if now_ms < self.deadline_ms {
                Some((self.deadline_ms - now_ms) as u64)
            } else {
                None
            },
    {
        if now_ms < self.deadline_ms {
            Some(self.deadline_ms - now_ms)
        } else {
            None
        }
    }

    /// What a page leads to, given the time that was left when it was asked
    /// for: a short pause before the next one where the message is not there.
    pub fn after_page(
        &self,
        client_ids: &Vec<Option<String>>,
        client_message_id: &str,
        left_ms: u64,
    ) -> (step: SearchStep)
        ensures
            step == if exists|k: int|
                0 <= k < client_ids@.len() && text_option(#[trigger] client_ids@[k]) == Some(
                    client_message_id@,
                ) {
                SearchStep::Found
            } else if left_ms <= 10 {
                SearchStep::Pause { millis: left_ms }
            } else {
                SearchStep::Pause { millis: 10 }
            },
    {
        if page_has_message(client_ids, client_message_id) {
            SearchStep::Found
        } else if left_ms <= 10 {
            SearchStep::Pause { millis: left_ms }
        } else {
            SearchStep::Pause { millis: 10 }
        }
    }
}

/// What the server answered a write.
pub enum SentReply {
    Turn { id: String, status: TurnStatus },
    Steered { turn_id: String },
    Interrupted,
    Queued { id: String, client_message_id: String },
}

/// Whether an answer is of the kind that a write gets.
pub open spec fn answers(target: TargetView, reply: SentReply) -> bool {
    match target {
        TargetView::Start { .. } => reply is Turn,
        TargetView::Steer { .. } => reply is Steered,
        TargetView::Interrupt { .. } => reply is Interrupted,
        TargetView::QueueAdd { .. } => reply is Queued,
        TargetView::QueueStart { .. } => reply is Turn,
    }
}

/// What is recorded at the end of a write.
pub enum MutationResolution {
    Applied { result_id: String },
    Rejected,
    Uncertain,
}

/// Content of what is recorded at the end of a write.
pub enum ResolutionView {
    Applied { result_id: Seq<char> },
    Rejected,
    Uncertain,
}

/// The durable intent of a write.
pub struct MutationIntent {
    pub kind: ExternalMutationKind,
    pub expected_turn_id: Option<String>,
    pub client_message_id: Option<String>,
    pub source_actor: String,
    pub client_actor: String,
    pub approval_actor: String,
}

/// Content of the durable intent of a write.
pub struct IntentView {
    pub kind: ExternalMutationKind,
    pub expected_turn_id: Option<Seq<char>>,
    pub client_message_id: Option<Seq<char>>,
    pub source_actor: Seq<char>,
    pub client_actor: Seq<char>,
    pub approval_actor: Seq<char>,
}

impl View for MutationIntent {
    type V = IntentView;

    open spec fn view(&self) -> IntentView {
        IntentView {
            kind: self.kind,
            expected_turn_id: text_option(self.expected_turn_id),
            client_message_id: text_option(self.client_message_id),
            source_actor: self.source_actor@,
            client_actor: self.client_actor@,
            approval_actor: self.approval_actor@,
        }
    }
}

/// The intent of a write under a writer's settings.
pub open spec fn intent_of(request: RequestView, settings: WriteSettingsView) -> IntentView {
    IntentView {
        kind: mutation_kind(request.target),
        expected_turn_id: expected_turn(request.target),
        client_message_id: message_of(request.target),
        source_actor: request.source,
        client_actor: settings.client_actor,
        approval_actor: settings.approval_actor,
    }
}

/// What a write does next. Every step concerns its own thread and intent.
pub enum MutationAction {
    /// Read the thread's state.
    ReadThread,
    /// List the newest turns of the thread.
    ListTurns { limit: u32 },
    /// Read who made a turn or a queued submission.
    ReadOwner { target_id: String },
    /// Record the intent.
    Prepare { intent: MutationIntent },
    /// List the thread's queue.
    ListQueue { limit: u32 },
    /// Record that the write is about to be sent.
    MarkSent,
    /// Send the write.
    Send,
    /// Look for the client's message among the items of a turn.
    FindMessage { turn_id: String, client_message_id: String },
    /// Record the outcome.
    Resolve { resolution: MutationResolution },
    /// The write is over.
    Finish { result: Result<ExternalMutationApplied, ExternalWriteError> },
}

/// Content of what a write does next.
pub enum MutationActionView {
    ReadThread,
    ListTurns { limit: u32 },
    ReadOwner { target_id: Seq<char> },
    Prepare { intent: IntentView },
    ListQueue { limit: u32 },
    MarkSent,
    Send,
    FindMessage { turn_id: Seq<char>, client_message_id: Seq<char> },
    Resolve { resolution: ResolutionView },
    Finish { result: Result<Option<Seq<char>>, ExternalWriteError> },
}

impl View for MutationResolution {
    type V = ResolutionView;

    open spec fn view(&self) -> ResolutionView {
        match *self {
            MutationResolution::Applied { result_id } => ResolutionView::Applied {
                result_id: result_id@,
            },
            MutationResolution::Rejected => ResolutionView::Rejected,
            MutationResolution::Uncertain => ResolutionView::Uncertain,
        }
    }
}

impl View for MutationAction {
    type V = MutationActionView;

    open spec fn view(&self) -> MutationActionView {
        match *self {
            MutationAction::ReadThread => MutationActionView::ReadThread,
            MutationAction::ListTurns { limit } => MutationActionView::ListTurns { limit },
            MutationAction::ReadOwner { target_id } => MutationActionView::ReadOwner {
                target_id: target_id@,
            },
            MutationAction::Prepare { intent } => MutationActionView::Prepare { intent: intent@ },
            MutationAction::ListQueue { limit } => MutationActionView::ListQueue { limit },
            MutationAction::MarkSent => MutationActionView::MarkSent,
            MutationAction::Send => MutationActionView::Send,
            MutationAction::FindMessage { turn_id, client_message_id } =>
                MutationActionView::FindMessage {
                    turn_id: turn_id@,
                    client_message_id: client_message_id@,
                },
            MutationAction::Resolve { resolution } => MutationActionView::Resolve {
                resolution: resolution@,
            },
            MutationAction::Finish { result } => MutationActionView::Finish {
                result: match result {
                    Ok(applied) => Ok(applied@),
                    Err(error) => Err(error),
                },
            },
        }
    }
}

/// What happens to a write.
pub enum MutationEvent {
    ThreadRead { result: Result<ThreadReport, ExternalTransportError> },
    TurnsListed { result: Result<Vec<ListedTurn>, ExternalTransportError> },
    /// The owner, which may be unknown; nothing where the store could not be
    /// asked.
    OwnerRead { owner: Option<Option<MutationOwner>> },
    Prepared { outcome: PrepareOutcome },
    QueueListed { result: Result<Vec<String>, ExternalTransportError> },
    Marked { outcome: TransitionOutcome },
    Sent { result: Result<SentReply, ExternalTransportError> },
    MessageSought { result: Result<bool, ExternalTransportError> },
    Resolved { outcome: TransitionOutcome },
}

/// How a write ends once its outcome is recorded.
pub enum EndView {
    Applied { result_id: Seq<char> },
    Refused { error: ExternalWriteError },
}

/// What a write waits for.
pub enum MutationPhase {
    ReadingActive,
    ListingTurns,
    ReadingOwner,
    Preparing,
    ReadingIdle,
    ListingQueue,
    Marking,
    Sending,
    /// The message is sought in this turn, and whether the answer was exact.
    Seeking { turn_id: Seq<char>, exact: bool },
    Resolving { end: EndView },
    Done,
}

/// Content of a write under way.
pub struct MutationView {
    pub request: RequestView,
    pub settings: WriteSettingsView,
    pub phase: MutationPhase,
}

/// A step of a write.
pub type MutationStep = (MutationView, MutationActionView);

/// Why a write is not begun at all.
pub open spec fn mutation_refusal(
    profile: ExternalCapabilityProfile,
    settings: WriteSettingsView,
    request: RequestView,
) -> Option<ExternalWriteError> {
    let sound = sound_command(request.intent_id, request.params_bytes);
    match request.target {
        TargetView::Start { client_message_id, approvals_reviewer } => if profile
            != ExternalCapabilityProfile::QueueShared {
            Some(ExternalWriteError::UnsupportedProfile)
        } else if client_message_id is Some && sound && approvals_reviewer == Some(
            settings.approval_reviewer,
        ) {
            None
        } else {
            Some(ExternalWriteError::InvalidSettings)
        },
        TargetView::Steer { client_message_id, .. } => if client_message_id is Some && sound {
            None
        } else {
            Some(ExternalWriteError::InvalidSettings)
        },
        TargetView::QueueStart { queued_id } => if queued_id is Some && sound {
            None
        } else {
            Some(ExternalWriteError::InvalidSettings)
        },
        _ => if sound {
            None
        } else {
            Some(ExternalWriteError::InvalidSettings)
        },
    }
}

/// The write is over without success.
pub open spec fn gave_up(view: MutationView, error: ExternalWriteError) -> MutationStep {
    (
        MutationView { phase: MutationPhase::Done, ..view },
        MutationActionView::Finish { result: Err(error) },
    )
}

/// The outcome is to be recorded.
pub open spec fn resolving(
    view: MutationView,
    resolution: ResolutionView,
    end: EndView,
) -> MutationStep {
    (
        MutationView { phase: MutationPhase::Resolving { end }, ..view },
        MutationActionView::Resolve { resolution },
    )
}

/// The write was refused.
pub open spec fn rejected(view: MutationView) -> MutationStep {
    resolving(
        view,
        ResolutionView::Rejected,
        EndView::Refused { error: ExternalWriteError::Conflict },
    )
}

/// It is not known what the write did.
pub open spec fn fenced(view: MutationView, error: ExternalWriteError) -> MutationStep {
    resolving(view, ResolutionView::Uncertain, EndView::Refused { error })
}

/// The write did what it was to do.
pub open spec fn succeeded(view: MutationView, result_id: Seq<char>) -> MutationStep {
    resolving(view, ResolutionView::Applied { result_id }, EndView::Applied { result_id })
}

/// The intent is to be recorded.
pub open spec fn preparing(view: MutationView) -> MutationStep {
    (
        MutationView { phase: MutationPhase::Preparing, ..view },
        MutationActionView::Prepare { intent: intent_of(view.request, view.settings) },
    )
}

/// Who made the target is to be read.
pub open spec fn reading_owner(view: MutationView) -> MutationStep {
    (
        MutationView { phase: MutationPhase::ReadingOwner, ..view },
        MutationActionView::ReadOwner { target_id: owned_target(view.request.target)->Some_0 },
    )
}

/// The write is to be marked sent.
pub open spec fn marking(view: MutationView) -> MutationStep {
    (MutationView { phase: MutationPhase::Marking, ..view }, MutationActionView::MarkSent)
}

/// How a write begins.
pub open spec fn mutation_begun(view: MutationView) -> MutationStep {
    match view.request.target {
        TargetView::Start { .. } => preparing(view),
        TargetView::QueueStart { .. } => reading_owner(view),
        _ => (
            MutationView { phase: MutationPhase::ReadingActive, ..view },
            MutationActionView::ReadThread,
        ),
    }
}

/// What the answer to a write leads to.
pub open spec fn mutation_answered(view: MutationView, reply: SentReply) -> MutationStep {
    match (view.request.target, reply) {
        (TargetView::Start { client_message_id, .. }, SentReply::Turn { id, status }) => (
            MutationView {
                phase: MutationPhase::Seeking { turn_id: id@, exact: status@ is InProgress },
                ..view
            },
            MutationActionView::FindMessage {
                turn_id: id@,
                client_message_id: client_message_id->Some_0,
            },
        ),
        (
            TargetView::Steer { expected_turn_id, client_message_id },
            SentReply::Steered { turn_id },
        ) => if turn_id@ == expected_turn_id {
            (
                MutationView {
                    phase: MutationPhase::Seeking { turn_id: turn_id@, exact: true },
                    ..view
                },
                MutationActionView::FindMessage {
                    turn_id: turn_id@,
                    client_message_id: client_message_id->Some_0,
                },
            )
        } else {
            fenced(view, ExternalWriteError::Ambiguous)
        },
        (TargetView::Interrupt { turn_id }, _) => succeeded(view, turn_id),
        (
            TargetView::QueueAdd { client_message_id, .. },
            SentReply::Queued { id, client_message_id: found },
        ) => if found@ == client_message_id {
            succeeded(view, id@)
        } else {
            fenced(view, ExternalWriteError::Ambiguous)
        },
        (TargetView::QueueStart { .. }, SentReply::Turn { id, status }) => if status@
            is InProgress {
            succeeded(view, id@)
        } else {
            fenced(view, ExternalWriteError::Ambiguous)
        },
        _ => fenced(view, ExternalWriteError::Ambiguous),
    }
}

/// Whether an event can happen to a write.
pub open spec fn mutation_expected(view: MutationView, event: MutationEvent) -> bool {
    match view.phase {
        MutationPhase::ReadingActive => event is ThreadRead,
        MutationPhase::ListingTurns => event is TurnsListed,
        MutationPhase::ReadingOwner => event is OwnerRead,
        MutationPhase::Preparing => event is Prepared,
        MutationPhase::ReadingIdle => event is ThreadRead,
        MutationPhase::ListingQueue => event is QueueListed,
        MutationPhase::Marking => event is Marked,
        MutationPhase::Sending => event is Sent && (event->Sent_result is Ok ==> answers(
            view.request.target,
            event->Sent_result->Ok_0,
        )),
        MutationPhase::Seeking { .. } => event is MessageSought,
        MutationPhase::Resolving { .. } => event is Resolved,
        MutationPhase::Done => false,
    }
}

/// Whether a queue is as a write wants it: empty for a new turn, holding the
/// submission exactly once for a queued one.
pub open spec fn queue_fits(target: TargetView, queue: Seq<String>) -> bool {
    match target {
        TargetView::QueueStart { queued_id } => occurrences(queue, queued_id->Some_0) == 1,
        _ => queue.len() == 0,
    }
}

/// How many entries of a queue a write reads.
pub open spec fn queue_limit(target: TargetView) -> u32 {
    if target is QueueStart {
        100
    } else {
        1
    }
}

/// What an event leads to.
pub open spec fn mutation_stepped(view: MutationView, event: MutationEvent) -> MutationStep {
    match (view.phase, event) {
        (MutationPhase::ReadingActive, MutationEvent::ThreadRead { result }) => match result {
            Err(error) => gave_up(view, preflight_error(error)),
            Ok(report) => if reported(report, view.request.thread_id, "active"@) {
                (
                    MutationView { phase: MutationPhase::ListingTurns, ..view },
                    MutationActionView::ListTurns { limit: 2 },
                )
            } else {
                gave_up(view, ExternalWriteError::Conflict)
            },
        },
        (MutationPhase::ListingTurns, MutationEvent::TurnsListed { result }) => match result {
            Err(error) => gave_up(view, preflight_error(error)),
            Ok(turns) => if in_progress(turns@) == seq![
                expected_turn(view.request.target)->Some_0,
            ] {
                reading_owner(view)
            } else {
                gave_up(view, ExternalWriteError::Conflict)
            },
        },
        (MutationPhase::ReadingOwner, MutationEvent::OwnerRead { owner }) => match owner {
            None => gave_up(view, ExternalWriteError::Store),
            Some(None) => gave_up(view, ExternalWriteError::Unauthorized),
            Some(Some(owner)) => if owns(owner, view.request.source, view.settings) {
                preparing(view)
            } else {
                gave_up(view, ExternalWriteError::Unauthorized)
            },
        },
        (MutationPhase::Preparing, MutationEvent::Prepared { outcome }) => match prepare_error(
            outcome,
        ) {
            Some(error) => gave_up(view, error),
            None => if view.request.target is Start || view.request.target is QueueStart {
                (
                    MutationView { phase: MutationPhase::ReadingIdle, ..view },
                    MutationActionView::ReadThread,
                )
            } else {
                marking(view)
            },
        },
        (MutationPhase::ReadingIdle, MutationEvent::ThreadRead { result }) => match result {
            Err(error) => gave_up(view, preflight_error(error)),
            Ok(report) => if reported(report, view.request.thread_id, "idle"@) {
                (
                    MutationView { phase: MutationPhase::ListingQueue, ..view },
                    MutationActionView::ListQueue { limit: queue_limit(view.request.target) },
                )
            } else {
                rejected(view)
            },
        },
        (MutationPhase::ListingQueue, MutationEvent::QueueListed { result }) => match result {
            Err(error) => gave_up(view, preflight_error(error)),
            Ok(queue) => if queue_fits(view.request.target, queue@) {
                marking(view)
            } else {
                rejected(view)
            },
        },
        (MutationPhase::Marking, MutationEvent::Marked { outcome }) => match transition_error(
            outcome,
        ) {
            Some(error) => gave_up(view, error),
            None => (
                MutationView { phase: MutationPhase::Sending, ..view },
                MutationActionView::Send,
            ),
        },
        (MutationPhase::Sending, MutationEvent::Sent { result }) => match result {
            Err(error) => if error is ServerRejected {
                rejected(view)
            } else {
                fenced(view, ExternalWriteError::Uncertain)
            },
            Ok(reply) => mutation_answered(view, reply),
        },
        (
            MutationPhase::Seeking { turn_id, exact },
            MutationEvent::MessageSought { result },
        ) => match result {
            Err(error) => gave_up(view, preflight_error(error)),
            Ok(found) => if found && exact {
                succeeded(view, turn_id)
            } else {
                fenced(view, ExternalWriteError::Ambiguous)
            },
        },
        (MutationPhase::Resolving { end }, MutationEvent::Resolved { outcome }) =>
            match transition_error(outcome) {
                Some(error) => gave_up(view, error),
                None => (
                    MutationView { phase: MutationPhase::Done, ..view },
                    MutationActionView::Finish {
                        result: match end {
                            EndView::Applied { result_id } => Ok(Some(result_id)),
                            EndView::Refused { error } => Err(error),
                        },
                    },
                ),
            },
        _ => gave_up(view, ExternalWriteError::Uncertain),
    }
}

enum End {
    Applied { result_id: String },
    Refused { error: ExternalWriteError },
}

enum Phase {
    ReadingActive,
    ListingTurns,
    ReadingOwner,
    Preparing,
    ReadingIdle,
    ListingQueue,
    Marking,
    Sending,
    Seeking { turn_id: String, exact: bool },
    Resolving { end: End },
    Done,
}

/// One write under way.
pub struct Mutation {
    request: MutationRequest,
    settings: ExternalWriteSettings,
    phase: Phase,
}

impl View for Mutation {
    type V = MutationView;

    closed spec fn view(&self) -> MutationView {
        MutationView {
            request: self.request@,
            settings: self.settings@,
            phase: match self.phase {
                Phase::ReadingActive => MutationPhase::ReadingActive,
                Phase::ListingTurns => MutationPhase::ListingTurns,
                Phase::ReadingOwner => MutationPhase::ReadingOwner,
                Phase::Preparing => MutationPhase::Preparing,
                Phase::ReadingIdle => MutationPhase::ReadingIdle,
                Phase::ListingQueue => MutationPhase::ListingQueue,
                Phase::Marking => MutationPhase::Marking,
                Phase::Sending => MutationPhase::Sending,
                Phase::Seeking { turn_id, exact } => MutationPhase::Seeking {
                    turn_id: turn_id@,
                    exact,
                },
                Phase::Resolving { end } => MutationPhase::Resolving {
                    end: match end {
                        End::Applied { result_id } => EndView::Applied { result_id: result_id@ },
                        End::Refused { error } => EndView::Refused { error },
                    },
                },
                Phase::Done => MutationPhase::Done,
            },
        }
    }
}

/// Whether a write under way names what its target calls for.
pub open spec fn complete(view: MutationView) -> bool {
    match view.request.target {
        TargetView::Start { client_message_id, .. } => client_message_id is Some && !(view.phase
            is ReadingActive || view.phase is ListingTurns || view.phase is ReadingOwner),
        TargetView::Steer { client_message_id, .. } => client_message_id is Some && !(view.phase
            is ReadingIdle || view.phase is ListingQueue),
        TargetView::QueueStart { queued_id } => queued_id is Some && !(view.phase is ReadingActive
            || view.phase is ListingTurns),
        _ => !(view.phase is ReadingIdle || view.phase is ListingQueue),
    }
}

impl Mutation {
    pub open spec fn wf(&self) -> bool {
        complete(self@)
    }

    /// Begins a write.
    ///
    /// # Errors
    ///
    /// `UnsupportedProfile` for a new turn where the profile has no queue,
    /// `InvalidSettings` for a write that lacks what it is recognised by, is
    /// too long, or does not name the configured approval handling.
    pub fn begin(
        profile: ExternalCapabilityProfile,
        settings: ExternalWriteSettings,
        request: MutationRequest,
    ) -> (begun: Result<(Mutation, MutationAction), ExternalWriteError>)
        ensures
            match begun {
                Ok((mutation, action)) => {
                    &&& mutation_refusal(profile, settings@, request@) is None
                    &&& mutation.wf()
                    &&& (mutation@, action@) == mutation_begun(
                        MutationView {
                            request: request@,
                            settings: settings@,
                            phase: MutationPhase::Done,
                        },
                    )
                },
                Err(error) => mutation_refusal(profile, settings@, request@) == Some(error),
            },
    {
        match &request.target {
            MutationTarget::Start { client_message_id, approvals_reviewer } => {
                if !matches!(profile, ExternalCapabilityProfile::QueueShared) {
                    return Err(ExternalWriteError::UnsupportedProfile);
                }
                if client_message_id.is_none() {
                    return Err(ExternalWriteError::InvalidSettings);
                }
                if let Err(error) = validate_command(
                    request.intent_id.as_str(),
                    request.params_bytes,
                ) {
                    return Err(error);
                }
                if let Err(error) = validate_static_approval(approvals_reviewer, &settings) {
                    return Err(error);
                }
            },
            MutationTarget::Steer { client_message_id, .. } => {
                if client_message_id.is_none() {
                    return Err(ExternalWriteError::InvalidSettings);
                }
                if let Err(error) = validate_command(
                    request.intent_id.as_str(),
                    request.params_bytes,
                ) {
                    return Err(error);
                }
            },
            MutationTarget::QueueStart { queued_id } => {
                if let Err(error) = validate_command(
                    request.intent_id.as_str(),
                    request.params_bytes,
                ) {
                    return Err(error);
                }
                if queued_id.is_none() {
                    return Err(ExternalWriteError::InvalidSettings);
                }
            },
            _ => {
                if let Err(error) = validate_command(
                    request.intent_id.as_str(),
                    request.params_bytes,
                ) {
                    return Err(error);
                }
            },
        }
        let mut mutation = Mutation { request, settings, phase: Phase::Done };
        let next: u8 = match &mutation.request.target {
            MutationTarget::Start { .. } => 0,
            MutationTarget::QueueStart { .. } => 1,
            _ => 2,
        };
        let action = if next == 0 {
            mutation.prepare()
        } else if next == 1 {
            mutation.read_owner()
        } else {
            mutation.phase = Phase::ReadingActive;
            MutationAction::ReadThread
        };
        Ok((mutation, action))
    }

    fn prepare(&mut self) -> (action: MutationAction)
        ensures
            (final(self)@, action@) == preparing(old(self)@),
    {
        self.phase = Phase::Preparing;
        MutationAction::Prepare {
            intent: MutationIntent {
                kind: self.request.target.kind(),
                expected_turn_id: self.request.target.expected_turn(),
                client_message_id: self.request.target.message(),
                source_actor: self.request.source.clone(),
                client_actor: self.settings.client_actor.clone(),
                approval_actor: self.settings.approval_actor.clone(),
            },
        }
    }

    fn read_owner(&mut self) -> (action: MutationAction)
        requires
            owned_target(old(self)@.request.target) is Some,
        ensures
            (final(self)@, action@) == reading_owner(old(self)@),
    {
        self.phase = Phase::ReadingOwner;
        let target_id = match &self.request.target {
            MutationTarget::QueueStart { queued_id } => match queued_id {
                Some(text) => text.clone(),
                None => String::new(),
            },
            MutationTarget::Steer { expected_turn_id, .. } => expected_turn_id.clone(),
            MutationTarget::Interrupt { turn_id } => turn_id.clone(),
            MutationTarget::QueueAdd { expected_turn_id, .. } => expected_turn_id.clone(),
            MutationTarget::Start { .. } => String::new(),
        };
        MutationAction::ReadOwner { target_id }
    }

    fn give_up(&mut self, error: ExternalWriteError) -> (action: MutationAction)
        ensures
            (final(self)@, action@) == gave_up(old(self)@, error),
    {
        self.phase = Phase::Done;
        MutationAction::Finish { result: Err(error) }
    }

    fn reject(&mut self) -> (action: MutationAction)
        ensures
            (final(self)@, action@) == rejected(old(self)@),
    {
        self.phase = Phase::Resolving { end: End::Refused { error: ExternalWriteError::Conflict } };
        MutationAction::Resolve { resolution: MutationResolution::Rejected }
    }

    fn fence(&mut self, error: ExternalWriteError) -> (action: MutationAction)
        ensures
            (final(self)@, action@) == fenced(old(self)@, error),
    {
        self.phase = Phase::Resolving { end: End::Refused { error } };
        MutationAction::Resolve { resolution: MutationResolution::Uncertain }
    }

    fn succeed(&mut self, result_id: String) -> (action: MutationAction)
        ensures
            (final(self)@, action@) == succeeded(old(self)@, result_id@),
    {
        self.phase = Phase::Resolving { end: End::Applied { result_id: result_id.clone() } };
        MutationAction::Resolve { resolution: MutationResolution::Applied { result_id } }
    }

    fn mark(&mut self) -> (action: MutationAction)
        ensures
            (final(self)@, action@) == marking(old(self)@),
    {
        self.phase = Phase::Marking;
        MutationAction::MarkSent
    }

    fn seek(&mut self, turn_id: String, exact: bool) -> (action: MutationAction)
        requires
            message_of(old(self)@.request.target) is Some,
        ensures
            final(self)@ == (MutationView {
                phase: MutationPhase::Seeking { turn_id: turn_id@, exact },
                ..old(self)@
            }),
            action@ == (MutationActionView::FindMessage {
                turn_id: turn_id@,
                client_message_id: message_of(old(self)@.request.target)->Some_0,
            }),
    {
        let client_message_id = match self.request.target.message() {
            Some(text) => text,
            None => String::new(),
        };
        self.phase = Phase::Seeking { turn_id: turn_id.clone(), exact };
        MutationAction::FindMessage { turn_id, client_message_id }
    }

    fn take_reply(&mut self, reply: SentReply) -> (action: MutationAction)
        requires
            old(self).wf(),
            answers(old(self)@.request.target, reply),
        ensures
            (final(self)@, action@) == mutation_answered(old(self)@, reply),
    {
        match reply {
            SentReply::Turn { id, status } => {
                let running = matches!(status, TurnStatus::InProgress);
                if matches!(self.request.target, MutationTarget::Start { .. }) {
                    self.seek(id, running)
                } else if running {
                    self.succeed(id)
                } else {
                    self.fence(ExternalWriteError::Ambiguous)
                }
            },
            SentReply::Steered { turn_id } => {
                let expected = match self.request.target.expected_turn() {
                    Some(text) => text,
                    None => String::new(),
                };
                if same_text(turn_id.as_str(), expected.as_str()) {
                    self.seek(turn_id, true)
                } else {
                    self.fence(ExternalWriteError::Ambiguous)
                }
            },
            SentReply::Interrupted => {
                let turn_id = match self.request.target.expected_turn() {
                    Some(text) => text,
                    None => String::new(),
                };
                self.succeed(turn_id)
            },
            SentReply::Queued { id, client_message_id } => {
                let message = match self.request.target.message() {
                    Some(text) => text,
                    None => String::new(),
                };
                if same_text(client_message_id.as_str(), message.as_str()) {
                    self.succeed(id)
                } else {
                    self.fence(ExternalWriteError::Ambiguous)
                }
            },
        }
    }

    fn fits(&self, queue: &Vec<String>) -> (fits: bool)
        requires
            self.wf(),
        ensures
            fits == queue_fits(self@.request.target, queue@),
    {
        match &self.request.target {
            MutationTarget::QueueStart { queued_id } => match queued_id {
                Some(text) => queue_contains(queue, text.as_str()),
                None => false,
            },
            _ => queue.len() == 0,
        }
    }

    fn is_expected(&self, turns: &Vec<ListedTurn>) -> (is: bool)
        requires
            expected_turn(self@.request.target) is Some,
        ensures
            is == (in_progress(turns@) == seq![expected_turn(self@.request.target)->Some_0]),
    {
        let active = match active_turn(turns) {
            Ok(active) => active,
            Err(_) => {
                return false;
            },
        };
        match self.request.target.expected_turn() {
            Some(text) => {
                proof {
                    assert(in_progress(turns@)[0] == active@);
                }
                same_text(active.as_str(), text.as_str())
            },
            None => false,
        }
    }

    fn is_owned(&self, owner: &MutationOwner) -> (is: bool)
        ensures
            is == owns(*owner, self@.request.source, self@.settings),
    {
        same_text(owner.source_actor.as_str(), self.request.source.as_str()) && same_text(
            owner.client_actor.as_str(),
            self.settings.client_actor.as_str(),
        ) && same_text(owner.approval_actor.as_str(), self.settings.approval_actor.as_str())
    }

    fn step_reading(&mut self, event: MutationEvent) -> (action: MutationAction)
        requires
            old(self).wf(),
            mutation_expected(old(self)@, event),
            old(self)@.phase is ReadingActive || old(self)@.phase is ListingTurns,
        ensures
            final(self).wf(),
            (final(self)@, action@) == mutation_stepped(old(self)@, event),
    {
        let mut phase = Phase::Done;
        std::mem::swap(&mut self.phase, &mut phase);
        match (phase, event) {
            (Phase::ReadingActive, MutationEvent::ThreadRead { result }) => match result {
                Err(error) => self.give_up(map_preflight_error(error)),
                Ok(report) => if is_reported(&report, self.request.thread_id.as_str(), "active") {
                    self.phase = Phase::ListingTurns;
                    MutationAction::ListTurns { limit: 2 }
                } else {
                    self.give_up(ExternalWriteError::Conflict)
                },
            },
            (Phase::ListingTurns, MutationEvent::TurnsListed { result }) => match result {
                Err(error) => self.give_up(map_preflight_error(error)),
                Ok(turns) => if self.is_expected(&turns) {
                    self.read_owner()
                } else {
                    self.give_up(ExternalWriteError::Conflict)
                },
            },
            _ => self.give_up(ExternalWriteError::Uncertain),
        }
    }

    fn step_claiming(&mut self, event: MutationEvent) -> (action: MutationAction)
        requires
            old(self).wf(),
            mutation_expected(old(self)@, event),
            old(self)@.phase is ReadingOwner || old(self)@.phase is Preparing,
        ensures
            final(self).wf(),
            (final(self)@, action@) == mutation_stepped(old(self)@, event),
    {
        let mut phase = Phase::Done;
        std::mem::swap(&mut self.phase, &mut phase);
        match (phase, event) {
            (Phase::ReadingOwner, MutationEvent::OwnerRead { owner }) => match owner {
                None => self.give_up(ExternalWriteError::Store),
                Some(None) => self.give_up(ExternalWriteError::Unauthorized),
                Some(Some(owner)) => if self.is_owned(&owner) {
                    self.prepare()
                } else {
                    self.give_up(ExternalWriteError::Unauthorized)
                },
            },
            (Phase::Preparing, MutationEvent::Prepared { outcome }) => match map_prepare(outcome) {
                Some(error) => self.give_up(error),
                None => {
                    let idle = match &self.request.target {
                        MutationTarget::Start { .. } => true,
                        MutationTarget::QueueStart { .. } => true,
                        _ => false,
                    };
                    if idle {
                        self.phase = Phase::ReadingIdle;
                        MutationAction::ReadThread
                    } else {
                        self.mark()
                    }
                },
            },
            _ => self.give_up(ExternalWriteError::Uncertain),
        }
    }

    fn step_proving(&mut self, event: MutationEvent) -> (action: MutationAction)
        requires
            old(self).wf(),
            mutation_expected(old(self)@, event),
            old(self)@.phase is ReadingIdle || old(self)@.phase is ListingQueue,
        ensures
            final(self).wf(),
            (final(self)@, action@) == mutation_stepped(old(self)@, event),
    {
        let mut phase = Phase::Done;
        std::mem::swap(&mut self.phase, &mut phase);
        match (phase, event) {
            (Phase::ReadingIdle, MutationEvent::ThreadRead { result }) => match result {
                Err(error) => self.give_up(map_preflight_error(error)),
                Ok(report) => if is_reported(&report, self.request.thread_id.as_str(), "idle") {
                    self.phase = Phase::ListingQueue;
                    let limit: u32 = match &self.request.target {
                        MutationTarget::QueueStart { .. } => 100,
                        _ => 1,
                    };
                    MutationAction::ListQueue { limit }
                } else {
                    self.reject()
                },
            },
            (Phase::ListingQueue, MutationEvent::QueueListed { result }) => match result {
                Err(error) => self.give_up(map_preflight_error(error)),
                Ok(queue) => if self.fits(&queue) {
                    self.mark()
                } else {
                    self.reject()
                },
            },
            _ => self.give_up(ExternalWriteError::Uncertain),
        }
    }

    fn step_sending(&mut self, event: MutationEvent) -> (action: MutationAction)
        requires
            old(self).wf(),
            mutation_expected(old(self)@, event),
            old(self)@.phase is Marking || old(self)@.phase is Sending,
        ensures
            final(self).wf(),
            (final(self)@, action@) == mutation_stepped(old(self)@, event),
    {
        let mut phase = Phase::Done;
        std::mem::swap(&mut self.phase, &mut phase);
        match (phase, event) {
            (Phase::Marking, MutationEvent::Marked { outcome }) => match map_transition(outcome) {
                Some(error) => self.give_up(error),
                None => {
                    self.phase = Phase::Sending;
                    MutationAction::Send
                },
            },
            (Phase::Sending, MutationEvent::Sent { result }) => match result {
                Err(ExternalTransportError::ServerRejected { .. }) => self.reject(),
                Err(_) => self.fence(ExternalWriteError::Uncertain),
                Ok(reply) => self.take_reply(reply),
            },
            _ => self.give_up(ExternalWriteError::Uncertain),
        }
    }

    fn step_settling(&mut self, event: MutationEvent) -> (action: MutationAction)
        requires
            old(self).wf(),
            mutation_expected(old(self)@, event),
            old(self)@.phase is Seeking || old(self)@.phase is Resolving,
        ensures
            final(self).wf(),
            (final(self)@, action@) == mutation_stepped(old(self)@, event),
    {
        let mut phase = Phase::Done;
        std::mem::swap(&mut self.phase, &mut phase);
        match (phase, event) {
            (Phase::Seeking { turn_id, exact }, MutationEvent::MessageSought { result }) =>
                match result {
                    Err(error) => self.give_up(map_preflight_error(error)),
                    Ok(found) => if found && exact {
                        self.succeed(turn_id)
                    } else {
                        self.fence(ExternalWriteError::Ambiguous)
                    },
                },
            (Phase::Resolving { end }, MutationEvent::Resolved { outcome }) =>
                match map_transition(outcome) {
                    Some(error) => self.give_up(error),
                    None => {
                        self.phase = Phase::Done;
                        match end {
                            End::Applied { result_id } => MutationAction::Finish {
                                result: Ok(ExternalMutationApplied { result_id: Some(result_id) }),
                            },
                            End::Refused { error } => MutationAction::Finish {
                                result: Err(error),
                            },
                        }
                    },
                },
            _ => self.give_up(ExternalWriteError::Uncertain),
        }
    }

    /// Takes what happened: what the write does next.
    pub fn step(&mut self, event: MutationEvent) -> (action: MutationAction)
        requires
            old(self).wf(),
            mutation_expected(old(self)@, event),
        ensures
            final(self).wf(),
            (final(self)@, action@) == mutation_stepped(old(self)@, event),
    {
        match self.phase {
            Phase::ReadingActive => self.step_reading(event),
            Phase::ListingTurns => self.step_reading(event),
            Phase::ReadingOwner => self.step_claiming(event),
            Phase::Preparing => self.step_claiming(event),
            Phase::ReadingIdle => self.step_proving(event),
            Phase::ListingQueue => self.step_proving(event),
            Phase::Marking => self.step_sending(event),
            Phase::Sending => self.step_sending(event),
            Phase::Seeking { .. } => self.step_settling(event),
            Phase::Resolving { .. } => self.step_settling(event),
            Phase::Done => self.give_up(ExternalWriteError::Uncertain),
        }
    }
}

/// How far a write has come.
pub open spec fn progress(phase: MutationPhase) -> int {
    match phase {
        MutationPhase::ReadingActive => 0,
        MutationPhase::ListingTurns => 1,
        MutationPhase::ReadingOwner => 2,
        MutationPhase::Preparing => 3,
        MutationPhase::ReadingIdle => 4,
        MutationPhase::ListingQueue => 5,
        MutationPhase::Marking => 6,
        MutationPhase::Sending => 7,
        MutationPhase::Seeking { .. } => 8,
        MutationPhase::Resolving { .. } => 9,
        MutationPhase::Done => 10,
    }
}

/// A write goes forward only, and it is sent only in the step that takes the
/// durable mark of having been sent: so it is sent at most once, and never
/// unmarked.
pub proof fn writes_are_sent_once_and_marked_first(view: MutationView, event: MutationEvent)
    requires
        mutation_expected(view, event),
    ensures
        progress(mutation_stepped(view, event).0.phase) > progress(view.phase),
        mutation_stepped(view, event).1 is Send <==> view.phase is Marking && event == (
        MutationEvent::Marked { outcome: TransitionOutcome::Applied }),
        mutation_stepped(view, event).1 is MarkSent ==> view.phase is Preparing || view.phase
            is ListingQueue,
{
}

/// A write is reported applied only when that is on record, under the same
/// identifier.
pub proof fn success_is_on_record(view: MutationView, event: MutationEvent)
    requires
        mutation_expected(view, event),
        mutation_stepped(view, event).1 is Finish,
        mutation_stepped(view, event).1->result is Ok,
    ensures
        event == (MutationEvent::Resolved { outcome: TransitionOutcome::Applied }),
        view.phase is Resolving,
        view.phase->end == (EndView::Applied {
            result_id: mutation_stepped(view, event).1->result->Ok_0->Some_0,
        }),
{
}

/// What is recorded at the end is how the write will be reported: applied under
/// the same identifier, a conflict for a rejection, and no success for anything
/// uncertain.
pub proof fn resolutions_match_their_end(view: MutationView, event: MutationEvent)
    requires
        mutation_expected(view, event),
        mutation_stepped(view, event).1 is Resolve,
    ensures
        ({
            let (next, action) = mutation_stepped(view, event);
            &&& next.phase is Resolving
            &&& match action->resolution {
                ResolutionView::Applied { result_id } => next.phase->end == (EndView::Applied {
                    result_id,
                }),
                ResolutionView::Rejected => next.phase->end == (EndView::Refused {
                    error: ExternalWriteError::Conflict,
                }),
                ResolutionView::Uncertain => next.phase->end == (EndView::Refused {
                    error: ExternalWriteError::Uncertain,
                }) || next.phase->end == (EndView::Refused {
                    error: ExternalWriteError::Ambiguous,
                }),
            }
        }),
{
}

/// A write whose answer is not a refusal is fenced unless it is exact.
pub proof fn unclear_answers_are_fenced(view: MutationView, error: ExternalTransportError)
    requires
        view.phase is Sending,
        !(error is ServerRejected),
    ensures
        mutation_stepped(view, MutationEvent::Sent { result: Err(error) }).1 == (
        MutationActionView::Resolve { resolution: ResolutionView::Uncertain }),
{
}

/// Only the owner of the exact target gets as far as an intent on it.
pub proof fn only_owners_write_to_a_turn(view: MutationView, event: MutationEvent)
    requires
        mutation_expected(view, event),
        mutation_stepped(view, event).1 is Prepare,
    ensures
        view.phase is ReadingOwner,
        event is OwnerRead && event->owner is Some && event->owner->Some_0 is Some,
        owns(event->owner->Some_0->Some_0, view.request.source, view.settings),
        mutation_stepped(view, event).1 == (MutationActionView::Prepare {
            intent: intent_of(view.request, view.settings),
        }),
{
}

/// What is recorded of an exact answer is what the server named in it: the
/// queued submission, the turn that was started, or the turn that was
/// interrupted. Where the message is still to be found, it is sought in the
/// turn that the answer names. Any other answer is recorded as unclear.
pub proof fn answers_name_their_result(view: MutationView, reply: SentReply)
    requires
        view.phase is Sending,
        answers(view.request.target, reply),
        complete(view),
    ensures
        ({
            let (next, action) = mutation_stepped(view, MutationEvent::Sent { result: Ok(reply) });
            let unclear = action == (MutationActionView::Resolve {
                resolution: ResolutionView::Uncertain,
            }) && next.phase == (MutationPhase::Resolving {
                end: EndView::Refused { error: ExternalWriteError::Ambiguous },
            });
            let named = |result_id: Seq<char>|
                action == (MutationActionView::Resolve {
                    resolution: ResolutionView::Applied { result_id },
                }) && next.phase == (MutationPhase::Resolving {
                    end: EndView::Applied { result_id },
                });
            let sought = |turn_id: Seq<char>, message: Seq<char>, exact: bool|
                action == (MutationActionView::FindMessage {
                    turn_id,
                    client_message_id: message,
                }) && next.phase == (MutationPhase::Seeking { turn_id, exact });
            &&& next.request == view.request && next.settings == view.settings
            &&& match view.request.target {
                TargetView::Start { client_message_id, .. } => sought(
                    reply->Turn_id@,
                    client_message_id->Some_0,
                    reply->Turn_status@ is InProgress,
                ),
                TargetView::Steer { expected_turn_id, client_message_id } => if reply->Steered_turn_id@
                    == expected_turn_id {
                    sought(reply->Steered_turn_id@, client_message_id->Some_0, true)
                } else {
                    unclear
                },
                TargetView::Interrupt { turn_id } => named(turn_id),
                TargetView::QueueAdd { client_message_id, .. } => if reply->Queued_client_message_id@
                    == client_message_id {
                    named(reply->Queued_id@)
                } else {
                    unclear
                },
                TargetView::QueueStart { .. } => if reply->Turn_status@ is InProgress {
                    named(reply->Turn_id@)
                } else {
                    unclear
                },
            }
        }),
{
}

/// A turn counts as written to exactly when the answer was exact and the
/// client's message was found in it; the result is that turn.
pub proof fn found_messages_prove_the_write(
    view: MutationView,
    result: Result<bool, ExternalTransportError>,
)
    requires
        view.phase is Seeking,
    ensures
        ({
            let turn_id = view.phase->Seeking_turn_id;
            let (next, action) = mutation_stepped(view, MutationEvent::MessageSought { result });
            &&& result == Ok::<bool, ExternalTransportError>(true) && view.phase->exact ==> action
                == (MutationActionView::Resolve {
                resolution: ResolutionView::Applied { result_id: turn_id },
            }) && next.phase == (MutationPhase::Resolving {
                end: EndView::Applied { result_id: turn_id },
            })
            &&& result is Ok && !(result->Ok_0 && view.phase->exact) ==> action == (
            MutationActionView::Resolve { resolution: ResolutionView::Uncertain }) && next.phase
                == (MutationPhase::Resolving {
                end: EndView::Refused { error: ExternalWriteError::Ambiguous },
            })
            &&& result is Err ==> action is Finish && action->result is Err && next.phase is Done
        }),
{
}

/// From the answer to the report: a write that was answered exactly, and whose
/// outcome could be recorded, is reported as applied under the identifier that
/// the server gave (for a message in a turn, once it was found there).
pub proof fn exact_answers_are_reported(view: MutationView, reply: SentReply)
    requires
        view.phase is Sending,
        answers(view.request.target, reply),
        complete(view),
    ensures
        ({
            let sent = mutation_stepped(view, MutationEvent::Sent { result: Ok(reply) }).0;
            let sought = mutation_stepped(sent, MutationEvent::MessageSought { result: Ok(true) }).0;
            let recorded = MutationEvent::Resolved { outcome: TransitionOutcome::Applied };
            let at_once = mutation_stepped(sent, recorded).1;
            let later = mutation_stepped(sought, recorded).1;
            let reported = |id: Seq<char>| MutationActionView::Finish { result: Ok(Some(id)) };
            match (view.request.target, reply) {
                (TargetView::Start { .. }, SentReply::Turn { id, status }) => status@
                    is InProgress ==> later == reported(id@),
                (
                    TargetView::Steer { expected_turn_id, .. },
                    SentReply::Steered { turn_id },
                ) => turn_id@ == expected_turn_id ==> later == reported(turn_id@),
                (TargetView::Interrupt { turn_id }, _) => at_once == reported(turn_id),
                (
                    TargetView::QueueAdd { client_message_id, .. },
                    SentReply::Queued { id, client_message_id: found },
                ) => found@ == client_message_id ==> at_once == reported(id@),
                (TargetView::QueueStart { .. }, SentReply::Turn { id, status }) => status@
                    is InProgress ==> at_once == reported(id@),
                _ => false,
            }
        }),
{
}

/// An outcome that could not be recorded is not reported as a success, and one
/// that could is reported as it stands.
pub proof fn recorded_outcomes_are_reported(view: MutationView, outcome: TransitionOutcome)
    requires
        view.phase is Resolving,
    ensures
        ({
            let (next, action) = mutation_stepped(view, MutationEvent::Resolved { outcome });
            &&& next.phase is Done
            &&& action == (MutationActionView::Finish {
                result: match outcome {
                    TransitionOutcome::Stale => Err(ExternalWriteError::NotReady),
                    TransitionOutcome::Failed => Err(ExternalWriteError::Store),
                    TransitionOutcome::Applied => match view.phase->end {
                        EndView::Applied { result_id } => Ok(Some(result_id)),
                        EndView::Refused { error } => Err(error),
                    },
                },
            })
        }),
{
}

proof fn lemma_in_progress(turns: Seq<ListedTurn>, at: int)
    requires
        0 <= at < turns.len(),
        turns[at].status@ is InProgress,
    ensures
        in_progress(turns).len() >= 1,
        in_progress(turns).contains(turns[at].id@),
    decreases turns.len(),
{
    let head = turns.drop_last();
    if at < head.len() {
        assert(head[at] == turns[at]);
        lemma_in_progress(head, at);
        let k = choose|k: int|
            0 <= k < in_progress(head).len() && in_progress(head)[k] == turns[at].id@;
        assert(in_progress(turns)[k] == turns[at].id@);
    } else {
        assert(in_progress(turns).last() == turns[at].id@);
    }
}

proof fn lemma_in_progress_two(turns: Seq<ListedTurn>, i: int, j: int)
    requires
        0 <= i < j < turns.len(),
        turns[i].status@ is InProgress,
        turns[j].status@ is InProgress,
    ensures
        in_progress(turns).len() >= 2,
    decreases turns.len(),
{
    let head = turns.drop_last();
    assert(head[i] == turns[i]);
    if j < head.len() {
        assert(head[j] == turns[j]);
        lemma_in_progress_two(head, i, j);
    } else {
        lemma_in_progress(head, i);
    }
}

proof fn lemma_none_in_progress(turns: Seq<ListedTurn>, from: int)
    requires
        0 <= from <= turns.len(),
        forall|k: int| from <= k < turns.len() ==> !((#[trigger] turns[k]).status@ is InProgress),
    ensures
        in_progress(turns) == in_progress(turns.take(from)),
    decreases turns.len() - from,
{
    if from < turns.len() {
        let head = turns.drop_last();
        assert forall|k: int| from <= k < head.len() implies !((
        #[trigger] head[k]).status@ is InProgress) by {
            assert(head[k] == turns[k]);
        }
        assert(!(turns[turns.len() - 1].status@ is InProgress));
        lemma_none_in_progress(head, from);
        assert(head.take(from) =~= turns.take(from));
    } else {
        assert(turns.take(from) =~= turns);
    }
}

/// A turn is the active one exactly when it is in progress and no other turn
/// of the list is.
pub proof fn the_active_turn_is_alone(turns: Seq<ListedTurn>, turn_id: Seq<char>)
    ensures
        in_progress(turns) == seq![turn_id] <==> exists|at: int|
            #![trigger turns[at]]
            0 <= at < turns.len() && turns[at].id@ == turn_id && turns[at].status@ is InProgress
                && forall|k: int|
                0 <= k < turns.len() && k != at ==> !((#[trigger] turns[k]).status@
                    is InProgress),
{
    if in_progress(turns) == seq![turn_id] {
        if forall|k: int| 0 <= k < turns.len() ==> !((#[trigger] turns[k]).status@ is InProgress) {
            lemma_none_in_progress(turns, 0);
            assert(turns.take(0) =~= Seq::empty());
            assert(in_progress(turns).len() == 0);
            assert(seq![turn_id].len() == 1);
        } else {
            let at = choose|at: int|
                0 <= at < turns.len() && (#[trigger] turns[at]).status@ is InProgress;
            lemma_in_progress(turns, at);
            assert(seq![turn_id].len() == 1);
            assert forall|k: int| 0 <= k < turns.len() && k != at implies !((
            #[trigger] turns[k]).status@ is InProgress) by {
                if turns[k].status@ is InProgress {
                    if k < at {
                        lemma_in_progress_two(turns, k, at);
                    } else {
                        lemma_in_progress_two(turns, at, k);
                    }
                }
            }
            assert(turns[at].id@ == turn_id);
        }
    }
    if exists|at: int|
        #![trigger turns[at]]
        0 <= at < turns.len() && turns[at].id@ == turn_id && turns[at].status@ is InProgress
            && forall|k: int|
            0 <= k < turns.len() && k != at ==> !((#[trigger] turns[k]).status@ is InProgress) {
        let at = choose|at: int|
            #![trigger turns[at]]
            0 <= at < turns.len() && turns[at].id@ == turn_id && turns[at].status@ is InProgress
                && forall|k: int|
                0 <= k < turns.len() && k != at ==> !((#[trigger] turns[k]).status@
                    is InProgress);
        lemma_none_in_progress(turns, at + 1);
        let head = turns.take(at + 1);
        assert(head.last() == turns[at]);
        let before = head.drop_last();
        assert forall|k: int| 0 <= k < before.len() implies !((
        #[trigger] before[k]).status@ is InProgress) by {
            assert(before[k] == turns[k]);
        }
        lemma_none_in_progress(before, 0);
        assert(before.take(0) =~= Seq::empty());
        assert(in_progress(head) =~= seq![turn_id]);
    }
}

proof fn lemma_occurrences_split(list: Seq<String>, text: Seq<char>, at: int)
    requires
        0 <= at < list.len(),
    ensures
        occurrences(list, text) == occurrences(list.take(at), text) + (if list[at]@ == text {
            1nat
        } else {
            0
        }) + occurrences(list.skip(at + 1), text),
    decreases list.len(),
{
    let head = list.drop_last();
    if at < head.len() {
        lemma_occurrences_split(head, text, at);
        assert(head.take(at) =~= list.take(at));
        assert(head[at] == list[at]);
        assert(list.skip(at + 1).drop_last() =~= head.skip(at + 1));
        assert(list.skip(at + 1).last() == list.last());
    } else {
        assert(list.take(at) =~= head);
        assert(list.skip(at + 1) =~= Seq::empty());
    }
}

proof fn lemma_no_occurrence(list: Seq<String>, text: Seq<char>)
    ensures
        (forall|k: int| 0 <= k < list.len() ==> (#[trigger] list[k])@ != text) ==> occurrences(
            list,
            text,
        ) == 0,
        forall|k: int|
            0 <= k < list.len() && (#[trigger] list[k])@ == text ==> occurrences(list, text) > 0,
    decreases list.len(),
{
    assert forall|k: int| 0 <= k < list.len() && (#[trigger] list[k])@ == text implies occurrences(
        list,
        text,
    ) > 0 by {
        lemma_occurrences_split(list, text, k);
    }
    if forall|k: int| 0 <= k < list.len() ==> (#[trigger] list[k])@ != text {
        if list.len() > 0 {
            let head = list.drop_last();
            assert forall|k: int| 0 <= k < head.len() implies (#[trigger] head[k])@ != text by {
                assert(head[k] == list[k]);
            }
            lemma_no_occurrence(head, text);
            assert(list[list.len() - 1]@ != text);
        }
    }
}

/// A queue holds a submission exactly once when it stands at one place and at
/// no other.
pub proof fn queued_once_is_at_one_place(list: Seq<String>, text: Seq<char>)
    ensures
        occurrences(list, text) == 1 <==> exists|at: int|
            #![trigger list[at]]
            0 <= at < list.len() && list[at]@ == text && forall|k: int|
                0 <= k < list.len() && k != at ==> (#[trigger] list[k])@ != text,
{
    lemma_no_occurrence(list, text);
    if occurrences(list, text) == 1 {
        let at = choose|at: int| 0 <= at < list.len() && (#[trigger] list[at])@ == text;
        lemma_occurrences_split(list, text, at);
        let before = list.take(at);
        let after = list.skip(at + 1);
        lemma_no_occurrence(before, text);
        lemma_no_occurrence(after, text);
        assert forall|k: int| 0 <= k < list.len() && k != at implies (#[trigger] list[k])@
            != text by {
            if k < at {
                assert(before[k] == list[k]);
            } else {
                assert(after[k - at - 1] == list[k]);
            }
        }
        assert(list[at]@ == text);
    }
    if exists|at: int|
        #![trigger list[at]]
        0 <= at < list.len() && list[at]@ == text && forall|k: int|
            0 <= k < list.len() && k != at ==> (#[trigger] list[k])@ != text {
        let at = choose|at: int|
            #![trigger list[at]]
            0 <= at < list.len() && list[at]@ == text && forall|k: int|
                0 <= k < list.len() && k != at ==> (#[trigger] list[k])@ != text;
        lemma_occurrences_split(list, text, at);
        let before = list.take(at);
        let after = list.skip(at + 1);
        assert forall|k: int| 0 <= k < before.len() implies (#[trigger] before[k])@ != text by {
            assert(before[k] == list[k]);
        }
        assert forall|k: int| 0 <= k < after.len() implies (#[trigger] after[k])@ != text by {
            assert(after[k] == list[k + at + 1]);
        }
        lemma_no_occurrence(before, text);
        lemma_no_occurrence(after, text);
    }
}

/// A write to the active turn goes on from the thread's state exactly when the
/// thread asked for is active; from the list of turns exactly when the turn
/// that it is meant for is the one in progress; and what is asked of the store
/// is who made that very turn. Where it does not go on, nothing is recorded.
pub proof fn active_turns_are_proved_first(
    view: MutationView,
    read: Result<ThreadReport, ExternalTransportError>,
    listed: Result<Vec<ListedTurn>, ExternalTransportError>,
)
    requires
        view.request.target is Steer || view.request.target is Interrupt || view.request.target
            is QueueAdd,
    ensures
        ({
            let begun = mutation_begun(view);
            let turn_id = match view.request.target {
                TargetView::Steer { expected_turn_id, .. } => expected_turn_id,
                TargetView::Interrupt { turn_id } => turn_id,
                TargetView::QueueAdd { expected_turn_id, .. } => expected_turn_id,
                _ => Seq::empty(),
            };
            let after_read = mutation_stepped(begun.0, MutationEvent::ThreadRead { result: read });
            let listing = MutationView { phase: MutationPhase::ListingTurns, ..view };
            let after_list = mutation_stepped(listing, MutationEvent::TurnsListed {
                result: listed,
            });
            &&& begun.1 is ReadThread
            &&& read matches Ok(report) ==> if report.id@ == view.request.thread_id && json(
                report.status,
            ) is Object && member(json(report.status)->Object_0, "type"@) == Some(
                Json::Text("active"@),
            ) {
                after_read == (listing, MutationActionView::ListTurns { limit: 2 })
            } else {
                after_read.1 == (MutationActionView::Finish {
                    result: Err(ExternalWriteError::Conflict),
                }) && after_read.0.phase is Done
            }
            &&& listed matches Ok(turns) ==> if in_progress(turns@) == seq![turn_id] {
                after_list.1 == (MutationActionView::ReadOwner { target_id: turn_id })
                    && after_list.0.phase is ReadingOwner
            } else {
                after_list.1 == (MutationActionView::Finish {
                    result: Err(ExternalWriteError::Conflict),
                }) && after_list.0.phase is Done
            }
            &&& read is Err ==> after_read.1 is Finish && after_read.1->result is Err
            &&& listed is Err ==> after_list.1 is Finish && after_list.1->result is Err
        }),
{
}

/// A write that starts a turn is marked and sent only while the thread asked
/// for is idle and its queue is as wanted: empty for new input, and holding the
/// submission exactly once for a queued one. Else it is recorded as refused.
pub proof fn idle_threads_are_proved_first(
    view: MutationView,
    report: ThreadReport,
    queue: Vec<String>,
)
    requires
        view.request.target is Start || view.request.target is QueueStart,
        view.request.target matches TargetView::QueueStart { queued_id } ==> queued_id is Some,
    ensures
        ({
            let reading = MutationView { phase: MutationPhase::ReadingIdle, ..view };
            let listing = MutationView { phase: MutationPhase::ListingQueue, ..view };
            let refused = |step: MutationStep|
                step.1 == (MutationActionView::Resolve { resolution: ResolutionView::Rejected })
                    && step.0.phase == (MutationPhase::Resolving {
                    end: EndView::Refused { error: ExternalWriteError::Conflict },
                });
            let prepared = mutation_stepped(
                MutationView { phase: MutationPhase::Preparing, ..view },
                MutationEvent::Prepared { outcome: PrepareOutcome::Prepared },
            );
            let after_read = mutation_stepped(
                reading,
                MutationEvent::ThreadRead { result: Ok(report) },
            );
            let after_list = mutation_stepped(
                listing,
                MutationEvent::QueueListed { result: Ok(queue) },
            );
            &&& prepared == (reading, MutationActionView::ReadThread)
            &&& if report.id@ == view.request.thread_id && json(report.status) is Object && member(
                json(report.status)->Object_0,
                "type"@,
            ) == Some(Json::Text("idle"@)) {
                after_read.0 == listing && after_read.1 is ListQueue && (view.request.target
                    is QueueStart ==> after_read.1->ListQueue_limit == 100) && (view.request.target
                    is Start ==> after_read.1->ListQueue_limit == 1)
            } else {
                refused(after_read)
            }
            &&& if match view.request.target {
                TargetView::QueueStart { queued_id } => occurrences(queue@, queued_id->Some_0)
                    == 1,
                _ => queue@.len() == 0,
            } {
                after_list.1 is MarkSent && after_list.0.phase is Marking
            } else {
                refused(after_list)
            }
        }),
{
}

/// Only who made the target, under the same client and approval handler, may
/// write to it, and such a one may: the intent goes on record.
pub proof fn owners_get_to_write(
    view: MutationView,
    owner: MutationOwner,
)
    requires
        view.phase is ReadingOwner,
    ensures
        ({
            let (next, action) = mutation_stepped(
                view,
                MutationEvent::OwnerRead { owner: Some(Some(owner)) },
            );
            let unknown = mutation_stepped(view, MutationEvent::OwnerRead { owner: Some(None) }).1;
            let unread = mutation_stepped(view, MutationEvent::OwnerRead { owner: None }).1;
            let same = owner.source_actor@ == view.request.source && owner.client_actor@
                == view.settings.client_actor && owner.approval_actor@
                == view.settings.approval_actor;
            &&& same ==> action is Prepare && next.phase is Preparing
            &&& !same ==> action == (MutationActionView::Finish {
                result: Err(ExternalWriteError::Unauthorized),
            })
            &&& unknown == (MutationActionView::Finish {
                result: Err(ExternalWriteError::Unauthorized),
            })
            &&& unread == (MutationActionView::Finish { result: Err(ExternalWriteError::Store) })
        }),
{
}

/// The intent on record says what the write is: its kind, the turn that it is
/// meant for, the message that it can be recognised by, and who asked for it.
pub proof fn intents_say_what_is_written(view: MutationView)
    ensures
        ({
            let intent = intent_of(view.request, view.settings);
            &&& intent.source_actor == view.request.source
            &&& intent.client_actor == view.settings.client_actor
            &&& intent.approval_actor == view.settings.approval_actor
            &&& match view.request.target {
                TargetView::Start { client_message_id, .. } => intent.kind
                    == ExternalMutationKind::TurnStart && intent.expected_turn_id is None
                    && intent.client_message_id == client_message_id,
                TargetView::Steer { expected_turn_id, client_message_id } => intent.kind
                    == ExternalMutationKind::TurnSteer && intent.expected_turn_id == Some(
                    expected_turn_id,
                ) && intent.client_message_id == client_message_id,
                TargetView::Interrupt { turn_id } => intent.kind
                    == ExternalMutationKind::TurnInterrupt && intent.expected_turn_id == Some(
                    turn_id,
                ) && intent.client_message_id is None,
                TargetView::QueueAdd { expected_turn_id, client_message_id } => intent.kind
                    == ExternalMutationKind::QueueAdd && intent.expected_turn_id == Some(
                    expected_turn_id,
                ) && intent.client_message_id == Some(client_message_id),
                TargetView::QueueStart { .. } => intent.kind == ExternalMutationKind::QueueStart
                    && intent.expected_turn_id is None && intent.client_message_id is None,
            }
            &&& view.request.target is Start ==> mutation_begun(view) == (
                MutationView { phase: MutationPhase::Preparing, ..view },
                MutationActionView::Prepare { intent },
            )
            &&& view.request.target matches TargetView::QueueStart { queued_id } ==> (
            queued_id is Some ==> mutation_begun(view) == (
                MutationView { phase: MutationPhase::ReadingOwner, ..view },
                MutationActionView::ReadOwner { target_id: queued_id->Some_0 },
            ))
        }),
{
}

/// An intent that the store did not take ends the write, each refusal with its
/// own error; a taken one leads on.
pub proof fn refused_intents_end_the_write(view: MutationView, outcome: PrepareOutcome)
    requires
        view.phase is Preparing,
    ensures
        ({
            let (next, action) = mutation_stepped(view, MutationEvent::Prepared { outcome });
            let ended = |error: ExternalWriteError|
                action == (MutationActionView::Finish { result: Err(error) }) && next.phase is Done;
            &&& action is Finish <==> outcome != PrepareOutcome::Prepared
            &&& ended(ExternalWriteError::Busy) <==> outcome == PrepareOutcome::Busy
            &&& ended(ExternalWriteError::Uncertain) <==> outcome == PrepareOutcome::Uncertain
            &&& ended(ExternalWriteError::NotReady) <==> outcome == PrepareOutcome::NotReady
                || outcome == PrepareOutcome::StaleEpoch
            &&& ended(ExternalWriteError::InvalidSettings) <==> outcome
                == PrepareOutcome::ApprovalHandlerMismatch
            &&& ended(ExternalWriteError::Conflict) <==> outcome == PrepareOutcome::Duplicate
            &&& ended(ExternalWriteError::Store) <==> outcome == PrepareOutcome::Failed
            &&& outcome == PrepareOutcome::Prepared && (view.request.target is Steer
                || view.request.target is Interrupt || view.request.target is QueueAdd)
                ==> action is MarkSent && next.phase is Marking
        }),
{
}

/// A refusal of the server is recorded as a rejection, and of a failed read
/// around the write nothing is recorded: the write just ends.
pub proof fn refusals_are_recorded(view: MutationView, error: ExternalTransportError)
    requires
        error is ServerRejected,
    ensures
        view.phase is Sending ==> mutation_stepped(
            view,
            MutationEvent::Sent { result: Err(error) },
        ).1 == (MutationActionView::Resolve { resolution: ResolutionView::Rejected }),
        view.phase is ReadingActive || view.phase is ReadingIdle ==> mutation_stepped(
            view,
            MutationEvent::ThreadRead { result: Err(error) },
        ).1 == (MutationActionView::Finish { result: Err(ExternalWriteError::Conflict) }),
        view.phase is ListingTurns ==> mutation_stepped(
            view,
            MutationEvent::TurnsListed { result: Err(error) },
        ).1 == (MutationActionView::Finish { result: Err(ExternalWriteError::Conflict) }),
        view.phase is ListingQueue ==> mutation_stepped(
            view,
            MutationEvent::QueueListed { result: Err(error) },
        ).1 == (MutationActionView::Finish { result: Err(ExternalWriteError::Conflict) }),
        view.phase is Seeking ==> mutation_stepped(
            view,
            MutationEvent::MessageSought { result: Err(error) },
        ).1 == (MutationActionView::Finish { result: Err(ExternalWriteError::Conflict) }),
{
}

/// A write is begun exactly when its intent has a usable name, its parameters
/// fit, and it names what it can be recognised by; a new turn needs the shared
/// queue and the configured approval setting besides.
pub proof fn sound_writes_are_begun(
    profile: ExternalCapabilityProfile,
    settings: WriteSettingsView,
    request: RequestView,
)
    ensures
        ({
            let refusal = mutation_refusal(profile, settings, request);
            let sized = request.intent_id.len() > 0 && byte_len(request.intent_id)
                <= ROUTING_ID_BYTE_LIMIT && request.params_bytes is Some
                && request.params_bytes->Some_0 <= MAX_OUTBOUND_VALUE_WIRE_BYTES;
            let named = match request.target {
                TargetView::Start { client_message_id, .. } => client_message_id is Some,
                TargetView::Steer { client_message_id, .. } => client_message_id is Some,
                TargetView::QueueStart { queued_id } => queued_id is Some,
                _ => true,
            };
            let shared = profile == ExternalCapabilityProfile::QueueShared;
            &&& refusal is None <==> sized && named && (request.target matches TargetView::Start {
                approvals_reviewer,
                ..
            } ==> shared && approvals_reviewer == Some(settings.approval_reviewer))
            &&& refusal == Some(ExternalWriteError::UnsupportedProfile) <==> request.target
                is Start && !shared
            &&& refusal is Some ==> refusal == Some(ExternalWriteError::UnsupportedProfile)
                || refusal == Some(ExternalWriteError::InvalidSettings)
        }),
{
}

} // verus!
