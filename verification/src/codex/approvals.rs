//! Approvals that wait for their one recipient: which are pending, who may
//! answer them, and the order in which an answer is claimed, announced, given
//! and recorded.
use vstd::prelude::*;

use crate::codex::external_transport::approval_params;
use crate::codex::external_transport::approval_token;
use crate::codex::external_transport::auto_resolution;
use crate::codex::external_transport::kind_of_approval;
use crate::codex::external_transport::ApprovalKind;
use crate::codex::external_transport::ExternalApprovalRequest;
use crate::codex::external_write::ExternalWriteError;
use crate::codex::external_write::ExternalWriteSettings;
use crate::codex::external_write::TransitionOutcome;
use crate::codex::external_write::WriteSettingsView;
use crate::codex::protocol::id_json;
use crate::codex::protocol::id_value;
use crate::json::empty_object;
use crate::json::json;
use crate::json::json_text;
use crate::json::to_bytes;
use crate::json::Json;
use crate::keyed::bind;
use crate::keyed::has_key;
use crate::keyed::lemma_bind_lookup;
use crate::keyed::lemma_bind_unique;
use crate::keyed::lemma_unbind_lookup;
use crate::keyed::lookup;
use crate::keyed::unbind;
use crate::keyed::unique_keys;
use crate::keyed::value_of;
use crate::keyed::Keyed;
use crate::limits::APPROVAL_DEADLINE_MAX_MS;
use crate::limits::APPROVAL_DURABLE_MIN_MS;
use crate::limits::APPROVAL_REMOTE_MARGIN_MS;
use crate::outside::is_hex;
use crate::outside::random_id;
use crate::outside::sha256;
use crate::outside::sha256_digest;
use crate::text::append_hex;
use crate::text::append_signed;
use crate::text::hex;
use crate::text::same_text;
use crate::text::signed_decimal;
use vstd::string::StringExecFns;

verus! {

/// What the recipient is asked.
#[derive(Clone, Copy, Debug, PartialEq, Eq, Structural)]
pub enum ExternalApprovalPromptKind {
    Command,
    FileChange,
    Permissions,
}

/// What the recipient is asked for an approval.
pub open spec fn prompt_kind(kind: ApprovalKind) -> ExternalApprovalPromptKind {
    match kind {
        ApprovalKind::Command => ExternalApprovalPromptKind::Command,
        ApprovalKind::FileChange => ExternalApprovalPromptKind::FileChange,
        ApprovalKind::Permissions => ExternalApprovalPromptKind::Permissions,
    }
}

/// A question for the recipient.
pub struct ExternalApprovalPrompt {
    pub approval_id: String,
    pub kind: ExternalApprovalPromptKind,
    pub deadline_ms: i64,
}

/// How a question is shown: without its identifier.
pub open spec fn prompt_text(kind: ExternalApprovalPromptKind, deadline_ms: int) -> Seq<char> {
    (match kind {
        ExternalApprovalPromptKind::Command =>
            "ExternalApprovalPrompt { kind: Command, deadline_ms: "@,
        ExternalApprovalPromptKind::FileChange =>
            "ExternalApprovalPrompt { kind: FileChange, deadline_ms: "@,
        ExternalApprovalPromptKind::Permissions =>
            "ExternalApprovalPrompt { kind: Permissions, deadline_ms: "@,
    }) + signed_decimal(deadline_ms) + ", .. }"@
}

impl ExternalApprovalPrompt {
    /// How the question is shown.
    pub fn debug_text(&self) -> (text: String)
        ensures
            text@ == prompt_text(self.kind, self.deadline_ms as int),
    {
        let mut text = match self.kind {
            ExternalApprovalPromptKind::Command =>
                "ExternalApprovalPrompt { kind: Command, deadline_ms: ".to_owned(),
            ExternalApprovalPromptKind::FileChange =>
                "ExternalApprovalPrompt { kind: FileChange, deadline_ms: ".to_owned(),
            ExternalApprovalPromptKind::Permissions =>
                "ExternalApprovalPrompt { kind: Permissions, deadline_ms: ".to_owned(),
        };
        append_signed(&mut text, self.deadline_ms);
        text.append(", .. }");
        text
    }
}

/// An answer without conditions.
#[derive(Clone, Copy, Debug, PartialEq, Eq, Structural)]
pub enum SimpleApprovalDecision {
    Accept,
    AcceptForSession,
    Decline,
    Cancel,
}

/// An answer to a command: a simple one, or one with an amendment.
pub enum CommandExecutionApprovalDecision {
    Simple(SimpleApprovalDecision),
    Amended(serde_json::Value),
}

/// An answer to a wish for permissions.
pub struct PermissionsRequestApprovalResult {
    pub permissions: serde_json::Value,
    pub scope: Option<String>,
    pub strict_auto_review: Option<bool>,
}

/// An answer of the recipient.
pub enum ExternalApprovalDecision {
    Command(CommandExecutionApprovalDecision),
    FileChange(SimpleApprovalDecision),
    Permissions(PermissionsRequestApprovalResult),
}

/// What kind of approval an answer is for.
pub open spec fn decision_kind(decision: ExternalApprovalDecision) -> ApprovalKind {
    match decision {
        ExternalApprovalDecision::Command(_) => ApprovalKind::Command,
        ExternalApprovalDecision::FileChange(_) => ApprovalKind::FileChange,
        ExternalApprovalDecision::Permissions(_) => ApprovalKind::Permissions,
    }
}

impl ExternalApprovalDecision {
    /// How an answer is shown: without what it says.
    pub fn debug_text(&self) -> (text: &'static str)
        ensures
            text@ == match decision_kind(*self) {
                ApprovalKind::Command => "ExternalApprovalDecision::Command([redacted])"@,
                ApprovalKind::FileChange => "ExternalApprovalDecision::FileChange([redacted])"@,
                ApprovalKind::Permissions => "ExternalApprovalDecision::Permissions([redacted])"@,
            },
    {
        match self {
            ExternalApprovalDecision::Command(_) => "ExternalApprovalDecision::Command([redacted])",
            ExternalApprovalDecision::FileChange(_) =>
                "ExternalApprovalDecision::FileChange([redacted])",
            ExternalApprovalDecision::Permissions(_) =>
                "ExternalApprovalDecision::Permissions([redacted])",
        }
    }
}

/// Whether an answer is of the kind that was asked for.
pub fn decision_matches(kind: ApprovalKind, decision: &ExternalApprovalDecision) -> (matching: bool)
    ensures
        matching == (decision_kind(*decision) == kind),
{
    match (kind, decision) {
        (ApprovalKind::Command, ExternalApprovalDecision::Command(_)) => true,
        (ApprovalKind::FileChange, ExternalApprovalDecision::FileChange(_)) => true,
        (ApprovalKind::Permissions, ExternalApprovalDecision::Permissions(_)) => true,
        _ => false,
    }
}

/// Whether an answer refuses what an approval asks for: it declines, or grants
/// no permission at all.
pub open spec fn denies(decision: ExternalApprovalDecision, kind: ApprovalKind) -> bool {
    match decision {
        ExternalApprovalDecision::Command(held) => kind == ApprovalKind::Command && held
            == CommandExecutionApprovalDecision::Simple(SimpleApprovalDecision::Decline),
        ExternalApprovalDecision::FileChange(held) => kind == ApprovalKind::FileChange && held
            == SimpleApprovalDecision::Decline,
        ExternalApprovalDecision::Permissions(held) => {
            &&& kind == ApprovalKind::Permissions
            &&& json(held.permissions) == Json::Object(Map::empty())
            &&& held.scope is None
            &&& held.strict_auto_review is None
        },
    }
}

/// The answer that refuses what an approval asks for.
pub fn denial_for(kind: ApprovalKind) -> (decision: ExternalApprovalDecision)
    ensures
        denies(decision, kind),
        decision_kind(decision) == kind,
{
    match kind {
        ApprovalKind::Command => ExternalApprovalDecision::Command(
            CommandExecutionApprovalDecision::Simple(SimpleApprovalDecision::Decline),
        ),
        ApprovalKind::FileChange => ExternalApprovalDecision::FileChange(
            SimpleApprovalDecision::Decline,
        ),
        ApprovalKind::Permissions => ExternalApprovalDecision::Permissions(
            PermissionsRequestApprovalResult {
                permissions: empty_object(),
                scope: None,
                strict_auto_review: None,
            },
        ),
    }
}

/// How long an approval waits: as configured, and in time before the server
/// would decide by itself, but at least a millisecond.
pub open spec fn approval_wait(timeout_ms: int, remote_ms: Option<u64>) -> int {
    let local = if timeout_ms <= APPROVAL_DEADLINE_MAX_MS {
        timeout_ms
    } else {
        APPROVAL_DEADLINE_MAX_MS as int
    };
    let remote = match remote_ms {
        Some(millis) => if millis >= APPROVAL_REMOTE_MARGIN_MS {
            millis - APPROVAL_REMOTE_MARGIN_MS
        } else {
            0
        },
        None => APPROVAL_DEADLINE_MAX_MS as int,
    };
    let shorter = if local <= remote {
        local
    } else {
        remote
    };
    if shorter >= 1 {
        shorter
    } else {
        1
    }
}

/// How long an approval waits.
pub fn approval_duration(timeout_ms: u64, remote_ms: Option<u64>) -> (millis: u64)
    ensures
        millis == approval_wait(timeout_ms as int, remote_ms),
        1 <= millis <= APPROVAL_DEADLINE_MAX_MS,
{
    let local: u64 = if timeout_ms <= APPROVAL_DEADLINE_MAX_MS {
        timeout_ms
    } else {
        APPROVAL_DEADLINE_MAX_MS
    };
    let remote: u64 = match remote_ms {
        Some(millis) => if millis >= APPROVAL_REMOTE_MARGIN_MS {
            millis - APPROVAL_REMOTE_MARGIN_MS
        } else {
            0
        },
        None => APPROVAL_DEADLINE_MAX_MS,
    };
    let shorter: u64 = if local <= remote {
        local
    } else {
        remote
    };
    if shorter >= 1 {
        shorter
    } else {
        1
    }
}

/// An approval is answered before the server would decide, wherever its own
/// time leaves room for that.
pub proof fn approvals_are_answered_before_the_server_decides(timeout_ms: int, remote_ms: u64)
    requires
        remote_ms > APPROVAL_REMOTE_MARGIN_MS,
    ensures
        approval_wait(timeout_ms, Some(remote_ms)) + APPROVAL_REMOTE_MARGIN_MS <= remote_ms,
{
}

/// The wall time until which a durable record waits.
pub open spec fn durable_deadline(wall_now_ms: int, wait_ms: int) -> int {
    let wait = if wait_ms >= APPROVAL_DURABLE_MIN_MS {
        wait_ms
    } else {
        APPROVAL_DURABLE_MIN_MS as int
    };
    if wall_now_ms + wait <= i64::MAX {
        wall_now_ms + wait
    } else {
        i64::MAX as int
    }
}

/// The wall time in milliseconds, from the time since 1970 where there is one;
/// a time far ahead where the clock stands before that or beyond its range.
pub fn wall_now_ms(since_epoch_ms: Option<u128>) -> (now_ms: i64)
    ensures
        now_ms == (match since_epoch_ms {
            Some(millis) => if millis <= i64::MAX {
                millis as int
            } else {
                i64::MAX / 2
            },
            None => i64::MAX / 2,
        }),
{
    match since_epoch_ms {
        Some(millis) => if millis <= i64::MAX as u128 {
            millis as i64
        } else {
            i64::MAX / 2
        },
        None => i64::MAX / 2,
    }
}

/// A fresh identifier of an approval: thirty-two hexadecimal digits.
pub fn new_approval_id() -> (id: String)
    ensures
        id@.len() == 32,
        forall|k: int| 0 <= k < 32 ==> is_hex(#[trigger] id@[k]),
{
    random_id()
}

/// The key under which a request is recorded: the hexadecimal digest of its
/// identifier's JSON text.
pub open spec fn request_key_of(id: Json) -> Seq<char> {
    hex(sha256_digest(json_text(id)))
}

/// The key under which a request is recorded.
pub fn request_key_from_value(value: &serde_json::Value) -> (key: Option<String>)
    ensures
        key is Some,
        key->Some_0@ == request_key_of(json(*value)),
{
    match to_bytes(value) {
        Some(encoded) => {
            let digest = sha256(encoded.as_slice());
            let mut key = String::new();
            append_hex(&mut key, &digest);
            proof {
                assert(Seq::<char>::empty() + hex(digest@) =~= hex(digest@));
            }
            Some(key)
        },
        None => None,
    }
}

/// An approval that waits for its recipient.
pub struct PendingApproval {
    pub request_key: String,
    /// On the steady clock.
    pub deadline_ms: u64,
    pub thread_id: String,
    pub kind: ApprovalKind,
    pub responded: bool,
}

/// Content of an approval that waits.
pub struct PendingView {
    pub request_key: Seq<char>,
    pub deadline_ms: u64,
    pub thread_id: Seq<char>,
    pub kind: ApprovalKind,
    pub responded: bool,
}

impl View for PendingApproval {
    type V = PendingView;

    open spec fn view(&self) -> PendingView {
        PendingView {
            request_key: self.request_key@,
            deadline_ms: self.deadline_ms,
            thread_id: self.thread_id@,
            kind: self.kind,
            responded: self.responded,
        }
    }
}

/// The durable record of an approval.
pub struct ApprovalClaim {
    pub thread_id: String,
    pub approval_id: String,
    pub request_key: String,
    pub epoch: u64,
    pub turn_id: String,
    pub item_id: String,
    pub kind: ApprovalKind,
    pub client_actor: String,
    pub approval_actor: String,
    pub recipient_actor: String,
    pub deadline_ms: i64,
}

/// Content of the durable record of an approval.
pub struct ClaimView {
    pub thread_id: Seq<char>,
    pub approval_id: Seq<char>,
    pub request_key: Seq<char>,
    pub epoch: u64,
    pub turn_id: Seq<char>,
    pub item_id: Seq<char>,
    pub kind: ApprovalKind,
    pub client_actor: Seq<char>,
    pub approval_actor: Seq<char>,
    pub recipient_actor: Seq<char>,
    pub deadline_ms: i64,
}

impl View for ApprovalClaim {
    type V = ClaimView;

    open spec fn view(&self) -> ClaimView {
        ClaimView {
            thread_id: self.thread_id@,
            approval_id: self.approval_id@,
            request_key: self.request_key@,
            epoch: self.epoch,
            turn_id: self.turn_id@,
            item_id: self.item_id@,
            kind: self.kind,
            client_actor: self.client_actor@,
            approval_actor: self.approval_actor@,
            recipient_actor: self.recipient_actor@,
            deadline_ms: self.deadline_ms,
        }
    }
}

/// How the store took the record of an approval.
#[derive(Clone, Copy, Debug, PartialEq, Eq, Structural)]
pub enum ReceiveOutcome {
    Received,
    NotOwned,
    NotReady,
    StaleEpoch,
    ThreadFenced,
    ApprovalHandlerMismatch,
    Duplicate,
    /// The store could not be asked.
    Failed,
}

/// Why an approval is not put to the recipient.
pub open spec fn receive_error(outcome: ReceiveOutcome) -> Option<ExternalWriteError> {
    match outcome {
        ReceiveOutcome::Received => None,
        ReceiveOutcome::NotOwned => Some(ExternalWriteError::Unauthorized),
        ReceiveOutcome::NotReady => Some(ExternalWriteError::NotReady),
        ReceiveOutcome::StaleEpoch => Some(ExternalWriteError::NotReady),
        ReceiveOutcome::ThreadFenced => Some(ExternalWriteError::Uncertain),
        ReceiveOutcome::ApprovalHandlerMismatch => Some(ExternalWriteError::InvalidSettings),
        ReceiveOutcome::Duplicate => Some(ExternalWriteError::Ambiguous),
        ReceiveOutcome::Failed => Some(ExternalWriteError::Store),
    }
}

/// Why an approval is not put to the recipient, and whether its request is
/// given up explicitly.
#[derive(Clone, Copy, Debug, PartialEq, Eq, Structural)]
pub struct ReceiveRefusal {
    pub error: ExternalWriteError,
    pub abandon: bool,
}

/// Content of the desk where approvals wait.
pub struct DeskView {
    pub epoch: u64,
    pub settings: WriteSettingsView,
    pub pending: Seq<(Seq<char>, PendingView)>,
}

/// Why an answer is not taken: it comes from someone else than the recipient,
/// or there is no such approval that waits for an answer of this kind.
pub open spec fn resolution_refusal(
    desk: DeskView,
    actor: Seq<char>,
    approval_id: Seq<char>,
    kind: ApprovalKind,
) -> Option<ExternalWriteError> {
    if actor != desk.settings.approval_recipient {
        Some(ExternalWriteError::Unauthorized)
    } else {
        match lookup(desk.pending, approval_id) {
            None => Some(ExternalWriteError::Conflict),
            Some(pending) => if pending.responded || pending.kind != kind {
                Some(ExternalWriteError::Conflict)
            } else {
                None
            },
        }
    }
}

/// The desk after an approval was answered.
pub open spec fn answered(desk: DeskView, approval_id: Seq<char>) -> DeskView {
    match lookup(desk.pending, approval_id) {
        Some(pending) => DeskView {
            pending: bind(desk.pending, approval_id, PendingView { responded: true, ..pending }),
            ..desk
        },
        None => desk,
    }
}

/// The desk without the approvals of a request.
pub open spec fn without_request(
    pending: Seq<(Seq<char>, PendingView)>,
    request_key: Seq<char>,
) -> Seq<(Seq<char>, PendingView)>
    decreases pending.len(),
{
    if pending.len() == 0 {
        Seq::empty()
    } else {
        let rest = without_request(pending.drop_last(), request_key);
        if pending.last().1.request_key == request_key {
            rest
        } else {
            rest.push(pending.last())
        }
    }
}

/// The approvals that wait past their time, unanswered.
pub open spec fn overdue(pending: Seq<(Seq<char>, PendingView)>, now_ms: u64) -> Seq<Seq<char>>
    decreases pending.len(),
{
    if pending.len() == 0 {
        Seq::empty()
    } else {
        let rest = overdue(pending.drop_last(), now_ms);
        if !pending.last().1.responded && pending.last().1.deadline_ms <= now_ms {
            rest.push(pending.last().0)
        } else {
            rest
        }
    }
}

/// The desk where approvals of one epoch wait for their recipient.
pub struct ApprovalDesk {
    epoch: u64,
    settings: ExternalWriteSettings,
    pending: Keyed<PendingApproval>,
}

impl View for ApprovalDesk {
    type V = DeskView;

    closed spec fn view(&self) -> DeskView {
        DeskView { epoch: self.epoch, settings: self.settings@, pending: self.pending@ }
    }
}

/// The record of an approval that is received now.
pub open spec fn claim_of(
    desk: DeskView,
    request: ExternalApprovalRequest,
    approval_id: Seq<char>,
    wall_now_ms: i64,
) -> ClaimView {
    let wait = approval_wait(
        desk.settings.approval_timeout_ms as int,
        auto_resolution(json(approval_params(request).details)),
    );
    ClaimView {
        thread_id: approval_params(request).thread_id@,
        approval_id,
        request_key: request_key_of(id_json(approval_token(request)@.id)),
        epoch: desk.epoch,
        turn_id: approval_params(request).turn_id@,
        item_id: approval_params(request).item_id@,
        kind: kind_of_approval(request),
        client_actor: desk.settings.client_actor,
        approval_actor: desk.settings.approval_actor,
        recipient_actor: desk.settings.approval_recipient,
        deadline_ms: durable_deadline(wall_now_ms as int, wait) as i64,
    }
}

/// The approval that is received now, as it will wait.
pub open spec fn pending_of(
    desk: DeskView,
    request: ExternalApprovalRequest,
    now_ms: u64,
) -> PendingView {
    let wait = approval_wait(
        desk.settings.approval_timeout_ms as int,
        auto_resolution(json(approval_params(request).details)),
    );
    PendingView {
        request_key: request_key_of(id_json(approval_token(request)@.id)),
        deadline_ms: if now_ms + wait <= u64::MAX {
            (now_ms + wait) as u64
        } else {
            u64::MAX
        },
        thread_id: approval_params(request).thread_id@,
        kind: kind_of_approval(request),
        responded: false,
    }
}

impl ApprovalDesk {
    pub open spec fn wf(&self) -> bool {
        unique_keys(self@.pending)
    }

    pub fn new(epoch: u64, settings: ExternalWriteSettings) -> (desk: ApprovalDesk)
        ensures
            desk.wf(),
            desk@ == (DeskView { epoch, settings: settings@, pending: Seq::empty() }),
    {
        ApprovalDesk { epoch, settings, pending: Keyed::new() }
    }

    pub fn settings(&self) -> (settings: &ExternalWriteSettings)
        ensures
            settings@ == self@.settings,
    {
        &self.settings
    }

    pub fn epoch(&self) -> (epoch: u64)
        ensures
            epoch == self@.epoch,
    {
        self.epoch
    }

    /// Whether nothing waits.
    pub fn is_empty(&self) -> (empty: bool)
        ensures
            empty == (self@.pending.len() == 0),
    {
        self.pending.len() == 0
    }

    /// Prepares the record of an approval, under a fresh identifier and at the
    /// times of the two clocks.
    ///
    /// # Errors
    ///
    /// `Uncertain` for a request of another epoch, which is given up.
    pub fn receive_approval(
        &self,
        request: &ExternalApprovalRequest,
        approval_id: &str,
        now_ms: u64,
        wall_now_ms: i64,
    ) -> (received: Result<(ApprovalClaim, PendingApproval), ReceiveRefusal>)
        ensures
            match received {
                Ok((claim, pending)) => {
                    &&& approval_token(*request)@.epoch == self@.epoch
                    &&& claim@ == claim_of(self@, *request, approval_id@, wall_now_ms)
                    &&& pending@ == pending_of(self@, *request, now_ms)
                },
                Err(refusal) => {
                    &&& approval_token(*request)@.epoch != self@.epoch
                    &&& refusal == (ReceiveRefusal {
                        error: ExternalWriteError::Uncertain,
                        abandon: true,
                    })
                },
            },
    {
        if request.epoch().get() != self.epoch {
            return Err(ReceiveRefusal { error: ExternalWriteError::Uncertain, abandon: true });
        }
        let request_key = match request_key_from_value(&id_value(request.request_id())) {
            Some(key) => key,
            None => {
                return Err(
                    ReceiveRefusal { error: ExternalWriteError::Transport, abandon: false },
                );
            },
        };
        let wait: u64 = approval_duration(
            self.settings.approval_timeout_ms,
            request.auto_resolution_ms(),
        );
        let deadline: u64 = if now_ms <= u64::MAX - wait {
            now_ms + wait
        } else {
            u64::MAX
        };
        let durable: i64 = if wait >= APPROVAL_DURABLE_MIN_MS {
            wait as i64
        } else {
            APPROVAL_DURABLE_MIN_MS as i64
        };
        let deadline_ms: i64 = if wall_now_ms <= i64::MAX - durable {
            wall_now_ms + durable
        } else {
            i64::MAX
        };
        let claim = ApprovalClaim {
            thread_id: request.thread_id().to_owned(),
            approval_id: approval_id.to_owned(),
            request_key: request_key.clone(),
            epoch: self.epoch,
            turn_id: request.turn_id().to_owned(),
            item_id: request.item_id().to_owned(),
            kind: request.approval_kind(),
            client_actor: self.settings.client_actor.clone(),
            approval_actor: self.settings.approval_actor.clone(),
            recipient_actor: self.settings.approval_recipient.clone(),
            deadline_ms,
        };
        let pending = PendingApproval {
            request_key,
            deadline_ms: deadline,
            thread_id: request.thread_id().to_owned(),
            kind: request.approval_kind(),
            responded: false,
        };
        Ok((claim, pending))
    }

    /// Takes the store's answer to the record of an approval: it waits, and the
    /// recipient is asked.
    ///
    /// # Errors
    ///
    /// Why it is not put to the recipient. The request is given up, except
    /// where the store could not be asked.
    pub fn on_received(
        &mut self,
        approval_id: &str,
        pending: PendingApproval,
        deadline_ms: i64,
        outcome: ReceiveOutcome,
    ) -> (prompt: Result<ExternalApprovalPrompt, ReceiveRefusal>)
        requires
            old(self).wf(),
        ensures
            receive_error(outcome) is None ==> final(self)@ == desk_asked(
                old(self)@,
                approval_id@,
                pending@,
            ),
            final(self).wf(),
            match receive_error(outcome) {
                None => {
                    &&& final(self)@ == (DeskView {
                        pending: bind(old(self)@.pending, approval_id@, pending@),
                        ..old(self)@
                    })
                    &&& prompt is Ok
                    &&& prompt->Ok_0.approval_id@ == approval_id@
                    &&& prompt->Ok_0.kind == prompt_kind(pending.kind)
                    &&& prompt->Ok_0.deadline_ms == deadline_ms
                },
                Some(error) => {
                    &&& final(self)@ == old(self)@
                    &&& prompt == Err::<ExternalApprovalPrompt, ReceiveRefusal>(
                        ReceiveRefusal { error, abandon: outcome != ReceiveOutcome::Failed },
                    )
                },
            },
    {
        let error = match outcome {
            ReceiveOutcome::Received => {
                let kind = match pending.kind {
                    ApprovalKind::Command => ExternalApprovalPromptKind::Command,
                    ApprovalKind::FileChange => ExternalApprovalPromptKind::FileChange,
                    ApprovalKind::Permissions => ExternalApprovalPromptKind::Permissions,
                };
                self.pending.set(approval_id, pending);
                proof {
                    lemma_bind_unique(old(self)@.pending, approval_id@, pending@);
                }
                return Ok(
                    ExternalApprovalPrompt { approval_id: approval_id.to_owned(), kind, deadline_ms },
                );
            },
            ReceiveOutcome::NotOwned => ExternalWriteError::Unauthorized,
            ReceiveOutcome::NotReady => ExternalWriteError::NotReady,
            ReceiveOutcome::StaleEpoch => ExternalWriteError::NotReady,
            ReceiveOutcome::ThreadFenced => ExternalWriteError::Uncertain,
            ReceiveOutcome::ApprovalHandlerMismatch => ExternalWriteError::InvalidSettings,
            ReceiveOutcome::Duplicate => ExternalWriteError::Ambiguous,
            ReceiveOutcome::Failed => {
                return Err(ReceiveRefusal { error: ExternalWriteError::Store, abandon: false });
            },
        };
        Err(ReceiveRefusal { error, abandon: true })
    }

    /// The approvals that wait past their time, unanswered.
    pub fn expired(&self, now_ms: u64) -> (ids: Vec<String>)
        ensures
            ids@.map_values(|id: String| id@) == overdue(self@.pending, now_ms),
    {
        let mut ids: Vec<String> = Vec::new();
        let mut at: usize = 0;
        let ghost all = self.pending@;
        proof {
            assert(all.take(0) =~= Seq::empty());
            assert(ids@.map_values(|id: String| id@) =~= Seq::empty());
        }
        while at < self.pending.len()
            invariant
                at <= all.len(),
                all == self.pending@,
                ids@.map_values(|id: String| id@) == overdue(all.take(at as int), now_ms),
            decreases all.len() - at,
        {
            proof {
                assert(all.take(at + 1).drop_last() =~= all.take(at as int));
                assert(all.take(at + 1).last() == all[at as int]);
            }
            let entry = self.pending.value_at(at);
            if !entry.responded && entry.deadline_ms <= now_ms {
                let ghost before = ids@;
                ids.push(self.pending.key_at(at).to_owned());
                proof {
                    assert(ids@.map_values(|id: String| id@) =~= before.map_values(
                        |id: String| id@,
                    ).push(all[at as int].0));
                }
            }
            at += 1;
        }
        proof {
            assert(all.take(all.len() as int) =~= all);
        }
        ids
    }

    /// Takes the record that the server resolved a request: its approvals no
    /// longer wait. Anything but a record is fatal.
    pub fn request_resolved(&mut self, request_key: &str, outcome: TransitionOutcome) -> (fatal:
        bool)
        requires
            old(self).wf(),
        ensures
            final(self).wf(),
            fatal == (outcome != TransitionOutcome::Applied),
            final(self)@ == if fatal {
                old(self)@
            } else {
                DeskView {
                    pending: without_request(old(self)@.pending, request_key@),
                    ..old(self)@
                }
            },
    {
        if !matches!(outcome, TransitionOutcome::Applied) {
            return true;
        }
        let ghost all = self.pending@;
        let mut at: usize = self.pending.len();
        proof {
            assert(all.subrange(at as int, all.len() as int) =~= Seq::empty());
            assert(all.take(at as int) =~= all);
            assert(without_request(Seq::empty(), request_key@) =~= Seq::empty());
            assert(self.pending@ =~= all.take(at as int) + without_request(
                all.subrange(at as int, all.len() as int),
                request_key@,
            ));
        }
        while at > 0
            invariant
                at <= all.len(),
                self.epoch == old(self).epoch,
                self.settings == old(self).settings,
                all == old(self).pending@,
                unique_keys(self.pending@),
                self.pending@ == all.take(at as int) + without_request(
                    all.subrange(at as int, all.len() as int),
                    request_key@,
                ),
            decreases at,
        {
            at -= 1;
            let ghost tail = without_request(
                all.subrange(at + 1, all.len() as int),
                request_key@,
            );
            let ghost before = self.pending@;
            proof {
                assert(before[at as int] == all[at as int]);
                lemma_without_front(all.subrange(at as int, all.len() as int), request_key@);
                assert(all.subrange(at as int, all.len() as int).drop_first() =~= all.subrange(
                    at + 1,
                    all.len() as int,
                ));
            }
            if same_text(self.pending.value_at(at).request_key.as_str(), request_key) {
                let _ = self.pending.remove_at(at);
                proof {
                    assert(before.remove(at as int) =~= all.take(at as int) + tail);
                }
            } else {
                proof {
                    assert(before =~= all.take(at as int) + (seq![all[at as int]] + tail));
                }
            }
        }
        proof {
            assert(all.subrange(0, all.len() as int) =~= all);
            assert(all.take(0) + without_request(all, request_key@) =~= without_request(
                all,
                request_key@,
            ));
        }
        false
    }

    /// Begins to give the recipient's answer.
    ///
    /// # Errors
    ///
    /// `Unauthorized` for anyone but the recipient, `Conflict` where no such
    /// approval waits for an answer of this kind.
    pub fn begin_resolution(
        &self,
        actor: &str,
        approval_id: &str,
        decision: ExternalApprovalDecision,
    ) -> (begun: Result<(ApprovalAnswer, AnswerAction), ExternalWriteError>)
        requires
            self.wf(),
        ensures
            match begun {
                Ok((answer, action)) => {
                    let view = AnswerView {
                        approval_id: approval_id@,
                        thread_id: value_of(self@.pending, approval_id@).thread_id,
                        denial: false,
                        phase: AnswerPhase::Claiming,
                    };
                    &&& resolution_refusal(
                        self@,
                        actor@,
                        approval_id@,
                        decision_kind(decision),
                    ) is None
                    &&& answer@ == view
                    &&& answer.decision() == Some(decision)
                    &&& action == AnswerAction::Claim
                },
                Err(error) => resolution_refusal(
                    self@,
                    actor@,
                    approval_id@,
                    decision_kind(decision),
                ) == Some(error),
            },
    {
        if !same_text(actor, self.settings.approval_recipient.as_str()) {
            return Err(ExternalWriteError::Unauthorized);
        }
        let at: usize = match self.pending.position(approval_id) {
            Some(at) => at,
            None => {
                return Err(ExternalWriteError::Conflict);
            },
        };
        let pending = self.pending.value_at(at);
        if pending.responded || !decision_matches(pending.kind, &decision) {
            return Err(ExternalWriteError::Conflict);
        }
        Ok(
            (
                ApprovalAnswer {
                    approval_id: approval_id.to_owned(),
                    thread_id: pending.thread_id.clone(),
                    denial: false,
                    decision: Some(decision),
                    phase: AnswerPhase::Claiming,
                },
                AnswerAction::Claim,
            ),
        )
    }

    /// Begins to refuse an approval, which no longer waits; nothing where it
    /// does not wait at all.
    pub fn begin_denial(&mut self, approval_id: &str) -> (begun: Option<
        (ApprovalAnswer, AnswerAction),
    >)
        requires
            old(self).wf(),
        ensures
            final(self).wf(),
            final(self)@ == (DeskView {
                pending: unbind(old(self)@.pending, approval_id@),
                ..old(self)@
            }),
            begun is Some == has_key(old(self)@.pending, approval_id@),
            begun matches Some((answer, action)) ==> {
                let pending = value_of(old(self)@.pending, approval_id@);
                &&& answer@ == (AnswerView {
                    approval_id: approval_id@,
                    thread_id: pending.thread_id,
                    denial: true,
                    phase: AnswerPhase::Claiming,
                })
                &&& answer.decision() is Some
                &&& denies(answer.decision()->Some_0, pending.kind)
                &&& action == AnswerAction::Claim
            },
    {
        let pending = match self.pending.remove(approval_id) {
            Some(pending) => pending,
            None => {
                return None;
            },
        };
        let decision = denial_for(pending.kind);
        Some(
            (
                ApprovalAnswer {
                    approval_id: approval_id.to_owned(),
                    thread_id: pending.thread_id,
                    denial: true,
                    decision: Some(decision),
                    phase: AnswerPhase::Claiming,
                },
                AnswerAction::Claim,
            ),
        )
    }

    /// Notes that an approval was answered: it takes no other answer.
    pub fn note_answered(&mut self, approval_id: &str)
        requires
            old(self).wf(),
        ensures
            final(self).wf(),
            final(self)@ == answered(old(self)@, approval_id@),
    {
        let ghost before = self.pending@;
        if let Some(at) = self.pending.position(approval_id) {
            let entry = self.pending.value_mut(at);
            entry.responded = true;
            proof {
                let held = PendingView { responded: true, ..before[at as int].1 };
                assert(self.pending@ =~= bind(before, approval_id@, held));
                lemma_bind_unique(before, approval_id@, held);
            }
        }
    }
}

proof fn lemma_without_front(pending: Seq<(Seq<char>, PendingView)>, request_key: Seq<char>)
    requires
        pending.len() > 0,
    ensures
        without_request(pending, request_key) == if pending.first().1.request_key == request_key {
            without_request(pending.drop_first(), request_key)
        } else {
            seq![pending.first()] + without_request(pending.drop_first(), request_key)
        },
    decreases pending.len(),
{
    if pending.len() == 1 {
        assert(pending.drop_last() =~= Seq::empty());
        assert(pending.drop_first() =~= Seq::empty());
        assert(without_request(pending, request_key) =~= if pending.first().1.request_key
            == request_key {
            without_request(pending.drop_first(), request_key)
        } else {
            seq![pending.first()] + without_request(pending.drop_first(), request_key)
        });
    } else {
        lemma_without_front(pending.drop_last(), request_key);
        assert(pending.drop_last().drop_first() =~= pending.drop_first().drop_last());
        assert(without_request(pending, request_key) =~= if pending.first().1.request_key
            == request_key {
            without_request(pending.drop_first(), request_key)
        } else {
            seq![pending.first()] + without_request(pending.drop_first(), request_key)
        });
    }
}

/// What is recorded of an approval while it is answered.
#[derive(Clone, Copy, Debug, PartialEq, Eq, Structural)]
pub enum ApprovalResolution {
    Responding,
    Denied,
    Uncertain,
}

/// What an answer does next. Every step concerns its own approval.
#[derive(Clone, Copy, Debug, PartialEq, Eq, Structural)]
pub enum AnswerAction {
    /// Claim the approval durably for its recipient.
    Claim,
    /// Record how far the answer has come.
    Record { resolution: ApprovalResolution },
    /// Give the answer.
    Respond,
    /// The answer is over.
    Finish { error: Option<ExternalWriteError> },
}

/// How the store took the claim of an approval.
#[derive(Clone, Copy, Debug, PartialEq, Eq, Structural)]
pub enum ClaimOutcome {
    Claimed,
    Unauthorized,
    Duplicate,
    Stale,
    /// The store could not be asked.
    Failed,
}

/// What happens to an answer.
#[derive(Clone, Copy, Debug, PartialEq, Eq, Structural)]
pub enum AnswerEvent {
    Claimed { outcome: ClaimOutcome },
    Recorded { recorded: bool },
    Responded { responded: bool },
}

/// What an answer waits for.
#[derive(Clone, Copy, Debug, PartialEq, Eq, Structural)]
pub enum AnswerPhase {
    Claiming,
    /// The record that the answer is about to be given.
    Announcing,
    Responding,
    /// The record that it is not known whether the answer arrived.
    Fencing,
    /// The record of a refusal.
    Recording,
    Done,
}

/// Content of an answer under way.
pub struct AnswerView {
    pub approval_id: Seq<char>,
    pub thread_id: Seq<char>,
    pub denial: bool,
    pub phase: AnswerPhase,
}

/// Whether an event can happen to an answer.
pub open spec fn answer_expected(phase: AnswerPhase, event: AnswerEvent) -> bool {
    match phase {
        AnswerPhase::Claiming => event is Claimed,
        AnswerPhase::Announcing => event is Recorded,
        AnswerPhase::Responding => event is Responded,
        AnswerPhase::Fencing => event is Recorded,
        AnswerPhase::Recording => event is Recorded,
        AnswerPhase::Done => false,
    }
}

/// What an event leads to: what the answer waits for, and what it does next. A
/// refusal of an approval that is already claimed, or out of date, is no
/// failure.
pub open spec fn answer_stepped(denial: bool, phase: AnswerPhase, event: AnswerEvent) -> (
    AnswerPhase,
    AnswerAction,
) {
    match (phase, event) {
        (AnswerPhase::Claiming, AnswerEvent::Claimed { outcome }) => match outcome {
            ClaimOutcome::Claimed => (
                AnswerPhase::Announcing,
                AnswerAction::Record { resolution: ApprovalResolution::Responding },
            ),
            ClaimOutcome::Unauthorized => (
                AnswerPhase::Done,
                AnswerAction::Finish { error: Some(ExternalWriteError::Unauthorized) },
            ),
            ClaimOutcome::Failed => (
                AnswerPhase::Done,
                AnswerAction::Finish { error: Some(ExternalWriteError::Store) },
            ),
            _ => (
                AnswerPhase::Done,
                AnswerAction::Finish {
                    error: if denial {
                        None
                    } else {
                        Some(ExternalWriteError::Conflict)
                    },
                },
            ),
        },
        (AnswerPhase::Announcing, AnswerEvent::Recorded { recorded }) => if recorded {
            (AnswerPhase::Responding, AnswerAction::Respond)
        } else {
            (
                AnswerPhase::Done,
                AnswerAction::Finish { error: Some(ExternalWriteError::Store) },
            )
        },
        (AnswerPhase::Responding, AnswerEvent::Responded { responded }) => if !responded {
            (
                AnswerPhase::Fencing,
                AnswerAction::Record { resolution: ApprovalResolution::Uncertain },
            )
        } else if denial {
            (
                AnswerPhase::Recording,
                AnswerAction::Record { resolution: ApprovalResolution::Denied },
            )
        } else {
            (AnswerPhase::Done, AnswerAction::Finish { error: None })
        },
        (AnswerPhase::Recording, AnswerEvent::Recorded { recorded }) => (
            AnswerPhase::Done,
            AnswerAction::Finish {
                error: if recorded {
                    None
                } else {
                    Some(ExternalWriteError::Store)
                },
            },
        ),
        _ => (
            AnswerPhase::Done,
            AnswerAction::Finish { error: Some(ExternalWriteError::Uncertain) },
        ),
    }
}

/// An answer to one approval, under way.
pub struct ApprovalAnswer {
    approval_id: String,
    thread_id: String,
    denial: bool,
    decision: Option<ExternalApprovalDecision>,
    phase: AnswerPhase,
}

impl View for ApprovalAnswer {
    type V = AnswerView;

    closed spec fn view(&self) -> AnswerView {
        AnswerView {
            approval_id: self.approval_id@,
            thread_id: self.thread_id@,
            denial: self.denial,
            phase: self.phase,
        }
    }
}

impl ApprovalAnswer {
    /// The answer that is still to be given.
    pub closed spec fn decision(&self) -> Option<ExternalApprovalDecision> {
        self.decision
    }

    pub fn approval_id(&self) -> (text: &str)
        ensures
            text@ == self@.approval_id,
    {
        self.approval_id.as_str()
    }

    pub fn thread_id(&self) -> (text: &str)
        ensures
            text@ == self@.thread_id,
    {
        self.thread_id.as_str()
    }

    /// What the answer waits for.
    pub fn phase(&self) -> (phase: AnswerPhase)
        ensures
            phase == self@.phase,
    {
        self.phase
    }

    /// Hands out the answer that is to be given, once.
    pub fn take_decision(&mut self) -> (decision: Option<ExternalApprovalDecision>)
        ensures
            decision == old(self).decision(),
            final(self).decision() is None,
            final(self)@ == old(self)@,
    {
        let mut decision: Option<ExternalApprovalDecision> = None;
        std::mem::swap(&mut self.decision, &mut decision);
        decision
    }

    /// Takes what happened: what the answer does next.
    pub fn step(&mut self, event: AnswerEvent) -> (action: AnswerAction)
        requires
            answer_expected(old(self)@.phase, event),
        ensures
            final(self).decision() == old(self).decision(),
            final(self)@ == (AnswerView {
                phase: answer_stepped(old(self)@.denial, old(self)@.phase, event).0,
                ..old(self)@
            }),
            action == answer_stepped(old(self)@.denial, old(self)@.phase, event).1,
    {
        let (phase, action) = match (self.phase, event) {
            (AnswerPhase::Claiming, AnswerEvent::Claimed { outcome }) => match outcome {
                ClaimOutcome::Claimed => (
                    AnswerPhase::Announcing,
                    AnswerAction::Record { resolution: ApprovalResolution::Responding },
                ),
                ClaimOutcome::Unauthorized => (
                    AnswerPhase::Done,
                    AnswerAction::Finish { error: Some(ExternalWriteError::Unauthorized) },
                ),
                ClaimOutcome::Failed => (
                    AnswerPhase::Done,
                    AnswerAction::Finish { error: Some(ExternalWriteError::Store) },
                ),
                _ => (
                    AnswerPhase::Done,
                    AnswerAction::Finish {
                        error: if self.denial {
                            None
                        } else {
                            Some(ExternalWriteError::Conflict)
                        },
                    },
                ),
            },
            (AnswerPhase::Announcing, AnswerEvent::Recorded { recorded }) => if recorded {
                (AnswerPhase::Responding, AnswerAction::Respond)
            } else {
                (
                    AnswerPhase::Done,
                    AnswerAction::Finish { error: Some(ExternalWriteError::Store) },
                )
            },
            (AnswerPhase::Responding, AnswerEvent::Responded { responded }) => if !responded {
                (
                    AnswerPhase::Fencing,
                    AnswerAction::Record { resolution: ApprovalResolution::Uncertain },
                )
            } else if self.denial {
                (
                    AnswerPhase::Recording,
                    AnswerAction::Record { resolution: ApprovalResolution::Denied },
                )
            } else {
                (AnswerPhase::Done, AnswerAction::Finish { error: None })
            },
            (AnswerPhase::Recording, AnswerEvent::Recorded { recorded }) => (
                AnswerPhase::Done,
                AnswerAction::Finish {
                    error: if recorded {
                        None
                    } else {
                        Some(ExternalWriteError::Store)
                    },
                },
            ),
            _ => (
                AnswerPhase::Done,
                AnswerAction::Finish { error: Some(ExternalWriteError::Uncertain) },
            ),
        };
        self.phase = phase;
        action
    }
}

/// An answer is given only when the approval is claimed and the answer is
/// announced on record, and at most once.
pub proof fn answers_are_claimed_and_announced_first(
    denial: bool,
    phase: AnswerPhase,
    event: AnswerEvent,
)
    requires
        answer_expected(phase, event),
    ensures
        answer_stepped(denial, phase, event).1 is Respond <==> phase is Announcing && event == (
        AnswerEvent::Recorded { recorded: true }),
        answer_stepped(denial, phase, event).0 is Announcing <==> phase is Claiming && event == (
        AnswerEvent::Claimed { outcome: ClaimOutcome::Claimed }),
{
}

/// An answer that may not have arrived is fenced and reported uncertain.
pub proof fn lost_answers_are_fenced(denial: bool, recorded: bool)
    ensures
        ({
            let (phase, action) = answer_stepped(
                denial,
                AnswerPhase::Responding,
                AnswerEvent::Responded { responded: false },
            );
            &&& action == (AnswerAction::Record { resolution: ApprovalResolution::Uncertain })
            &&& answer_stepped(denial, phase, AnswerEvent::Recorded { recorded }).1 == (
            AnswerAction::Finish { error: Some(ExternalWriteError::Uncertain) })
        }),
{
}

/// Nobody but the recipient answers, and an approval that was answered or
/// refused takes no other answer.
pub proof fn approvals_are_answered_once(
    desk: DeskView,
    approval_id: Seq<char>,
    actor: Seq<char>,
    kind: ApprovalKind,
)
    requires
        unique_keys(desk.pending),
    ensures
        resolution_refusal(desk, actor, approval_id, kind) is None ==> actor
            == desk.settings.approval_recipient,
        resolution_refusal(answered(desk, approval_id), actor, approval_id, kind) is Some,
        resolution_refusal(
            DeskView { pending: unbind(desk.pending, approval_id), ..desk },
            actor,
            approval_id,
            kind,
        ) is Some,
{
    lemma_unbind_lookup(desk.pending, approval_id, approval_id);
    if let Some(pending) = lookup(desk.pending, approval_id) {
        lemma_bind_lookup(
            desk.pending,
            approval_id,
            PendingView { responded: true, ..pending },
            approval_id,
        );
    }
}

/// An approval waits as long as configured, never past the longest wait, and
/// with a margin before the server would decide; the shortest of these counts,
/// and at least a millisecond is waited.
pub proof fn the_shortest_wait_counts(timeout_ms: int, remote_ms: Option<u64>)
    requires
        timeout_ms >= 1,
    ensures
        ({
            let wait = approval_wait(timeout_ms, remote_ms);
            let left = match remote_ms {
                Some(millis) => millis - APPROVAL_REMOTE_MARGIN_MS,
                None => APPROVAL_DEADLINE_MAX_MS as int,
            };
            &&& 1 <= wait <= timeout_ms
            &&& wait <= APPROVAL_DEADLINE_MAX_MS
            &&& left >= 1 ==> wait <= left
            &&& left < 1 ==> wait == 1
            &&& wait == 1 || wait == timeout_ms || wait == APPROVAL_DEADLINE_MAX_MS || wait == left
        }),
{
}

/// A durable record waits from now on for as long as the approval does, and no
/// shorter than the shortest durable wait.
pub proof fn durable_records_wait_long_enough(wall_now_ms: int, wait_ms: int)
    requires
        wall_now_ms + wait_ms <= i64::MAX,
        wall_now_ms + APPROVAL_DURABLE_MIN_MS <= i64::MAX,
    ensures
        durable_deadline(wall_now_ms, wait_ms) >= wall_now_ms + wait_ms,
        durable_deadline(wall_now_ms, wait_ms) >= wall_now_ms + APPROVAL_DURABLE_MIN_MS,
        durable_deadline(wall_now_ms, wait_ms) == wall_now_ms + wait_ms || durable_deadline(
            wall_now_ms,
            wait_ms,
        ) == wall_now_ms + APPROVAL_DURABLE_MIN_MS,
{
}

/// What is recorded of an approval is what its request says, thread, turn, item
/// and kind, under the names of the settings; and what waits at the desk is the
/// same approval, under the same key, unanswered.
pub proof fn claims_say_what_was_asked(
    desk: DeskView,
    request: ExternalApprovalRequest,
    approval_id: Seq<char>,
    wall_now_ms: i64,
    now_ms: u64,
)
    ensures
        ({
            let claim = claim_of(desk, request, approval_id, wall_now_ms);
            let waiting = pending_of(desk, request, now_ms);
            let (params, token, kind) = match request {
                ExternalApprovalRequest::Command { params, request } => (
                    params,
                    request,
                    ApprovalKind::Command,
                ),
                ExternalApprovalRequest::FileChange { params, request } => (
                    params,
                    request,
                    ApprovalKind::FileChange,
                ),
                ExternalApprovalRequest::Permissions { params, request } => (
                    params,
                    request,
                    ApprovalKind::Permissions,
                ),
            };
            &&& claim.thread_id == params.thread_id@ && claim.turn_id == params.turn_id@
                && claim.item_id == params.item_id@
            &&& claim.kind == kind && claim.approval_id == approval_id && claim.epoch == desk.epoch
            &&& claim.client_actor == desk.settings.client_actor
            &&& claim.approval_actor == desk.settings.approval_actor
            &&& claim.recipient_actor == desk.settings.approval_recipient
            &&& claim.request_key == request_key_of(id_json(token@.id))
            &&& waiting.request_key == claim.request_key
            &&& waiting.thread_id == params.thread_id@ && waiting.kind == kind
                && !waiting.responded
            &&& waiting.deadline_ms >= now_ms
            &&& desk.settings.approval_timeout_ms >= 1 && now_ms
                + desk.settings.approval_timeout_ms <= u64::MAX ==> now_ms < waiting.deadline_ms
                <= now_ms + desk.settings.approval_timeout_ms
        }),
{
}

/// Two approvals of one request have one key, whatever else they hold.
pub proof fn one_request_has_one_key(
    desk: DeskView,
    other: DeskView,
    request: ExternalApprovalRequest,
    again: ExternalApprovalRequest,
    now_ms: u64,
    later_ms: u64,
)
    requires
        approval_token(request)@.id == approval_token(again)@.id,
    ensures
        pending_of(desk, request, now_ms).request_key == pending_of(
            other,
            again,
            later_ms,
        ).request_key,
{
}

/// An answer is taken exactly from the recipient, and only for an approval of
/// its own kind that waits unanswered.
pub proof fn only_waiting_approvals_are_answered(
    desk: DeskView,
    actor: Seq<char>,
    approval_id: Seq<char>,
    kind: ApprovalKind,
)
    ensures
        ({
            let refusal = resolution_refusal(desk, actor, approval_id, kind);
            let waiting = lookup(desk.pending, approval_id);
            &&& refusal == Some(ExternalWriteError::Unauthorized) <==> actor
                != desk.settings.approval_recipient
            &&& refusal is None <==> actor == desk.settings.approval_recipient && waiting is Some
                && !waiting->Some_0.responded && waiting->Some_0.kind == kind
            &&& refusal is Some ==> refusal == Some(ExternalWriteError::Unauthorized) || refusal
                == Some(ExternalWriteError::Conflict)
        }),
{
}

/// To answer an approval marks that one and no other.
pub proof fn answering_concerns_one(
    desk: DeskView,
    approval_id: Seq<char>,
    other: Seq<char>,
)
    requires
        unique_keys(desk.pending),
        has_key(desk.pending, approval_id),
    ensures
        ({
            let next = answered(desk, approval_id);
            &&& lookup(next.pending, approval_id) == Some(
                PendingView { responded: true, ..value_of(desk.pending, approval_id) },
            )
            &&& other != approval_id ==> lookup(next.pending, other) == lookup(desk.pending, other)
            &&& next.epoch == desk.epoch && next.settings == desk.settings
        }),
{
    lemma_bind_lookup(
        desk.pending,
        approval_id,
        PendingView { responded: true, ..value_of(desk.pending, approval_id) },
        other,
    );
}

/// What the server resolved itself is waited for no more: of the approvals
/// exactly those of that request go.
pub proof fn resolved_requests_are_waited_for_no_more(
    pending: Seq<(Seq<char>, PendingView)>,
    request_key: Seq<char>,
    entry: (Seq<char>, PendingView),
)
    ensures
        without_request(pending, request_key).contains(entry) <==> pending.contains(entry)
            && entry.1.request_key != request_key,
    decreases pending.len(),
{
    if pending.len() > 0 {
        let head = pending.drop_last();
        let last = pending.last();
        let before = without_request(head, request_key);
        let rest = without_request(pending, request_key);
        resolved_requests_are_waited_for_no_more(head, request_key, entry);
        lemma_last_or_before(pending, entry);
        if last.1.request_key != request_key {
            assert(rest.drop_last() =~= before);
            lemma_last_or_before(rest, entry);
        }
    }
}

proof fn lemma_last_or_before<A>(list: Seq<A>, entry: A)
    requires
        list.len() > 0,
    ensures
        list.contains(entry) <==> list.drop_last().contains(entry) || entry == list.last(),
{
    let head = list.drop_last();
    assert(list[list.len() - 1] == list.last());
    if head.contains(entry) {
        let k = choose|k: int| 0 <= k < head.len() && head[k] == entry;
        assert(list[k] == entry);
    }
    if list.contains(entry) && entry != list.last() {
        let k = choose|k: int| 0 <= k < list.len() && list[k] == entry;
        assert(head[k] == entry);
    }
}

/// The approvals that are refused for being late are exactly those that wait
/// unanswered when their own time is over.
pub proof fn late_approvals_are_found(
    pending: Seq<(Seq<char>, PendingView)>,
    now_ms: u64,
    approval_id: Seq<char>,
)
    ensures
        overdue(pending, now_ms).contains(approval_id) <==> exists|k: int|
            0 <= k < pending.len() && (#[trigger] pending[k]).0 == approval_id
                && !pending[k].1.responded && pending[k].1.deadline_ms <= now_ms,
    decreases pending.len(),
{
    if pending.len() > 0 {
        let head = pending.drop_last();
        let last = pending.last();
        let before = overdue(head, now_ms);
        let late = overdue(pending, now_ms);
        late_approvals_are_found(head, now_ms, approval_id);
        assert(pending[pending.len() - 1] == last);
        assert forall|k: int| 0 <= k < head.len() implies pending[k] == #[trigger] head[k] by {}
        if !last.1.responded && last.1.deadline_ms <= now_ms {
            assert(late.drop_last() =~= before);
            lemma_last_or_before(late, approval_id);
        }
        if exists|k: int|
            0 <= k < pending.len() && (#[trigger] pending[k]).0 == approval_id
                && !pending[k].1.responded && pending[k].1.deadline_ms <= now_ms {
            let k = choose|k: int|
                0 <= k < pending.len() && (#[trigger] pending[k]).0 == approval_id
                    && !pending[k].1.responded && pending[k].1.deadline_ms <= now_ms;
            if k < head.len() {
                assert(head[k] == pending[k]);
            }
        }
        if exists|k: int|
            0 <= k < head.len() && (#[trigger] head[k]).0 == approval_id && !head[k].1.responded
                && head[k].1.deadline_ms <= now_ms {
            let k = choose|k: int|
                0 <= k < head.len() && (#[trigger] head[k]).0 == approval_id
                    && !head[k].1.responded && head[k].1.deadline_ms <= now_ms;
            assert(pending[k] == head[k]);
        }
    }
}

/// An approval is put to the recipient exactly when the store took its record;
/// every other outcome has its own error.
pub proof fn unrecorded_approvals_are_not_asked(outcome: ReceiveOutcome)
    ensures
        receive_error(outcome) is None <==> outcome == ReceiveOutcome::Received,
        receive_error(outcome) == Some(ExternalWriteError::Unauthorized) <==> outcome
            == ReceiveOutcome::NotOwned,
        receive_error(outcome) == Some(ExternalWriteError::NotReady) <==> outcome
            == ReceiveOutcome::NotReady || outcome == ReceiveOutcome::StaleEpoch,
        receive_error(outcome) == Some(ExternalWriteError::Uncertain) <==> outcome
            == ReceiveOutcome::ThreadFenced,
        receive_error(outcome) == Some(ExternalWriteError::InvalidSettings) <==> outcome
            == ReceiveOutcome::ApprovalHandlerMismatch,
        receive_error(outcome) == Some(ExternalWriteError::Ambiguous) <==> outcome
            == ReceiveOutcome::Duplicate,
        receive_error(outcome) == Some(ExternalWriteError::Store) <==> outcome
            == ReceiveOutcome::Failed,
{
}

/// From the claim to the end: an answer that is claimed, announced and given
/// ends without an error, a refusal only once it is on record as one; a claim
/// that somebody else has, or that is out of date, ends a refusal without an
/// error and any other answer with a conflict.
pub proof fn answers_end_as_they_went(denial: bool, outcome: ClaimOutcome, kept: bool)
    ensures
        ({
            let claimed = answer_stepped(
                denial,
                AnswerPhase::Claiming,
                AnswerEvent::Claimed { outcome },
            );
            let finish = |error: Option<ExternalWriteError>| (
                AnswerPhase::Done,
                AnswerAction::Finish { error },
            );
            &&& outcome == ClaimOutcome::Claimed ==> claimed == (
                AnswerPhase::Announcing,
                AnswerAction::Record { resolution: ApprovalResolution::Responding },
            )
            &&& outcome == ClaimOutcome::Unauthorized ==> claimed == finish(
                Some(ExternalWriteError::Unauthorized),
            )
            &&& outcome == ClaimOutcome::Failed ==> claimed == finish(
                Some(ExternalWriteError::Store),
            )
            &&& outcome == ClaimOutcome::Duplicate || outcome == ClaimOutcome::Stale ==> claimed
                == finish(
                if denial {
                    None
                } else {
                    Some(ExternalWriteError::Conflict)
                },
            )
        }),
        ({
            let announced = |recorded: bool|
                answer_stepped(
                    denial,
                    AnswerPhase::Announcing,
                    AnswerEvent::Recorded { recorded },
                );
            let given = answer_stepped(
                denial,
                AnswerPhase::Responding,
                AnswerEvent::Responded { responded: true },
            );
            let last = answer_stepped(denial, given.0, AnswerEvent::Recorded { recorded: kept });
            &&& announced(true) == (AnswerPhase::Responding, AnswerAction::Respond)
            &&& announced(false).1 == (AnswerAction::Finish {
                error: Some(ExternalWriteError::Store),
            })
            &&& !denial ==> given == (AnswerPhase::Done, AnswerAction::Finish { error: None })
            &&& denial ==> given.1 == (AnswerAction::Record {
                resolution: ApprovalResolution::Denied,
            }) && last == (
                AnswerPhase::Done,
                AnswerAction::Finish {
                    error: if kept {
                        None
                    } else {
                        Some(ExternalWriteError::Store)
                    },
                },
            )
        }),
{
}

/// A refusal grants nothing: it declines, or hands out no permission, and is of
/// the kind that was asked.
pub proof fn refusals_grant_nothing(decision: ExternalApprovalDecision, kind: ApprovalKind)
    requires
        denies(decision, kind),
    ensures
        decision_kind(decision) == kind,
        decision matches ExternalApprovalDecision::Command(held) ==> held
            == CommandExecutionApprovalDecision::Simple(SimpleApprovalDecision::Decline) && kind
            == ApprovalKind::Command,
        decision matches ExternalApprovalDecision::FileChange(held) ==> held
            == SimpleApprovalDecision::Decline && kind == ApprovalKind::FileChange,
        decision matches ExternalApprovalDecision::Permissions(held) ==> json(held.permissions)
            == Json::Object(Map::empty()) && held.scope is None && kind
            == ApprovalKind::Permissions,
{
}

/// The recipient is asked for what the server asks for.
pub proof fn questions_keep_their_kind(kind: ApprovalKind)
    ensures
        prompt_kind(kind) == ExternalApprovalPromptKind::Command <==> kind == ApprovalKind::Command,
        prompt_kind(kind) == ExternalApprovalPromptKind::FileChange <==> kind
            == ApprovalKind::FileChange,
        prompt_kind(kind) == ExternalApprovalPromptKind::Permissions <==> kind
            == ApprovalKind::Permissions,
{
}

/// The desk once an approval waits there.
pub open spec fn desk_asked(
    desk: DeskView,
    approval_id: Seq<char>,
    pending: PendingView,
) -> DeskView {
    DeskView { pending: bind(desk.pending, approval_id, pending), ..desk }
}

/// An approval that was put to the recipient can be answered by the recipient,
/// in its own kind and by nobody else, until it is answered; no other approval
/// is touched.
pub proof fn asked_approvals_can_be_answered(
    desk: DeskView,
    request: ExternalApprovalRequest,
    approval_id: Seq<char>,
    now_ms: u64,
    actor: Seq<char>,
    kind: ApprovalKind,
    other: Seq<char>,
)
    requires
        unique_keys(desk.pending),
    ensures
        ({
            let asked = desk_asked(desk, approval_id, pending_of(desk, request, now_ms));
            &&& resolution_refusal(asked, actor, approval_id, kind) is None <==> actor
                == desk.settings.approval_recipient && kind == kind_of_approval(request)
            &&& other != approval_id ==> lookup(asked.pending, other) == lookup(desk.pending, other)
            &&& resolution_refusal(answered(asked, approval_id), actor, approval_id, kind) is Some
            &&& asked.settings == desk.settings && asked.epoch == desk.epoch
        }),
{
    let pending = pending_of(desk, request, now_ms);
    lemma_bind_lookup(desk.pending, approval_id, pending, other);
    lemma_bind_unique(desk.pending, approval_id, pending);
    approvals_are_answered_once(
        desk_asked(desk, approval_id, pending),
        approval_id,
        actor,
        kind,
    );
}

} // verus!
