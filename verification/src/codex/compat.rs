//! Which wire contracts are known, what a shared profile requires, and
//! which parameters a contract can carry.
use vstd::prelude::*;

use crate::codex::rpc::admits_notification;
use crate::codex::rpc::admits_request;
use crate::codex::rpc::RpcProtocolPolicy;
use crate::text::same_text;
use crate::version::is_release;
use crate::version::release;
use crate::version::Version;
use vstd::string::StringExecFns;
use crate::version::VersionView;

verus! {

/// A redacted conversion failure: only the name of the contract is kept.
#[derive(Clone, Copy, PartialEq, Eq)]
pub struct CompatError {
    contract: &'static str,
}

impl View for CompatError {
    type V = Seq<char>;

    closed spec fn view(&self) -> Seq<char> {
        self.contract@
    }
}

impl CompatError {
    pub fn new(contract: &'static str) -> (error: CompatError)
        ensures
            error@ == contract@,
    {
        CompatError { contract }
    }

    /// What the failure is reported as.
    pub fn to_text(&self) -> (text: String)
        ensures
            text@ == "Codex wire value does not satisfy stable "@ + self@,
    {
        let mut text = "Codex wire value does not satisfy stable ".to_owned();
        text.append(self.contract);
        text
    }
}

/// Exact capability groups of a shared endpoint.
#[derive(Clone, Copy, Debug, PartialEq, Eq, Structural)]
pub enum SharedWireProfile {
    ObserveShared,
    ResumeShared,
    MutateShared,
    QueueShared,
}

/// Contents of a list of names.
pub open spec fn name_views(names: Seq<&'static str>) -> Seq<Seq<char>> {
    names.map_values(|name: &'static str| name@)
}

/// Methods that an observing profile requires.
pub open spec fn observe_methods() -> Seq<Seq<char>> {
    seq!["initialize"@, "thread/list"@, "thread/read"@]
}

/// Methods that a resuming profile requires.
pub open spec fn resume_methods() -> Seq<Seq<char>> {
    observe_methods() + seq![
        "thread/resume"@,
        "thread/unsubscribe"@,
        "thread/turns/list"@,
        "thread/items/list"@,
    ]
}

/// Methods that a mutating profile requires.
pub open spec fn mutate_methods() -> Seq<Seq<char>> {
    resume_methods() + seq!["turn/start"@, "turn/steer"@, "turn/interrupt"@]
}

/// Methods that a queueing profile requires.
pub open spec fn queue_methods() -> Seq<Seq<char>> {
    mutate_methods() + seq!["thread/queue/add"@, "thread/queue/list"@, "thread/queue/start"@]
}

/// Methods that a profile requires.
pub open spec fn profile_methods(profile: SharedWireProfile) -> Seq<Seq<char>> {
    match profile {
        SharedWireProfile::ObserveShared => observe_methods(),
        SharedWireProfile::ResumeShared => resume_methods(),
        SharedWireProfile::MutateShared => mutate_methods(),
        SharedWireProfile::QueueShared => queue_methods(),
    }
}

/// Notifications that a profile requires.
pub open spec fn profile_notifications(profile: SharedWireProfile) -> Seq<Seq<char>> {
    match profile {
        SharedWireProfile::ObserveShared => Seq::empty(),
        SharedWireProfile::ResumeShared => seq![
            "thread/status/changed"@,
            "item/completed"@,
            "turn/completed"@,
        ],
        SharedWireProfile::MutateShared => seq![
            "thread/status/changed"@,
            "item/completed"@,
            "turn/completed"@,
            "serverRequest/resolved"@,
        ],
        SharedWireProfile::QueueShared => seq![
            "thread/status/changed"@,
            "thread/queue/changed"@,
            "item/completed"@,
            "turn/completed"@,
            "serverRequest/resolved"@,
        ],
    }
}

/// Requests of the server that a profile requires.
pub open spec fn profile_reverse_requests(profile: SharedWireProfile) -> Seq<Seq<char>> {
    match profile {
        SharedWireProfile::ObserveShared => Seq::empty(),
        SharedWireProfile::ResumeShared => Seq::empty(),
        _ => seq![
            "item/commandExecution/requestApproval"@,
            "item/fileChange/requestApproval"@,
            "item/permissions/requestApproval"@,
        ],
    }
}

fn push_observe_methods(methods: &mut Vec<&'static str>)
    ensures
        name_views(final(methods)@) == name_views(old(methods)@) + observe_methods(),
{
    methods.push("initialize");
    methods.push("thread/list");
    methods.push("thread/read");
    proof {
        assert(name_views(methods@) =~= name_views(old(methods)@) + observe_methods());
    }
}

fn push_resume_methods(methods: &mut Vec<&'static str>)
    ensures
        name_views(final(methods)@) == name_views(old(methods)@) + resume_methods(),
{
    push_observe_methods(methods);
    let ghost head = name_views(methods@);
    methods.push("thread/resume");
    methods.push("thread/unsubscribe");
    methods.push("thread/turns/list");
    methods.push("thread/items/list");
    proof {
        assert(name_views(methods@) =~= head + seq![
            "thread/resume"@,
            "thread/unsubscribe"@,
            "thread/turns/list"@,
            "thread/items/list"@,
        ]);
        assert(name_views(methods@) =~= name_views(old(methods)@) + resume_methods());
    }
}

fn push_mutate_methods(methods: &mut Vec<&'static str>)
    ensures
        name_views(final(methods)@) == name_views(old(methods)@) + mutate_methods(),
{
    push_resume_methods(methods);
    let ghost head = name_views(methods@);
    methods.push("turn/start");
    methods.push("turn/steer");
    methods.push("turn/interrupt");
    proof {
        assert(name_views(methods@) =~= head + seq![
            "turn/start"@,
            "turn/steer"@,
            "turn/interrupt"@,
        ]);
        assert(name_views(methods@) =~= name_views(old(methods)@) + mutate_methods());
    }
}

impl SharedWireProfile {
    pub fn required_methods(self) -> (methods: Vec<&'static str>)
        ensures
            name_views(methods@) == profile_methods(self),
    {
        let mut methods: Vec<&'static str> = Vec::new();
        proof {
            assert(name_views(methods@) =~= Seq::empty());
        }
        match self {
            SharedWireProfile::ObserveShared => push_observe_methods(&mut methods),
            SharedWireProfile::ResumeShared => push_resume_methods(&mut methods),
            SharedWireProfile::MutateShared => push_mutate_methods(&mut methods),
            SharedWireProfile::QueueShared => {
                push_mutate_methods(&mut methods);
                let ghost head = name_views(methods@);
                methods.push("thread/queue/add");
                methods.push("thread/queue/list");
                methods.push("thread/queue/start");
                proof {
                    assert(name_views(methods@) =~= head + seq![
                        "thread/queue/add"@,
                        "thread/queue/list"@,
                        "thread/queue/start"@,
                    ]);
                }
            },
        }
        proof {
            assert(Seq::<Seq<char>>::empty() + profile_methods(self) =~= profile_methods(self));
            assert(name_views(methods@) =~= profile_methods(self));
        }
        methods
    }

    pub fn required_notifications(self) -> (methods: Vec<&'static str>)
        ensures
            name_views(methods@) == profile_notifications(self),
    {
        let mut methods: Vec<&'static str> = Vec::new();
        if !matches!(self, SharedWireProfile::ObserveShared) {
            methods.push("thread/status/changed");
            if matches!(self, SharedWireProfile::QueueShared) {
                methods.push("thread/queue/changed");
            }
            methods.push("item/completed");
            methods.push("turn/completed");
            if !matches!(self, SharedWireProfile::ResumeShared) {
                methods.push("serverRequest/resolved");
            }
        }
        proof {
            assert(name_views(methods@) =~= profile_notifications(self));
        }
        methods
    }

    pub fn required_reverse_requests(self) -> (methods: Vec<&'static str>)
        ensures
            name_views(methods@) == profile_reverse_requests(self),
    {
        let mut methods: Vec<&'static str> = Vec::new();
        if matches!(self, SharedWireProfile::MutateShared | SharedWireProfile::QueueShared) {
            methods.push("item/commandExecution/requestApproval");
            methods.push("item/fileChange/requestApproval");
            methods.push("item/permissions/requestApproval");
        }
        proof {
            assert(name_views(methods@) =~= profile_reverse_requests(self));
        }
        methods
    }
}

/// How much a profile may do.
pub open spec fn profile_rank(profile: SharedWireProfile) -> int {
    match profile {
        SharedWireProfile::ObserveShared => 0,
        SharedWireProfile::ResumeShared => 1,
        SharedWireProfile::MutateShared => 2,
        SharedWireProfile::QueueShared => 3,
    }
}

/// The inbound policy of a connection with a profile.
pub open spec fn profile_policy(profile: SharedWireProfile) -> RpcProtocolPolicy {
    match profile {
        SharedWireProfile::ObserveShared => RpcProtocolPolicy::FailClosedExternalObserve,
        SharedWireProfile::ResumeShared => RpcProtocolPolicy::FailClosedExternalResume,
        SharedWireProfile::MutateShared => RpcProtocolPolicy::FailClosedExternalMutate,
        SharedWireProfile::QueueShared => RpcProtocolPolicy::FailClosedExternalQueue,
    }
}

/// A profile that may do more requires whatever one that may do less does.
pub proof fn profiles_grow(less: SharedWireProfile, more: SharedWireProfile, method: Seq<char>)
    requires
        profile_rank(less) <= profile_rank(more),
    ensures
        profile_methods(less).contains(method) ==> profile_methods(more).contains(method),
        profile_notifications(less).contains(method) ==> profile_notifications(more).contains(
            method,
        ),
        profile_reverse_requests(less).contains(method) ==> profile_reverse_requests(more).contains(
            method,
        ),
{
    if profile_methods(less).contains(method) {
        let at = choose|at: int|
            0 <= at < profile_methods(less).len() && profile_methods(less)[at] == method;
        assert(profile_methods(more)[at] == method);
    }
    if profile_notifications(less).contains(method) {
        let at = choose|at: int|
            0 <= at < profile_notifications(less).len() && profile_notifications(less)[at]
                == method;
        let held = profile_notifications(more);
        assert(held[at] == method || held[at + 1] == method);
    }
    if profile_reverse_requests(less).contains(method) {
        assert(profile_reverse_requests(less) =~= profile_reverse_requests(more));
    }
}

/// Whatever traffic a profile requires, its connections admit.
pub proof fn required_traffic_is_admitted(profile: SharedWireProfile, method: Seq<char>)
    ensures
        profile_notifications(profile).contains(method) ==> admits_notification(
            profile_policy(profile),
            method,
        ),
        profile_reverse_requests(profile).contains(method) ==> admits_request(
            profile_policy(profile),
            method,
        ),
{
}

/// The exact wire contract selected for one probed app-server.
#[derive(Clone, Copy, Debug, PartialEq, Eq, Structural)]
pub enum WireAdapter {
    V0_146_0,
    V0_149_0,
}

/// The version that a contract is of.
pub open spec fn adapter_version(adapter: WireAdapter) -> Seq<char> {
    match adapter {
        WireAdapter::V0_146_0 => "0.146.0"@,
        WireAdapter::V0_149_0 => "0.149.0"@,
    }
}

/// The contract of a version, where it is known.
pub open spec fn adapter_for(version: VersionView) -> Option<WireAdapter> {
    if !is_release(version) || version.major != 0 || version.patch != 0 {
        None
    } else if version.minor == 146 {
        Some(WireAdapter::V0_146_0)
    } else if version.minor == 149 {
        Some(WireAdapter::V0_149_0)
    } else {
        None
    }
}

impl WireAdapter {
    pub fn for_version(version: &Version) -> (adapter: Option<WireAdapter>)
        ensures
            adapter == adapter_for(version@),
    {
        if !version.is_release() || version.major != 0 || version.patch != 0 {
            return None;
        }
        if version.minor == 146 {
            Some(WireAdapter::V0_146_0)
        } else if version.minor == 149 {
            Some(WireAdapter::V0_149_0)
        } else {
            None
        }
    }

    pub fn codex_version(self) -> (version: &'static str)
        ensures
            version@ == adapter_version(self),
    {
        match self {
            WireAdapter::V0_146_0 => "0.146.0",
            WireAdapter::V0_149_0 => "0.149.0",
        }
    }

    /// Whether the contract holds every shape of a shared profile. A
    /// contract is never taken to hold a profile in part.
    pub fn supports_shared_profile(self, _profile: SharedWireProfile) -> (supported: bool)
        ensures
            supported == (self == WireAdapter::V0_149_0),
    {
        matches!(self, WireAdapter::V0_149_0)
    }

    /// Whether the contract has the exact semantics of adopting a persisted
    /// thread.
    pub fn supports_adoption(self) -> (supported: bool)
        ensures
            supported == (self == WireAdapter::V0_149_0),
    {
        matches!(self, WireAdapter::V0_149_0)
    }
}

/// Order of a list.
#[derive(Clone, Debug, PartialEq, Eq)]
pub enum SortDirection {
    Ascending,
    Descending,
    Unknown(String),
}

/// What a thread list is sorted by: a section position, another known key,
/// or a key that is not known.
#[derive(Clone, Debug, PartialEq, Eq)]
pub enum ThreadSortKey {
    SectionPosition,
    Known(String),
    Unknown(String),
}

/// Where a thread came from: a known source or one that is not.
#[derive(Clone, Debug, PartialEq, Eq)]
pub enum ThreadSourceKind {
    Known(String),
    Unknown(String),
}

/// Parameters of a thread list.
pub struct ThreadListParams {
    pub cursor: Option<String>,
    pub limit: Option<u32>,
    pub sort_key: Option<ThreadSortKey>,
    pub sort_direction: Option<SortDirection>,
    pub source_kinds: Option<Vec<ThreadSourceKind>>,
    pub project_id: Option<String>,
    pub section_id: Option<String>,
    pub is_pinned: Option<bool>,
}

/// When approval is asked for: a named policy, or a structured one.
pub enum ApprovalPolicy {
    Named(String),
    Structured(serde_json::Value),
}

/// Parameters of a new thread.
pub struct ThreadStartParams {
    pub approval_policy: Option<ApprovalPolicy>,
    pub approvals_reviewer: Option<String>,
    pub project_id: Option<String>,
    pub session_start_source: Option<String>,
}

/// Parameters of a new turn.
pub struct TurnStartParams {
    pub thread_id: String,
    pub approval_policy: Option<ApprovalPolicy>,
    pub approvals_reviewer: Option<String>,
    pub effort: Option<String>,
    pub summary: Option<String>,
}

/// Parameters that a thread is resumed with.
pub struct ThreadResumeParams {
    pub thread_id: String,
    pub approval_policy: Option<ApprovalPolicy>,
    pub approvals_reviewer: Option<String>,
    pub exclude_turns: Option<bool>,
}

/// Parameters of a read of one thread.
pub struct ThreadReadParams {
    pub thread_id: String,
    pub include_turns: Option<bool>,
}

/// Parameters of a list of the turns of a thread.
pub struct ThreadTurnsListParams {
    pub thread_id: String,
    pub cursor: Option<String>,
    pub limit: Option<u32>,
    pub sort_direction: Option<SortDirection>,
}

/// Parameters of a list of the items of a thread.
pub struct ThreadItemsListParams {
    pub thread_id: String,
    pub turn_id: Option<String>,
    pub cursor: Option<String>,
    pub limit: Option<u32>,
    pub sort_direction: Option<SortDirection>,
}

/// Parameters of a list of the queue of a thread.
pub struct ThreadQueueListParams {
    pub thread_id: String,
    pub cursor: Option<String>,
    pub limit: Option<u32>,
}

/// Whether every source is known.
pub open spec fn sources_known(kinds: Option<Vec<ThreadSourceKind>>) -> bool {
    kinds matches Some(kinds) ==> forall|k: int|
        0 <= k < kinds@.len() ==> !((#[trigger] kinds@[k]) is Unknown)
}

/// Whether a contract can carry the parameters of a thread list.
pub open spec fn thread_list_carried(adapter: WireAdapter, params: ThreadListParams) -> bool {
    &&& !(params.sort_key matches Some(ThreadSortKey::Unknown(_)))
    &&& !(params.sort_direction matches Some(SortDirection::Unknown(_)))
    &&& sources_known(params.source_kinds)
    &&& adapter == WireAdapter::V0_146_0 ==> !(params.sort_key matches Some(
        ThreadSortKey::SectionPosition,
    )) && params.project_id is None && params.section_id is None
    &&& adapter == WireAdapter::V0_149_0 ==> params.is_pinned is None
}

/// Whether approval settings are known.
pub open spec fn approval_known(
    policy: Option<ApprovalPolicy>,
    reviewer: Option<String>,
) -> bool {
    &&& policy matches Some(ApprovalPolicy::Named(name)) ==> name@ == "never"@ || name@
        == "on-request"@ || name@ == "untrusted"@
    &&& reviewer matches Some(name) ==> name@ == "auto_review"@ || name@ == "guardian_subagent"@
        || name@ == "user"@
}

/// Whether a contract can carry the parameters of a new thread.
pub open spec fn thread_start_carried(adapter: WireAdapter, params: ThreadStartParams) -> bool {
    &&& approval_known(params.approval_policy, params.approvals_reviewer)
    &&& params.session_start_source matches Some(source) ==> source@ == "clear"@ || source@
        == "startup"@
    &&& adapter == WireAdapter::V0_146_0 ==> params.project_id is None
}

/// Whether the parameters of a new turn can be carried.
pub open spec fn turn_start_carried(params: TurnStartParams) -> bool {
    &&& approval_known(params.approval_policy, params.approvals_reviewer)
    &&& params.effort matches Some(effort) ==> effort@.len() > 0
    &&& params.summary matches Some(summary) ==> summary@ == "auto"@ || summary@ == "concise"@
        || summary@ == "detailed"@ || summary@ == "none"@
}

/// Whether the parameters that a thread is resumed with can be carried.
pub open spec fn thread_resume_carried(params: ThreadResumeParams) -> bool {
    approval_known(params.approval_policy, params.approvals_reviewer)
}

/// Whether a contract can carry a shared list in an order: only the newer one
/// has such lists.
pub open spec fn shared_list_carried(
    adapter: WireAdapter,
    direction: Option<SortDirection>,
) -> bool {
    adapter == WireAdapter::V0_149_0 && !(direction matches Some(SortDirection::Unknown(_)))
}

fn any_unknown(kinds: &Vec<ThreadSourceKind>) -> (found: bool)
    ensures
        found == !(forall|k: int| 0 <= k < kinds@.len() ==> !((#[trigger] kinds@[k]) is Unknown)),
{
    let mut at: usize = 0;
    while at < kinds.len()
        invariant
            at <= kinds@.len(),
            forall|k: int| 0 <= k < at ==> !((#[trigger] kinds@[k]) is Unknown),
        decreases kinds@.len() - at,
    {
        if matches!(kinds[at], ThreadSourceKind::Unknown(_)) {
            proof {
                assert(kinds@[at as int] is Unknown);
            }
            return true;
        }
        at += 1;
    }
    false
}

fn any_unknown_source(kinds: &Option<Vec<ThreadSourceKind>>) -> (found: bool)
    ensures
        found == !sources_known(*kinds),
{
    match kinds {
        Some(kinds) => any_unknown(kinds),
        None => false,
    }
}

/// Checks that the older contract can carry the parameters of a thread list.
pub fn validate_v0_146_thread_list_params(value: &ThreadListParams) -> (valid: Result<
    (),
    CompatError,
>)
    ensures
        valid is Ok == thread_list_carried(WireAdapter::V0_146_0, *value),
        valid matches Err(error) ==> error@ == "thread/list params"@,
{
    let bad_key = match &value.sort_key {
        Some(ThreadSortKey::SectionPosition) => true,
        Some(ThreadSortKey::Unknown(_)) => true,
        _ => false,
    };
    let bad_direction = match &value.sort_direction {
        Some(SortDirection::Unknown(_)) => true,
        _ => false,
    };
    if bad_key || value.project_id.is_some() || value.section_id.is_some() || bad_direction
        || any_unknown_source(&value.source_kinds) {
        return Err(CompatError::new("thread/list params"));
    }
    Ok(())
}

/// Checks that the newer contract can carry the parameters of a thread list.
pub fn validate_v0_149_thread_list_params(value: &ThreadListParams) -> (valid: Result<
    (),
    CompatError,
>)
    ensures
        valid is Ok == thread_list_carried(WireAdapter::V0_149_0, *value),
        valid matches Err(error) ==> error@ == "thread/list params"@,
{
    let bad_key = match &value.sort_key {
        Some(ThreadSortKey::Unknown(_)) => true,
        _ => false,
    };
    let bad_direction = match &value.sort_direction {
        Some(SortDirection::Unknown(_)) => true,
        _ => false,
    };
    if value.is_pinned.is_some() || bad_key || bad_direction || any_unknown_source(
        &value.source_kinds,
    ) {
        return Err(CompatError::new("thread/list params"));
    }
    Ok(())
}

/// Checks that approval settings are known. Both contracts know the same
/// settings.
pub fn validate_approval(
    policy: &Option<ApprovalPolicy>,
    reviewer: &Option<String>,
    contract: &'static str,
) -> (valid: Result<(), CompatError>)
    ensures
        valid is Ok == approval_known(*policy, *reviewer),
        valid matches Err(error) ==> error@ == contract@,
{
    let bad_policy = match policy {
        Some(ApprovalPolicy::Named(name)) => !(same_text(name.as_str(), "never") || same_text(
            name.as_str(),
            "on-request",
        ) || same_text(name.as_str(), "untrusted")),
        _ => false,
    };
    let bad_reviewer = match reviewer {
        Some(name) => !(same_text(name.as_str(), "auto_review") || same_text(
            name.as_str(),
            "guardian_subagent",
        ) || same_text(name.as_str(), "user")),
        None => false,
    };
    if bad_policy || bad_reviewer {
        return Err(CompatError::new(contract));
    }
    Ok(())
}

/// Checks that a contract can carry the parameters of a new thread.
pub fn validate_thread_start_params(adapter: WireAdapter, value: &ThreadStartParams) -> (valid:
    Result<(), CompatError>)
    ensures
        valid is Ok == thread_start_carried(adapter, *value),
        valid matches Err(error) ==> error@ == "thread/start params"@,
{
    if let Err(error) = validate_approval(
        &value.approval_policy,
        &value.approvals_reviewer,
        "thread/start params",
    ) {
        return Err(error);
    }
    if matches!(adapter, WireAdapter::V0_146_0) && value.project_id.is_some() {
        return Err(CompatError::new("thread/start params"));
    }
    if let Some(source) = &value.session_start_source {
        if !(same_text(source.as_str(), "clear") || same_text(source.as_str(), "startup")) {
            return Err(CompatError::new("thread/start params"));
        }
    }
    Ok(())
}

/// Checks that the parameters of a new turn can be carried. Both contracts
/// carry the same.
pub fn validate_turn_start_params(value: &TurnStartParams) -> (valid: Result<(), CompatError>)
    ensures
        valid is Ok == turn_start_carried(*value),
        valid matches Err(error) ==> error@ == "turn/start params"@,
{
    if let Err(error) = validate_approval(
        &value.approval_policy,
        &value.approvals_reviewer,
        "turn/start params",
    ) {
        return Err(error);
    }
    if let Some(effort) = &value.effort {
        if effort.as_str().is_empty() {
            return Err(CompatError::new("turn/start params"));
        }
    }
    if let Some(summary) = &value.summary {
        if !(same_text(summary.as_str(), "auto") || same_text(summary.as_str(), "concise")
            || same_text(summary.as_str(), "detailed") || same_text(summary.as_str(), "none")) {
            return Err(CompatError::new("turn/start params"));
        }
    }
    Ok(())
}

/// Checks that a thread can be resumed with its parameters.
pub fn validate_thread_resume_params(value: &ThreadResumeParams) -> (valid: Result<(), CompatError>)
    ensures
        valid is Ok == thread_resume_carried(*value),
        valid matches Err(error) ==> error@ == "thread/resume params"@,
{
    validate_approval(&value.approval_policy, &value.approvals_reviewer, "thread/resume params")
}

/// Checks the order of a shared list; only the newer contract has such lists.
pub fn validate_shared_sort_direction(
    adapter: WireAdapter,
    value: &Option<SortDirection>,
    contract: &'static str,
) -> (valid: Result<(), CompatError>)
    ensures
        valid is Ok == shared_list_carried(adapter, *value),
        valid matches Err(error) ==> error@ == contract@,
{
    if !matches!(adapter, WireAdapter::V0_149_0) {
        return Err(CompatError::new(contract));
    }
    match value {
        Some(SortDirection::Unknown(_)) => Err(CompatError::new(contract)),
        _ => Ok(()),
    }
}

/// Checks that a contract can carry the parameters of a thread list.
pub fn validate_thread_list_params(adapter: WireAdapter, value: &ThreadListParams) -> (valid:
    Result<(), CompatError>)
    ensures
        valid is Ok == thread_list_carried(adapter, *value),
        valid matches Err(error) ==> error@ == "thread/list params"@,
{
    match adapter {
        WireAdapter::V0_146_0 => validate_v0_146_thread_list_params(value),
        WireAdapter::V0_149_0 => validate_v0_149_thread_list_params(value),
    }
}

/// Checks that a contract can carry the parameters of a list of turns.
pub fn validate_thread_turns_list_params(
    adapter: WireAdapter,
    value: &ThreadTurnsListParams,
) -> (valid: Result<(), CompatError>)
    ensures
        valid is Ok == shared_list_carried(adapter, value.sort_direction),
        valid matches Err(error) ==> error@ == "thread/turns/list params"@,
{
    validate_shared_sort_direction(adapter, &value.sort_direction, "thread/turns/list params")
}

/// Checks that a contract can carry the parameters of a list of items.
pub fn validate_thread_items_list_params(
    adapter: WireAdapter,
    value: &ThreadItemsListParams,
) -> (valid: Result<(), CompatError>)
    ensures
        valid is Ok == shared_list_carried(adapter, value.sort_direction),
        valid matches Err(error) ==> error@ == "thread/items/list params"@,
{
    validate_shared_sort_direction(adapter, &value.sort_direction, "thread/items/list params")
}

/// A release has an adapter exactly where it is one of the two known ones, and
/// the adapter speaks for that very release.
pub proof fn adapters_speak_for_their_release(version: VersionView)
    ensures
        adapter_for(version) == Some(WireAdapter::V0_146_0) <==> version == release(0, 146, 0),
        adapter_for(version) == Some(WireAdapter::V0_149_0) <==> version == release(0, 149, 0),
        adapter_for(version) is Some ==> is_release(version),
        adapter_version(WireAdapter::V0_146_0) == "0.146.0"@,
        adapter_version(WireAdapter::V0_149_0) == "0.149.0"@,
{
    if is_release(version) {
        assert(version.pre =~= Seq::<char>::empty());
        assert(version.build =~= Seq::<char>::empty());
    }
}

/// What a newer contract alone carries is refused on the older one, what the
/// older one alone carries on the newer one, and what neither knows on both.
pub proof fn contracts_carry_their_own(params: ThreadListParams, start: ThreadStartParams)
    ensures
        params.project_id is Some || params.section_id is Some || params.sort_key == Some(
            ThreadSortKey::SectionPosition,
        ) ==> !thread_list_carried(WireAdapter::V0_146_0, params),
        params.is_pinned is Some ==> !thread_list_carried(WireAdapter::V0_149_0, params),
        params.sort_direction matches Some(SortDirection::Unknown(_)) ==> !thread_list_carried(
            WireAdapter::V0_146_0,
            params,
        ) && !thread_list_carried(WireAdapter::V0_149_0, params),
        params.sort_key matches Some(ThreadSortKey::Unknown(_)) ==> !thread_list_carried(
            WireAdapter::V0_146_0,
            params,
        ) && !thread_list_carried(WireAdapter::V0_149_0, params),
        start.project_id is Some ==> !thread_start_carried(WireAdapter::V0_146_0, start),
        thread_start_carried(WireAdapter::V0_146_0, start) ==> thread_start_carried(
            WireAdapter::V0_149_0,
            start,
        ),
        start.project_id is None ==> thread_start_carried(WireAdapter::V0_146_0, start)
            == thread_start_carried(WireAdapter::V0_149_0, start),
{
}

/// Plain parameters are carried by both contracts.
pub proof fn plain_parameters_are_carried(
    adapter: WireAdapter,
    params: ThreadListParams,
    start: ThreadStartParams,
    turn: TurnStartParams,
    resume: ThreadResumeParams,
)
    ensures
        params.sort_key is None && params.sort_direction is None && params.source_kinds is None
            && params.project_id is None && params.section_id is None && params.is_pinned is None
            ==> thread_list_carried(adapter, params),
        start.approval_policy is None && start.approvals_reviewer is None && start.project_id
            is None && start.session_start_source is None ==> thread_start_carried(adapter, start),
        turn.approval_policy is None && turn.approvals_reviewer is None && turn.effort is None
            && turn.summary is None ==> turn_start_carried(turn),
        resume.approval_policy is None && resume.approvals_reviewer is None
            ==> thread_resume_carried(resume),
        shared_list_carried(WireAdapter::V0_149_0, None),
        shared_list_carried(WireAdapter::V0_149_0, Some(SortDirection::Ascending)),
        shared_list_carried(WireAdapter::V0_149_0, Some(SortDirection::Descending)),
        !shared_list_carried(WireAdapter::V0_146_0, None),
        turn.effort matches Some(effort) ==> (effort@.len() == 0 ==> !turn_start_carried(turn)),
{
}

/// Each profile fails closed under its own policy, and offers what it is named
/// for: reading, resuming, writing, queueing.
pub proof fn profiles_offer_what_they_are_for(profile: SharedWireProfile)
    ensures
        profile_policy(profile) == RpcProtocolPolicy::FailClosedExternalObserve <==> profile
            == SharedWireProfile::ObserveShared,
        profile_policy(profile) == RpcProtocolPolicy::FailClosedExternalResume <==> profile
            == SharedWireProfile::ResumeShared,
        profile_policy(profile) == RpcProtocolPolicy::FailClosedExternalMutate <==> profile
            == SharedWireProfile::MutateShared,
        profile_policy(profile) == RpcProtocolPolicy::FailClosedExternalQueue <==> profile
            == SharedWireProfile::QueueShared,
        profile_methods(profile)[0] == "initialize"@,
        profile_methods(profile)[2] == "thread/read"@,
        profile_rank(profile) >= 1 ==> profile_methods(profile)[3] == "thread/resume"@,
        profile_rank(profile) >= 2 ==> profile_methods(profile)[7] == "turn/start"@
            && profile_methods(profile)[9] == "turn/interrupt"@,
        profile_rank(profile) >= 3 ==> profile_methods(profile)[10] == "thread/queue/add"@
            && profile_methods(profile)[12] == "thread/queue/start"@,
        profile_methods(profile).len() == (if profile_rank(profile) == 0 {
            3int
        } else if profile_rank(profile) == 1 {
            7
        } else if profile_rank(profile) == 2 {
            10
        } else {
            13
        }),
{
}

} // verus!
