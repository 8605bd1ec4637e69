//! Command line of the bridge: what each command is, what it is allowed to
//! show, and how it decides from what it finds.
use vstd::prelude::*;

use crate::app::SupervisorState;
use crate::channel::native::LarkError;
use crate::codex::types::text_bytes;
use crate::text::append_decimal;
use crate::text::append_signed;
use crate::text::byte_len;
use crate::text::decimal;
use crate::text::signed_decimal;
use vstd::string::StringExecFns;

verus! {

/// The parsed command line.
pub struct Cli {
    pub command: Command,
}

/// A command of the bridge.
pub enum Command {
    /// Inspect the local Codex installation.
    Codex { command: CodexCommand },
    /// Onboard and inspect Feishu/Lark app credentials.
    Lark { command: LarkCommand },
}

/// A command on the Codex installation.
pub enum CodexCommand {
    /// Run the initialize handshake and print a sanitized summary.
    Probe { binary: String },
}

impl CodexCommand {
    /// How the command is shown: without the path.
    pub fn debug_text(&self) -> (text: String)
        ensures
            text@ == (match *self {
                CodexCommand::Probe { binary } => "Probe { binary_bytes: "@ + decimal(
                    byte_len(binary@),
                ) + " }"@,
            }),
    {
        match self {
            CodexCommand::Probe { binary } => {
                let mut text = "Probe { binary_bytes: ".to_owned();
                append_decimal(&mut text, text_bytes(binary.as_str()) as u64);
                text.append(" }");
                text
            },
        }
    }
}

/// A command on Feishu/Lark.
pub enum LarkCommand {
    /// Manage app credentials.
    Auth { command: LarkAuthCommand },
    /// Verify the connection and print a sanitized summary.
    Probe,
}

/// A command on app credentials.
pub enum LarkAuthCommand {
    /// Register a new app, or validate and store an existing one.
    Register { app_id: Option<String>, app_secret: Option<String>, tenant: Option<TenantArg> },
    /// Validate stored credentials and print a sanitized identity summary.
    Check,
}

/// How a truth value is shown.
pub open spec fn shown_flag(flag: bool) -> Seq<char> {
    if flag {
        "true"@
    } else {
        "false"@
    }
}

/// How an optional tenant is shown.
pub open spec fn shown_tenant(tenant: Option<TenantArg>) -> Seq<char> {
    match tenant {
        Some(TenantArg::Feishu) => "Some(Feishu)"@,
        Some(TenantArg::Lark) => "Some(Lark)"@,
        None => "None"@,
    }
}

/// How a credentials command is shown: without identifier and secret.
pub open spec fn auth_command_text(command: LarkAuthCommand) -> Seq<char> {
    match command {
        LarkAuthCommand::Register { app_id, app_secret, tenant } =>
            "Register { app_id_configured: "@ + shown_flag(app_id is Some)
                + ", app_secret_configured: "@ + shown_flag(app_secret is Some) + ", tenant: "@
                + shown_tenant(tenant) + " }"@,
        LarkAuthCommand::Check => "Check"@,
    }
}

impl LarkAuthCommand {
    /// How the command is shown.
    pub fn debug_text(&self) -> (text: String)
        ensures
            text@ == auth_command_text(*self),
    {
        match self {
            LarkAuthCommand::Register { app_id, app_secret, tenant } => {
                let mut text = "Register { app_id_configured: ".to_owned();
                text.append(
                    if app_id.is_some() {
                        "true"
                    } else {
                        "false"
                    },
                );
                text.append(", app_secret_configured: ");
                text.append(
                    if app_secret.is_some() {
                        "true"
                    } else {
                        "false"
                    },
                );
                text.append(", tenant: ");
                text.append(
                    match tenant {
                        Some(TenantArg::Feishu) => "Some(Feishu)",
                        Some(TenantArg::Lark) => "Some(Lark)",
                        None => "None",
                    },
                );
                text.append(" }");
                text
            },
            LarkAuthCommand::Check => "Check".to_owned(),
        }
    }
}

/// What is shown of a registration depends on neither identifier nor secret.
pub proof fn shown_registrations_hide_credentials(
    app_id: String,
    other_id: String,
    app_secret: String,
    other_secret: String,
    tenant: Option<TenantArg>,
)
    ensures
        auth_command_text(
            LarkAuthCommand::Register {
                app_id: Some(app_id),
                app_secret: Some(app_secret),
                tenant,
            },
        ) == auth_command_text(
            LarkAuthCommand::Register {
                app_id: Some(other_id),
                app_secret: Some(other_secret),
                tenant,
            },
        ),
{
}

/// Spelling of the tenant brand on the command line.
#[derive(Clone, Copy, Debug, PartialEq, Eq, Structural)]
pub enum TenantArg {
    /// Feishu (`feishu.cn`).
    Feishu,
    /// Lark international (`larksuite.com`).
    Lark,
}

/// Tenant brand.
#[derive(Clone, Copy, Debug, PartialEq, Eq, Structural)]
pub enum TenantBrand {
    Feishu,
    Lark,
}

impl From<TenantArg> for TenantBrand {
    fn from(arg: TenantArg) -> (brand: TenantBrand) {
        match arg {
            TenantArg::Feishu => TenantBrand::Feishu,
            TenantArg::Lark => TenantBrand::Lark,
        }
    }
}

impl vstd::std_specs::convert::FromSpecImpl<TenantArg> for TenantBrand {
    open spec fn obeys_from_spec() -> bool {
        true
    }

    open spec fn from_spec(arg: TenantArg) -> TenantBrand {
        match arg {
            TenantArg::Feishu => TenantBrand::Feishu,
            TenantArg::Lark => TenantBrand::Lark,
        }
    }
}

/// The work that a command line asks for.
pub enum CommandPlan {
    ProbeCodex { binary: String },
    Register { app_id: Option<String>, app_secret: Option<String>, tenant: Option<TenantArg> },
    CheckCredentials,
    ProbeLark,
}

/// The work that a command line asks for.
pub fn run_with(cli: Cli) -> (plan: CommandPlan)
    ensures
        plan == match cli.command {
            Command::Codex { command: CodexCommand::Probe { binary } } =>
                CommandPlan::ProbeCodex { binary },
            Command::Lark { command } => match command {
                LarkCommand::Auth { command } => match command {
                    LarkAuthCommand::Register { app_id, app_secret, tenant } =>
                        CommandPlan::Register { app_id, app_secret, tenant },
                    LarkAuthCommand::Check => CommandPlan::CheckCredentials,
                },
                LarkCommand::Probe => CommandPlan::ProbeLark,
            },
        },
{
    match cli.command {
        Command::Codex { command: CodexCommand::Probe { binary } } => CommandPlan::ProbeCodex {
            binary,
        },
        Command::Lark { command } => match command {
            LarkCommand::Auth { command } => match command {
                LarkAuthCommand::Register { app_id, app_secret, tenant } => CommandPlan::Register {
                    app_id,
                    app_secret,
                    tenant,
                },
                LarkAuthCommand::Check => CommandPlan::CheckCredentials,
            },
            LarkCommand::Probe => CommandPlan::ProbeLark,
        },
    }
}

/// Where the credentials of a registration come from.
pub enum RegistrationPlan {
    /// An existing app.
    Existing { app_id: String, app_secret: String, tenant: TenantBrand },
    /// The device flow.
    DeviceFlow,
}

/// Why a registration cannot begin.
#[derive(Clone, Copy, Debug, PartialEq, Eq, Structural)]
pub enum RegistrationError {
    MissingSecret,
    IncompleteArguments,
}

/// What a failure to begin is reported as.
pub open spec fn registration_error_text(error: RegistrationError) -> Seq<char> {
    match error {
        RegistrationError::MissingSecret =>
            "--app-id/--tenant given without --app-secret; set LARK_APP_SECRET to supply the secret without exposing it in the process list"@,
        RegistrationError::IncompleteArguments =>
            "--app-id and --tenant must be given together, optionally with --app-secret, or none at all"@,
    }
}

impl RegistrationError {
    /// What the failure is reported as.
    pub fn to_text(self) -> (text: &'static str)
        ensures
            text@ == registration_error_text(self),
    {
        match self {
            RegistrationError::MissingSecret =>
                "--app-id/--tenant given without --app-secret; set LARK_APP_SECRET to supply the secret without exposing it in the process list",
            RegistrationError::IncompleteArguments =>
                "--app-id and --tenant must be given together, optionally with --app-secret, or none at all",
        }
    }
}

/// The secret that the environment supplies, where it is not empty.
pub open spec fn supplied(environment: Option<String>) -> Option<Seq<char>> {
    match environment {
        Some(text) => if text@.len() > 0 {
            Some(text@)
        } else {
            None
        },
        None => None,
    }
}

/// Decides where the credentials come from, given the secret that the
/// environment holds, if any: it is used only where the command line names an
/// app without its secret.
///
/// # Errors
///
/// `MissingSecret` for an app without any secret, `IncompleteArguments` for any
/// other partial set.
pub fn plan_registration(
    app_id: Option<String>,
    app_secret: Option<String>,
    tenant: Option<TenantArg>,
    environment: Option<String>,
) -> (plan: Result<RegistrationPlan, RegistrationError>)
    ensures
        match plan {
            Ok(planned) => registration_of(app_id, app_secret, tenant, environment) == Ok::<
                PlanView,
                RegistrationError,
            >(planned@),
            Err(error) => registration_of(app_id, app_secret, tenant, environment) == Err::<
                PlanView,
                RegistrationError,
            >(error),
        },
        if app_id is Some && tenant is Some {
            match app_secret {
                Some(secret) => {
                    &&& plan is Ok
                    &&& plan->Ok_0 is Existing
                    &&& plan->Ok_0->app_id@ == app_id->Some_0@
                    &&& plan->Ok_0->app_secret@ == secret@
                    &&& plan->Ok_0->tenant
                        == <TenantBrand as vstd::std_specs::convert::FromSpec<TenantArg>>::from_spec(
                        tenant->Some_0,
                    )
                },
                None => match supplied(environment) {
                    Some(secret) => {
                        &&& plan is Ok
                        &&& plan->Ok_0 is Existing
                        &&& plan->Ok_0->app_id@ == app_id->Some_0@
                        &&& plan->Ok_0->app_secret@ == secret
                        &&& plan->Ok_0->tenant
                            == <TenantBrand as vstd::std_specs::convert::FromSpec<
                            TenantArg,
                        >>::from_spec(tenant->Some_0)
                    },
                    None => plan == Err::<RegistrationPlan, RegistrationError>(
                        RegistrationError::MissingSecret,
                    ),
                },
            }
        } else if app_id is None && app_secret is None && tenant is None {
            plan == Ok::<RegistrationPlan, RegistrationError>(RegistrationPlan::DeviceFlow)
        } else {
            plan == Err::<RegistrationPlan, RegistrationError>(
                RegistrationError::IncompleteArguments,
            )
        },
{
    match (app_id, app_secret, tenant) {
        (Some(app_id), Some(app_secret), Some(tenant)) => Ok(
            RegistrationPlan::Existing { app_id, app_secret, tenant: TenantBrand::from(tenant) },
        ),
        (Some(app_id), None, Some(tenant)) => {
            let secret = match environment {
                Some(text) => if text.as_str().is_empty() {
                    None
                } else {
                    Some(text)
                },
                None => None,
            };
            match secret {
                Some(app_secret) => Ok(
                    RegistrationPlan::Existing {
                        app_id,
                        app_secret,
                        tenant: TenantBrand::from(tenant),
                    },
                ),
                None => Err(RegistrationError::MissingSecret),
            }
        },
        (None, None, None) => Ok(RegistrationPlan::DeviceFlow),
        _ => Err(RegistrationError::IncompleteArguments),
    }
}

/// The only fields that the Codex probe may ever print: no Codex home, account
/// identity, tokens, environment, or raw responses.
pub struct ProbeReport {
    pub supported_version: String,
    pub initialize_user_agent: String,
    pub platform_family: String,
    pub platform_os: String,
    pub epoch: u64,
}

/// What waiting for the Codex probe came to.
pub enum ProbeWait {
    TimedOut,
    /// The supervisor stopped reporting.
    Closed,
    /// The state that ended the wait.
    Settled(SupervisorState),
}

/// Whether a state ends the wait of the Codex probe.
pub fn probe_settles(state: &SupervisorState) -> (settles: bool)
    ensures
        settles == (*state is Ready || *state is Degraded),
{
    match state {
        SupervisorState::Ready { .. } => true,
        SupervisorState::Degraded { .. } => true,
        _ => false,
    }
}

/// What a Codex probe reports, given whether the supervisor could be stopped,
/// which is done first whatever the wait came to.
///
/// # Errors
///
/// The text of the first failure: the stop, the wait, or the state.
pub fn judge_probe(stopped: bool, wait: ProbeWait) -> (report: Result<ProbeReport, String>)
    ensures
        if !stopped {
            report is Err && report->Err_0@ == "unable to stop the Codex supervisor"@
        } else {
            match wait {
                ProbeWait::TimedOut => report is Err && report->Err_0@
                    == "Codex probe timed out waiting for the app-server handshake"@,
                ProbeWait::Closed => report is Err && report->Err_0@
                    == "Codex supervisor stopped during the probe"@,
                ProbeWait::Settled(state) => match state {
                    SupervisorState::Ready { epoch, version, peer } => {
                        &&& report is Ok
                        &&& report->Ok_0.supported_version@ == version@
                        &&& report->Ok_0.initialize_user_agent@ == peer.user_agent@
                        &&& report->Ok_0.platform_family@ == peer.platform_family@
                        &&& report->Ok_0.platform_os@ == peer.platform_os@
                        &&& report->Ok_0.epoch == epoch
                    },
                    SupervisorState::Degraded { reason } => report is Err && report->Err_0@
                        == reason@,
                    _ => report is Err && report->Err_0@
                        == "Codex app-server stopped before completing the probe"@,
                },
            }
        },
{
    if !stopped {
        return Err("unable to stop the Codex supervisor".to_owned());
    }
    match wait {
        ProbeWait::TimedOut => Err(
            "Codex probe timed out waiting for the app-server handshake".to_owned(),
        ),
        ProbeWait::Closed => Err("Codex supervisor stopped during the probe".to_owned()),
        ProbeWait::Settled(state) => match state {
            SupervisorState::Ready { epoch, version, peer } => Ok(
                ProbeReport {
                    supported_version: version,
                    initialize_user_agent: peer.user_agent,
                    platform_family: peer.platform_family,
                    platform_os: peer.platform_os,
                    epoch,
                },
            ),
            SupervisorState::Degraded { reason } => Err(reason),
            _ => Err("Codex app-server stopped before completing the probe".to_owned()),
        },
    }
}

/// What a failed token exchange is reported as, given how the failure itself
/// reads.
pub open spec fn token_failure(error: LarkError, detail: Seq<char>) -> Seq<char> {
    match error {
        LarkError::PermanentAuth { .. } =>
            "Lark authentication failed permanently; verify the app ID, app secret, and tenant (or re-run `lark auth register`)"@,
        _ => "unable to exchange a Lark tenant token: "@ + detail,
    }
}

/// What a failed token exchange is reported as.
pub fn explain_token_failure(error: &LarkError, detail: &str) -> (text: String)
    ensures
        text@ == token_failure(*error, detail@),
{
    match error {
        LarkError::PermanentAuth { .. } =>
            "Lark authentication failed permanently; verify the app ID, app secret, and tenant (or re-run `lark auth register`)".to_owned(),
        _ => {
            let mut text = "unable to exchange a Lark tenant token: ".to_owned();
            text.append(detail);
            text
        },
    }
}

/// How an optional provider code is shown.
pub open spec fn shown_code(code: Option<i64>) -> Seq<char> {
    match code {
        Some(number) => "Some("@ + signed_decimal(number as int) + ")"@,
        None => "None"@,
    }
}

/// What a failed connection probe is reported as, given how the failure itself
/// reads.
pub open spec fn transport_failure(error: LarkError, detail: Seq<char>) -> Seq<char> {
    match error {
        LarkError::PermanentAuth { code, .. } =>
            "Lark WebSocket endpoint rejected the credentials permanently (code "@ + shown_code(
                code,
            ) + "); verify the app ID, app secret, and tenant"@,
        _ => "unable to complete the Lark WebSocket probe: "@ + detail
            + "; check network reachability of the tenant endpoints and retry"@,
    }
}

/// What a failed connection probe is reported as.
pub fn explain_transport_failure(error: &LarkError, detail: &str) -> (text: String)
    ensures
        text@ == transport_failure(*error, detail@),
{
    match error {
        LarkError::PermanentAuth { code, .. } => {
            let mut text =
                "Lark WebSocket endpoint rejected the credentials permanently (code ".to_owned();
            let ghost head = text@;
            match code {
                Some(number) => {
                    text.append("Some(");
                    append_signed(&mut text, *number);
                    text.append(")");
                },
                None => {
                    text.append("None");
                },
            }
            proof {
                assert(text@ =~= head + shown_code(*code));
            }
            text.append("); verify the app ID, app secret, and tenant");
            text
        },
        _ => {
            let mut text = "unable to complete the Lark WebSocket probe: ".to_owned();
            text.append(detail);
            text.append("; check network reachability of the tenant endpoints and retry");
            text
        },
    }
}

/// The environment supplies a value exactly where it holds a text, as it is.
pub proof fn empty_values_supply_nothing(value: String)
    ensures
        supplied(None) is None,
        value@.len() == 0 ==> supplied(Some(value)) is None,
        value@.len() > 0 ==> supplied(Some(value)) == Some(value@),
{
}

/// A rejection for good is told apart from a failure that may pass, with its
/// code; any other failure says what went wrong.
pub proof fn failures_say_what_went_wrong(error: LarkError, detail: Seq<char>, other: Seq<char>)
    ensures
        error is PermanentAuth ==> transport_failure(error, detail) == transport_failure(
            error,
            other,
        ) && token_failure(error, detail) == token_failure(error, other),
        !(error is PermanentAuth) ==> (transport_failure(error, detail) == transport_failure(
            error,
            other,
        ) ==> detail == other),
        !(error is PermanentAuth) ==> (token_failure(error, detail) == token_failure(error, other)
            ==> detail == other),
{
    if !(error is PermanentAuth) {
        let head = "unable to complete the Lark WebSocket probe: "@;
        let tail = "; check network reachability of the tenant endpoints and retry"@;
        let one = transport_failure(error, detail);
        let two = transport_failure(error, other);
        if one == two {
            assert(one.len() == head.len() + detail.len() + tail.len());
            assert(two.len() == head.len() + other.len() + tail.len());
            assert(one.subrange(head.len() as int, (head.len() + detail.len()) as int) =~= detail);
            assert(two.subrange(head.len() as int, (head.len() + other.len()) as int) =~= other);
        }
        let start = "unable to exchange a Lark tenant token: "@;
        let three = token_failure(error, detail);
        let four = token_failure(error, other);
        if three == four {
            assert(three.subrange(start.len() as int, three.len() as int) =~= detail);
            assert(four.subrange(start.len() as int, four.len() as int) =~= other);
        }
    }
}

/// Content of a plan for a registration.
pub enum PlanView {
    Existing { app_id: Seq<char>, app_secret: Seq<char>, tenant: TenantBrand },
    DeviceFlow,
}

impl View for RegistrationPlan {
    type V = PlanView;

    open spec fn view(&self) -> PlanView {
        match *self {
            RegistrationPlan::Existing { app_id, app_secret, tenant } => PlanView::Existing {
                app_id: app_id@,
                app_secret: app_secret@,
                tenant,
            },
            RegistrationPlan::DeviceFlow => PlanView::DeviceFlow,
        }
    }
}

/// What a registration comes to: an existing app with its identifier, its
/// tenant and a secret, given or supplied; a new one where nothing is given.
pub open spec fn registration_of(
    app_id: Option<String>,
    app_secret: Option<String>,
    tenant: Option<TenantArg>,
    environment: Option<String>,
) -> Result<PlanView, RegistrationError> {
    match (app_id, tenant) {
        (Some(app_id), Some(tenant)) => {
            let secret = match app_secret {
                Some(secret) => Some(secret@),
                None => supplied(environment),
            };
            let brand = match tenant {
                TenantArg::Feishu => TenantBrand::Feishu,
                TenantArg::Lark => TenantBrand::Lark,
            };
            match secret {
                Some(app_secret) => Ok(
                    PlanView::Existing { app_id: app_id@, app_secret, tenant: brand },
                ),
                None => Err(RegistrationError::MissingSecret),
            }
        },
        (None, None) => if app_secret is None {
            Ok(PlanView::DeviceFlow)
        } else {
            Err(RegistrationError::IncompleteArguments)
        },
        _ => Err(RegistrationError::IncompleteArguments),
    }
}

/// An existing app is registered under the identifier and tenant that were
/// given, with the secret that was given, or else the one that the environment
/// supplies; without any it is refused. A new app is registered exactly where
/// nothing is given.
pub proof fn registrations_use_what_was_given(
    app_id: String,
    app_secret: String,
    tenant: TenantArg,
    supplied_secret: String,
)
    ensures
        ({
            let brand = if tenant == TenantArg::Feishu {
                TenantBrand::Feishu
            } else {
                TenantBrand::Lark
            };
            let given = registration_of(
                Some(app_id),
                Some(app_secret),
                Some(tenant),
                Some(supplied_secret),
            );
            let from_environment = registration_of(
                Some(app_id),
                None,
                Some(tenant),
                Some(supplied_secret),
            );
            let incomplete = Err::<PlanView, RegistrationError>(
                RegistrationError::IncompleteArguments,
            );
            &&& given == Ok::<PlanView, RegistrationError>(
                PlanView::Existing { app_id: app_id@, app_secret: app_secret@, tenant: brand },
            )
            &&& supplied_secret@.len() > 0 ==> from_environment == Ok::<
                PlanView,
                RegistrationError,
            >(
                PlanView::Existing {
                    app_id: app_id@,
                    app_secret: supplied_secret@,
                    tenant: brand,
                },
            )
            &&& supplied_secret@.len() == 0 ==> from_environment == Err::<
                PlanView,
                RegistrationError,
            >(RegistrationError::MissingSecret)
            &&& registration_of(Some(app_id), None, Some(tenant), None) == Err::<
                PlanView,
                RegistrationError,
            >(RegistrationError::MissingSecret)
            &&& registration_of(None, None, None, Some(supplied_secret)) == Ok::<
                PlanView,
                RegistrationError,
            >(PlanView::DeviceFlow)
            &&& registration_of(None, None, None, None) == Ok::<PlanView, RegistrationError>(
                PlanView::DeviceFlow,
            )
            &&& registration_of(Some(app_id), Some(app_secret), None, None) == incomplete
            &&& registration_of(Some(app_id), None, None, None) == incomplete
            &&& registration_of(None, Some(app_secret), None, None) == incomplete
            &&& registration_of(None, None, Some(tenant), None) == incomplete
            &&& registration_of(None, Some(app_secret), Some(tenant), None) == incomplete
        }),
{
}

/// A flag and a tenant are shown as they are.
pub proof fn flags_are_shown_as_they_are(flag: bool, tenant: TenantArg)
    ensures
        shown_flag(true) == "true"@,
        shown_flag(false) == "false"@,
        shown_tenant(Some(TenantArg::Feishu)) != shown_tenant(Some(TenantArg::Lark)),
        shown_tenant(Some(tenant)) != shown_tenant(None),
{
    reveal_strlit("Some(Feishu)");
    reveal_strlit("Some(Lark)");
    reveal_strlit("None");
    assert("Some(Feishu)"@.len() == 12 && "Some(Lark)"@.len() == 10 && "None"@.len() == 4);
}

} // verus!
