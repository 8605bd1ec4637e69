//! Bootstrap of the Codex protocol sidecar: its settings, the bounded
//! hello/configure exchange, and who may still signal its process group.
use vstd::prelude::*;

use crate::codex::process::OwnedTree;
use crate::codex::process::Pipes;
use crate::codex::process::ProcessError;
use crate::codex::process::ProcessExit;
use crate::codex::process::SidecarBootstrapFailure;
use crate::codex::types::text_bytes;
use crate::limits::CODEX_SIDECAR_FRAME_BYTES;
use crate::limits::CODEX_SIDECAR_HANDSHAKE_TIMEOUT_MS;
use crate::limits::CODEX_SIDECAR_PENDING_CAPACITY;
use crate::limits::CODEX_SIDECAR_SHUTDOWN_GRACE_MS;
use crate::text::append_decimal;
use crate::text::append_span;
use crate::text::byte_len;
use crate::text::decimal;
use crate::text::same_text;
use crate::text::span_text;
use crate::version::is_release;
use crate::version::names_release;
use crate::version::parse_release;
use crate::version::release_text;
use crate::version::Version;
use vstd::string::StrSliceExecFns;
use vstd::string::StringExecFns;

verus! {

/// Stable local protocol identifier, independent of an upstream release.
pub const CODEX_SIDECAR_PROTOCOL: &'static str = "codex-sidecar-wire";

/// First and currently only stable local protocol version.
pub const CODEX_SIDECAR_VERSION: u32 = 1;

/// Exact upstream releases that the sidecar adapts.
pub const SUPPORTED_SIDECAR_CODEX_VERSIONS: [&'static str; 2] = ["0.149.0", "0.151.0"];

/// Capabilities that must be negotiated before any JSON-RPC frame is accepted.
pub const REQUIRED_SIDECAR_CAPABILITIES: [&'static str; 7] = [
    "bounded-ndjson",
    "correlated-requests",
    "correlated-server-requests",
    "epoch-on-restart",
    "no-mutation-replay",
    "priority-control-lane",
    "stable-domain-jsonrpc",
];

/// Process and bootstrap settings. Paths and arguments never appear in
/// diagnostics.
#[derive(Clone, PartialEq, Eq)]
pub struct CodexSidecarConfig {
    pub node_binary: String,
    pub entrypoint: String,
    /// Upstream override; the sidecar's own pinned dependency otherwise.
    pub codex_binary: Option<String>,
    pub codex_home: Option<String>,
    /// Prefix arguments for wrappers.
    pub codex_arguments: Vec<String>,
    pub max_frame_bytes: usize,
    pub max_pending: usize,
    pub handshake_timeout_ms: u64,
    pub shutdown_grace_ms: u64,
}

impl Default for CodexSidecarConfig {
    fn default() -> (config: CodexSidecarConfig)
        ensures
            config.node_binary@ == "node"@,
            config.entrypoint@ == "codex-sidecar/index.cjs"@,
            config.codex_binary is None,
            config.codex_home is None,
            config.codex_arguments@.len() == 0,
            config.max_frame_bytes == CODEX_SIDECAR_FRAME_BYTES,
            config.max_pending == CODEX_SIDECAR_PENDING_CAPACITY,
            config.handshake_timeout_ms == CODEX_SIDECAR_HANDSHAKE_TIMEOUT_MS,
            config.shutdown_grace_ms == CODEX_SIDECAR_SHUTDOWN_GRACE_MS,
    {
        CodexSidecarConfig {
            node_binary: "node".to_owned(),
            entrypoint: "codex-sidecar/index.cjs".to_owned(),
            codex_binary: None,
            codex_home: None,
            codex_arguments: Vec::new(),
            max_frame_bytes: CODEX_SIDECAR_FRAME_BYTES,
            max_pending: CODEX_SIDECAR_PENDING_CAPACITY,
            handshake_timeout_ms: CODEX_SIDECAR_HANDSHAKE_TIMEOUT_MS,
            shutdown_grace_ms: CODEX_SIDECAR_SHUTDOWN_GRACE_MS,
        }
    }
}

/// Whether an argument may be handed to a wrapper.
pub open spec fn argument_allowed(argument: Seq<char>) -> bool {
    argument.len() > 0 && byte_len(argument) <= 1024 && !argument.contains('\0')
}

/// Whether settings are within the local contract.
pub open spec fn sidecar_config_valid(config: CodexSidecarConfig) -> bool {
    &&& config.node_binary@.len() > 0
    &&& config.entrypoint@.len() > 0
    &&& config.codex_binary matches Some(binary) ==> binary@.len() > 0
    &&& config.codex_arguments@.len() <= 8
    &&& forall|k: int|
        0 <= k < config.codex_arguments@.len() ==> argument_allowed(
            (#[trigger] config.codex_arguments@[k])@,
        )
    &&& 0 < config.max_frame_bytes <= CODEX_SIDECAR_FRAME_BYTES
    &&& 0 < config.max_pending <= CODEX_SIDECAR_PENDING_CAPACITY
    &&& 0 < config.handshake_timeout_ms <= CODEX_SIDECAR_HANDSHAKE_TIMEOUT_MS
    &&& 0 < config.shutdown_grace_ms <= CODEX_SIDECAR_SHUTDOWN_GRACE_MS
}

/// Whether a text holds a zero character.
pub(crate) fn holds_zero(text: &str) -> (found: bool)
    ensures
        found == text@.contains('\0'),
{
    let length: usize = text.unicode_len();
    let mut at: usize = 0;
    while at < length
        invariant
            at <= length,
            length == text@.len(),
            forall|k: int| 0 <= k < at ==> text@[k] != '\0',
        decreases length - at,
    {
        if text.get_char(at) == '\0' {
            return true;
        }
        at += 1;
    }
    false
}

fn arguments_allowed(arguments: &Vec<String>) -> (allowed: bool)
    ensures
        allowed == forall|k: int|
            0 <= k < arguments@.len() ==> argument_allowed((#[trigger] arguments@[k])@),
{
    let mut at: usize = 0;
    while at < arguments.len()
        invariant
            at <= arguments@.len(),
            forall|k: int| 0 <= k < at ==> argument_allowed((#[trigger] arguments@[k])@),
        decreases arguments@.len() - at,
    {
        let argument = arguments[at].as_str();
        if argument.is_empty() || text_bytes(argument) > 1024 || holds_zero(argument) {
            proof {
                assert(!argument_allowed(arguments@[at as int]@));
            }
            return false;
        }
        at += 1;
    }
    true
}

/// What is known of a configured home directory.
#[derive(Clone, Copy, Debug, PartialEq, Eq, Structural)]
pub enum HomeDirectory {
    /// None is configured.
    Unset,
    Directory,
    NotDirectory,
    Unreadable,
}

/// How settings are shown: no path and no argument, only whether and how many.
pub open spec fn sidecar_config_text(
    has_binary: bool,
    has_home: bool,
    arguments: nat,
    max_frame_bytes: usize,
    max_pending: usize,
    handshake_ms: u64,
    grace_ms: u64,
) -> Seq<char> {
    "CodexSidecarConfig { node_binary: \"[configured]\", entrypoint: \"[configured]\", codex_binary_configured: "@
        + (if has_binary {
        "true"@
    } else {
        "false"@
    }) + ", codex_home: "@ + (if has_home {
        "Some(\"[configured]\")"@
    } else {
        "None"@
    }) + ", codex_argument_count: "@ + decimal(arguments) + ", max_frame_bytes: "@ + decimal(
        max_frame_bytes as nat,
    ) + ", max_pending: "@ + decimal(max_pending as nat) + ", handshake_timeout: "@ + span_text(
        handshake_ms,
    ) + ", shutdown_grace: "@ + span_text(grace_ms) + " }"@
}

impl CodexSidecarConfig {
    /// Checks shape and hard bounds. The sidecar owns upstream discovery and
    /// exact version probing; the home directory is checked apart.
    ///
    /// # Errors
    ///
    /// `InvalidSidecarConfig` for settings outside the local contract.
    pub fn validate(&self) -> (valid: Result<(), ProcessError>)
        ensures
            valid == if sidecar_config_valid(*self) {
                Ok::<(), ProcessError>(())
            } else {
                Err::<(), ProcessError>(ProcessError::InvalidSidecarConfig)
            },
    {
        let empty_binary = match &self.codex_binary {
            Some(binary) => binary.as_str().is_empty(),
            None => false,
        };
        if self.node_binary.as_str().is_empty() || self.entrypoint.as_str().is_empty()
            || empty_binary || self.codex_arguments.len() > 8 || !arguments_allowed(
            &self.codex_arguments,
        ) || self.max_frame_bytes == 0 || self.max_frame_bytes > CODEX_SIDECAR_FRAME_BYTES
            || self.max_pending == 0 || self.max_pending > CODEX_SIDECAR_PENDING_CAPACITY
            || self.handshake_timeout_ms == 0 || self.handshake_timeout_ms
            > CODEX_SIDECAR_HANDSHAKE_TIMEOUT_MS || self.shutdown_grace_ms == 0
            || self.shutdown_grace_ms > CODEX_SIDECAR_SHUTDOWN_GRACE_MS {
            return Err(ProcessError::InvalidSidecarConfig);
        }
        Ok(())
    }

    /// How the settings are shown. Two configurations that differ only in
    /// paths and in what their arguments say are shown alike.
    pub fn debug_text(&self) -> (text: String)
        ensures
            text@ == sidecar_config_text(
                self.codex_binary is Some,
                self.codex_home is Some,
                self.codex_arguments@.len(),
                self.max_frame_bytes,
                self.max_pending,
                self.handshake_timeout_ms,
                self.shutdown_grace_ms,
            ),
    {
        let mut text =
            "CodexSidecarConfig { node_binary: \"[configured]\", entrypoint: \"[configured]\", codex_binary_configured: ".to_owned();
        if self.codex_binary.is_some() {
            text.append("true");
        } else {
            text.append("false");
        }
        text.append(", codex_home: ");
        if self.codex_home.is_some() {
            text.append("Some(\"[configured]\")");
        } else {
            text.append("None");
        }
        text.append(", codex_argument_count: ");
        append_decimal(&mut text, self.codex_arguments.len() as u64);
        text.append(", max_frame_bytes: ");
        append_decimal(&mut text, self.max_frame_bytes as u64);
        text.append(", max_pending: ");
        append_decimal(&mut text, self.max_pending as u64);
        text.append(", handshake_timeout: ");
        append_span(&mut text, self.handshake_timeout_ms);
        text.append(", shutdown_grace: ");
        append_span(&mut text, self.shutdown_grace_ms);
        text.append(" }");
        text
    }

    /// The grace that a termination gets: what is asked for, up to the
    /// configured grace.
    pub fn effective_grace(&self, grace_ms: u64) -> (effective: u64)
        ensures
            effective == if grace_ms <= self.shutdown_grace_ms {
                grace_ms
            } else {
                self.shutdown_grace_ms
            },
    {
        if grace_ms <= self.shutdown_grace_ms {
            grace_ms
        } else {
            self.shutdown_grace_ms
        }
    }
}

/// The sidecar's environment: the search path and the home directory, where
/// they are set, and nothing else.
pub open spec fn inherited<V>(path: Option<V>, home: Option<V>) -> Seq<(Seq<char>, V)> {
    let first = match path {
        Some(value) => seq![("PATH"@, value)],
        None => Seq::empty(),
    };
    match home {
        Some(value) => first.push(("HOME"@, value)),
        None => first,
    }
}

/// The sidecar's environment, from the values that the process has.
pub fn inherited_sidecar_environment<V>(path: Option<V>, home: Option<V>) -> (selected: Vec<
    (&'static str, V),
>)
    ensures
        selected@.map_values(|entry: (&'static str, V)| (entry.0@, entry.1)) == inherited(
            path,
            home,
        ),
{
    let mut selected: Vec<(&'static str, V)> = Vec::new();
    if let Some(value) = path {
        selected.push(("PATH", value));
    }
    if let Some(value) = home {
        selected.push(("HOME", value));
    }
    proof {
        assert(selected@.map_values(|entry: (&'static str, V)| (entry.0@, entry.1)) =~= inherited(
            path,
            home,
        ));
    }
    selected
}

/// Checks the configured home directory.
///
/// # Errors
///
/// `InvalidCodexHome` where one is configured that is not a directory.
pub fn check_home(home: HomeDirectory) -> (checked: Result<(), ProcessError>)
    ensures
        checked == if home == HomeDirectory::Unset || home == HomeDirectory::Directory {
            Ok::<(), ProcessError>(())
        } else {
            Err::<(), ProcessError>(ProcessError::InvalidCodexHome)
        },
{
    match home {
        HomeDirectory::Unset => Ok(()),
        HomeDirectory::Directory => Ok(()),
        _ => Err(ProcessError::InvalidCodexHome),
    }
}

/// Capabilities that must be negotiated before any JSON-RPC frame is accepted.
pub open spec fn required_capabilities() -> Seq<Seq<char>> {
    seq![
        "bounded-ndjson"@,
        "correlated-requests"@,
        "correlated-server-requests"@,
        "epoch-on-restart"@,
        "no-mutation-replay"@,
        "priority-control-lane"@,
        "stable-domain-jsonrpc"@,
    ]
}

/// Capabilities that must be negotiated before any JSON-RPC frame is accepted.
pub fn required_capability_set() -> (names: Vec<&'static str>)
    ensures
        crate::codex::compat::name_views(names@) == required_capabilities(),
{
    let required = REQUIRED_SIDECAR_CAPABILITIES;
    let mut names: Vec<&'static str> = Vec::new();
    let mut at: usize = 0;
    while at < 7
        invariant
            at <= 7,
            names@.len() == at,
            required@ == REQUIRED_SIDECAR_CAPABILITIES@,
            forall|k: int| 0 <= k < at ==> names@[k] == required@[k],
        decreases 7 - at,
    {
        names.push(required[at]);
        at += 1;
    }
    proof {
        assert(crate::codex::compat::name_views(names@) =~= required_capabilities());
    }
    names
}

/// Contents of a list of texts.
pub open spec fn text_views(texts: Seq<String>) -> Seq<Seq<char>> {
    texts.map_values(|text: String| text@)
}

/// Whether the offered capabilities are exactly the required ones, each once.
pub open spec fn capabilities_exact(offered: Seq<Seq<char>>) -> bool {
    offered.no_duplicates() && forall|name: Seq<char>|
        #[trigger] offered.contains(name) <==> required_capabilities().contains(name)
}

fn offers(offered: &Vec<String>, name: &str) -> (found: bool)
    ensures
        found == text_views(offered@).contains(name@),
{
    let mut at: usize = 0;
    while at < offered.len()
        invariant
            at <= offered@.len(),
            forall|k: int| 0 <= k < at ==> (#[trigger] text_views(offered@)[k]) != name@,
        decreases offered@.len() - at,
    {
        proof {
            assert(text_views(offered@)[at as int] == offered@[at as int]@);
        }
        if same_text(offered[at].as_str(), name) {
            return true;
        }
        at += 1;
    }
    false
}

fn lists(required: &Vec<&'static str>, name: &str) -> (found: bool)
    ensures
        found == crate::codex::compat::name_views(required@).contains(name@),
{
    let mut at: usize = 0;
    while at < required.len()
        invariant
            at <= required@.len(),
            forall|k: int|
                0 <= k < at ==> (#[trigger] crate::codex::compat::name_views(required@)[k])
                    != name@,
        decreases required@.len() - at,
    {
        proof {
            assert(crate::codex::compat::name_views(required@)[at as int] == required@[at as int]@);
        }
        if same_text(required[at], name) {
            return true;
        }
        at += 1;
    }
    false
}

/// Whether the offered capabilities are exactly the required ones, each once.
pub fn exact_capability_set(offered: &Vec<String>) -> (exact: bool)
    ensures
        exact == capabilities_exact(text_views(offered@)),
{
    let required = required_capability_set();
    let ghost views = text_views(offered@);
    let mut at: usize = 0;
    while at < offered.len()
        invariant
            views == text_views(offered@),
            crate::codex::compat::name_views(required@) == required_capabilities(),
            at <= offered@.len(),
            forall|k: int|
                0 <= k < at ==> required_capabilities().contains(#[trigger] views[k]),
            forall|i: int, j: int| 0 <= i < j < at ==> views[i] != views[j],
        decreases offered@.len() - at,
    {
        proof {
            assert(views[at as int] == offered@[at as int]@);
        }
        if !lists(&required, offered[at].as_str()) {
            proof {
                assert(views.contains(views[at as int]));
            }
            return false;
        }
        let mut earlier: usize = 0;
        while earlier < at
            invariant
                views == text_views(offered@),
                at < offered@.len(),
                earlier <= at,
                forall|k: int| 0 <= k < earlier ==> (#[trigger] views[k]) != views[at as int],
            decreases at - earlier,
        {
            proof {
                assert(views[earlier as int] == offered@[earlier as int]@);
                assert(views[at as int] == offered@[at as int]@);
            }
            if same_text(offered[earlier].as_str(), offered[at].as_str()) {
                proof {
                    assert(views[earlier as int] == views[at as int]);
                }
                return false;
            }
            earlier += 1;
        }
        at += 1;
    }
    let mut place: usize = 0;
    while place < required.len()
        invariant
            views == text_views(offered@),
            crate::codex::compat::name_views(required@) == required_capabilities(),
            place <= required@.len(),
            forall|k: int|
                0 <= k < place ==> views.contains(#[trigger] required_capabilities()[k]),
        decreases required@.len() - place,
    {
        proof {
            assert(required_capabilities()[place as int] == required@[place as int]@);
        }
        if !offers(offered, required[place]) {
            proof {
                assert(required_capabilities().contains(required_capabilities()[place as int]));
            }
            return false;
        }
        place += 1;
    }
    proof {
        assert forall|name: Seq<char>| #[trigger] views.contains(name)
            <==> required_capabilities().contains(name) by {
            if required_capabilities().contains(name) {
                let k = choose|k: int|
                    0 <= k < required_capabilities().len() && required_capabilities()[k] == name;
                assert(views.contains(required_capabilities()[k]));
            }
            if views.contains(name) {
                let k = choose|k: int| 0 <= k < views.len() && views[k] == name;
                assert(required_capabilities().contains(views[k]));
            }
        }
    }
    true
}

/// The first frame of the sidecar.
pub struct HelloFrame {
    pub protocol: String,
    pub v: u32,
    pub kind: String,
    pub max_frame_bytes: usize,
    pub capabilities: Vec<String>,
}

/// Whether a hello is the one that these settings expect.
pub open spec fn hello_expected(hello: HelloFrame, max_frame_bytes: usize) -> bool {
    &&& hello.protocol@ == CODEX_SIDECAR_PROTOCOL@
    &&& hello.v == CODEX_SIDECAR_VERSION
    &&& hello.kind@ == "hello"@
    &&& hello.max_frame_bytes == max_frame_bytes
    &&& capabilities_exact(text_views(hello.capabilities@))
}

/// Checks the first frame of the sidecar.
///
/// # Errors
///
/// `SidecarProtocol` for any frame but the expected one.
pub fn validate_hello(hello: &HelloFrame, config: &CodexSidecarConfig) -> (valid: Result<
    (),
    ProcessError,
>)
    ensures
        valid == if hello_expected(*hello, config.max_frame_bytes) {
            Ok::<(), ProcessError>(())
        } else {
            Err::<(), ProcessError>(ProcessError::SidecarProtocol)
        },
{
    if !same_text(hello.protocol.as_str(), CODEX_SIDECAR_PROTOCOL) || hello.v
        != CODEX_SIDECAR_VERSION || !same_text(hello.kind.as_str(), "hello")
        || hello.max_frame_bytes != config.max_frame_bytes || !exact_capability_set(
        &hello.capabilities,
    ) {
        return Err(ProcessError::SidecarProtocol);
    }
    Ok(())
}

/// What a configured sidecar says of itself.
pub struct ConfigureData {
    pub upstream_version: String,
    pub adapter_version: String,
    pub capabilities: Vec<String>,
}

/// The answer to the configuration.
pub struct ConfigureResponse {
    pub v: u32,
    pub kind: String,
    pub id: String,
    pub ok: bool,
    pub data: Option<ConfigureData>,
    pub error: Option<SidecarBootstrapFailure>,
}

/// Whether a version is one that the sidecar adapts.
pub open spec fn sidecar_supports(version: Seq<char>) -> bool {
    version == "0.149.0"@ || version == "0.151.0"@
}

/// Whether an answer belongs to a configuration.
pub open spec fn answers_configuration(response: ConfigureResponse, id: Seq<char>) -> bool {
    response.v == CODEX_SIDECAR_VERSION && response.kind@ == "response"@ && response.id@ == id
}

/// Whether the data of a configured sidecar are coherent.
pub open spec fn data_coherent(data: ConfigureData) -> bool {
    &&& data.adapter_version@ == data.upstream_version@
    &&& capabilities_exact(text_views(data.capabilities@))
    &&& names_release(data.upstream_version@)
}

/// Judges the answer to the configuration: the upstream version that the
/// sidecar runs, or why it may not be used.
///
/// # Errors
///
/// `SidecarBootstrapRejected` with the sidecar's own reason,
/// `UnsupportedSidecarVersion` for a coherent answer with another version,
/// and `SidecarProtocol` for anything else.
pub fn validate_configure_response(response: ConfigureResponse, expected_id: &str) -> (version:
    Result<Version, ProcessError>)
    ensures
        configured_by(response, expected_id@, version),
        if !answers_configuration(response, expected_id@) {
            version == Err::<Version, ProcessError>(ProcessError::SidecarProtocol)
        } else {
            match (response.ok, response.data, response.error) {
                (true, Some(data), None) => if !data_coherent(data) {
                    version == Err::<Version, ProcessError>(ProcessError::SidecarProtocol)
                } else {
                    match version {
                        Ok(held) => sidecar_supports(data.upstream_version@) && is_release(held@)
                            && data.upstream_version@ == release_text(
                            held@.major,
                            held@.minor,
                            held@.patch,
                        ),
                        Err(ProcessError::UnsupportedSidecarVersion { found }) => !sidecar_supports(
                            data.upstream_version@,
                        ) && is_release(found@) && data.upstream_version@ == release_text(
                            found@.major,
                            found@.minor,
                            found@.patch,
                        ),
                        Err(_) => false,
                    }
                },
                (false, None, Some(failure)) => version == Err::<Version, ProcessError>(
                    (ProcessError::SidecarBootstrapRejected { failure }),
                ),
                _ => version == Err::<Version, ProcessError>(ProcessError::SidecarProtocol),
            }
        },
{
    if response.v != CODEX_SIDECAR_VERSION || !same_text(response.kind.as_str(), "response")
        || !same_text(response.id.as_str(), expected_id) {
        return Err(ProcessError::SidecarProtocol);
    }
    let data = match (response.ok, response.data, response.error) {
        (true, Some(data), None) => data,
        (false, None, Some(failure)) => {
            return Err(ProcessError::SidecarBootstrapRejected { failure });
        },
        _ => {
            return Err(ProcessError::SidecarProtocol);
        },
    };
    if !same_text(data.adapter_version.as_str(), data.upstream_version.as_str())
        || !exact_capability_set(&data.capabilities) {
        return Err(ProcessError::SidecarProtocol);
    }
    match parse_release(data.upstream_version.as_str()) {
        Some(version) => {
            let supported = SUPPORTED_SIDECAR_CODEX_VERSIONS;
            if same_text(data.upstream_version.as_str(), supported[0]) || same_text(
                data.upstream_version.as_str(),
                supported[1],
            ) {
                Ok(version)
            } else {
                Err(ProcessError::UnsupportedSidecarVersion { found: version })
            }
        },
        None => Err(ProcessError::SidecarProtocol),
    }
}

/// Where the first line feed stands; the length where there is none.
pub open spec fn line_feed(bytes: Seq<u8>) -> int
    decreases bytes.len(),
{
    if bytes.len() == 0 || bytes.first() == 0x0a {
        0
    } else {
        1 + line_feed(bytes.drop_first())
    }
}

proof fn lemma_line_feed(bytes: Seq<u8>, at: int)
    requires
        0 <= at <= bytes.len(),
        forall|k: int| 0 <= k < at ==> #[trigger] bytes[k] != 0x0a,
        at < bytes.len() ==> bytes[at] == 0x0a,
    ensures
        line_feed(bytes) == at,
    decreases bytes.len(),
{
    if at > 0 {
        assert(bytes[0] != 0x0a);
        lemma_line_feed(bytes.drop_first(), at - 1);
    }
}

/// What a read of more bytes leads to.
pub enum FrameStep {
    /// The frame is not complete; all bytes were taken.
    More,
    /// The frame is complete; so many bytes were taken.
    Complete { frame: Vec<u8>, consumed: usize },
    Fail(ProcessError),
}

/// Collects one bounded frame that ends with a line feed.
pub struct FrameBuffer {
    pub bytes: Vec<u8>,
    pub maximum: usize,
}

impl FrameBuffer {
    pub fn new(maximum: usize) -> (buffer: FrameBuffer)
        ensures
            buffer.bytes@ == Seq::<u8>::empty(),
            buffer.maximum == maximum,
    {
        FrameBuffer { bytes: Vec::new(), maximum }
    }

    /// Takes what is available, up to the line feed. The frame is without it
    /// and without a carriage return before it, and leaves the buffer empty for
    /// the next one. A longer frame than the maximum fails, and so does the end
    /// of the stream; the buffer keeps what it held.
    pub fn take(&mut self, available: &[u8]) -> (step: FrameStep)
        ensures
            available@.len() > 0 ==> match step {
                FrameStep::More => bytes_fed(old(self).bytes@, old(self).maximum as int, available@) == Some(
                    (final(self).bytes@, None::<(Seq<u8>, int)>),
                ),
                FrameStep::Complete { frame, consumed } => bytes_fed(
                    old(self).bytes@,
                    old(self).maximum as int,
                    available@,
                ) == Some((final(self).bytes@, Some((frame@, consumed as int)))),
                FrameStep::Fail(_) => bytes_fed(old(self).bytes@, old(self).maximum as int, available@) is None,
            },
            final(self).maximum == old(self).maximum,
            ({
                let feed = line_feed(available@);
                let payload = old(self).bytes@ + available@.subrange(0, feed);
                if available@.len() == 0 {
                    step == FrameStep::Fail(ProcessError::SidecarBootstrapIo) && final(self).bytes@
                        == old(self).bytes@
                } else if payload.len() > old(self).maximum {
                    step == FrameStep::Fail(ProcessError::SidecarProtocol) && final(self).bytes@
                        == old(self).bytes@
                } else if feed < available@.len() {
                    step matches FrameStep::Complete { frame, consumed } && frame@
                        == crate::codex::protocol::without_last(payload, 0x0d) && consumed == feed
                        + 1 && final(self).bytes@.len() == 0
                } else {
                    step is More && final(self).bytes@ == payload
                }
            }),
    {
        if available.len() == 0 {
            return FrameStep::Fail(ProcessError::SidecarBootstrapIo);
        }
        let mut at: usize = 0;
        while at < available.len() && available[at] != 0x0a
            invariant
                at <= available@.len(),
                forall|k: int| 0 <= k < at ==> #[trigger] available@[k] != 0x0a,
            decreases available@.len() - at,
        {
            at += 1;
        }
        proof {
            lemma_line_feed(available@, at as int);
        }
        if self.bytes.len().saturating_add(at) > self.maximum || self.bytes.len() > usize::MAX - at {
            return FrameStep::Fail(ProcessError::SidecarProtocol);
        }
        let payload = vstd::slice::slice_subrange(available, 0, at);
        let mut collected: Vec<u8> = Vec::new();
        collected.append(&mut self.bytes);
        collected.extend_from_slice(payload);
        proof {
            assert(collected@ =~= old(self).bytes@ + available@.subrange(0, at as int));
        }
        if at < available.len() {
            let length: usize = collected.len();
            if length > 0 && collected[length - 1] == 0x0d {
                let _ = collected.pop();
            }
            return FrameStep::Complete { frame: collected, consumed: at + 1 };
        }
        self.bytes = collected;
        FrameStep::More
    }
}

/// Ends an encoded frame with a line feed.
///
/// # Errors
///
/// `SidecarProtocol` for a frame over the maximum.
pub fn finish_frame(mut bytes: Vec<u8>, maximum: usize) -> (frame: Result<Vec<u8>, ProcessError>)
    ensures
        match frame {
            Ok(frame) => bytes@.len() <= maximum && frame@ == bytes@.push(0x0a),
            Err(error) => bytes@.len() > maximum && error is SidecarProtocol,
        },
{
    if bytes.len() > maximum {
        return Err(ProcessError::SidecarProtocol);
    }
    bytes.push(0x0a);
    Ok(bytes)
}

/// A finished frame is read back as it was written, in one read.
pub proof fn finished_frame_reads_back(frame: Seq<u8>)
    requires
        forall|k: int| 0 <= k < frame.len() ==> #[trigger] frame[k] != 0x0a,
        frame.len() > 0 ==> frame.last() != 0x0d,
    ensures
        line_feed(frame.push(0x0a)) == frame.len(),
        crate::codex::protocol::without_last(
            Seq::<u8>::empty() + frame.push(0x0a).subrange(0, frame.len() as int),
            0x0d,
        ) == frame,
{
    lemma_line_feed(frame.push(0x0a), frame.len() as int);
    assert(Seq::<u8>::empty() + frame.push(0x0a).subrange(0, frame.len() as int) =~= frame);
}

/// Who may still signal an owned process group. The leader's identity is
/// reserved until it has been waited for; after that its number may name
/// another process, so the group is never signalled again.
#[derive(Clone, Copy, Debug, PartialEq, Eq, Structural)]
pub struct SignalAuthority {
    pub cleanup_confirmed: bool,
    pub group_signal_authorized: bool,
    pub identity_lost: bool,
}

/// How waiting for a bootstrap process ended.
#[derive(Clone, Copy, Debug, PartialEq, Eq, Structural)]
pub enum CleanupWait {
    Exited,
    /// Waiting failed, possibly so that the leader's identity is lost.
    Failed { identity_lost: bool },
    TimedOut,
}

impl SignalAuthority {
    /// The authority over a process that was just started.
    pub fn new(leader_identified: bool) -> (authority: SignalAuthority)
        ensures
            authority == (SignalAuthority {
                cleanup_confirmed: false,
                group_signal_authorized: leader_identified,
                identity_lost: false,
            }),
    {
        SignalAuthority {
            cleanup_confirmed: false,
            group_signal_authorized: leader_identified,
            identity_lost: false,
        }
    }

    /// Whether dropping the process signals its group. It does so at most
    /// once, and never after cleanup was confirmed.
    pub fn kill_on_drop(&mut self, leader_reserved: bool) -> (kill: bool)
        ensures
            kill == (!old(self).cleanup_confirmed && old(self).group_signal_authorized
                && leader_reserved),
            *final(self) == (SignalAuthority {
                group_signal_authorized: old(self).group_signal_authorized && !kill,
                ..*old(self)
            }),
    {
        let kill = !self.cleanup_confirmed && self.group_signal_authorized && leader_reserved;
        if kill {
            self.group_signal_authorized = false;
        }
        kill
    }

    /// Whether cleanup signals the group.
    ///
    /// # Errors
    ///
    /// `ProcessTreeCleanupUnconfirmed` once the leader's identity is lost.
    pub fn kill_for_cleanup(&mut self, leader_reserved: bool) -> (kill: Result<bool, ProcessError>)
        ensures
            old(self).identity_lost ==> kill == Err::<bool, ProcessError>(
                ProcessError::ProcessTreeCleanupUnconfirmed,
            ) && *final(self) == *old(self),
            !old(self).identity_lost ==> kill == Ok::<bool, ProcessError>(
                old(self).group_signal_authorized && leader_reserved,
            ) && *final(self) == (SignalAuthority {
                group_signal_authorized: false,
                ..*old(self)
            }),
    {
        if self.identity_lost {
            return Err(ProcessError::ProcessTreeCleanupUnconfirmed);
        }
        let kill = self.group_signal_authorized && leader_reserved;
        self.group_signal_authorized = false;
        Ok(kill)
    }

    /// Judges a cleanup: only the end of an identified leader together with an
    /// empty group confirms it.
    ///
    /// # Errors
    ///
    /// `ProcessTreeCleanupUnconfirmed` otherwise.
    pub fn judge_cleanup(
        &mut self,
        waited: CleanupWait,
        leader_identified: bool,
        group_empty: bool,
    ) -> (confirmed: Result<(), ProcessError>)
        ensures
            confirmed is Ok == (waited == CleanupWait::Exited && leader_identified && group_empty),
            confirmed matches Err(error) ==> error is ProcessTreeCleanupUnconfirmed,
            final(self).cleanup_confirmed == (old(self).cleanup_confirmed || confirmed is Ok),
            final(self).group_signal_authorized == (old(self).group_signal_authorized && !(waited
                == CleanupWait::Failed { identity_lost: true })),
            final(self).identity_lost == (old(self).identity_lost || waited
                == CleanupWait::Failed { identity_lost: true }),
    {
        match waited {
            CleanupWait::Failed { identity_lost } => {
                if identity_lost {
                    self.group_signal_authorized = false;
                    self.identity_lost = true;
                }
                return Err(ProcessError::ProcessTreeCleanupUnconfirmed);
            },
            CleanupWait::TimedOut => {
                return Err(ProcessError::ProcessTreeCleanupUnconfirmed);
            },
            CleanupWait::Exited => {},
        }
        if !leader_identified || !group_empty {
            return Err(ProcessError::ProcessTreeCleanupUnconfirmed);
        }
        self.cleanup_confirmed = true;
        Ok(())
    }

    /// Takes note of a wait for the leader: once it was waited for, or its
    /// identity is lost, the group is not signalled any more.
    pub fn note_leader_wait(&mut self, waited: CleanupWait)
        ensures
            final(self).cleanup_confirmed == old(self).cleanup_confirmed,
            final(self).group_signal_authorized == (old(self).group_signal_authorized && waited
                != CleanupWait::Exited && waited != (CleanupWait::Failed { identity_lost: true })),
            final(self).identity_lost == (old(self).identity_lost || waited
                == CleanupWait::Failed { identity_lost: true }),
    {
        match waited {
            CleanupWait::Exited => {
                self.group_signal_authorized = false;
            },
            CleanupWait::Failed { identity_lost } => {
                if identity_lost {
                    self.group_signal_authorized = false;
                    self.identity_lost = true;
                }
            },
            CleanupWait::TimedOut => {},
        }
    }
}

/// How a wait for the leader is answered without waiting: by the cached end,
/// or by the loss of its identity.
pub fn leader_known(tree: &OwnedTree, authority: &SignalAuthority) -> (answer: Option<
    Result<ProcessExit, ProcessError>,
>)
    ensures
        match tree.exit {
            Some(exit) => answer == Some(Ok::<ProcessExit, ProcessError>(exit)),
            None => if authority.identity_lost {
                answer == Some(
                    Err::<ProcessExit, ProcessError>(ProcessError::ProcessTreeCleanupUnconfirmed),
                )
            } else {
                answer is None
            },
        },
{
    match tree.exit {
        Some(exit) => Some(Ok(exit)),
        None => if authority.identity_lost {
            Some(Err(ProcessError::ProcessTreeCleanupUnconfirmed))
        } else {
            None
        },
    }
}

/// Checks that the pipes of a configured sidecar can be transferred.
///
/// # Errors
///
/// `StdioAlreadyTaken` where none is left, else `StdioUnavailable` with the
/// first one that is missing.
pub fn check_sidecar_pipes(pipes: Pipes) -> (checked: Result<(), ProcessError>)
    ensures
        checked == if !pipes.stdout && !pipes.stdin && !pipes.stderr {
            Err::<(), ProcessError>(ProcessError::StdioAlreadyTaken)
        } else if !pipes.stdout {
            Err::<(), ProcessError>(ProcessError::StdioUnavailable("stdout"))
        } else if !pipes.stdin {
            Err::<(), ProcessError>(ProcessError::StdioUnavailable("stdin"))
        } else if !pipes.stderr {
            Err::<(), ProcessError>(ProcessError::StdioUnavailable("stderr"))
        } else {
            Ok::<(), ProcessError>(())
        },
{
    if !pipes.stdout && !pipes.stdin && !pipes.stderr {
        return Err(ProcessError::StdioAlreadyTaken);
    }
    if !pipes.stdout {
        return Err(ProcessError::StdioUnavailable("stdout"));
    }
    if !pipes.stdin {
        return Err(ProcessError::StdioUnavailable("stdin"));
    }
    if !pipes.stderr {
        return Err(ProcessError::StdioUnavailable("stderr"));
    }
    Ok(())
}

/// How a bootstrap ended, before cleanup.
pub enum BootstrapOutcome {
    NoLeader,
    MissingPipes,
    HandshakeFailed(ProcessError),
    HandshakeTimedOut,
    Configured(Version),
}

/// Judges a bootstrap. Every failure is reported only once the process tree is
/// known to be gone; otherwise that it is not known is reported instead.
pub fn judge_bootstrap(outcome: BootstrapOutcome, handshake_timeout_ms: u64, cleaned: bool) -> (version:
    Result<Version, ProcessError>)
    ensures
        match bootstrap_failed(outcome, handshake_timeout_ms, cleaned) {
            Some(error) => version == Err::<Version, ProcessError>(error),
            None => version == Ok::<Version, ProcessError>(outcome->Configured_0),
        },
        match outcome {
            BootstrapOutcome::Configured(held) => version == Ok::<Version, ProcessError>(held),
            _ => if !cleaned {
                version == Err::<Version, ProcessError>(ProcessError::ProcessTreeCleanupUnconfirmed)
            } else {
                match outcome {
                    BootstrapOutcome::MissingPipes => version == Err::<Version, ProcessError>(
                        ProcessError::StdioUnavailable("sidecar stdio"),
                    ),
                    BootstrapOutcome::HandshakeFailed(error) => version == Err::<
                        Version,
                        ProcessError,
                    >(error),
                    BootstrapOutcome::HandshakeTimedOut => version == Err::<Version, ProcessError>(
                        (ProcessError::SidecarHandshakeTimeout { millis: handshake_timeout_ms }),
                    ),
                    _ => version == Err::<Version, ProcessError>(
                        ProcessError::ProcessTreeCleanupUnconfirmed,
                    ),
                }
            },
        },
{
    match outcome {
        BootstrapOutcome::Configured(version) => Ok(version),
        BootstrapOutcome::NoLeader => Err(ProcessError::ProcessTreeCleanupUnconfirmed),
        BootstrapOutcome::MissingPipes => {
            if cleaned {
                Err(ProcessError::StdioUnavailable("sidecar stdio"))
            } else {
                Err(ProcessError::ProcessTreeCleanupUnconfirmed)
            }
        },
        BootstrapOutcome::HandshakeFailed(error) => {
            if cleaned {
                Err(error)
            } else {
                Err(ProcessError::ProcessTreeCleanupUnconfirmed)
            }
        },
        BootstrapOutcome::HandshakeTimedOut => {
            if cleaned {
                Err(ProcessError::SidecarHandshakeTimeout { millis: handshake_timeout_ms })
            } else {
                Err(ProcessError::ProcessTreeCleanupUnconfirmed)
            }
        },
    }
}

/// A frame ends at its first line feed, wherever that stands and whatever
/// follows.
pub proof fn frames_end_at_the_first_line_feed(frame: Seq<u8>, rest: Seq<u8>)
    requires
        forall|k: int| 0 <= k < frame.len() ==> #[trigger] frame[k] != 0x0a,
    ensures
        line_feed(frame + seq![0x0au8] + rest) == frame.len(),
        line_feed(frame) == frame.len(),
{
    let all = frame + seq![0x0au8] + rest;
    assert forall|k: int| 0 <= k < frame.len() implies #[trigger] all[k] != 0x0a by {
        assert(all[k] == frame[k]);
    }
    lemma_line_feed(all, frame.len() as int);
    lemma_line_feed(frame, frame.len() as int);
}

/// The capabilities of a sidecar are exact where it offers all that are
/// required, nothing else, and none twice, in whichever order.
pub proof fn capabilities_are_all_and_no_more(offered: Seq<Seq<char>>, name: Seq<char>)
    requires
        capabilities_exact(offered),
    ensures
        name == "bounded-ndjson"@ || name == "correlated-requests"@ || name
            == "correlated-server-requests"@ || name == "epoch-on-restart"@ || name
            == "no-mutation-replay"@ || name == "priority-control-lane"@ || name
            == "stable-domain-jsonrpc"@ <==> offered.contains(name),
        offered.no_duplicates(),
{
    let required = required_capabilities();
    assert(required[0] == "bounded-ndjson"@);
    assert(required[1] == "correlated-requests"@);
    assert(required[2] == "correlated-server-requests"@);
    assert(required[3] == "epoch-on-restart"@);
    assert(required[4] == "no-mutation-replay"@);
    assert(required[5] == "priority-control-lane"@);
    assert(required[6] == "stable-domain-jsonrpc"@);
    assert(offered.contains(name) <==> required.contains(name));
}

/// A sidecar inherits where programs lie and where the user's home is, each
/// with its own value, and nothing else.
pub proof fn little_is_inherited<V>(path: V, home: V)
    ensures
        inherited(Some(path), Some(home)) == seq![("PATH"@, path), ("HOME"@, home)],
        inherited(Some(path), None) == seq![("PATH"@, path)],
        inherited(None, Some(home)) == seq![("HOME"@, home)],
        inherited::<V>(None, None).len() == 0,
{
    assert(inherited(Some(path), Some(home)) =~= seq![("PATH"@, path), ("HOME"@, home)]);
    assert(inherited(None, Some(home)) =~= seq![("HOME"@, home)]);
}

/// A configuration's answer counts only under its own number, and its data only
/// where adapter and upstream are one release with all capabilities.
pub proof fn configuration_answers_are_coherent(
    response: ConfigureResponse,
    id: Seq<char>,
    data: ConfigureData,
    hello: HelloFrame,
    max_frame_bytes: usize,
)
    ensures
        answers_configuration(response, id) <==> response.id@ == id && response.kind@ == "response"@
            && response.v == CODEX_SIDECAR_VERSION,
        data_coherent(data) ==> data.adapter_version@ == data.upstream_version@ && names_release(
            data.upstream_version@,
        ) && capabilities_exact(text_views(data.capabilities@)),
        hello_expected(hello, max_frame_bytes) ==> hello.max_frame_bytes == max_frame_bytes
            && hello.v == CODEX_SIDECAR_VERSION && hello.protocol@ == CODEX_SIDECAR_PROTOCOL@
            && hello.kind@ == "hello"@ && capabilities_exact(text_views(hello.capabilities@)),
{
}

/// A sidecar's settings are valid exactly within all bounds, each of which is
/// more than nothing, with both paths and without an argument that is empty,
/// too long or holds a null.
pub proof fn sidecar_settings_are_bounded(config: CodexSidecarConfig, version: Seq<char>)
    ensures
        sidecar_config_valid(config) <==> config.node_binary@.len() > 0 && config.entrypoint@.len()
            > 0 && !(config.codex_binary is Some && config.codex_binary->Some_0@.len() == 0)
            && config.codex_arguments@.len() <= 8 && (forall|k: int|
            0 <= k < config.codex_arguments@.len() ==> (
            #[trigger] config.codex_arguments@[k])@.len() > 0 && byte_len(
                config.codex_arguments@[k]@,
            ) <= 1024 && !config.codex_arguments@[k]@.contains('\0')) && 1
            <= config.max_frame_bytes <= CODEX_SIDECAR_FRAME_BYTES && 1 <= config.max_pending
            <= CODEX_SIDECAR_PENDING_CAPACITY && 1 <= config.handshake_timeout_ms
            <= CODEX_SIDECAR_HANDSHAKE_TIMEOUT_MS && 1 <= config.shutdown_grace_ms
            <= CODEX_SIDECAR_SHUTDOWN_GRACE_MS,
        sidecar_supports(version) <==> version == "0.149.0"@ || version == "0.151.0"@,
{
}

/// What a bootstrap comes to where it did not succeed.
pub open spec fn bootstrap_failed(
    outcome: BootstrapOutcome,
    handshake_timeout_ms: u64,
    cleaned: bool,
) -> Option<ProcessError> {
    match outcome {
        BootstrapOutcome::Configured(_) => None,
        BootstrapOutcome::MissingPipes => Some(
            if cleaned {
                ProcessError::StdioUnavailable("sidecar stdio")
            } else {
                ProcessError::ProcessTreeCleanupUnconfirmed
            },
        ),
        BootstrapOutcome::HandshakeFailed(error) => Some(
            if cleaned {
                error
            } else {
                ProcessError::ProcessTreeCleanupUnconfirmed
            },
        ),
        BootstrapOutcome::HandshakeTimedOut => Some(
            if cleaned {
                ProcessError::SidecarHandshakeTimeout { millis: handshake_timeout_ms }
            } else {
                ProcessError::ProcessTreeCleanupUnconfirmed
            },
        ),
        BootstrapOutcome::NoLeader => Some(ProcessError::ProcessTreeCleanupUnconfirmed),
    }
}

/// A bootstrap succeeds exactly where the sidecar was configured. Where it
/// failed and the process tree may still be there, that is what is said;
/// otherwise the failure itself.
pub proof fn unclean_bootstraps_say_so(
    outcome: BootstrapOutcome,
    millis: u64,
    cleaned: bool,
    error: ProcessError,
)
    ensures
        bootstrap_failed(outcome, millis, cleaned) is None <==> outcome is Configured,
        !cleaned && !(outcome is Configured) ==> bootstrap_failed(outcome, millis, cleaned) == Some(
            ProcessError::ProcessTreeCleanupUnconfirmed,
        ),
        bootstrap_failed(BootstrapOutcome::HandshakeFailed(error), millis, true) == Some(error),
        bootstrap_failed(BootstrapOutcome::HandshakeTimedOut, millis, true) == Some(
            ProcessError::SidecarHandshakeTimeout { millis },
        ),
        bootstrap_failed(BootstrapOutcome::NoLeader, millis, true) == Some(
            ProcessError::ProcessTreeCleanupUnconfirmed,
        ),
{
}

/// Whether a sidecar's answer to its configuration gives a version, or which
/// failure it is.
pub open spec fn configured_by(
    response: ConfigureResponse,
    id: Seq<char>,
    version: Result<Version, ProcessError>,
) -> bool {
    let taken = answers_configuration(response, id) && response.ok && response.data is Some
        && response.error is None && data_coherent(response.data->Some_0);
    let refused = answers_configuration(response, id) && !response.ok && response.data is None
        && response.error is Some;
    match version {
        Ok(held) => taken && sidecar_supports(response.data->Some_0.upstream_version@)
            && response.data->Some_0.upstream_version@ == release_text(
            held@.major,
            held@.minor,
            held@.patch,
        ),
        Err(ProcessError::UnsupportedSidecarVersion { found }) => taken && !sidecar_supports(
            response.data->Some_0.upstream_version@,
        ) && response.data->Some_0.upstream_version@ == release_text(
            found@.major,
            found@.minor,
            found@.patch,
        ),
        Err(ProcessError::SidecarBootstrapRejected { failure }) => refused && response.error
            == Some(failure),
        Err(error) => error is SidecarProtocol && !taken && !refused,
    }
}

/// A sidecar is taken with the version that it names, and only under the number
/// that was asked, in an answer that says yes and holds data that agree; its own
/// refusal is handed on as it is, and everything else breaks the contract.
pub proof fn sidecars_are_taken_at_their_word(
    response: ConfigureResponse,
    id: Seq<char>,
    version: Result<Version, ProcessError>,
)
    requires
        configured_by(response, id, version),
    ensures
        response.id@ != id ==> version is Err && version->Err_0 is SidecarProtocol,
        version matches Ok(held) ==> response.ok && response.data is Some
            && response.data->Some_0.adapter_version@ == release_text(
            held@.major,
            held@.minor,
            held@.patch,
        ) && sidecar_supports(release_text(held@.major, held@.minor, held@.patch)),
        version matches Err(ProcessError::SidecarBootstrapRejected { failure }) ==> !response.ok
            && response.error == Some(failure),
        answers_configuration(response, id) && !response.ok && response.data is None
            && response.error is Some ==> version == Err::<Version, ProcessError>(
            ProcessError::SidecarBootstrapRejected { failure: response.error->Some_0 },
        ),
        answers_configuration(response, id) && response.ok && response.error is None && response.data
            is Some && data_coherent(response.data->Some_0) && sidecar_supports(
            response.data->Some_0.upstream_version@,
        ) ==> version is Ok,
{
}

/// What more bytes lead to: what is buffered after them, and the frame that they
/// complete, with how many of them it took; nothing where they are too many.
pub open spec fn bytes_fed(buffered: Seq<u8>, maximum: int, available: Seq<u8>) -> Option<
    (Seq<u8>, Option<(Seq<u8>, int)>),
> {
    let payload = buffered + available.subrange(0, line_feed(available));
    if payload.len() > maximum {
        None
    } else if line_feed(available) < available.len() {
        Some(
            (
                Seq::empty(),
                Some(
                    (
                        crate::codex::protocol::without_last(payload, 0x0d),
                        line_feed(available) + 1,
                    ),
                ),
            ),
        )
    } else {
        Some((payload, None))
    }
}

/// It does not matter in which pieces a frame comes: a piece without a line feed
/// and the rest after it give the frame that both give at once.
pub proof fn frames_come_in_pieces(
    buffered: Seq<u8>,
    maximum: int,
    piece: Seq<u8>,
    frame: Seq<u8>,
    rest: Seq<u8>,
)
    requires
        forall|k: int| 0 <= k < piece.len() ==> #[trigger] piece[k] != 0x0a,
        forall|k: int| 0 <= k < frame.len() ==> #[trigger] frame[k] != 0x0a,
        buffered.len() + piece.len() + frame.len() <= maximum,
    ensures
        ({
            let tail = frame + seq![0x0au8] + rest;
            let whole = crate::codex::protocol::without_last(buffered + piece + frame, 0x0d);
            let half = bytes_fed(buffered, maximum, piece);
            &&& half == Some((buffered + piece, None::<(Seq<u8>, int)>))
            &&& bytes_fed(buffered + piece, maximum, tail) == Some(
                (Seq::<u8>::empty(), Some((whole, frame.len() as int + 1))),
            )
            &&& bytes_fed(buffered, maximum, piece + tail) == Some(
                (Seq::<u8>::empty(), Some((whole, piece.len() as int + frame.len() as int + 1))),
            )
        }),
{
    let tail = frame + seq![0x0au8] + rest;
    frames_end_at_the_first_line_feed(piece, rest);
    frames_end_at_the_first_line_feed(frame, rest);
    let longer = piece + frame;
    assert forall|k: int| 0 <= k < longer.len() implies #[trigger] longer[k] != 0x0a by {
        if k < piece.len() {
            assert(longer[k] == piece[k]);
        } else {
            assert(longer[k] == frame[k - piece.len()]);
        }
    }
    frames_end_at_the_first_line_feed(longer, rest);
    assert(piece + tail =~= longer + seq![0x0au8] + rest);
    assert(piece.subrange(0, piece.len() as int) =~= piece);
    assert(tail.subrange(0, frame.len() as int) =~= frame);
    assert((piece + tail).subrange(0, longer.len() as int) =~= longer);
    assert(buffered + longer =~= buffered + piece + frame);
}

} // verus!
