//! The local Codex process: which version it may have, and when its process
//! tree counts as gone.
use vstd::prelude::*;
use vstd::utf8::encode_utf8;

use crate::codex::compat::adapter_for;
use crate::codex::compat::WireAdapter;
use crate::limits::MAX_VERSION_OUTPUT_BYTES;
use crate::limits::PROCESS_GROUP_POLL_INTERVAL_MS;
use crate::limits::PROCESS_REAP_MINIMUM_MS;
use crate::limits::VERSION_PROBE_CLEANUP_RESERVE_MS;
use crate::limits::VERSION_PROBE_TIMEOUT_MS;
use crate::outside::utf8_text;
use crate::text::append_decimal;
use crate::text::append_signed;
use crate::text::append_span;
use crate::text::decimal;
use crate::text::lemma_utf8_concat;
use crate::text::lemma_utf8_injective;
use crate::text::same_bytes;
use crate::text::same_text;
use crate::text::signed_decimal;
use crate::text::span_text;
use crate::version::is_release;
use crate::version::names_release;
use crate::version::parse_release;
use crate::version::release;
use crate::version::release_text;
use crate::version::release_text_names_one_release;
use crate::version::version_text;
use crate::version::Version;
use crate::version::VersionView;
use vstd::string::StringExecFns;

verus! {

/// Static, content-free bootstrap failures emitted by the protocol sidecar.
#[derive(Clone, Copy, Debug, PartialEq, Eq, Structural)]
pub enum SidecarBootstrapFailure {
    InvalidConfiguration,
    PinnedCodexMissing,
    VersionProbeSpawnFailed,
    VersionProbeSpawnUnavailable,
    VersionProbeTimeout,
    VersionProbeIo,
    VersionProbeFailed,
    VersionOutputTooLarge,
    UnsupportedUpstreamVersion,
    UpstreamSpawnFailed,
    UpstreamSpawnUnavailable,
    SidecarFailed,
}

/// The wire spelling of a failure.
pub open spec fn bootstrap_failure_name(failure: SidecarBootstrapFailure) -> Seq<char> {
    match failure {
        SidecarBootstrapFailure::InvalidConfiguration => "invalid_configuration"@,
        SidecarBootstrapFailure::PinnedCodexMissing => "pinned_codex_missing"@,
        SidecarBootstrapFailure::VersionProbeSpawnFailed => "version_probe_spawn_failed"@,
        SidecarBootstrapFailure::VersionProbeSpawnUnavailable => "version_probe_spawn_unavailable"@,
        SidecarBootstrapFailure::VersionProbeTimeout => "version_probe_timeout"@,
        SidecarBootstrapFailure::VersionProbeIo => "version_probe_io"@,
        SidecarBootstrapFailure::VersionProbeFailed => "version_probe_failed"@,
        SidecarBootstrapFailure::VersionOutputTooLarge => "version_output_too_large"@,
        SidecarBootstrapFailure::UnsupportedUpstreamVersion => "unsupported_upstream_version"@,
        SidecarBootstrapFailure::UpstreamSpawnFailed => "upstream_spawn_failed"@,
        SidecarBootstrapFailure::UpstreamSpawnUnavailable => "upstream_spawn_unavailable"@,
        SidecarBootstrapFailure::SidecarFailed => "sidecar_failed"@,
    }
}

impl SidecarBootstrapFailure {
    /// The failure of this wire spelling; any other spelling is no failure that
    /// the bridge knows.
    pub fn from_wire(name: &str) -> (failure: Option<SidecarBootstrapFailure>)
        ensures
            failure matches Some(held) ==> bootstrap_failure_name(held) == name@,
            failure is None ==> forall|held: SidecarBootstrapFailure|
                #[trigger] bootstrap_failure_name(held) != name@,
    {
        if same_text(name, "invalid_configuration") {
            Some(SidecarBootstrapFailure::InvalidConfiguration)
        } else if same_text(name, "pinned_codex_missing") {
            Some(SidecarBootstrapFailure::PinnedCodexMissing)
        } else if same_text(name, "version_probe_spawn_failed") {
            Some(SidecarBootstrapFailure::VersionProbeSpawnFailed)
        } else if same_text(name, "version_probe_spawn_unavailable") {
            Some(SidecarBootstrapFailure::VersionProbeSpawnUnavailable)
        } else if same_text(name, "version_probe_timeout") {
            Some(SidecarBootstrapFailure::VersionProbeTimeout)
        } else if same_text(name, "version_probe_io") {
            Some(SidecarBootstrapFailure::VersionProbeIo)
        } else if same_text(name, "version_probe_failed") {
            Some(SidecarBootstrapFailure::VersionProbeFailed)
        } else if same_text(name, "version_output_too_large") {
            Some(SidecarBootstrapFailure::VersionOutputTooLarge)
        } else if same_text(name, "unsupported_upstream_version") {
            Some(SidecarBootstrapFailure::UnsupportedUpstreamVersion)
        } else if same_text(name, "upstream_spawn_failed") {
            Some(SidecarBootstrapFailure::UpstreamSpawnFailed)
        } else if same_text(name, "upstream_spawn_unavailable") {
            Some(SidecarBootstrapFailure::UpstreamSpawnUnavailable)
        } else if same_text(name, "sidecar_failed") {
            Some(SidecarBootstrapFailure::SidecarFailed)
        } else {
            None
        }
    }

    /// Whether the same start may succeed later: resources were short, or the
    /// probe did not finish.
    pub fn is_retryable(self) -> (retryable: bool)
        ensures
            retryable == (self == SidecarBootstrapFailure::VersionProbeSpawnUnavailable || self
                == SidecarBootstrapFailure::VersionProbeTimeout || self
                == SidecarBootstrapFailure::VersionProbeIo || self
                == SidecarBootstrapFailure::UpstreamSpawnUnavailable),
    {
        matches!(
            self,
            SidecarBootstrapFailure::VersionProbeSpawnUnavailable
            | SidecarBootstrapFailure::VersionProbeTimeout | SidecarBootstrapFailure::VersionProbeIo
            | SidecarBootstrapFailure::UpstreamSpawnUnavailable
        )
    }
}

/// Content-free classification of a failure to start the sidecar itself.
#[derive(Clone, Copy, Debug, PartialEq, Eq, Structural)]
pub enum SidecarSpawnFailure {
    ResourceUnavailable,
    Failed,
}

/// The kind of an operating-system failure, as far as it matters.
#[derive(Clone, Copy, Debug, PartialEq, Eq, Structural)]
pub enum SpawnErrorKind {
    WouldBlock,
    Interrupted,
    TimedOut,
    OutOfMemory,
    Other,
}

/// The operating-system codes that say that a resource is short at present.
#[derive(Clone, Copy, Debug, PartialEq, Eq, Structural)]
pub struct ShortageCodes {
    pub again: i32,
    pub process_files: i32,
    pub system_files: i32,
    pub memory: i32,
}

/// Whether a code says that a resource is short.
pub open spec fn is_shortage(code: Option<i32>, codes: ShortageCodes) -> bool {
    code matches Some(code) && (code == codes.again || code == codes.process_files || code
        == codes.system_files || code == codes.memory)
}

/// Whether an operating-system code says that a resource is short.
pub fn spawn_raw_os_error_is_retryable(code: Option<i32>, codes: ShortageCodes) -> (retryable: bool)
    ensures
        retryable == is_shortage(code, codes),
{
    match code {
        Some(code) => code == codes.again || code == codes.process_files || code
            == codes.system_files || code == codes.memory,
        None => false,
    }
}

/// Whether a failed start may succeed later.
pub fn spawn_failure_is_retryable(
    kind: SpawnErrorKind,
    code: Option<i32>,
    codes: ShortageCodes,
) -> (retryable: bool)
    ensures
        retryable == (kind != SpawnErrorKind::Other || is_shortage(code, codes)),
{
    if !matches!(kind, SpawnErrorKind::Other) {
        return true;
    }
    spawn_raw_os_error_is_retryable(code, codes)
}

impl SidecarSpawnFailure {
    pub fn classify(kind: SpawnErrorKind, code: Option<i32>, codes: ShortageCodes) -> (failure:
        SidecarSpawnFailure)
        ensures
            failure == if kind != SpawnErrorKind::Other || is_shortage(code, codes) {
                SidecarSpawnFailure::ResourceUnavailable
            } else {
                SidecarSpawnFailure::Failed
            },
    {
        if spawn_failure_is_retryable(kind, code, codes) {
            SidecarSpawnFailure::ResourceUnavailable
        } else {
            SidecarSpawnFailure::Failed
        }
    }

    pub fn is_retryable(self) -> (retryable: bool)
        ensures
            retryable == (self == SidecarSpawnFailure::ResourceUnavailable),
    {
        matches!(self, SidecarSpawnFailure::ResourceUnavailable)
    }
}

/// How the local Codex is started.
#[derive(Clone, PartialEq, Eq)]
pub struct CodexProcessConfig {
    pub binary: String,
    pub codex_home: Option<String>,
}

impl Default for CodexProcessConfig {
    fn default() -> (config: CodexProcessConfig)
        ensures
            config.binary@ == "codex"@,
            config.codex_home is None,
    {
        CodexProcessConfig { binary: "codex".to_owned(), codex_home: None }
    }
}

/// How an ended process ended.
#[derive(Clone, Copy, Debug, PartialEq, Eq, Structural)]
pub struct ProcessExit {
    pub pid: u32,
    pub success: bool,
    pub code: Option<i32>,
    pub signal: Option<i32>,
}

/// Failures of a local process. Causes of the operating system stay outside.
pub enum ProcessError {
    InvalidCodexHome,
    Spawn { binary: String },
    SidecarSpawn { failure: SidecarSpawnFailure },
    ProbeTimeout { millis: u64 },
    ProbeFailed { code: Option<i32> },
    VersionOutputTooLong { stream: &'static str, maximum: usize },
    ProbeIo { stream: &'static str },
    InvalidVersionOutput,
    UnsupportedVersion { found: Version },
    InvalidSidecarConfig,
    SidecarHandshakeTimeout { millis: u64 },
    SidecarBootstrapIo,
    ProcessTreeCleanupUnconfirmed,
    SidecarBootstrapRejected { failure: SidecarBootstrapFailure },
    SidecarProtocol,
    UnsupportedSidecarVersion { found: Version },
    StdioAlreadyTaken,
    StdioUnavailable(&'static str),
    MissingProcessId,
    Wait,
    Terminate,
}

/// How an optional exit code is shown.
pub open spec fn code_text(code: Option<i32>) -> Seq<char> {
    match code {
        Some(code) => "Some("@ + signed_decimal(code as int) + ")"@,
        None => "None"@,
    }
}

/// What a failure is reported as.
pub open spec fn process_error_text(error: ProcessError) -> Seq<char> {
    match error {
        ProcessError::InvalidCodexHome => "configured Codex home must be an existing directory"@,
        ProcessError::Spawn { binary } => "unable to start Codex binary "@ + binary@,
        ProcessError::SidecarSpawn { .. } => "unable to start Codex protocol sidecar"@,
        ProcessError::ProbeTimeout { millis } => "Codex version probe timed out after "@
            + span_text(millis),
        ProcessError::ProbeFailed { code } => "Codex version probe exited unsuccessfully (code: "@
            + code_text(code) + ")"@,
        ProcessError::VersionOutputTooLong { stream, maximum } => "Codex version "@ + stream@
            + " exceeded the "@ + decimal(maximum as nat) + "-byte limit"@,
        ProcessError::ProbeIo { stream } => "unable to read Codex version "@ + stream@,
        ProcessError::InvalidVersionOutput =>
            "Codex version output must exactly match `codex-cli X.Y.Z`"@,
        ProcessError::UnsupportedVersion { found } => "Codex "@ + version_text(found@)
            + " is unsupported; expected an exact reviewed version"@,
        ProcessError::InvalidSidecarConfig => "Codex protocol sidecar configuration is invalid"@,
        ProcessError::SidecarHandshakeTimeout { millis } =>
            "Codex protocol sidecar handshake timed out after "@ + span_text(millis),
        ProcessError::SidecarBootstrapIo => "Codex protocol sidecar bootstrap I/O failed"@,
        ProcessError::ProcessTreeCleanupUnconfirmed =>
            "Codex owned process-tree cleanup could not be confirmed"@,
        ProcessError::SidecarBootstrapRejected { .. } =>
            "Codex protocol sidecar rejected bootstrap"@,
        ProcessError::SidecarProtocol =>
            "Codex protocol sidecar violated its local wire contract"@,
        ProcessError::UnsupportedSidecarVersion { found } => "Codex "@ + version_text(found@)
            + " is unsupported by the configured protocol sidecar"@,
        ProcessError::StdioAlreadyTaken => "Codex app-server stdio was already transferred"@,
        ProcessError::StdioUnavailable(stream) => "Codex app-server did not expose piped "@
            + stream@,
        ProcessError::MissingProcessId => "Codex app-server did not expose a process id"@,
        ProcessError::Wait => "unable to wait for Codex app-server"@,
        ProcessError::Terminate => "unable to terminate Codex app-server"@,
    }
}

fn joined(head: &str, tail: &str) -> (text: String)
    ensures
        text@ == head@ + tail@,
{
    let mut text = head.to_owned();
    text.append(tail);
    text
}

fn append_code(text: &mut String, code: Option<i32>)
    ensures
        final(text)@ == old(text)@ + code_text(code),
{
    match code {
        Some(code) => {
            text.append("Some(");
            append_signed(text, code as i64);
            text.append(")");
            proof {
                assert(text@ =~= old(text)@ + code_text(Some(code)));
            }
        },
        None => {
            text.append("None");
        },
    }
}

impl ProcessError {
    /// What the failure is reported as.
    pub fn to_text(&self) -> (text: String)
        ensures
            text@ == process_error_text(*self),
    {
        match self {
            ProcessError::InvalidCodexHome =>
                "configured Codex home must be an existing directory".to_owned(),
            ProcessError::Spawn { binary } => joined(
                "unable to start Codex binary ",
                binary.as_str(),
            ),
            ProcessError::SidecarSpawn { .. } =>
                "unable to start Codex protocol sidecar".to_owned(),
            ProcessError::ProbeTimeout { millis } => {
                let mut text = "Codex version probe timed out after ".to_owned();
                append_span(&mut text, *millis);
                text
            },
            ProcessError::ProbeFailed { code } => {
                let mut text = "Codex version probe exited unsuccessfully (code: ".to_owned();
                append_code(&mut text, *code);
                text.append(")");
                text
            },
            ProcessError::VersionOutputTooLong { stream, maximum } => {
                let mut text = joined("Codex version ", stream);
                text.append(" exceeded the ");
                append_decimal(&mut text, *maximum as u64);
                text.append("-byte limit");
                text
            },
            ProcessError::ProbeIo { stream } => joined("unable to read Codex version ", stream),
            ProcessError::InvalidVersionOutput =>
                "Codex version output must exactly match `codex-cli X.Y.Z`".to_owned(),
            ProcessError::UnsupportedVersion { found } => {
                let mut text = joined("Codex ", found.to_text().as_str());
                text.append(" is unsupported; expected an exact reviewed version");
                text
            },
            ProcessError::InvalidSidecarConfig =>
                "Codex protocol sidecar configuration is invalid".to_owned(),
            ProcessError::SidecarHandshakeTimeout { millis } => {
                let mut text = "Codex protocol sidecar handshake timed out after ".to_owned();
                append_span(&mut text, *millis);
                text
            },
            ProcessError::SidecarBootstrapIo =>
                "Codex protocol sidecar bootstrap I/O failed".to_owned(),
            ProcessError::ProcessTreeCleanupUnconfirmed =>
                "Codex owned process-tree cleanup could not be confirmed".to_owned(),
            ProcessError::SidecarBootstrapRejected { .. } =>
                "Codex protocol sidecar rejected bootstrap".to_owned(),
            ProcessError::SidecarProtocol =>
                "Codex protocol sidecar violated its local wire contract".to_owned(),
            ProcessError::UnsupportedSidecarVersion { found } => {
                let mut text = joined("Codex ", found.to_text().as_str());
                text.append(" is unsupported by the configured protocol sidecar");
                text
            },
            ProcessError::StdioAlreadyTaken =>
                "Codex app-server stdio was already transferred".to_owned(),
            ProcessError::StdioUnavailable(stream) => joined(
                "Codex app-server did not expose piped ",
                stream,
            ),
            ProcessError::MissingProcessId =>
                "Codex app-server did not expose a process id".to_owned(),
            ProcessError::Wait => "unable to wait for Codex app-server".to_owned(),
            ProcessError::Terminate => "unable to terminate Codex app-server".to_owned(),
        }
    }
}

/// Output of a probe, read up to a bound.
pub struct LimitedOutput {
    pub bytes: Vec<u8>,
    pub too_long: bool,
}

impl LimitedOutput {
    /// The bytes are within the bound.
    pub open spec fn wf(&self) -> bool {
        self.bytes@.len() <= MAX_VERSION_OUTPUT_BYTES
    }

    pub fn new() -> (output: LimitedOutput)
        ensures
            output.wf(),
            output.bytes@ == Seq::<u8>::empty(),
            !output.too_long,
    {
        LimitedOutput { bytes: Vec::new(), too_long: false }
    }

    /// Takes one more chunk in: what fits is kept, and that something did not
    /// fit is remembered.
    pub fn take_chunk(&mut self, chunk: &[u8])
        requires
            old(self).wf(),
        ensures
            output_kept(old(self).bytes@, old(self).too_long, chunk@) == (
                final(self).bytes@,
                final(self).too_long,
            ),
            final(self).wf(),
            ({
                let all = old(self).bytes@ + chunk@;
                &&& final(self).bytes@ == if all.len() <= MAX_VERSION_OUTPUT_BYTES {
                    all
                } else {
                    all.subrange(0, MAX_VERSION_OUTPUT_BYTES as int)
                }
                &&& final(self).too_long == (old(self).too_long || all.len()
                    > MAX_VERSION_OUTPUT_BYTES)
            }),
    {
        let remaining: usize = MAX_VERSION_OUTPUT_BYTES - self.bytes.len();
        let count: usize = chunk.len();
        let retained: usize = if count <= remaining {
            count
        } else {
            remaining
        };
        let kept = vstd::slice::slice_subrange(chunk, 0, retained);
        self.bytes.extend_from_slice(kept);
        if retained < count {
            self.too_long = true;
        }
        proof {
            let all = old(self).bytes@ + chunk@;
            assert(self.bytes@ =~= old(self).bytes@ + chunk@.subrange(0, retained as int));
            assert(self.bytes@ =~= if all.len() <= MAX_VERSION_OUTPUT_BYTES {
                all
            } else {
                all.subrange(0, MAX_VERSION_OUTPUT_BYTES as int)
            });
        }
    }
}

/// The bytes without one line end.
pub open spec fn without_line_end(bytes: Seq<u8>) -> Seq<u8> {
    if bytes.len() >= 2 && bytes[bytes.len() - 2] == 0x0d && bytes[bytes.len() - 1] == 0x0a {
        bytes.subrange(0, bytes.len() - 2)
    } else if bytes.len() >= 1 && bytes[bytes.len() - 1] == 0x0a {
        bytes.subrange(0, bytes.len() - 1)
    } else {
        bytes
    }
}

/// What a Codex of a release prints as its version, without the line end.
pub open spec fn version_line(major: u64, minor: u64, patch: u64) -> Seq<u8> {
    encode_utf8("codex-cli "@ + release_text(major, minor, patch))
}

/// Whether some bytes are the version output of a release.
pub open spec fn is_version_output(bytes: Seq<u8>) -> bool {
    exists|major: u64, minor: u64, patch: u64|
        without_line_end(bytes) == #[trigger] version_line(major, minor, patch)
}

pub(crate) fn strip_line_end(bytes: &[u8]) -> (rest: &[u8])
    ensures
        rest@ == without_line_end(bytes@),
{
    let length: usize = bytes.len();
    if length >= 2 && bytes[length - 2] == 0x0d && bytes[length - 1] == 0x0a {
        vstd::slice::slice_subrange(bytes, 0, length - 2)
    } else if length >= 1 && bytes[length - 1] == 0x0a {
        vstd::slice::slice_subrange(bytes, 0, length - 1)
    } else {
        bytes
    }
}

/// Reads the version that a Codex printed: exactly `codex-cli X.Y.Z`, with at
/// most one line end.
pub fn parse_version(bytes: &[u8]) -> (version: Result<Version, ProcessError>)
    ensures
        version is Ok == is_version_output(bytes@),
        match version {
            Ok(held) => is_release(held@) && without_line_end(bytes@)
                == version_line(held@.major, held@.minor, held@.patch),
            Err(error) => error is InvalidVersionOutput,
        },
{
    let line = strip_line_end(bytes);
    let prefix = "codex-cli ".as_bytes();
    let ghost head = encode_utf8("codex-cli "@);
    if line.len() < prefix.len() || !same_bytes(
        vstd::slice::slice_subrange(line, 0, prefix.len()),
        prefix,
    ) {
        proof {
            lemma_not_version_output(bytes@);
        }
        return Err(ProcessError::InvalidVersionOutput);
    }
    let rest = vstd::slice::slice_subrange(line, prefix.len(), line.len());
    proof {
        assert(line@ =~= head + rest@);
    }
    let text = match utf8_text(rest) {
        Some(text) => text,
        None => {
            proof {
                lemma_version_rest(bytes@, rest@);
            }
            return Err(ProcessError::InvalidVersionOutput);
        },
    };
    match parse_release(text) {
        Some(version) => {
            proof {
                lemma_utf8_concat("codex-cli "@, text@);
                assert(without_line_end(bytes@) == version_line(
                    version@.major,
                    version@.minor,
                    version@.patch,
                ));
            }
            Ok(version)
        },
        None => {
            proof {
                lemma_version_rest(bytes@, rest@);
                if is_version_output(bytes@) {
                    let (major, minor, patch): (u64, u64, u64) = choose|major: u64, minor: u64, patch: u64|
                        rest@ == encode_utf8(#[trigger] release_text(major, minor, patch));
                    lemma_utf8_injective(text@, release_text(major, minor, patch));
                    assert(names_release(text@));
                }
            }
            Err(ProcessError::InvalidVersionOutput)
        },
    }
}

proof fn lemma_not_version_output(bytes: Seq<u8>)
    requires
        ({
            let line = without_line_end(bytes);
            let head = encode_utf8("codex-cli "@);
            line.len() < head.len() || line.subrange(0, head.len() as int) != head
        }),
    ensures
        !is_version_output(bytes),
{
    if is_version_output(bytes) {
        let (major, minor, patch): (u64, u64, u64) = choose|major: u64, minor: u64, patch: u64|
            without_line_end(bytes) == #[trigger] version_line(major, minor, patch);
        lemma_utf8_concat("codex-cli "@, release_text(major, minor, patch));
        let line = without_line_end(bytes);
        let head = encode_utf8("codex-cli "@);
        assert(line.subrange(0, head.len() as int) =~= head);
    }
}

proof fn lemma_version_rest(bytes: Seq<u8>, rest: Seq<u8>)
    requires
        without_line_end(bytes) == encode_utf8("codex-cli "@) + rest,
    ensures
        is_version_output(bytes) ==> vstd::utf8::valid_utf8(rest) && exists|
            major: u64,
            minor: u64,
            patch: u64,
        |
            rest == encode_utf8(#[trigger] release_text(major, minor, patch)),
{
    if is_version_output(bytes) {
        let (major, minor, patch): (u64, u64, u64) = choose|major: u64, minor: u64, patch: u64|
            without_line_end(bytes) == #[trigger] version_line(major, minor, patch);
        let tail = release_text(major, minor, patch);
        lemma_utf8_concat("codex-cli "@, tail);
        let head = encode_utf8("codex-cli "@);
        assert(rest =~= (head + rest).subrange(head.len() as int, (head + rest).len() as int));
        assert(rest =~= encode_utf8(tail));
        vstd::utf8::encode_utf8_valid_utf8(tail);
    }
}

/// Whether a wire contract is known for a version.
pub open spec fn is_supported(version: VersionView) -> bool {
    adapter_for(version) is Some
}

/// Passes a version on for which a wire contract is known.
pub fn ensure_supported(version: Version) -> (supported: Result<Version, ProcessError>)
    ensures
        match supported {
            Ok(held) => is_supported(version@) && held == version,
            Err(ProcessError::UnsupportedVersion { found }) => !is_supported(version@) && found
                == version,
            Err(_) => false,
        },
{
    match WireAdapter::for_version(&version) {
        Some(_) => Ok(version),
        None => Err(ProcessError::UnsupportedVersion { found: version }),
    }
}

/// How a version probe went, up to the judgement of its output. `cleaned`
/// says that the process tree is known to be gone.
pub enum ProbeOutcome {
    MissingPipe { stream: &'static str, cleaned: bool },
    WaitFailed { cleaned: bool },
    TimedOut { cleaned: bool },
    NoLeader { cleaned: bool },
    GroupLingers { cleaned: bool },
    Collected {
        stdout: Option<LimitedOutput>,
        stderr: Option<LimitedOutput>,
        success: bool,
        code: Option<i32>,
    },
}

/// What is wrong with a probe before its output is read, if anything.
pub open spec fn probe_fault(outcome: ProbeOutcome) -> Option<ProcessError> {
    match outcome {
        ProbeOutcome::MissingPipe { stream, cleaned } => Some(
            if cleaned {
                ProcessError::StdioUnavailable(stream)
            } else {
                ProcessError::ProcessTreeCleanupUnconfirmed
            },
        ),
        ProbeOutcome::WaitFailed { cleaned } => Some(
            if cleaned {
                ProcessError::ProbeIo { stream: "process status" }
            } else {
                ProcessError::ProcessTreeCleanupUnconfirmed
            },
        ),
        ProbeOutcome::TimedOut { cleaned } => Some(
            if cleaned {
                ProcessError::ProbeTimeout { millis: VERSION_PROBE_TIMEOUT_MS }
            } else {
                ProcessError::ProcessTreeCleanupUnconfirmed
            },
        ),
        ProbeOutcome::NoLeader { .. } => Some(ProcessError::ProcessTreeCleanupUnconfirmed),
        ProbeOutcome::GroupLingers { cleaned } => Some(
            if cleaned {
                ProcessError::ProbeTimeout { millis: VERSION_PROBE_TIMEOUT_MS }
            } else {
                ProcessError::ProcessTreeCleanupUnconfirmed
            },
        ),
        ProbeOutcome::Collected { stdout, stderr, success, code } => match (stdout, stderr) {
            (None, _) => Some(ProcessError::ProbeIo { stream: "stdout" }),
            (_, None) => Some(ProcessError::ProbeIo { stream: "stderr" }),
            (Some(stdout), Some(stderr)) => if stdout.too_long {
                Some(
                    ProcessError::VersionOutputTooLong {
                        stream: "stdout",
                        maximum: MAX_VERSION_OUTPUT_BYTES,
                    },
                )
            } else if stderr.too_long {
                Some(
                    ProcessError::VersionOutputTooLong {
                        stream: "stderr",
                        maximum: MAX_VERSION_OUTPUT_BYTES,
                    },
                )
            } else if !success {
                Some(ProcessError::ProbeFailed { code })
            } else {
                None
            },
        },
    }
}

fn unless_unclean(cleaned: bool, error: ProcessError) -> (result: ProcessError)
    ensures
        result == if cleaned {
            error
        } else {
            ProcessError::ProcessTreeCleanupUnconfirmed
        },
{
    if cleaned {
        error
    } else {
        ProcessError::ProcessTreeCleanupUnconfirmed
    }
}

/// Judges a version probe: the version of a Codex that may be used, or why
/// there is none.
pub fn judge_probe(outcome: ProbeOutcome) -> (version: Result<Version, ProcessError>)
    ensures
        match probe_fault(outcome) {
            Some(fault) => version == Err::<Version, ProcessError>(fault),
            None => ({
                let printed = outcome->Collected_stdout->Some_0.bytes@;
                match version {
                    Ok(held) => is_version_output(printed) && is_release(held@) && is_supported(
                        held@,
                    ) && without_line_end(printed) == version_line(
                        held@.major,
                        held@.minor,
                        held@.patch,
                    ),
                    Err(ProcessError::UnsupportedVersion { found }) => is_version_output(printed)
                        && is_release(found@) && !is_supported(found@) && without_line_end(printed) == version_line(
                        found@.major,
                        found@.minor,
                        found@.patch,
                    ),
                    Err(error) => error is InvalidVersionOutput && !is_version_output(printed),
                }
            }),
        },
{
    match outcome {
        ProbeOutcome::MissingPipe { stream, cleaned } => Err(
            unless_unclean(cleaned, ProcessError::StdioUnavailable(stream)),
        ),
        ProbeOutcome::WaitFailed { cleaned } => Err(
            unless_unclean(cleaned, ProcessError::ProbeIo { stream: "process status" }),
        ),
        ProbeOutcome::TimedOut { cleaned } => Err(
            unless_unclean(
                cleaned,
                ProcessError::ProbeTimeout { millis: VERSION_PROBE_TIMEOUT_MS },
            ),
        ),
        ProbeOutcome::NoLeader { .. } => Err(ProcessError::ProcessTreeCleanupUnconfirmed),
        ProbeOutcome::GroupLingers { cleaned } => Err(
            unless_unclean(
                cleaned,
                ProcessError::ProbeTimeout { millis: VERSION_PROBE_TIMEOUT_MS },
            ),
        ),
        ProbeOutcome::Collected { stdout, stderr, success, code } => {
            let stdout = match stdout {
                Some(stdout) => stdout,
                None => {
                    return Err(ProcessError::ProbeIo { stream: "stdout" });
                },
            };
            let stderr = match stderr {
                Some(stderr) => stderr,
                None => {
                    return Err(ProcessError::ProbeIo { stream: "stderr" });
                },
            };
            if stdout.too_long {
                return Err(
                    ProcessError::VersionOutputTooLong {
                        stream: "stdout",
                        maximum: MAX_VERSION_OUTPUT_BYTES,
                    },
                );
            }
            if stderr.too_long {
                return Err(
                    ProcessError::VersionOutputTooLong {
                        stream: "stderr",
                        maximum: MAX_VERSION_OUTPUT_BYTES,
                    },
                );
            }
            if !success {
                return Err(ProcessError::ProbeFailed { code });
            }
            match parse_version(stdout.bytes.as_slice()) {
                Ok(version) => ensure_supported(version),
                Err(error) => Err(error),
            }
        },
    }
}

/// A printed line names one release: what a probe finds, supported or not, is
/// the release that was printed, and the two known ones are supported.
pub proof fn printed_releases_are_found(
    printed: Seq<u8>,
    major: u64,
    minor: u64,
    patch: u64,
    found: VersionView,
)
    requires
        without_line_end(printed) == version_line(major, minor, patch),
        without_line_end(printed) == version_line(found.major, found.minor, found.patch),
        is_release(found),
    ensures
        found == release(major, minor, patch),
        is_supported(found) <==> major == 0 && (minor == 146 || minor == 149) && patch == 0,
{
    let head = "codex-cli "@;
    let text = release_text(major, minor, patch);
    let other = release_text(found.major, found.minor, found.patch);
    lemma_utf8_injective(head + text, head + other);
    assert(text =~= (head + text).subrange(head.len() as int, (head + text).len() as int));
    assert(other =~= (head + other).subrange(head.len() as int, (head + other).len() as int));
    release_text_names_one_release(
        major,
        minor,
        patch,
        found.major,
        found.minor,
        found.patch,
    );
    assert(found.pre =~= Seq::empty());
    assert(found.build =~= Seq::empty());
}

/// The time up to which a probe collects output; the rest is for cleanup.
pub fn collection_deadline(probe_deadline: u64) -> (deadline: u64)
    ensures
        deadline == if probe_deadline >= VERSION_PROBE_CLEANUP_RESERVE_MS {
            (probe_deadline - VERSION_PROBE_CLEANUP_RESERVE_MS) as u64
        } else {
            probe_deadline
        },
{
    match probe_deadline.checked_sub(VERSION_PROBE_CLEANUP_RESERVE_MS) {
        Some(deadline) => deadline,
        None => probe_deadline,
    }
}

/// How long the end of a killed process tree is waited for: the grace, but no
/// less than the minimum.
pub fn reap_bound_ms(grace_ms: u64) -> (bound: u64)
    ensures
        bound == if grace_ms >= PROCESS_REAP_MINIMUM_MS {
            grace_ms
        } else {
            PROCESS_REAP_MINIMUM_MS
        },
{
    if grace_ms >= PROCESS_REAP_MINIMUM_MS {
        grace_ms
    } else {
        PROCESS_REAP_MINIMUM_MS
    }
}

/// What a signal-free look at a process group found.
#[derive(Clone, Copy, Debug, PartialEq, Eq, Structural)]
pub enum GroupProbe {
    /// No such group.
    Absent,
    /// The group can be signalled.
    Present,
    /// The group exists but may not be signalled.
    Denied,
    /// The look failed otherwise.
    Failed,
}

/// What follows from a look at a process group.
#[derive(Clone, Copy, Debug, PartialEq, Eq, Structural)]
pub enum GroupStep {
    Empty,
    LookAgainAt { at: u64 },
    TimedOut,
    Failed,
}

/// What follows from a look at a process group at a time. Only an absent group
/// counts as empty.
pub fn group_step(probe: GroupProbe, now: u64, deadline: u64) -> (step: GroupStep)
    ensures
        step == group_judged(probe, now, deadline),
        step == (match probe {
            GroupProbe::Absent => GroupStep::Empty,
            GroupProbe::Failed => GroupStep::Failed,
            _ => if now >= deadline {
                GroupStep::TimedOut
            } else if now + PROCESS_GROUP_POLL_INTERVAL_MS <= deadline {
                GroupStep::LookAgainAt { at: (now + PROCESS_GROUP_POLL_INTERVAL_MS) as u64 }
            } else {
                GroupStep::LookAgainAt { at: deadline }
            },
        }),
{
    match probe {
        GroupProbe::Absent => GroupStep::Empty,
        GroupProbe::Failed => GroupStep::Failed,
        _ => {
            if now >= deadline {
                return GroupStep::TimedOut;
            }
            let next: u64 = now.saturating_add(PROCESS_GROUP_POLL_INTERVAL_MS);
            if next <= deadline && now <= u64::MAX - PROCESS_GROUP_POLL_INTERVAL_MS {
                GroupStep::LookAgainAt { at: next }
            } else {
                GroupStep::LookAgainAt { at: deadline }
            }
        },
    }
}

/// How waiting for the leader of a process tree ended.
#[derive(Clone, Copy, Debug, PartialEq, Eq, Structural)]
pub enum Waited {
    Exited(ProcessExit),
    Failed,
    TimedOut,
}

/// An owned process tree: how its leader ended, and whether the tree is known
/// to be gone.
#[derive(Clone, Copy, Debug, PartialEq, Eq, Structural)]
pub struct OwnedTree {
    pub exit: Option<ProcessExit>,
    pub reaped: bool,
}

impl OwnedTree {
    /// A tree that was just started.
    pub fn new() -> (tree: OwnedTree)
        ensures
            tree == (OwnedTree { exit: None, reaped: false }),
    {
        OwnedTree { exit: None, reaped: false }
    }

    /// The answer that termination gives without doing anything, once the tree
    /// is gone.
    pub fn already_reaped(&self) -> (answer: Option<Result<ProcessExit, ProcessError>>)
        ensures
            answer is Some == self.reaped,
            self.reaped ==> answer == Some(
                match self.exit {
                    Some(exit) => Ok::<ProcessExit, ProcessError>(exit),
                    None => Err::<ProcessExit, ProcessError>(ProcessError::Wait),
                },
            ),
    {
        if self.reaped {
            Some(
                match self.exit {
                    Some(exit) => Ok(exit),
                    None => Err(ProcessError::Wait),
                },
            )
        } else {
            None
        }
    }

    /// Takes note of the leader's end; the first report counts.
    pub fn note_exit(&mut self, exit: ProcessExit) -> (counted: ProcessExit)
        ensures
            counted == (match old(self).exit {
                Some(earlier) => earlier,
                None => exit,
            }),
            *final(self) == (OwnedTree { exit: Some(counted), ..*old(self) }),
    {
        let counted = match self.exit {
            Some(earlier) => earlier,
            None => exit,
        };
        self.exit = Some(counted);
        counted
    }

    /// Judges a forced termination: the tree counts as gone only once its
    /// leader has ended and its group is known to be empty.
    pub fn judge_reap(&mut self, waited: Waited, group_empty: bool) -> (result: Result<
        ProcessExit,
        ProcessError,
    >)
        ensures
            reap_judged(*old(self), waited, group_empty) == (*final(self), result),
            match waited {
                Waited::Exited(exit) => ({
                    let counted = match old(self).exit {
                        Some(earlier) => earlier,
                        None => exit,
                    };
                    &&& *final(self) == (OwnedTree {
                        exit: Some(counted),
                        reaped: old(self).reaped || group_empty,
                    })
                    &&& result == if group_empty {
                        Ok::<ProcessExit, ProcessError>(counted)
                    } else {
                        Err::<ProcessExit, ProcessError>(ProcessError::Terminate)
                    }
                }),
                Waited::Failed => *final(self) == *old(self) && result == Err::<
                    ProcessExit,
                    ProcessError,
                >(ProcessError::Wait),
                Waited::TimedOut => *final(self) == *old(self) && result == Err::<
                    ProcessExit,
                    ProcessError,
                >(ProcessError::Terminate),
            },
    {
        match waited {
            Waited::Exited(exit) => {
                let counted = self.note_exit(exit);
                if !group_empty {
                    return Err(ProcessError::Terminate);
                }
                self.reaped = true;
                Ok(counted)
            },
            Waited::Failed => Err(ProcessError::Wait),
            Waited::TimedOut => Err(ProcessError::Terminate),
        }
    }
}

/// Which pipes of a process are still there to be transferred.
#[derive(Clone, Copy, Debug, PartialEq, Eq, Structural)]
pub struct Pipes {
    pub stdout: bool,
    pub stdin: bool,
    pub stderr: bool,
}

/// Checks that all three pipes can be transferred together.
///
/// # Errors
///
/// `StdioAlreadyTaken` where none is left, `StdioUnavailable` where some are.
pub fn check_pipes(pipes: Pipes) -> (checked: Result<(), ProcessError>)
    ensures
        checked == if pipes.stdout && pipes.stdin && pipes.stderr {
            Ok::<(), ProcessError>(())
        } else if !pipes.stdout && !pipes.stdin && !pipes.stderr {
            Err::<(), ProcessError>(ProcessError::StdioAlreadyTaken)
        } else {
            Err::<(), ProcessError>(ProcessError::StdioUnavailable("incomplete stdio set"))
        },
{
    if !pipes.stdout && !pipes.stdin && !pipes.stderr {
        return Err(ProcessError::StdioAlreadyTaken);
    }
    if !pipes.stdout || !pipes.stdin || !pipes.stderr {
        return Err(ProcessError::StdioUnavailable("incomplete stdio set"));
    }
    Ok(())
}

/// A version probe fails for its first fault: a process tree that may still be
/// there outweighs everything, an output that could not be read comes before
/// one that is too long, the output before the errors, and both before the
/// exit. A probe without a fault is judged by what it printed.
pub proof fn probes_fail_for_their_first_fault(
    stream: &'static str,
    cleaned: bool,
    stdout: Option<LimitedOutput>,
    stderr: Option<LimitedOutput>,
    success: bool,
    code: Option<i32>,
)
    ensures
        ({
            let pipe = probe_fault(ProbeOutcome::MissingPipe { stream, cleaned });
            let wait = probe_fault(ProbeOutcome::WaitFailed { cleaned });
            let late = probe_fault(ProbeOutcome::TimedOut { cleaned });
            let lingers = probe_fault(ProbeOutcome::GroupLingers { cleaned });
            let unclean = Some(ProcessError::ProcessTreeCleanupUnconfirmed);
            &&& !cleaned ==> pipe == unclean && wait == unclean && late == unclean && lingers
                == unclean
            &&& probe_fault(ProbeOutcome::NoLeader { cleaned }) == unclean
            &&& cleaned ==> pipe == Some(ProcessError::StdioUnavailable(stream))
            &&& cleaned ==> wait == Some(ProcessError::ProbeIo { stream: "process status" })
            &&& cleaned ==> late == Some(
                ProcessError::ProbeTimeout { millis: VERSION_PROBE_TIMEOUT_MS },
            ) && lingers == late
        }),
        ({
            let fault = probe_fault(ProbeOutcome::Collected { stdout, stderr, success, code });
            let read = stdout is Some && stderr is Some;
            &&& stdout is None ==> fault == Some(ProcessError::ProbeIo { stream: "stdout" })
            &&& stdout is Some && stderr is None ==> fault == Some(
                ProcessError::ProbeIo { stream: "stderr" },
            )
            &&& read && stdout->Some_0.too_long ==> fault == Some(
                ProcessError::VersionOutputTooLong {
                    stream: "stdout",
                    maximum: MAX_VERSION_OUTPUT_BYTES,
                },
            )
            &&& read && !stdout->Some_0.too_long && stderr->Some_0.too_long ==> fault == Some(
                ProcessError::VersionOutputTooLong {
                    stream: "stderr",
                    maximum: MAX_VERSION_OUTPUT_BYTES,
                },
            )
            &&& read && !stdout->Some_0.too_long && !stderr->Some_0.too_long && !success ==> fault
                == Some(ProcessError::ProbeFailed { code })
            &&& fault is None <==> read && !stdout->Some_0.too_long && !stderr->Some_0.too_long
                && success
        }),
{
}

/// One line end is taken off what was printed, and nothing else; a line that
/// names a release is taken with or without one.
pub proof fn one_line_end_is_taken_off(line: Seq<u8>, major: u64, minor: u64, patch: u64)
    ensures
        !(line.len() > 0 && line.last() == 0x0a) ==> without_line_end(line) == line,
        !(line.len() > 0 && line.last() == 0x0d) ==> without_line_end(line.push(0x0a)) == line,
        without_line_end(line.push(0x0d).push(0x0a)) == line,
        line == version_line(major, minor, patch) ==> is_version_output(line.push(0x0d).push(0x0a)),
{
    assert(line.push(0x0a).subrange(0, line.len() as int) =~= line);
    assert(line.push(0x0d).push(0x0a).subrange(0, line.len() as int) =~= line);
    if line.len() > 0 {
        assert(line.push(0x0a)[line.len() - 1] == line.last());
    }
    assert(without_line_end(line.push(0x0d).push(0x0a)) == line);
}

/// A failed start is a shortage exactly where the operating system's code is
/// one of the four that say so.
pub proof fn shortages_are_told_by_their_code(code: i32, codes: ShortageCodes)
    ensures
        is_shortage(Some(code), codes) <==> code == codes.again || code == codes.process_files
            || code == codes.system_files || code == codes.memory,
        !is_shortage(None, codes),
{
}

/// What a look at a process group leads to.
pub open spec fn group_judged(probe: GroupProbe, now: u64, deadline: u64) -> GroupStep {
    if probe == GroupProbe::Absent {
        GroupStep::Empty
    } else if probe == GroupProbe::Failed {
        GroupStep::Failed
    } else if deadline <= now {
        GroupStep::TimedOut
    } else if deadline - now >= PROCESS_GROUP_POLL_INTERVAL_MS {
        GroupStep::LookAgainAt { at: (now + PROCESS_GROUP_POLL_INTERVAL_MS) as u64 }
    } else {
        GroupStep::LookAgainAt { at: deadline }
    }
}

/// A group counts as empty only where there is none any more; one that is there,
/// or may not be looked at, is looked at again, soon but never past the
/// deadline, and given up at it.
pub proof fn lingering_groups_are_looked_at_again(probe: GroupProbe, now: u64, deadline: u64)
    ensures
        group_judged(probe, now, deadline) is Empty <==> probe == GroupProbe::Absent,
        group_judged(probe, now, deadline) is Failed <==> probe == GroupProbe::Failed,
        group_judged(probe, now, deadline) is TimedOut <==> (probe == GroupProbe::Present || probe
            == GroupProbe::Denied) && now >= deadline,
        group_judged(probe, now, deadline) matches GroupStep::LookAgainAt { at } ==> now < at
            <= deadline && at - now <= PROCESS_GROUP_POLL_INTERVAL_MS,
{
}

/// What is known of a process tree after a wait for it, and the result.
pub open spec fn reap_judged(tree: OwnedTree, waited: Waited, group_empty: bool) -> (
    OwnedTree,
    Result<ProcessExit, ProcessError>,
) {
    match waited {
        Waited::Failed => (tree, Err(ProcessError::Wait)),
        Waited::TimedOut => (tree, Err(ProcessError::Terminate)),
        Waited::Exited(exit) => {
            let first = if tree.exit is Some {
                tree.exit->Some_0
            } else {
                exit
            };
            (
                OwnedTree { exit: Some(first), reaped: tree.reaped || group_empty },
                if group_empty {
                    Ok(first)
                } else {
                    Err(ProcessError::Terminate)
                },
            )
        },
    }
}

/// The first exit that was seen is the one that counts, and a tree counts as
/// reaped only once its leader exited and its group is empty; it stays so.
pub proof fn the_first_exit_counts(
    tree: OwnedTree,
    exit: ProcessExit,
    again: ProcessExit,
    waited: Waited,
    group_empty: bool,
)
    ensures
        ({
            let (once, _) = reap_judged(tree, Waited::Exited(exit), false);
            let (twice, result) = reap_judged(once, Waited::Exited(again), true);
            &&& tree.exit is None ==> once.exit == Some(exit)
            &&& twice.exit == once.exit
            &&& twice.reaped
            &&& result == Ok::<ProcessExit, ProcessError>(once.exit->Some_0)
        }),
        reap_judged(tree, waited, group_empty).1 is Ok <==> waited is Exited && group_empty,
        reap_judged(tree, waited, group_empty).0.reaped <==> tree.reaped || (waited is Exited
            && group_empty),
        !(waited is Exited) ==> reap_judged(tree, waited, group_empty).0 == tree,
        waited is Failed ==> reap_judged(tree, waited, group_empty).1 == Err::<
            ProcessExit,
            ProcessError,
        >(ProcessError::Wait),
{
}

/// What is kept of an output after a piece of it, and whether it was too long.
pub open spec fn output_kept(kept: Seq<u8>, too_long: bool, piece: Seq<u8>) -> (Seq<u8>, bool) {
    let all = kept + piece;
    (
        if all.len() > MAX_VERSION_OUTPUT_BYTES {
            all.subrange(0, MAX_VERSION_OUTPUT_BYTES as int)
        } else {
            all
        },
        too_long || all.len() > MAX_VERSION_OUTPUT_BYTES,
    )
}

/// It does not matter in which pieces an output comes: the same beginning is
/// kept, and it is too long exactly where all of it is.
pub proof fn outputs_come_in_pieces(kept: Seq<u8>, first: Seq<u8>, second: Seq<u8>)
    requires
        kept.len() <= MAX_VERSION_OUTPUT_BYTES,
    ensures
        ({
            let (half, long) = output_kept(kept, false, first);
            let at_once = output_kept(kept, false, first + second);
            &&& output_kept(half, long, second) == at_once
            &&& at_once.1 <==> kept.len() + first.len() + second.len() > MAX_VERSION_OUTPUT_BYTES
            &&& !at_once.1 ==> at_once.0 == kept + first + second
        }),
{
    let (half, long) = output_kept(kept, false, first);
    let two = output_kept(half, long, second);
    let at_once = output_kept(kept, false, first + second);
    assert(kept + (first + second) =~= kept + first + second);
    assert(two.0 =~= at_once.0);
}

} // verus!
