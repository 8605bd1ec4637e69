//! Fail-closed configuration and one-shot admission gate for external
//! app-server endpoints.
use vstd::prelude::*;
use vstd::utf8::encode_utf8;

use crate::codex::compat::adapter_for;
use crate::codex::compat::SharedWireProfile;
use crate::codex::compat::WireAdapter;
use crate::codex::process::strip_line_end;
use crate::codex::process::without_line_end;
use crate::codex::process::CodexProcessConfig;
use crate::codex::protocol::encode_line;
use crate::codex::protocol::is_white;
use crate::codex::protocol::message_members;
use crate::codex::protocol::InboundMessage;
use crate::codex::protocol::MessageView;
use crate::codex::protocol::OutboundMessage;
use crate::codex::protocol::RequestId;
use crate::codex::protocol::RequestIdView;
use crate::codex::types::text_bytes;
use crate::codex::types::text_option;
use crate::json::json;
use crate::json::json_text;
use crate::json::Json;
use crate::limits::EXTERNAL_GATE_CANARY_ROWS;
use crate::limits::EXTERNAL_GATE_MAX_MESSAGES;
use crate::limits::EXTERNAL_GATE_MESSAGE_BYTES;
use crate::limits::EXTERNAL_GATE_TOTAL_BYTES;
use crate::limits::MAX_EXTERNAL_AUTH_TOKEN_BYTES;
use crate::limits::MAX_EXTERNAL_ENDPOINT_BYTES;
use crate::limits::MAX_EXTERNAL_SECRET_PATH_BYTES;
use crate::limits::MAX_JSONL_LINE_BYTES;
use crate::outside::parse_url;
use crate::outside::parsed_url;
use crate::outside::sha256;
use crate::outside::sha256_digest;
use crate::outside::utf8_text;
use crate::outside::UrlHost;
use crate::outside::UrlParts;
use crate::outside::UrlView;
use crate::text::append_hex;
use crate::text::ascii_chars;
use crate::text::byte_len;
use crate::text::hex;
use crate::text::is_trimmed;
use crate::text::lemma_ascii_text;
use crate::text::lemma_ascii_valid;
use crate::text::lemma_hex_injective;
use crate::text::lemma_utf8_concat;
use crate::text::same_text;
use crate::text::trimmed;
use crate::version::is_release;
use crate::version::lemma_release_characters;
use crate::version::names_release;
use crate::version::parse_release;
use crate::version::release_text;
use crate::version::version_text;
use crate::version::Version;
use crate::version::VersionView;

verus! {

/// What an external connection may do.
#[derive(Clone, Copy, Debug, PartialEq, Eq, Structural)]
pub enum ExternalCapabilityProfile {
    ObserveShared,
    ResumeShared,
    MutateShared,
    QueueShared,
}

/// The wire profile that a capability profile stands for.
pub open spec fn wire_profile(profile: ExternalCapabilityProfile) -> SharedWireProfile {
    match profile {
        ExternalCapabilityProfile::ObserveShared => SharedWireProfile::ObserveShared,
        ExternalCapabilityProfile::ResumeShared => SharedWireProfile::ResumeShared,
        ExternalCapabilityProfile::MutateShared => SharedWireProfile::MutateShared,
        ExternalCapabilityProfile::QueueShared => SharedWireProfile::QueueShared,
    }
}

/// The name of a profile in configuration and in endpoint labels.
pub open spec fn profile_name(profile: ExternalCapabilityProfile) -> Seq<char> {
    match profile {
        ExternalCapabilityProfile::ObserveShared => "observe_shared"@,
        ExternalCapabilityProfile::ResumeShared => "resume_shared"@,
        ExternalCapabilityProfile::MutateShared => "mutate_shared"@,
        ExternalCapabilityProfile::QueueShared => "queue_shared"@,
    }
}

impl ExternalCapabilityProfile {
    pub fn shared_wire_profile(self) -> (profile: SharedWireProfile)
        ensures
            profile == wire_profile(self),
    {
        match self {
            ExternalCapabilityProfile::ObserveShared => SharedWireProfile::ObserveShared,
            ExternalCapabilityProfile::ResumeShared => SharedWireProfile::ResumeShared,
            ExternalCapabilityProfile::MutateShared => SharedWireProfile::MutateShared,
            ExternalCapabilityProfile::QueueShared => SharedWireProfile::QueueShared,
        }
    }

    pub fn name(self) -> (name: &'static str)
        ensures
            name@ == profile_name(self),
    {
        match self {
            ExternalCapabilityProfile::ObserveShared => "observe_shared",
            ExternalCapabilityProfile::ResumeShared => "resume_shared",
            ExternalCapabilityProfile::MutateShared => "mutate_shared",
            ExternalCapabilityProfile::QueueShared => "queue_shared",
        }
    }
}

/// Where external credentials come from. They are referenced, never embedded.
#[derive(Clone, PartialEq, Eq)]
pub enum ExternalAuthentication {
    BearerTokenFile { path: String },
}

/// Exhaustive backend choice.
#[derive(Clone, PartialEq, Eq)]
pub enum CodexBackendConfig {
    SpawnedStdio { binary: String, codex_home: Option<String> },
    ExternalEndpoint {
        endpoint: String,
        expected_codex_version: String,
        capability_profile: ExternalCapabilityProfile,
        authentication: ExternalAuthentication,
    },
}

/// External endpoint settings.
#[derive(Clone, PartialEq, Eq)]
pub struct ExternalEndpointConfig {
    pub endpoint: String,
    pub expected_codex_version: String,
    pub capability_profile: ExternalCapabilityProfile,
    pub authentication: ExternalAuthentication,
}

/// Static, redacted external admission failures.
#[derive(Clone, Copy, Debug, PartialEq, Eq, Structural)]
pub enum ExternalGateError {
    InvalidEndpoint,
    InvalidExpectedVersion,
    UnsupportedCapabilityProfile,
    InvalidCredentialSource,
    CredentialUnavailable,
    AuthenticationRejected,
    ConnectionFailed,
    Timeout,
    ProtocolViolation,
    VersionMismatch,
    MissingCapability,
}

/// What an admission failure is reported as.
pub open spec fn gate_error_text(error: ExternalGateError) -> Seq<char> {
    match error {
        ExternalGateError::InvalidEndpoint =>
            "external Codex endpoint configuration is invalid or unsafe"@,
        ExternalGateError::InvalidExpectedVersion =>
            "external Codex expected version must be one exact promoted version"@,
        ExternalGateError::UnsupportedCapabilityProfile =>
            "external Codex capability profile is not promoted for the exact version"@,
        ExternalGateError::InvalidCredentialSource =>
            "external Codex credential source is invalid"@,
        ExternalGateError::CredentialUnavailable =>
            "external Codex credential is unavailable or invalid"@,
        ExternalGateError::AuthenticationRejected =>
            "external Codex endpoint rejected authentication"@,
        ExternalGateError::ConnectionFailed => "external Codex endpoint connection failed"@,
        ExternalGateError::Timeout => "external Codex endpoint gate timed out"@,
        ExternalGateError::ProtocolViolation =>
            "external Codex endpoint violated the promoted protocol contract"@,
        ExternalGateError::VersionMismatch =>
            "external Codex endpoint initialize metadata did not match the exact version"@,
        ExternalGateError::MissingCapability =>
            "external Codex endpoint is missing the required read-only capability"@,
    }
}

impl ExternalGateError {
    /// What the failure is reported as.
    pub fn to_text(self) -> (text: &'static str)
        ensures
            text@ == gate_error_text(self),
    {
        match self {
            ExternalGateError::InvalidEndpoint =>
                "external Codex endpoint configuration is invalid or unsafe",
            ExternalGateError::InvalidExpectedVersion =>
                "external Codex expected version must be one exact promoted version",
            ExternalGateError::UnsupportedCapabilityProfile =>
                "external Codex capability profile is not promoted for the exact version",
            ExternalGateError::InvalidCredentialSource =>
                "external Codex credential source is invalid",
            ExternalGateError::CredentialUnavailable =>
                "external Codex credential is unavailable or invalid",
            ExternalGateError::AuthenticationRejected =>
                "external Codex endpoint rejected authentication",
            ExternalGateError::ConnectionFailed => "external Codex endpoint connection failed",
            ExternalGateError::Timeout => "external Codex endpoint gate timed out",
            ExternalGateError::ProtocolViolation =>
                "external Codex endpoint violated the promoted protocol contract",
            ExternalGateError::VersionMismatch =>
                "external Codex endpoint initialize metadata did not match the exact version",
            ExternalGateError::MissingCapability =>
                "external Codex endpoint is missing the required read-only capability",
        }
    }
}

/// Whether a byte is an ASCII control character.
pub open spec fn is_control(byte: u8) -> bool {
    byte < 0x20 || byte == 0x7f
}

/// Whether a text may be an endpoint before it is parsed: not empty, within
/// the bound, without white space at its ends and without control characters.
pub open spec fn endpoint_shape(raw: Seq<char>) -> bool {
    &&& raw.len() > 0
    &&& byte_len(raw) <= MAX_EXTERNAL_ENDPOINT_BYTES
    &&& trimmed(raw)
    &&& forall|k: int|
        0 <= k < encode_utf8(raw).len() ==> !is_control(#[trigger] encode_utf8(raw)[k])
}

/// Whether a host is a literal loopback address.
pub open spec fn is_loopback(host: Option<UrlHost>) -> bool {
    match host {
        Some(UrlHost::Ipv4(bits)) => bits / 0x100_0000 == 127,
        Some(UrlHost::Ipv6(bits)) => bits == 1,
        _ => false,
    }
}

/// Whether a parsed URL may be an endpoint: it names nothing but a host, a
/// port and a path, and is either encrypted or on a literal loopback address.
pub open spec fn endpoint_allowed(url: UrlView) -> bool {
    &&& url.username.len() == 0
    &&& !url.has_password
    &&& !url.has_query
    &&& !url.has_fragment
    &&& url.host is Some
    &&& url.port != Some(0u16)
    &&& url.scheme == "wss"@ || (url.scheme == "ws"@ && is_loopback(url.host))
}

fn literal_loopback(host: Option<UrlHost>) -> (held: bool)
    ensures
        held == is_loopback(host),
{
    match host {
        Some(UrlHost::Ipv4(bits)) => bits / 0x100_0000 == 127,
        Some(UrlHost::Ipv6(bits)) => bits == 1,
        _ => false,
    }
}

/// Judges a parsed URL as an endpoint.
pub fn check_endpoint(url: &UrlParts) -> (allowed: bool)
    ensures
        allowed == endpoint_allowed(url@),
{
    let named_zero = match url.port {
        Some(port) => port == 0,
        None => false,
    };
    if !url.username.as_str().is_empty() || url.has_password || url.has_query || url.has_fragment
        || url.host.is_none() || named_zero {
        return false;
    }
    same_text(url.scheme.as_str(), "wss") || (same_text(url.scheme.as_str(), "ws")
        && literal_loopback(url.host))
}

fn has_control(bytes: &[u8]) -> (found: bool)
    ensures
        found == exists|k: int| 0 <= k < bytes@.len() && is_control(#[trigger] bytes@[k]),
{
    let mut at: usize = 0;
    while at < bytes.len()
        invariant
            at <= bytes@.len(),
            forall|k: int| 0 <= k < at ==> !is_control(#[trigger] bytes@[k]),
        decreases bytes@.len() - at,
    {
        if bytes[at] < 0x20 || bytes[at] == 0x7f {
            proof {
                assert(is_control(bytes@[at as int]));
            }
            return true;
        }
        at += 1;
    }
    false
}

/// Checks an endpoint text and reads it.
///
/// # Errors
///
/// `InvalidEndpoint` for a text of the wrong shape, one that is no URL, and a
/// URL that may not be an endpoint.
pub fn validate_endpoint(raw: &str) -> (endpoint: Result<UrlParts, ExternalGateError>)
    ensures
        match endpoint {
            Ok(url) => endpoint_shape(raw@) && parsed_url(raw@) == Some(url@) && endpoint_allowed(
                url@,
            ),
            Err(error) => error == ExternalGateError::InvalidEndpoint && !(endpoint_shape(raw@) && (
            parsed_url(raw@) matches Some(url) && endpoint_allowed(url))),
        },
{
    if raw.is_empty() || text_bytes(raw) > MAX_EXTERNAL_ENDPOINT_BYTES || !is_trimmed(raw)
        || has_control(raw.as_bytes()) {
        return Err(ExternalGateError::InvalidEndpoint);
    }
    match parse_url(raw) {
        Some(url) => {
            if check_endpoint(&url) {
                Ok(url)
            } else {
                Err(ExternalGateError::InvalidEndpoint)
            }
        },
        None => Err(ExternalGateError::InvalidEndpoint),
    }
}

/// Whether a text is an exact version of at most thirty-two bytes.
pub open spec fn exact_version(raw: Seq<char>) -> bool {
    byte_len(raw) <= 32 && names_release(raw)
}

/// Reads a text that is one exact version.
///
/// # Errors
///
/// `InvalidExpectedVersion` for any other text.
pub fn parse_exact_version(raw: &str) -> (version: Result<Version, ExternalGateError>)
    ensures
        match version {
            Ok(held) => exact_version(raw@) && is_release(held@) && raw@ == release_text(
                held@.major,
                held@.minor,
                held@.patch,
            ),
            Err(error) => error == ExternalGateError::InvalidExpectedVersion && !exact_version(
                raw@,
            ),
        },
{
    if text_bytes(raw) > 32 {
        return Err(ExternalGateError::InvalidExpectedVersion);
    }
    match parse_release(raw) {
        Some(version) => Ok(version),
        None => Err(ExternalGateError::InvalidExpectedVersion),
    }
}

/// Whether a path steps up: one of its parts, behind a slash, is two dots.
pub open spec fn steps_up(path: Seq<u8>) -> bool {
    exists|at: int| #[trigger] step_up_at(path, at)
}

/// Whether the part behind the slash at a place is two dots.
pub open spec fn step_up_at(path: Seq<u8>, at: int) -> bool {
    0 <= at && at + 2 < path.len() && path[at] == 0x2f && path[at + 1] == 0x2e && path[at + 2]
        == 0x2e && (at + 3 == path.len() || path[at + 3] == 0x2f)
}

/// Whether a path may name a credential file: absolute, within the bound, and
/// without a part that steps up.
pub open spec fn secret_path_allowed(path: Seq<char>) -> bool {
    let bytes = encode_utf8(path);
    bytes.len() > 0 && bytes[0] == 0x2f && bytes.len() <= MAX_EXTERNAL_SECRET_PATH_BYTES
        && !steps_up(bytes)
}

/// Whether a path may name a credential file.
pub fn valid_secret_path(path: &str) -> (valid: bool)
    ensures
        valid == secret_path_allowed(path@),
{
    let bytes = path.as_bytes();
    if bytes.len() == 0 || bytes[0] != 0x2f || bytes.len() > MAX_EXTERNAL_SECRET_PATH_BYTES {
        return false;
    }
    let mut at: usize = 0;
    while at < bytes.len()
        invariant
            at <= bytes@.len(),
            bytes@.len() <= MAX_EXTERNAL_SECRET_PATH_BYTES,
            bytes@ == encode_utf8(path@),
            forall|k: int| 0 <= k < at ==> !#[trigger] step_up_at(bytes@, k),
        decreases bytes@.len() - at,
    {
        if bytes.len() - at > 2 && bytes[at] == 0x2f && bytes[at + 1] == 0x2e && bytes[at + 2]
            == 0x2e && (at + 3 == bytes.len() || bytes[at + 3] == 0x2f) {
            proof {
                assert(step_up_at(bytes@, at as int));
            }
            return false;
        }
        at += 1;
    }
    true
}

/// The path that credentials are read from.
pub open spec fn secret_path(authentication: ExternalAuthentication) -> Seq<char> {
    match authentication {
        ExternalAuthentication::BearerTokenFile { path } => path@,
    }
}

/// Checks where credentials come from.
///
/// # Errors
///
/// `InvalidCredentialSource` for a path that may not name a credential file.
pub fn validate_authentication_source(authentication: &ExternalAuthentication) -> (valid: Result<
    (),
    ExternalGateError,
>)
    ensures
        valid == if secret_path_allowed(secret_path(*authentication)) {
            Ok::<(), ExternalGateError>(())
        } else {
            Err::<(), ExternalGateError>(ExternalGateError::InvalidCredentialSource)
        },
{
    match authentication {
        ExternalAuthentication::BearerTokenFile { path } => {
            if valid_secret_path(path.as_str()) {
                Ok(())
            } else {
                Err(ExternalGateError::InvalidCredentialSource)
            }
        },
    }
}

/// What is known of a credential file: by its path without following links,
/// and once it is open.
#[derive(Clone, Copy, Debug, PartialEq, Eq, Structural)]
pub struct SecretFile {
    pub is_file: bool,
    pub is_symlink: bool,
    pub mode: u32,
    pub device: u64,
    pub inode: u64,
}

/// Whether the file at the path may be opened for a credential: a plain file
/// that nobody but its owner may touch.
pub fn secret_file_private(before: SecretFile) -> (private: bool)
    ensures
        private == (before.is_file && !before.is_symlink && before.mode & 0o077 == 0),
{
    before.is_file && !before.is_symlink && before.mode & 0o077 == 0
}

/// Whether the open file is the one that was looked at.
pub fn secret_file_unchanged(before: SecretFile, after: SecretFile) -> (same: bool)
    ensures
        same == (after.is_file && before.device == after.device && before.inode == after.inode),
{
    after.is_file && before.device == after.device && before.inode == after.inode
}

/// Whether every byte is a visible ASCII character.
pub open spec fn all_graphic(bytes: Seq<u8>) -> bool {
    forall|k: int| 0 <= k < bytes.len() ==> 0x21 <= #[trigger] bytes[k] <= 0x7e
}

/// Whether the content of a credential file is a credential.
pub open spec fn token_allowed(content: Seq<u8>) -> bool {
    content.len() <= MAX_EXTERNAL_AUTH_TOKEN_BYTES && without_line_end(content).len() >= 32
        && all_graphic(without_line_end(content))
}

/// Reads a credential out of the content of its file, which is read up to one
/// byte beyond the bound.
///
/// # Errors
///
/// `CredentialUnavailable` for content that is too long, too short, or holds
/// anything but visible characters before one line end.
pub fn read_token(content: &[u8]) -> (token: Result<String, ExternalGateError>)
    ensures
        match token {
            Ok(text) => token_allowed(content@) && text@ == ascii_chars(
                without_line_end(content@),
            ),
            Err(error) => error == ExternalGateError::CredentialUnavailable && !token_allowed(
                content@,
            ),
        },
{
    if content.len() > MAX_EXTERNAL_AUTH_TOKEN_BYTES {
        return Err(ExternalGateError::CredentialUnavailable);
    }
    let bytes = strip_line_end(content);
    if bytes.len() < 32 {
        return Err(ExternalGateError::CredentialUnavailable);
    }
    let mut at: usize = 0;
    while at < bytes.len()
        invariant
            at <= bytes@.len(),
            bytes@ == without_line_end(content@),
            forall|k: int| 0 <= k < at ==> 0x21 <= #[trigger] bytes@[k] <= 0x7e,
        decreases bytes@.len() - at,
    {
        if !(0x21 <= bytes[at] && bytes[at] <= 0x7e) {
            return Err(ExternalGateError::CredentialUnavailable);
        }
        at += 1;
    }
    proof {
        lemma_ascii_valid(bytes@);
    }
    match utf8_text(bytes) {
        Some(text) => {
            proof {
                lemma_ascii_text(text@, bytes@);
            }
            Ok(text.to_owned())
        },
        None => Err(ExternalGateError::CredentialUnavailable),
    }
}

/// Whether a byte may stand in a version token.
pub open spec fn is_token_byte(byte: u8) -> bool {
    (0x30 <= byte <= 0x39) || byte == 0x2e
}

/// Where the run of token bytes from a place ends.
pub open spec fn token_end(bytes: Seq<u8>, at: int) -> int
    decreases bytes.len() - at,
{
    if 0 <= at < bytes.len() && is_token_byte(bytes[at]) {
        token_end(bytes, at + 1)
    } else {
        at
    }
}

/// The token behind a slash.
pub open spec fn token_behind(bytes: Seq<u8>, slash: int) -> Seq<u8> {
    bytes.subrange(slash + 1, token_end(bytes, slash + 1))
}

/// Whether a slash is followed by a token that names a release and ends with
/// the text, at white space or at an opening bracket.
pub open spec fn version_behind(bytes: Seq<u8>, slash: int) -> bool {
    let end = token_end(bytes, slash + 1);
    &&& 0 <= slash < bytes.len()
    &&& bytes[slash] == 0x2f
    &&& end == bytes.len() || is_white(bytes[end]) || bytes[end] == 0x28
    &&& names_release(ascii_chars(token_behind(bytes, slash)))
}

/// Whether a slash is the only one with a version behind it.
pub open spec fn sole_version(bytes: Seq<u8>, slash: int) -> bool {
    version_behind(bytes, slash) && forall|other: int|
        #[trigger] version_behind(bytes, other) ==> other == slash
}

proof fn lemma_token_end(bytes: Seq<u8>, at: int)
    requires
        0 <= at <= bytes.len(),
    ensures
        at <= token_end(bytes, at) <= bytes.len(),
        forall|k: int| at <= k < token_end(bytes, at) ==> is_token_byte(#[trigger] bytes[k]),
    decreases bytes.len() - at,
{
    if at < bytes.len() && is_token_byte(bytes[at]) {
        lemma_token_end(bytes, at + 1);
    }
}

fn find_token_end(bytes: &[u8], start: usize) -> (end: usize)
    requires
        start <= bytes@.len(),
    ensures
        end == token_end(bytes@, start as int),
        start <= end <= bytes@.len(),
{
    let mut at: usize = start;
    while at < bytes.len() && ((0x30 <= bytes[at] && bytes[at] <= 0x39) || bytes[at] == 0x2e)
        invariant
            start <= at <= bytes@.len(),
            token_end(bytes@, at as int) == token_end(bytes@, start as int),
        decreases bytes@.len() - at,
    {
        at += 1;
    }
    at
}

fn version_at(bytes: &[u8], slash: usize) -> (version: Option<Version>)
    requires
        slash < bytes@.len(),
        bytes@[slash as int] == 0x2f,
    ensures
        version is Some == version_behind(bytes@, slash as int),
        version matches Some(held) ==> is_release(held@) && ascii_chars(
            token_behind(bytes@, slash as int),
        ) == release_text(held@.major, held@.minor, held@.patch),
{
    let length: usize = bytes.len();
    let end: usize = find_token_end(bytes, slash + 1);
    proof {
        lemma_token_end(bytes@, slash + 1);
    }
    if end < length {
        let next: u8 = bytes[end];
        if !(next == 0x20 || next == 0x09 || next == 0x0a || next == 0x0c || next == 0x0d || next
            == 0x28) {
            return None;
        }
    }
    let token = vstd::slice::slice_subrange(bytes, slash + 1, end);
    proof {
        assert(token@ == token_behind(bytes@, slash as int));
        assert forall|k: int| 0 <= k < token@.len() implies #[trigger] token@[k] < 128 by {
            assert(is_token_byte(bytes@[slash + 1 + k]));
        }
        lemma_ascii_valid(token@);
    }
    match utf8_text(token) {
        Some(text) => {
            proof {
                lemma_ascii_text(text@, token@);
            }
            parse_release(text)
        },
        None => None,
    }
}

/// The version that a user agent names, where it names exactly one.
pub fn exact_user_agent_version(user_agent: &str) -> (version: Option<Version>)
    ensures
        version is Some == (byte_len(user_agent@) <= 1024 && exists|slash: int|
            sole_version(encode_utf8(user_agent@), slash)),
        version matches Some(held) ==> is_release(held@) && exists|slash: int|
            sole_version(encode_utf8(user_agent@), slash) && ascii_chars(
                token_behind(encode_utf8(user_agent@), slash),
            ) == release_text(held@.major, held@.minor, held@.patch),
{
    if text_bytes(user_agent) > 1024 {
        return None;
    }
    let bytes = user_agent.as_bytes();
    let mut found: Option<Version> = None;
    let ghost mut place: int = 0;
    let mut at: usize = 0;
    while at < bytes.len()
        invariant
            bytes@ == encode_utf8(user_agent@),
            at <= bytes@.len(),
            match found {
                None => forall|k: int| #[trigger] version_behind(bytes@, k) ==> k >= at,
                Some(held) => {
                    &&& 0 <= place < at
                    &&& version_behind(bytes@, place)
                    &&& is_release(held@)
                    &&& ascii_chars(token_behind(bytes@, place)) == release_text(
                        held@.major,
                        held@.minor,
                        held@.patch,
                    )
                    &&& forall|k: int| #[trigger]
                        version_behind(bytes@, k) ==> k >= at || k == place
                },
            },
        decreases bytes@.len() - at,
    {
        if bytes[at] == 0x2f {
            if let Some(version) = version_at(bytes, at) {
                if found.is_some() {
                    proof {
                        assert(version_behind(bytes@, place));
                        assert(version_behind(bytes@, at as int));
                    }
                    return None;
                }
                found = Some(version);
                proof {
                    place = at as int;
                }
            }
        }
        at += 1;
    }
    proof {
        if found is Some {
            assert(sole_version(bytes@, place));
        }
    }
    found
}

/// Opaque, collision-resistant identifier for non-secret endpoint
/// configuration.
#[derive(Clone, PartialEq, Eq, Hash)]
pub struct EndpointLabel {
    text: String,
}

impl View for EndpointLabel {
    type V = Seq<char>;

    closed spec fn view(&self) -> Seq<char> {
        self.text@
    }
}

impl EndpointLabel {
    pub fn as_str(&self) -> (text: &str)
        ensures
            text@ == self@,
    {
        self.text.as_str()
    }

    pub fn duplicate(&self) -> (copy: EndpointLabel)
        ensures
            copy@ == self@,
    {
        EndpointLabel { text: self.text.clone() }
    }
}

/// The bytes that identify an endpoint: its text, the expected version and the
/// profile, each ended by a zero byte but the last.
pub open spec fn identity_bytes(
    endpoint: Seq<char>,
    version: VersionView,
    profile: ExternalCapabilityProfile,
) -> Seq<u8> {
    encode_utf8(endpoint) + seq![0u8] + encode_utf8(version_text(version)) + seq![0u8]
        + encode_utf8(profile_name(profile))
}

/// The label of an endpoint: a fixed prefix and the whole digest of its
/// identity.
pub open spec fn label_text(
    endpoint: Seq<char>,
    version: VersionView,
    profile: ExternalCapabilityProfile,
) -> Seq<char> {
    "ext-"@ + hex(sha256_digest(identity_bytes(endpoint, version, profile)))
}

/// Labels an endpoint.
pub fn endpoint_label(
    endpoint: &UrlParts,
    expected_version: &Version,
    profile: ExternalCapabilityProfile,
) -> (label: EndpointLabel)
    ensures
        label@ == label_text(endpoint@.text, expected_version@, profile),
        label@.len() == 68,
{
    let mut identity: Vec<u8> = Vec::new();
    identity.extend_from_slice(endpoint.text.as_str().as_bytes());
    identity.push(0);
    let version = expected_version.to_text();
    identity.extend_from_slice(version.as_str().as_bytes());
    identity.push(0);
    identity.extend_from_slice(profile.name().as_bytes());
    proof {
        assert(identity@ =~= identity_bytes(endpoint@.text, expected_version@, profile));
    }
    let digest = sha256(identity.as_slice());
    let mut text = "ext-".to_owned();
    append_hex(&mut text, &digest);
    proof {
        reveal_strlit("ext-");
        lemma_hex_injective(digest@, digest@);
    }
    EndpointLabel { text }
}

/// A label keeps the whole digest: endpoints with the same label have the same
/// digest.
pub proof fn label_retains_the_digest(
    endpoint: Seq<char>,
    version: VersionView,
    profile: ExternalCapabilityProfile,
    other_endpoint: Seq<char>,
    other_version: VersionView,
    other_profile: ExternalCapabilityProfile,
)
    requires
        label_text(endpoint, version, profile) == label_text(
            other_endpoint,
            other_version,
            other_profile,
        ),
    ensures
        sha256_digest(identity_bytes(endpoint, version, profile)) == sha256_digest(
            identity_bytes(other_endpoint, other_version, other_profile),
        ),
{
    let digest = sha256_digest(identity_bytes(endpoint, version, profile));
    let other = sha256_digest(identity_bytes(other_endpoint, other_version, other_profile));
    let head = "ext-"@;
    assert(hex(digest) =~= (head + hex(digest)).subrange(
        head.len() as int,
        (head + hex(digest)).len() as int,
    ));
    assert(hex(other) =~= (head + hex(other)).subrange(
        head.len() as int,
        (head + hex(other)).len() as int,
    ));
    lemma_hex_injective(digest, other);
}

/// Reusable one-shot gate. Credentials are loaded afresh for every admission.
pub struct ExternalEndpointGate {
    endpoint: UrlParts,
    expected_version: Version,
    wire: WireAdapter,
    capability_profile: ExternalCapabilityProfile,
    authentication: ExternalAuthentication,
    endpoint_label: EndpointLabel,
}

/// Content of a gate.
pub struct GateView {
    pub endpoint: UrlView,
    pub version: VersionView,
    pub wire: WireAdapter,
    pub profile: ExternalCapabilityProfile,
    pub secret_path: Seq<char>,
    pub label: Seq<char>,
}

impl View for ExternalEndpointGate {
    type V = GateView;

    closed spec fn view(&self) -> GateView {
        GateView {
            endpoint: self.endpoint@,
            version: self.expected_version@,
            wire: self.wire,
            profile: self.capability_profile,
            secret_path: secret_path(self.authentication),
            label: self.endpoint_label@,
        }
    }
}

/// Whether a text is an endpoint.
pub open spec fn is_endpoint(raw: Seq<char>) -> bool {
    endpoint_shape(raw) && (parsed_url(raw) matches Some(url) && endpoint_allowed(url))
}

/// The first thing that is wrong with endpoint settings, in the order in which
/// they are looked at.
pub open spec fn config_fault(
    endpoint: Seq<char>,
    version: Seq<char>,
    profile: ExternalCapabilityProfile,
    path: Seq<char>,
) -> Option<ExternalGateError> {
    if !is_endpoint(endpoint) {
        Some(ExternalGateError::InvalidEndpoint)
    } else if version != release_text(0, 146, 0) && version != release_text(0, 149, 0) {
        Some(ExternalGateError::InvalidExpectedVersion)
    } else if version != release_text(0, 149, 0) {
        Some(ExternalGateError::UnsupportedCapabilityProfile)
    } else if !secret_path_allowed(path) {
        Some(ExternalGateError::InvalidCredentialSource)
    } else {
        None
    }
}

proof fn lemma_adapter_versions(version: Seq<char>, held: VersionView)
    requires
        is_release(held),
        version == release_text(held.major, held.minor, held.patch),
    ensures
        adapter_for(held) == if version == release_text(0, 146, 0) {
            Some(WireAdapter::V0_146_0)
        } else if version == release_text(0, 149, 0) {
            Some(WireAdapter::V0_149_0)
        } else {
            None
        },
        release_text(0, 146, 0) != release_text(0, 149, 0),
{
    if version == release_text(0, 146, 0) {
        crate::version::release_text_names_one_release(
            held.major,
            held.minor,
            held.patch,
            0,
            146,
            0,
        );
    }
    if version == release_text(0, 149, 0) {
        crate::version::release_text_names_one_release(
            held.major,
            held.minor,
            held.patch,
            0,
            149,
            0,
        );
    }
    if release_text(0, 146, 0) == release_text(0, 149, 0) {
        crate::version::release_text_names_one_release(0, 146, 0, 0, 149, 0);
    }
}

proof fn lemma_known_versions_are_exact(version: Seq<char>)
    ensures
        version == release_text(0, 146, 0) || version == release_text(0, 149, 0) ==> exact_version(
            version,
        ),
{
    crate::text::lemma_decimal_small();
    let older = release_text(0, 146, 0);
    let newer = release_text(0, 149, 0);
    assert(older.len() == 7);
    assert(newer.len() == 7);
    assert(vstd::utf8::is_ascii_chars(older));
    assert(vstd::utf8::is_ascii_chars(newer));
    vstd::utf8::is_ascii_chars_encode_utf8(older);
    vstd::utf8::is_ascii_chars_encode_utf8(newer);
}

impl ExternalEndpointGate {
    /// Checks endpoint, exact version, profile and credential source, without
    /// opening anything.
    ///
    /// # Errors
    ///
    /// Returns a static failure classification and never echoes settings.
    pub fn new(config: ExternalEndpointConfig) -> (gate: Result<
        ExternalEndpointGate,
        ExternalGateError,
    >)
        ensures
            ({
                let fault = config_fault(
                    config.endpoint@,
                    config.expected_codex_version@,
                    config.capability_profile,
                    secret_path(config.authentication),
                );
                match gate {
                    Ok(gate) => {
                        &&& fault is None
                        &&& parsed_url(config.endpoint@) == Some(gate@.endpoint)
                        &&& gate@.version == crate::version::release(0, 149, 0)
                        &&& gate@.wire == WireAdapter::V0_149_0
                        &&& gate@.profile == config.capability_profile
                        &&& gate@.secret_path == secret_path(config.authentication)
                        &&& gate@.label == label_text(
                            gate@.endpoint.text,
                            gate@.version,
                            gate@.profile,
                        )
                    },
                    Err(error) => fault == Some(error),
                }
            }),
    {
        let endpoint = match validate_endpoint(config.endpoint.as_str()) {
            Ok(endpoint) => endpoint,
            Err(error) => {
                return Err(error);
            },
        };
        proof {
            lemma_known_versions_are_exact(config.expected_codex_version@);
        }
        let expected_version = match parse_exact_version(config.expected_codex_version.as_str()) {
            Ok(version) => version,
            Err(error) => {
                return Err(error);
            },
        };
        proof {
            lemma_adapter_versions(config.expected_codex_version@, expected_version@);
        }
        let wire = match WireAdapter::for_version(&expected_version) {
            Some(wire) => wire,
            None => {
                return Err(ExternalGateError::InvalidExpectedVersion);
            },
        };
        if !wire.supports_shared_profile(config.capability_profile.shared_wire_profile()) {
            return Err(ExternalGateError::UnsupportedCapabilityProfile);
        }
        if let Err(error) = validate_authentication_source(&config.authentication) {
            return Err(error);
        }
        proof {
            assert(expected_version@.pre =~= Seq::empty());
            assert(expected_version@.build =~= Seq::empty());
        }
        let endpoint_label = endpoint_label(
            &endpoint,
            &expected_version,
            config.capability_profile,
        );
        Ok(
            ExternalEndpointGate {
                endpoint,
                expected_version,
                wire,
                capability_profile: config.capability_profile,
                authentication: config.authentication,
                endpoint_label,
            },
        )
    }

    pub fn endpoint_label(&self) -> (label: &EndpointLabel)
        ensures
            label@ == self@.label,
    {
        &self.endpoint_label
    }

    pub fn capability_profile(&self) -> (profile: ExternalCapabilityProfile)
        ensures
            profile == self@.profile,
    {
        self.capability_profile
    }

    /// The normalized text of the endpoint, to connect to.
    pub fn endpoint_text(&self) -> (text: &str)
        ensures
            text@ == self@.endpoint.text,
    {
        self.endpoint.text.as_str()
    }

    /// The path that the credential is read from.
    pub fn credential_path(&self) -> (path: &str)
        ensures
            path@ == self@.secret_path,
    {
        match &self.authentication {
            ExternalAuthentication::BearerTokenFile { path } => path.as_str(),
        }
    }

    pub fn wire(&self) -> (wire: WireAdapter)
        ensures
            wire == self@.wire,
    {
        self.wire
    }

    /// Whether the handshake asks for the experimental interface: every
    /// profile but the observing one does.
    pub fn wants_experimental_api(&self) -> (wanted: bool)
        ensures
            wanted == (self@.profile != ExternalCapabilityProfile::ObserveShared),
    {
        !matches!(self.capability_profile, ExternalCapabilityProfile::ObserveShared)
    }

    /// What an admitted connection is reported as.
    pub fn report(&self) -> (report: ExternalGateReport)
        ensures
            report.endpoint_label@ == self@.label,
            report.codex_version@ == self@.version,
            report.capability_profile == self@.profile,
    {
        ExternalGateReport {
            endpoint_label: self.endpoint_label.duplicate(),
            codex_version: Version {
                major: self.expected_version.major,
                minor: self.expected_version.minor,
                patch: self.expected_version.patch,
                pre: self.expected_version.pre.clone(),
                build: self.expected_version.build.clone(),
            },
            capability_profile: self.capability_profile,
        }
    }
}

/// Safe admission result: no endpoint, path, headers, payloads, or identifiers.
#[derive(Clone, PartialEq, Eq)]
pub struct ExternalGateReport {
    pub endpoint_label: EndpointLabel,
    pub codex_version: Version,
    pub capability_profile: ExternalCapabilityProfile,
}

/// Content of an admission result.
pub struct ReportView {
    pub label: Seq<char>,
    pub version: VersionView,
    pub profile: ExternalCapabilityProfile,
}

impl View for ExternalGateReport {
    type V = ReportView;

    open spec fn view(&self) -> ReportView {
        ReportView {
            label: self.endpoint_label@,
            version: self.codex_version@,
            profile: self.capability_profile,
        }
    }
}

impl ExternalGateReport {
    pub fn duplicate(&self) -> (copy: ExternalGateReport)
        ensures
            copy@ == self@,
    {
        ExternalGateReport {
            endpoint_label: self.endpoint_label.duplicate(),
            codex_version: Version {
                major: self.codex_version.major,
                minor: self.codex_version.minor,
                patch: self.codex_version.patch,
                pre: self.codex_version.pre.clone(),
                build: self.codex_version.build.clone(),
            },
            capability_profile: self.capability_profile,
        }
    }
}

/// The settings of an external backend.
pub open spec fn backend_fault(config: CodexBackendConfig) -> Option<ExternalGateError> {
    match config {
        CodexBackendConfig::SpawnedStdio { .. } => None,
        CodexBackendConfig::ExternalEndpoint {
            endpoint,
            expected_codex_version,
            capability_profile,
            authentication,
        } => config_fault(
            endpoint@,
            expected_codex_version@,
            capability_profile,
            secret_path(authentication),
        ),
    }
}

/// The binary that is started where none is configured.
pub fn default_codex_binary() -> (binary: String)
    ensures
        binary@ == "codex"@,
{
    "codex".to_owned()
}

impl Default for CodexBackendConfig {
    fn default() -> (config: CodexBackendConfig)
        ensures
            config matches CodexBackendConfig::SpawnedStdio { binary, codex_home } && binary@
                == "codex"@ && codex_home is None,
    {
        CodexBackendConfig::SpawnedStdio { binary: default_codex_binary(), codex_home: None }
    }
}

impl CodexBackendConfig {
    /// A process configuration, for the mode that owns a process only.
    pub fn spawned_process_config(&self) -> (config: Option<CodexProcessConfig>)
        ensures
            match *self {
                CodexBackendConfig::SpawnedStdio { binary, codex_home } => config matches Some(held)
                    && held.binary@ == binary@ && text_option(held.codex_home) == text_option(
                    codex_home,
                ),
                CodexBackendConfig::ExternalEndpoint { .. } => config is None,
            },
    {
        match self {
            CodexBackendConfig::SpawnedStdio { binary, codex_home } => Some(
                CodexProcessConfig {
                    binary: binary.clone(),
                    codex_home: crate::codex::types::duplicate_option(codex_home),
                },
            ),
            CodexBackendConfig::ExternalEndpoint { .. } => None,
        }
    }

    /// A one-shot admission gate, for the external mode only.
    ///
    /// # Errors
    ///
    /// Returns a static error classification for unsafe settings.
    pub fn external_gate(&self) -> (gate: Result<Option<ExternalEndpointGate>, ExternalGateError>)
        ensures
            match gate {
                Ok(None) => self is SpawnedStdio,
                Ok(Some(gate)) => backend_fault(*self) is None && (*self matches
                    CodexBackendConfig::ExternalEndpoint {
                    endpoint,
                    capability_profile,
                    authentication,
                    ..
                } && parsed_url(endpoint@) == Some(gate@.endpoint) && gate@.version
                    == crate::version::release(0, 149, 0) && gate@.wire == WireAdapter::V0_149_0
                    && gate@.profile == capability_profile && gate@.secret_path == secret_path(
                    authentication,
                ) && gate@.label == label_text(
                    gate@.endpoint.text,
                    gate@.version,
                    gate@.profile,
                )),
                Err(error) => backend_fault(*self) == Some(error),
            },
    {
        match self {
            CodexBackendConfig::SpawnedStdio { .. } => Ok(None),
            CodexBackendConfig::ExternalEndpoint {
                endpoint,
                expected_codex_version,
                capability_profile,
                authentication,
            } => {
                let copied = match authentication {
                    ExternalAuthentication::BearerTokenFile { path } =>
                        ExternalAuthentication::BearerTokenFile { path: path.clone() },
                };
                match ExternalEndpointGate::new(
                    ExternalEndpointConfig {
                        endpoint: endpoint.clone(),
                        expected_codex_version: expected_codex_version.clone(),
                        capability_profile: *capability_profile,
                        authentication: copied,
                    },
                ) {
                    Ok(gate) => Ok(Some(gate)),
                    Err(error) => Err(error),
                }
            },
        }
    }

    /// Validates mode-local settings without reading a secret or opening a
    /// socket.
    ///
    /// # Errors
    ///
    /// Returns a static error classification for invalid external settings.
    pub fn validate(&self) -> (valid: Result<(), ExternalGateError>)
        ensures
            valid == (match backend_fault(*self) {
                Some(error) => Err::<(), ExternalGateError>(error),
                None => Ok::<(), ExternalGateError>(()),
            }),
    {
        match self.external_gate() {
            Ok(_) => Ok(()),
            Err(error) => Err(error),
        }
    }
}

/// Why connecting failed, by the status of a refused upgrade if there was one.
pub fn classify_connect_error(status: Option<u16>) -> (error: ExternalGateError)
    ensures
        error == if status == Some(401u16) || status == Some(403u16) {
            ExternalGateError::AuthenticationRejected
        } else {
            ExternalGateError::ConnectionFailed
        },
{
    match status {
        Some(status) => if status == 401 || status == 403 {
            ExternalGateError::AuthenticationRejected
        } else {
            ExternalGateError::ConnectionFailed
        },
        None => ExternalGateError::ConnectionFailed,
    }
}

/// Which answer an admission waits for.
#[derive(Clone, Copy, Debug, PartialEq, Eq, Structural)]
pub enum GateStage {
    Initialize,
    Capability,
}

/// Something that arrived on the socket: a text with the message that it
/// decodes to, if any, a control frame, another frame, or the end.
pub enum GateFrame {
    Text { length: usize, message: Option<InboundMessage> },
    Control,
    Other,
    Ended,
}

/// What a frame leads to.
pub enum GateReceive {
    Wait,
    Answer(serde_json::Value),
    Fail(ExternalGateError),
}

/// The wait for one answer: how many frames may still come, and how much text
/// has come.
pub struct GateWait {
    pub stage: GateStage,
    pub frames_left: usize,
    pub total_bytes: usize,
}

/// The identifier of the request that a stage waits for.
pub open spec fn stage_id(stage: GateStage) -> RequestIdView {
    match stage {
        GateStage::Initialize => RequestIdView::Integer(1),
        GateStage::Capability => RequestIdView::Integer(2),
    }
}

/// What a message leads to while a stage waits: its answer ends the wait,
/// notifications are passed over, anything else is a violation.
pub open spec fn gate_message(stage: GateStage, message: MessageView) -> Result<
    Option<Json>,
    ExternalGateError,
> {
    match message {
        MessageView::Response { id, result } => if id == stage_id(stage) {
            Ok(Some(result))
        } else {
            Err(ExternalGateError::ProtocolViolation)
        },
        MessageView::ErrorResponse { id, .. } => if id == stage_id(stage) && stage
            == GateStage::Capability {
            Err(ExternalGateError::MissingCapability)
        } else {
            Err(ExternalGateError::ProtocolViolation)
        },
        MessageView::Notification { .. } => Ok(None),
        MessageView::Request { .. } => Err(ExternalGateError::ProtocolViolation),
    }
}

impl GateWait {
    pub fn new(stage: GateStage) -> (wait: GateWait)
        ensures
            wait == (GateWait {
                stage,
                frames_left: EXTERNAL_GATE_MAX_MESSAGES,
                total_bytes: 0,
            }),
    {
        GateWait { stage, frames_left: EXTERNAL_GATE_MAX_MESSAGES, total_bytes: 0 }
    }

    /// Judges one frame. The wait is over once it answers or fails; the last
    /// admitted frame that does neither fails it.
    pub fn receive(&mut self, frame: GateFrame) -> (received: GateReceive)
        requires
            old(self).frames_left > 0,
        ensures
            final(self).stage == old(self).stage,
            final(self).frames_left == old(self).frames_left - 1,
            final(self).total_bytes == (match frame {
                GateFrame::Text { length, .. } => crate::codex::types::saturated(
                    old(self).total_bytes + length,
                ),
                _ => old(self).total_bytes as int,
            }),
            ({
                let passed = if old(self).frames_left == 1 {
                    received == GateReceive::Fail(ExternalGateError::ProtocolViolation)
                } else {
                    received is Wait
                };
                match frame {
                    GateFrame::Ended => received == GateReceive::Fail(
                        ExternalGateError::ConnectionFailed,
                    ),
                    GateFrame::Other => received == GateReceive::Fail(
                        ExternalGateError::ProtocolViolation,
                    ),
                    GateFrame::Control => passed,
                    GateFrame::Text { length, message } => if length > EXTERNAL_GATE_MESSAGE_BYTES
                        || old(self).total_bytes + length > EXTERNAL_GATE_TOTAL_BYTES {
                        received == GateReceive::Fail(ExternalGateError::ProtocolViolation)
                    } else {
                        match message {
                            None => received == GateReceive::Fail(
                                ExternalGateError::ProtocolViolation,
                            ),
                            Some(message) => match gate_message(old(self).stage, message@) {
                                Ok(Some(result)) => received matches GateReceive::Answer(value)
                                    && json(value) == result,
                                Ok(None) => passed,
                                Err(error) => received == GateReceive::Fail(error),
                            },
                        }
                    },
                }
            }),
    {
        self.frames_left = self.frames_left - 1;
        match frame {
            GateFrame::Ended => {
                return GateReceive::Fail(ExternalGateError::ConnectionFailed);
            },
            GateFrame::Other => {
                return GateReceive::Fail(ExternalGateError::ProtocolViolation);
            },
            GateFrame::Control => {},
            GateFrame::Text { length, message } => {
                self.total_bytes = self.total_bytes.saturating_add(length);
                if length > EXTERNAL_GATE_MESSAGE_BYTES || self.total_bytes
                    > EXTERNAL_GATE_TOTAL_BYTES {
                    return GateReceive::Fail(ExternalGateError::ProtocolViolation);
                }
                let message = match message {
                    Some(message) => message,
                    None => {
                        return GateReceive::Fail(ExternalGateError::ProtocolViolation);
                    },
                };
                let expected: i64 = match self.stage {
                    GateStage::Initialize => 1,
                    GateStage::Capability => 2,
                };
                match message {
                    InboundMessage::Response { id, result } => {
                        if id.same(&RequestId::Integer(expected)) {
                            return GateReceive::Answer(result);
                        }
                        return GateReceive::Fail(ExternalGateError::ProtocolViolation);
                    },
                    InboundMessage::ErrorResponse { id, .. } => {
                        if id.same(&RequestId::Integer(expected)) && self.stage
                            == GateStage::Capability {
                            return GateReceive::Fail(ExternalGateError::MissingCapability);
                        }
                        return GateReceive::Fail(ExternalGateError::ProtocolViolation);
                    },
                    InboundMessage::Notification { .. } => {},
                    InboundMessage::Request { .. } => {
                        return GateReceive::Fail(ExternalGateError::ProtocolViolation);
                    },
                }
            },
        }
        if self.frames_left == 0 {
            GateReceive::Fail(ExternalGateError::ProtocolViolation)
        } else {
            GateReceive::Wait
        }
    }
}

/// The request that a stage sends, with encoded parameters.
pub fn stage_request(stage: GateStage, params: serde_json::Value) -> (message: OutboundMessage)
    ensures
        message@ == (MessageView::Request {
            id: stage_id(stage),
            method: match stage {
                GateStage::Initialize => "initialize"@,
                GateStage::Capability => "thread/list"@,
            },
            params: Some(json(params)),
        }),
{
    match stage {
        GateStage::Initialize => OutboundMessage::Request {
            id: RequestId::Integer(1),
            method: "initialize".to_owned(),
            params: Some(params),
        },
        GateStage::Capability => OutboundMessage::Request {
            id: RequestId::Integer(2),
            method: "thread/list".to_owned(),
            params: Some(params),
        },
    }
}

/// The text frame that carries a message during admission.
///
/// # Errors
///
/// `ProtocolViolation` for a message whose record is over the bound.
pub fn frame_text(message: &OutboundMessage) -> (text: Result<String, ExternalGateError>)
    ensures
        ({
            let record = json_text(Json::Object(message_members(message@)));
            match text {
                Ok(text) => record.len() <= MAX_JSONL_LINE_BYTES && encode_utf8(text@) == record,
                Err(error) => record.len() > MAX_JSONL_LINE_BYTES && error
                    == ExternalGateError::ProtocolViolation,
            }
        }),
{
    let mut line = match encode_line(message) {
        Ok(line) => line,
        Err(_) => {
            return Err(ExternalGateError::ProtocolViolation);
        },
    };
    let ghost record = json_text(Json::Object(message_members(message@)));
    let _ = line.pop();
    proof {
        assert(line@ =~= record);
    }
    match utf8_text(line.as_slice()) {
        Some(text) => Ok(text.to_owned()),
        None => Err(ExternalGateError::ProtocolViolation),
    }
}

/// The notification between the two stages.
pub fn initialized_notification() -> (message: OutboundMessage)
    ensures
        message@ == (MessageView::Notification { method: "initialized"@, params: None }),
{
    OutboundMessage::Notification { method: "initialized".to_owned(), params: None }
}

/// Whether a user agent names a release, and no other version.
pub open spec fn names_version(user_agent: Seq<char>, version: VersionView) -> bool {
    let bytes = encode_utf8(user_agent);
    is_release(version) && bytes.len() <= 1024 && exists|slash: int|
        sole_version(bytes, slash) && ascii_chars(token_behind(bytes, slash)) == release_text(
            version.major,
            version.minor,
            version.patch,
        )
}

impl ExternalEndpointGate {
    /// Judges the answer to the handshake by the user agent that it names;
    /// nothing where the answer could not be decoded.
    ///
    /// # Errors
    ///
    /// `ProtocolViolation` for an answer that could not be decoded,
    /// `VersionMismatch` where it does not name the expected version and no
    /// other.
    pub fn check_initialize(&self, user_agent: Option<&str>) -> (checked: Result<
        (),
        ExternalGateError,
    >)
        ensures
            match user_agent {
                None => checked == Err::<(), ExternalGateError>(
                    ExternalGateError::ProtocolViolation,
                ),
                Some(text) => {
                    &&& checked is Ok == names_version(text@, self@.version)
                    &&& checked matches Err(error) ==> error == ExternalGateError::VersionMismatch
                },
            },
    {
        let text = match user_agent {
            Some(text) => text,
            None => {
                return Err(ExternalGateError::ProtocolViolation);
            },
        };
        let found = match exact_user_agent_version(text) {
            Some(found) => found,
            None => {
                return Err(ExternalGateError::VersionMismatch);
            },
        };
        if found.major == self.expected_version.major && found.minor == self.expected_version.minor
            && found.patch == self.expected_version.patch && self.expected_version.is_release() {
            Ok(())
        } else {
            proof {
                let bytes = encode_utf8(text@);
                let expected = self@.version;
                if is_release(expected) && exists|slash: int|
                    sole_version(bytes, slash) && ascii_chars(token_behind(bytes, slash))
                        == release_text(expected.major, expected.minor, expected.patch) {
                    let slash = choose|slash: int|
                        sole_version(bytes, slash) && ascii_chars(token_behind(bytes, slash))
                            == release_text(expected.major, expected.minor, expected.patch);
                    let named = choose|named: int|
                        sole_version(bytes, named) && ascii_chars(token_behind(bytes, named))
                            == release_text(found@.major, found@.minor, found@.patch);
                    assert(version_behind(bytes, named));
                    assert(named == slash);
                    crate::version::release_text_names_one_release(
                        expected.major,
                        expected.minor,
                        expected.patch,
                        found@.major,
                        found@.minor,
                        found@.patch,
                    );
                }
            }
            Err(ExternalGateError::VersionMismatch)
        }
    }
}

/// Judges the answer to the read-only canary by the number of its rows;
/// nothing where the answer could not be decoded.
///
/// # Errors
///
/// `MissingCapability` where it could not be decoded or has more than the one
/// row that was asked for.
pub fn check_capability(rows: Option<usize>) -> (checked: Result<(), ExternalGateError>)
    ensures
        checked == (match rows {
            Some(rows) => if rows <= EXTERNAL_GATE_CANARY_ROWS {
                Ok::<(), ExternalGateError>(())
            } else {
                Err::<(), ExternalGateError>(ExternalGateError::MissingCapability)
            },
            None => Err::<(), ExternalGateError>(ExternalGateError::MissingCapability),
        }),
{
    match rows {
        Some(rows) => if rows <= EXTERNAL_GATE_CANARY_ROWS {
            Ok(())
        } else {
            Err(ExternalGateError::MissingCapability)
        },
        None => Err(ExternalGateError::MissingCapability),
    }
}

/// While the handshake or the canary is awaited, only the answer under its own
/// number counts: an answer to anything else, and a request of the server, are
/// violations, a refusal of the canary a missing capability, and notices are
/// passed over.
pub proof fn only_the_awaited_answer_counts(
    stage: GateStage,
    id: RequestIdView,
    result: Json,
    error: crate::codex::protocol::RpcErrorView,
    method: Seq<char>,
    params: Option<Json>,
)
    ensures
        ({
            let mine = match stage {
                GateStage::Initialize => id == RequestIdView::Integer(1),
                GateStage::Capability => id == RequestIdView::Integer(2),
            };
            let violation = Err::<Option<Json>, ExternalGateError>(
                ExternalGateError::ProtocolViolation,
            );
            let answer = gate_message(stage, MessageView::Response { id, result });
            let refusal = gate_message(stage, MessageView::ErrorResponse { id, error });
            &&& mine ==> answer == Ok::<Option<Json>, ExternalGateError>(Some(result))
            &&& !mine ==> answer == violation
            &&& mine && stage == GateStage::Capability ==> refusal == Err::<
                Option<Json>,
                ExternalGateError,
            >(ExternalGateError::MissingCapability)
            &&& !(mine && stage == GateStage::Capability) ==> refusal == violation
            &&& gate_message(stage, MessageView::Notification { method, params }) == Ok::<
                Option<Json>,
                ExternalGateError,
            >(None)
            &&& gate_message(stage, MessageView::Request { id, method, params }) == violation
        }),
{
}

/// Credentials never travel in the open: an endpoint is reached over an
/// encrypted socket, or over an open one on this machine alone, and its address
/// holds no credential, query or fragment.
pub proof fn endpoints_are_private(url: UrlView)
    requires
        endpoint_allowed(url),
    ensures
        url.scheme == "wss"@ || url.scheme == "ws"@,
        url.scheme != "wss"@ ==> match url.host {
            Some(UrlHost::Ipv4(bits)) => 0x7f00_0000 <= bits <= 0x7fff_ffff,
            Some(UrlHost::Ipv6(bits)) => bits == 1,
            _ => false,
        },
        url.username.len() == 0 && !url.has_password && !url.has_query && !url.has_fragment,
        url.host is Some && url.port != Some(0u16),
{
}

/// Any encrypted endpoint with a host and none of that is allowed.
pub proof fn encrypted_endpoints_are_allowed(url: UrlView)
    requires
        url.scheme == "wss"@,
        url.host is Some,
        url.port != Some(0u16),
        url.username.len() == 0,
        !url.has_password,
        !url.has_query,
        !url.has_fragment,
    ensures
        endpoint_allowed(url),
{
}

/// A configuration is refused for its first fault: the endpoint, a version that
/// is none of the known ones, a version without shared capabilities, the place
/// of the credential; without a fault it is taken.
pub proof fn configurations_are_refused_for_their_first_fault(
    endpoint: Seq<char>,
    version: Seq<char>,
    profile: ExternalCapabilityProfile,
    path: Seq<char>,
)
    ensures
        ({
            let fault = config_fault(endpoint, version, profile, path);
            let newest = version == release_text(0, 149, 0);
            let known = newest || version == release_text(0, 146, 0);
            &&& fault == Some(ExternalGateError::InvalidEndpoint) <==> !is_endpoint(endpoint)
            &&& fault == Some(ExternalGateError::InvalidExpectedVersion) <==> is_endpoint(endpoint)
                && !known
            &&& fault == Some(ExternalGateError::UnsupportedCapabilityProfile) <==> is_endpoint(
                endpoint,
            ) && known && !newest
            &&& fault == Some(ExternalGateError::InvalidCredentialSource) <==> is_endpoint(endpoint)
                && newest && !secret_path_allowed(path)
            &&& fault is None <==> is_endpoint(endpoint) && newest && secret_path_allowed(path)
        }),
{
    lemma_known_versions_are_exact(version);
}

/// A credential lies at an absolute path of bounded length that never steps up.
pub proof fn credentials_lie_at_absolute_paths(path: Seq<char>)
    requires
        secret_path_allowed(path),
    ensures
        ({
            let bytes = encode_utf8(path);
            &&& 0 < bytes.len() <= MAX_EXTERNAL_SECRET_PATH_BYTES
            &&& bytes[0] == 0x2f
            &&& forall|at: int|
                0 <= at && at + 3 < bytes.len() ==> !(#[trigger] bytes[at] == 0x2f && bytes[at + 1]
                    == 0x2e && bytes[at + 2] == 0x2e && bytes[at + 3] == 0x2f)
            &&& bytes.len() >= 3 ==> !(bytes[bytes.len() - 3] == 0x2f && bytes[bytes.len() - 2]
                == 0x2e && bytes[bytes.len() - 1] == 0x2e)
        }),
{
    let bytes = encode_utf8(path);
    assert forall|at: int| 0 <= at && at + 3 < bytes.len() implies !(#[trigger] bytes[at] == 0x2f
        && bytes[at + 1] == 0x2e && bytes[at + 2] == 0x2e && bytes[at + 3] == 0x2f) by {
        assert(!step_up_at(bytes, at));
    }
    if bytes.len() >= 3 {
        assert(!step_up_at(bytes, bytes.len() - 3));
    }
}

/// A credential is taken with or without one line end, and is long enough and
/// of printable characters only.
pub proof fn credentials_are_printable(token: Seq<u8>)
    requires
        32 <= token.len(),
        token.len() + 2 <= MAX_EXTERNAL_AUTH_TOKEN_BYTES,
        forall|k: int| 0 <= k < token.len() ==> 0x21 <= #[trigger] token[k] <= 0x7e,
    ensures
        token_allowed(token),
        token_allowed(token + seq![0x0au8]),
        token_allowed(token + seq![0x0du8, 0x0au8]),
        forall|k: int, byte: u8|
            0 <= k < token.len() && !(0x21 <= byte <= 0x7e) && k < token.len() - 2
                ==> !#[trigger] token_allowed(token.update(k, byte)),
{
    assert(token[token.len() - 1] != 0x0a);
    assert((token + seq![0x0au8]).subrange(0, token.len() as int) =~= token);
    assert((token + seq![0x0du8, 0x0au8]).subrange(0, token.len() as int) =~= token);
    assert((token + seq![0x0au8])[token.len() - 1] == token[token.len() - 1]);
    assert(token[token.len() - 1] != 0x0d);
    assert(without_line_end(token + seq![0x0au8]) == token);
    assert(without_line_end(token + seq![0x0du8, 0x0au8]) == token);
    assert forall|k: int, byte: u8|
        0 <= k < token.len() && !(0x21 <= byte <= 0x7e) && k < token.len() - 2 implies
        !#[trigger] token_allowed(token.update(k, byte)) by {
        let other = token.update(k, byte);
        assert(other[token.len() - 1] == token[token.len() - 1]);
        assert(without_line_end(other) == other);
        assert(other[k] == byte);
    }
}

/// Profiles keep their rank and their name on the wire.
pub proof fn profiles_keep_their_rank(profile: ExternalCapabilityProfile)
    ensures
        wire_profile(profile) == SharedWireProfile::ObserveShared <==> profile
            == ExternalCapabilityProfile::ObserveShared,
        wire_profile(profile) == SharedWireProfile::ResumeShared <==> profile
            == ExternalCapabilityProfile::ResumeShared,
        wire_profile(profile) == SharedWireProfile::MutateShared <==> profile
            == ExternalCapabilityProfile::MutateShared,
        wire_profile(profile) == SharedWireProfile::QueueShared <==> profile
            == ExternalCapabilityProfile::QueueShared,
{
}

/// A version is proved by the one place of a user agent that names one: text
/// around it that names none changes nothing, and two places prove nothing.
pub proof fn versions_are_named_once(user_agent: Seq<char>, version: VersionView, other: VersionView)
    requires
        names_version(user_agent, version),
        names_version(user_agent, other),
    ensures
        release_text(version.major, version.minor, version.patch) == release_text(
            other.major,
            other.minor,
            other.patch,
        ),
        is_release(version) && is_release(other),
        encode_utf8(user_agent).len() <= 1024,
        exists|slash: int|
            #![trigger encode_utf8(user_agent)[slash]]
            0 <= slash < encode_utf8(user_agent).len() && encode_utf8(user_agent)[slash] == 0x2f,
{
    let bytes = encode_utf8(user_agent);
    let one = choose|slash: int|
        sole_version(bytes, slash) && ascii_chars(token_behind(bytes, slash)) == release_text(
            version.major,
            version.minor,
            version.patch,
        );
    let two = choose|slash: int|
        sole_version(bytes, slash) && ascii_chars(token_behind(bytes, slash)) == release_text(
            other.major,
            other.minor,
            other.patch,
        );
    assert(version_behind(bytes, two));
    assert(one == two);
    assert(bytes[one] == 0x2f);
}

/// An endpoint's address is not empty, within its bound, without white space at
/// either end, and without a control character.
pub proof fn endpoint_addresses_are_plain(raw: Seq<char>)
    ensures
        endpoint_shape(raw) <==> 0 < raw.len() && byte_len(raw) <= MAX_EXTERNAL_ENDPOINT_BYTES
            && trimmed(raw) && forall|k: int|
            0 <= k < encode_utf8(raw).len() ==> 0x20 <= #[trigger] encode_utf8(raw)[k]
                && encode_utf8(raw)[k] != 0x7f,
{
    if forall|k: int|
        0 <= k < encode_utf8(raw).len() ==> 0x20 <= #[trigger] encode_utf8(raw)[k] && encode_utf8(
            raw,
        )[k] != 0x7f {
        assert forall|k: int| 0 <= k < encode_utf8(raw).len() implies !is_control(
            #[trigger] encode_utf8(raw)[k],
        ) by {}
    }
    if endpoint_shape(raw) {
        assert forall|k: int| 0 <= k < encode_utf8(raw).len() implies 0x20
            <= #[trigger] encode_utf8(raw)[k] && encode_utf8(raw)[k] != 0x7f by {
            assert(!is_control(encode_utf8(raw)[k]));
        }
    }
}

/// A backend is faulty exactly as its endpoint's configuration is; one that is
/// spawned is not.
pub proof fn backends_are_judged_by_their_endpoint(
    endpoint: String,
    version: String,
    profile: ExternalCapabilityProfile,
    path: String,
    binary: String,
    home: Option<String>,
)
    ensures
        backend_fault(
            CodexBackendConfig::ExternalEndpoint {
                endpoint,
                expected_codex_version: version,
                capability_profile: profile,
                authentication: ExternalAuthentication::BearerTokenFile { path },
            },
        ) == config_fault(endpoint@, version@, profile, path@),
        backend_fault(CodexBackendConfig::SpawnedStdio { binary, codex_home: home }) is None,
{
}

proof fn lemma_token_end_at(bytes: Seq<u8>, at: int, end: int)
    requires
        0 <= at <= end <= bytes.len(),
        forall|k: int| at <= k < end ==> (0x30 <= #[trigger] bytes[k] <= 0x39) || bytes[k] == 0x2e,
        end < bytes.len() ==> !((0x30 <= bytes[end] <= 0x39) || bytes[end] == 0x2e),
    ensures
        token_end(bytes, at) == end,
    decreases end - at,
{
    if at < end {
        assert(is_token_byte(bytes[at]));
        lemma_token_end_at(bytes, at + 1, end);
    }
}

/// A user agent that is a name, a slash and a release, alone or with a remark in
/// brackets or behind white space that has no slash, names that very release.
pub proof fn plain_user_agents_name_their_version(
    name: Seq<char>,
    version: VersionView,
    remark: Seq<char>,
    user_agent: Seq<char>,
)
    requires
        is_release(version),
        user_agent == name + seq!['/'] + release_text(version.major, version.minor, version.patch)
            + remark,
        encode_utf8(user_agent).len() <= 1024,
        forall|k: int| 0 <= k < encode_utf8(name).len() ==> #[trigger] encode_utf8(name)[k] != 0x2f,
        forall|k: int|
            0 <= k < encode_utf8(remark).len() ==> #[trigger] encode_utf8(remark)[k] != 0x2f,
        encode_utf8(remark).len() > 0 ==> encode_utf8(remark)[0] == 0x20 || encode_utf8(remark)[0]
            == 0x28,
    ensures
        names_version(user_agent, version),
{
    let text = release_text(version.major, version.minor, version.patch);
    let head = encode_utf8(name);
    let mid = encode_utf8(text);
    let tail = encode_utf8(remark);
    let bytes = encode_utf8(user_agent);
    lemma_release_characters(version.major, version.minor, version.patch);
    assert(vstd::utf8::is_ascii_chars(text));
    vstd::utf8::is_ascii_chars_encode_utf8(text);
    let slash_text = seq!['/'];
    assert(vstd::utf8::is_ascii_chars(slash_text));
    vstd::utf8::is_ascii_chars_encode_utf8(slash_text);
    assert(encode_utf8(slash_text) =~= seq![0x2fu8]);
    lemma_utf8_concat(name, slash_text);
    lemma_utf8_concat(name + slash_text, text);
    lemma_utf8_concat(name + slash_text + text, remark);
    assert(bytes =~= head + seq![0x2fu8] + mid + tail);
    let slash = head.len() as int;
    let end = slash + 1 + mid.len();
    assert(bytes[slash] == 0x2f);
    assert forall|k: int| slash + 1 <= k < end implies (0x30 <= #[trigger] bytes[k] <= 0x39)
        || bytes[k] == 0x2e by {
        let at = k - slash - 1;
        assert(bytes[k] == mid[at]);
        assert(mid[at] == text[at] as u8);
        assert(('0' <= text[at] <= '9') || text[at] == '.');
    }
    if end < bytes.len() {
        assert(bytes[end] == tail[0]);
    }
    lemma_token_end_at(bytes, slash + 1, end);
    assert(token_behind(bytes, slash) =~= mid);
    assert(ascii_chars(mid) =~= text) by {
        assert forall|k: int| 0 <= k < mid.len() implies ascii_chars(mid)[k] == #[trigger] text[k] by {
            assert(mid[k] == text[k] as u8);
            assert(('0' <= text[k] <= '9') || text[k] == '.');
        }
    }
    assert(names_release(text));
    assert(version_behind(bytes, slash));
    assert forall|other: int| #[trigger] version_behind(bytes, other) implies other == slash by {
        assert(bytes[other] == 0x2f);
        if other < slash {
            assert(bytes[other] == head[other]);
        } else if other > slash && other < end {
            assert((0x30 <= bytes[other] <= 0x39) || bytes[other] == 0x2e);
        } else if other >= end {
            assert(bytes[other] == tail[other - end]);
        }
    }
    assert(sole_version(bytes, slash));
}

} // verus!
