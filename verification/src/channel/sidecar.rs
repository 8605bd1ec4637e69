//! Supervised Node channel sidecar: settings, frames, and what each frame
//! leads to. Credentials cross only the sidecar's input, in its configuration
//! frame; every inbound event keeps its correlation until it is acknowledged.
use vstd::prelude::*;

use crate::channel::native::protocol_failure;
use crate::channel::native::LarkError;
use crate::channel::native::LarkErrorView;
use crate::channel::wire::PROTOCOL;
use crate::channel::wire::REQUIRED_CAPABILITIES;
use crate::channel::wire::VERSION;
use crate::channel::ConnectionState;
use crate::channel::ConnectionView;
use crate::codex::sidecar::holds_zero;
use crate::codex::types::text_bytes;
use crate::json::bool_value;
use crate::json::empty_object;
use crate::json::json;
use crate::json::json_option;
use crate::json::json_text;
use crate::json::null_value;
use crate::json::set_field;
use crate::json::text_value;
use crate::json::to_bytes;
use crate::json::unsigned_value;
use crate::json::Json;
use crate::limits::CHANNEL_SIDECAR_ACK_GRACE_MS;
use crate::limits::CHANNEL_SIDECAR_CONNECT_TIMEOUT_MS;
use crate::limits::CHANNEL_SIDECAR_EVENT_CAPACITY;
use crate::limits::CHANNEL_SIDECAR_FRAME_BYTES;
use crate::limits::CHANNEL_SIDECAR_HANDLER_TIMEOUT_MS;
use crate::limits::CHANNEL_SIDECAR_HANDSHAKE_TIMEOUT_MS;
use crate::limits::CHANNEL_SIDECAR_HEALTHY_UPTIME_MS;
use crate::limits::CHANNEL_SIDECAR_SHUTDOWN_GRACE_MS;
use crate::limits::CHANNEL_SIDECAR_WRITE_CAPACITY;
use crate::ordered::holds;
use crate::ordered::views;
use crate::outside::is_hex;
use crate::outside::random_id;
use crate::text::append_decimal;
use crate::text::append_span;
use crate::text::byte_len;
use crate::text::decimal;
use crate::text::same_text;
use crate::text::span_text;
use vstd::string::StringExecFns;
use vstd::utf8::encode_utf8;

verus! {

/// Bounded process and wire settings. Paths and arguments never appear in
/// diagnostics; times are in milliseconds.
#[derive(Clone)]
pub struct NodeSidecarConfig {
    /// Node executable. A single component is resolved by the system's path.
    pub node_binary: String,
    /// Checked-in sidecar entrypoint.
    pub entrypoint: String,
    /// Non-secret adapter arguments.
    pub arguments: Vec<String>,
    /// Maximum bytes before the newline of one frame.
    pub max_frame_bytes: usize,
    /// Events waiting for the durable handler.
    pub event_capacity: usize,
    /// Frames waiting for the sidecar's input.
    pub write_capacity: usize,
    /// Initial hello and configure deadline.
    pub handshake_timeout_ms: u64,
    /// Deadline for the first live connection after configuration.
    pub initial_connect_timeout_ms: u64,
    /// Continuous connected time required before restart backoff resets.
    pub healthy_uptime_ms: u64,
    /// Deadline for one durable event decision.
    pub handler_timeout_ms: u64,
    /// Grace for a correlated shutdown response and process exit.
    pub shutdown_grace_ms: u64,
}

impl Default for NodeSidecarConfig {
    fn default() -> (config: NodeSidecarConfig)
        ensures
            config.node_binary@ == "node"@,
            config.entrypoint@ == "sidecar/index.cjs"@,
            config.arguments@.len() == 0,
            config.max_frame_bytes == CHANNEL_SIDECAR_FRAME_BYTES,
            config.event_capacity == CHANNEL_SIDECAR_EVENT_CAPACITY,
            config.write_capacity == CHANNEL_SIDECAR_WRITE_CAPACITY,
            config.handshake_timeout_ms == CHANNEL_SIDECAR_HANDSHAKE_TIMEOUT_MS,
            config.initial_connect_timeout_ms == CHANNEL_SIDECAR_CONNECT_TIMEOUT_MS,
            config.healthy_uptime_ms == CHANNEL_SIDECAR_HEALTHY_UPTIME_MS,
            config.handler_timeout_ms == CHANNEL_SIDECAR_HANDLER_TIMEOUT_MS,
            config.shutdown_grace_ms == CHANNEL_SIDECAR_SHUTDOWN_GRACE_MS,
            config_fault(config) is None,
    {
        let config = NodeSidecarConfig {
            node_binary: "node".to_owned(),
            entrypoint: "sidecar/index.cjs".to_owned(),
            arguments: Vec::new(),
            max_frame_bytes: CHANNEL_SIDECAR_FRAME_BYTES,
            event_capacity: CHANNEL_SIDECAR_EVENT_CAPACITY,
            write_capacity: CHANNEL_SIDECAR_WRITE_CAPACITY,
            handshake_timeout_ms: CHANNEL_SIDECAR_HANDSHAKE_TIMEOUT_MS,
            initial_connect_timeout_ms: CHANNEL_SIDECAR_CONNECT_TIMEOUT_MS,
            healthy_uptime_ms: CHANNEL_SIDECAR_HEALTHY_UPTIME_MS,
            handler_timeout_ms: CHANNEL_SIDECAR_HANDLER_TIMEOUT_MS,
            shutdown_grace_ms: CHANNEL_SIDECAR_SHUTDOWN_GRACE_MS,
        };
        proof {
            reveal_strlit("node");
            reveal_strlit("sidecar/index.cjs");
        }
        config
    }
}

/// Whether an argument may be handed to the sidecar.
pub open spec fn argument_fits(argument: Seq<char>) -> bool {
    byte_len(argument) <= 1024 && !argument.contains('\0')
}

/// Whether a time is positive and within its bound.
pub open spec fn time_fits(millis: u64, bound: u64) -> bool {
    0 < millis <= bound
}

/// What is wrong with settings, in the order in which it is looked for.
pub open spec fn config_fault(config: NodeSidecarConfig) -> Option<LarkErrorView> {
    if config.node_binary@.len() == 0 || config.entrypoint@.len() == 0 {
        Some(protocol_failure("node sidecar executable paths must be configured"@))
    } else if config.arguments@.len() > 8 || exists|k: int|
        0 <= k < config.arguments@.len() && !argument_fits((#[trigger] config.arguments@[k])@) {
        Some(protocol_failure("node sidecar arguments are invalid"@))
    } else if !(0 < config.max_frame_bytes <= CHANNEL_SIDECAR_FRAME_BYTES) {
        Some(
            LarkErrorView::Exhausted {
                context: "node sidecar frame bound"@,
                limit: CHANNEL_SIDECAR_FRAME_BYTES as u64,
            },
        )
    } else if !(0 < config.event_capacity <= CHANNEL_SIDECAR_EVENT_CAPACITY) || !(0
        < config.write_capacity <= CHANNEL_SIDECAR_WRITE_CAPACITY) {
        Some(protocol_failure("node sidecar queue bounds are invalid"@))
    } else if !time_fits(config.handshake_timeout_ms, CHANNEL_SIDECAR_HANDSHAKE_TIMEOUT_MS)
        || !time_fits(config.initial_connect_timeout_ms, CHANNEL_SIDECAR_CONNECT_TIMEOUT_MS)
        || !time_fits(config.healthy_uptime_ms, CHANNEL_SIDECAR_HEALTHY_UPTIME_MS)
        || !time_fits(config.handler_timeout_ms, CHANNEL_SIDECAR_HANDLER_TIMEOUT_MS)
        || !time_fits(config.shutdown_grace_ms, CHANNEL_SIDECAR_SHUTDOWN_GRACE_MS) {
        Some(protocol_failure("node sidecar time bounds are invalid"@))
    } else {
        None
    }
}

/// Content of an outcome that may be a static failure.
pub open spec fn failure_of<T>(result: Result<T, LarkError>) -> Option<LarkErrorView> {
    match result {
        Ok(_) => None,
        Err(error) => Some(error@),
    }
}

fn arguments_fit(arguments: &Vec<String>) -> (fit: bool)
    ensures
        fit == !(exists|k: int|
            0 <= k < arguments@.len() && !argument_fits((#[trigger] arguments@[k])@)),
{
    let mut at: usize = 0;
    while at < arguments.len()
        invariant
            at <= arguments@.len(),
            forall|k: int| 0 <= k < at ==> argument_fits((#[trigger] arguments@[k])@),
        decreases arguments@.len() - at,
    {
        let argument = arguments[at].as_str();
        if text_bytes(argument) > 1024 || holds_zero(argument) {
            proof {
                assert(!argument_fits(arguments@[at as int]@));
            }
            return false;
        }
        at += 1;
    }
    true
}

fn is_time(millis: u64, bound: u64) -> (fits: bool)
    ensures
        fits == time_fits(millis, bound),
{
    millis > 0 && millis <= bound
}

/// How settings are shown.
pub open spec fn node_config_text(config: NodeSidecarConfig) -> Seq<char> {
    "NodeSidecarConfig { node_binary: \"[configured]\", entrypoint: \"[configured]\", argument_count: "@
        + decimal(config.arguments@.len()) + ", max_frame_bytes: "@ + decimal(
        config.max_frame_bytes as nat,
    ) + ", event_capacity: "@ + decimal(config.event_capacity as nat) + ", write_capacity: "@
        + decimal(config.write_capacity as nat) + ", handshake_timeout: "@ + span_text(
        config.handshake_timeout_ms,
    ) + ", initial_connect_timeout: "@ + span_text(config.initial_connect_timeout_ms)
        + ", healthy_uptime: "@ + span_text(config.healthy_uptime_ms) + ", handler_timeout: "@
        + span_text(config.handler_timeout_ms) + ", shutdown_grace: "@ + span_text(
        config.shutdown_grace_ms,
    ) + " }"@
}

impl NodeSidecarConfig {
    /// Checks shape and hard bounds.
    ///
    /// # Errors
    ///
    /// A static classification of the first fault.
    pub fn validate(&self) -> (valid: Result<(), LarkError>)
        ensures
            failure_of(valid) == config_fault(*self),
    {
        if self.node_binary.as_str().is_empty() || self.entrypoint.as_str().is_empty() {
            return Err(LarkError::protocol("node sidecar executable paths must be configured"));
        }
        if self.arguments.len() > 8 || !arguments_fit(&self.arguments) {
            return Err(LarkError::protocol("node sidecar arguments are invalid"));
        }
        if self.max_frame_bytes == 0 || self.max_frame_bytes > CHANNEL_SIDECAR_FRAME_BYTES {
            return Err(
                LarkError::exhausted(
                    "node sidecar frame bound",
                    CHANNEL_SIDECAR_FRAME_BYTES as u64,
                ),
            );
        }
        if self.event_capacity == 0 || self.event_capacity > CHANNEL_SIDECAR_EVENT_CAPACITY
            || self.write_capacity == 0 || self.write_capacity > CHANNEL_SIDECAR_WRITE_CAPACITY {
            return Err(LarkError::protocol("node sidecar queue bounds are invalid"));
        }
        if !is_time(self.handshake_timeout_ms, CHANNEL_SIDECAR_HANDSHAKE_TIMEOUT_MS) || !is_time(
            self.initial_connect_timeout_ms,
            CHANNEL_SIDECAR_CONNECT_TIMEOUT_MS,
        ) || !is_time(self.healthy_uptime_ms, CHANNEL_SIDECAR_HEALTHY_UPTIME_MS) || !is_time(
            self.handler_timeout_ms,
            CHANNEL_SIDECAR_HANDLER_TIMEOUT_MS,
        ) || !is_time(self.shutdown_grace_ms, CHANNEL_SIDECAR_SHUTDOWN_GRACE_MS) {
            return Err(LarkError::protocol("node sidecar time bounds are invalid"));
        }
        Ok(())
    }

    /// How the settings are shown.
    pub fn debug_text(&self) -> (text: String)
        ensures
            text@ == node_config_text(*self),
    {
        let mut text =
            "NodeSidecarConfig { node_binary: \"[configured]\", entrypoint: \"[configured]\", argument_count: ".to_owned();
        append_decimal(&mut text, self.arguments.len() as u64);
        text.append(", max_frame_bytes: ");
        append_decimal(&mut text, self.max_frame_bytes as u64);
        text.append(", event_capacity: ");
        append_decimal(&mut text, self.event_capacity as u64);
        text.append(", write_capacity: ");
        append_decimal(&mut text, self.write_capacity as u64);
        text.append(", handshake_timeout: ");
        append_span(&mut text, self.handshake_timeout_ms);
        text.append(", initial_connect_timeout: ");
        append_span(&mut text, self.initial_connect_timeout_ms);
        text.append(", healthy_uptime: ");
        append_span(&mut text, self.healthy_uptime_ms);
        text.append(", handler_timeout: ");
        append_span(&mut text, self.handler_timeout_ms);
        text.append(", shutdown_grace: ");
        append_span(&mut text, self.shutdown_grace_ms);
        text.append(" }");
        text
    }
}

/// Whether a byte may stand in a correlation.
pub open spec fn id_byte(byte: u8) -> bool {
    ||| 48 <= byte <= 57
    ||| 65 <= byte <= 90
    ||| 97 <= byte <= 122
    ||| byte == 95
    ||| byte == 45
    ||| byte == 46
}

/// Whether a text is a correlation: one to 128 letters, digits, underscores,
/// hyphens and dots.
pub open spec fn correlation(id: Seq<char>) -> bool {
    let bytes = encode_utf8(id);
    1 <= bytes.len() <= 128 && forall|k: int| 0 <= k < bytes.len() ==> id_byte(#[trigger] bytes[k])
}

/// Whether a text is a correlation.
pub fn valid_id(id: &str) -> (valid: bool)
    ensures
        valid == correlation(id@),
{
    let bytes = id.as_bytes();
    if bytes.len() == 0 || bytes.len() > 128 {
        return false;
    }
    let mut at: usize = 0;
    while at < bytes.len()
        invariant
            at <= bytes@.len(),
            bytes@ == encode_utf8(id@),
            forall|k: int| 0 <= k < at ==> id_byte(#[trigger] bytes@[k]),
        decreases bytes@.len() - at,
    {
        let byte: u8 = bytes[at];
        let fits = (byte >= 48 && byte <= 57) || (byte >= 65 && byte <= 90) || (byte >= 97 && byte
            <= 122) || byte == 95 || byte == 45 || byte == 46;
        if !fits {
            proof {
                assert(!id_byte(bytes@[at as int]));
            }
            return false;
        }
        at += 1;
    }
    true
}

/// Whether a character may stand in a correlation.
pub open spec fn id_char(symbol: char) -> bool {
    '\0' <= symbol <= '\u{7f}' && id_byte(symbol as u8)
}

/// Whether a text is a prefix, a hyphen and thirty-two hexadecimal digits.
pub open spec fn prefixed_id(id: Seq<char>, prefix: Seq<char>) -> bool {
    &&& id.len() == prefix.len() + 33
    &&& id.take(prefix.len() as int) == prefix
    &&& id[prefix.len() as int] == '-'
    &&& forall|k: int| prefix.len() < k < id.len() ==> is_hex(#[trigger] id[k])
}

/// A fresh correlation with a prefix. It is a valid one wherever the prefix is
/// made of characters that may stand there, up to 95 of them.
pub fn new_id(prefix: &str) -> (id: String)
    ensures
        prefixed_id(id@, prefix@),
        prefix@.len() <= 95 && (forall|k: int|
            0 <= k < prefix@.len() ==> id_char(#[trigger] prefix@[k])) ==> correlation(id@),
{
    let tail = random_id();
    let mut id = prefix.to_owned();
    id.append("-");
    id.append(tail.as_str());
    proof {
        reveal_strlit("-");
        let start = prefix@.len() as int;
        assert(id@.take(start) =~= prefix@);
        assert forall|k: int| start < k < id@.len() implies is_hex(#[trigger] id@[k]) by {
            assert(id@[k] == tail@[k - start - 1]);
        }
        if prefix@.len() <= 95 && (forall|k: int|
            0 <= k < prefix@.len() ==> id_char(#[trigger] prefix@[k])) {
            assert forall|k: int| 0 <= k < id@.len() implies id_char(#[trigger] id@[k]) by {
                if k < start {
                    assert(id@[k] == prefix@[k]);
                }
            }
            assert forall|k: int| 0 <= k < id@.len() implies '\0' <= #[trigger] id@[k]
                <= '\u{7f}' by {
                assert(id_char(id@[k]));
            }
            vstd::utf8::is_ascii_chars_encode_utf8(id@);
        }
    }
    id
}

/// The sidecar's first frame.
pub struct HelloFrame {
    pub v: u16,
    pub kind: String,
    pub id: String,
    pub protocol: String,
    pub capabilities: Vec<String>,
    pub max_frame_bytes: usize,
}

/// Whether a list of capabilities holds every one that is needed.
pub open spec fn capable(capabilities: Seq<Seq<char>>) -> bool {
    forall|k: int|
        0 <= k < REQUIRED_CAPABILITIES@.len() ==> capabilities.contains(
            (#[trigger] REQUIRED_CAPABILITIES@[k])@,
        )
}

fn is_capable(capabilities: &Vec<String>) -> (is: bool)
    ensures
        is == capable(views(capabilities@)),
{
    let required = REQUIRED_CAPABILITIES;
    let mut at: usize = 0;
    while at < 4
        invariant
            at <= 4,
            required@ == REQUIRED_CAPABILITIES@,
            forall|k: int|
                0 <= k < at ==> views(capabilities@).contains((#[trigger] required@[k])@),
        decreases 4 - at,
    {
        if !holds(capabilities, required[at]) {
            return false;
        }
        at += 1;
    }
    true
}

/// The capabilities that are needed.
pub proof fn required_capabilities_are_named()
    ensures
        REQUIRED_CAPABILITIES@ == seq![
            "connection_state",
            "durable_event_ack",
            "inbound_events",
            "graceful_shutdown",
        ],
{
    assert(REQUIRED_CAPABILITIES@ =~= seq![
        "connection_state",
        "durable_event_ack",
        "inbound_events",
        "graceful_shutdown",
    ]);
}

/// Whether a hello is compatible with a frame bound.
pub open spec fn compatible_hello(hello: HelloFrame, requested_max: usize) -> bool {
    &&& hello.v == VERSION
    &&& hello.kind@ == "hello"@
    &&& hello.protocol@ == PROTOCOL@
    &&& correlation(hello.id@)
    &&& requested_max <= hello.max_frame_bytes <= CHANNEL_SIDECAR_FRAME_BYTES
    &&& capable(views(hello.capabilities@))
}

impl HelloFrame {
    /// Checks a hello against a frame bound. Further capabilities are allowed.
    ///
    /// # Errors
    ///
    /// A violation for one that is not compatible.
    pub fn validate(&self, requested_max: usize) -> (valid: Result<(), LarkError>)
        ensures
            failure_of(valid) == if compatible_hello(*self, requested_max) {
                None
            } else {
                Some(protocol_failure("node sidecar hello is incompatible"@))
            },
    {
        if self.v != VERSION || !same_text(self.kind.as_str(), "hello") || !same_text(
            self.protocol.as_str(),
            PROTOCOL,
        ) || !valid_id(self.id.as_str()) || self.max_frame_bytes < requested_max
            || self.max_frame_bytes > CHANNEL_SIDECAR_FRAME_BYTES || !is_capable(
            &self.capabilities,
        ) {
            return Err(LarkError::protocol("node sidecar hello is incompatible"));
        }
        Ok(())
    }
}

/// The sidecar's answer to a request.
pub struct ResponseFrame {
    pub v: u16,
    pub kind: String,
    pub id: String,
    pub ok: bool,
}

/// Whether an answer accepts the request of a correlation.
pub open spec fn accepting_response(response: ResponseFrame, expected_id: Seq<char>) -> bool {
    &&& response.v == VERSION
    &&& response.kind@ == "response"@
    &&& response.id@ == expected_id
    &&& response.ok
    &&& correlation(response.id@)
}

impl ResponseFrame {
    /// Checks an answer against the correlation of its request.
    ///
    /// # Errors
    ///
    /// A violation for one that does not accept that request.
    pub fn validate(&self, expected_id: &str) -> (valid: Result<(), LarkError>)
        ensures
            failure_of(valid) == if accepting_response(*self, expected_id@) {
                None
            } else {
                Some(protocol_failure("node sidecar response is incompatible"@))
            },
    {
        if self.v != VERSION || !same_text(self.kind.as_str(), "response") || !same_text(
            self.id.as_str(),
            expected_id,
        ) || !self.ok || !valid_id(self.id.as_str()) {
            return Err(LarkError::protocol("node sidecar response is incompatible"));
        }
        Ok(())
    }
}

/// The header that every frame has.
pub struct BaseFrame {
    pub v: u16,
    pub kind: String,
    pub id: String,
}

/// Whether a header is sound.
pub open spec fn sound_header(base: BaseFrame) -> bool {
    base.v == VERSION && correlation(base.id@) && byte_len(base.kind@) <= 64
}

impl BaseFrame {
    /// Checks a header.
    ///
    /// # Errors
    ///
    /// A violation for one that is not sound.
    pub fn validate(&self) -> (valid: Result<(), LarkError>)
        ensures
            failure_of(valid) == if sound_header(*self) {
                None
            } else {
                Some(protocol_failure("node sidecar frame header is invalid"@))
            },
    {
        if self.v != VERSION || !valid_id(self.id.as_str()) || text_bytes(self.kind.as_str()) > 64 {
            return Err(LarkError::protocol("node sidecar frame header is invalid"));
        }
        Ok(())
    }
}

/// An inbound event.
pub struct EventFrame {
    pub v: u16,
    pub kind: String,
    pub id: String,
    pub payload: serde_json::Value,
}

/// A complaint of the sidecar.
pub struct ErrorFrame {
    pub v: u16,
    pub kind: String,
    pub id: String,
    pub code: String,
}

/// Whether a code is one to 64 lower-case letters and underscores.
pub open spec fn sound_code(code: Seq<char>) -> bool {
    let bytes = encode_utf8(code);
    1 <= bytes.len() <= 64 && forall|k: int|
        0 <= k < bytes.len() ==> (97 <= #[trigger] bytes[k] <= 122 || bytes[k] == 95)
}

fn is_sound_code(code: &str) -> (sound: bool)
    ensures
        sound == sound_code(code@),
{
    let bytes = code.as_bytes();
    if bytes.len() == 0 || bytes.len() > 64 {
        return false;
    }
    let mut at: usize = 0;
    while at < bytes.len()
        invariant
            at <= bytes@.len(),
            bytes@ == encode_utf8(code@),
            forall|k: int| 0 <= k < at ==> (97 <= #[trigger] bytes@[k] <= 122 || bytes@[k] == 95),
        decreases bytes@.len() - at,
    {
        let byte: u8 = bytes[at];
        if !((byte >= 97 && byte <= 122) || byte == 95) {
            proof {
                assert(!(97 <= bytes@[at as int] <= 122 || bytes@[at as int] == 95));
            }
            return false;
        }
        at += 1;
    }
    true
}

impl ErrorFrame {
    /// Checks a complaint.
    ///
    /// # Errors
    ///
    /// A violation for one that is not sound.
    pub fn validate(&self) -> (valid: Result<(), LarkError>)
        ensures
            failure_of(valid) == if self.v == VERSION && self.kind@ == "error"@ && correlation(
                self.id@,
            ) && sound_code(self.code@) {
                None
            } else {
                Some(protocol_failure("node sidecar error frame is invalid"@))
            },
    {
        if self.v != VERSION || !same_text(self.kind.as_str(), "error") || !valid_id(
            self.id.as_str(),
        ) || !is_sound_code(self.code.as_str()) {
            return Err(LarkError::protocol("node sidecar error frame is invalid"));
        }
        Ok(())
    }
}

impl EventFrame {
    /// Checks the header of an event.
    ///
    /// # Errors
    ///
    /// A violation for one that is not sound.
    pub fn validate(&self) -> (valid: Result<(), LarkError>)
        ensures
            failure_of(valid) == if self.v == VERSION && self.kind@ == "event"@ && correlation(
                self.id@,
            ) {
                None
            } else {
                Some(protocol_failure("node sidecar event header is invalid"@))
            },
    {
        if self.v != VERSION || !same_text(self.kind.as_str(), "event") || !valid_id(
            self.id.as_str(),
        ) {
            return Err(LarkError::protocol("node sidecar event header is invalid"));
        }
        Ok(())
    }
}

/// A change of the sidecar's connection.
pub struct StateFrame {
    pub v: u16,
    pub kind: String,
    pub id: String,
    pub state: String,
    pub attempt: Option<u32>,
    pub delay_ms: Option<u64>,
}

/// What a frame means for the session.
#[derive(Clone, Copy, Debug, PartialEq, Eq, Structural)]
pub enum FrameEffect {
    Continue,
    Connected,
    Disconnected,
    Failed,
    Stopped,
}

/// The attempt that a frame names, at least the first.
pub open spec fn attempt_of(attempt: Option<u32>) -> u32 {
    match attempt {
        Some(number) => if number >= 1 {
            number
        } else {
            1
        },
        None => 1,
    }
}

/// The state that a word names, and what it means for the session.
pub open spec fn state_named(word: Seq<char>, attempt: Option<u32>, delay_ms: Option<u64>) -> Option<
    (ConnectionView, FrameEffect),
> {
    if word == "connecting"@ || word == "reconnecting"@ {
        Some(
            (
                ConnectionView::Connecting { attempt: attempt_of(attempt) },
                FrameEffect::Disconnected,
            ),
        )
    } else if word == "connected"@ {
        Some((ConnectionView::Connected, FrameEffect::Connected))
    } else if word == "backoff"@ {
        Some(
            (
                ConnectionView::Backoff {
                    attempt: attempt_of(attempt),
                    delay_ms: match delay_ms {
                        Some(millis) => millis,
                        None => 0,
                    },
                },
                FrameEffect::Disconnected,
            ),
        )
    } else if word == "failed"@ {
        Some(
            (
                ConnectionView::Degraded { reason: "node_sidecar_connection_failed"@ },
                FrameEffect::Failed,
            ),
        )
    } else if word == "stopped"@ {
        Some((ConnectionView::Stopped, FrameEffect::Stopped))
    } else {
        None
    }
}

/// What a change of the connection leads to.
pub open spec fn state_read(frame: StateFrame) -> Result<
    (ConnectionView, FrameEffect),
    LarkErrorView,
> {
    if frame.v != VERSION || frame.kind@ != "state"@ || !correlation(frame.id@) {
        Err(protocol_failure("node sidecar state header is invalid"@))
    } else {
        match state_named(frame.state@, frame.attempt, frame.delay_ms) {
            Some(named) => Ok(named),
            None => Err(protocol_failure("node sidecar state is unknown"@)),
        }
    }
}

impl StateFrame {
    /// Reads a change of the connection: the state to publish, and what it
    /// means for the session.
    ///
    /// # Errors
    ///
    /// A violation for an unsound header or an unknown state.
    pub fn read(&self) -> (read: Result<(ConnectionState, FrameEffect), LarkError>)
        ensures
            match read {
                Ok((state, effect)) => state_read(*self) == Ok::<
                    (ConnectionView, FrameEffect),
                    LarkErrorView,
                >((state@, effect)),
                Err(error) => state_read(*self) == Err::<
                    (ConnectionView, FrameEffect),
                    LarkErrorView,
                >(error@),
            },
    {
        if self.v != VERSION || !same_text(self.kind.as_str(), "state") || !valid_id(
            self.id.as_str(),
        ) {
            return Err(LarkError::protocol("node sidecar state header is invalid"));
        }
        let attempt: u32 = match self.attempt {
            Some(number) => if number >= 1 {
                number
            } else {
                1
            },
            None => 1,
        };
        let word = self.state.as_str();
        if same_text(word, "connecting") || same_text(word, "reconnecting") {
            Ok((ConnectionState::Connecting { attempt }, FrameEffect::Disconnected))
        } else if same_text(word, "connected") {
            Ok((ConnectionState::Connected, FrameEffect::Connected))
        } else if same_text(word, "backoff") {
            let delay_ms: u64 = match self.delay_ms {
                Some(millis) => millis,
                None => 0,
            };
            Ok((ConnectionState::Backoff { attempt, delay_ms }, FrameEffect::Disconnected))
        } else if same_text(word, "failed") {
            Ok(
                (
                    ConnectionState::Degraded { reason: "node_sidecar_connection_failed" },
                    FrameEffect::Failed,
                ),
            )
        } else if same_text(word, "stopped") {
            Ok((ConnectionState::Stopped, FrameEffect::Stopped))
        } else {
            Err(LarkError::protocol("node sidecar state is unknown"))
        }
    }
}

/// The members that every outbound frame has.
pub open spec fn header_members(kind: Seq<char>, id: Seq<char>) -> Map<Seq<char>, Json> {
    Map::empty().insert("v"@, Json::Integer(VERSION as int)).insert("type"@, Json::Text(kind)).insert(
        "id"@,
        Json::Text(id),
    )
}

fn header_value(kind: &str, id: &str) -> (value: serde_json::Value)
    ensures
        json(value) == Json::Object(header_members(kind@, id@)),
{
    let mut value = empty_object();
    set_field(&mut value, "v", unsigned_value(VERSION as u64));
    set_field(&mut value, "type", text_value(kind));
    set_field(&mut value, "id", text_value(id));
    value
}

/// A refusal of an event, with a static code.
pub open spec fn negative_ack(id: Seq<char>, code: Seq<char>) -> Json {
    Json::Object(
        header_members("event_ack"@, id).insert("ok"@, Json::Bool(false)).insert(
            "error"@,
            Json::Text(code),
        ),
    )
}

/// A refusal of an event, with a static code.
pub fn negative_ack_value(id: &str, code: &str) -> (value: serde_json::Value)
    ensures
        json(value) == negative_ack(id@, code@),
{
    let mut value = header_value("event_ack", id);
    set_field(&mut value, "ok", bool_value(false));
    set_field(&mut value, "error", text_value(code));
    value
}

/// How the durable handler decided an event.
pub enum HandlerOutcome {
    /// Durably taken, with data for the sidecar, if any.
    Accepted { data: Option<serde_json::Value> },
    Failed,
    TimedOut,
}

/// The acknowledgement of an event.
pub open spec fn ack_of(id: Seq<char>, outcome: HandlerOutcome) -> Json {
    match outcome {
        HandlerOutcome::Accepted { data } => Json::Object(
            header_members("event_ack"@, id).insert("ok"@, Json::Bool(true)).insert(
                "data"@,
                match json_option(data) {
                    Some(held) => held,
                    None => Json::Null,
                },
            ),
        ),
        HandlerOutcome::Failed => negative_ack(id, "durable_intake_failed"@),
        HandlerOutcome::TimedOut => negative_ack(id, "durable_intake_timeout"@),
    }
}

/// The acknowledgement of an event: positive exactly when it was durably taken.
pub fn process_event(id: &str, outcome: HandlerOutcome) -> (frame: serde_json::Value)
    ensures
        json(frame) == ack_of(id@, outcome),
{
    match outcome {
        HandlerOutcome::Accepted { data } => {
            let mut value = header_value("event_ack", id);
            set_field(&mut value, "ok", bool_value(true));
            let held = match data {
                Some(held) => held,
                None => null_value(),
            };
            set_field(&mut value, "data", held);
            value
        },
        HandlerOutcome::Failed => negative_ack_value(id, "durable_intake_failed"),
        HandlerOutcome::TimedOut => negative_ack_value(id, "durable_intake_timeout"),
    }
}

/// An event is acknowledged positively only when it was durably taken.
pub proof fn positive_acks_are_durable(id: Seq<char>, outcome: HandlerOutcome)
    requires
        ack_of(id, outcome)->Object_0["ok"@] == Json::Bool(true),
    ensures
        outcome is Accepted,
{
    reveal_strlit("ok");
    reveal_strlit("error");
    assert("ok"@.len() != "error"@.len());
}

/// The identity that the sidecar connects with.
pub struct SidecarCredentials {
    pub app_id: String,
    pub app_secret: String,
    pub tenant: String,
}

/// The time that the sidecar waits for an acknowledgement.
pub open spec fn ack_timeout(handler_timeout_ms: u64) -> int {
    if handler_timeout_ms + CHANNEL_SIDECAR_ACK_GRACE_MS <= u64::MAX {
        handler_timeout_ms + CHANNEL_SIDECAR_ACK_GRACE_MS
    } else {
        u64::MAX as int
    }
}

/// The members of the configuration frame.
pub open spec fn configure_members(
    config: NodeSidecarConfig,
    credentials: SidecarCredentials,
    id: Seq<char>,
) -> Map<Seq<char>, Json> {
    header_members("configure"@, id).insert("app_id"@, Json::Text(credentials.app_id@)).insert(
        "app_secret"@,
        Json::Text(credentials.app_secret@),
    ).insert("tenant"@, Json::Text(credentials.tenant@)).insert(
        "max_frame_bytes"@,
        Json::Integer(config.max_frame_bytes as int),
    ).insert("max_in_flight"@, Json::Integer(config.event_capacity as int)).insert(
        "ack_timeout_ms"@,
        Json::Integer(ack_timeout(config.handler_timeout_ms)),
    )
}

/// The configuration frame.
pub fn configure_value(
    config: &NodeSidecarConfig,
    credentials: &SidecarCredentials,
    id: &str,
) -> (value: serde_json::Value)
    ensures
        json(value) == Json::Object(configure_members(*config, *credentials, id@)),
{
    let timeout_ms: u64 = if config.handler_timeout_ms <= u64::MAX - CHANNEL_SIDECAR_ACK_GRACE_MS {
        config.handler_timeout_ms + CHANNEL_SIDECAR_ACK_GRACE_MS
    } else {
        u64::MAX
    };
    let mut value = header_value("configure", id);
    set_field(&mut value, "app_id", text_value(credentials.app_id.as_str()));
    set_field(&mut value, "app_secret", text_value(credentials.app_secret.as_str()));
    set_field(&mut value, "tenant", text_value(credentials.tenant.as_str()));
    set_field(&mut value, "max_frame_bytes", unsigned_value(config.max_frame_bytes as u64));
    set_field(&mut value, "max_in_flight", unsigned_value(config.event_capacity as u64));
    set_field(&mut value, "ack_timeout_ms", unsigned_value(timeout_ms));
    value
}

/// The frame that asks the sidecar to stop.
pub fn shutdown_value(id: &str) -> (value: serde_json::Value)
    ensures
        json(value) == Json::Object(header_members("shutdown"@, id@)),
{
    header_value("shutdown", id)
}

/// The complaint about a frame of an unknown kind.
pub fn unknown_message_value(id: &str) -> (value: serde_json::Value)
    ensures
        json(value) == unknown_message(id@),
{
    let mut value = header_value("error", id);
    set_field(&mut value, "code", text_value("unknown_message"));
    value
}

/// The complaint about a frame of an unknown kind.
pub open spec fn unknown_message(id: Seq<char>) -> Json {
    Json::Object(header_members("error"@, id).insert("code"@, Json::Text("unknown_message"@)))
}

/// Encodes a frame within the bound. It holds no line feed.
///
/// # Errors
///
/// Exhaustion for a frame over the bound.
pub fn encode_frame(value: &serde_json::Value, max_frame_bytes: usize) -> (encoded: Result<
    Vec<u8>,
    LarkError,
>)
    ensures
        match encoded {
            Ok(bytes) => {
                &&& bytes@ == json_text(json(*value))
                &&& bytes@.len() <= max_frame_bytes
                &&& forall|k: int| 0 <= k < bytes@.len() ==> #[trigger] bytes@[k] != 0x0a
            },
            Err(error) => json_text(json(*value)).len() > max_frame_bytes && error@ == (
            LarkErrorView::Exhausted {
                context: "node sidecar outbound frame"@,
                limit: max_frame_bytes as u64,
            }),
        },
{
    match to_bytes(value) {
        Some(bytes) => {
            if bytes.len() > max_frame_bytes {
                Err(LarkError::exhausted("node sidecar outbound frame", max_frame_bytes as u64))
            } else {
                Ok(bytes)
            }
        },
        None => Err(LarkError::protocol("encoding a node sidecar frame")),
    }
}

/// The failure of a frame for which the queue has no room.
pub fn queue_full(capacity: usize) -> (error: LarkError)
    ensures
        error@ == (LarkErrorView::Exhausted {
            context: "node sidecar write queue"@,
            limit: capacity as u64,
        }),
{
    LarkError::exhausted("node sidecar write queue", capacity as u64)
}

/// The events whose acknowledgement is owed.
pub struct ActiveEventIds {
    ids: Vec<String>,
}

impl View for ActiveEventIds {
    type V = Seq<Seq<char>>;

    closed spec fn view(&self) -> Seq<Seq<char>> {
        views(self.ids@)
    }
}

/// A list of texts without one.
pub open spec fn without_text(list: Seq<Seq<char>>, text: Seq<char>) -> Seq<Seq<char>>
    decreases list.len(),
{
    if list.len() == 0 {
        Seq::empty()
    } else if list.first() == text {
        list.drop_first()
    } else {
        seq![list.first()] + without_text(list.drop_first(), text)
    }
}

proof fn lemma_without_text(list: Seq<Seq<char>>, text: Seq<char>, at: int)
    requires
        0 <= at <= list.len(),
        forall|k: int| 0 <= k < at ==> (#[trigger] list[k]) != text,
        at < list.len() ==> list[at] == text,
    ensures
        without_text(list, text) == if at < list.len() {
            list.remove(at)
        } else {
            list
        },
    decreases list.len(),
{
    if list.len() == 0 {
        assert(list =~= Seq::empty());
    } else if at == 0 {
        assert(list.remove(0) =~= list.drop_first());
    } else {
        assert(list[0] != text);
        let rest = list.drop_first();
        assert forall|k: int| 0 <= k < at - 1 implies (#[trigger] rest[k]) != text by {
            assert(rest[k] == list[k + 1]);
        }
        lemma_without_text(rest, text, at - 1);
        if at < list.len() {
            assert(list.remove(at) =~= seq![list.first()] + rest.remove(at - 1));
        } else {
            assert(list =~= seq![list.first()] + rest);
        }
    }
}

impl ActiveEventIds {
    /// No acknowledgement is owed twice.
    pub open spec fn wf(&self) -> bool {
        self@.no_duplicates()
    }

    pub fn new() -> (active: ActiveEventIds)
        ensures
            active.wf(),
            active@.len() == 0,
    {
        ActiveEventIds { ids: Vec::new() }
    }

    /// How many acknowledgements are owed.
    pub fn len(&self) -> (count: usize)
        ensures
            count == self@.len(),
    {
        self.ids.len()
    }

    /// Adds an event, unless its acknowledgement is owed already.
    pub fn insert(&mut self, id: &str) -> (added: bool)
        requires
            old(self).wf(),
        ensures
            final(self).wf(),
            added == !old(self)@.contains(id@),
            final(self)@ == if added {
                old(self)@.push(id@)
            } else {
                old(self)@
            },
    {
        if holds(&self.ids, id) {
            return false;
        }
        let ghost before = self@;
        self.ids.push(id.to_owned());
        proof {
            assert(self@ =~= before.push(id@));
        }
        true
    }

    /// Removes an event that was acknowledged.
    pub fn remove(&mut self, id: &str)
        requires
            old(self).wf(),
        ensures
            final(self).wf(),
            final(self)@ == without_text(old(self)@, id@),
            !final(self)@.contains(id@),
    {
        let ghost before = self@;
        let mut at: usize = 0;
        while at < self.ids.len()
            invariant
                at <= self.ids@.len(),
                self@ == before,
                before.no_duplicates(),
                before == old(self)@,
                forall|k: int| 0 <= k < at ==> (#[trigger] before[k]) != id@,
            decreases self.ids@.len() - at,
        {
            proof {
                assert(before[at as int] == self.ids@[at as int]@);
            }
            if same_text(self.ids[at].as_str(), id) {
                proof {
                    lemma_without_text(before, id@, at as int);
                }
                let _ = self.ids.remove(at);
                proof {
                    assert(self@ =~= before.remove(at as int));
                }
                return;
            }
            at += 1;
        }
        proof {
            lemma_without_text(before, id@, at as int);
        }
    }

    /// Forgets every event.
    pub fn clear(&mut self)
        ensures
            final(self).wf(),
            final(self)@.len() == 0,
    {
        self.ids = Vec::new();
    }
}

/// What a line of the sidecar was decoded to. The header is missing where it
/// could not be decoded, and so is the rest under its kind.
pub struct DecodedLine {
    pub base: Option<BaseFrame>,
    pub body: DecodedBody,
}

/// What a line was decoded to under the kind that its header names.
pub enum DecodedBody {
    /// Nothing, or a kind without a form of its own.
    Nothing,
    State(StateFrame),
    Event(EventFrame),
    Error(ErrorFrame),
}

/// What a line leads to.
pub enum LineAction {
    /// Publish a state.
    Publish { state: ConnectionState, effect: FrameEffect },
    /// Send a frame.
    Send { frame: serde_json::Value },
    /// Offer an event to the durable handler.
    Offer { id: String, payload: Vec<u8> },
}

/// What a line leads to, as far as it is stated: over the events whose
/// acknowledgement is owed and the frame bound.
pub open spec fn line_handled(
    active: Seq<Seq<char>>,
    max_frame_bytes: usize,
    line: DecodedLine,
    action: Result<LineAction, LarkError>,
) -> bool {
    if line.base is None {
        failure_of(action) == Some(protocol_failure("decoding a node sidecar frame"@))
    } else if !sound_header(line.base->Some_0) {
        failure_of(action) == Some(protocol_failure("node sidecar frame header is invalid"@))
    } else {
        let kind = line.base->Some_0.kind@;
        if kind == "state"@ {
            match line.body {
                DecodedBody::State(frame) => match state_read(frame) {
                    Ok((state, effect)) => {
                        &&& action is Ok
                        &&& action->Ok_0 is Publish
                        &&& action->Ok_0->state@ == state
                        &&& action->Ok_0->effect == effect
                    },
                    Err(error) => failure_of(action) == Some(error),
                },
                _ => failure_of(action) == Some(protocol_failure("decoding node sidecar state"@)),
            }
        } else if kind == "event"@ {
            match line.body {
                DecodedBody::Event(frame) => if !(frame.v == VERSION && frame.kind@ == "event"@
                    && correlation(frame.id@)) {
                    failure_of(action) == Some(
                        protocol_failure("node sidecar event header is invalid"@),
                    )
                } else if json_text(json(frame.payload)).len() > max_frame_bytes {
                    &&& action is Ok
                    &&& action->Ok_0 is Send
                    &&& json(action->Ok_0->frame) == negative_ack(
                        frame.id@,
                        "payload_too_large"@,
                    )
                } else if active.contains(frame.id@) {
                    failure_of(action) == Some(
                        protocol_failure("node sidecar reused an active event correlation"@),
                    )
                } else {
                    &&& action is Ok
                    &&& action->Ok_0 is Offer
                    &&& action->Ok_0->id@ == frame.id@
                    &&& action->Ok_0->payload@ == json_text(json(frame.payload))
                },
                _ => failure_of(action) == Some(protocol_failure("decoding node sidecar event"@)),
            }
        } else if kind == "response"@ {
            failure_of(action) == Some(
                protocol_failure("node sidecar sent an unsolicited response"@),
            )
        } else if kind == "error"@ {
            match line.body {
                DecodedBody::Error(frame) => failure_of(action) == if frame.v == VERSION
                    && frame.kind@ == "error"@ && correlation(frame.id@) && sound_code(
                    frame.code@,
                ) {
                    Some(protocol_failure("node sidecar rejected a protocol message"@))
                } else {
                    Some(protocol_failure("node sidecar error frame is invalid"@))
                },
                _ => failure_of(action) == Some(protocol_failure("decoding node sidecar error"@)),
            }
        } else {
            &&& action is Ok
            &&& action->Ok_0 is Send
            &&& json(action->Ok_0->frame) == unknown_message(line.base->Some_0.id@)
        }
    }
}

/// The events whose acknowledgement is owed after a line.
pub open spec fn owed_after(
    active: Seq<Seq<char>>,
    action: Result<LineAction, LarkError>,
) -> Seq<Seq<char>> {
    match action {
        Ok(LineAction::Offer { id, .. }) => active.push(id@),
        _ => active,
    }
}

fn handle_event(frame: EventFrame, active: &mut ActiveEventIds, max_frame_bytes: usize) -> (action:
    Result<LineAction, LarkError>)
    requires
        old(active).wf(),
    ensures
        final(active).wf(),
        final(active)@ == owed_after(old(active)@, action),
        if !(frame.v == VERSION && frame.kind@ == "event"@ && correlation(frame.id@)) {
            failure_of(action) == Some(protocol_failure("node sidecar event header is invalid"@))
        } else if json_text(json(frame.payload)).len() > max_frame_bytes {
            &&& action is Ok
            &&& action->Ok_0 is Send
            &&& json(action->Ok_0->frame) == negative_ack(frame.id@, "payload_too_large"@)
        } else if old(active)@.contains(frame.id@) {
            failure_of(action) == Some(
                protocol_failure("node sidecar reused an active event correlation"@),
            )
        } else {
            &&& action is Ok
            &&& action->Ok_0 is Offer
            &&& action->Ok_0->id@ == frame.id@
            &&& action->Ok_0->payload@ == json_text(json(frame.payload))
        },
{
    if let Err(error) = frame.validate() {
        return Err(error);
    }
    let payload = match to_bytes(&frame.payload) {
        Some(bytes) => bytes,
        None => {
            return Err(LarkError::protocol("encoding node sidecar event payload"));
        },
    };
    if payload.len() > max_frame_bytes {
        return Ok(
            LineAction::Send { frame: negative_ack_value(frame.id.as_str(), "payload_too_large") },
        );
    }
    if !active.insert(frame.id.as_str()) {
        return Err(LarkError::protocol("node sidecar reused an active event correlation"));
    }
    Ok(LineAction::Offer { id: frame.id, payload })
}

/// Takes a line of the sidecar, given what it was decoded to.
///
/// # Errors
///
/// A violation for anything that the contract does not allow.
pub fn handle_line(line: DecodedLine, active: &mut ActiveEventIds, max_frame_bytes: usize) -> (
action: Result<LineAction, LarkError>)
    requires
        old(active).wf(),
    ensures
        final(active).wf(),
        line_handled(old(active)@, max_frame_bytes, line, action),
        final(active)@ == owed_after(old(active)@, action),
{
    let base = match line.base {
        Some(base) => base,
        None => {
            return Err(LarkError::protocol("decoding a node sidecar frame"));
        },
    };
    if let Err(error) = base.validate() {
        return Err(error);
    }
    let kind = base.kind.as_str();
    if same_text(kind, "state") {
        match line.body {
            DecodedBody::State(frame) => match frame.read() {
                Ok((state, effect)) => Ok(LineAction::Publish { state, effect }),
                Err(error) => Err(error),
            },
            _ => Err(LarkError::protocol("decoding node sidecar state")),
        }
    } else if same_text(kind, "event") {
        match line.body {
            DecodedBody::Event(frame) => handle_event(frame, active, max_frame_bytes),
            _ => Err(LarkError::protocol("decoding node sidecar event")),
        }
    } else if same_text(kind, "response") {
        Err(LarkError::protocol("node sidecar sent an unsolicited response"))
    } else if same_text(kind, "error") {
        match line.body {
            DecodedBody::Error(frame) => match frame.validate() {
                Ok(()) => Err(LarkError::protocol("node sidecar rejected a protocol message")),
                Err(error) => Err(error),
            },
            _ => Err(LarkError::protocol("decoding node sidecar error")),
        }
    } else {
        Ok(LineAction::Send { frame: unknown_message_value(base.id.as_str()) })
    }
}

/// How the queue of the durable handler took an event.
#[derive(Clone, Copy, Debug, PartialEq, Eq, Structural)]
pub enum OfferOutcome {
    Taken,
    Full,
    Closed,
}

/// Takes how an offered event was received: one that was not taken is refused
/// at once, and nothing is owed for it any more.
pub fn settle_offer(id: &str, outcome: OfferOutcome, active: &mut ActiveEventIds) -> (refusal:
    Option<serde_json::Value>)
    requires
        old(active).wf(),
    ensures
        match offer_refused(outcome) {
            Some(code) => json_option(refusal) == Some(negative_ack(id@, code)) && final(active)@
                == without_text(old(active)@, id@),
            None => refusal is None && final(active)@ == old(active)@,
        },
        final(active).wf(),
        final(active)@ == if outcome == OfferOutcome::Taken {
            old(active)@
        } else {
            without_text(old(active)@, id@)
        },
        json_option(refusal) == match outcome {
            OfferOutcome::Taken => None,
            OfferOutcome::Full => Some(negative_ack(id@, "backpressure"@)),
            OfferOutcome::Closed => Some(negative_ack(id@, "intake_unavailable"@)),
        },
{
    match outcome {
        OfferOutcome::Taken => None,
        OfferOutcome::Full => {
            active.remove(id);
            Some(negative_ack_value(id, "backpressure"))
        },
        OfferOutcome::Closed => {
            active.remove(id);
            Some(negative_ack_value(id, "intake_unavailable"))
        },
    }
}

/// A state is reported by its own word: each word of the contract has its own
/// state and effect, with the attempt and delay that came along, and any other
/// word is refused.
pub proof fn states_are_read_by_their_word(
    attempt: Option<u32>,
    delay_ms: Option<u64>,
    word: Seq<char>,
)
    ensures
        ({
            let tries = if attempt is Some && attempt->Some_0 > 0 {
                attempt->Some_0
            } else {
                1u32
            };
            let pause = if delay_ms is Some {
                delay_ms->Some_0
            } else {
                0u64
            };
            &&& state_named("connecting"@, attempt, delay_ms) == Some(
                (ConnectionView::Connecting { attempt: tries }, FrameEffect::Disconnected),
            )
            &&& state_named("reconnecting"@, attempt, delay_ms) == Some(
                (ConnectionView::Connecting { attempt: tries }, FrameEffect::Disconnected),
            )
            &&& state_named("connected"@, attempt, delay_ms) == Some(
                (ConnectionView::Connected, FrameEffect::Connected),
            )
            &&& state_named("backoff"@, attempt, delay_ms) == Some(
                (
                    ConnectionView::Backoff { attempt: tries, delay_ms: pause },
                    FrameEffect::Disconnected,
                ),
            )
            &&& state_named("failed"@, attempt, delay_ms) matches Some((state, effect))
                && state is Degraded && effect == FrameEffect::Failed
            &&& state_named("stopped"@, attempt, delay_ms) == Some(
                (ConnectionView::Stopped, FrameEffect::Stopped),
            )
            &&& state_named(word, attempt, delay_ms) is Some <==> word == "connecting"@ || word
                == "reconnecting"@ || word == "connected"@ || word == "backoff"@ || word
                == "failed"@ || word == "stopped"@
        }),
{
    reveal_strlit("connecting");
    reveal_strlit("reconnecting");
    reveal_strlit("connected");
    reveal_strlit("backoff");
    reveal_strlit("failed");
    reveal_strlit("stopped");
    assert("connecting"@.len() == 10 && "reconnecting"@.len() == 12 && "connected"@.len() == 9);
    assert("backoff"@.len() == 7 && "failed"@.len() == 6 && "stopped"@.len() == 7);
    assert("backoff"@[0] == 'b' && "stopped"@[0] == 's');
}

proof fn lemma_frame_names()
    ensures
        "v"@ != "type"@,
        "v"@ != "id"@,
        "type"@ != "id"@,
        "ok"@ != "v"@,
        "ok"@ != "type"@,
        "ok"@ != "id"@,
        "ok"@ != "data"@,
        "ok"@ != "error"@,
        "data"@ != "v"@,
        "data"@ != "type"@,
        "data"@ != "id"@,
        "data"@ != "error"@,
        "error"@ != "v"@,
        "error"@ != "type"@,
        "error"@ != "id"@,
        "code"@ != "v"@,
        "code"@ != "type"@,
        "code"@ != "id"@,
{
    reveal_strlit("v");
    reveal_strlit("type");
    reveal_strlit("id");
    reveal_strlit("ok");
    reveal_strlit("data");
    reveal_strlit("error");
    reveal_strlit("code");
    assert("v"@.len() == 1 && "type"@.len() == 4 && "id"@.len() == 2 && "ok"@.len() == 2
        && "data"@.len() == 4 && "error"@.len() == 5 && "code"@.len() == 4);
    assert("id"@[0] == 'i' && "ok"@[0] == 'o' && "type"@[0] == 't' && "data"@[0] == 'd'
        && "code"@[0] == 'c');
}

/// An event is answered under its own number and says how it went: taken, with
/// the data for the sidecar, or not, with the reason.
pub proof fn events_are_answered_as_they_went(id: Seq<char>, outcome: HandlerOutcome)
    ensures
        ({
            let ack = ack_of(id, outcome);
            let members = ack->Object_0;
            &&& ack is Object
            &&& members["id"@] == Json::Text(id)
            &&& members["type"@] == Json::Text("event_ack"@)
            &&& members["v"@] == Json::Integer(VERSION as int)
            &&& members["ok"@] == Json::Bool(outcome is Accepted)
            &&& outcome matches HandlerOutcome::Accepted { data } ==> members["data"@] == (
            match data {
                Some(held) => json(held),
                None => Json::Null,
            })
            &&& outcome is Failed ==> members["error"@] == Json::Text("durable_intake_failed"@)
            &&& outcome is TimedOut ==> members["error"@] == Json::Text("durable_intake_timeout"@)
            &&& !(outcome is Accepted) ==> !members.dom().contains("data"@)
        }),
{
    lemma_frame_names();
}

/// What the sidecar is configured with: the credentials as they are, the frame
/// bound, as many events in flight as the queue holds, and a time for answers
/// that is longer than that for decisions.
pub proof fn sidecars_are_configured_as_asked(
    config: NodeSidecarConfig,
    credentials: SidecarCredentials,
    id: Seq<char>,
)
    ensures
        ({
            let members = configure_members(config, credentials, id);
            &&& members["id"@] == Json::Text(id)
            &&& members["type"@] == Json::Text("configure"@)
            &&& members["app_id"@] == Json::Text(credentials.app_id@)
            &&& members["app_secret"@] == Json::Text(credentials.app_secret@)
            &&& members["tenant"@] == Json::Text(credentials.tenant@)
            &&& members["max_frame_bytes"@] == Json::Integer(config.max_frame_bytes as int)
            &&& members["max_in_flight"@] == Json::Integer(config.event_capacity as int)
            &&& config.handler_timeout_ms + CHANNEL_SIDECAR_ACK_GRACE_MS <= u64::MAX
                ==> members["ack_timeout_ms"@] == Json::Integer(
                config.handler_timeout_ms + CHANNEL_SIDECAR_ACK_GRACE_MS,
            )
        }),
{
    reveal_strlit("v");
    reveal_strlit("type");
    reveal_strlit("id");
    reveal_strlit("app_id");
    reveal_strlit("app_secret");
    reveal_strlit("tenant");
    reveal_strlit("max_frame_bytes");
    reveal_strlit("max_in_flight");
    reveal_strlit("ack_timeout_ms");
    assert("v"@.len() == 1 && "type"@.len() == 4 && "id"@.len() == 2 && "app_id"@.len() == 6
        && "app_secret"@.len() == 10 && "tenant"@.len() == 6 && "max_frame_bytes"@.len() == 15
        && "max_in_flight"@.len() == 13 && "ack_timeout_ms"@.len() == 14);
    assert("app_id"@[0] == 'a' && "tenant"@[0] == 't');
}

/// An event with a sound header and a fresh number is offered as it is, and is
/// owed an answer from then on; one whose number is still owed an answer breaks
/// the contract, and one that is too large is refused under its own number.
pub proof fn events_are_offered_once(
    active: Seq<Seq<char>>,
    max_frame_bytes: usize,
    base: BaseFrame,
    frame: EventFrame,
    action: Result<LineAction, LarkError>,
)
    requires
        sound_header(base),
        base.kind@ == "event"@,
        frame.v == VERSION,
        frame.kind@ == "event"@,
        correlation(frame.id@),
        line_handled(
            active,
            max_frame_bytes,
            DecodedLine { base: Some(base), body: DecodedBody::Event(frame) },
            action,
        ),
    ensures
        ({
            let fits = json_text(json(frame.payload)).len() <= max_frame_bytes;
            let fresh = !active.contains(frame.id@);
            &&& fits && fresh ==> match action {
                Ok(LineAction::Offer { id, payload }) => id@ == frame.id@ && payload@ == json_text(
                    json(frame.payload),
                ) && owed_after(active, action) == active.push(frame.id@),
                _ => false,
            }
            &&& fits && !fresh ==> action is Err && owed_after(active, action) == active
            &&& !fits ==> match action {
                Ok(LineAction::Send { frame: sent }) => json(sent) is Object
                    && json(sent)->Object_0["id"@] == Json::Text(frame.id@)
                    && json(sent)->Object_0["ok"@] == Json::Bool(false)
                    && json(sent)->Object_0["error"@] == Json::Text("payload_too_large"@)
                    && owed_after(active, action) == active,
                _ => false,
            }
        }),
{
    lemma_frame_names();
    reveal_strlit("event");
    reveal_strlit("state");
    assert("event"@[0] == 'e' && "state"@[0] == 's');
}

/// A state frame is published as what it says, and one that is not sound breaks
/// the contract; so do answers that nobody asked for and errors; what is not
/// known is answered as such under its own number.
pub proof fn frames_are_handled_by_their_kind(
    active: Seq<Seq<char>>,
    max_frame_bytes: usize,
    base: BaseFrame,
    body: DecodedBody,
    action: Result<LineAction, LarkError>,
)
    requires
        sound_header(base),
        line_handled(active, max_frame_bytes, DecodedLine { base: Some(base), body }, action),
    ensures
        base.kind@ == "response"@ ==> action is Err,
        base.kind@ == "error"@ ==> action is Err,
        base.kind@ == "state"@ ==> match body {
            DecodedBody::State(frame) => match state_named(
                frame.state@,
                frame.attempt,
                frame.delay_ms,
            ) {
                Some((named, meant)) => frame.v == VERSION && frame.kind@ == "state"@ && correlation(
                    frame.id@,
                ) ==> match action {
                    Ok(LineAction::Publish { state, effect }) => state@ == named && effect == meant,
                    _ => false,
                },
                None => action is Err,
            },
            _ => action is Err,
        },
        base.kind@ == "event"@ && !(body is Event) ==> action is Err,
        base.kind@ != "state"@ && base.kind@ != "event"@ && base.kind@ != "response"@ && base.kind@
            != "error"@ ==> match action {
            Ok(LineAction::Send { frame }) => json(frame) is Object && json(frame)->Object_0["id"@]
                == Json::Text(base.id@) && json(frame)->Object_0["type"@] == Json::Text("error"@)
                && json(frame)->Object_0["code"@] == Json::Text("unknown_message"@),
            _ => false,
        },
        !(action matches Ok(LineAction::Offer { .. })) ==> owed_after(active, action) == active,
{
    lemma_frame_names();
    reveal_strlit("event");
    reveal_strlit("state");
    reveal_strlit("response");
    reveal_strlit("error");
    assert("event"@.len() == 5 && "state"@.len() == 5 && "response"@.len() == 8 && "error"@.len()
        == 5);
    assert("event"@[1] == 'v' && "state"@[1] == 't' && "error"@[1] == 'r');
}

/// A line without a sound header is not looked into.
pub proof fn headless_lines_break_the_contract(
    active: Seq<Seq<char>>,
    max_frame_bytes: usize,
    line: DecodedLine,
    action: Result<LineAction, LarkError>,
)
    requires
        line_handled(active, max_frame_bytes, line, action),
        line.base is None || line.base->Some_0.v != VERSION || !correlation(line.base->Some_0.id@)
            || byte_len(line.base->Some_0.kind@) > 64,
    ensures
        action is Err,
{
}

/// An answered event is owed an answer no more: its number goes once, and every
/// other number stays.
pub proof fn answered_events_are_owed_no_more(
    active: Seq<Seq<char>>,
    id: Seq<char>,
    other: Seq<char>,
)
    requires
        active.no_duplicates(),
    ensures
        !without_text(active, id).contains(id),
        other != id ==> (without_text(active, id).contains(other) <==> active.contains(other)),
{
    if active.contains(id) {
        let at = choose|k: int| 0 <= k < active.len() && active[k] == id;
        assert forall|k: int| 0 <= k < at implies (#[trigger] active[k]) != id by {}
        lemma_without_text(active, id, at);
        let rest = active.remove(at);
        assert forall|k: int| 0 <= k < rest.len() implies #[trigger] rest[k] != id by {
            let from = if k < at {
                k
            } else {
                k + 1
            };
            assert(rest[k] == active[from]);
        }
        if active.contains(other) && other != id {
            let k = choose|k: int| 0 <= k < active.len() && active[k] == other;
            let moved = if k < at {
                k
            } else {
                k - 1
            };
            assert(rest[moved] == other);
        }
        if rest.contains(other) {
            let k = choose|k: int| 0 <= k < rest.len() && rest[k] == other;
            let from = if k < at {
                k
            } else {
                k + 1
            };
            assert(active[from] == other);
        }
    } else {
        lemma_without_text(active, id, active.len() as int);
    }
}

/// Settings within all bounds are taken, and each of the paths, arguments,
/// bounds and times that is out of bounds is refused.
pub proof fn settings_are_bounded(config: NodeSidecarConfig)
    ensures
        config_fault(config) is None <==> config.node_binary@.len() > 0 && config.entrypoint@.len()
            > 0 && config.arguments@.len() <= 8 && (forall|k: int|
            0 <= k < config.arguments@.len() ==> byte_len((#[trigger] config.arguments@[k])@)
                <= 1024 && !config.arguments@[k]@.contains('\0')) && 1 <= config.max_frame_bytes
            <= CHANNEL_SIDECAR_FRAME_BYTES && 1 <= config.event_capacity
            <= CHANNEL_SIDECAR_EVENT_CAPACITY && 1 <= config.write_capacity
            <= CHANNEL_SIDECAR_WRITE_CAPACITY && 1 <= config.handshake_timeout_ms
            <= CHANNEL_SIDECAR_HANDSHAKE_TIMEOUT_MS && 1 <= config.initial_connect_timeout_ms
            <= CHANNEL_SIDECAR_CONNECT_TIMEOUT_MS && 1 <= config.healthy_uptime_ms
            <= CHANNEL_SIDECAR_HEALTHY_UPTIME_MS && 1 <= config.handler_timeout_ms
            <= CHANNEL_SIDECAR_HANDLER_TIMEOUT_MS && 1 <= config.shutdown_grace_ms
            <= CHANNEL_SIDECAR_SHUTDOWN_GRACE_MS,
{
}

/// A greeting is taken exactly from a sidecar that speaks this contract in this
/// version, can frame as much as is asked, and has every capability that is
/// required; an answer only under the number that was asked and where it says
/// yes.
pub proof fn only_compatible_sidecars_are_taken(
    hello: HelloFrame,
    requested_max: usize,
    response: ResponseFrame,
    id: Seq<char>,
)
    ensures
        compatible_hello(hello, requested_max) ==> hello.v == VERSION && hello.protocol@ == PROTOCOL@
            && hello.kind@ == "hello"@ && requested_max <= hello.max_frame_bytes && views(
            hello.capabilities@,
        ).contains("durable_event_ack"@) && views(hello.capabilities@).contains(
            "inbound_events"@,
        ) && views(hello.capabilities@).contains("connection_state"@) && views(
            hello.capabilities@,
        ).contains("graceful_shutdown"@),
        accepting_response(response, id) <==> response.v == VERSION && response.kind@ == "response"@
            && response.id@ == id && response.ok && correlation(id),
{
    required_capabilities_are_named();
    if compatible_hello(hello, requested_max) {
        assert(REQUIRED_CAPABILITIES@.len() == 4);
        assert(views(hello.capabilities@).contains(REQUIRED_CAPABILITIES@[0]@));
        assert(views(hello.capabilities@).contains(REQUIRED_CAPABILITIES@[1]@));
        assert(views(hello.capabilities@).contains(REQUIRED_CAPABILITIES@[2]@));
        assert(views(hello.capabilities@).contains(REQUIRED_CAPABILITIES@[3]@));
    }
}

/// The code under which an event that could not be offered is refused.
pub open spec fn offer_refused(outcome: OfferOutcome) -> Option<Seq<char>> {
    match outcome {
        OfferOutcome::Taken => None,
        OfferOutcome::Full => Some("backpressure"@),
        OfferOutcome::Closed => Some("intake_unavailable"@),
    }
}

/// An event that was taken is not refused and stays owed an answer; one that
/// was not is refused at once, with why, and is owed none.
pub proof fn refused_offers_are_owed_nothing(outcome: OfferOutcome)
    ensures
        offer_refused(outcome) is None <==> outcome == OfferOutcome::Taken,
        offer_refused(outcome) == Some("backpressure"@) <==> outcome == OfferOutcome::Full,
        offer_refused(outcome) == Some("intake_unavailable"@) <==> outcome == OfferOutcome::Closed,
{
    reveal_strlit("backpressure");
    reveal_strlit("intake_unavailable");
    assert("backpressure"@.len() == 12 && "intake_unavailable"@.len() == 18);
}

} // verus!
