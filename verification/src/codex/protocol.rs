//! JSON-RPC envelopes of the app-server, one per JSONL record.
use vstd::prelude::*;

use crate::json::as_integer;
use crate::json::as_items;
use crate::json::as_text;
use crate::json::empty_object;
use crate::json::field;
use crate::json::integer_value;
use crate::json::is_null;
use crate::json::json;
use crate::json::json_list;
use crate::json::json_option;
use crate::json::json_ref;
use crate::json::json_text;
use crate::json::member;
use crate::json::parse_object;
use crate::json::parsed_object;
use crate::json::plain;
use crate::json::set_field;
use crate::json::take_field;
use crate::json::text_value;
use crate::json::to_bytes;
use crate::json::Json;
use crate::limits::MAX_JSONL_LINE_BYTES;

verus! {

/// An opaque request identifier accepted by Codex app-server.
#[derive(Clone, Debug, PartialEq, Eq, Hash)]
pub enum RequestId {
    String(String),
    Integer(i64),
}

/// Content of a request identifier.
pub enum RequestIdView {
    Text(Seq<char>),
    Integer(int),
}

impl View for RequestId {
    type V = RequestIdView;

    open spec fn view(&self) -> RequestIdView {
        match self {
            RequestId::String(text) => RequestIdView::Text(text@),
            RequestId::Integer(number) => RequestIdView::Integer(*number as int),
        }
    }
}

impl RequestId {
    /// Whether two identifiers are the same.
    pub fn same(&self, other: &RequestId) -> (same: bool)
        ensures
            same == (self@ == other@),
    {
        match (self, other) {
            (RequestId::String(left), RequestId::String(right)) => *left == *right,
            (RequestId::Integer(left), RequestId::Integer(right)) => *left == *right,
            _ => false,
        }
    }

    /// The same identifier again.
    pub fn duplicate(&self) -> (copy: RequestId)
        ensures
            copy@ == self@,
    {
        match self {
            RequestId::String(text) => RequestId::String(text.clone()),
            RequestId::Integer(number) => RequestId::Integer(*number),
        }
    }
}

/// The structured error object returned for a failed RPC request.
#[derive(Clone, PartialEq)]
pub struct RpcErrorObject {
    pub code: i64,
    pub message: String,
    pub data: Option<serde_json::Value>,
}

/// Content of an error object.
pub struct RpcErrorView {
    pub code: int,
    pub message: Seq<char>,
    pub data: Option<Json>,
}

impl View for RpcErrorObject {
    type V = RpcErrorView;

    open spec fn view(&self) -> RpcErrorView {
        RpcErrorView {
            code: self.code as int,
            message: self.message@,
            data: json_option(self.data),
        }
    }
}

/// A message received from Codex app-server.
#[derive(Clone, PartialEq)]
pub enum InboundMessage {
    Response { id: RequestId, result: serde_json::Value },
    ErrorResponse { id: RequestId, error: RpcErrorObject },
    Request { id: RequestId, method: String, params: Option<serde_json::Value> },
    Notification { method: String, params: Option<serde_json::Value> },
}

/// A message sent to Codex app-server.
#[derive(Clone, PartialEq)]
pub enum OutboundMessage {
    Request { id: RequestId, method: String, params: Option<serde_json::Value> },
    Notification { method: String, params: Option<serde_json::Value> },
    Response { id: RequestId, result: serde_json::Value },
    ErrorResponse { id: RequestId, error: RpcErrorObject },
}

/// Content of a message, in either direction.
pub enum MessageView {
    Response { id: RequestIdView, result: Json },
    ErrorResponse { id: RequestIdView, error: RpcErrorView },
    Request { id: RequestIdView, method: Seq<char>, params: Option<Json> },
    Notification { method: Seq<char>, params: Option<Json> },
}

impl View for InboundMessage {
    type V = MessageView;

    open spec fn view(&self) -> MessageView {
        match self {
            InboundMessage::Response { id, result } => MessageView::Response {
                id: id@,
                result: json(*result),
            },
            InboundMessage::ErrorResponse { id, error } => MessageView::ErrorResponse {
                id: id@,
                error: error@,
            },
            InboundMessage::Request { id, method, params } => MessageView::Request {
                id: id@,
                method: method@,
                params: json_option(*params),
            },
            InboundMessage::Notification { method, params } => MessageView::Notification {
                method: method@,
                params: json_option(*params),
            },
        }
    }
}

impl View for OutboundMessage {
    type V = MessageView;

    open spec fn view(&self) -> MessageView {
        match self {
            OutboundMessage::Response { id, result } => MessageView::Response {
                id: id@,
                result: json(*result),
            },
            OutboundMessage::ErrorResponse { id, error } => MessageView::ErrorResponse {
                id: id@,
                error: error@,
            },
            OutboundMessage::Request { id, method, params } => MessageView::Request {
                id: id@,
                method: method@,
                params: json_option(*params),
            },
            OutboundMessage::Notification { method, params } => MessageView::Notification {
                method: method@,
                params: json_option(*params),
            },
        }
    }
}

/// A safe protocol parsing or encoding failure. Raw wire contents are never
/// retained.
#[derive(Clone, Copy, Debug)]
pub enum ProtocolError {
    LineTooLong { length: usize, maximum: usize },
    InvalidJson,
    ExpectedObject,
    InvalidEnvelope(&'static str),
    Encode,
}

/// One top-level envelope member, which may be absent.
pub enum Presence<T> {
    Missing,
    Present(T),
}

impl<T> Presence<T> {
    /// The member, where it is there.
    pub open spec fn option(self) -> Option<T> {
        match self {
            Presence::Missing => None,
            Presence::Present(value) => Some(value),
        }
    }

    pub fn is_present(&self) -> (present: bool)
        ensures
            present == (self.option() is Some),
    {
        matches!(self, Presence::Present(_))
    }

    pub fn into_value(self) -> (value: Option<T>)
        ensures
            value == self.option(),
    {
        match self {
            Presence::Missing => None,
            Presence::Present(value) => Some(value),
        }
    }

    pub fn into_option(self) -> (value: Option<T>)
        ensures
            value == self.option(),
    {
        self.into_value()
    }
}

/// The five known members of a protocol object, each as it was written.
pub struct RawEnvelope {
    pub id: Presence<serde_json::Value>,
    pub method: Presence<serde_json::Value>,
    pub params: Presence<serde_json::Value>,
    pub result: Presence<serde_json::Value>,
    pub error: Presence<serde_json::Value>,
}

/// Content of an envelope.
pub struct EnvelopeView {
    pub id: Option<Json>,
    pub method: Option<Json>,
    pub params: Option<Json>,
    pub result: Option<Json>,
    pub error: Option<Json>,
}

impl View for RawEnvelope {
    type V = EnvelopeView;

    open spec fn view(&self) -> EnvelopeView {
        EnvelopeView {
            id: json_option(self.id.option()),
            method: json_option(self.method.option()),
            params: json_option(self.params.option()),
            result: json_option(self.result.option()),
            error: json_option(self.error.option()),
        }
    }
}

/// The identifier that a JSON value stands for: a text, or an integer in the
/// range of `i64`.
pub open spec fn id_of(value: Json) -> Option<RequestIdView> {
    match value {
        Json::Text(text) => Some(RequestIdView::Text(text)),
        Json::Integer(number) => if i64::MIN <= number <= i64::MAX {
            Some(RequestIdView::Integer(number))
        } else {
            None
        },
        _ => None,
    }
}

/// The error object whose three members are these; an absent or null `data`
/// is no data.
pub open spec fn error_of_members(
    code: Option<Json>,
    message: Option<Json>,
    data: Option<Json>,
) -> Option<RpcErrorView> {
    match (code, message) {
        (Some(Json::Integer(number)), Some(Json::Text(text))) => if i64::MIN <= number
            <= i64::MAX {
            Some(
                RpcErrorView {
                    code: number,
                    message: text,
                    data: match data {
                        Some(Json::Null) => None,
                        other => other,
                    },
                },
            )
        } else {
            None
        },
        _ => None,
    }
}

/// The error object that a JSON value stands for: an object by member names,
/// or an array of two or three members in order.
pub open spec fn error_of(value: Json) -> Option<RpcErrorView> {
    match value {
        Json::Object(object) => error_of_members(
            member(object, "code"@),
            member(object, "message"@),
            member(object, "data"@),
        ),
        Json::Array(items) => if items.len() == 2 {
            error_of_members(Some(items[0]), Some(items[1]), None)
        } else if items.len() == 3 {
            error_of_members(Some(items[0]), Some(items[1]), Some(items[2]))
        } else {
            None
        },
        _ => None,
    }
}

/// What an envelope means, or why it is refused.
pub open spec fn classified(envelope: EnvelopeView) -> Result<MessageView, Seq<char>> {
    match envelope.method {
        Some(method) => if envelope.result is Some || envelope.error is Some {
            Err("method cannot be combined with result or error"@)
        } else {
            match method {
                Json::Text(name) => if name.len() == 0 {
                    Err("method must be a non-empty string"@)
                } else {
                    match envelope.id {
                        Some(id) => match id_of(id) {
                            Some(id) => Ok(
                                MessageView::Request { id, method: name, params: envelope.params },
                            ),
                            None => Err("id must be a string or signed integer"@),
                        },
                        None => Ok(
                            MessageView::Notification { method: name, params: envelope.params },
                        ),
                    }
                },
                _ => Err("method must be a non-empty string"@),
            }
        },
        None => if envelope.params is Some {
            Err("params requires a request or notification method"@)
        } else if envelope.id is None {
            Err("response is missing an id"@)
        } else if envelope.result is Some == envelope.error is Some {
            Err("response must contain exactly one of result or error"@)
        } else {
            match id_of(envelope.id->Some_0) {
                None => Err("id must be a string or signed integer"@),
                Some(id) => match envelope.result {
                    Some(result) => Ok(MessageView::Response { id, result }),
                    None => if envelope.error == Some(Json::Null) {
                        Err("error response contains null error"@)
                    } else {
                        match error_of(envelope.error->Some_0) {
                            Some(error) => Ok(MessageView::ErrorResponse { id, error }),
                            None => Err("invalid error object"@),
                        }
                    },
                },
            }
        },
    }
}

fn decode_id(value: &serde_json::Value) -> (id: Result<RequestId, ProtocolError>)
    ensures
        id matches Ok(held) ==> id_of(json(*value)) == Some(held@),
        id matches Err(error) ==> id_of(json(*value)) is None && error
            == ProtocolError::InvalidEnvelope("id must be a string or signed integer"),
{
    if let Some(text) = as_text(value) {
        return Ok(RequestId::String(text.to_owned()));
    }
    match as_integer(value) {
        Some(number) => Ok(RequestId::Integer(number)),
        None => Err(ProtocolError::InvalidEnvelope("id must be a string or signed integer")),
    }
}

fn decode_error_members(
    code: Option<&serde_json::Value>,
    message: Option<&serde_json::Value>,
    data: Option<&serde_json::Value>,
) -> (error: Option<RpcErrorObject>)
    ensures
        ({
            let expected = error_of_members(
                json_ref(code),
                json_ref(message),
                json_ref(data),
            );
            match error {
                Some(held) => expected == Some(held@),
                None => expected is None,
            }
        }),
{
    let (code, message) = match (code, message) {
        (Some(code), Some(message)) => (code, message),
        _ => {
            return None;
        },
    };
    let code: i64 = match as_integer(code) {
        Some(code) => code,
        None => {
            return None;
        },
    };
    let message = match as_text(message) {
        Some(message) => message.to_owned(),
        None => {
            return None;
        },
    };
    let data = match data {
        Some(data) => if is_null(data) {
            None
        } else {
            Some(data.clone())
        },
        None => None,
    };
    Some(RpcErrorObject { code, message, data })
}

fn decode_error(value: &serde_json::Value) -> (error: Option<RpcErrorObject>)
    ensures
        match error {
            Some(held) => error_of(json(*value)) == Some(held@),
            None => error_of(json(*value)) is None,
        },
{
    match as_items(value) {
        Some(items) => {
            proof {
                assert(json_list(items@).len() == items@.len());
            }
            if items.len() == 2 {
                decode_error_members(Some(&items[0]), Some(&items[1]), None)
            } else if items.len() == 3 {
                decode_error_members(Some(&items[0]), Some(&items[1]), Some(&items[2]))
            } else {
                None
            }
        },
        None => decode_error_members(
            field(value, "code"),
            field(value, "message"),
            field(value, "data"),
        ),
    }
}

/// Whether a message is what an envelope means.
pub open spec fn classified_as(
    envelope: EnvelopeView,
    message: Result<InboundMessage, ProtocolError>,
) -> bool {
    match message {
        Ok(message) => classified(envelope) == Ok::<MessageView, Seq<char>>(message@),
        Err(ProtocolError::InvalidEnvelope(reason)) => classified(envelope) == Err::<
            MessageView,
            Seq<char>,
        >(reason@),
        Err(_) => false,
    }
}

/// Decides what an envelope means.
///
/// Missing params become `None`; explicit `params: null` remains a null value.
/// A successful response may contain `result: null`, which remains distinct
/// from a missing result.
pub fn classify(envelope: RawEnvelope) -> (message: Result<InboundMessage, ProtocolError>)
    ensures
        classified_as(envelope@, message),
{
    let has_result = envelope.result.is_present();
    let has_error = envelope.error.is_present();
    let id = envelope.id.into_value();
    let params = envelope.params.into_option();
    if let Some(method) = envelope.method.into_value() {
        if has_result || has_error {
            return Err(
                ProtocolError::InvalidEnvelope("method cannot be combined with result or error"),
            );
        }
        let method = match as_text(&method) {
            Some(method) => method.to_owned(),
            None => {
                return Err(ProtocolError::InvalidEnvelope("method must be a non-empty string"));
            },
        };
        if method.as_str().is_empty() {
            return Err(ProtocolError::InvalidEnvelope("method must be a non-empty string"));
        }
        return match id {
            Some(id) => match decode_id(&id) {
                Ok(id) => Ok(InboundMessage::Request { id, method, params }),
                Err(error) => Err(error),
            },
            None => Ok(InboundMessage::Notification { method, params }),
        };
    }
    if params.is_some() {
        return Err(
            ProtocolError::InvalidEnvelope("params requires a request or notification method"),
        );
    }
    let id = match id {
        Some(id) => id,
        None => {
            return Err(ProtocolError::InvalidEnvelope("response is missing an id"));
        },
    };
    if has_result == has_error {
        return Err(
            ProtocolError::InvalidEnvelope("response must contain exactly one of result or error"),
        );
    }
    let id = match decode_id(&id) {
        Ok(id) => id,
        Err(error) => {
            return Err(error);
        },
    };
    if let Some(result) = envelope.result.into_value() {
        return Ok(InboundMessage::Response { id, result });
    }
    match envelope.error.into_value() {
        Some(error) => {
            if is_null(&error) {
                return Err(ProtocolError::InvalidEnvelope("error response contains null error"));
            }
            match decode_error(&error) {
                Some(error) => Ok(InboundMessage::ErrorResponse { id, error }),
                None => Err(ProtocolError::InvalidEnvelope("invalid error object")),
            }
        },
        None => Err(ProtocolError::InvalidEnvelope("missing response error")),
    }
}

/// Whether a byte is ASCII white space.
pub open spec fn is_white(byte: u8) -> bool {
    byte == 0x20 || byte == 0x09 || byte == 0x0a || byte == 0x0c || byte == 0x0d
}

/// The bytes without one last byte of this value, where there is one.
pub open spec fn without_last(bytes: Seq<u8>, last: u8) -> Seq<u8> {
    if bytes.len() > 0 && bytes.last() == last {
        bytes.drop_last()
    } else {
        bytes
    }
}

/// The record of a line: without its line feed, then without a carriage
/// return before it.
pub open spec fn record_of(line: Seq<u8>) -> Seq<u8> {
    without_last(without_last(line, 0x0a), 0x0d)
}

/// Whether the first byte that is not white space is there and opens no
/// object.
pub open spec fn starts_otherwise(record: Seq<u8>) -> bool {
    exists|at: int|
        0 <= at < record.len() && !is_white(#[trigger] record[at]) && record[at] != 0x7b && (
        forall|before: int| 0 <= before < at ==> is_white(#[trigger] record[before]))
}

fn strip_last(bytes: &[u8], last: u8) -> (rest: &[u8])
    ensures
        rest@ == without_last(bytes@, last),
{
    let length: usize = bytes.len();
    if length > 0 && bytes[length - 1] == last {
        let rest = vstd::slice::slice_subrange(bytes, 0, length - 1);
        proof {
            assert(rest@ =~= bytes@.drop_last());
        }
        rest
    } else {
        bytes
    }
}

/// Takes the record out of one line and checks its size and its first byte.
///
/// # Errors
///
/// `LineTooLong` for a record over the bound, else `ExpectedObject` where the
/// record starts with anything but an object.
pub fn record_payload(line: &[u8]) -> (record: Result<&[u8], ProtocolError>)
    ensures
        match record {
            Ok(record) => record@ == record_of(line@) && record@.len() <= MAX_JSONL_LINE_BYTES
                && !starts_otherwise(record@),
            Err(ProtocolError::LineTooLong { length, maximum }) => record_of(line@).len()
                > MAX_JSONL_LINE_BYTES && length == record_of(line@).len() && maximum
                == MAX_JSONL_LINE_BYTES,
            Err(ProtocolError::ExpectedObject) => record_of(line@).len() <= MAX_JSONL_LINE_BYTES
                && starts_otherwise(record_of(line@)),
            Err(_) => false,
        },
{
    let line = strip_last(line, 0x0a);
    let line = strip_last(line, 0x0d);
    if line.len() > MAX_JSONL_LINE_BYTES {
        return Err(
            ProtocolError::LineTooLong { length: line.len(), maximum: MAX_JSONL_LINE_BYTES },
        );
    }
    let mut at: usize = 0;
    while at < line.len()
        invariant
            at <= line@.len(),
            forall|before: int| 0 <= before < at ==> is_white(#[trigger] line@[before]),
        ensures
            at <= line@.len(),
            forall|before: int| 0 <= before < at ==> is_white(#[trigger] line@[before]),
            at < line@.len() ==> !is_white(line@[at as int]),
        decreases line@.len() - at,
    {
        let byte: u8 = line[at];
        if !(byte == 0x20 || byte == 0x09 || byte == 0x0a || byte == 0x0c || byte == 0x0d) {
            break;
        }
        at += 1;
    }
    if at < line.len() && line[at] != 0x7b {
        proof {
            assert(!is_white(line@[at as int]));
        }
        return Err(ProtocolError::ExpectedObject);
    }
    proof {
        if starts_otherwise(line@) {
            let other = choose|other: int|
                0 <= other < line@.len() && !is_white(#[trigger] line@[other]) && line@[other]
                    != 0x7b && (forall|before: int|
                    0 <= before < other ==> is_white(#[trigger] line@[before]));
            if other < at {
                assert(is_white(line@[other]));
            } else if at < other {
                assert(is_white(line@[at as int]));
            }
        }
    }
    Ok(line)
}

/// What a line means.
pub enum LineView {
    TooLong,
    NoObject,
    InvalidJson,
    Refused(Seq<char>),
    Message(MessageView),
}

/// The envelope of an object with these members.
pub open spec fn envelope_of(members: Map<Seq<char>, Json>) -> EnvelopeView {
    EnvelopeView {
        id: member(members, "id"@),
        method: member(members, "method"@),
        params: member(members, "params"@),
        result: member(members, "result"@),
        error: member(members, "error"@),
    }
}

/// What a line means, given whether its object names a known member twice.
pub open spec fn line_meaning(line: Seq<u8>, repeated: bool) -> LineView {
    let record = record_of(line);
    if record.len() > MAX_JSONL_LINE_BYTES {
        LineView::TooLong
    } else if starts_otherwise(record) {
        LineView::NoObject
    } else {
        match parsed_object(record) {
            None => LineView::InvalidJson,
            Some(members) => if repeated {
                LineView::InvalidJson
            } else {
                match classified(envelope_of(members)) {
                    Ok(message) => LineView::Message(message),
                    Err(reason) => LineView::Refused(reason),
                }
            },
        }
    }
}

fn presence(held: Option<serde_json::Value>) -> (member: Presence<serde_json::Value>)
    ensures
        member.option() == held,
{
    match held {
        Some(value) => Presence::Present(value),
        None => Presence::Missing,
    }
}

/// Decodes and classifies one app-server JSONL record. `repeated` says that the
/// record names one of the five known members more than once: what an object
/// is read as keeps only the last of them.
///
/// # Errors
///
/// Returns [`ProtocolError`] for oversized, invalid, or ambiguous records.
pub fn decode_line(line: &[u8], repeated: bool) -> (message: Result<InboundMessage, ProtocolError>)
    ensures
        match line_meaning(line@, repeated) {
            LineView::TooLong => message == Err::<InboundMessage, ProtocolError>(
                (ProtocolError::LineTooLong {
                    length: record_of(line@).len() as usize,
                    maximum: MAX_JSONL_LINE_BYTES,
                }),
            ),
            LineView::NoObject => message == Err::<InboundMessage, ProtocolError>(
                ProtocolError::ExpectedObject,
            ),
            LineView::InvalidJson => message == Err::<InboundMessage, ProtocolError>(
                ProtocolError::InvalidJson,
            ),
            LineView::Refused(reason) => message matches Err(ProtocolError::InvalidEnvelope(told))
                && told@ == reason,
            LineView::Message(held) => message matches Ok(message) && message@ == held,
        },
{
    let record = match record_payload(line) {
        Ok(record) => record,
        Err(error) => {
            return Err(error);
        },
    };
    let mut object = match parse_object(record) {
        Some(object) => object,
        None => {
            return Err(ProtocolError::InvalidJson);
        },
    };
    if repeated {
        return Err(ProtocolError::InvalidJson);
    }
    proof {
        lemma_member_names_differ();
    }
    let id = presence(take_field(&mut object, "id"));
    let method = presence(take_field(&mut object, "method"));
    let params = presence(take_field(&mut object, "params"));
    let result = presence(take_field(&mut object, "result"));
    let error = presence(take_field(&mut object, "error"));
    classify(RawEnvelope { id, method, params, result, error })
}

/// The JSON form of an identifier.
pub open spec fn id_json(id: RequestIdView) -> Json {
    match id {
        RequestIdView::Text(text) => Json::Text(text),
        RequestIdView::Integer(number) => Json::Integer(number),
    }
}

/// An object with an optional further member.
pub open spec fn with_member(
    object: Map<Seq<char>, Json>,
    name: Seq<char>,
    value: Option<Json>,
) -> Map<Seq<char>, Json> {
    match value {
        Some(value) => object.insert(name, value),
        None => object,
    }
}

/// The JSON form of an error object; absent data is left out.
pub open spec fn error_json(error: RpcErrorView) -> Json {
    Json::Object(
        with_member(
            Map::empty().insert("code"@, Json::Integer(error.code)).insert(
                "message"@,
                Json::Text(error.message),
            ),
            "data"@,
            error.data,
        ),
    )
}

/// The members of the object that a message is written as.
pub open spec fn message_members(message: MessageView) -> Map<Seq<char>, Json> {
    match message {
        MessageView::Request { id, method, params } => with_member(
            Map::empty().insert("id"@, id_json(id)).insert("method"@, Json::Text(method)),
            "params"@,
            params,
        ),
        MessageView::Notification { method, params } => with_member(
            Map::empty().insert("method"@, Json::Text(method)),
            "params"@,
            params,
        ),
        MessageView::Response { id, result } => Map::empty().insert("id"@, id_json(id)).insert(
            "result"@,
            result,
        ),
        MessageView::ErrorResponse { id, error } => Map::empty().insert("id"@, id_json(id)).insert(
            "error"@,
            error_json(error),
        ),
    }
}

/// The JSON value of an identifier.
pub fn id_value(id: &RequestId) -> (value: serde_json::Value)
    ensures
        json(value) == id_json(id@),
{
    match id {
        RequestId::String(text) => text_value(text.as_str()),
        RequestId::Integer(number) => integer_value(*number),
    }
}

fn error_value(error: &RpcErrorObject) -> (value: serde_json::Value)
    ensures
        json(value) == error_json(error@),
{
    let mut object = empty_object();
    set_field(&mut object, "code", integer_value(error.code));
    set_field(&mut object, "message", text_value(error.message.as_str()));
    if let Some(data) = &error.data {
        set_field(&mut object, "data", data.clone());
    }
    object
}

/// The JSON object that a message is written as.
pub fn outbound_value(message: &OutboundMessage) -> (value: serde_json::Value)
    ensures
        json(value) == Json::Object(message_members(message@)),
{
    let mut object = empty_object();
    match message {
        OutboundMessage::Request { id, method, params } => {
            set_field(&mut object, "id", id_value(id));
            set_field(&mut object, "method", text_value(method.as_str()));
            if let Some(params) = params {
                set_field(&mut object, "params", params.clone());
            }
        },
        OutboundMessage::Notification { method, params } => {
            set_field(&mut object, "method", text_value(method.as_str()));
            if let Some(params) = params {
                set_field(&mut object, "params", params.clone());
            }
        },
        OutboundMessage::Response { id, result } => {
            set_field(&mut object, "id", id_value(id));
            set_field(&mut object, "result", result.clone());
        },
        OutboundMessage::ErrorResponse { id, error } => {
            set_field(&mut object, "id", id_value(id));
            set_field(&mut object, "error", error_value(error));
        },
    }
    object
}

/// Checks the size of an encoded record and appends exactly one line feed.
///
/// # Errors
///
/// `LineTooLong` for a record over the bound.
pub fn finish_record(mut bytes: Vec<u8>) -> (line: Result<Vec<u8>, ProtocolError>)
    ensures
        match line {
            Ok(line) => bytes@.len() <= MAX_JSONL_LINE_BYTES && line@ == bytes@.push(0x0a),
            Err(error) => bytes@.len() > MAX_JSONL_LINE_BYTES && error
                == (ProtocolError::LineTooLong {
                length: bytes@.len() as usize,
                maximum: MAX_JSONL_LINE_BYTES,
            }),
        },
{
    if bytes.len() > MAX_JSONL_LINE_BYTES {
        return Err(
            ProtocolError::LineTooLong { length: bytes.len(), maximum: MAX_JSONL_LINE_BYTES },
        );
    }
    bytes.push(0x0a);
    Ok(bytes)
}

/// Whether a message reads back from its own line: its method is not empty, its
/// error data are no explicit null, which reads back as no data, and its values
/// hold no float and are not nested deeper than the reader goes.
pub open spec fn readable(message: MessageView) -> bool {
    match message {
        MessageView::Request { method, params, .. } => method.len() > 0 && (params matches Some(
            value,
        ) ==> plain(value, 126)),
        MessageView::Notification { method, params } => method.len() > 0 && (params matches Some(
            value,
        ) ==> plain(value, 126)),
        MessageView::Response { result, .. } => plain(result, 126),
        MessageView::ErrorResponse { error, .. } => error.data matches Some(data) ==> data
            != Json::Null && plain(data, 125),
    }
}

/// Encodes one app-server message and appends exactly one line feed. The line
/// holds no other one, and decoding it gives the message back.
///
/// # Errors
///
/// Returns `LineTooLong` when the encoded record exceeds the JSONL line limit.
pub fn encode_line(message: &OutboundMessage) -> (line: Result<Vec<u8>, ProtocolError>)
    ensures
        ({
            let record = json_text(Json::Object(message_members(message@)));
            match line {
                Ok(line) => {
                    &&& record.len() <= MAX_JSONL_LINE_BYTES
                    &&& line@ == record.push(0x0a)
                    &&& vstd::utf8::valid_utf8(record)
                    &&& forall|k: int|
                        0 <= k < line@.len() - 1 ==> #[trigger] line@[k] != 0x0a
                    &&& readable(message@) ==> line_meaning(line@, false) == LineView::Message(
                        message@,
                    )
                },
                Err(error) => record.len() > MAX_JSONL_LINE_BYTES && error
                    == (ProtocolError::LineTooLong {
                    length: record.len() as usize,
                    maximum: MAX_JSONL_LINE_BYTES,
                }),
            }
        }),
{
    let value = outbound_value(message);
    match to_bytes(&value) {
        Some(bytes) => {
            let ghost record = bytes@;
            let line = finish_record(bytes);
            proof {
                if line is Ok {
                    let held = line->Ok_0@;
                    assert(held.drop_last() =~= record);
                    assert(record_of(held) == record);
                    assert(record[0] == 0x7b);
                    if readable(message@) {
                        lemma_readable_is_plain(message@);
                        written_message_reads_back(*message);
                    }
                }
            }
            line
        },
        None => Err(ProtocolError::Encode),
    }
}

proof fn lemma_readable_is_plain(message: MessageView)
    requires
        readable(message),
    ensures
        plain(Json::Object(message_members(message)), 127),
{
    let members = message_members(message);
    match message {
        MessageView::ErrorResponse { id, error } => {
            let inner = error_json(error)->Object_0;
            assert forall|name: Seq<char>| #[trigger] inner.dom().contains(name) implies plain(
                inner[name],
                125,
            ) by {}
            assert(plain(error_json(error), 126));
        },
        _ => {},
    }
    assert forall|name: Seq<char>| #[trigger] members.dom().contains(name) implies plain(
        members[name],
        126,
    ) by {}
}

proof fn lemma_member_names_differ()
    ensures
        "id"@ != "method"@,
        "id"@ != "params"@,
        "id"@ != "result"@,
        "id"@ != "error"@,
        "method"@ != "params"@,
        "method"@ != "result"@,
        "method"@ != "error"@,
        "params"@ != "result"@,
        "params"@ != "error"@,
        "result"@ != "error"@,
        "code"@ != "message"@,
        "code"@ != "data"@,
        "message"@ != "data"@,
{
    reveal_strlit("id");
    reveal_strlit("method");
    reveal_strlit("params");
    reveal_strlit("result");
    reveal_strlit("error");
    reveal_strlit("code");
    reveal_strlit("message");
    reveal_strlit("data");
    assert("id"@.len() == 2 && "error"@.len() == 5 && "method"@.len() == 6);
    assert("params"@.len() == 6 && "result"@.len() == 6);
    assert("code"@.len() == 4 && "message"@.len() == 7 && "data"@.len() == 4);
    assert("method"@[0] != "params"@[0]);
    assert("method"@[0] != "result"@[0]);
    assert("params"@[0] != "result"@[0]);
    assert("code"@[0] != "data"@[0]);
}

/// A message that this side writes is read back as itself: the object that
/// it is written as has the envelope that is classified as the same message.
/// A method must not be empty, and error data must not be an explicit null,
/// which reads back as no data.
pub proof fn written_message_reads_back(message: OutboundMessage)
    requires
        match message@ {
            MessageView::Request { method, .. } => method.len() > 0,
            MessageView::Notification { method, .. } => method.len() > 0,
            MessageView::Response { .. } => true,
            MessageView::ErrorResponse { error, .. } => error.data != Some(Json::Null),
        },
    ensures
        classified(envelope_of(message_members(message@))) == Ok::<MessageView, Seq<char>>(
            message@,
        ),
{
    lemma_member_names_differ();
    match message {
        OutboundMessage::ErrorResponse { id, error } => {
            assert(error_of(error_json(error@)) == Some(error@));
        },
        _ => {},
    }
}

/// An envelope has one meaning: it is refused or it is exactly one message,
/// and a message with a method comes only from an envelope with that method.
pub proof fn envelope_kinds_are_exclusive(envelope: EnvelopeView)
    ensures
        classified(envelope) matches Ok(MessageView::Request { .. }) ==> envelope.method is Some
            && envelope.id is Some && envelope.result is None && envelope.error is None,
        classified(envelope) matches Ok(MessageView::Notification { .. }) ==> envelope.method
            is Some && envelope.id is None && envelope.result is None && envelope.error is None,
        classified(envelope) matches Ok(MessageView::Response { .. }) ==> envelope.method is None
            && envelope.params is None && envelope.result is Some && envelope.error is None,
        classified(envelope) matches Ok(MessageView::ErrorResponse { .. }) ==> envelope.method
            is None && envelope.params is None && envelope.result is None && envelope.error is Some,
{
}

/// A well-formed envelope is never refused: one with a method is a request or a
/// notification with that method and its parameters, under its identifier where
/// it has one; one without is the response or the error under its identifier.
pub proof fn sound_envelopes_are_taken(
    id: RequestIdView,
    method: Seq<char>,
    params: Option<Json>,
    result: Json,
    error: Json,
)
    requires
        id matches RequestIdView::Integer(number) ==> i64::MIN <= number <= i64::MAX,
        method.len() > 0,
    ensures
        classified(
            EnvelopeView {
                id: Some(id_json(id)),
                method: Some(Json::Text(method)),
                params,
                result: None,
                error: None,
            },
        ) == Ok::<MessageView, Seq<char>>(MessageView::Request { id, method, params }),
        classified(
            EnvelopeView {
                id: None,
                method: Some(Json::Text(method)),
                params,
                result: None,
                error: None,
            },
        ) == Ok::<MessageView, Seq<char>>(MessageView::Notification { method, params }),
        classified(
            EnvelopeView {
                id: Some(id_json(id)),
                method: None,
                params: None,
                result: Some(result),
                error: None,
            },
        ) == Ok::<MessageView, Seq<char>>(MessageView::Response { id, result }),
        error_of(error) matches Some(held) ==> (error != Json::Null ==> classified(
            EnvelopeView {
                id: Some(id_json(id)),
                method: None,
                params: None,
                result: None,
                error: Some(error),
            },
        ) == Ok::<MessageView, Seq<char>>(MessageView::ErrorResponse { id, error: held })),
{
}

/// Anything else is refused: a method beside a result or an error, an empty
/// method or one that is no text, parameters without a method, an answer
/// without an identifier, with both a result and an error or with neither, and
/// an identifier that is neither a text nor an integer of the machine.
pub proof fn unsound_envelopes_are_refused(envelope: EnvelopeView)
    requires
        (envelope.method is Some && (envelope.result is Some || envelope.error is Some)) || (
        envelope.method is Some && !(envelope.method->Some_0 is Text)) || envelope.method == Some(
            Json::Text(Seq::empty()),
        ) || (envelope.method is None && (envelope.params is Some || envelope.id is None
            || envelope.result is Some == envelope.error is Some)) || (envelope.id matches Some(id)
            && id_of(id) is None) || (envelope.method is None && envelope.error == Some(
            Json::Null,
        )),
    ensures
        classified(envelope) is Err,
{
    if envelope.method == Some(Json::Text(Seq::empty())) {
        assert(Seq::<char>::empty().len() == 0);
    }
}

/// Identifiers are texts and integers of the machine, each as it is.
pub proof fn identifiers_are_kept(value: Json)
    ensures
        value matches Json::Text(text) ==> id_of(value) == Some(RequestIdView::Text(text)),
        value matches Json::Integer(number) ==> if i64::MIN <= number <= i64::MAX {
            id_of(value) == Some(RequestIdView::Integer(number))
        } else {
            id_of(value) is None
        },
        !(value is Text) && !(value is Integer) ==> id_of(value) is None,
        id_of(value) matches Some(id) ==> id_json(id) == value,
{
}

/// A line is taken without its line end, of either kind, and every line that is
/// too long, or begins as something else than an object, is refused before it
/// is read.
pub proof fn lines_end_where_they_end(record: Seq<u8>, repeated: bool)
    requires
        record.len() > 0,
        record.last() != 0x0a,
        record.last() != 0x0d,
    ensures
        record_of(record) == record,
        record_of(record.push(0x0a)) == record,
        record_of(record.push(0x0d).push(0x0a)) == record,
        line_meaning(record.push(0x0a), repeated) == line_meaning(record, repeated),
        record.len() > MAX_JSONL_LINE_BYTES ==> line_meaning(record, repeated) is TooLong,
        record.len() <= MAX_JSONL_LINE_BYTES && starts_otherwise(record) ==> line_meaning(
            record,
            repeated,
        ) is NoObject,
        line_meaning(record, true) is TooLong || line_meaning(record, true) is NoObject
            || line_meaning(record, true) is InvalidJson,
{
    assert(record.push(0x0a).drop_last() =~= record);
    assert(record.push(0x0d).push(0x0a).drop_last() =~= record.push(0x0d));
    assert(record.push(0x0d).drop_last() =~= record);
}

} // verus!
