//! Outside computations that the bridge's rules build on: UTF-8 decoding,
//! quoting, shared pointers, random identifiers, SHA-256 and URL parsing. Each item here states
//! what is taken to be true of the function that it calls.
use vstd::prelude::*;
use vstd::utf8::encode_utf8;
use vstd::utf8::valid_utf8;
use sha2::Digest;

verus! {

/// `std::str::from_utf8`: the text with these bytes, nothing where the bytes
/// are not UTF-8.
#[verifier::external_body]
pub(crate) fn utf8_text(bytes: &[u8]) -> (text: Option<&str>)
    ensures
        text is Some == valid_utf8(bytes@),
        text matches Some(held) ==> encode_utf8(held@) == bytes@,
{
    std::str::from_utf8(bytes).ok()
}

/// What the `Debug` form of a `str` is: its text in quotes, with escapes.
pub uninterp spec fn quoted_text(text: Seq<char>) -> Seq<char>;

/// The `Debug` implementation of `str`, which depends on the text alone.
#[verifier::external_body]
pub(crate) fn quoted(text: &str) -> (shown: String)
    ensures
        shown@ == quoted_text(text@),
{
    format!("{text:?}")
}

/// `std::sync::Arc::clone`: another pointer to the same value.
#[verifier::external_body]
pub(crate) fn share<T>(pointer: &std::sync::Arc<T>) -> (other: std::sync::Arc<T>)
    ensures
        other == *pointer,
{
    std::sync::Arc::clone(pointer)
}

/// Whether a character is a lower-case hexadecimal digit.
pub open spec fn is_hex(digit: char) -> bool {
    ('0' <= digit && digit <= '9') || ('a' <= digit && digit <= 'f')
}

/// `uuid::Uuid::new_v4` in its simple form: thirty-two lower-case hexadecimal
/// digits. Which ones is left to chance, so nothing is said of them.
#[verifier::external_body]
pub(crate) fn random_id() -> (id: String)
    ensures
        id@.len() == 32,
        forall|k: int| 0 <= k < 32 ==> is_hex(#[trigger] id@[k]),
{
    uuid::Uuid::new_v4().simple().to_string()
}

/// What `sha2::Sha256::digest` returns for these bytes.
pub uninterp spec fn sha256_digest(bytes: Seq<u8>) -> Seq<u8>;

/// `sha2::Sha256::digest`: thirty-two bytes that depend on the input alone.
#[verifier::external_body]
pub(crate) fn sha256(bytes: &[u8]) -> (digest: Vec<u8>)
    ensures
        digest@ == sha256_digest(bytes@),
        digest@.len() == 32,
{
    sha2::Sha256::digest(bytes).to_vec()
}

/// The host of a URL: a name, or a literal address by its bits.
#[derive(Clone, Copy, Debug, PartialEq, Eq, Structural)]
pub enum UrlHost {
    Domain,
    Ipv4(u32),
    Ipv6(u128),
}

/// What a parsed URL says, as far as endpoints are judged by it.
#[derive(Clone, Debug, PartialEq, Eq)]
pub struct UrlParts {
    pub text: String,
    pub scheme: String,
    pub username: String,
    pub has_password: bool,
    pub has_query: bool,
    pub has_fragment: bool,
    pub host: Option<UrlHost>,
    pub port: Option<u16>,
}

/// Content of the parts of a URL.
pub struct UrlView {
    pub text: Seq<char>,
    pub scheme: Seq<char>,
    pub username: Seq<char>,
    pub has_password: bool,
    pub has_query: bool,
    pub has_fragment: bool,
    pub host: Option<UrlHost>,
    pub port: Option<u16>,
}

impl View for UrlParts {
    type V = UrlView;

    open spec fn view(&self) -> UrlView {
        UrlView {
            text: self.text@,
            scheme: self.scheme@,
            username: self.username@,
            has_password: self.has_password,
            has_query: self.has_query,
            has_fragment: self.has_fragment,
            host: self.host,
            port: self.port,
        }
    }
}

/// Content of optional parts of a URL.
pub open spec fn url_option(parts: Option<UrlParts>) -> Option<UrlView> {
    match parts {
        Some(parts) => Some(parts@),
        None => None,
    }
}

/// What `url::Url::parse` reads a text as; nothing where it refuses the text.
pub uninterp spec fn parsed_url(text: Seq<char>) -> Option<UrlView>;

/// `url::Url::parse`, with the parts that `username`, `password`, `query`,
/// `fragment`, `host`, `port`, `scheme` and `as_str` give. The result depends
/// on the text alone.
#[verifier::external_body]
pub(crate) fn parse_url(text: &str) -> (parts: Option<UrlParts>)
    ensures
        url_option(parts) == parsed_url(text@),
{
    let url = url::Url::parse(text).ok()?;
    Some(UrlParts {
        text: url.as_str().to_owned(),
        scheme: url.scheme().to_owned(),
        username: url.username().to_owned(),
        has_password: url.password().is_some(),
        has_query: url.query().is_some(),
        has_fragment: url.fragment().is_some(),
        host: url.host().map(|host| match host {
            url::Host::Domain(_) => UrlHost::Domain,
            url::Host::Ipv4(address) => UrlHost::Ipv4(address.into()),
            url::Host::Ipv6(address) => UrlHost::Ipv6(address.into()),
        }),
        port: url.port(),
    })
}

} // verus!
