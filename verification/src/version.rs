//! Semantic versions, as the `semver` crate reads them.
use vstd::prelude::*;

use crate::text::append_decimal;
use crate::text::decimal;
use crate::text::is_digit;
use crate::text::lemma_decimal_digits;
use crate::text::lemma_decimal_injective;
use vstd::string::StringExecFns;
use crate::text::lemma_split_at_mark;

verus! {

/// A semantic version.
#[derive(Clone, Debug, PartialEq, Eq)]
pub struct Version {
    pub major: u64,
    pub minor: u64,
    pub patch: u64,
    pub pre: String,
    pub build: String,
}

/// Content of a version.
pub struct VersionView {
    pub major: u64,
    pub minor: u64,
    pub patch: u64,
    pub pre: Seq<char>,
    pub build: Seq<char>,
}

impl View for Version {
    type V = VersionView;

    open spec fn view(&self) -> VersionView {
        VersionView {
            major: self.major,
            minor: self.minor,
            patch: self.patch,
            pre: self.pre@,
            build: self.build@,
        }
    }
}

/// The three numbers of a release, with dots between.
pub open spec fn release_text(major: u64, minor: u64, patch: u64) -> Seq<char> {
    decimal(major as nat) + seq!['.'] + decimal(minor as nat) + seq!['.'] + decimal(patch as nat)
}

/// A release: a version without pre-release and build parts.
pub open spec fn release(major: u64, minor: u64, patch: u64) -> VersionView {
    VersionView { major, minor, patch, pre: Seq::empty(), build: Seq::empty() }
}

/// Whether a version has neither a pre-release nor a build part.
pub open spec fn is_release(version: VersionView) -> bool {
    version.pre.len() == 0 && version.build.len() == 0
}

/// The text of a version.
pub open spec fn version_text(version: VersionView) -> Seq<char> {
    release_text(version.major, version.minor, version.patch) + (if version.pre.len() == 0 {
        Seq::empty()
    } else {
        seq!['-'] + version.pre
    }) + (if version.build.len() == 0 {
        Seq::empty()
    } else {
        seq!['+'] + version.build
    })
}

/// `semver::Version::parse`. A text that is read is the text of the version
/// that it was read as, and the text of a release is read as that release.
/// Which other texts are read is not stated.
#[verifier::external_body]
pub(crate) fn parse_version_text(text: &str) -> (version: Option<Version>)
    ensures
        version matches Some(held) ==> text@ == version_text(held@),
        forall|major: u64, minor: u64, patch: u64|
            text@ == #[trigger] release_text(major, minor, patch) ==> version is Some
                && version->Some_0@ == release(major, minor, patch),
{
    semver::Version::parse(text).ok().map(
        |parsed|
            Version {
                major: parsed.major,
                minor: parsed.minor,
                patch: parsed.patch,
                pre: parsed.pre.as_str().to_owned(),
                build: parsed.build.as_str().to_owned(),
            },
    )
}

/// A text names one release: equal texts have equal numbers.
pub proof fn release_text_names_one_release(
    major: u64,
    minor: u64,
    patch: u64,
    other_major: u64,
    other_minor: u64,
    other_patch: u64,
)
    requires
        release_text(major, minor, patch) == release_text(other_major, other_minor, other_patch),
    ensures
        major == other_major,
        minor == other_minor,
        patch == other_patch,
{
    let tail = decimal(minor as nat) + seq!['.'] + decimal(patch as nat);
    let other_tail = decimal(other_minor as nat) + seq!['.'] + decimal(other_patch as nat);
    lemma_decimal_digits(major as nat);
    lemma_decimal_digits(other_major as nat);
    lemma_decimal_digits(minor as nat);
    lemma_decimal_digits(other_minor as nat);
    assert(release_text(major, minor, patch) =~= decimal(major as nat) + seq!['.'] + tail);
    assert(release_text(other_major, other_minor, other_patch) =~= decimal(other_major as nat)
        + seq!['.'] + other_tail);
    lemma_split_at_mark(
        decimal(major as nat),
        tail,
        decimal(other_major as nat),
        other_tail,
        '.',
    );
    lemma_split_at_mark(
        decimal(minor as nat),
        decimal(patch as nat),
        decimal(other_minor as nat),
        decimal(other_patch as nat),
        '.',
    );
    lemma_decimal_injective(major as nat, other_major as nat);
    lemma_decimal_injective(minor as nat, other_minor as nat);
    lemma_decimal_injective(patch as nat, other_patch as nat);
}

/// Whether a text names a release, in its only spelling.
pub open spec fn names_release(text: Seq<char>) -> bool {
    exists|major: u64, minor: u64, patch: u64| text == #[trigger] release_text(major, minor, patch)
}

/// Reads a text that names a release, in its only spelling.
pub fn parse_release(text: &str) -> (version: Option<Version>)
    ensures
        version is Some == names_release(text@),
        version matches Some(held) ==> is_release(held@) && text@ == release_text(
            held@.major,
            held@.minor,
            held@.patch,
        ),
{
    let version = match parse_version_text(text) {
        Some(version) => version,
        None => {
            return None;
        },
    };
    if !version.pre.as_str().is_empty() || !version.build.as_str().is_empty() {
        proof {
            if names_release(text@) {
                let (major, minor, patch): (u64, u64, u64) = choose|major: u64, minor: u64, patch: u64|
                    text@ == #[trigger] release_text(major, minor, patch);
                assert(version@ == release(major, minor, patch));
            }
        }
        return None;
    }
    proof {
        assert(version_text(version@) =~= release_text(
            version@.major,
            version@.minor,
            version@.patch,
        ));
    }
    Some(version)
}

impl Version {
    /// The release with these numbers.
    pub fn new(major: u64, minor: u64, patch: u64) -> (version: Version)
        ensures
            version@ == release(major, minor, patch),
    {
        Version { major, minor, patch, pre: String::new(), build: String::new() }
    }

    /// The text of the version.
    pub fn to_text(&self) -> (text: String)
        ensures
            text@ == version_text(self@),
    {
        proof {
            reveal_strlit(".");
            reveal_strlit("-");
            reveal_strlit("+");
            assert("."@ =~= seq!['.']);
            assert("-"@ =~= seq!['-']);
            assert("+"@ =~= seq!['+']);
        }
        let mut text = String::new();
        append_decimal(&mut text, self.major);
        text.append(".");
        append_decimal(&mut text, self.minor);
        text.append(".");
        append_decimal(&mut text, self.patch);
        proof {
            assert(text@ =~= release_text(self.major, self.minor, self.patch));
        }
        if !self.pre.as_str().is_empty() {
            text.append("-");
            text.append(self.pre.as_str());
        }
        if !self.build.as_str().is_empty() {
            text.append("+");
            text.append(self.build.as_str());
        }
        proof {
            assert(text@ =~= version_text(self@));
        }
        text
    }

    /// Whether the version has neither a pre-release nor a build part.
    pub fn is_release(&self) -> (held: bool)
        ensures
            held == is_release(self@),
    {
        self.pre.as_str().is_empty() && self.build.as_str().is_empty()
    }
}

/// A release is named by its three numbers in the one spelling that they have;
/// nothing shorter than five characters names one, nor does a text with
/// anything beside digits and points.
pub proof fn releases_are_named_by_their_numbers(
    major: u64,
    minor: u64,
    patch: u64,
    text: Seq<char>,
)
    ensures
        names_release(release_text(major, minor, patch)),
        is_release(release(major, minor, patch)),
        version_text(release(major, minor, patch)) == release_text(major, minor, patch),
        names_release(text) ==> text.len() >= 5 && forall|k: int|
            0 <= k < text.len() ==> ('0' <= #[trigger] text[k] <= '9') || text[k] == '.',
{
    assert(version_text(release(major, minor, patch)) =~= release_text(major, minor, patch));
    if names_release(text) {
        let (a, b, c): (u64, u64, u64) = choose|a: u64, b: u64, c: u64|
            text == #[trigger] release_text(a, b, c);
        lemma_release_characters(a, b, c);
    }
}

/// The text of a release is digits and points.
pub proof fn lemma_release_characters(major: u64, minor: u64, patch: u64)
    ensures
        release_text(major, minor, patch).len() >= 5,
        forall|k: int|
            0 <= k < release_text(major, minor, patch).len() ==> ('0' <= #[trigger] release_text(
                major,
                minor,
                patch,
            )[k] <= '9') || release_text(major, minor, patch)[k] == '.',
{
    lemma_decimal_digits(major as nat);
    lemma_decimal_digits(minor as nat);
    lemma_decimal_digits(patch as nat);
    let text = release_text(major, minor, patch);
    let a = decimal(major as nat);
    let b = decimal(minor as nat);
    let c = decimal(patch as nat);
    assert forall|k: int| 0 <= k < text.len() implies ('0' <= #[trigger] text[k] <= '9') || text[k]
        == '.' by {
        if k < a.len() {
            assert(text[k] == a[k]);
            assert(is_digit(a[k]));
        } else if k == a.len() {
            assert(text[k] == '.');
        } else if k < a.len() + 1 + b.len() {
            assert(text[k] == b[k - a.len() - 1]);
            assert(is_digit(b[k - a.len() - 1]));
        } else if k == a.len() + 1 + b.len() {
            assert(text[k] == '.');
        } else {
            assert(text[k] == c[k - a.len() - b.len() - 2]);
            assert(is_digit(c[k - a.len() - b.len() - 2]));
        }
    }
}

} // verus!
