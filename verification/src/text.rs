//! Text and byte helpers shared by every module.
use vstd::prelude::*;
use vstd::string::StrSliceExecFns;
use vstd::string::StringExecFns;
use vstd::utf8::encode_utf8;

verus! {

/// Number of bytes that a text takes in UTF-8.
pub open spec fn byte_len(text: Seq<char>) -> nat {
    encode_utf8(text).len()
}

/// Two texts with the same UTF-8 bytes are the same text.
pub proof fn lemma_utf8_injective(a: Seq<char>, b: Seq<char>)
    ensures
        encode_utf8(a) == encode_utf8(b) ==> a == b,
{
    vstd::utf8::encode_utf8_decode_utf8(a);
    vstd::utf8::encode_utf8_decode_utf8(b);
}

/// Whether two texts are equal.
pub fn same_text(a: &str, b: &str) -> (same: bool)
    ensures
        same == (a@ == b@),
{
    let left = a.as_bytes();
    let right = b.as_bytes();
    proof {
        lemma_utf8_injective(a@, b@);
    }
    same_bytes(left, right)
}

/// Whether two byte slices hold the same bytes.
pub fn same_bytes(a: &[u8], b: &[u8]) -> (same: bool)
    ensures
        same == (a@ == b@),
{
    if a.len() != b.len() {
        return false;
    }
    let mut i: usize = 0;
    while i < a.len()
        invariant
            a@.len() == b@.len(),
            i <= a@.len(),
            forall|k: int| 0 <= k < i ==> a@[k] == b@[k],
        decreases a@.len() - i,
    {
        if a[i] != b[i] {
            return false;
        }
        i += 1;
    }
    proof {
        assert(a@ =~= b@);
    }
    true
}

/// The decimal digit of a number below ten.
pub open spec fn digit(value: nat) -> char {
    if value == 0 {
        '0'
    } else if value == 1 {
        '1'
    } else if value == 2 {
        '2'
    } else if value == 3 {
        '3'
    } else if value == 4 {
        '4'
    } else if value == 5 {
        '5'
    } else if value == 6 {
        '6'
    } else if value == 7 {
        '7'
    } else if value == 8 {
        '8'
    } else {
        '9'
    }
}

/// The decimal form of a number, without leading zeros.
pub open spec fn decimal(value: nat) -> Seq<char>
    decreases value,
{
    if value < 10 {
        seq![digit(value)]
    } else {
        decimal(value / 10).push(digit(value % 10))
    }
}

/// The decimal form of an integer, with a sign where it is negative.
pub open spec fn signed_decimal(value: int) -> Seq<char> {
    if value < 0 {
        seq!['-'] + decimal((-value) as nat)
    } else {
        decimal(value as nat)
    }
}

/// Whether a character is a decimal digit.
pub open spec fn is_digit(c: char) -> bool {
    '0' <= c <= '9'
}

/// A decimal form is not empty and holds nothing but digits.
pub proof fn lemma_decimal_digits(value: nat)
    ensures
        decimal(value).len() > 0,
        forall|k: int| 0 <= k < decimal(value).len() ==> is_digit(#[trigger] decimal(value)[k]),
    decreases value,
{
    if value >= 10 {
        lemma_decimal_digits(value / 10);
    }
}

/// Two numbers with the same decimal form are the same.
pub proof fn lemma_decimal_injective(a: nat, b: nat)
    requires
        decimal(a) == decimal(b),
    ensures
        a == b,
    decreases a,
{
    let left = decimal(a);
    let right = decimal(b);
    assert(left.last() == right.last());
    if a < 10 && b < 10 {
        assert(left[0] == digit(a));
        assert(right[0] == digit(b));
    } else if a < 10 {
        lemma_decimal_digits(b / 10);
        assert(right.len() >= 2);
    } else if b < 10 {
        lemma_decimal_digits(a / 10);
        assert(left.len() >= 2);
    } else {
        assert(left.drop_last() =~= decimal(a / 10));
        assert(right.drop_last() =~= decimal(b / 10));
        lemma_decimal_injective(a / 10, b / 10);
        assert(left.last() == digit(a % 10));
        assert(right.last() == digit(b % 10));
    }
}

/// The part of a text before the first mark is the same in two texts that are
/// equal, where neither part holds the mark.
pub proof fn lemma_split_at_mark(
    head: Seq<char>,
    tail: Seq<char>,
    other_head: Seq<char>,
    other_tail: Seq<char>,
    mark: char,
)
    requires
        head + seq![mark] + tail == other_head + seq![mark] + other_tail,
        forall|k: int| 0 <= k < head.len() ==> #[trigger] head[k] != mark,
        forall|k: int| 0 <= k < other_head.len() ==> #[trigger] other_head[k] != mark,
    ensures
        head == other_head,
        tail == other_tail,
{
    let whole = head + seq![mark] + tail;
    let other = other_head + seq![mark] + other_tail;
    assert(whole[head.len() as int] == mark);
    assert(other[other_head.len() as int] == mark);
    if head.len() < other_head.len() {
        assert(other[head.len() as int] == other_head[head.len() as int]);
    } else if other_head.len() < head.len() {
        assert(whole[other_head.len() as int] == head[other_head.len() as int]);
    }
    assert(head =~= whole.subrange(0, head.len() as int));
    assert(other_head =~= other.subrange(0, head.len() as int));
    assert(tail =~= whole.subrange((head.len() + 1) as int, whole.len() as int));
    assert(other_tail =~= other.subrange((head.len() + 1) as int, whole.len() as int));
}

fn digit_text(value: u64) -> (text: &'static str)
    requires
        value < 10,
    ensures
        text@ == seq![digit(value as nat)],
{
    proof {
        reveal_strlit("0");
        reveal_strlit("1");
        reveal_strlit("2");
        reveal_strlit("3");
        reveal_strlit("4");
        reveal_strlit("5");
        reveal_strlit("6");
        reveal_strlit("7");
        reveal_strlit("8");
        reveal_strlit("9");
    }
    let text = if value == 0 {
        "0"
    } else if value == 1 {
        "1"
    } else if value == 2 {
        "2"
    } else if value == 3 {
        "3"
    } else if value == 4 {
        "4"
    } else if value == 5 {
        "5"
    } else if value == 6 {
        "6"
    } else if value == 7 {
        "7"
    } else if value == 8 {
        "8"
    } else {
        "9"
    };
    proof {
        assert(text@ =~= seq![digit(value as nat)]);
    }
    text
}

/// Appends the decimal form of a number.
pub fn append_decimal(text: &mut String, value: u64)
    ensures
        final(text)@ == old(text)@ + decimal(value as nat),
    decreases value,
{
    if value >= 10 {
        append_decimal(text, value / 10);
    }
    let ghost head = text@;
    text.append(digit_text(value % 10));
    proof {
        assert(text@ =~= old(text)@ + decimal(value as nat));
    }
}

/// Appends the decimal form of an integer.
pub fn append_signed(text: &mut String, value: i64)
    ensures
        final(text)@ == old(text)@ + signed_decimal(value as int),
{
    if value < 0 {
        proof {
            reveal_strlit("-");
            assert("-"@ =~= seq!['-']);
        }
        text.append("-");
        if value == i64::MIN {
            append_decimal(text, 0x8000_0000_0000_0000);
        } else {
            append_decimal(text, (-value) as u64);
        }
        proof {
            assert(text@ =~= old(text)@ + signed_decimal(value as int));
        }
    } else {
        append_decimal(text, value as u64);
    }
}

/// The lower-case hexadecimal digit of a number below sixteen.
pub open spec fn hex_digit(value: nat) -> char {
    if value == 0 {
        '0'
    } else if value == 1 {
        '1'
    } else if value == 2 {
        '2'
    } else if value == 3 {
        '3'
    } else if value == 4 {
        '4'
    } else if value == 5 {
        '5'
    } else if value == 6 {
        '6'
    } else if value == 7 {
        '7'
    } else if value == 8 {
        '8'
    } else if value == 9 {
        '9'
    } else if value == 10 {
        'a'
    } else if value == 11 {
        'b'
    } else if value == 12 {
        'c'
    } else if value == 13 {
        'd'
    } else if value == 14 {
        'e'
    } else {
        'f'
    }
}

/// The lower-case hexadecimal form of some bytes, two digits each.
pub open spec fn hex(bytes: Seq<u8>) -> Seq<char>
    decreases bytes.len(),
{
    if bytes.len() == 0 {
        Seq::empty()
    } else {
        hex(bytes.drop_last()) + seq![
            hex_digit((bytes.last() / 16) as nat),
            hex_digit((bytes.last() % 16) as nat),
        ]
    }
}

fn hex_text(value: u8) -> (text: &'static str)
    requires
        value < 16,
    ensures
        text@ == seq![hex_digit(value as nat)],
{
    proof {
        reveal_strlit("0");
        reveal_strlit("1");
        reveal_strlit("2");
        reveal_strlit("3");
        reveal_strlit("4");
        reveal_strlit("5");
        reveal_strlit("6");
        reveal_strlit("7");
        reveal_strlit("8");
        reveal_strlit("9");
        reveal_strlit("a");
        reveal_strlit("b");
        reveal_strlit("c");
        reveal_strlit("d");
        reveal_strlit("e");
        reveal_strlit("f");
    }
    let text = if value == 0 {
        "0"
    } else if value == 1 {
        "1"
    } else if value == 2 {
        "2"
    } else if value == 3 {
        "3"
    } else if value == 4 {
        "4"
    } else if value == 5 {
        "5"
    } else if value == 6 {
        "6"
    } else if value == 7 {
        "7"
    } else if value == 8 {
        "8"
    } else if value == 9 {
        "9"
    } else if value == 10 {
        "a"
    } else if value == 11 {
        "b"
    } else if value == 12 {
        "c"
    } else if value == 13 {
        "d"
    } else if value == 14 {
        "e"
    } else {
        "f"
    };
    proof {
        assert(text@ =~= seq![hex_digit(value as nat)]);
    }
    text
}

/// Appends the hexadecimal form of some bytes.
pub fn append_hex(text: &mut String, bytes: &Vec<u8>)
    ensures
        final(text)@ == old(text)@ + hex(bytes@),
{
    let ghost head = text@;
    let mut at: usize = 0;
    proof {
        assert(bytes@.subrange(0, 0) =~= Seq::empty());
        assert(head + hex(bytes@.subrange(0, 0)) =~= head);
    }
    while at < bytes.len()
        invariant
            at <= bytes@.len(),
            text@ == head + hex(bytes@.subrange(0, at as int)),
        decreases bytes@.len() - at,
    {
        let ghost before = text@;
        text.append(hex_text(bytes[at] / 16));
        text.append(hex_text(bytes[at] % 16));
        proof {
            let next = bytes@.subrange(0, at + 1);
            assert(next.drop_last() =~= bytes@.subrange(0, at as int));
            assert(next.last() == bytes@[at as int]);
            assert(text@ =~= head + hex(next));
        }
        at += 1;
    }
    proof {
        assert(bytes@.subrange(0, at as int) =~= bytes@);
    }
}

/// The hexadecimal form has two digits for each byte and names the bytes.
pub proof fn lemma_hex_injective(a: Seq<u8>, b: Seq<u8>)
    ensures
        hex(a).len() == 2 * a.len(),
        hex(b).len() == 2 * b.len(),
        hex(a) == hex(b) ==> a == b,
    decreases a.len(),
{
    lemma_hex_len(a);
    lemma_hex_len(b);
    if hex(a) == hex(b) {
        if a.len() > 0 {
            let left = hex(a.drop_last());
            let right = hex(b.drop_last());
            lemma_hex_len(a.drop_last());
            lemma_hex_len(b.drop_last());
            assert(left =~= hex(a).subrange(0, left.len() as int));
            assert(right =~= hex(b).subrange(0, left.len() as int));
            lemma_hex_injective(a.drop_last(), b.drop_last());
            let high = left.len() as int;
            assert(hex(a)[high] == hex_digit((a.last() / 16) as nat));
            assert(hex(b)[high] == hex_digit((b.last() / 16) as nat));
            assert(hex(a)[high + 1] == hex_digit((a.last() % 16) as nat));
            assert(hex(b)[high + 1] == hex_digit((b.last() % 16) as nat));
            assert(a.last() == b.last());
            assert(a =~= a.drop_last().push(a.last()));
            assert(b =~= b.drop_last().push(b.last()));
        } else {
            assert(a =~= b);
        }
    }
}

proof fn lemma_hex_len(bytes: Seq<u8>)
    ensures
        hex(bytes).len() == 2 * bytes.len(),
    decreases bytes.len(),
{
    if bytes.len() > 0 {
        lemma_hex_len(bytes.drop_last());
    }
}

/// Whether a character is Unicode white space.
pub open spec fn is_space(c: char) -> bool {
    ||| '\u{9}' <= c <= '\u{d}'
    ||| c == '\u{20}'
    ||| c == '\u{85}'
    ||| c == '\u{a0}'
    ||| c == '\u{1680}'
    ||| '\u{2000}' <= c <= '\u{200a}'
    ||| c == '\u{2028}'
    ||| c == '\u{2029}'
    ||| c == '\u{202f}'
    ||| c == '\u{205f}'
    ||| c == '\u{3000}'
}

fn is_space_char(c: char) -> (held: bool)
    ensures
        held == is_space(c),
{
    ('\u{9}' <= c && c <= '\u{d}') || c == '\u{20}' || c == '\u{85}' || c == '\u{a0}' || c
        == '\u{1680}' || ('\u{2000}' <= c && c <= '\u{200a}') || c == '\u{2028}' || c
        == '\u{2029}' || c == '\u{202f}' || c == '\u{205f}' || c == '\u{3000}'
}

/// Whether a text has no white space at either end.
pub open spec fn trimmed(text: Seq<char>) -> bool {
    text.len() > 0 ==> !is_space(text.first()) && !is_space(text.last())
}

/// Whether a text has no white space at either end.
pub fn is_trimmed(text: &str) -> (held: bool)
    ensures
        held == trimmed(text@),
{
    let length: usize = text.unicode_len();
    length == 0 || (!is_space_char(text.get_char(0)) && !is_space_char(text.get_char(length - 1)))
}

/// The characters of some ASCII bytes.
pub open spec fn ascii_chars(bytes: Seq<u8>) -> Seq<char> {
    Seq::new(bytes.len(), |k: int| bytes[k] as char)
}

/// A text whose bytes are all ASCII has those bytes as its characters.
pub proof fn lemma_ascii_text(text: Seq<char>, bytes: Seq<u8>)
    requires
        encode_utf8(text) == bytes,
        forall|k: int| 0 <= k < bytes.len() ==> #[trigger] bytes[k] < 128,
    ensures
        text == ascii_chars(bytes),
{
    let chars = ascii_chars(bytes);
    assert(vstd::utf8::is_ascii_chars(chars));
    vstd::utf8::is_ascii_chars_encode_utf8(chars);
    assert(encode_utf8(chars) =~= bytes);
    lemma_utf8_injective(text, chars);
}

/// ASCII bytes are valid UTF-8.
pub proof fn lemma_ascii_valid(bytes: Seq<u8>)
    requires
        forall|k: int| 0 <= k < bytes.len() ==> #[trigger] bytes[k] < 128,
    ensures
        vstd::utf8::valid_utf8(bytes),
{
    let chars = ascii_chars(bytes);
    assert(vstd::utf8::is_ascii_chars(chars));
    vstd::utf8::is_ascii_chars_encode_utf8(chars);
    assert(encode_utf8(chars) =~= bytes);
    vstd::utf8::encode_utf8_valid_utf8(chars);
}

/// The bytes of two texts in a row are their bytes in a row.
pub proof fn lemma_utf8_concat(a: Seq<char>, b: Seq<char>)
    ensures
        encode_utf8(a + b) == encode_utf8(a) + encode_utf8(b),
    decreases a.len(),
{
    if a.len() == 0 {
        assert(a + b =~= b);
        assert(encode_utf8(a) =~= Seq::empty());
        assert(encode_utf8(a) + encode_utf8(b) =~= encode_utf8(
            b,
        ));
    } else {
        lemma_utf8_concat(a.drop_first(), b);
        assert((a + b).drop_first() =~= a.drop_first() + b);
        assert((a + b)[0] == a[0]);
        assert(encode_utf8(a + b) =~= encode_utf8(a)
            + encode_utf8(b));
    }
}

/// The fraction of a second that some milliseconds are, without trailing
/// zeros.
pub open spec fn fraction_text(millis: nat) -> Seq<char> {
    if millis == 0 {
        Seq::empty()
    } else if millis % 100 == 0 {
        seq!['.', digit(millis / 100)]
    } else if millis % 10 == 0 {
        seq!['.', digit(millis / 100), digit(millis / 10 % 10)]
    } else {
        seq!['.', digit(millis / 100), digit(millis / 10 % 10), digit(millis % 10)]
    }
}

/// How a time span of whole milliseconds is shown.
pub open spec fn span_text(millis: u64) -> Seq<char> {
    if millis == 0 {
        "0ns"@
    } else if millis < 1000 {
        decimal(millis as nat) + "ms"@
    } else {
        decimal((millis / 1000) as nat) + fraction_text((millis % 1000) as nat) + "s"@
    }
}

/// Appends how a time span of whole milliseconds is shown.
pub fn append_span(text: &mut String, millis: u64)
    ensures
        final(text)@ == old(text)@ + span_text(millis),
{
    if millis == 0 {
        text.append("0ns");
    } else if millis < 1000 {
        append_decimal(text, millis);
        text.append("ms");
        proof {
            assert(text@ =~= old(text)@ + span_text(millis));
        }
    } else {
        append_decimal(text, millis / 1000);
        let ghost head = text@;
        let rest: u64 = millis % 1000;
        proof {
            reveal_strlit(".");
            assert("."@ =~= seq!['.']);
        }
        if rest > 0 {
            text.append(".");
            text.append(digit_text(rest / 100));
            if rest % 100 > 0 {
                text.append(digit_text(rest / 10 % 10));
                if rest % 10 > 0 {
                    text.append(digit_text(rest % 10));
                }
            }
        }
        proof {
            assert(text@ =~= head + fraction_text(rest as nat));
        }
        text.append("s");
        proof {
            assert(text@ =~= old(text)@ + span_text(millis));
        }
    }
}

/// The decimal forms of the numbers in known versions.
pub proof fn lemma_decimal_small()
    ensures
        decimal(0) == seq!['0'],
        decimal(146) == seq!['1', '4', '6'],
        decimal(149) == seq!['1', '4', '9'],
        decimal(151) == seq!['1', '5', '1'],
{
    reveal_with_fuel(decimal, 3);
    assert(decimal(146) =~= seq!['1', '4', '6']);
    assert(decimal(149) =~= seq!['1', '4', '9']);
    assert(decimal(151) =~= seq!['1', '5', '1']);
}

} // verus!
