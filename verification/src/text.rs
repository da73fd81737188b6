//! Small string helpers shared by the rest of the crate.

use vstd::prelude::*;
use vstd::string::StringSliceAdditionalSpecFns;
use vstd::utf8::{encode_utf8, encode_utf8_decode_utf8};

verus! {

/// Two character sequences are equal exactly when their UTF-8 encodings are.
proof fn lemma_encoding_injective(a: Seq<char>, b: Seq<char>)
    ensures
        (encode_utf8(a) == encode_utf8(b)) <==> (a == b),
{
    encode_utf8_decode_utf8(a);
    encode_utf8_decode_utf8(b);
}

/// Tells whether two string slices hold the same text.
pub fn same_text(a: &str, b: &str) -> (equal: bool)
    ensures
        equal == (a@ == b@),
{
    let left = a.as_bytes();
    let right = b.as_bytes();
    proof {
        lemma_encoding_injective(a@, b@);
    }
    if left.len() != right.len() {
        return false;
    }
    let mut i: usize = 0;
    while i < left.len()
        invariant
            i <= left.len(),
            left.len() == right.len(),
            left@ == encode_utf8(a@),
            right@ == encode_utf8(b@),
            (encode_utf8(a@) == encode_utf8(b@)) <==> (a@ == b@),
            forall|j: int| 0 <= j < i ==> left@[j] == right@[j],
        decreases left.len() - i,
    {
        if left[i] != right[i] {
            return false;
        }
        i += 1;
    }
    assert(left@ =~= right@);
    true
}

/// The first `count` bytes of the two sequences agree.
pub open spec fn agree_up_to(a: Seq<u8>, b: Seq<u8>, count: int) -> bool {
    &&& 0 <= count <= a.len()
    &&& count <= b.len()
    &&& forall|i: int| 0 <= i < count ==> a[i] == b[i]
}

/// `a` comes before `b` when the bytes are read from the front: where they first differ
/// `a` has the smaller byte, or `a` ends first.
pub open spec fn bytes_precede(a: Seq<u8>, b: Seq<u8>) -> bool {
    exists|count: int| #[trigger]
        agree_up_to(a, b, count) && count < b.len() && (count == a.len() || a[count] < b[count])
}

/// The order of texts: that of their UTF-8 bytes, which is how `str` is ordered.
pub open spec fn precedes(a: Seq<char>, b: Seq<char>) -> bool {
    bytes_precede(encode_utf8(a), encode_utf8(b))
}

/// No sequence of bytes comes before itself.
pub proof fn lemma_bytes_precede_irreflexive(a: Seq<u8>)
    ensures
        !bytes_precede(a, a),
{
}

/// The order of bytes is transitive.
pub proof fn lemma_bytes_precede_transitive(a: Seq<u8>, b: Seq<u8>, c: Seq<u8>)
    requires
        bytes_precede(a, b),
        bytes_precede(b, c),
    ensures
        bytes_precede(a, c),
{
    let first = choose|count: int| #[trigger]
        agree_up_to(a, b, count) && count < b.len() && (count == a.len() || a[count] < b[count]);
    let second = choose|count: int| #[trigger]
        agree_up_to(b, c, count) && count < c.len() && (count == b.len() || b[count] < c[count]);
    let shared = if first <= second {
        first
    } else {
        second
    };
    assert(agree_up_to(a, c, shared));
}

/// Where two texts stand to each other.
#[derive(Debug, Clone, Copy, PartialEq, Eq, Structural)]
pub enum Rank {
    Before,
    Same,
    After,
}

/// Tells where `a` stands to `b` in the order of texts.
pub fn text_order(a: &str, b: &str) -> (rank: Rank)
    ensures
        rank is Before <==> precedes(a@, b@),
        rank is Same <==> a@ == b@,
        rank is After <==> precedes(b@, a@),
{
    let left = a.as_bytes();
    let right = b.as_bytes();
    proof {
        lemma_encoding_injective(a@, b@);
    }
    let mut i: usize = 0;
    while i < left.len() && i < right.len()
        invariant
            left@ == encode_utf8(a@),
            right@ == encode_utf8(b@),
            (encode_utf8(a@) == encode_utf8(b@)) <==> (a@ == b@),
            agree_up_to(left@, right@, i as int),
        decreases left.len() - i,
    {
        if left[i] < right[i] {
            proof {
                lemma_order_is_exclusive(left@, right@);
            }
            return Rank::Before;
        }
        if left[i] > right[i] {
            assert(agree_up_to(right@, left@, i as int));
            proof {
                lemma_order_is_exclusive(right@, left@);
            }
            return Rank::After;
        }
        i += 1;
    }
    if i < right.len() {
        proof {
            lemma_order_is_exclusive(left@, right@);
        }
        Rank::Before
    } else if i < left.len() {
        assert(agree_up_to(right@, left@, i as int));
        proof {
            lemma_order_is_exclusive(right@, left@);
        }
        Rank::After
    } else {
        assert(left@ =~= right@);
        proof {
            lemma_bytes_precede_irreflexive(left@);
        }
        Rank::Same
    }
}

/// Of two sequences of bytes, one coming before the other rules out that they are equal
/// and that the other comes first.
proof fn lemma_order_is_exclusive(a: Seq<u8>, b: Seq<u8>)
    requires
        bytes_precede(a, b),
    ensures
        a != b,
        !bytes_precede(b, a),
{
    lemma_bytes_precede_irreflexive(a);
    if bytes_precede(b, a) {
        lemma_bytes_precede_transitive(a, b, a);
    }
}

/// The text of one decimal digit.
pub open spec fn digit_text(digit: nat) -> Seq<char> {
    if digit == 0 {
        "0"@
    } else if digit == 1 {
        "1"@
    } else if digit == 2 {
        "2"@
    } else if digit == 3 {
        "3"@
    } else if digit == 4 {
        "4"@
    } else if digit == 5 {
        "5"@
    } else if digit == 6 {
        "6"@
    } else if digit == 7 {
        "7"@
    } else if digit == 8 {
        "8"@
    } else {
        "9"@
    }
}

/// A number written in decimal digits, without sign or leading zeros.
pub open spec fn decimal_text(number: nat) -> Seq<char>
    decreases number,
{
    if number < 10 {
        digit_text(number)
    } else {
        decimal_text(number / 10) + digit_text(number % 10)
    }
}

fn digit(value: u32) -> (text: &'static str)
    requires
        value < 10,
    ensures
        text@ == digit_text(value as nat),
{
    if value == 0 {
        "0"
    } else if value == 1 {
        "1"
    } else if value == 2 {
        "2"
    } else if value == 3 {
        "3"
    } else if value == 4 {
        "4"
    } else if value == 5 {
        "5"
    } else if value == 6 {
        "6"
    } else if value == 7 {
        "7"
    } else if value == 8 {
        "8"
    } else {
        "9"
    }
}

/// Writes the number in decimal digits.
pub fn decimal(number: u32) -> (text: String)
    ensures
        text@ == decimal_text(number as nat),
    decreases number,
{
    if number < 10 {
        String::from_str(digit(number))
    } else {
        let mut text = decimal(number / 10);
        text.append(digit(number % 10));
        text
    }
}

/// The characters that count as white space: those with the Unicode property `White_Space`.
pub open spec fn is_white_space(c: char) -> bool {
    ||| ('\u{9}' <= c && c <= '\u{d}')
    ||| c == ' '
    ||| c == '\u{85}'
    ||| c == '\u{a0}'
    ||| c == '\u{1680}'
    ||| ('\u{2000}' <= c && c <= '\u{200a}')
    ||| c == '\u{2028}'
    ||| c == '\u{2029}'
    ||| c == '\u{202f}'
    ||| c == '\u{205f}'
    ||| c == '\u{3000}'
}

/// The text without the white space at its end.
pub open spec fn trimmed_end(text: Seq<char>) -> Seq<char>
    decreases text.len(),
{
    if text.len() > 0 && is_white_space(text.last()) {
        trimmed_end(text.drop_last())
    } else {
        text
    }
}

/// The text without the white space at its start.
pub open spec fn trimmed_start(text: Seq<char>) -> Seq<char>
    decreases text.len(),
{
    if text.len() > 0 && is_white_space(text[0]) {
        trimmed_start(text.drop_first())
    } else {
        text
    }
}

/// The text without the white space at its start and at its end.
pub open spec fn trimmed(text: Seq<char>) -> Seq<char> {
    trimmed_start(trimmed_end(text))
}

fn white_space(c: char) -> (white: bool)
    ensures
        white == is_white_space(c),
{
    ('\u{9}' <= c && c <= '\u{d}') || c == ' ' || c == '\u{85}' || c == '\u{a0}' || c
        == '\u{1680}' || ('\u{2000}' <= c && c <= '\u{200a}') || c == '\u{2028}' || c
        == '\u{2029}' || c == '\u{202f}' || c == '\u{205f}' || c == '\u{3000}'
}

/// Cutting white space off the end leaves the text up to its last character that is none.
proof fn lemma_trimmed_end(text: Seq<char>, end: int)
    requires
        0 <= end <= text.len(),
        forall|i: int| end <= i < text.len() ==> is_white_space(text[i]),
        end > 0 ==> !is_white_space(text[end - 1]),
    ensures
        trimmed_end(text) == text.take(end),
    decreases text.len(),
{
    if end == text.len() {
        assert(text.take(end) =~= text);
    } else {
        lemma_trimmed_end(text.drop_last(), end);
        assert(text.drop_last().take(end) =~= text.take(end));
    }
}

/// Cutting white space off the start leaves the text from its first character that is none.
proof fn lemma_trimmed_start(text: Seq<char>, start: int)
    requires
        0 <= start <= text.len(),
        forall|i: int| 0 <= i < start ==> is_white_space(text[i]),
        start < text.len() ==> !is_white_space(text[start]),
    ensures
        trimmed_start(text) == text.skip(start),
    decreases text.len(),
{
    if start == 0 {
        assert(text.skip(0) =~= text);
    } else {
        lemma_trimmed_start(text.drop_first(), start - 1);
        assert(text.drop_first().skip(start - 1) =~= text.skip(start));
    }
}

/// Cuts the white space off both ends of the text.
pub fn trim(text: &str) -> (kept: String)
    ensures
        kept@ == trimmed(text@),
{
    let total = text.unicode_len();
    let mut start: usize = 0;
    let mut end: usize = 0;
    let mut seen: usize = 0;
    for c in it: text.chars()
        invariant
            it.seq() == text@,
            seen == it.index(),
            total == text@.len(),
            start <= end <= seen <= total,
            end == 0 ==> start == 0,
            forall|i: int| 0 <= i < start ==> is_white_space(text@[i]),
            end == 0 ==> forall|i: int| 0 <= i < seen ==> is_white_space(text@[i]),
            end > 0 ==> !is_white_space(text@[start as int]) && !is_white_space(text@[end - 1]),
            forall|i: int| end <= i < seen ==> is_white_space(text@[i]),
    {
        if !white_space(c) {
            if end == 0 {
                start = seen;
            }
            end = seen + 1;
        }
        seen = seen + 1;
    }
    proof {
        lemma_trimmed_end(text@, end as int);
        if end == 0 {
            lemma_trimmed_start(text@.take(0), 0);
        } else {
            lemma_trimmed_start(text@.take(end as int), start as int);
        }
        assert(text@.take(end as int).skip(start as int) =~= text@.subrange(
            start as int,
            end as int,
        ));
    }
    text.substring_char(start, end).to_owned()
}

} // verus!
