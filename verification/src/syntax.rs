//! Character classes and small recognizers of the RTSP message grammar.
//!
//! Everything here works on bytes. A function whose name starts with `spec_`
//! describes a class or a transformation on `Seq<u8>`; the executable function
//! of the same name computes exactly that.

use vstd::prelude::*;
use vstd::slice::slice_subrange;
use vstd::string::StringSliceAdditionalSpecFns;

verus! {

/// The space character.
pub const SP: u8 = 0x20;

/// The horizontal tab character.
pub const HTAB: u8 = 0x09;

/// The carriage return character.
pub const CR: u8 = 0x0d;

/// The line feed character.
pub const LF: u8 = 0x0a;

/// Whether `byte` is an ASCII decimal digit.
pub open spec fn spec_is_digit(byte: u8) -> bool {
    0x30 <= byte <= 0x39
}

/// Whether `byte` is an ASCII letter or digit.
pub open spec fn spec_is_alphanumeric(byte: u8) -> bool {
    spec_is_digit(byte) || (0x41 <= byte <= 0x5a) || (0x61 <= byte <= 0x7a)
}

/// Whether `byte` may occur in a token: a letter, a digit or one of
/// ``!#$%&'*+-.^_`|~``.
pub open spec fn spec_is_token_char(byte: u8) -> bool {
    spec_is_alphanumeric(byte) || byte == 0x21 || byte == 0x23 || byte == 0x24 || byte == 0x25
        || byte == 0x26 || byte == 0x27 || byte == 0x2a || byte == 0x2b || byte == 0x2d || byte
        == 0x2e || byte == 0x5e || byte == 0x5f || byte == 0x60 || byte == 0x7c || byte == 0x7e
}

/// Whether `bytes` is a token: one or more token characters.
pub open spec fn spec_is_token(bytes: Seq<u8>) -> bool {
    bytes.len() > 0 && forall|i: int| 0 <= i < bytes.len() ==> spec_is_token_char(#[trigger] bytes[i])
}

/// Whether `byte` is linear whitespace: a space or a horizontal tab.
pub open spec fn spec_is_whitespace(byte: u8) -> bool {
    byte == SP || byte == HTAB
}

/// Whether `byte` is a printable ASCII character (space included).
pub open spec fn spec_is_printable(byte: u8) -> bool {
    0x20 <= byte <= 0x7e
}

/// Whether `byte` is a printable ASCII character other than space.
pub open spec fn spec_is_visible(byte: u8) -> bool {
    0x21 <= byte <= 0x7e
}

/// The lowercase form of `byte`: ASCII capital letters move to their small
/// counterparts, every other byte stays.
pub open spec fn spec_lower_byte(byte: u8) -> u8 {
    if 0x41 <= byte <= 0x5a {
        (byte + 0x20) as u8
    } else {
        byte
    }
}

/// The uppercase form of `byte`: ASCII small letters move to their capital
/// counterparts, every other byte stays.
pub open spec fn spec_upper_byte(byte: u8) -> u8 {
    if 0x61 <= byte <= 0x7a {
        (byte - 0x20) as u8
    } else {
        byte
    }
}

/// `bytes` with every byte in lowercase form.
pub open spec fn spec_to_ascii_lowercase(bytes: Seq<u8>) -> Seq<u8> {
    Seq::new(bytes.len(), |i: int| spec_lower_byte(bytes[i]))
}

/// `bytes` with every byte in uppercase form.
pub open spec fn spec_to_ascii_uppercase(bytes: Seq<u8>) -> Seq<u8> {
    Seq::new(bytes.len(), |i: int| spec_upper_byte(bytes[i]))
}

/// The number of whitespace bytes at the front of `bytes`.
pub open spec fn spec_leading_whitespace(bytes: Seq<u8>) -> nat
    decreases bytes.len(),
{
    if bytes.len() > 0 && spec_is_whitespace(bytes[0]) {
        1 + spec_leading_whitespace(bytes.skip(1))
    } else {
        0
    }
}

/// The number of whitespace bytes at the back of `bytes`.
pub open spec fn spec_trailing_whitespace(bytes: Seq<u8>) -> nat
    decreases bytes.len(),
{
    if bytes.len() > 0 && spec_is_whitespace(bytes.last()) {
        1 + spec_trailing_whitespace(bytes.drop_last())
    } else {
        0
    }
}

/// `bytes` without its leading whitespace.
pub open spec fn spec_trim_whitespace_left(bytes: Seq<u8>) -> Seq<u8> {
    bytes.skip(spec_leading_whitespace(bytes) as int)
}

/// `bytes` without its leading and trailing whitespace.
pub open spec fn spec_trim_whitespace(bytes: Seq<u8>) -> Seq<u8> {
    let left = spec_trim_whitespace_left(bytes);
    left.take(left.len() - spec_trailing_whitespace(left))
}

/// Whether `bytes` neither starts nor ends with whitespace.
pub open spec fn spec_is_trimmed(bytes: Seq<u8>) -> bool {
    bytes.len() > 0 ==> !spec_is_whitespace(bytes[0]) && !spec_is_whitespace(bytes.last())
}

/// Decides whether `byte` is an ASCII decimal digit.
pub fn is_digit(byte: u8) -> (res: bool)
    ensures
        res == spec_is_digit(byte),
{
    0x30 <= byte && byte <= 0x39
}

/// Decides whether `byte` is an ASCII letter or digit.
pub fn is_alphanumeric(byte: u8) -> (res: bool)
    ensures
        res == spec_is_alphanumeric(byte),
{
    is_digit(byte) || (0x41 <= byte && byte <= 0x5a) || (0x61 <= byte && byte <= 0x7a)
}

/// Decides whether `byte` may occur in a token.
pub fn is_token_char(byte: u8) -> (res: bool)
    ensures
        res == spec_is_token_char(byte),
{
    is_alphanumeric(byte) || byte == 0x21 || byte == 0x23 || byte == 0x24 || byte == 0x25 || byte
        == 0x26 || byte == 0x27 || byte == 0x2a || byte == 0x2b || byte == 0x2d || byte == 0x2e
        || byte == 0x5e || byte == 0x5f || byte == 0x60 || byte == 0x7c || byte == 0x7e
}

/// Decides whether `bytes` is a token.
pub fn is_token(bytes: &[u8]) -> (res: bool)
    ensures
        res == spec_is_token(bytes@),
{
    if bytes.len() == 0 {
        return false;
    }
    let mut i: usize = 0;
    while i < bytes.len()
        invariant
            i <= bytes.len(),
            forall|j: int| 0 <= j < i ==> spec_is_token_char(#[trigger] bytes@[j]),
        decreases bytes.len() - i,
    {
        if !is_token_char(bytes[i]) {
            return false;
        }
        i += 1;
    }
    true
}

/// Decides whether `byte` is a space or a horizontal tab.
pub fn is_whitespace(byte: u8) -> (res: bool)
    ensures
        res == spec_is_whitespace(byte),
{
    byte == SP || byte == HTAB
}

/// Computes the lowercase form of `byte`.
pub fn lower_byte(byte: u8) -> (res: u8)
    ensures
        res == spec_lower_byte(byte),
{
    if 0x41 <= byte && byte <= 0x5a {
        byte + 0x20
    } else {
        byte
    }
}

/// Computes `bytes` with every byte in lowercase form.
pub fn to_ascii_lowercase(bytes: &[u8]) -> (res: Vec<u8>)
    ensures
        res@ == spec_to_ascii_lowercase(bytes@),
{
    let mut out: Vec<u8> = Vec::with_capacity(bytes.len());
    let mut i: usize = 0;
    while i < bytes.len()
        invariant
            i <= bytes.len(),
            out@.len() == i,
            forall|j: int| 0 <= j < i ==> out@[j] == spec_lower_byte(bytes@[j]),
        decreases bytes.len() - i,
    {
        out.push(lower_byte(bytes[i]));
        i += 1;
    }
    assert(out@ =~= spec_to_ascii_lowercase(bytes@));
    out
}

/// Compares two byte strings for equality.
pub fn bytes_eq(a: &[u8], b: &[u8]) -> (res: bool)
    ensures
        res == (a@ == b@),
{
    if a.len() != b.len() {
        return false;
    }
    let mut i: usize = 0;
    while i < a.len()
        invariant
            a.len() == b.len(),
            i <= a.len(),
            forall|j: int| 0 <= j < i ==> a@[j] == b@[j],
        decreases a.len() - i,
    {
        if a[i] != b[i] {
            return false;
        }
        i += 1;
    }
    assert(a@ =~= b@);
    true
}

/// Copies a byte string into a vector.
pub fn bytes_to_vec(bytes: &[u8]) -> (res: Vec<u8>)
    ensures
        res@ == bytes@,
{
    let mut out: Vec<u8> = Vec::with_capacity(bytes.len());
    let mut i: usize = 0;
    while i < bytes.len()
        invariant
            i <= bytes.len(),
            out@ == bytes@.take(i as int),
        decreases bytes.len() - i,
    {
        out.push(bytes[i]);
        assert(bytes@.take(i + 1) =~= bytes@.take(i as int).push(bytes@[i as int]));
        i += 1;
    }
    assert(bytes@.take(bytes@.len() as int) =~= bytes@);
    out
}

/// The leading whitespace of `bytes` ends at the first byte that is not
/// whitespace.
pub proof fn lemma_leading_whitespace(bytes: Seq<u8>, n: int)
    requires
        0 <= n <= bytes.len(),
        forall|i: int| 0 <= i < n ==> spec_is_whitespace(#[trigger] bytes[i]),
        n < bytes.len() ==> !spec_is_whitespace(bytes[n]),
    ensures
        spec_leading_whitespace(bytes) == n,
    decreases n,
{
    if n > 0 {
        let rest = bytes.skip(1);
        assert forall|i: int| 0 <= i < n - 1 implies spec_is_whitespace(#[trigger] rest[i]) by {
            assert(rest[i] == bytes[i + 1]);
        }
        lemma_leading_whitespace(rest, n - 1);
    }
}

/// The trailing whitespace of `bytes` starts after the last byte that is not
/// whitespace.
pub proof fn lemma_trailing_whitespace(bytes: Seq<u8>, n: int)
    requires
        0 <= n <= bytes.len(),
        forall|i: int| bytes.len() - n <= i < bytes.len() ==> spec_is_whitespace(#[trigger] bytes[i]),
        n < bytes.len() ==> !spec_is_whitespace(bytes[bytes.len() - n - 1]),
    ensures
        spec_trailing_whitespace(bytes) == n,
    decreases n,
{
    if n > 0 {
        let rest = bytes.drop_last();
        assert forall|i: int| rest.len() - (n - 1) <= i < rest.len() implies spec_is_whitespace(
            #[trigger] rest[i],
        ) by {
            assert(rest[i] == bytes[i]);
        }
        lemma_trailing_whitespace(rest, n - 1);
    }
}

/// A byte string that neither starts nor ends with whitespace is its own
/// trimmed form.
pub proof fn lemma_trim_of_trimmed(bytes: Seq<u8>)
    requires
        spec_is_trimmed(bytes),
    ensures
        spec_trim_whitespace(bytes) == bytes,
{
    lemma_leading_whitespace(bytes, 0);
    assert(bytes.skip(0) =~= bytes);
    lemma_trailing_whitespace(bytes, 0);
    assert(bytes.take(bytes.len() as int) =~= bytes);
}

/// The trimmed form of any byte string neither starts nor ends with
/// whitespace, and is no longer than the byte string.
pub proof fn lemma_trim_is_trimmed(bytes: Seq<u8>)
    ensures
        spec_is_trimmed(spec_trim_whitespace(bytes)),
        spec_trim_whitespace(bytes).len() <= bytes.len(),
{
    lemma_leading_bounds(bytes);
    let left = spec_trim_whitespace_left(bytes);
    lemma_trailing_bounds(left);
    let n = spec_trailing_whitespace(left);
    let out = spec_trim_whitespace(bytes);
    if out.len() > 0 {
        assert(out[0] == left[0]);
        assert(out.last() == left[left.len() - n - 1]);
    }
}

/// The leading whitespace is whitespace and is followed by a byte that is
/// not.
pub proof fn lemma_leading_bounds(bytes: Seq<u8>)
    ensures
        spec_leading_whitespace(bytes) <= bytes.len(),
        forall|i: int| 0 <= i < spec_leading_whitespace(bytes) ==> spec_is_whitespace(#[trigger] bytes[i]),
        spec_leading_whitespace(bytes) < bytes.len() ==> !spec_is_whitespace(
            bytes[spec_leading_whitespace(bytes) as int],
        ),
    decreases bytes.len(),
{
    if bytes.len() > 0 && spec_is_whitespace(bytes[0]) {
        let rest = bytes.skip(1);
        lemma_leading_bounds(rest);
        let n = spec_leading_whitespace(rest) as int;
        assert forall|i: int| 0 <= i < n + 1 implies spec_is_whitespace(#[trigger] bytes[i]) by {
            if i > 0 {
                assert(bytes[i] == rest[i - 1]);
            }
        }
        if n + 1 < bytes.len() {
            assert(bytes[n + 1] == rest[n]);
        }
    }
}

/// The trailing whitespace is whitespace and is preceded by a byte that is
/// not.
pub proof fn lemma_trailing_bounds(bytes: Seq<u8>)
    ensures
        spec_trailing_whitespace(bytes) <= bytes.len(),
        forall|i: int|
            bytes.len() - spec_trailing_whitespace(bytes) <= i < bytes.len() ==> spec_is_whitespace(
                #[trigger] bytes[i],
            ),
        spec_trailing_whitespace(bytes) < bytes.len() ==> !spec_is_whitespace(
            bytes[bytes.len() - spec_trailing_whitespace(bytes) - 1],
        ),
    decreases bytes.len(),
{
    if bytes.len() > 0 && spec_is_whitespace(bytes.last()) {
        let rest = bytes.drop_last();
        lemma_trailing_bounds(rest);
        let n = spec_trailing_whitespace(rest) as int;
        assert forall|i: int| bytes.len() - (n + 1) <= i < bytes.len() implies spec_is_whitespace(
            #[trigger] bytes[i],
        ) by {
            if i < bytes.len() - 1 {
                assert(bytes[i] == rest[i]);
            }
        }
        if n + 1 < bytes.len() {
            assert(bytes[bytes.len() - (n + 1) - 1] == rest[rest.len() - n - 1]);
        }
    }
}

/// Returns `bytes` without its leading and trailing whitespace.
pub fn trim_whitespace(bytes: &[u8]) -> (res: &[u8])
    ensures
        res@ == spec_trim_whitespace(bytes@),
{
    let mut start: usize = 0;
    while start < bytes.len() && is_whitespace(bytes[start])
        invariant
            start <= bytes.len(),
            forall|i: int| 0 <= i < start ==> spec_is_whitespace(#[trigger] bytes@[i]),
        decreases bytes.len() - start,
    {
        start += 1;
    }
    let mut end: usize = bytes.len();
    while end > start && is_whitespace(bytes[end - 1])
        invariant
            start <= end <= bytes.len(),
            forall|i: int| end <= i < bytes.len() ==> spec_is_whitespace(#[trigger] bytes@[i]),
        decreases end,
    {
        end -= 1;
    }
    proof {
        lemma_leading_whitespace(bytes@, start as int);
        let left = bytes@.skip(start as int);
        assert forall|i: int| left.len() - (bytes.len() - end) <= i < left.len() implies spec_is_whitespace(
            #[trigger] left[i],
        ) by {
            assert(left[i] == bytes@[i + start]);
        }
        if bytes.len() - end < left.len() {
            assert(left[left.len() - (bytes.len() - end) - 1] == bytes@[end - 1]);
        }
        lemma_trailing_whitespace(left, bytes.len() - end);
        assert(bytes@.subrange(start as int, end as int) =~= left.take(
            left.len() - (bytes.len() - end),
        ));
    }
    slice_subrange(bytes, start, end)
}

/// The double quote character.
pub const DQUOTE: u8 = 0x22;

/// The backslash character.
pub const BACKSLASH: u8 = 0x5c;

/// Whether `bytes` may stand between the quotes of a quoted string: printable
/// ASCII bytes other than the double quote and the backslash, and the pairs
/// of a backslash and a double quote or a second backslash.
pub open spec fn spec_is_quoted_text(bytes: Seq<u8>) -> bool
    decreases bytes.len(),
{
    if bytes.len() == 0 {
        true
    } else if bytes[0] == BACKSLASH {
        bytes.len() >= 2 && (bytes[1] == BACKSLASH || bytes[1] == DQUOTE) && spec_is_quoted_text(
            bytes.skip(2),
        )
    } else {
        bytes[0] != DQUOTE && spec_is_printable(bytes[0]) && spec_is_quoted_text(bytes.skip(1))
    }
}

/// Whether `bytes` is a quoted string: text between two double quotes.
pub open spec fn spec_is_quoted_string(bytes: Seq<u8>) -> bool {
    &&& bytes.len() >= 2
    &&& bytes[0] == DQUOTE
    &&& bytes.last() == DQUOTE
    &&& spec_is_quoted_text(bytes.subrange(1, bytes.len() - 1))
}

/// Decides whether `bytes` is a quoted string.
pub fn is_quoted_string(bytes: &[u8]) -> (res: bool)
    ensures
        res == spec_is_quoted_string(bytes@),
{
    if bytes.len() < 2 || bytes[0] != DQUOTE || bytes[bytes.len() - 1] != DQUOTE {
        return false;
    }
    let text = slice_subrange(bytes, 1, bytes.len() - 1);
    let mut i: usize = 0;
    assert(text@.skip(0) =~= text@);
    while i < text.len()
        invariant
            i <= text@.len(),
            spec_is_quoted_string(bytes@) == spec_is_quoted_text(text@.skip(i as int)),
        decreases text@.len() - i,
    {
        let ghost rest = text@.skip(i as int);
        assert(rest[0] == text@[i as int]);
        if text[i] == BACKSLASH {
            if i + 1 >= text.len() || !(text[i + 1] == BACKSLASH || text[i + 1] == DQUOTE) {
                assert(i + 1 < text@.len() ==> rest[1] == text@[i + 1]);
                return false;
            }
            assert(rest[1] == text@[i + 1]);
            assert(rest.skip(2) =~= text@.skip(i + 2));
            i += 2;
        } else {
            if text[i] == DQUOTE || !(0x20 <= text[i] && text[i] <= 0x7e) {
                return false;
            }
            assert(rest.skip(1) =~= text@.skip(i + 1));
            i += 1;
        }
    }
    assert(text@.skip(text@.len() as int).len() == 0);
    true
}

/// The index of the first `byte` in `bytes`, or the length of `bytes` if
/// there is none.
pub open spec fn spec_index_of(bytes: Seq<u8>, byte: u8) -> int
    decreases bytes.len(),
{
    if bytes.len() == 0 || bytes[0] == byte {
        0
    } else {
        1 + spec_index_of(bytes.skip(1), byte)
    }
}

/// `spec_index_of` returns the first index at which the byte stands.
pub proof fn lemma_index_of(bytes: Seq<u8>, byte: u8)
    ensures
        0 <= spec_index_of(bytes, byte) <= bytes.len(),
        spec_index_of(bytes, byte) < bytes.len() ==> bytes[spec_index_of(bytes, byte)] == byte,
        forall|j: int| 0 <= j < spec_index_of(bytes, byte) ==> #[trigger] bytes[j] != byte,
    decreases bytes.len(),
{
    if bytes.len() == 0 || bytes[0] == byte {
    } else {
        let rest = bytes.skip(1);
        lemma_index_of(rest, byte);
        let r = spec_index_of(rest, byte);
        assert forall|j: int| 0 <= j < r + 1 implies #[trigger] bytes[j] != byte by {
            if j > 0 {
                assert(rest[j - 1] == bytes[j]);
            }
        }
        if r < rest.len() {
            assert(rest[r] == bytes[r + 1]);
        }
    }
}

/// An index before which the byte does not stand, and at which it stands or
/// the bytes end, is what `spec_index_of` returns.
pub proof fn lemma_index_of_is(bytes: Seq<u8>, byte: u8, index: int)
    requires
        0 <= index <= bytes.len(),
        forall|j: int| 0 <= j < index ==> #[trigger] bytes[j] != byte,
        index < bytes.len() ==> bytes[index] == byte,
    ensures
        spec_index_of(bytes, byte) == index,
{
    lemma_index_of(bytes, byte);
    let r = spec_index_of(bytes, byte);
    if r < index {
        assert(bytes[r] != byte);
    }
}

/// Finds the first `byte` in `bytes`; returns the length of `bytes` if there
/// is none.
pub fn index_of(bytes: &[u8], byte: u8) -> (res: usize)
    ensures
        res == spec_index_of(bytes@, byte),
        res <= bytes@.len(),
{
    let mut i: usize = 0;
    while i < bytes.len() && bytes[i] != byte
        invariant
            i <= bytes.len(),
            forall|j: int| 0 <= j < i ==> #[trigger] bytes@[j] != byte,
        decreases bytes.len() - i,
    {
        i += 1;
    }
    proof {
        lemma_index_of_is(bytes@, byte, i as int);
    }
    i
}

/// The bytes of an ASCII string literal are its characters.
pub proof fn lemma_ascii_literal(literal: &str)
    requires
        vstd::string::is_ascii(literal),
    ensures
        literal.spec_bytes().len() == literal@.len(),
        forall|i: int| 0 <= i < literal@.len() ==> literal.spec_bytes()[i] == literal@[i] as u8,
{
    broadcast use vstd::string::is_ascii_spec_bytes;

}

/// A token holds no whitespace and none of the separators `,`, `;`, `:` and
/// `=`, and is its own trimmed form.
pub proof fn lemma_token_has_no_separator(bytes: Seq<u8>)
    requires
        spec_is_token(bytes),
    ensures
        spec_index_of(bytes, 0x2c) == bytes.len(),
        spec_index_of(bytes, 0x3b) == bytes.len(),
        spec_index_of(bytes, 0x3a) == bytes.len(),
        spec_index_of(bytes, 0x3d) == bytes.len(),
        spec_index_of(bytes, SP) == bytes.len(),
        spec_trim_whitespace(bytes) == bytes,
{
    assert forall|j: int| 0 <= j < bytes.len() implies #[trigger] bytes[j] != 0x2c && bytes[j]
        != 0x3b && bytes[j] != 0x3a && bytes[j] != 0x3d && bytes[j] != SP by {
        assert(spec_is_token_char(bytes[j]));
    }
    lemma_index_of_is(bytes, 0x2c, bytes.len() as int);
    lemma_index_of_is(bytes, 0x3b, bytes.len() as int);
    lemma_index_of_is(bytes, 0x3a, bytes.len() as int);
    lemma_index_of_is(bytes, 0x3d, bytes.len() as int);
    lemma_index_of_is(bytes, SP, bytes.len() as int);
    assert(spec_is_token_char(bytes[0]));
    assert(spec_is_token_char(bytes.last()));
    lemma_trim_of_trimmed(bytes);
}

} // verus!
