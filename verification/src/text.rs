//! Character classes and string helpers shared by validation and rendering.
use vstd::prelude::*;

verus! {

/// Maps a sequence of strings to their character sequences.
pub open spec fn views(v: Seq<String>) -> Seq<Seq<char>> {
    v.map_values(|s: String| s@)
}

pub open spec fn is_ascii_lower(c: char) -> bool {
    'a' <= c && c <= 'z'
}

pub open spec fn is_ascii_upper(c: char) -> bool {
    'A' <= c && c <= 'Z'
}

pub open spec fn is_ascii_digit(c: char) -> bool {
    '0' <= c && c <= '9'
}

pub open spec fn is_ascii_alphanumeric(c: char) -> bool {
    is_ascii_lower(c) || is_ascii_upper(c) || is_ascii_digit(c)
}

pub open spec fn is_ascii_hexdigit(c: char) -> bool {
    is_ascii_digit(c) || ('a' <= c && c <= 'f') || ('A' <= c && c <= 'F')
}

/// Characters with the Unicode `White_Space` property, which `char::is_whitespace` tests.
pub open spec fn is_whitespace(c: char) -> bool {
    ||| ('\u{9}' <= c && c <= '\u{d}')
    ||| c == ' '
    ||| c == '\u{85}'
    ||| c == '\u{a0}'
    ||| c == '\u{1680}'
    ||| ('\u{2000}' <= c && c <= '\u{200a}')
    ||| c == '\u{2028}'
    ||| c == '\u{2029}'
    ||| c == '\u{202f}'
    ||| c == '\u{205f}'
    ||| c == '\u{3000}'
}

pub fn char_is_ascii_alphanumeric(c: char) -> (r: bool)
    ensures
        r == is_ascii_alphanumeric(c),
{
    ('a' <= c && c <= 'z') || ('A' <= c && c <= 'Z') || ('0' <= c && c <= '9')
}

pub fn char_is_ascii_hexdigit(c: char) -> (r: bool)
    ensures
        r == is_ascii_hexdigit(c),
{
    ('0' <= c && c <= '9') || ('a' <= c && c <= 'f') || ('A' <= c && c <= 'F')
}

pub fn char_is_whitespace(c: char) -> (r: bool)
    ensures
        r == is_whitespace(c),
{
    ('\u{9}' <= c && c <= '\u{d}') || c == ' ' || c == '\u{85}' || c == '\u{a0}'
        || c == '\u{1680}' || ('\u{2000}' <= c && c <= '\u{200a}') || c == '\u{2028}'
        || c == '\u{2029}' || c == '\u{202f}' || c == '\u{205f}' || c == '\u{3000}'
}

/// `sub` occurs in `s`.
pub open spec fn contains_text(s: Seq<char>, sub: Seq<char>) -> bool {
    exists|i: int| 0 <= i <= s.len() - sub.len() && #[trigger] s.subrange(i, i + sub.len()) == sub
}

/// A piece of a text occurs in it.
pub proof fn lemma_contains_piece(a: Seq<char>, b: Seq<char>, c: Seq<char>)
    ensures
        contains_text(a + b + c, b),
{
    assert((a + b + c).subrange(a.len() as int, (a.len() + b.len()) as int) =~= b);
}

/// Appends one character to a string (`String::push`).
#[verifier::external_body]
pub(crate) fn push_char(s: &mut String, c: char)
    ensures
        final(s)@ == old(s)@.push(c),
{
    s.push(c);
}

/// What `{:?}` prints for a string: the text quoted, with `str::escape_debug` applied.
pub uninterp spec fn debug_quoted(s: Seq<char>) -> Seq<char>;

/// Every character is printable ASCII (`' '` to `'~'`) that `escape_debug` leaves alone:
/// no quote of either kind and no backslash.
pub open spec fn plain_ascii(s: Seq<char>) -> bool {
    forall|i: int|
        0 <= i < s.len() ==> ' ' <= #[trigger] s[i] && s[i] <= '~' && s[i] != '"' && s[i] != '\\'
            && s[i] != '\''
}

/// `{:?}` of a string: plain ASCII text between double quotes, anything else as
/// `debug_quoted` names it.
pub open spec fn quoted(s: Seq<char>) -> Seq<char> {
    if plain_ascii(s) {
        seq!['"'] + s + seq!['"']
    } else {
        debug_quoted(s)
    }
}

/// Formats a string as `format!("{:?}", s)` does. The result depends on `s` alone. std documents
/// that printable ASCII other than quotes and backslashes is not escaped, so such a text comes out
/// between double quotes as it is; the escapes for other characters are not restated here.
#[verifier::external_body]
pub fn debug_quote(s: &str) -> (r: String)
    ensures
        r@ == debug_quoted(s@),
        plain_ascii(s@) ==> r@ == seq!['"'] + s@ + seq!['"'],
{
    format!("{:?}", s)
}

} // verus!
verus! {

/// The character sets that plan fields are checked against.
#[derive(Debug, Clone, Copy, PartialEq, Eq, Structural)]
pub enum CharClass {
    /// ASCII letters, digits and `-` (host names)
    Hostname,
    /// ASCII lowercase letters, digits, `_` and `-` (user names)
    Username,
    /// ASCII letters, digits, `-` and `_` (device-mapper names)
    MapperName,
    /// ASCII hex digits
    HexDigit,
}

pub open spec fn in_class(class: CharClass, c: char) -> bool {
    match class {
        CharClass::Hostname => is_ascii_alphanumeric(c) || c == '-',
        CharClass::Username => is_ascii_lower(c) || is_ascii_digit(c) || c == '_' || c == '-',
        CharClass::MapperName => is_ascii_alphanumeric(c) || c == '-' || c == '_',
        CharClass::HexDigit => is_ascii_hexdigit(c),
    }
}

/// Every character of `s` lies in `class` (true of the empty string).
pub open spec fn all_in_class(class: CharClass, s: Seq<char>) -> bool {
    forall|i: int| 0 <= i < s.len() ==> #[trigger] in_class(class, s[i])
}

/// Every character of `s` is whitespace, i.e. `s.trim()` is empty.
pub open spec fn is_blank(s: Seq<char>) -> bool {
    forall|i: int| 0 <= i < s.len() ==> #[trigger] is_whitespace(s[i])
}

pub fn char_in_class(class: CharClass, c: char) -> (r: bool)
    ensures
        r == in_class(class, c),
{
    match class {
        CharClass::Hostname => char_is_ascii_alphanumeric(c) || c == '-',
        CharClass::Username => ('a' <= c && c <= 'z') || ('0' <= c && c <= '9') || c == '_' || c == '-',
        CharClass::MapperName => char_is_ascii_alphanumeric(c) || c == '-' || c == '_',
        CharClass::HexDigit => char_is_ascii_hexdigit(c),
    }
}

pub fn chars_in_class(class: CharClass, s: &str) -> (r: bool)
    ensures
        r == all_in_class(class, s@),
{
    broadcast use vstd::string::group_string_axioms;
    let mut ok = true;
    for c in iter: s.chars()
        invariant
            iter.seq() == s@,
            ok == forall|i: int| 0 <= i < iter.index() ==> #[trigger] in_class(class, s@[i]),
    {
        if !char_in_class(class, c) {
            ok = false;
        }
    }
    ok
}

pub fn is_blank_str(s: &str) -> (r: bool)
    ensures
        r == is_blank(s@),
{
    broadcast use vstd::string::group_string_axioms;
    let mut ok = true;
    for c in iter: s.chars()
        invariant
            iter.seq() == s@,
            ok == forall|i: int| 0 <= i < iter.index() ==> #[trigger] is_whitespace(s@[i]),
    {
        if !char_is_whitespace(c) {
            ok = false;
        }
    }
    ok
}

/// Whether `s` has exactly `n` characters.
pub fn has_char_count(s: &str, n: usize) -> (r: bool)
    ensures
        r == (s@.len() == n),
{
    s.unicode_len() == n
}

/// Whether `s` starts with the character `c`.
pub fn starts_with_char(s: &str, c: char) -> (r: bool)
    ensures
        r == (s@.len() > 0 && s@[0] == c),
{
    if s.is_empty() {
        false
    } else {
        s.get_char(0) == c
    }
}

} // verus!
