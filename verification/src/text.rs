//! Characters and strings: the few operations of `char`, `str` and
//! `String` that the library needs.
use vstd::prelude::*;
use vstd::std_specs::iter::IteratorSpec;
use vstd::utf8::{valid_utf8, decode_utf8};

verus! {

/// `String::from_utf8`: the bytes as a string when they are valid UTF-8,
/// and an error otherwise, as its documentation states.
#[verifier::external_body]
pub fn string_from_utf8(bytes: Vec<u8>) -> (r: Result<String, std::string::FromUtf8Error>)
    ensures
        r is Ok <==> valid_utf8(bytes@),
        r matches Ok(s) ==> s@ == decode_utf8(bytes@),
{
    String::from_utf8(bytes)
}

/// `String::push`: appends one character.
#[verifier::external_body]
pub fn string_push(s: &mut String, c: char)
    ensures
        final(s)@ == old(s)@.push(c),
{
    s.push(c)
}

/// The characters of a string, in order.
pub fn chars_of(s: &str) -> (r: Vec<char>)
    ensures
        r@ == s@,
{
    let mut out: Vec<char> = Vec::new();
    let mut it = s.chars();
    loop
        invariant_except_break
            out@ + it.remaining() == s@,
            it.obeys_prophetic_iter_laws(),
            it.decrease() is Some,
        ensures
            out@ == s@,
        decreases it.decrease()->0,
    {
        match it.next() {
            Some(c) => {
                out.push(c);
            },
            None => {
                break ;
            },
        }
    }
    out
}

/// A string made of the given characters.
pub fn string_of(chars: &Vec<char>) -> (r: String)
    ensures
        r@ == chars@,
{
    let mut s = String::new();
    let mut i: usize = 0;
    while i < chars.len()
        invariant
            i <= chars.len(),
            s@ == chars@.subrange(0, i as int),
        decreases chars.len() - i,
    {
        string_push(&mut s, chars[i]);
        i = i + 1;
        assert(s@ =~= chars@.subrange(0, i as int));
    }
    assert(s@ =~= chars@);
    s
}

/// Whether `c` has the Unicode `White_Space` property, which is what
/// `char::is_whitespace` tests.
pub open spec fn spec_is_whitespace(c: char) -> bool {
    let u = c as u32;
    (0x9 <= u && u <= 0xd) || u == 0x20 || u == 0x85 || u == 0xa0 || u == 0x1680
        || (0x2000 <= u && u <= 0x200a) || u == 0x2028 || u == 0x2029 || u == 0x202f
        || u == 0x205f || u == 0x3000
}

/// Whether `c` is white space (see [`spec_is_whitespace`]).
pub fn is_whitespace(c: char) -> (r: bool)
    ensures
        r == spec_is_whitespace(c),
{
    let u = c as u32;
    (0x9 <= u && u <= 0xd) || u == 0x20 || u == 0x85 || u == 0xa0 || u == 0x1680 || (0x2000
        <= u && u <= 0x200a) || u == 0x2028 || u == 0x2029 || u == 0x202f || u == 0x205f || u
        == 0x3000
}

/// What `char::is_alphanumeric` returns: whether the character has the
/// Unicode `Alphabetic` property or a numeric general category.
pub uninterp spec fn char_alphanumeric(c: char) -> bool;

/// What `char::is_numeric` returns: whether the character's general
/// category is `Nd`, `Nl` or `No`.
pub uninterp spec fn char_numeric(c: char) -> bool;

/// `char::is_alphanumeric`. Its result is named; the contract adds what
/// the documentation shows for ASCII: letters and digits are alphanumeric,
/// other ASCII characters are not.
#[verifier::external_body]
pub fn char_is_alphanumeric(c: char) -> (r: bool)
    ensures
        r == char_alphanumeric(c),
        ('a' <= c <= 'z' || 'A' <= c <= 'Z' || '0' <= c <= '9') ==> r,
        (c as u32) < 0x80 && !('a' <= c <= 'z' || 'A' <= c <= 'Z' || '0' <= c <= '9') ==> !r,
{
    c.is_alphanumeric()
}

/// `char::is_numeric`. Its result is named; the contract adds what the
/// documentation shows for ASCII: only the digits are numeric.
#[verifier::external_body]
pub fn char_is_numeric(c: char) -> (r: bool)
    ensures
        r == char_numeric(c),
        (c as u32) < 0x80 ==> (r <==> '0' <= c <= '9'),
{
    c.is_numeric()
}

/// The text of a string literal as an owned string.
pub fn owned(s: &str) -> (r: String)
    ensures
        r@ == s@,
{
    s.to_owned()
}

/// Whether two strings hold the same characters.
pub fn str_eq(a: &str, b: &str) -> (r: bool)
    ensures
        r == (a@ == b@),
{
    a.to_owned() == b.to_owned()
}

/// The decimal digit `d`.
pub open spec fn digit_char(d: nat) -> char {
    (48 + d) as char
}

/// The decimal digits of `v`.
pub open spec fn decimal(v: nat) -> Seq<char>
    decreases v,
{
    if v < 10 {
        seq![digit_char(v)]
    } else {
        decimal(v / 10).push(digit_char(v % 10))
    }
}

/// Append the decimal digits of `v` to `s`.
fn push_decimal(s: &mut String, v: u64)
    ensures
        final(s)@ == old(s)@ + decimal(v as nat),
    decreases v,
{
    if v >= 10 {
        push_decimal(s, v / 10);
    }
    let d: u8 = (v % 10) as u8;
    let c = (48u8 + d) as char;
    assert(c == digit_char((v % 10) as nat));
    string_push(s, c);
    assert(s@ =~= old(s)@ + decimal(v as nat));
}

/// The prefix followed by the decimal digits of `v`, as
/// `format!("{}{}", prefix, v)` writes them.
pub fn numbered(prefix: &str, v: u64) -> (r: String)
    ensures
        r@ == prefix@ + decimal(v as nat),
{
    let mut s = owned(prefix);
    push_decimal(&mut s, v);
    s
}

/// What `format!("{:?}", s)` gives for the text `s`: the text in quotes,
/// with the characters that `Debug` escapes escaped.
pub uninterp spec fn spec_debug_text(s: Seq<char>) -> Seq<char>;

/// `format!("{:?}", s)`: the text as `Debug` for `str` writes it.
#[verifier::external_body]
pub fn debug_text(s: &str) -> (r: String)
    ensures
        r@ == spec_debug_text(s@),
{
    format!("{:?}", s)
}

/// The `Debug` text of the character `c`, as `format!` writes it: the
/// character in single quotes, escaped as `char::escape_debug` does.
pub uninterp spec fn spec_char_debug(c: char) -> Seq<char>;

/// `format!` of the `Debug` text of the character `c`.
#[verifier::external_body]
pub fn char_debug(c: char) -> (r: String)
    ensures
        r@ == spec_char_debug(c),
{
    format!("{:?}", c)
}

/// Append the text `t` to `s`.
pub fn append(s: &mut String, t: &str)
    ensures
        final(s)@ == old(s)@ + t@,
{
    let cs = chars_of(t);
    let mut i: usize = 0;
    while i < cs.len()
        invariant
            i <= cs.len(),
            cs@ == t@,
            s@ == old(s)@ + t@.take(i as int),
        decreases cs.len() - i,
    {
        string_push(s, cs[i]);
        i = i + 1;
        assert(s@ =~= old(s)@ + t@.take(i as int));
    }
    assert(t@.take(i as int) =~= t@);
}

} // verus!
