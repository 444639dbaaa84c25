use vstd::prelude::*;

verus! {

// The display width that the Unicode tables assign to a character:
// `None` for a control character, otherwise a width in columns.
pub uninterp spec fn unicode_width_of(c: char) -> Option<usize>;

/// Relies on `unicode_width::UnicodeWidthChar::width`: the East-Asian-width
/// based column count of one character, `None` for control characters.
/// Its tables never yield a width above 3.
#[verifier::external_body]
fn unicode_width(c: char) -> (r: Option<usize>)
    ensures
        r == unicode_width_of(c),
        r matches Some(w) ==> w <= 3,
{
    unicode_width::UnicodeWidthChar::width(c)
}

/// The number of grid columns a printed character occupies: its Unicode
/// display width, with control and zero-width characters counted as 1.
pub open spec fn char_width(c: char) -> nat {
    match unicode_width_of(c) {
        Some(w) => if w == 0 { 1nat } else { w as nat },
        None => 1nat,
    }
}

/// The executable form of `char_width`.
pub fn char_width_exec(c: char) -> (w: usize)
    ensures
        w == char_width(c),
        1 <= w <= 3,
{
    match unicode_width(c) {
        Some(w) => if w == 0 { 1 } else { w },
        None => 1,
    }
}

// The single-character lower-case fold used by the search engine.
pub uninterp spec fn lower_char_of(c: char) -> char;

/// Relies on `char::to_lowercase`: the lower-case form of one character,
/// which depends on the character alone. Where the full mapping expands to
/// several characters, the first one stands for the fold.
#[verifier::external_body]
pub fn lower_char(c: char) -> (r: char)
    ensures
        r == lower_char_of(c),
{
    match c.to_lowercase().next() {
        Some(l) => l,
        None => c,
    }
}

// Whether the Unicode tables class a character as alphanumeric.
pub uninterp spec fn is_alphanumeric_of(c: char) -> bool;

/// Relies on `char::is_alphanumeric`: whether the character is in one of
/// the Unicode letter or number categories.
#[verifier::external_body]
pub fn is_alphanumeric_char(c: char) -> (r: bool)
    ensures
        r == is_alphanumeric_of(c),
{
    c.is_alphanumeric()
}

// Whether the Unicode tables class a character as white space.
pub uninterp spec fn is_whitespace_of(c: char) -> bool;

/// Relies on `char::is_whitespace`: whether the character has the Unicode
/// `White_Space` property.
#[verifier::external_body]
pub fn is_whitespace_char(c: char) -> (r: bool)
    ensures
        r == is_whitespace_of(c),
{
    c.is_whitespace()
}

// What a byte sequence decodes to under UTF-8, if it is valid.
pub uninterp spec fn utf8_decode(bytes: Seq<u8>) -> Option<Seq<char>>;

/// Relies on `core::str::from_utf8`: decodes the bytes as UTF-8, `None`
/// where they are not valid.
#[verifier::external_body]
pub fn decode_utf8(bytes: &Vec<u8>) -> (r: Option<String>)
    ensures
        r is Some <==> utf8_decode(bytes@) is Some,
        r matches Some(s) ==> utf8_decode(bytes@) == Some(s@),
{
    match core::str::from_utf8(bytes.as_slice()) {
        Ok(s) => Some(s.to_string()),
        Err(_) => None,
    }
}

/// Relies on `str::chars`: the characters of a string slice, in order.
#[verifier::external_body]
pub fn str_chars(s: &str) -> (r: Vec<char>)
    ensures
        r@ == s@,
{
    s.chars().collect()
}

/// Relies on `String`'s `FromIterator`: builds the string holding exactly
/// the given characters, in order.
#[verifier::external_body]
pub fn chars_to_string(v: &Vec<char>) -> (r: String)
    ensures
        r@ == v@,
{
    v.iter().collect()
}

/// Relies on `String::push`: appends one character.
#[verifier::external_body]
pub fn string_push_char(s: &mut String, c: char)
    ensures
        final(s)@ == old(s)@.push(c),
{
    s.push(c);
}

/// Relies on `String::pop`: removes the last character, if any.
#[verifier::external_body]
pub fn string_pop_char(s: &mut String)
    ensures
        old(s)@.len() == 0 ==> final(s)@ == old(s)@,
        old(s)@.len() > 0 ==> final(s)@ == old(s)@.drop_last(),
{
    let _ = s.pop();
}

} // verus!
