//! The text policy applied to every free-text field that a client sends.
use unicode_segmentation::UnicodeSegmentation;
use vstd::prelude::*;
use vstd::utf8::is_ascii_chars;

verus! {

/// Most user-perceived characters that a text field may hold.
pub const MAX_TEXT_GRAPHEMES: usize = 256;

/// Characters meaningful in paths, markup or queries, refused in free text.
pub open spec fn is_forbidden(c: char) -> bool {
    c == '/' || c == '(' || c == ')' || c == '"' || c == '<' || c == '>' || c == '\\' || c == '{'
        || c == '}'
}

pub open spec fn has_forbidden(s: Seq<char>) -> bool {
    exists|i: int| 0 <= i < s.len() && is_forbidden(#[trigger] s[i])
}

/// The Unicode `White_Space` property, as listed in PropList.txt.
pub open spec fn is_white_space(c: char) -> bool {
    let u = c as u32;
    (0x09 <= u && u <= 0x0D) || u == 0x20 || u == 0x85 || u == 0xA0 || u == 0x1680 || (0x2000 <= u
        && u <= 0x200A) || u == 0x2028 || u == 0x2029 || u == 0x202F || u == 0x205F || u == 0x3000
}

pub open spec fn trim_start(s: Seq<char>) -> Seq<char>
    decreases s.len(),
{
    if s.len() > 0 && is_white_space(s[0]) {
        trim_start(s.drop_first())
    } else {
        s
    }
}

pub open spec fn trim_end(s: Seq<char>) -> Seq<char>
    decreases s.len(),
{
    if s.len() > 0 && is_white_space(s.last()) {
        trim_end(s.drop_last())
    } else {
        s
    }
}

/// `s` without its leading and trailing white space.
pub open spec fn trimmed(s: Seq<char>) -> Seq<char> {
    trim_end(trim_start(s))
}

/// Number of extended grapheme clusters (user-perceived characters) in `s`.
pub uninterp spec fn grapheme_count(s: Seq<char>) -> nat;

pub open spec fn too_long(s: Seq<char>, max_length: nat) -> bool {
    grapheme_count(s) > max_length
}

pub open spec fn empty_or_white_space(s: Seq<char>) -> bool {
    trimmed(s).len() == 0
}

pub open spec fn valid_text(s: Seq<char>) -> bool {
    !empty_or_white_space(s) && !too_long(s, MAX_TEXT_GRAPHEMES as nat) && !has_forbidden(s)
}

/// Fields of a payload that the text policy applies to.
#[derive(Clone, Copy, Debug, PartialEq, Eq, Structural)]
pub enum Field {
    Name,
    Email,
}

/// A text field broke the text policy.
#[derive(Clone, Copy, Debug, PartialEq, Eq, Structural)]
pub struct InvalidInput {
    pub field: Field,
}

/// A payload whose text fields are put through the text policy before any
/// handler sees it.
pub trait Sanitize: Sized {
    /// Whether every text field of `self` meets the policy.
    spec fn is_acceptable(&self) -> bool;

    /// The field reported when `self` does not meet the policy.
    spec fn rejected_field(&self) -> Field;

    /// Whether `out` is `self` with every text field in canonical form and
    /// every other field unchanged.
    spec fn is_sanitized_form(&self, out: &Self) -> bool;

    /// Puts every text field in canonical form, or leaves `self` as it was
    /// and reports the first field that breaks the policy.
    fn sanitize(&mut self) -> (r: Result<(), InvalidInput>)
        ensures
            r is Ok <==> old(self).is_acceptable(),
            r is Ok ==> old(self).is_sanitized_form(final(self)),
            r matches Err(e) ==> e.field == old(self).rejected_field() && *final(self) == *old(
                self,
            ),
    ;
}

/// Number of `'@'` characters in `s`.
pub open spec fn at_count(s: Seq<char>) -> nat
    decreases s.len(),
{
    if s.len() == 0 {
        0
    } else {
        at_count(s.drop_last()) + if s.last() == '@' {
            1nat
        } else {
            0nat
        }
    }
}

/// A single `'@'` that parts a non-empty local part from a non-empty domain.
pub open spec fn email_shaped(s: Seq<char>) -> bool {
    at_count(s) == 1 && s.len() > 0 && s[0] != '@' && s.last() != '@'
}

pub open spec fn ascii_lower_char(c: char) -> char {
    if 'A' <= c && c <= 'Z' {
        ((c as u32) + 32) as char
    } else {
        c
    }
}

/// `s` with the ASCII capitals `'A'..='Z'` mapped to `'a'..='z'`.
pub open spec fn ascii_lower(s: Seq<char>) -> Seq<char> {
    Seq::new(s.len(), |i: int| ascii_lower_char(s[i]))
}

/// The Unicode lower-case form of `s`.
pub uninterp spec fn lower_of(s: Seq<char>) -> Seq<char>;

/// Lower-case form used for e-mail addresses: ASCII text is lowered letter by
/// letter, other text by the full Unicode mapping.
pub open spec fn lowered(s: Seq<char>) -> Seq<char> {
    if is_ascii_chars(s) {
        ascii_lower(s)
    } else {
        lower_of(s)
    }
}

/// What sanitizing a user name yields: the trimmed text, if the text is valid.
pub open spec fn username_outcome(s: Seq<char>) -> Option<Seq<char>> {
    if valid_text(s) {
        Some(trimmed(s))
    } else {
        None
    }
}

/// What sanitizing an e-mail address yields: the trimmed, lower-cased text,
/// if the text is valid and has the shape of an address.
pub open spec fn email_outcome(s: Seq<char>) -> Option<Seq<char>> {
    if valid_text(s) && email_shaped(trimmed(s)) {
        Some(lowered(trimmed(s)))
    } else {
        None
    }
}

/// Relies on `str::trim`: it removes the leading and trailing characters that
/// have the Unicode `White_Space` property.
#[verifier::external_body]
fn trim<'a>(s: &'a str) -> (r: &'a str)
    ensures
        r@ == trimmed(s@),
{
    s.trim()
}

/// Relies on `UnicodeSegmentation::graphemes` with extended clusters: the
/// number of clusters depends on the characters alone, and each cluster holds
/// at least one character.
#[verifier::external_body]
fn count_graphemes(s: &str) -> (r: usize)
    ensures
        r as nat == grapheme_count(s@),
        r <= s@.len(),
{
    s.graphemes(true).count()
}

/// Relies on `str::to_ascii_lowercase`: `'A'..='Z'` become `'a'..='z'`, every
/// other character stays.
#[verifier::external_body]
fn to_ascii_lowercase(s: &str) -> (r: String)
    ensures
        r@ == ascii_lower(s@),
{
    s.to_ascii_lowercase()
}

/// Relies on `str::to_lowercase`: the result depends on the characters alone.
#[verifier::external_body]
fn to_lowercase(s: &str) -> (r: String)
    ensures
        r@ == lower_of(s@),
{
    s.to_lowercase()
}

fn forbidden_char(c: char) -> (r: bool)
    ensures
        r == is_forbidden(c),
{
    c == '/' || c == '(' || c == ')' || c == '"' || c == '<' || c == '>' || c == '\\' || c == '{'
        || c == '}'
}

/// Returns `true` if the input contains any character of the forbidden set.
pub fn contains_sql_escape_chars(input: &str) -> (r: bool)
    ensures
        r == has_forbidden(input@),
{
    let mut found = false;
    for c in it: input.chars()
        invariant
            it.seq() == input@,
            found == exists|j: int| 0 <= j < it.index() && is_forbidden(#[trigger] input@[j]),
    {
        if forbidden_char(c) {
            found = true;
        }
    }
    found
}

/// Returns `true` if the input has more than `max_length` grapheme clusters.
pub fn is_too_long(input: &str, max_length: usize) -> (r: bool)
    ensures
        r == too_long(input@, max_length as nat),
        input@.len() <= max_length ==> !r,
{
    count_graphemes(input) > max_length
}

/// Returns `true` if the input is empty or holds only white space.
pub fn is_empty_or_whitespace(s: &str) -> (r: bool)
    ensures
        r == empty_or_white_space(s@),
{
    trim(s).is_empty()
}

/// Checks that the input is not blank, has at most 256 grapheme clusters and
/// holds no forbidden character.
pub fn is_valid_text_input(input: &str) -> (r: bool)
    ensures
        r == valid_text(input@),
{
    !is_empty_or_whitespace(input) && !is_too_long(input, MAX_TEXT_GRAPHEMES)
        && !contains_sql_escape_chars(input)
}

/// Returns the trimmed name, or `InvalidInput` on `Field::Name` when the
/// name breaks the text policy.
pub fn sanitize_username(username: String) -> (r: Result<String, InvalidInput>)
    ensures
        r is Ok <==> username_outcome(username@) is Some,
        r matches Ok(name) ==> name@ == username_outcome(username@)->0,
        r matches Err(e) ==> e.field == Field::Name,
{
    if !is_valid_text_input(username.as_str()) {
        return Err(InvalidInput { field: Field::Name });
    }
    Ok(trim(username.as_str()).to_owned())
}

fn has_email_shape(s: &str) -> (r: bool)
    ensures
        r == email_shaped(s@),
{
    let mut ats: usize = 0;
    let mut first: Option<char> = None;
    let mut last: Option<char> = None;
    for c in it: s.chars()
        invariant
            it.seq() == s@,
            ats as nat == if at_count(s@.take(it.index() as int)) < 2 {
                at_count(s@.take(it.index() as int))
            } else {
                2
            },
            it.index() == 0 ==> first is None && last is None,
            it.index() > 0 ==> first == Some(s@[0]) && last == Some(s@[it.index() - 1]),
    {
        assert(s@.take(it.index() + 1).drop_last() == s@.take(it.index() as int));
        if c == '@' && ats < 2 {
            ats = ats + 1;
        }
        if first.is_none() {
            first = Some(c);
        }
        last = Some(c);
    }
    assert(s@.take(s@.len() as int) == s@);
    match (first, last) {
        (Some(f), Some(l)) => ats == 1 && f != '@' && l != '@',
        _ => false,
    }
}

/// Returns the trimmed, lower-cased address, or `InvalidInput` on
/// `Field::Email` when the text breaks the text policy or is not shaped as
/// `local@domain`.
pub fn sanitize_email(email: String) -> (r: Result<String, InvalidInput>)
    ensures
        r is Ok <==> email_outcome(email@) is Some,
        r matches Ok(address) ==> address@ == email_outcome(email@)->0,
        r matches Err(e) ==> e.field == Field::Email,
{
    if !is_valid_text_input(email.as_str()) {
        return Err(InvalidInput { field: Field::Email });
    }
    let t = trim(email.as_str());
    if !has_email_shape(t) {
        return Err(InvalidInput { field: Field::Email });
    }
    if t.is_ascii() {
        Ok(to_ascii_lowercase(t))
    } else {
        Ok(to_lowercase(t))
    }
}

} // verus!
