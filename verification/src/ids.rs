//! Session identifiers.

use vstd::prelude::*;

use crate::text::lower;

verus! {

/// The hexadecimal digits, of either case.
pub open spec fn hex_digit(c: char) -> bool {
    ||| '0' <= c <= '9'
    ||| 'a' <= c <= 'f'
    ||| 'A' <= c <= 'F'
}

/// The positions of the hyphens in a hyphenated UUID.
pub open spec fn hyphen_position(i: int) -> bool {
    i == 8 || i == 13 || i == 18 || i == 23
}

/// Five groups of 8, 4, 4, 4 and 12 hexadecimal digits with hyphens between them.
pub open spec fn hyphenated(s: Seq<char>) -> bool {
    &&& s.len() == 36
    &&& forall|i: int|
        0 <= i < 36 ==> if hyphen_position(i) {
            #[trigger] s[i] == '-'
        } else {
            hex_digit(s[i])
        }
}

/// 32 hexadecimal digits.
pub open spec fn unhyphenated(s: Seq<char>) -> bool {
    &&& s.len() == 32
    &&& forall|i: int| 0 <= i < 32 ==> hex_digit(#[trigger] s[i])
}

/// The texts that are UUIDs: hyphenated or not, a hyphenated one in braces, or one
/// behind `urn:uuid:` in any case.
pub open spec fn well_formed_uuid(s: Seq<char>) -> bool {
    ||| hyphenated(s)
    ||| unhyphenated(s)
    ||| s.len() == 38 && s[0] == '{' && s[37] == '}' && hyphenated(s.subrange(1, 37))
    ||| s.len() == 45 && lower(s.take(9)) == "urn:uuid:"@ && hyphenated(s.skip(9))
}

/// What the error of `uuid::Uuid::parse_str` says of a text that is not a UUID.
pub uninterp spec fn uuid_complaint(text: Seq<char>) -> Seq<char>;

/// `uuid::Uuid::parse_str` accepts a text exactly where it has one of the four forms
/// of a UUID. What its error says, displayed, depends on the text alone.
#[verifier::external_body]
fn parse_uuid(text: &str) -> (r: Result<(), String>)
    ensures
        match r {
            Ok(()) => well_formed_uuid(text@),
            Err(error) => !well_formed_uuid(text@) && error@ == uuid_complaint(text@),
        },
{
    match uuid::Uuid::parse_str(text) {
        Ok(_) => Ok(()),
        Err(error) => Err(error.to_string()),
    }
}

/// Whether `text` is a UUID.
pub fn is_uuid(text: &str) -> (r: bool)
    ensures
        r == well_formed_uuid(text@),
{
    parse_uuid(text).is_ok()
}

/// Why `text` is not a UUID, if it is none.
pub fn why_not_uuid(text: &str) -> (r: Option<String>)
    ensures
        match r {
            Some(error) => !well_formed_uuid(text@) && error@ == uuid_complaint(text@),
            None => well_formed_uuid(text@),
        },
{
    match parse_uuid(text) {
        Ok(()) => None,
        Err(error) => Some(error),
    }
}

/// A hyphenated UUID of version 4 in small letters.
pub open spec fn random_form(s: Seq<char>) -> bool {
    &&& hyphenated(s)
    &&& lower(s) == s
    &&& s[14] == '4'
    &&& s[19] == '8' || s[19] == '9' || s[19] == 'a' || s[19] == 'b'
}

/// The text of `uuid::Uuid::new_v4`, which sets the version and the variant and draws
/// the other bits at random. Displayed it is hyphenated and in small letters.
#[verifier::external_body]
fn random_uuid() -> (r: String)
    ensures
        random_form(r@),
{
    uuid::Uuid::new_v4().to_string()
}

/// A new session identifier.
pub fn new_session_id() -> (r: String)
    ensures
        random_form(r@),
        well_formed_uuid(r@),
{
    random_uuid()
}

} // verus!
