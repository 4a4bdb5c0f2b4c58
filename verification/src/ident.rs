//! Session ids and the random values that a new session starts from.
//!
//! A session id is a UUID in text. The server draws it at random, and draws
//! thirty-two random bytes for the first token of the session.

use rand::Rng;
use vstd::prelude::*;
use vstd::utf8::encode_utf8;

verus! {

/// Whether `b` is a hexadecimal digit; with `lower`, capitals do not count.
pub open spec fn is_hex_byte(b: u8, lower: bool) -> bool {
    ||| 0x30 <= b <= 0x39
    ||| 0x61 <= b <= 0x66
    ||| (!lower && 0x41 <= b <= 0x46)
}

/// Whether `s` is thirty-two hexadecimal digits in five groups, with a
/// hyphen between one group and the next.
pub open spec fn hyphenated(s: Seq<u8>, lower: bool) -> bool {
    &&& s.len() == 36
    &&& forall|i: int|
        0 <= i < 36 ==> if i == 8 || i == 13 || i == 18 || i == 23 {
            #[trigger] s[i] == 0x2d
        } else {
            is_hex_byte(s[i], lower)
        }
}

/// A byte with a capital letter of ASCII made small.
pub open spec fn lower_byte(b: u8) -> int {
    if 0x41 <= b <= 0x5a {
        b + 0x20
    } else {
        b as int
    }
}

/// Whether `s` is `urn:uuid:`, in capitals or small letters.
pub open spec fn urn_prefix(s: Seq<u8>) -> bool {
    &&& s.len() == 9
    &&& lower_byte(s[0]) == 0x75
    &&& lower_byte(s[1]) == 0x72
    &&& lower_byte(s[2]) == 0x6e
    &&& s[3] == 0x3a
    &&& lower_byte(s[4]) == 0x75
    &&& lower_byte(s[5]) == 0x75
    &&& lower_byte(s[6]) == 0x69
    &&& lower_byte(s[7]) == 0x64
    &&& s[8] == 0x3a
}

/// Whether the bytes `s` write a UUID: thirty-two hexadecimal digits, or the
/// hyphenated form, bare, in braces, or after `urn:uuid:`.
pub open spec fn uuid_text(s: Seq<u8>) -> bool {
    ||| s.len() == 32 && forall|i: int| 0 <= i < 32 ==> is_hex_byte(#[trigger] s[i], false)
    ||| hyphenated(s, false)
    ||| s.len() == 38 && s[0] == 0x7b && s[37] == 0x7d && hyphenated(s.subrange(1, 37), false)
    ||| s.len() == 45 && urn_prefix(s.take(9)) && hyphenated(s.skip(9), false)
}

/// `uuid::Uuid::parse_str`: succeeds exactly on the four written forms of a
/// UUID, told apart by the length of the text in bytes.
#[verifier::external_body]
pub(crate) fn parses_as_uuid(text: &str) -> (ok: bool)
    ensures
        ok == uuid_text(encode_utf8(text@)),
{
    uuid::Uuid::parse_str(text).is_ok()
}

/// `uuid::Uuid::new_v4`, written in the hyphenated form: which UUID comes is
/// left to chance, its text is hyphenated with small letters.
#[verifier::external_body]
fn random_uuid() -> (id: String)
    ensures
        hyphenated(encode_utf8(id@), true),
{
    uuid::Uuid::new_v4().hyphenated().to_string()
}

/// `rand::Rng::gen` on the generator of the thread, for an array of
/// thirty-two bytes: which bytes come is left to chance.
#[verifier::external_body]
pub(crate) fn random_seed() -> (seed: Vec<u8>)
    ensures
        seed@.len() == 32,
{
    rand::thread_rng().gen::<[u8; 32]>().to_vec()
}

/// A new session id, drawn at random: a UUID in the hyphenated form.
pub fn new_session_id() -> (id: String)
    ensures
        hyphenated(encode_utf8(id@), true),
        uuid_text(encode_utf8(id@)),
{
    random_uuid()
}

} // verus!
