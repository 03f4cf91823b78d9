//! Record identifiers: twelve bytes, written as twenty-four hexadecimal digits.

use crate::response::Failure;
use vstd::prelude::*;

verus! {

/// Whether `c` is one of `0..9`, `a..f`, `A..F`.
pub open spec fn is_hex_digit(c: char) -> bool {
    ('0' <= c && c <= '9') || ('a' <= c && c <= 'f') || ('A' <= c && c <= 'F')
}

/// The number, 0 to 15, that the hexadecimal digit `c` stands for.
pub open spec fn hex_value(c: char) -> int {
    if '0' <= c && c <= '9' {
        c as int - '0' as int
    } else if 'a' <= c && c <= 'f' {
        c as int - 'a' as int + 10
    } else {
        c as int - 'A' as int + 10
    }
}

/// The lower-case hexadecimal digit for a number from 0 to 15.
pub open spec fn hex_digit(v: int) -> char {
    if v < 10 {
        (v + '0' as int) as char
    } else {
        (v - 10 + 'a' as int) as char
    }
}

/// Whether `text` is the written form of an identifier: exactly twenty-four
/// hexadecimal digits, in either case.
pub open spec fn is_id_text(text: Seq<char>) -> bool {
    &&& text.len() == 24
    &&& forall|i: int| 0 <= i < 24 ==> is_hex_digit(#[trigger] text[i])
}

/// The twelve bytes that a well-formed `text` denotes: each pair of digits is
/// one byte, high digit first.
pub open spec fn id_of_text(text: Seq<char>) -> Seq<u8> {
    Seq::new(12, |k: int| (16 * hex_value(text[2 * k]) + hex_value(text[2 * k + 1])) as u8)
}

/// The written form of `bytes`: two lower-case digits per byte, high digit
/// first.
pub open spec fn hex_text(bytes: Seq<u8>) -> Seq<char> {
    Seq::new(
        2 * bytes.len(),
        |i: int|
            if i % 2 == 0 {
                hex_digit(bytes[i / 2] as int / 16)
            } else {
                hex_digit(bytes[i / 2] as int % 16)
            },
    )
}

/// Writing an identifier and reading it back gives the same identifier: the
/// written form of any twelve bytes is well formed and denotes those bytes.
pub proof fn lemma_text_round_trip(bytes: Seq<u8>)
    requires
        bytes.len() == 12,
    ensures
        is_id_text(hex_text(bytes)),
        id_of_text(hex_text(bytes)) == bytes,
{
    let text = hex_text(bytes);
    assert forall|v: int| 0 <= v < 16 implies is_hex_digit(#[trigger] hex_digit(v)) && hex_value(
        hex_digit(v),
    ) == v by {}
    assert forall|i: int| 0 <= i < 24 implies is_hex_digit(#[trigger] text[i]) by {}
    assert forall|k: int| 0 <= k < 12 implies #[trigger] id_of_text(text)[k] == bytes[k] by {}
}

/// The error of `bson::oid::ObjectId::parse_str`; the handlers never look inside it.
#[verifier::external_type_specification]
#[verifier::external_body]
pub struct ExObjectIdError(bson::oid::Error);

/// Calls `bson::oid::ObjectId::parse_str` and hands back the bytes of the
/// identifier it built. The contract is that function's documented behaviour:
/// it succeeds exactly on twenty-four hexadecimal digits of either case, and
/// then each pair of digits gives one byte, high digit first.
#[verifier::external_body]
fn parse_object_id(text: &str) -> (parsed: Result<[u8; 12], bson::oid::Error>)
    ensures
        parsed is Ok <==> is_id_text(text@),
        parsed matches Ok(bytes) ==> bytes@ == id_of_text(text@),
{
    match bson::oid::ObjectId::parse_str(text) {
        Ok(oid) => Ok(oid.bytes()),
        Err(error) => Err(error),
    }
}

/// Calls `bson::oid::ObjectId::new` and hands back the bytes of the new
/// identifier. They are made from the clock, a per-process random value and a
/// counter, so nothing is claimed of them. The outside function panics if the
/// system clock reads a time before 1970 or after 2106.
#[verifier::external_body]
fn new_object_id() -> (bytes: [u8; 12]) {
    bson::oid::ObjectId::new().bytes()
}

/// Calls `bson::oid::ObjectId::to_hex` on the identifier with these bytes:
/// two lower-case hexadecimal digits per byte, high digit first.
#[verifier::external_body]
fn object_id_hex(bytes: [u8; 12]) -> (text: String)
    ensures
        text@ == hex_text(bytes@),
{
    bson::oid::ObjectId::from_bytes(bytes).to_hex()
}

/// The identifier of a record.
#[derive(Clone, Copy, Debug, PartialEq, Eq, Hash)]
pub struct UserId {
    pub bytes: [u8; 12],
}

impl View for UserId {
    type V = Seq<u8>;

    open spec fn view(&self) -> Seq<u8> {
        self.bytes@
    }
}

impl UserId {
    /// The identifier with these bytes.
    pub fn from_bytes(bytes: [u8; 12]) -> (id: UserId)
        ensures
            id@ == bytes@,
    {
        UserId { bytes }
    }

    /// The bytes of this identifier.
    pub fn bytes(&self) -> (bytes: [u8; 12])
        ensures
            bytes@ == self@,
    {
        self.bytes
    }

    /// Reads an identifier from its written form, as it stands in a request
    /// path. Anything but twenty-four hexadecimal digits is a bad request.
    pub fn parse(text: &str) -> (parsed: Result<UserId, Failure>)
        ensures
            parsed is Ok <==> is_id_text(text@),
            parsed matches Ok(id) ==> id@ == id_of_text(text@),
            parsed matches Err(failure) ==> failure == Failure::BadRequest,
    {
        match parse_object_id(text) {
            Ok(bytes) => Ok(UserId { bytes }),
            Err(_) => Err(Failure::BadRequest),
        }
    }

    /// A new identifier from the generator of the store's driver.
    pub fn generate() -> (id: UserId)
        ensures
            id@.len() == 12,
    {
        UserId { bytes: new_object_id() }
    }

    /// The written form of this identifier; `parse` reads it back.
    pub fn to_hex(&self) -> (text: String)
        ensures
            text@ == hex_text(self@),
            is_id_text(text@),
            id_of_text(text@) == self@,
    {
        proof {
            lemma_text_round_trip(self@);
        }
        object_id_hex(self.bytes)
    }
}

} // verus!
