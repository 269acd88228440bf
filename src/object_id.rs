use vstd::prelude::*;
use crate::error::AppError;

verus! {

/// Whether `c` is a hexadecimal digit, in either case.
pub open spec fn is_hex_digit(c: char) -> bool {
    ('0' <= c && c <= '9') || ('a' <= c && c <= 'f') || ('A' <= c && c <= 'F')
}

/// The value of a hexadecimal digit.
pub open spec fn hex_value(c: char) -> int {
    if '0' <= c && c <= '9' {
        c as int - '0' as int
    } else if 'a' <= c && c <= 'f' {
        c as int - 'a' as int + 10
    } else {
        c as int - 'A' as int + 10
    }
}

/// The lower-case digit for a value below sixteen.
pub open spec fn hex_digit(v: int) -> char {
    if v < 10 {
        ('0' as int + v) as char
    } else {
        ('a' as int + v - 10) as char
    }
}

/// Whether `s` is the text of an identifier: exactly 24 hexadecimal digits.
pub open spec fn is_id_text(s: Seq<char>) -> bool {
    s.len() == 24 && forall|i: int| 0 <= i < 24 ==> #[trigger] is_hex_digit(s[i])
}

/// The twelve bytes that identifier text stands for, two digits per byte,
/// high nibble first.
pub open spec fn id_bytes_of(s: Seq<char>) -> Seq<u8> {
    Seq::new(12, |i: int| (hex_value(s[2 * i]) * 16 + hex_value(s[2 * i + 1])) as u8)
}

/// The lower-case hexadecimal text of a byte sequence.
pub open spec fn hex_text_of(b: Seq<u8>) -> Seq<char> {
    Seq::new(
        2 * b.len(),
        |i: int|
            if i % 2 == 0 {
                hex_digit(b[i / 2] as int / 16)
            } else {
                hex_digit(b[i / 2] as int % 16)
            },
    )
}

/// A digit written by `hex_digit` is a hexadecimal digit with that value.
pub proof fn lemma_hex_digit(v: int)
    requires
        0 <= v < 16,
    ensures
        is_hex_digit(hex_digit(v)),
        hex_value(hex_digit(v)) == v,
{
}

/// The text of an identifier parses back to the same twelve bytes.
pub proof fn hex_text_round_trip(b: Seq<u8>)
    requires
        b.len() == 12,
    ensures
        is_id_text(hex_text_of(b)),
        id_bytes_of(hex_text_of(b)) == b,
{
    let t = hex_text_of(b);
    assert forall|i: int| 0 <= i < 24 implies #[trigger] is_hex_digit(t[i]) by {
        lemma_hex_digit(b[i / 2] as int / 16);
        lemma_hex_digit(b[i / 2] as int % 16);
    }
    assert forall|i: int| 0 <= i < 12 implies #[trigger] id_bytes_of(t)[i] == b[i] by {
        lemma_hex_digit(b[i] as int / 16);
        lemma_hex_digit(b[i] as int % 16);
        assert((2 * i) / 2 == i && (2 * i) % 2 == 0);
        assert((2 * i + 1) / 2 == i && (2 * i + 1) % 2 == 1);
    }
    assert(id_bytes_of(t) =~= b);
}

/// Relies on bson's `ObjectId::parse_str`: it hex-decodes the text (digits of
/// either case) and succeeds exactly when that yields twelve bytes.
#[verifier::external_body]
fn parse_object_id(s: &str) -> (r: Option<[u8; 12]>)
    ensures
        r is Some <==> is_id_text(s@),
        r matches Some(b) ==> b@ == id_bytes_of(s@),
{
    bson::oid::ObjectId::parse_str(s).ok().map(|o| o.bytes())
}

/// Relies on bson's `ObjectId::to_hex`: `hex::encode` of the twelve bytes,
/// lower-case, two digits per byte.
#[verifier::external_body]
fn object_id_hex(b: [u8; 12]) -> (r: String)
    ensures
        r@ == hex_text_of(b@),
{
    bson::oid::ObjectId::from_bytes(b).to_hex()
}

/// Relies on bson's `ObjectId::new`: a fresh identifier from the clock, the
/// process and a counter. Nothing is known of its bytes.
#[verifier::external_body]
fn new_object_id() -> (r: [u8; 12]) {
    bson::oid::ObjectId::new().bytes()
}

/// The identifier of a stored record: twelve opaque bytes, written as 24
/// hexadecimal digits.
#[derive(Debug, Clone, Copy)]
pub struct RecordId {
    pub bytes: [u8; 12],
}

impl View for RecordId {
    type V = Seq<u8>;

    open spec fn view(&self) -> Seq<u8> {
        self.bytes@
    }
}

impl RecordId {
    /// Parses identifier text; anything but 24 hexadecimal digits is refused
    /// with `InvalidObjectId` holding the text.
    pub fn parse(s: &str) -> (r: Result<RecordId, AppError>)
        ensures
            r is Ok <==> is_id_text(s@),
            r matches Ok(id) ==> id@ == id_bytes_of(s@),
            r matches Err(e) ==> e matches AppError::InvalidObjectId(t) && t@ == s@,
    {
        match parse_object_id(s) {
            Some(b) => Ok(RecordId { bytes: b }),
            None => Err(AppError::InvalidObjectId(String::from_str(s))),
        }
    }

    /// A fresh identifier, as storage assigns one.
    pub fn generate() -> (r: RecordId) {
        RecordId { bytes: new_object_id() }
    }

    /// The identifier's text: 24 lower-case hexadecimal digits.
    pub fn to_hex(&self) -> (r: String)
        ensures
            r@ == hex_text_of(self@),
            r@.len() == 24,
    {
        object_id_hex(self.bytes)
    }

    /// Whether two identifiers are the same.
    pub fn same(&self, other: &RecordId) -> (r: bool)
        ensures
            r == (self@ == other@),
    {
        let mut i: usize = 0;
        while i < 12
            invariant
                0 <= i <= 12,
                self@.len() == 12,
                other@.len() == 12,
                forall|j: int| 0 <= j < i ==> self@[j] == other@[j],
            decreases 12 - i,
        {
            if self.bytes[i] != other.bytes[i] {
                return false;
            }
            i = i + 1;
        }
        assert(self@ =~= other@);
        true
    }
}

} // verus!
