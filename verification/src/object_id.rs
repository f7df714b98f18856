//! Twelve byte document identifiers and their hexadecimal text form.
use vstd::prelude::*;
use vstd::utf8::*;

verus! {

/// The value of one hexadecimal digit given as an ASCII byte, upper or lower case.
pub open spec fn hex_digit_value(b: u8) -> Option<u8> {
    if 48 <= b <= 57 {
        Some((b - 48) as u8)
    } else if 97 <= b <= 102 {
        Some((b - 87) as u8)
    } else if 65 <= b <= 70 {
        Some((b - 55) as u8)
    } else {
        None
    }
}

/// The index of the first byte at or after `i` that is not a hexadecimal digit.
pub open spec fn first_non_hex(s: Seq<u8>, i: nat) -> Option<nat>
    decreases s.len() - i,
{
    if i >= s.len() {
        None
    } else if hex_digit_value(s[i as int]) is None {
        Some(i)
    } else {
        first_non_hex(s, i + 1)
    }
}

/// The bytes that a sequence of hexadecimal digit pairs stands for, high digit first.
pub open spec fn decode_hex_pairs(s: Seq<u8>) -> Seq<u8> {
    Seq::new(
        s.len() / 2,
        |k: int|
            (hex_digit_value(s[2 * k]).unwrap() * 16 + hex_digit_value(s[2 * k + 1]).unwrap()) as u8,
    )
}

/// Why a text is not the hexadecimal form of an identifier.
#[derive(Debug, Clone, Copy, PartialEq, Eq, Structural)]
pub enum ObjectIdError {
    /// The text has an odd number of bytes, or a byte that is not a hexadecimal digit.
    InvalidHex,
    /// The text is hexadecimal but does not stand for exactly twelve bytes.
    InvalidLength,
}

/// What parsing the UTF-8 bytes `s` of a text as an identifier gives: the bytes that its
/// digit pairs stand for when it is twenty-four hexadecimal digits (either case); a hex
/// error when its length is odd or a byte is not a digit; a length error otherwise.
pub open spec fn parse_object_id_bytes(s: Seq<u8>) -> Result<Seq<u8>, ObjectIdError> {
    if s.len() % 2 == 1 || first_non_hex(s, 0) is Some {
        Err(ObjectIdError::InvalidHex)
    } else if s.len() != 24 {
        Err(ObjectIdError::InvalidLength)
    } else {
        Ok(decode_hex_pairs(s))
    }
}

/// The lower case hexadecimal digit for a value below sixteen.
pub open spec fn hex_char(n: int) -> char {
    if n < 10 {
        (48 + n) as char
    } else {
        (87 + n) as char
    }
}

/// The lower case hexadecimal text of a byte sequence, two digits per byte, high digit first.
pub open spec fn encode_hex(bytes: Seq<u8>) -> Seq<char> {
    Seq::new(
        2 * bytes.len(),
        |i: int| if i % 2 == 0 { hex_char((bytes[i / 2] / 16) as int) } else { hex_char((bytes[i / 2] % 16) as int) },
    )
}

/// A twelve byte identifier of a stored document.
#[derive(Debug, Clone, Copy, PartialEq, Eq, Hash)]
pub struct ObjectId {
    pub bytes: [u8; 12],
}

proof fn lemma_first_non_hex_skip(s: Seq<u8>, i: nat)
    requires
        i <= s.len(),
        forall|j: int| 0 <= j < i ==> hex_digit_value(#[trigger] s[j]) is Some,
    ensures
        first_non_hex(s, 0) == first_non_hex(s, i),
    decreases i,
{
    if i > 0 {
        lemma_first_non_hex_skip(s, (i - 1) as nat);
    }
}

/// bson's `ObjectId::with_string`: `hex::decode` of the text's bytes, which fails on an
/// odd length or on a byte that is not a hexadecimal digit (upper and lower case are both
/// digits) and otherwise gives the byte of each digit pair, high digit first; then a
/// length error unless twelve bytes came out.
#[verifier::external_body]
fn bson_with_string(s: &str) -> (r: Result<[u8; 12], ObjectIdError>)
    ensures
        match r {
            Ok(b) => parse_object_id_bytes(encode_utf8(s@)) == Ok::<Seq<u8>, ObjectIdError>(b@),
            Err(e) => parse_object_id_bytes(encode_utf8(s@)) == Err::<Seq<u8>, ObjectIdError>(e),
        },
{
    match wither::bson::oid::ObjectId::with_string(s) {
        Ok(id) => Ok(id.bytes()),
        Err(wither::bson::oid::Error::ArgumentError { .. }) => Err(ObjectIdError::InvalidLength),
        Err(_) => Err(ObjectIdError::InvalidHex),
    }
}

/// bson's `ObjectId::to_hex`: `hex::encode` of the twelve bytes, two lower case digits
/// per byte, high digit first.
#[verifier::external_body]
fn bson_to_hex(bytes: [u8; 12]) -> (r: String)
    ensures
        r@ == encode_hex(bytes@),
{
    wither::bson::oid::ObjectId::with_bytes(bytes).to_hex()
}

impl ObjectId {
    /// Parses the hexadecimal text form of an identifier (twenty-four digits, either case).
    pub fn with_string(s: &str) -> (r: Result<ObjectId, ObjectIdError>)
        ensures
            match r {
                Ok(id) => parse_object_id_bytes(encode_utf8(s@)) == Ok::<Seq<u8>, ObjectIdError>(id.bytes@),
                Err(e) => parse_object_id_bytes(encode_utf8(s@)) == Err::<Seq<u8>, ObjectIdError>(e),
            },
    {
        match bson_with_string(s) {
            Ok(bytes) => Ok(ObjectId { bytes }),
            Err(e) => Err(e),
        }
    }

    /// Whether two identifiers hold the same bytes.
    pub fn equals(&self, other: &ObjectId) -> (r: bool)
        ensures
            r == (self.bytes@ == other.bytes@),
    {
        let mut k: usize = 0;
        while k < 12
            invariant
                k <= 12,
                forall|j: int| 0 <= j < k ==> self.bytes@[j] == other.bytes@[j],
            decreases 12 - k,
        {
            if self.bytes[k] != other.bytes[k] {
                return false;
            }
            k += 1;
        }
        assert(self.bytes@ =~= other.bytes@);
        true
    }

    /// The lower case hexadecimal text form of the identifier.
    pub fn to_hex(&self) -> (r: String)
        ensures
            r@ == encode_hex(self.bytes@),
    {
        bson_to_hex(self.bytes)
    }
}

/// Reading back the hexadecimal text of an identifier gives the identifier again.
pub proof fn lemma_hex_round_trip(id: ObjectId)
    ensures
        parse_object_id_bytes(encode_utf8(encode_hex(id.bytes@))) == Ok::<Seq<u8>, ObjectIdError>(id.bytes@),
{
    let chars = encode_hex(id.bytes@);
    assert forall|i: int| 0 <= i < chars.len() implies '\0' <= #[trigger] chars[i] <= '\u{7f}' by {
        assert(id.bytes@[i / 2] / 16 < 16 && id.bytes@[i / 2] % 16 < 16);
    }
    is_ascii_chars_encode_utf8(chars);
    let s = encode_utf8(chars);
    assert forall|j: int| 0 <= j < s.len() implies hex_digit_value(#[trigger] s[j]) is Some by {
        assert(s[j] == chars[j] as u8);
        assert(id.bytes@[j / 2] / 16 < 16 && id.bytes@[j / 2] % 16 < 16);
    }
    lemma_first_non_hex_skip(s, s.len());
    assert forall|k: int| 0 <= k < 12 implies #[trigger] decode_hex_pairs(s)[k] == id.bytes@[k] by {
        assert(s[2 * k] == chars[2 * k] as u8);
        assert(s[2 * k + 1] == chars[2 * k + 1] as u8);
        let v = id.bytes@[k];
        assert((2 * k) / 2 == k);
        assert((2 * k + 1) / 2 == k);
        assert(v == (v / 16) * 16 + v % 16);
    }
    assert(decode_hex_pairs(s) =~= id.bytes@);
}

} // verus!
