//! Identifiers: textual UUIDs for judges, jobs and uploaded archives.

use vstd::prelude::*;
use vstd::std_specs::convert::FromSpecImpl;
use crate::text::decimal;

verus! {

/// Lower-case hexadecimal digit of `v` (for `v < 16`).
pub open spec fn hex_digit(v: nat) -> char {
    if v < 10 {
        (48 + v) as char
    } else {
        (87 + v) as char
    }
}

/// The two lower-case hexadecimal digits of a byte.
pub open spec fn hex_byte(b: u8) -> Seq<char> {
    seq![hex_digit((b / 16) as nat), hex_digit((b % 16) as nat)]
}

/// Lower-case hexadecimal digits of a byte sequence, two per byte, in order.
pub open spec fn hex_bytes(bs: Seq<u8>) -> Seq<char>
    decreases bs.len(),
{
    if bs.len() == 0 {
        Seq::empty()
    } else {
        hex_bytes(bs.drop_last()) + hex_byte(bs.last())
    }
}

/// The hyphenated text of a 16-byte UUID: groups of 4, 2, 2, 2 and 6 bytes in
/// lower-case hexadecimal, separated by `-`.
pub open spec fn hyphenated(bs: Seq<u8>) -> Seq<char> {
    hex_bytes(bs.subrange(0, 4)) + seq!['-'] + hex_bytes(bs.subrange(4, 6)) + seq!['-']
        + hex_bytes(bs.subrange(6, 8)) + seq!['-'] + hex_bytes(bs.subrange(8, 10)) + seq!['-']
        + hex_bytes(bs.subrange(10, 16))
}

/// The version nibble of a UUID's bytes.
pub open spec fn uuid_version(bs: Seq<u8>) -> int {
    (bs[6] / 16) as int
}

/// `bs` carries the RFC 4122 variant bits (`10` in the top bits of byte 8).
pub open spec fn rfc4122_variant(bs: Seq<u8>) -> bool {
    bs[8] / 64 == 2
}

/// The bytes of the name-based (SHA-1, version 5) UUID of `name` in the URL
/// namespace.
pub uninterp spec fn uuid_v5_url(name: Seq<u8>) -> Seq<u8>;

/// What `uuid::Uuid::parse_str` gives for a text: the bytes of the UUID, or the
/// text of its error.
pub uninterp spec fn uuid_parse(text: Seq<char>) -> Result<Seq<u8>, Seq<char>>;

/// The message of `uuid`'s error for a byte slice of the wrong length.
pub open spec fn byte_length_message(len: nat) -> Seq<char> {
    "invalid length: expected 16 bytes, found "@ + decimal(len)
}

/// Trusted: `uuid::Uuid::new_v4` followed by `as_bytes`. The bytes are random; the
/// source masks in version 4 and the RFC 4122 variant, which is all that is stated.
#[verifier::external_body]
fn uuid_new_v4() -> (b: [u8; 16])
    ensures
        uuid_version(b@) == 4,
        rfc4122_variant(b@),
{
    *uuid::Uuid::new_v4().as_bytes()
}

/// Trusted: `uuid::Uuid::new_v5` in `Uuid::NAMESPACE_URL`, followed by `as_bytes`.
/// The SHA-1 based bytes are named by `uuid_v5_url`; the source sets version 5 and
/// the RFC 4122 variant.
#[verifier::external_body]
pub(crate) fn uuid_new_v5_url(name: &[u8]) -> (b: [u8; 16])
    ensures
        b@ == uuid_v5_url(name@),
        uuid_version(b@) == 5,
        rfc4122_variant(b@),
{
    *uuid::Uuid::new_v5(&uuid::Uuid::NAMESPACE_URL, name).as_bytes()
}

/// Trusted: the `Display` of `uuid::Uuid` (built by `Uuid::from_bytes`), which
/// writes the hyphenated lower-case form.
#[verifier::external_body]
pub(crate) fn uuid_text(b: [u8; 16]) -> (s: String)
    ensures
        s@ == hyphenated(b@),
{
    uuid::Uuid::from_bytes(b).to_string()
}

/// Trusted: `uuid::Uuid::from_slice` followed by `as_bytes`, its error turned into
/// its `Display` text. It succeeds exactly on slices of 16 bytes.
#[verifier::external_body]
pub(crate) fn uuid_from_slice(data: &[u8]) -> (r: Result<[u8; 16], String>)
    ensures
        r is Ok <==> data@.len() == 16,
        r matches Ok(b) ==> b@ == data@,
        r matches Err(m) ==> m@ == byte_length_message(data@.len()),
{
    match uuid::Uuid::from_slice(data) {
        Ok(u) => Ok(*u.as_bytes()),
        Err(e) => Err(e.to_string()),
    }
}

/// Trusted: `uuid::Uuid::parse_str` followed by `as_bytes`, its error turned into
/// its `Display` text. Its result is named by `uuid_parse`; the source accepts the
/// hyphenated text of any 16 bytes and gives those bytes back.
#[verifier::external_body]
pub(crate) fn uuid_parse_str(text: &str) -> (r: Result<[u8; 16], String>)
    ensures
        uuid_parse(text@) == (match r {
            Ok(b) => Ok(b@),
            Err(m) => Err(m@),
        }),
        forall|bs: Seq<u8>| bs.len() == 16 && text@ == hyphenated(bs) ==> (r is Ok && r->Ok_0@ == bs),
{
    match uuid::Uuid::parse_str(text) {
        Ok(u) => Ok(*u.as_bytes()),
        Err(e) => Err(e.to_string()),
    }
}

/// `s` is the hyphenated text of some version-`v` RFC 4122 UUID.
pub open spec fn is_uuid_text(s: Seq<char>, v: int) -> bool {
    exists|bs: Seq<u8>|
        bs.len() == 16 && uuid_version(bs) == v && rfc4122_variant(bs) && s == #[trigger] hyphenated(bs)
}

/// An identifier carried in messages: the text of a UUID.
pub struct ID {
    pub content: String,
}

impl ID {
    /// A fresh random identifier.
    pub fn roll() -> (id: ID)
        ensures
            is_uuid_text(id.content@, 4),
    {
        let b = uuid_new_v4();
        let content = uuid_text(b);
        ID { content }
    }

    /// The identifier derived from the content `bytes` (name-based UUID in the URL
    /// namespace), so that equal contents get equal identifiers.
    pub fn roll_hash(bytes: &[u8]) -> (id: ID)
        ensures
            id.content@ == hyphenated(uuid_v5_url(bytes@)),
            is_uuid_text(id.content@, 5),
    {
        let b = uuid_new_v5_url(bytes);
        let content = uuid_text(b);
        ID { content }
    }

    /// The identifier of the UUID with bytes `b`.
    pub fn from_bytes(b: [u8; 16]) -> (id: ID)
        ensures
            id.content@ == hyphenated(b@),
    {
        ID { content: uuid_text(b) }
    }

    /// The identifier carried as 16 bytes in a request; refused, with the reason,
    /// where the request carries another number of bytes.
    pub fn from_slice(data: &[u8]) -> (r: Result<ID, String>)
        ensures
            r is Ok <==> data@.len() == 16,
            r matches Ok(id) ==> id.content@ == hyphenated(data@),
            r matches Err(m) ==> m@ == byte_length_message(data@.len()),
    {
        match uuid_from_slice(data) {
            Ok(b) => Ok(ID { content: uuid_text(b) }),
            Err(m) => Err(m),
        }
    }

    /// The 16 bytes of the UUID whose text is `text`, as `uuid` parses it.
    pub fn parse_bytes(text: &str) -> (r: Result<[u8; 16], String>)
        ensures
            uuid_parse(text@) == (match r {
                Ok(b) => Ok(b@),
                Err(m) => Err(m@),
            }),
            forall|bs: Seq<u8>| bs.len() == 16 && text@ == hyphenated(bs) ==> (r is Ok && r->Ok_0@ == bs),
    {
        uuid_parse_str(text)
    }

    /// The text of the identifier.
    pub fn to_string(&self) -> (s: String)
        ensures
            s@ == self.content@,
    {
        self.content.clone()
    }
}

impl From<String> for ID {
    fn from(s: String) -> (id: ID) {
        ID { content: s }
    }
}

impl FromSpecImpl<String> for ID {
    open spec fn obeys_from_spec() -> bool {
        true
    }

    open spec fn from_spec(v: String) -> ID {
        ID { content: v }
    }
}

} // verus!
