//! The error codec shared with guests, and UTF-8 text read out of linear memory.
use vstd::prelude::*;
use vstd::string::StringSliceAdditionalSpecFns;
use vstd::utf8::{encode_utf8, valid_utf8};
use crate::memory::{addr, read_region, region_ok, GuestTrap};

verus! {

/// The MessagePack header of a string of `n` bytes: the shortest of fixstr, str8,
/// str16 and str32, with the length big-endian.
pub open spec fn str_header(n: nat) -> Seq<u8> {
    if n < 32 {
        seq![(0xa0 + n) as u8]
    } else if n < 0x100 {
        seq![0xd9u8, n as u8]
    } else if n < 0x1_0000 {
        seq![0xdau8, (n / 0x100) as u8, (n % 0x100) as u8]
    } else {
        seq![
            0xdbu8,
            (n / 0x100_0000) as u8,
            ((n / 0x1_0000) % 0x100) as u8,
            ((n / 0x100) % 0x100) as u8,
            (n % 0x100) as u8,
        ]
    }
}

/// The bytes that the codec produces for an error message: one MessagePack string.
pub open spec fn encoded_message(msg: Seq<char>) -> Seq<u8> {
    str_header(encode_utf8(msg).len()) + encode_utf8(msg)
}

/// The largest byte length that a MessagePack string header can carry.
pub const MAX_STR_LEN: usize = 0xffff_ffff;

/// The error message that the codec reads out of a buffer, if the buffer holds one.
pub uninterp spec fn decoded_message(bytes: Seq<u8>) -> Option<Seq<char>>;

/// Relies on tea_codec::serialize: it serializes into a `Vec`, which cannot fail,
/// and rmp's `write_str` writes a string as its shortest header and then its UTF-8
/// bytes. The header holds the length exactly up to `MAX_STR_LEN` bytes.
#[verifier::external_body]
pub(crate) fn encode_message(msg: &String) -> (r: Option<Vec<u8>>)
    ensures
        r is Some,
        r matches Some(b) ==> (encode_utf8(msg@).len() <= MAX_STR_LEN ==> b@ == encoded_message(msg@)),
{
    tea_codec::serialize(msg).ok()
}

/// Relies on tea_codec::deserialize: a buffer either decodes to one message or is
/// refused, and which of the two depends on the bytes alone. rmp-serde reads a
/// string header and that many UTF-8 bytes back into the string, so what the
/// encoder wrote decodes to the message it was written from.
#[verifier::external_body]
pub(crate) fn decode_message(bytes: &[u8]) -> (r: Option<String>)
    ensures
        r is Some <==> decoded_message(bytes@) is Some,
        r matches Some(s) ==> decoded_message(bytes@) == Some(s@),
        r is Some <== exists|m: Seq<char>| encode_utf8(m).len() <= MAX_STR_LEN && bytes@ == #[trigger] encoded_message(m),
        r matches Some(s) ==> forall|m: Seq<char>| encode_utf8(m).len() <= MAX_STR_LEN && bytes@ == #[trigger] encoded_message(m) ==> s@ == m,
{
    tea_codec::deserialize::<String>(bytes).ok()
}

/// Relies on std::str::from_utf8: it accepts exactly the UTF-8 byte sequences,
/// and the text it returns has those bytes.
#[verifier::external_body]
fn text_from_utf8(bytes: &[u8]) -> (r: Option<&str>)
    ensures
        r is Some <==> valid_utf8(bytes@),
        r matches Some(s) ==> s.spec_bytes() == bytes@,
{
    std::str::from_utf8(bytes).ok()
}

/// Reads `len` bytes at guest pointer `ptr` as UTF-8 text.
pub fn read_text(mem: &[u8], ptr: i32, len: i32) -> (r: Result<String, GuestTrap>)
    ensures
        !region_ok(mem@.len() as int, addr(ptr), len as int) <==> r == Err::<String, GuestTrap>(
            GuestTrap::OutOfBounds,
        ),
        region_ok(mem@.len() as int, addr(ptr), len as int) ==> {
            let bytes = mem@.subrange(addr(ptr), addr(ptr) + len);
            &&& (r is Ok <==> valid_utf8(bytes))
            &&& (r matches Ok(t) ==> encode_utf8(t@) == bytes)
            &&& (r matches Err(e) ==> e == GuestTrap::InvalidUtf8)
        },
{
    let bytes = read_region(mem, ptr, len)?;
    match text_from_utf8(bytes.as_slice()) {
        Some(s) => Ok(s.to_owned()),
        None => Err(GuestTrap::InvalidUtf8),
    }
}

} // verus!
