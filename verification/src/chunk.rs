//! The chunk codec: one successful non-empty read becomes one chunk, decoded
//! as UTF-8 with the replacement character substituted for invalid sequences.
//! The writer turns the chunk back into bytes, so a connection echoes every
//! chunk after one lossy UTF-8 round trip; valid UTF-8 input — ASCII in
//! particular — comes back byte for byte.

use vstd::prelude::*;
use vstd::string::StrSliceExecFns;
use vstd::utf8::decode_utf8;
use vstd::utf8::decode_utf8_encode_utf8;
use vstd::utf8::encode_utf8;
use vstd::utf8::encode_utf8_decode_utf8;
use vstd::utf8::encode_utf8_valid_utf8;
use vstd::utf8::is_ascii_chars;
use vstd::utf8::is_ascii_chars_encode_utf8;
use vstd::utf8::valid_utf8;

verus! {

/// The characters that lossy UTF-8 decoding yields for the given bytes:
/// the decoding of every maximal valid sequence, with one replacement
/// character standing for each invalid sequence in between.
pub uninterp spec fn lossy_decode(bytes: Seq<u8>) -> Seq<char>;

/// True when every byte is an ASCII byte.
pub open spec fn is_ascii_bytes(bytes: Seq<u8>) -> bool {
    forall|i: int| 0 <= i < bytes.len() ==> bytes[i] < 0x80
}

/// The bytes a chunk of input comes back as: decoded lossily, then
/// re-encoded as UTF-8 by the writer.
pub open spec fn chunk_echo(bytes: Seq<u8>) -> Seq<u8> {
    encode_utf8(lossy_decode(bytes))
}

/// Relies on `String::from_utf8_lossy`: it decodes the bytes as UTF-8,
/// substituting the replacement character for invalid sequences and never
/// failing, and returns valid UTF-8 unchanged, so its characters are
/// exactly `decode_utf8` of the bytes.
#[verifier::external_body]
pub(crate) fn decode_chunk(bytes: &[u8]) -> (chunk: String)
    ensures
        chunk@ == lossy_decode(bytes@),
        valid_utf8(bytes@) ==> chunk@ == decode_utf8(bytes@),
{
    String::from_utf8_lossy(bytes).into_owned()
}

/// The bytes the writer sends for a chunk: its UTF-8 encoding.
pub fn encode_chunk(chunk: &String) -> (bytes: Vec<u8>)
    ensures
        bytes@ == encode_utf8(chunk@),
{
    chunk.as_str().as_bytes_vec()
}

/// ASCII bytes are a valid UTF-8 encoding (of the characters with the same
/// code points).
pub proof fn lemma_ascii_bytes_valid_utf8(bytes: Seq<u8>)
    requires
        is_ascii_bytes(bytes),
    ensures
        valid_utf8(bytes),
        decode_utf8(bytes) == Seq::new(bytes.len(), |i: int| bytes[i] as char),
{
    let chars = Seq::new(bytes.len(), |i: int| bytes[i] as char);
    assert forall|i: int| 0 <= i < chars.len() implies '\0' <= #[trigger] chars[i]
        <= '\u{7f}' by {
        assert(bytes[i] < 0x80);
    }
    assert(is_ascii_chars(chars));
    is_ascii_chars_encode_utf8(chars);
    assert(encode_utf8(chars) =~= bytes);
    encode_utf8_valid_utf8(chars);
    encode_utf8_decode_utf8(chars);
}

/// What one chunk of input comes back as, end to end: decode lossily as the
/// reader does, re-encode as the writer does. A chunk of valid UTF-8 — ASCII
/// in particular — is echoed exactly.
pub fn echo_chunk(bytes: &[u8]) -> (out: Vec<u8>)
    ensures
        out@ == chunk_echo(bytes@),
        valid_utf8(bytes@) ==> out@ == bytes@,
        is_ascii_bytes(bytes@) ==> out@ == bytes@,
{
    proof {
        if is_ascii_bytes(bytes@) {
            lemma_ascii_bytes_valid_utf8(bytes@);
        }
        if valid_utf8(bytes@) {
            decode_utf8_encode_utf8(bytes@);
        }
    }
    let chunk = decode_chunk(bytes);
    encode_chunk(&chunk)
}

} // verus!
