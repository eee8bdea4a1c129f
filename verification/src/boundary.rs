//! The boundary to the host's memory: C strings in, terminated buffers out.
//!
//! Text arrives from the host as bytes that end at the first NUL and may not
//! be valid UTF-8. Nothing here fails on such input: what cannot be read comes
//! back as an error value, and the caller goes on without the text.

use vstd::prelude::*;
use vstd::slice::slice_subrange;
use vstd::string::*;
use vstd::utf8::{decode_utf8, encode_scalar, encode_utf8, has_width_1_encoding, valid_utf8};

verus! {

/// Why a text from the host could not be read.
#[derive(Clone, Copy, Debug, PartialEq, Eq)]
pub enum EncodingError {
    /// The host handed over no text at all (a null pointer).
    NullPointer,
    /// The bytes are not valid UTF-8.
    InvalidUtf8,
}

/// Number of bytes before the first NUL in `buf`, or the length of `buf` if
/// it holds none.
pub open spec fn c_string_len(buf: Seq<u8>) -> nat
    decreases buf.len(),
{
    if buf.len() == 0 || buf[0] == 0 {
        0
    } else {
        1 + c_string_len(buf.drop_first())
    }
}

/// The bytes of the C string that starts `buf`: everything before the first
/// NUL, or all of `buf` if it holds none.
pub open spec fn c_string_bytes(buf: Seq<u8>) -> Seq<u8> {
    buf.take(c_string_len(buf) as int)
}

/// `c_string_len` is the one position that has no NUL before it and either a
/// NUL at it or the end of the buffer.
pub proof fn lemma_c_string_len(buf: Seq<u8>, n: int)
    requires
        0 <= n <= buf.len(),
        forall|i: int| 0 <= i < n ==> buf[i] != 0,
        n < buf.len() ==> buf[n] == 0,
    ensures
        c_string_len(buf) == n,
    decreases n,
{
    if n > 0 {
        let rest = buf.drop_first();
        assert forall|i: int| 0 <= i < n - 1 implies rest[i] != 0 by {
            assert(rest[i] == buf[i + 1]);
        }
        lemma_c_string_len(rest, n - 1);
    }
}

/// A C string never reaches past its buffer, holds no NUL, and is followed by
/// a NUL unless it fills the buffer.
pub proof fn lemma_c_string_bytes(buf: Seq<u8>)
    ensures
        c_string_len(buf) <= buf.len(),
        forall|i: int| 0 <= i < c_string_len(buf) ==> buf[i] != 0,
        c_string_len(buf) < buf.len() ==> buf[c_string_len(buf) as int] == 0,
    decreases buf.len(),
{
    if buf.len() == 0 || buf[0] == 0 {
    } else {
        let rest = buf.drop_first();
        lemma_c_string_bytes(rest);
        assert forall|i: int| 0 <= i < c_string_len(buf) implies buf[i] != 0 by {
            if i > 0 {
                assert(buf[i] == rest[i - 1]);
            }
        }
        if c_string_len(buf) < buf.len() {
            assert(buf[c_string_len(buf) as int] == rest[c_string_len(rest) as int]);
        }
    }
}

/// The C string that starts `buf`, without its terminator.
pub fn c_string(buf: &[u8]) -> (text: &[u8])
    ensures
        text@ == c_string_bytes(buf@),
{
    let mut end: usize = 0;
    while end < buf.len() && buf[end] != 0
        invariant
            end <= buf.len(),
            forall|i: int| 0 <= i < end ==> buf@[i] != 0,
        decreases buf.len() - end,
    {
        end += 1;
    }
    proof {
        lemma_c_string_len(buf@, end as int);
    }
    slice_subrange(buf, 0, end)
}

/// `core::str::from_utf8`: the bytes are accepted exactly when they are valid
/// UTF-8, and the text then consists of those very bytes.
#[verifier::external_body]
fn utf8_text(bytes: &[u8]) -> (text: Option<&str>)
    ensures
        text is Some <==> valid_utf8(bytes@),
        text matches Some(s) ==> s.spec_bytes() == bytes@,
{
    match core::str::from_utf8(bytes) {
        Ok(s) => Some(s),
        Err(_) => None,
    }
}

/// What `read_c_string` returns for a buffer, or for none.
pub open spec fn c_string_text(raw: Option<Seq<u8>>) -> Result<Seq<char>, EncodingError> {
    match raw {
        None => Err(EncodingError::NullPointer),
        Some(buf) => if valid_utf8(c_string_bytes(buf)) {
            Ok(decode_utf8(c_string_bytes(buf)))
        } else {
            Err(EncodingError::InvalidUtf8)
        },
    }
}

/// The bytes behind an optional buffer.
pub open spec fn raw_bytes(raw: Option<&[u8]>) -> Option<Seq<u8>> {
    match raw {
        None => None,
        Some(buf) => Some(buf@),
    }
}

/// The text of a buffer from the host where it can be read, and none where
/// it cannot: a text that is missing or malformed counts as absent.
pub open spec fn readable_text(raw: Option<Seq<u8>>) -> Option<Seq<char>> {
    match c_string_text(raw) {
        Ok(text) => Some(text),
        Err(_) => None,
    }
}

/// Reads the C string at the start of a host buffer as text. `None` stands
/// for a null pointer. The text ends before the first NUL, or at the end of the
/// buffer; it is returned only if it is valid UTF-8, and its bytes are then
/// those of the C string, so that it is never longer than the buffer.
pub fn read_c_string(raw: Option<&[u8]>) -> (text: Result<String, EncodingError>)
    ensures
        match c_string_text(raw_bytes(raw)) {
            Ok(chars) => text matches Ok(s) && s@ == chars,
            Err(error) => text == Err::<String, EncodingError>(error),
        },
        text matches Ok(s) ==> raw matches Some(buf) && encode_utf8(s@) == c_string_bytes(buf@)
            && encode_utf8(s@).len() <= buf@.len(),
{
    match raw {
        None => Err(EncodingError::NullPointer),
        Some(buf) => match utf8_text(c_string(buf)) {
            Some(s) => {
                proof {
                    vstd::utf8::encode_utf8_decode_utf8(s@);
                    lemma_c_string_bytes(buf@);
                }
                Ok(s.to_owned())
            },
            None => Err(EncodingError::InvalidUtf8),
        },
    }
}

/// Reads the C string at the start of a host buffer as text, or as nothing
/// where `read_c_string` fails.
pub fn read_text(raw: Option<&[u8]>) -> (text: Option<String>)
    ensures
        text.deep_view() == readable_text(raw_bytes(raw)),
{
    match read_c_string(raw) {
        Ok(s) => Some(s),
        Err(_) => None,
    }
}

/// When a buffer can be read and when not: a null pointer and a C string that
/// is not valid UTF-8 give their errors and nothing else does; a text that is
/// read has the bytes of the C string, which are no more than the buffer holds.
pub proof fn lemma_c_string_text(raw: Option<Seq<u8>>)
    ensures
        c_string_text(raw) == Err::<Seq<char>, EncodingError>(EncodingError::NullPointer)
            <==> raw is None,
        c_string_text(raw) == Err::<Seq<char>, EncodingError>(EncodingError::InvalidUtf8) <==> (
        raw matches Some(buf) && !valid_utf8(c_string_bytes(buf))),
        c_string_text(raw) matches Ok(text) ==> raw matches Some(buf) && encode_utf8(text)
            == c_string_bytes(buf) && encode_utf8(text).len() <= buf.len(),
{
    match raw {
        None => {},
        Some(buf) => {
            lemma_c_string_bytes(buf);
            if valid_utf8(c_string_bytes(buf)) {
                vstd::utf8::decode_utf8_encode_utf8(c_string_bytes(buf));
            }
        },
    }
}

/// The buffer that the host is handed for a text: its UTF-8 bytes and a
/// terminating NUL. The buffer is the caller's own and lives as long as the
/// caller keeps it.
pub fn format_for_host(text: &str) -> (buf: Vec<u8>)
    ensures
        buf@ == text.spec_bytes().push(0),
{
    let mut buf = text.as_bytes_vec();
    buf.push(0);
    buf
}

/// The number that tells the host whether an event was consumed: 1 if it
/// was, 0 if the host is to go on with it.
pub fn consumed_code(consumed: bool) -> (code: i32)
    ensures
        code == if consumed { 1i32 } else { 0i32 },
{
    if consumed {
        1
    } else {
        0
    }
}

/// The UTF-8 encoding of a text holds a NUL byte only where the text holds a
/// NUL character.
pub proof fn lemma_encoding_without_nul(text: Seq<char>)
    requires
        !text.contains('\0'),
    ensures
        !encode_utf8(text).contains(0),
    decreases text.len(),
{
    if text.len() > 0 {
        let scalar = text[0] as u32;
        let head = encode_scalar(scalar);
        let rest = text.drop_first();
        assert(text.contains(text[0]));
        assert(scalar != 0) by {
            vstd::utf8::char_u32_cast(text[0], scalar);
            vstd::utf8::char_u32_cast('\0', 0);
        }
        vstd::utf8::char_is_scalar(text[0]);
        assert forall|i: int| 0 <= i < rest.len() implies rest[i] != '\0' by {
            assert(text.contains(text[i + 1]));
        }
        lemma_encoding_without_nul(rest);
        if has_width_1_encoding(scalar) {
            assert(scalar & 0x7F != 0) by (bit_vector)
                requires
                    0 < scalar <= 0x7F,
            ;
        }
        assert(forall|low: u8| 0xC0u8 | low != 0) by (bit_vector);
        assert(forall|low: u8| 0xE0u8 | low != 0) by (bit_vector);
        assert(forall|low: u8| 0xF0u8 | low != 0) by (bit_vector);
        assert(forall|low: u8| 0x80u8 | low != 0) by (bit_vector);
        assert forall|i: int| 0 <= i < head.len() implies head[i] != 0 by {}
        let bytes = encode_utf8(text);
        assert forall|i: int| 0 <= i < bytes.len() implies bytes[i] != 0 by {
            if i >= head.len() {
                assert(encode_utf8(rest).contains(encode_utf8(rest)[i - head.len()]));
            }
        }
    }
}

/// A text without NUL characters comes back unchanged when the buffer made
/// for the host is read as a C string.
pub proof fn lemma_host_round_trip(text: Seq<char>)
    requires
        !text.contains('\0'),
    ensures
        c_string_bytes(encode_utf8(text).push(0)) == encode_utf8(text),
        c_string_text(Some(encode_utf8(text).push(0))) == Ok::<Seq<char>, EncodingError>(text),
{
    let bytes = encode_utf8(text);
    let buf = bytes.push(0);
    lemma_encoding_without_nul(text);
    assert forall|i: int| 0 <= i < bytes.len() implies buf[i] != 0 by {
        assert(bytes.contains(bytes[i]));
    }
    lemma_c_string_len(buf, bytes.len() as int);
    assert(buf.take(bytes.len() as int) =~= bytes);
    vstd::utf8::encode_utf8_valid_utf8(text);
    vstd::utf8::encode_utf8_decode_utf8(text);
}

} // verus!
