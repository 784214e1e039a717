//! Text as it crosses the native boundary: UTF-8 bytes closed by a NUL byte.
//!
//! The native host takes and hands out text as C strings. Going out, a string
//! becomes its UTF-8 bytes followed by one NUL byte, which is possible only
//! when none of those bytes is itself NUL. Coming in, a buffer holds text up
//! to its first NUL byte, and that text must be valid UTF-8.

use vstd::prelude::*;
use vstd::utf8::*;

verus! {

/// No byte of `bytes` is NUL.
pub open spec fn nul_free(bytes: Seq<u8>) -> bool {
    forall|j: int| 0 <= j < bytes.len() ==> bytes[j] != 0u8
}

/// `text` can be sent as a C string: its UTF-8 encoding holds no NUL byte.
pub open spec fn c_encodable(text: Seq<char>) -> bool {
    nul_free(encode_utf8(text))
}

/// The C string for `text`: its UTF-8 bytes and the closing NUL.
pub open spec fn c_bytes(text: Seq<char>) -> Seq<u8> {
    encode_utf8(text).push(0u8)
}

/// `n` is where the text in `buf` ends: no NUL before `n`, and a NUL at `n`
/// unless the buffer ends there.
pub open spec fn ends_text_at(buf: Seq<u8>, n: int) -> bool {
    &&& 0 <= n <= buf.len()
    &&& nul_free(buf.take(n))
    &&& n < buf.len() ==> buf[n] == 0u8
}

/// The number of bytes before the first NUL of `buf` (all of them, if it has none).
pub open spec fn text_len(buf: Seq<u8>) -> int {
    choose|n: int| ends_text_at(buf, n)
}

/// The bytes of `buf` before its first NUL.
pub open spec fn text_bytes(buf: Seq<u8>) -> Seq<u8> {
    buf.take(text_len(buf))
}

/// The text that `buf` holds, or `None` when the bytes before its first NUL
/// are not valid UTF-8.
pub open spec fn c_text(buf: Seq<u8>) -> Option<Seq<char>> {
    if valid_utf8(text_bytes(buf)) {
        Some(decode_utf8(text_bytes(buf)))
    } else {
        None
    }
}

/// A buffer has exactly one end of text.
pub proof fn lemma_text_end_unique(buf: Seq<u8>, n: int)
    requires
        ends_text_at(buf, n),
    ensures
        text_len(buf) == n,
{
    let m: int = text_len(buf);
    assert(ends_text_at(buf, m));
    if m < n {
        assert(buf.take(n)[m] == buf[m]);
    } else if n < m {
        assert(buf.take(m)[n] == buf[n]);
    }
}

proof fn lemma_nul_free_extend(buf: Seq<u8>, i: int)
    requires
        0 <= i < buf.len(),
        nul_free(buf.take(i)),
        buf[i] != 0u8,
    ensures
        nul_free(buf.take(i + 1)),
{
    let longer = buf.take(i + 1);
    assert forall|j: int| 0 <= j < longer.len() implies longer[j] != 0u8 by {
        if j < i {
            assert(buf.take(i)[j] == buf[j]);
        }
    }
}

/// Reading back a C string gives the text that was encoded:
/// `c_text(c_bytes(text)) == Some(text)` for every encodable `text`.
pub proof fn lemma_c_text_round_trip(text: Seq<char>)
    requires
        c_encodable(text),
    ensures
        text_bytes(c_bytes(text)) == encode_utf8(text),
        c_text(c_bytes(text)) == Some(text),
{
    let bytes = encode_utf8(text);
    let buf = c_bytes(text);
    assert(buf.take(bytes.len() as int) =~= bytes);
    lemma_text_end_unique(buf, bytes.len() as int);
    encode_utf8_valid_utf8(text);
    encode_utf8_decode_utf8(text);
}

/// Whether `text` can be sent as a C string.
pub fn is_c_encodable(text: &str) -> (ok: bool)
    ensures
        ok == c_encodable(text@),
{
    let bytes = text.as_bytes();
    let mut i: usize = 0;
    while i < bytes.len()
        invariant
            i <= bytes.len(),
            bytes@ == encode_utf8(text@),
            nul_free(bytes@.take(i as int)),
        decreases bytes.len() - i,
    {
        if bytes[i] == 0u8 {
            return false;
        }
        proof {
            lemma_nul_free_extend(bytes@, i as int);
        }
        i += 1;
    }
    assert(bytes@.take(i as int) =~= bytes@);
    true
}

/// Encodes `text` as a C string: `Some` of its UTF-8 bytes and a closing
/// NUL, or `None` when the text holds a NUL and cannot be sent.
pub fn encode_c_text(text: &str) -> (buf: Option<Vec<u8>>)
    ensures
        c_encodable(text@) ==> buf is Some && buf->0@ == c_bytes(text@),
        !c_encodable(text@) ==> buf is None,
{
    let bytes = text.as_bytes();
    let mut out: Vec<u8> = Vec::new();
    let mut i: usize = 0;
    while i < bytes.len()
        invariant
            i <= bytes.len(),
            bytes@ == encode_utf8(text@),
            out@ == bytes@.take(i as int),
            nul_free(out@),
        decreases bytes.len() - i,
    {
        if bytes[i] == 0u8 {
            return None;
        }
        out.push(bytes[i]);
        assert(out@ =~= bytes@.take(i + 1));
        i += 1;
    }
    assert(out@ =~= bytes@);
    out.push(0u8);
    Some(out)
}

/// The length of the text in `buf`: the index of its first NUL, or the
/// buffer's length when it has none.
pub fn text_length(buf: &[u8]) -> (n: usize)
    ensures
        n == text_len(buf@),
        ends_text_at(buf@, n as int),
{
    let mut i: usize = 0;
    while i < buf.len() && buf[i] != 0u8
        invariant
            i <= buf.len(),
            nul_free(buf@.take(i as int)),
        decreases buf.len() - i,
    {
        proof {
            lemma_nul_free_extend(buf@, i as int);
        }
        i += 1;
    }
    proof {
        lemma_text_end_unique(buf@, i as int);
    }
    i
}

/// `String::from_utf8` of std: `Some` of the string exactly when `bytes` is
/// valid UTF-8, and then the string's UTF-8 bytes are `bytes`.
#[verifier::external_body]
fn string_from_utf8(bytes: Vec<u8>) -> (text: Option<String>)
    ensures
        text is Some <==> valid_utf8(bytes@),
        text matches Some(s) ==> encode_utf8(s@) == bytes@,
{
    match String::from_utf8(bytes) {
        Ok(s) => Some(s),
        Err(_) => None,
    }
}

/// Reads the text that a C buffer holds: the bytes before its first NUL,
/// decoded as UTF-8. `None` when they are not valid UTF-8.
pub fn decode_c_text(buf: &[u8]) -> (text: Option<String>)
    ensures
        match text {
            Some(s) => c_text(buf@) == Some(s@),
            None => c_text(buf@) is None,
        },
{
    let n: usize = text_length(buf);
    let mut bytes: Vec<u8> = Vec::new();
    let mut i: usize = 0;
    while i < n
        invariant
            i <= n <= buf.len(),
            bytes@ == buf@.take(i as int),
        decreases n - i,
    {
        bytes.push(buf[i]);
        assert(bytes@ =~= buf@.take(i + 1));
        i += 1;
    }
    let text = string_from_utf8(bytes);
    proof {
        if text is Some {
            encode_utf8_decode_utf8(text->0@);
        }
    }
    text
}

} // verus!
