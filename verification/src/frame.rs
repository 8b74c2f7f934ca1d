//! Wire framing: one message is the UTF-8 bytes of a text followed by a
//! single terminator byte.

use vstd::prelude::*;
use vstd::slice::*;
use vstd::string::*;
use vstd::utf8::*;

verus! {

/// The byte that ends a framed message.
pub const TERMINATOR: u8 = 0;

/// Capacity of the buffer a reader hands to one read. A message longer than
/// this is cut at the boundary and never reassembled.
pub const READ_BUFFER_SIZE: usize = 8192;

/// Why a text cannot be framed.
#[derive(Debug, Clone, Copy, PartialEq, Eq, Structural)]
pub enum FrameError {
    /// The text holds the terminator byte itself.
    EmbeddedTerminator,
}

/// The text of an invalid UTF-8 byte sequence after every malformed part has
/// been replaced by U+FFFD, as `String::from_utf8_lossy` returns it.
pub uninterp spec fn replaced_text(bytes: Seq<u8>) -> Seq<char>;

/// Lossy decoding: valid UTF-8 decodes to its text, anything else to the
/// text with replacement characters.
pub open spec fn lossy_text(bytes: Seq<u8>) -> Seq<char> {
    if valid_utf8(bytes) {
        decode_utf8(bytes)
    } else {
        replaced_text(bytes)
    }
}

/// Whether the UTF-8 bytes of `text` hold the terminator.
pub open spec fn has_terminator(text: Seq<char>) -> bool {
    encode_utf8(text).contains(TERMINATOR)
}

/// The bytes that go on the wire for `text`.
pub open spec fn framed(text: Seq<char>) -> Seq<u8> {
    encode_utf8(text).push(TERMINATOR)
}

/// Position of the first terminator among `bytes`, if there is one.
pub open spec fn frame_end(bytes: Seq<u8>) -> Option<int> {
    bytes.index_of_first(TERMINATOR)
}

/// Everything before the first terminator, or all of `bytes` without one.
pub open spec fn payload(bytes: Seq<u8>) -> Seq<u8> {
    match frame_end(bytes) {
        Some(k) => bytes.take(k),
        None => bytes,
    }
}

/// What a reader makes of the bytes one read delivered: the text of the
/// payload, and whether the terminator was seen.
pub open spec fn decoded(bytes: Seq<u8>) -> (Seq<char>, bool) {
    (lossy_text(payload(bytes)), frame_end(bytes) is Some)
}

/// `frame_end` is the one index that holds a terminator with none before it.
pub proof fn lemma_frame_end_at(bytes: Seq<u8>, k: int)
    requires
        0 <= k < bytes.len(),
        bytes[k] == TERMINATOR,
        forall|j: int| 0 <= j < k ==> bytes[j] != TERMINATOR,
    ensures
        frame_end(bytes) == Some(k),
        payload(bytes) == bytes.take(k),
{
    bytes.index_of_first_ensures(TERMINATOR);
    assert(bytes.contains(TERMINATOR));
}

/// Without a terminator there is no frame end and the payload is everything.
pub proof fn lemma_frame_end_absent(bytes: Seq<u8>)
    requires
        forall|j: int| 0 <= j < bytes.len() ==> bytes[j] != TERMINATOR,
    ensures
        frame_end(bytes) is None,
        payload(bytes) == bytes,
{
    bytes.index_of_first_ensures(TERMINATOR);
}

/// The UTF-8 bytes of one character hold the terminator only for U+0000.
pub proof fn lemma_scalar_terminator(c: char)
    ensures
        encode_scalar(c as u32).contains(TERMINATOR) <==> c == '\0',
{
    let s = c as u32;
    let bytes = encode_scalar(s);
    char_is_scalar(c);
    if has_width_1_encoding(s) {
        assert(leading_byte_width_1(s) == 0 <==> s == 0) by (bit_vector)
            requires
                s <= 0x7f,
        ;
        if s == 0 {
            assert(bytes[0] == TERMINATOR);
        }
    } else {
        assert(leading_byte_width_2(s) != 0 && leading_byte_width_3(s) != 0 && leading_byte_width_4(
            s,
        ) != 0 && last_continuation_byte(s) != 0 && second_last_continuation_byte(s) != 0
            && third_last_continuation_byte(s) != 0) by (bit_vector);
    }
}

/// A text holds the terminator byte exactly when it holds the character
/// U+0000: no other character has a zero byte in its encoding.
pub proof fn lemma_terminator_is_nul(text: Seq<char>)
    ensures
        has_terminator(text) <==> text.contains('\0'),
    decreases text.len(),
{
    if text.len() > 0 {
        let head = encode_scalar(text[0] as u32);
        let rest = text.drop_first();
        let tail = encode_utf8(rest);
        lemma_scalar_terminator(text[0]);
        lemma_terminator_is_nul(rest);
        assert(encode_utf8(text) == head + tail);
        if head.contains(TERMINATOR) {
            let i = choose|i: int| 0 <= i < head.len() && head[i] == TERMINATOR;
            assert((head + tail)[i] == TERMINATOR);
        }
        if tail.contains(TERMINATOR) {
            let i = choose|i: int| 0 <= i < tail.len() && tail[i] == TERMINATOR;
            assert((head + tail)[head.len() + i] == TERMINATOR);
            let j = choose|j: int| 0 <= j < rest.len() && rest[j] == '\0';
            assert(text[j + 1] == '\0');
        }
        if has_terminator(text) {
            let i = choose|i: int| 0 <= i < (head + tail).len() && (head + tail)[i] == TERMINATOR;
            if i < head.len() {
                assert(head[i] == TERMINATOR);
            } else {
                assert(tail[i - head.len()] == TERMINATOR);
            }
        }
        if text.contains('\0') {
            let j = choose|j: int| 0 <= j < text.len() && text[j] == '\0';
            if j > 0 {
                assert(rest[j - 1] == '\0');
            }
        }
    }
}

/// Joining two texts that can be framed gives a text that can be framed.
pub proof fn lemma_join_keeps_frameable(a: Seq<char>, b: Seq<char>)
    requires
        !has_terminator(a),
        !has_terminator(b),
    ensures
        !has_terminator(a + b),
{
    lemma_terminator_is_nul(a);
    lemma_terminator_is_nul(b);
    lemma_terminator_is_nul(a + b);
    if (a + b).contains('\0') {
        let i = choose|i: int| 0 <= i < (a + b).len() && (a + b)[i] == '\0';
        if i < a.len() {
            assert(a[i] == '\0');
        } else {
            assert(b[i - a.len()] == '\0');
        }
    }
}

/// Decoding undoes framing: a reader that is handed the frame of a text
/// without terminator, followed by any further bytes, gets the text back and
/// sees the message as complete.
pub proof fn lemma_round_trip(text: Seq<char>, trailing: Seq<u8>)
    requires
        !has_terminator(text),
    ensures
        decoded(framed(text) + trailing) == (text, true),
{
    let body = encode_utf8(text);
    let wire = framed(text) + trailing;
    let k = body.len() as int;
    assert forall|j: int| 0 <= j < k implies wire[j] != TERMINATOR by {
        assert(wire[j] == body[j]);
    }
    assert(wire[k] == TERMINATOR);
    lemma_frame_end_at(wire, k);
    assert(wire.take(k) =~= body);
    encode_utf8_valid_utf8(text);
    encode_utf8_decode_utf8(text);
}

/// Bytes without a terminator are an incomplete message whose text is the
/// lossy decoding of all of them.
pub proof fn lemma_unterminated(bytes: Seq<u8>)
    requires
        !bytes.contains(TERMINATOR),
    ensures
        decoded(bytes) == (lossy_text(bytes), false),
{
    lemma_frame_end_absent(bytes);
}

/// Index of the first terminator within the first `n_valid` bytes of `buffer`.
pub fn find_terminator(buffer: &[u8], n_valid: usize) -> (r: Option<usize>)
    requires
        n_valid <= buffer@.len(),
    ensures
        match r {
            Some(k) => frame_end(buffer@.take(n_valid as int)) == Some(k as int),
            None => frame_end(buffer@.take(n_valid as int)) is None,
        },
{
    let ghost valid = buffer@.take(n_valid as int);
    let mut i: usize = 0;
    while i < n_valid
        invariant
            i <= n_valid <= buffer@.len(),
            valid == buffer@.take(n_valid as int),
            forall|j: int| 0 <= j < i ==> valid[j] != TERMINATOR,
        decreases n_valid - i,
    {
        if buffer[i] == TERMINATOR {
            proof {
                lemma_frame_end_at(valid, i as int);
            }
            return Some(i);
        }
        i += 1;
    }
    proof {
        lemma_frame_end_absent(valid);
    }
    None
}

/// Frames `text` for the wire: its UTF-8 bytes and one terminator.
///
/// A text that already holds the terminator byte is rejected, never
/// silently stripped.
pub fn encode(text: &str) -> (r: Result<Vec<u8>, FrameError>)
    ensures
        match r {
            Ok(bytes) => !has_terminator(text@) && bytes@ == framed(text@),
            Err(e) => has_terminator(text@) && e == FrameError::EmbeddedTerminator,
        },
{
    let bytes = text.as_bytes();
    let n = bytes.len();
    proof {
        assert(bytes@.take(n as int) =~= bytes@);
        bytes@.index_of_first_ensures(TERMINATOR);
    }
    match find_terminator(bytes, n) {
        Some(_) => Err(FrameError::EmbeddedTerminator),
        None => {
            let mut out = slice_to_vec(bytes);
            out.push(TERMINATOR);
            Ok(out)
        },
    }
}

/// `String::from_utf8_lossy`, taken as an owned string. A valid UTF-8 slice
/// comes back as the text it encodes; for any other slice the result is the
/// named text with replacement characters.
#[verifier::external_body]
fn lossy_string(bytes: &[u8]) -> (s: String)
    ensures
        valid_utf8(bytes@) ==> s@ == decode_utf8(bytes@),
        !valid_utf8(bytes@) ==> s@ == replaced_text(bytes@),
{
    String::from_utf8_lossy(bytes).into_owned()
}

/// Reads one message out of the first `n_valid` bytes of `buffer`.
///
/// Returns the lossy decoding of the bytes before the first terminator and
/// `true`, or the lossy decoding of all `n_valid` bytes and `false` when no
/// terminator is among them. Bytes after the terminator are ignored.
pub fn decode_from_buffer(buffer: &[u8], n_valid: usize) -> (r: (String, bool))
    requires
        n_valid <= buffer@.len(),
    ensures
        (r.0@, r.1) == decoded(buffer@.take(n_valid as int)),
{
    let end = find_terminator(buffer, n_valid);
    let ghost valid = buffer@.take(n_valid as int);
    match end {
        Some(k) => {
            proof {
                valid.index_of_first_ensures(TERMINATOR);
                assert(buffer@.subrange(0, k as int) =~= valid.take(k as int));
            }
            (lossy_string(slice_subrange(buffer, 0, k)), true)
        },
        None => {
            (lossy_string(slice_subrange(buffer, 0, n_valid)), false)
        },
    }
}

} // verus!
