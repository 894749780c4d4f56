use vstd::prelude::*;

use crate::error::{is_missing_code, os_error_code, SysfsError};
use vstd::utf8::{
    char_u32_cast, decode_utf8, encode_scalar, encode_utf8, encode_utf8_decode_utf8,
    encode_utf8_valid_utf8, valid_utf8,
};
use vstd::string::{StrSliceExecFns, StringSliceAdditionalSpecFns};

verus! {

/// Largest number of bytes ever taken from one attribute file.
pub const MAX_ATTR_BYTES: usize = 1024;

/// The byte that ends a line.
pub const NEWLINE: u8 = 10;

/// The part of a file's content that a read takes: at most `MAX_ATTR_BYTES`.
pub open spec fn bounded(content: Seq<u8>) -> Seq<u8> {
    if content.len() <= MAX_ATTR_BYTES {
        content
    } else {
        content.take(MAX_ATTR_BYTES as int)
    }
}

/// `s` without one trailing newline, if it ends in one.
pub open spec fn strip_newline(s: Seq<u8>) -> Seq<u8> {
    if s.len() > 0 && s.last() == NEWLINE {
        s.drop_last()
    } else {
        s
    }
}

/// The text a read reports for a file holding `content`, as bytes.
pub open spec fn attr_bytes(content: Seq<u8>) -> Seq<u8> {
    strip_newline(bounded(content))
}

pub open spec fn ascii_bytes(b: Seq<u8>) -> bool {
    forall|i: int| 0 <= i < b.len() ==> #[trigger] b[i] < 128
}

/// ASCII bytes read as characters, one for one.
pub open spec fn chars_of(b: Seq<u8>) -> Seq<char> {
    b.map_values(|x: u8| x as char)
}

/// Relies on String::from_utf8_lossy: valid UTF-8 is kept as it is (the text
/// it encodes), and ASCII bytes are valid UTF-8 with one character per byte.
#[verifier::external_body]
fn text_from_bytes(b: &[u8]) -> (r: String)
    ensures
        valid_utf8(b@) ==> r@ == decode_utf8(b@),
        ascii_bytes(b@) ==> r@ == chars_of(b@),
{
    String::from_utf8_lossy(b).into_owned()
}

/// The bytes that a read reports for a file whose content starts with
/// `content`: the first `MAX_ATTR_BYTES` of them at most, without one trailing
/// newline.
pub fn attribute_bytes(content: &[u8]) -> (r: Vec<u8>)
    ensures
        r@ == attr_bytes(content@),
{
    let n: usize = if content.len() <= MAX_ATTR_BYTES {
        content.len()
    } else {
        MAX_ATTR_BYTES
    };
    let end: usize = if n > 0 && content[n - 1] == NEWLINE {
        n - 1
    } else {
        n
    };
    let mut out: Vec<u8> = Vec::new();
    let mut i: usize = 0;
    while i < end
        invariant
            end <= n <= content@.len(),
            n <= MAX_ATTR_BYTES,
            i <= end,
            out@ == content@.take(i as int),
        decreases end - i,
    {
        out.push(content[i]);
        i = i + 1;
        assert(out@ =~= content@.take(i as int));
    }
    assert(out@ =~= attr_bytes(content@));
    out
}

/// The text that a read reports for a file whose content starts with
/// `content` (attribute files hold ASCII text).
pub fn attribute_text(content: &[u8]) -> (r: String)
    ensures
        valid_utf8(attr_bytes(content@)) ==> r@ == decode_utf8(attr_bytes(content@)),
        ascii_bytes(content@) ==> r@ == chars_of(attr_bytes(content@)),
{
    let b = attribute_bytes(content);
    assert(ascii_bytes(content@) ==> ascii_bytes(b@)) by {
        if ascii_bytes(content@) {
            assert forall|i: int| 0 <= i < b@.len() implies #[trigger] b@[i] < 128 by {
                assert(b@[i] == content@[i]);
            }
        }
    }
    text_from_bytes(b.as_slice())
}

/// The result of a read, given what opening and reading the file gave.
pub fn read_result(outcome: Result<Vec<u8>, std::io::Error>) -> (r: Result<String, SysfsError>)
    ensures
        outcome is Ok ==> r is Ok,
        outcome is Ok && valid_utf8(attr_bytes(outcome->Ok_0@)) ==> r->Ok_0@ == decode_utf8(
            attr_bytes(outcome->Ok_0@),
        ),
        outcome is Ok ==> (ascii_bytes(outcome->Ok_0@) ==> r->Ok_0@ == chars_of(
            attr_bytes(outcome->Ok_0@),
        )),
        outcome is Err ==> r is Err,
        outcome is Err && is_missing_code(os_error_code(outcome->Err_0)) ==> r->Err_0 is MissingAttribute,
        outcome is Err && !is_missing_code(os_error_code(outcome->Err_0)) ==> r->Err_0
            == SysfsError::Io(outcome->Err_0),
{
    match outcome {
        Ok(content) => Ok(attribute_text(content.as_slice())),
        Err(e) => Err(SysfsError::from_read_error(e)),
    }
}

/// The bytes that a write puts in the file: the text, verbatim.
pub fn write_payload(text: &str) -> (r: Vec<u8>)
    ensures
        r@ == text.spec_bytes(),
        r@ == encode_utf8(text@),
        vstd::string::is_ascii(text) ==> r@ == text@.map_values(|c: char| c as u8),
{
    proof {
        broadcast use vstd::string::is_ascii_spec_bytes;
    }
    let r = text.as_bytes_vec();
    if text.is_ascii() {
        assert(r@ =~= text@.map_values(|c: char| c as u8));
    }
    r
}

/// The result of a write, given what opening and writing the file gave: every
/// failure is an I/O failure.
pub fn write_result(outcome: Result<(), std::io::Error>) -> (r: Result<(), SysfsError>)
    ensures
        outcome is Ok <==> r is Ok,
        outcome is Err ==> r == Err::<(), SysfsError>(SysfsError::Io(outcome->Err_0)),
{
    match outcome {
        Ok(()) => Ok(()),
        Err(e) => Err(SysfsError::Io(e)),
    }
}

/// Text without one trailing newline, if it ends in one.
pub open spec fn strip_newline_text(t: Seq<char>) -> Seq<char> {
    if t.len() > 0 && t.last() == '\n' {
        t.drop_last()
    } else {
        t
    }
}

/// A file shorter than the ceiling reads back as exactly its content, less one
/// trailing newline: nothing is padded and nothing else is cut.
pub proof fn lemma_short_read(content: Seq<u8>)
    requires
        content.len() < MAX_ATTR_BYTES,
    ensures
        content.len() > 0 && content.last() == NEWLINE ==> attr_bytes(content) == content.drop_last(),
        !(content.len() > 0 && content.last() == NEWLINE) ==> attr_bytes(content) == content,
{
}

/// Whatever the file holds, a read reports at most `MAX_ATTR_BYTES` bytes, all
/// taken in order from the start of the file.
pub proof fn lemma_read_bounded(content: Seq<u8>)
    ensures
        attr_bytes(content).len() <= MAX_ATTR_BYTES,
        attr_bytes(content).len() <= content.len(),
        attr_bytes(content) == content.take(attr_bytes(content).len() as int),
{
    assert(attr_bytes(content) =~= content.take(attr_bytes(content).len() as int));
}

proof fn lemma_encode_concat(a: Seq<char>, b: Seq<char>)
    ensures
        encode_utf8(a + b) == encode_utf8(a) + encode_utf8(b),
    decreases a.len(),
{
    if a.len() == 0 {
        assert(a + b =~= b);
        assert(encode_utf8(a) + encode_utf8(b) =~= encode_utf8(b));
    } else {
        lemma_encode_concat(a.drop_first(), b);
        assert((a + b).drop_first() =~= a.drop_first() + b);
        assert((a + b)[0] == a[0]);
        assert(encode_utf8(a + b) =~= encode_utf8(a) + encode_utf8(b));
    }
}

proof fn lemma_newline_byte(v: u32)
    requires
        v <= 0x7F,
    ensures
        ((v & 0x7F) as u8 == NEWLINE) <==> v == 10,
{
    assert(((v & 0x7F) as u8 == 10u8) <==> v == 10u32) by (bit_vector)
        requires
            v <= 0x7F,
    ;
}

proof fn lemma_continuation_not_newline(x: u8)
    ensures
        (0x80u8 | x) != NEWLINE,
{
    assert((0x80u8 | x) != 10u8) by (bit_vector);
}

/// The encoding of a character ends with the newline byte exactly when the
/// character is a newline.
proof fn lemma_scalar_ends_in_newline(c: char)
    ensures
        encode_scalar(c as u32).len() > 0,
        (encode_scalar(c as u32).last() == NEWLINE) <==> c == '\n',
{
    let v = c as u32;
    vstd::utf8::char_is_scalar(c);
    let e = encode_scalar(v);
    if v <= 0x7F {
        lemma_newline_byte(v);
        if v == 10 {
            char_u32_cast(c, v);
        }
    } else {
        lemma_continuation_not_newline((v & 0x3F) as u8);
        assert(e.last() == (0x80u8 | (v & 0x3F) as u8));
    }
}

/// Any text whose encoding fits in `MAX_ATTR_BYTES` bytes, written to a file
/// and read back, comes back unchanged but for one trailing newline.
pub proof fn lemma_write_then_read(t: Seq<char>)
    requires
        encode_utf8(t).len() <= MAX_ATTR_BYTES,
    ensures
        valid_utf8(attr_bytes(encode_utf8(t))),
        decode_utf8(attr_bytes(encode_utf8(t))) == strip_newline_text(t),
{
    let b = encode_utf8(t);
    encode_utf8_valid_utf8(t);
    encode_utf8_decode_utf8(t);
    if t.len() > 0 {
        let init = t.drop_last();
        let c = t.last();
        assert(t =~= init + seq![c]);
        lemma_encode_concat(init, seq![c]);
        assert(seq![c].drop_first() =~= Seq::<char>::empty());
        assert(seq![c][0] == c);
        assert(encode_utf8(Seq::<char>::empty()) =~= Seq::<u8>::empty());
        assert(encode_utf8(seq![c]) == encode_scalar(c as u32) + encode_utf8(
            Seq::<char>::empty(),
        ));
        assert(encode_utf8(seq![c]) =~= encode_scalar(c as u32));
        lemma_scalar_ends_in_newline(c);
        assert(b.last() == encode_scalar(c as u32).last());
        if c == '\n' {
            assert(attr_bytes(b) =~= encode_utf8(init));
            encode_utf8_valid_utf8(init);
            encode_utf8_decode_utf8(init);
        } else {
            assert(attr_bytes(b) =~= b);
        }
    } else {
        assert(attr_bytes(b) =~= b);
    }
}

} // verus!
