//! Conversions between UTF-8 text and the UTF-16 code units that the wide-string Win32 API takes.

use vstd::prelude::*;
use vstd::utf8::*;

verus! {

/// The code point that stands for a byte that starts no known UTF-8 sequence (U+FFFD).
pub const REPLACEMENT_CODE_POINT: u32 = 0xFFFD;

/// The code point at the front of `b` and the number of bytes it takes, read leniently: the
/// lead byte decides the width, the following bytes give their low six bits whatever they are,
/// and a byte that starts no sequence of a width that fits stands for U+FFFD on its own.
pub open spec fn head_code_point(b: Seq<u8>) -> Option<(u32, int)> {
    if b.len() == 0 {
        None
    } else if is_leading_byte_width_1(b[0]) {
        Some((codepoint_width_1(b[0]), 1))
    } else if is_leading_byte_width_2(b[0]) && b.len() >= 2 {
        Some((codepoint_width_2(b[0], b[1]), 2))
    } else if is_leading_byte_width_3(b[0]) && b.len() >= 3 {
        Some((codepoint_width_3(b[0], b[1], b[2]), 3))
    } else if is_leading_byte_width_4(b[0]) && b.len() >= 4 {
        Some((codepoint_width_4(b[0], b[1], b[2], b[3]), 4))
    } else {
        Some((REPLACEMENT_CODE_POINT, 1))
    }
}

/// Breaks one code point off the front of a buffer of UTF-8 bytes, returning it together with
/// the bytes that remain; `None` when the buffer is empty.
pub fn break_off_code_point<'a>(utf8: &'a [u8]) -> (r: Option<(u32, &'a [u8])>)
    ensures
        match (head_code_point(utf8@), r) {
            (None, None) => true,
            (Some((u, n)), Some((v, rest))) => v == u && rest@ == utf8@.subrange(
                n,
                utf8@.len() as int,
            ),
            _ => false,
        },
{
    let len = utf8.len();
    if len == 0 {
        return None;
    }
    let a = utf8[0];
    if a <= 0x7F {
        let lead = (a & 0x7F) as u32;
        Some((lead, vstd::slice::slice_subrange(utf8, 1, len)))
    } else if 0xC0 <= a && a <= 0xDF && len >= 2 {
        let lead = (a & 0x1F) as u32;
        let trail = (utf8[1] & 0x3F) as u32;
        Some((lead << 6 | trail, vstd::slice::slice_subrange(utf8, 2, len)))
    } else if 0xE0 <= a && a <= 0xEF && len >= 3 {
        let lead = (a & 0x0F) as u32;
        let trail1 = (utf8[1] & 0x3F) as u32;
        let trail2 = (utf8[2] & 0x3F) as u32;
        Some((lead << 12 | trail1 << 6 | trail2, vstd::slice::slice_subrange(utf8, 3, len)))
    } else if 0xF0 <= a && a <= 0xF7 && len >= 4 {
        let lead = (a & 0x07) as u32;
        let trail1 = (utf8[1] & 0x3F) as u32;
        let trail2 = (utf8[2] & 0x3F) as u32;
        let trail3 = (utf8[3] & 0x3F) as u32;
        let out = lead << 18 | trail1 << 12 | trail2 << 6 | trail3;
        Some((out, vstd::slice::slice_subrange(utf8, 4, len)))
    } else {
        Some((REPLACEMENT_CODE_POINT, vstd::slice::slice_subrange(utf8, 1, len)))
    }
}


/// The UTF-16 code units of a code point: one unit below U+10000, else a surrogate pair.
pub open spec fn utf16_of_code_point(u: u32) -> Seq<u16> {
    if u <= 0xFFFF {
        seq![u as u16]
    } else {
        seq![
            (0xD800 + (u - 0x1_0000) / 0x400) as u16,
            (0xDC00 + (u - 0x1_0000) % 0x400) as u16,
        ]
    }
}

/// The UTF-16 code units of the code points that `break_off_code_point` reads from `b`, one
/// after another.
pub open spec fn utf16_of_utf8(b: Seq<u8>) -> Seq<u16>
    decreases b.len(),
{
    match head_code_point(b) {
        None => seq![],
        Some((u, n)) => if 1 <= n <= b.len() {
            utf16_of_code_point(u) + utf16_of_utf8(b.subrange(n, b.len() as int))
        } else {
            seq![]
        },
    }
}

/// The UTF-16 encoding of a sequence of characters.
pub open spec fn encode_utf16(s: Seq<char>) -> Seq<u16>
    decreases s.len(),
{
    if s.len() == 0 {
        seq![]
    } else {
        utf16_of_code_point(s[0] as u32) + encode_utf16(s.drop_first())
    }
}

proof fn lemma_head_code_point_len(b: Seq<u8>)
    ensures
        head_code_point(b) matches Some((u, n)) ==> 1 <= n <= b.len() && (n < 4 ==> u <= 0xFFFF)
            && u <= 0x1F_FFFF,
{
    if b.len() > 0 {
        let (b0, b1, b2, b3) = (b[0], if b.len() > 1 { b[1] } else { 0u8 }, if b.len() > 2 {
            b[2]
        } else {
            0u8
        }, if b.len() > 3 {
            b[3]
        } else {
            0u8
        });
        assert(codepoint_width_1(b0) <= 0xFFFF) by (bit_vector);
        assert(codepoint_width_2(b0, b1) <= 0xFFFF) by (bit_vector);
        assert(codepoint_width_3(b0, b1, b2) <= 0xFFFF) by (bit_vector);
        assert(codepoint_width_4(b0, b1, b2, b3) <= 0x1F_FFFF) by (bit_vector);
    }
}

/// Each code point takes at least as many bytes as it gives code units.
proof fn lemma_utf16_of_utf8_len(b: Seq<u8>)
    ensures
        utf16_of_utf8(b).len() <= b.len(),
    decreases b.len(),
{
    lemma_head_code_point_len(b);
    if let Some((u, n)) = head_code_point(b) {
        lemma_utf16_of_utf8_len(b.subrange(n, b.len() as int));
    }
}

/// On well-formed UTF-8, the lenient reading gives back the characters that were encoded.
pub proof fn lemma_utf16_of_utf8_encode(s: Seq<char>)
    ensures
        utf16_of_utf8(encode_utf8(s)) == encode_utf16(s),
    decreases s.len(),
{
    if s.len() > 0 {
        let b = encode_utf8(s);
        encode_utf8_first_scalar(s);
        let n = encode_scalar(s[0] as u32).len() as int;
        assert(b == encode_scalar(s[0] as u32) + encode_utf8(s.drop_first()));
        assert(head_code_point(b) == Some((s[0] as u32, n)));
        assert(b.subrange(n, b.len() as int) =~= encode_utf8(s.drop_first()));
        lemma_utf16_of_utf8_encode(s.drop_first());
    }
}

/// Counts the UTF-16 code units of the code points that `break_off_code_point` reads from a
/// UTF-8 string.
pub fn count_utf16_code_units(utf8: &str) -> (r: usize)
    ensures
        r == encode_utf16(utf8@).len(),
{
    let mut bytes: &[u8] = utf8.as_bytes();
    let ghost all = bytes@;
    assert(all.len() == bytes.len());
    let mut len: usize = 0;
    proof {
        lemma_utf16_of_utf8_len(all);
    }
    loop
        invariant
            len + utf16_of_utf8(bytes@).len() == utf16_of_utf8(all).len(),
            utf16_of_utf8(all).len() <= all.len(),
            all.len() <= usize::MAX,
        ensures
            len == utf16_of_utf8(all).len(),
        decreases bytes@.len(),
    {
        proof {
            lemma_head_code_point_len(bytes@);
        }
        match break_off_code_point(bytes) {
            Some((u, rest)) => {
                len += if u <= 0xFFFF {
                    1
                } else {
                    2
                };
                bytes = rest;
            },
            None => {
                assert(utf16_of_utf8(bytes@) == Seq::<u16>::empty());
                break;
            },
        }
    }
    proof {
        assert(all == encode_utf8(utf8@));
        lemma_utf16_of_utf8_encode(utf8@);
    }
    len
}


proof fn lemma_surrogate_pair(u: u32)
    requires
        0x1_0000 <= u <= 0x1F_FFFF,
    ensures
        (0xD800u16 | (((u - 0x1_0000) as u32 >> 10u32) as u16)) == (0xD800 + (u - 0x1_0000) / 0x400) as u16,
        (0xDC00u16 | (((u - 0x1_0000) as u32 & 0x03FFu32) as u16)) == (0xDC00 + (u - 0x1_0000) % 0x400) as u16,
{
    let code = (u - 0x1_0000) as u32;
    assert(code <= 0x1E_FFFF);
    assert((0xD800u16 | ((code >> 10u32) as u16)) == 0xD800u16 + ((code >> 10u32) as u16)) by (bit_vector)
        requires code <= 0x1E_FFFF;
    assert(code >> 10u32 == code / 0x400) by (bit_vector);
    assert((0xDC00u16 | ((code & 0x03FFu32) as u16)) == 0xDC00u16 + ((code & 0x03FFu32) as u16)) by (bit_vector);
    assert(code & 0x03FFu32 == code % 0x400) by (bit_vector);
}

/// Encodes a UTF-8 string as UTF-16 code units, code point by code point.
pub fn utf16(text: &str) -> (r: Vec<u16>)
    ensures
        r@ == encode_utf16(text@),
{
    let mut bytes: &[u8] = text.as_bytes();
    let ghost all = bytes@;
    let mut buffer: Vec<u16> = Vec::new();
    loop
        invariant
            buffer@ + utf16_of_utf8(bytes@) == utf16_of_utf8(all),
        ensures
            buffer@ == utf16_of_utf8(all),
        decreases bytes@.len(),
    {
        proof {
            lemma_head_code_point_len(bytes@);
        }
        match break_off_code_point(bytes) {
            Some((u, rest)) => {
                let ghost before = buffer@;
                if u <= 0xFFFF {
                    buffer.push(u as u16);
                } else {
                    let code = u - 0x1_0000;
                    proof {
                        lemma_surrogate_pair(u);
                    }
                    buffer.push(0xD800 | ((code >> 10) as u16));
                    buffer.push(0xDC00 | ((code & 0x03FF) as u16));
                }
                assert(buffer@ == before + utf16_of_code_point(u));
                bytes = rest;
            },
            None => {
                assert(utf16_of_utf8(bytes@) == Seq::<u16>::empty());
                assert(buffer@ + Seq::<u16>::empty() == buffer@);
                break;
            },
        }
    }
    proof {
        assert(all == encode_utf8(text@));
        lemma_utf16_of_utf8_encode(text@);
    }
    buffer
}

/// Encodes a UTF-8 string as UTF-16 code units followed by a terminating zero, the form of
/// string that the wide-character Win32 functions take.
pub fn wide_null(s: &str) -> (r: Vec<u16>)
    ensures
        r@ == encode_utf16(s@).push(0),
{
    let mut r = utf16(s);
    r.push(0);
    r
}


/// The characters that `String::from_utf8_lossy` makes of a byte sequence.
pub uninterp spec fn utf8_lossy(b: Seq<u8>) -> Seq<char>;

/// Relies on `String::from_utf8`: it succeeds exactly on well-formed UTF-8, and the string then
/// holds the characters that the bytes encode; otherwise its error hands the bytes back.
#[verifier::external_body]
fn string_from_utf8(bytes: Vec<u8>) -> (r: Result<String, Vec<u8>>)
    ensures
        match r {
            Ok(s) => valid_utf8(bytes@) && s@ == decode_utf8(bytes@),
            Err(v) => !valid_utf8(bytes@) && v@ == bytes@,
        },
{
    String::from_utf8(bytes).map_err(|e| e.into_bytes())
}

/// Relies on `String::from_utf8_lossy`: the result depends on the bytes alone, and no bytes give
/// no characters.
#[verifier::external_body]
fn string_from_utf8_lossy(bytes: &[u8]) -> (r: String)
    ensures
        r@ == utf8_lossy(bytes@),
        bytes@.len() == 0 ==> r@.len() == 0,
{
    String::from_utf8_lossy(bytes).into_owned()
}

/// Converts bytes into a `String`, moving them when they already are well-formed UTF-8 and
/// otherwise copying them with each malformed sequence replaced by U+FFFD.
pub fn min_alloc_lossy_into_string(bytes: Vec<u8>) -> (r: String)
    ensures
        r@ == if valid_utf8(bytes@) {
            decode_utf8(bytes@)
        } else {
            utf8_lossy(bytes@)
        },
{
    match string_from_utf8(bytes) {
        Ok(s) => s,
        Err(v) => string_from_utf8_lossy(v.as_slice()),
    }
}

/// `r` is what stands in `b` before its first zero byte, or all of `b` when it holds none.
pub open spec fn is_before_nul(b: Seq<u8>, r: Seq<u8>) -> bool {
    &&& r.len() <= b.len()
    &&& r == b.take(r.len() as int)
    &&& forall|i: int| 0 <= i < r.len() ==> r[i] != 0
    &&& r.len() == b.len() || b[r.len() as int] == 0
}

/// Copies the bytes of a buffer up to, and not including, its first zero byte.
pub fn gather_null_terminated_bytes(buf: &[u8]) -> (r: Vec<u8>)
    ensures
        is_before_nul(buf@, r@),
{
    let mut v: Vec<u8> = Vec::new();
    let mut i: usize = 0;
    while i < buf.len() && buf[i] != 0
        invariant
            i <= buf@.len(),
            v@ == buf@.take(i as int),
            forall|j: int| 0 <= j < i ==> buf@[j] != 0,
        decreases buf@.len() - i,
    {
        v.push(buf[i]);
        i += 1;
    }
    v
}

} // verus!
