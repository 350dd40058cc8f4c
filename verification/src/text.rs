//! Character- and byte-level helpers on strings.

use vstd::prelude::*;
use vstd::string::StringSliceAdditionalSpecFns;
use vstd::utf8::*;

verus! {

/// The characters of a string, in order.
pub fn chars_of(s: &str) -> (v: Vec<char>)
    ensures
        v@ == s@,
{
    let mut v: Vec<char> = Vec::new();
    for c in it: s.chars()
        invariant
            v@ == it.seq().take(it.index() as int),
    {
        v.push(c);
    }
    v
}

} // verus!

verus! {

/// Unicode `White_Space`, the property that `char::is_whitespace` tests.
pub open spec fn spec_is_whitespace(c: char) -> bool {
    ||| ('\u{9}' <= c && c <= '\u{d}')
    ||| c == ' '
    ||| c == '\u{85}'
    ||| c == '\u{a0}'
    ||| c == '\u{1680}'
    ||| ('\u{2000}' <= c && c <= '\u{200a}')
    ||| c == '\u{2028}'
    ||| c == '\u{2029}'
    ||| c == '\u{202f}'
    ||| c == '\u{205f}'
    ||| c == '\u{3000}'
}

/// Whether `c` is Unicode white space.
pub fn is_whitespace(c: char) -> (r: bool)
    ensures
        r == spec_is_whitespace(c),
{
    ('\u{9}' <= c && c <= '\u{d}') || c == ' ' || c == '\u{85}' || c == '\u{a0}' || c == '\u{1680}'
        || ('\u{2000}' <= c && c <= '\u{200a}') || c == '\u{2028}' || c == '\u{2029}'
        || c == '\u{202f}' || c == '\u{205f}' || c == '\u{3000}'
}

/// Whether every character of `s` is white space (so `s.trim()` is empty).
pub open spec fn spec_is_blank(s: Seq<char>) -> bool {
    forall|i: int| 0 <= i < s.len() ==> #[trigger] spec_is_whitespace(s[i])
}

/// Whether `s` is empty once white space is trimmed from both ends.
pub fn is_blank(s: &str) -> (r: bool)
    ensures
        r == spec_is_blank(s@),
{
    let cs = chars_of(s);
    let mut i: usize = 0;
    while i < cs.len()
        invariant
            cs@ == s@,
            0 <= i <= cs@.len(),
            forall|j: int| 0 <= j < i ==> #[trigger] spec_is_whitespace(cs@[j]),
        decreases cs@.len() - i,
    {
        if !is_whitespace(cs[i]) {
            return false;
        }
        i = i + 1;
    }
    true
}

/// ASCII lower-casing of one character, as `char::to_ascii_lowercase` does.
pub open spec fn spec_ascii_lower(c: char) -> char {
    if 'A' <= c && c <= 'Z' {
        ((c as u32) + 32) as char
    } else {
        c
    }
}

/// ASCII lower-casing of a character sequence, as `str::to_ascii_lowercase` does.
pub open spec fn spec_ascii_lower_seq(s: Seq<char>) -> Seq<char> {
    s.map_values(|c: char| spec_ascii_lower(c))
}

/// The characters whose codes are the given (ASCII) bytes.
pub open spec fn ascii_text(bytes: Seq<u8>) -> Seq<char> {
    bytes.map_values(|b: u8| b as char)
}

/// Whether every byte is below 128.
pub open spec fn all_ascii(bytes: Seq<u8>) -> bool {
    forall|i: int| 0 <= i < bytes.len() ==> #[trigger] bytes[i] < 128
}

/// `String::from_utf8`: a string exactly when the bytes are well-formed
/// UTF-8, and then one whose UTF-8 encoding is those bytes.
#[verifier::external_body]
fn string_from_utf8(bytes: Vec<u8>) -> (r: Option<String>)
    ensures
        r is Some <==> valid_utf8(bytes@),
        r matches Some(s) ==> encode_utf8(s@) == bytes@,
{
    String::from_utf8(bytes).ok()
}

/// Proof that ASCII bytes are the UTF-8 encoding of the characters with the same codes.
pub proof fn lemma_ascii_encoding(bytes: Seq<u8>)
    requires
        all_ascii(bytes),
    ensures
        encode_utf8(ascii_text(bytes)) == bytes,
        is_ascii_chars(ascii_text(bytes)),
{
    let cs = ascii_text(bytes);
    assert forall|i| 0 <= i < cs.len() implies '\0' <= #[trigger] cs[i] <= '\u{7f}' by {
        let b = bytes[i];
        assert(b < 128);
        assert(cs[i] == b as char);
    }
    is_ascii_chars_encode_utf8(cs);
    assert forall|i| 0 <= i < bytes.len() implies #[trigger] encode_utf8(cs)[i] == bytes[i] by {
        assert(cs[i] as u8 == encode_utf8(cs)[i]);
        let b = bytes[i];
        assert((b as char) as u8 == b);
    }
    assert(encode_utf8(cs) =~= bytes);
}

/// The string whose characters have the codes of the given ASCII bytes.
pub fn ascii_string(bytes: Vec<u8>) -> (s: String)
    requires
        all_ascii(bytes@),
    ensures
        s@ == ascii_text(bytes@),
{
    proof {
        lemma_ascii_encoding(bytes@);
        encode_utf8_valid_utf8(ascii_text(bytes@));
    }
    let ghost b = bytes@;
    match string_from_utf8(bytes) {
        Some(s) => {
            proof {
                encode_utf8_decode_utf8(s@);
                encode_utf8_decode_utf8(ascii_text(b));
            }
            s
        },
        None => {
            assert(false);
            String::new()
        },
    }
}

} // verus!

verus! {

/// What `std::str::from_utf8` reports about a byte sequence.
#[derive(Debug, Clone, Copy, PartialEq, Eq)]
pub enum Utf8Scan {
    /// The whole sequence is well-formed UTF-8.
    Valid,
    /// The sequence is well-formed up to `valid_up_to`; `error_len` is the
    /// length of the invalid sequence found there, or `None` when the input
    /// ended in the middle of a character.
    Invalid { valid_up_to: usize, error_len: Option<usize> },
}

/// Length of the character that `lead` starts: 1 for ASCII, 2 for
/// `C2..=DF`, 3 for `E0..=EF`, 4 for `F0..=F4`, and 0 for a byte that
/// starts no well-formed character.
pub open spec fn char_width(lead: u8) -> int {
    if lead < 0x80 {
        1
    } else if 0xC2 <= lead <= 0xDF {
        2
    } else if 0xE0 <= lead <= 0xEF {
        3
    } else if 0xF0 <= lead <= 0xF4 {
        4
    } else {
        0
    }
}

/// Whether `b` may follow the leading byte `lead` as the second byte of a
/// well-formed character (the Unicode table of well-formed UTF-8 byte
/// sequences: no overlong form, no surrogate, nothing above U+10FFFF).
pub open spec fn second_byte_ok(lead: u8, b: u8) -> bool {
    if lead == 0xE0 {
        0xA0 <= b <= 0xBF
    } else if lead == 0xED {
        0x80 <= b <= 0x9F
    } else if lead == 0xF0 {
        0x90 <= b <= 0xBF
    } else if lead == 0xF4 {
        0x80 <= b <= 0x8F
    } else {
        0x80 <= b <= 0xBF
    }
}

/// What the bytes at the start of a sequence hold.
pub enum FirstChar {
    /// A well-formed character of this many bytes.
    Char(int),
    /// An invalid sequence of this many bytes: the longest start of a
    /// well-formed character found there, or the one byte that starts none.
    Invalid(int),
    /// The start of a well-formed character, cut off by the end of the input.
    Cut,
}

/// How the first character of the non-empty `b` reads.
pub open spec fn first_char(b: Seq<u8>) -> FirstChar {
    let w = char_width(b[0]);
    if w == 1 {
        FirstChar::Char(1)
    } else if w == 0 {
        FirstChar::Invalid(1)
    } else if b.len() < 2 {
        FirstChar::Cut
    } else if !second_byte_ok(b[0], b[1]) {
        FirstChar::Invalid(1)
    } else if w == 2 {
        FirstChar::Char(2)
    } else if b.len() < 3 {
        FirstChar::Cut
    } else if !is_continuation_byte(b[2]) {
        FirstChar::Invalid(2)
    } else if w == 3 {
        FirstChar::Char(3)
    } else if b.len() < 4 {
        FirstChar::Cut
    } else if !is_continuation_byte(b[3]) {
        FirstChar::Invalid(3)
    } else {
        FirstChar::Char(4)
    }
}

/// Reading `b` one character at a time from position `i`: `None` when the
/// rest is well-formed, else the position of the first invalid or cut-off
/// sequence and its length (`None` for one cut off by the end).
pub open spec fn first_error_from(b: Seq<u8>, i: int) -> Option<(int, Option<int>)>
    decreases b.len() - i,
{
    if i < 0 || i >= b.len() {
        None
    } else {
        match first_char(b.skip(i)) {
            FirstChar::Char(w) => if w >= 1 {
                first_error_from(b, i + w)
            } else {
                None
            },
            FirstChar::Invalid(n) => Some((i, Some(n))),
            FirstChar::Cut => Some((i, None)),
        }
    }
}

/// The report `std::str::from_utf8` gives on `bytes`.
pub open spec fn spec_utf8_scan(bytes: Seq<u8>) -> Utf8Scan {
    match first_error_from(bytes, 0) {
        None => Utf8Scan::Valid,
        Some((v, e)) => Utf8Scan::Invalid {
            valid_up_to: v as usize,
            error_len: match e {
                Some(n) => Some(n as usize),
                None => None,
            },
        },
    }
}

/// `std::str::from_utf8`, reduced to its report: `Utf8Error::valid_up_to`
/// is where the first invalid or cut-off sequence starts, and
/// `Utf8Error::error_len` its length (`None` when the input ends inside a
/// character), read one character at a time as [`first_char`] states.
#[verifier::external_body]
pub(crate) fn scan_utf8(bytes: &[u8]) -> (r: Utf8Scan)
    ensures
        r == spec_utf8_scan(bytes@),
{
    match std::str::from_utf8(bytes) {
        Ok(_) => Utf8Scan::Valid,
        Err(e) => Utf8Scan::Invalid { valid_up_to: e.valid_up_to(), error_len: e.error_len() },
    }
}

/// UTF-8 encoding of U+FFFD REPLACEMENT CHARACTER.
pub open spec fn replacement_bytes() -> Seq<u8> {
    seq![0xEFu8, 0xBFu8, 0xBDu8]
}

/// Proof of the sizes [`first_char`] reports.
pub proof fn lemma_first_char_bounds(b: Seq<u8>)
    requires
        b.len() > 0,
    ensures
        match first_char(b) {
            FirstChar::Char(w) => 1 <= w <= 4 && w <= b.len(),
            FirstChar::Invalid(n) => 1 <= n <= 3 && n <= b.len(),
            FirstChar::Cut => 2 <= b.len() + 1 <= 4,
        },
{
}

/// Proof that what follows a character that is not cut off does not change
/// how it reads.
pub proof fn lemma_first_char_append(b: Seq<u8>, y: Seq<u8>)
    requires
        b.len() > 0,
        !(first_char(b) is Cut),
    ensures
        first_char(b + y) == first_char(b),
{
    let c = b + y;
    assert(c[0] == b[0]);
    if b.len() >= 2 {
        assert(c[1] == b[1]);
    }
    if b.len() >= 3 {
        assert(c[2] == b[2]);
    }
    if b.len() >= 4 {
        assert(c[3] == b[3]);
    }
}

/// Lossy decoding of the longest prefix that can be decoded now: each
/// invalid sequence becomes U+FFFD; a character cut off by the end of the
/// input is left undecoded. Yields (decoded UTF-8 bytes, undecoded tail).
pub open spec fn spec_lossy_prefix(bytes: Seq<u8>) -> (Seq<u8>, Seq<u8>)
    decreases bytes.len(),
{
    if bytes.len() == 0 {
        (seq![], seq![])
    } else {
        match first_char(bytes) {
            FirstChar::Char(w) => if 1 <= w <= bytes.len() {
                let r = spec_lossy_prefix(bytes.skip(w));
                (bytes.take(w) + r.0, r.1)
            } else {
                (bytes, seq![])
            },
            FirstChar::Invalid(n) => if 1 <= n <= bytes.len() {
                let r = spec_lossy_prefix(bytes.skip(n));
                (replacement_bytes() + r.0, r.1)
            } else {
                (bytes, seq![])
            },
            FirstChar::Cut => (seq![], bytes),
        }
    }
}

/// Lossy decoding of the whole input, as `String::from_utf8_lossy` does: an
/// unfinished character at the end also becomes one U+FFFD.
pub open spec fn spec_lossy(bytes: Seq<u8>) -> Seq<u8> {
    let p = spec_lossy_prefix(bytes);
    if p.1.len() == 0 {
        p.0
    } else {
        p.0 + replacement_bytes()
    }
}

/// Law: decoding is incremental. Decoding `b` and then what was left of it
/// followed by `y` decodes what decoding `b + y` at once does, and leaves
/// the same bytes; a character split between `b` and `y` is decoded whole.
pub proof fn law_lossy_prefix_append(b: Seq<u8>, y: Seq<u8>)
    ensures
        ({
            let (d1, p1) = spec_lossy_prefix(b);
            let (d2, p2) = spec_lossy_prefix(p1 + y);
            spec_lossy_prefix(b + y) == (d1 + d2, p2)
        }),
    decreases b.len(),
{
    if b.len() == 0 {
        assert(b + y =~= y);
        let d2 = spec_lossy_prefix(y).0;
        assert(Seq::<u8>::empty() + d2 =~= d2);
    } else {
        lemma_first_char_bounds(b);
        match first_char(b) {
            FirstChar::Char(w) => {
                lemma_first_char_append(b, y);
                assert((b + y).skip(w) =~= b.skip(w) + y);
                assert((b + y).take(w) =~= b.take(w));
                law_lossy_prefix_append(b.skip(w), y);
                let r = spec_lossy_prefix(b.skip(w));
                let q = spec_lossy_prefix(r.1 + y);
                assert(b.take(w) + r.0 + q.0 =~= b.take(w) + (r.0 + q.0));
            },
            FirstChar::Invalid(n) => {
                lemma_first_char_append(b, y);
                assert((b + y).skip(n) =~= b.skip(n) + y);
                law_lossy_prefix_append(b.skip(n), y);
                let r = spec_lossy_prefix(b.skip(n));
                let q = spec_lossy_prefix(r.1 + y);
                assert(replacement_bytes() + r.0 + q.0 =~= replacement_bytes() + (r.0 + q.0));
            },
            FirstChar::Cut => {
                let d2 = spec_lossy_prefix(b + y).0;
                assert(Seq::<u8>::empty() + d2 =~= d2);
            },
        }
    }
}

/// Law: lossy decoding at most triples the bytes it consumes (an invalid
/// byte becomes the three bytes of U+FFFD), and leaves the rest as it is.
pub proof fn law_lossy_prefix_size(b: Seq<u8>)
    ensures
        spec_lossy_prefix(b).0.len() + 3 * spec_lossy_prefix(b).1.len() <= 3 * b.len(),
    decreases b.len(),
{
    if b.len() > 0 {
        lemma_first_char_bounds(b);
        match first_char(b) {
            FirstChar::Char(w) => {
                law_lossy_prefix_size(b.skip(w));
            },
            FirstChar::Invalid(n) => {
                law_lossy_prefix_size(b.skip(n));
            },
            FirstChar::Cut => {},
        }
    }
}

/// Proof that a character [`first_char`] reads as well-formed is well-formed
/// UTF-8 in the sense of `vstd::utf8::valid_utf8`.
proof fn lemma_char_valid(c: Seq<u8>, w: int)
    requires
        c.len() > 0,
        first_char(c) == FirstChar::Char(w),
    ensures
        valid_utf8(c.take(w)),
{
    lemma_first_char_bounds(c);
    let t = c.take(w);
    let b0 = c[0];
    assert(t[0] == b0);
    if w == 1 {
        assert(b0 < 0x80 ==> codepoint_width_1(b0) <= 0x7F) by (bit_vector);
    } else {
        let b1 = c[1];
        assert(t[1] == b1);
        if w == 2 {
            assert(0xC2 <= b0 <= 0xDF && 0x80 <= b1 <= 0xBF ==> 0x80 <= codepoint_width_2(b0, b1) <= 0x7FF)
                by (bit_vector);
        } else {
            let b2 = c[2];
            assert(t[2] == b2);
            if w == 3 {
                assert((((b0 == 0xE0 && 0xA0 <= b1 <= 0xBF) || (0xE1 <= b0 <= 0xEC && 0x80 <= b1 <= 0xBF) || (
                b0 == 0xED && 0x80 <= b1 <= 0x9F) || (0xEE <= b0 <= 0xEF && 0x80 <= b1 <= 0xBF)) && 0x80 <= b2
                    <= 0xBF) ==> 0x800 <= codepoint_width_3(b0, b1, b2) <= 0xFFFF && !(0xD800 <= codepoint_width_3(
                    b0,
                    b1,
                    b2,
                ) <= 0xDFFF)) by (bit_vector);
            } else {
                let b3 = c[3];
                assert(t[3] == b3);
                assert((((b0 == 0xF0 && 0x90 <= b1 <= 0xBF) || (0xF1 <= b0 <= 0xF3 && 0x80 <= b1 <= 0xBF) || (
                b0 == 0xF4 && 0x80 <= b1 <= 0x8F)) && 0x80 <= b2 <= 0xBF && 0x80 <= b3 <= 0xBF) ==> 0x10000
                    <= codepoint_width_4(b0, b1, b2, b3) <= 0x10FFFF) by (bit_vector);
            }
        }
    }
    assert(valid_first_scalar(t));
    assert(pop_first_scalar(t) =~= Seq::<u8>::empty());
    assert(valid_utf8(Seq::<u8>::empty()));
    assert(valid_utf8(t));
}

/// Proof of what reading from position `i` tells of the lossy decoding of
/// the bytes from there: up to the first invalid or cut-off sequence they
/// are well-formed and kept as they are.
proof fn lemma_lossy_by_scan(b: Seq<u8>, i: int)
    requires
        0 <= i <= b.len(),
    ensures
        match first_error_from(b, i) {
            None => spec_lossy_prefix(b.skip(i)) == (b.skip(i), Seq::<u8>::empty()) && valid_utf8(b.skip(i)),
            Some((v, None)) => i <= v < b.len() && spec_lossy_prefix(b.skip(i)) == (b.subrange(i, v), b.skip(v))
                && valid_utf8(b.subrange(i, v)),
            Some((v, Some(n))) => i <= v && 1 <= n <= 3 && v + n <= b.len() && spec_lossy_prefix(b.skip(i)) == (
            b.subrange(i, v) + replacement_bytes() + spec_lossy_prefix(b.skip(v + n)).0,
            spec_lossy_prefix(b.skip(v + n)).1,
            ) && valid_utf8(b.subrange(i, v)),
        },
    decreases b.len() - i,
{
    let c = b.skip(i);
    if i == b.len() {
        assert(c =~= Seq::<u8>::empty());
        assert(valid_utf8(c));
    } else {
        lemma_first_char_bounds(c);
        assert(b.subrange(i, i) =~= Seq::<u8>::empty());
        assert(valid_utf8(Seq::<u8>::empty()));
        match first_char(c) {
            FirstChar::Char(w) => {
                lemma_lossy_by_scan(b, i + w);
                lemma_char_valid(c, w);
                assert(c.skip(w) =~= b.skip(i + w));
                assert(c.take(w) =~= b.subrange(i, i + w));
                let head = b.subrange(i, i + w);
                match first_error_from(b, i + w) {
                    None => {
                        assert(head + b.skip(i + w) =~= c);
                        valid_utf8_concat(head, b.skip(i + w));
                    },
                    Some((v, e)) => {
                        assert(head + b.subrange(i + w, v) =~= b.subrange(i, v));
                        valid_utf8_concat(head, b.subrange(i + w, v));
                        match e {
                            None => {},
                            Some(n) => {
                                let r = spec_lossy_prefix(b.skip(v + n));
                                assert(head + (b.subrange(i + w, v) + replacement_bytes() + r.0) =~= b.subrange(i, v)
                                    + replacement_bytes() + r.0);
                            },
                        }
                    },
                }
            },
            FirstChar::Invalid(n) => {
                assert(c.skip(n) =~= b.skip(i + n));
                let r = spec_lossy_prefix(b.skip(i + n));
                assert(Seq::<u8>::empty() + replacement_bytes() + r.0 =~= replacement_bytes() + r.0);
            },
            FirstChar::Cut => {},
        }
    }
}

/// Appends to `out` the lossy decoding of the decodable prefix of `bytes`
/// and returns how many bytes of `bytes` it consumed.
pub fn lossy_prefix(bytes: &[u8], out: &mut Vec<u8>) -> (consumed: usize)
    ensures
        consumed <= bytes@.len(),
        final(out)@ == old(out)@ + spec_lossy_prefix(bytes@).0,
        bytes@.skip(consumed as int) == spec_lossy_prefix(bytes@).1,
        valid_utf8(old(out)@) ==> valid_utf8(final(out)@),
{
    proof { lemma_replacement_valid(); }
    let len = bytes.len();
    let mut start: usize = 0;
    assert(bytes@.skip(0) =~= bytes@);
    loop
        invariant
            len == bytes@.len(),
            start <= len,
            old(out)@ + spec_lossy_prefix(bytes@).0 == out@ + spec_lossy_prefix(bytes@.skip(start as int)).0,
            spec_lossy_prefix(bytes@).1 == spec_lossy_prefix(bytes@.skip(start as int)).1,
            valid_utf8(old(out)@) ==> valid_utf8(out@),
            valid_utf8(replacement_bytes()),
        decreases len - start,
    {
        if start == len {
            assert(bytes@.skip(start as int) =~= Seq::<u8>::empty());
            assert(out@ =~= out@ + Seq::<u8>::empty());
            return start;
        }
        let rest = vstd::slice::slice_subrange(bytes, start, len);
        assert(rest@ =~= bytes@.skip(start as int));
        proof {
            lemma_lossy_by_scan(rest@, 0);
            assert(rest@.skip(0) =~= rest@);
        }
        match scan_utf8(rest) {
            Utf8Scan::Valid => {
                let ghost before = out@;
                out.extend_from_slice(rest);
                assert(out@ =~= before + rest@);
                proof { if valid_utf8(before) { valid_utf8_concat(before, rest@); } }
                assert(bytes@.skip(len as int) =~= Seq::<u8>::empty());
                assert(out@ =~= out@ + Seq::<u8>::empty());
                return len;
            },
            Utf8Scan::Invalid { valid_up_to, error_len } => {
                let ghost v = first_error_from(rest@, 0)->0 .0;
                assert(valid_up_to as int == v);
                let good = vstd::slice::slice_subrange(rest, 0, valid_up_to);
                let ghost before = out@;
                out.extend_from_slice(good);
                assert(good@ =~= rest@.subrange(0, v));
                assert(out@ =~= before + good@);
                proof { if valid_utf8(before) { valid_utf8_concat(before, good@); } }
                match error_len {
                    None => {
                        assert(rest@.skip(valid_up_to as int) =~= bytes@.skip(start + valid_up_to));
                        assert(out@ =~= out@ + Seq::<u8>::empty());
                        return start + valid_up_to;
                    },
                    Some(n) => {
                        let ghost before2 = out@;
                        out.push(0xEF);
                        out.push(0xBF);
                        out.push(0xBD);
                        assert(out@ =~= before2 + replacement_bytes());
                        proof { if valid_utf8(before2) { valid_utf8_concat(before2, replacement_bytes()); } }
                        assert(rest@.skip(valid_up_to + n) =~= bytes@.skip(start + valid_up_to + n));
                        let ghost r = spec_lossy_prefix(rest@.skip(valid_up_to + n));
                        assert(before + (good@ + replacement_bytes() + r.0) =~= out@ + r.0);
                        start = start + valid_up_to + n;
                    },
                }
            },
        }
    }
}

/// The replacement character's encoding is well-formed UTF-8.
pub proof fn lemma_replacement_valid()
    ensures
        valid_utf8(replacement_bytes()),
        replacement_bytes() == encode_utf8(seq!['\u{FFFD}']),
{
    let c = seq!['\u{FFFD}'];
    encode_utf8_valid_utf8(c);
    assert(encode_utf8(c.drop_first()) =~= Seq::<u8>::empty());
    assert(encode_utf8(c) =~= replacement_bytes()) by {
        assert(('\u{FFFD}' as u32) == 0xFFFDu32);
        assert(leading_byte_width_3(0xFFFDu32) == 0xEFu8) by (bit_vector);
        assert(second_last_continuation_byte(0xFFFDu32) == 0xBFu8) by (bit_vector);
        assert(last_continuation_byte(0xFFFDu32) == 0xBDu8) by (bit_vector);
    }
}

/// The lossy decoding of the whole of `bytes`, as UTF-8 bytes.
pub fn lossy_bytes(bytes: &[u8]) -> (r: Vec<u8>)
    ensures
        r@ == spec_lossy(bytes@),
        valid_utf8(r@),
{
    proof { lemma_replacement_valid(); }
    let mut out: Vec<u8> = Vec::new();
    let consumed = lossy_prefix(bytes, &mut out);
    if consumed < bytes.len() {
        let ghost before = out@;
        out.push(0xEF);
        out.push(0xBF);
        out.push(0xBD);
        assert(out@ =~= before + replacement_bytes());
        proof { valid_utf8_concat(before, replacement_bytes()); }
    }
    out
}

/// `String::from_utf8_lossy`: the string whose UTF-8 encoding is the lossy
/// decoding of `bytes`.
pub fn lossy_string(bytes: &[u8]) -> (s: String)
    ensures
        encode_utf8(s@) == spec_lossy(bytes@),
{
    let v = lossy_bytes(bytes);
    let ghost b = v@;
    match string_from_utf8(v) {
        Some(s) => s,
        None => {
            assert(false);
            String::new()
        },
    }
}

} // verus!

verus! {

/// The ASCII code of the decimal digit `d`.
pub open spec fn digit_byte(d: nat) -> u8 {
    (48 + d) as u8
}

/// The decimal representation of `n` (no sign, no leading zeros), as ASCII bytes.
pub open spec fn spec_decimal_bytes(n: nat) -> Seq<u8>
    decreases n,
{
    if n < 10 {
        seq![digit_byte(n)]
    } else {
        spec_decimal_bytes(n / 10) + seq![digit_byte(n % 10)]
    }
}

/// The decimal representation of `n`, as characters.
pub open spec fn spec_decimal(n: nat) -> Seq<char> {
    ascii_text(spec_decimal_bytes(n))
}

/// Proof that decimal digits are ASCII.
pub proof fn lemma_decimal_ascii(n: nat)
    ensures
        all_ascii(spec_decimal_bytes(n)),
    decreases n,
{
    if n >= 10 {
        lemma_decimal_ascii(n / 10);
    }
}

fn push_decimal(n: u64, out: &mut Vec<u8>)
    ensures
        final(out)@ == old(out)@ + spec_decimal_bytes(n as nat),
    decreases n,
{
    if n < 10 {
        out.push(48 + (n as u8));
        assert(out@ =~= old(out)@ + spec_decimal_bytes(n as nat));
    } else {
        push_decimal(n / 10, out);
        out.push(48 + ((n % 10) as u8));
        assert(out@ =~= old(out)@ + spec_decimal_bytes(n as nat));
    }
}

/// The decimal representation of `n`, as `n.to_string()` renders it.
pub fn decimal_string(n: u64) -> (s: String)
    ensures
        s@ == spec_decimal(n as nat),
{
    let mut out: Vec<u8> = Vec::new();
    push_decimal(n, &mut out);
    assert(out@ =~= spec_decimal_bytes(n as nat));
    proof { lemma_decimal_ascii(n as nat); }
    ascii_string(out)
}

/// The decimal representation of `i`, with `-` before a negative number,
/// as `i.to_string()` renders it.
pub open spec fn spec_signed_decimal(i: int) -> Seq<char> {
    if i < 0 {
        seq!['-'] + spec_decimal((-i) as nat)
    } else {
        spec_decimal(i as nat)
    }
}

/// The decimal representation of `i`, as `i.to_string()` renders it.
pub fn signed_decimal_string(i: i64) -> (s: String)
    ensures
        s@ == spec_signed_decimal(i as int),
{
    if i < 0 {
        let magnitude: u64 = (0i128 - (i as i128)) as u64;
        assert(magnitude as int == -(i as int));
        let digits = decimal_string(magnitude);
        let mut s = String::from_str("-");
        proof { reveal_strlit("-"); }
        s.append(digits.as_str());
        assert(s@ =~= seq!['-'] + spec_decimal(magnitude as nat));
        s
    } else {
        decimal_string(i as u64)
    }
}

} // verus!
