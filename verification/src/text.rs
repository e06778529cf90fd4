//! Text marshaling for the native NUL-terminated string boundary.
//!
//! Widget text crosses into the display backend as a NUL-terminated byte
//! string.  A byte sequence can cross that boundary as it is only when it is
//! valid UTF-8 and holds no interior NUL byte.  Anything else is replaced by
//! a fixed placeholder instead of being rejected: a deliberate, permissive
//! substitution, so that a bad text value degrades on screen rather than
//! failing a setter.
//!
//! The UTF-8 check is a verified validator, proved equivalent to
//! [`vstd::utf8::valid_utf8`].

use vstd::prelude::*;
use vstd::string::StringSliceAdditionalSpecFns;
use vstd::utf8::*;

verus! {

/// The placeholder that replaces invalid label text.
pub open spec fn spec_label_placeholder() -> Seq<u8> {
    "Non UTF8 label".spec_bytes()
}

/// The placeholder that replaces invalid label text.
pub fn label_placeholder() -> (r: &'static [u8])
    ensures
        r@ == spec_label_placeholder(),
{
    "Non UTF8 label".as_bytes()
}

/// The placeholder that replaces invalid text-area content.
pub open spec fn spec_text_placeholder() -> Seq<u8> {
    "Non UTF8 text".spec_bytes()
}

/// The placeholder that replaces invalid text-area content.
pub fn text_placeholder() -> (r: &'static [u8])
    ensures
        r@ == spec_text_placeholder(),
{
    "Non UTF8 text".as_bytes()
}

/// The placeholder that replaces an invalid image path.
pub open spec fn spec_path_placeholder() -> Seq<u8> {
    "Non UTF8 path".spec_bytes()
}

/// The placeholder that replaces an invalid image path.
pub fn path_placeholder() -> (r: &'static [u8])
    ensures
        r@ == spec_path_placeholder(),
{
    "Non UTF8 path".as_bytes()
}

/// True when `bytes` holds no NUL byte, so a NUL terminator can be appended
/// without truncating the text.
pub open spec fn spec_nul_free(bytes: Seq<u8>) -> bool {
    forall|i: int| 0 <= i < bytes.len() ==> bytes[i] != 0
}

/// True when `bytes` can cross the native text boundary unchanged: valid
/// UTF-8 and free of interior NUL bytes.
pub open spec fn spec_valid_native_text(bytes: Seq<u8>) -> bool {
    valid_utf8(bytes) && spec_nul_free(bytes)
}

/// What the native boundary receives for the text `bytes`: the bytes
/// themselves when they are valid, the `placeholder` otherwise.
pub open spec fn spec_native_text(bytes: Seq<u8>, placeholder: Seq<u8>) -> Seq<u8> {
    if spec_valid_native_text(bytes) {
        bytes
    } else {
        placeholder
    }
}

/// Check that `bytes` holds no NUL byte.
pub fn is_nul_free(bytes: &[u8]) -> (r: bool)
    ensures
        r == spec_nul_free(bytes@),
{
    let n: usize = bytes.len();
    let mut i: usize = 0;
    while i < n
        invariant
            0 <= i <= n,
            n == bytes@.len(),
            forall|j: int| 0 <= j < i ==> bytes@[j] != 0,
        decreases n - i,
    {
        if bytes[i] == 0 {
            return false;
        }
        i = i + 1;
    }
    true
}

/// Check that `bytes` is a valid UTF-8 encoding.
///
/// The loop walks the sequence one encoded scalar at a time: it reads the
/// leading byte, gathers the continuation bytes it announces, decodes the
/// codepoint exactly as the specification does, and rejects overlong
/// encodings and surrogate values.
pub fn is_valid_utf8(bytes: &[u8]) -> (r: bool)
    ensures
        r == valid_utf8(bytes@),
{
    let n: usize = bytes.len();
    let mut i: usize = 0;
    while i < n
        invariant
            0 <= i <= n,
            n == bytes@.len(),
            partial_valid_utf8(bytes@, i as int),
        decreases n - i,
    {
        let ghost suffix = bytes@.subrange(i as int, n as int);
        proof {
            assert(suffix.len() == n - i);
            assert(forall|k: int| 0 <= k < suffix.len() ==> suffix[k] == bytes@[i + k]);
        }
        let avail: usize = n - i;
        let b0 = bytes[i];

        // Decode the first scalar of the suffix, mirroring the specification.
        let cp: u32;
        let len: usize;
        if b0 <= 0x7f {
            cp = b0 as u32;
            len = 1;
        } else if 0xc0 <= b0 && b0 <= 0xdf {
            if avail < 2 {
                proof { lemma_invalid_first_scalar(bytes@, i as int); }
                return false;
            }
            let b1 = bytes[i + 1];
            if !(0x80 <= b1 && b1 <= 0xbf) {
                proof { lemma_invalid_first_scalar(bytes@, i as int); }
                return false;
            }
            cp = (((b1 & 0x3f) as u32)) | (((b0 & 0x1f) as u32) << 6u32);
            len = 2;
        } else if 0xe0 <= b0 && b0 <= 0xef {
            if avail < 3 {
                proof { lemma_invalid_first_scalar(bytes@, i as int); }
                return false;
            }
            let b1 = bytes[i + 1];
            let b2 = bytes[i + 2];
            if !(0x80 <= b1 && b1 <= 0xbf) || !(0x80 <= b2 && b2 <= 0xbf) {
                proof { lemma_invalid_first_scalar(bytes@, i as int); }
                return false;
            }
            cp = (((b2 & 0x3f) as u32)) | (((b1 & 0x3f) as u32) << 6u32) | (((b0
                & 0x0f) as u32) << 12u32);
            len = 3;
        } else if 0xf0 <= b0 && b0 <= 0xf7 {
            if avail < 4 {
                proof { lemma_invalid_first_scalar(bytes@, i as int); }
                return false;
            }
            let b1 = bytes[i + 1];
            let b2 = bytes[i + 2];
            let b3 = bytes[i + 3];
            if !(0x80 <= b1 && b1 <= 0xbf) || !(0x80 <= b2 && b2 <= 0xbf) || !(0x80 <= b3 && b3
                <= 0xbf) {
                proof { lemma_invalid_first_scalar(bytes@, i as int); }
                return false;
            }
            cp = (((b3 & 0x3f) as u32)) | (((b2 & 0x3f) as u32) << 6u32) | (((b1
                & 0x3f) as u32) << 12u32) | (((b0 & 0x07) as u32) << 18u32);
            len = 4;
        } else {
            // A continuation byte, or a byte above 0xf7, cannot lead.
            proof { lemma_invalid_first_scalar(bytes@, i as int); }
            return false;
        }

        proof {
            lemma_decoded_first_codepoint(suffix, cp, len as int);
        }

        // Reject overlong encodings and surrogate codepoints.
        if len == 2 && cp < 0x80 {
            proof { lemma_invalid_first_scalar(bytes@, i as int); }
            return false;
        }
        if len == 3 && cp < 0x800 {
            proof { lemma_invalid_first_scalar(bytes@, i as int); }
            return false;
        }
        if len == 4 && !(0x10000 <= cp && cp <= 0x10ffff) {
            proof { lemma_invalid_first_scalar(bytes@, i as int); }
            return false;
        }
        if 0xd800 <= cp && cp <= 0xdfff {
            proof { lemma_invalid_first_scalar(bytes@, i as int); }
            return false;
        }

        proof {
            assert(valid_first_scalar(suffix));
            partial_valid_utf8_extend(bytes@, i as int);
            assert(length_of_first_scalar(suffix) == len as int);
        }
        i = i + len;
    }
    proof {
        assert(bytes@.subrange(0, n as int) =~= bytes@);
    }
    true
}

/// When the suffix of `bytes` starting at `i` does not begin with a valid
/// scalar encoding, the whole sequence is not valid UTF-8, given that the
/// prefix before `i` is.
proof fn lemma_invalid_first_scalar(bytes: Seq<u8>, i: int)
    requires
        0 <= i < bytes.len(),
        partial_valid_utf8(bytes, i),
        !valid_first_scalar(bytes.subrange(i, bytes.len() as int)),
    ensures
        !valid_utf8(bytes),
{
    let suffix = bytes.subrange(i, bytes.len() as int);
    assert(suffix.len() > 0);
    assert(!valid_utf8(suffix));
    partial_valid_partial_invalid_utf8(bytes, i);
}

/// The codepoint and length decoded by the validator agree with the
/// specification's decoding of the first codepoint.
proof fn lemma_decoded_first_codepoint(suffix: Seq<u8>, cp: u32, len: int)
    requires
        suffix.len() >= len,
        1 <= len <= 4,
        len == 1 ==> is_leading_byte_width_1(suffix[0]) && cp == suffix[0] as u32,
        len == 2 ==> is_leading_byte_width_2(suffix[0]) && is_continuation_byte(suffix[1]) && cp
            == (((suffix[1] & 0x3f) as u32)) | (((suffix[0] & 0x1f) as u32) << 6u32),
        len == 3 ==> is_leading_byte_width_3(suffix[0]) && is_continuation_byte(suffix[1])
            && is_continuation_byte(suffix[2]) && cp == (((suffix[2] & 0x3f) as u32)) | (((suffix[1]
            & 0x3f) as u32) << 6u32) | (((suffix[0] & 0x0f) as u32) << 12u32),
        len == 4 ==> is_leading_byte_width_4(suffix[0]) && is_continuation_byte(suffix[1])
            && is_continuation_byte(suffix[2]) && is_continuation_byte(suffix[3]) && cp
            == (((suffix[3] & 0x3f) as u32)) | (((suffix[2] & 0x3f) as u32) << 6u32) | (((suffix[1]
            & 0x3f) as u32) << 12u32) | (((suffix[0] & 0x07) as u32) << 18u32),
    ensures
        valid_leading_and_continuation_bytes_first_codepoint(suffix),
        length_of_first_codepoint(suffix) == len,
        decode_first_codepoint(suffix) == cp,
{
    let b0 = suffix[0];
    if len == 1 {
        assert(decode_first_codepoint(suffix) == (b0 & 0x7f) as u32);
        assert((b0 & 0x7f) as u32 == b0 as u32) by (bit_vector)
            requires
                b0 <= 0x7f,
        ;
    } else if len == 2 {
        let b1 = suffix[1];
        assert(decode_first_codepoint(suffix) == (((b0 & 0x1f) as u32) << 6u32) | ((b1
            & 0x3f) as u32));
        assert(((((b0 & 0x1f) as u32) << 6u32) | ((b1 & 0x3f) as u32)) == ((((b1
            & 0x3f) as u32)) | (((b0 & 0x1f) as u32) << 6u32))) by (bit_vector);
    } else if len == 3 {
        let b1 = suffix[1];
        let b2 = suffix[2];
        assert(decode_first_codepoint(suffix) == (((b0 & 0x0f) as u32) << 12u32) | (((b1
            & 0x3f) as u32) << 6u32) | ((b2 & 0x3f) as u32));
        assert(((((b0 & 0x0f) as u32) << 12u32) | (((b1 & 0x3f) as u32) << 6u32) | ((b2
            & 0x3f) as u32)) == ((((b2 & 0x3f) as u32)) | (((b1 & 0x3f) as u32) << 6u32) | (((b0
            & 0x0f) as u32) << 12u32))) by (bit_vector);
    } else {
        let b1 = suffix[1];
        let b2 = suffix[2];
        let b3 = suffix[3];
        assert(decode_first_codepoint(suffix) == (((b0 & 0x07) as u32) << 18u32) | (((b1
            & 0x3f) as u32) << 12u32) | (((b2 & 0x3f) as u32) << 6u32) | ((b3 & 0x3f) as u32));
        assert(((((b0 & 0x07) as u32) << 18u32) | (((b1 & 0x3f) as u32) << 12u32) | (((b2
            & 0x3f) as u32) << 6u32) | ((b3 & 0x3f) as u32)) == ((((b3 & 0x3f) as u32)) | (((b2
            & 0x3f) as u32) << 6u32) | (((b1 & 0x3f) as u32) << 12u32) | (((b0
            & 0x07) as u32) << 18u32))) by (bit_vector);
    }
}

/// Marshal `text` for the native boundary: hand it through unchanged when it
/// is valid UTF-8 without interior NUL, substitute the fixed `placeholder`
/// otherwise.
pub fn marshal_text(text: &[u8], placeholder: &[u8]) -> (r: Vec<u8>)
    ensures
        r@ == spec_native_text(text@, placeholder@),
{
    if is_valid_utf8(text) && is_nul_free(text) {
        vstd::slice::slice_to_vec(text)
    } else {
        vstd::slice::slice_to_vec(placeholder)
    }
}

} // verus!
