//! A UTF-8 validity scanner, verified against the byte-level UTF-8
//! specification of `vstd::utf8`.

use vstd::prelude::*;
use vstd::utf8::valid_utf8;
use vstd::utf8::valid_first_scalar;
use vstd::utf8::valid_leading_and_continuation_bytes_first_codepoint;
use vstd::utf8::decode_first_codepoint;
use vstd::utf8::length_of_first_codepoint;
use vstd::utf8::partial_valid_utf8;
use vstd::utf8::partial_valid_utf8_extend;
use vstd::utf8::partial_valid_partial_invalid_utf8;

verus! {

/// Decides whether `bytes` form a valid UTF-8 encoding, in the sense of
/// `vstd::utf8::valid_utf8`: a sequence of well-formed scalar encodings,
/// with no overlong forms and no surrogate values.
pub fn is_utf8(bytes: &[u8]) -> (r: bool)
    ensures
        r == valid_utf8(bytes@),
{
    let n = bytes.len();
    let mut i: usize = 0;
    proof {
        assert(bytes@.subrange(0, 0) =~= Seq::<u8>::empty());
    }
    while i < n
        invariant
            n == bytes@.len(),
            i <= n,
            partial_valid_utf8(bytes@, i as int),
        decreases n - i,
    {
        let ghost tail = bytes@.subrange(i as int, n as int);
        let b0 = bytes[i];
        let mut ok: bool = false;
        let mut width: usize = 1;
        if b0 <= 0x7F {
            proof {
                assert((b0 & 0x7F) <= 0x7F) by (bit_vector);
                assert(decode_first_codepoint(tail) == (b0 & 0x7F) as u32);
            }
            ok = true;
            width = 1;
        } else if 0xC0 <= b0 && b0 <= 0xDF {
            if n - i >= 2 {
                let b1 = bytes[i + 1];
                if 0x80 <= b1 && b1 <= 0xBF {
                    let cp: u32 = (((b0 & 0x1F) as u32) << 6) | ((b1 & 0x3F) as u32);
                    proof {
                        assert((((b0 & 0x1F) as u32) << 6) | ((b1 & 0x3F) as u32) <= 0x7FF)
                            by (bit_vector);
                        assert(decode_first_codepoint(tail) == cp);
                    }
                    ok = cp >= 0x80;
                    width = 2;
                }
            }
        } else if 0xE0 <= b0 && b0 <= 0xEF {
            if n - i >= 3 {
                let b1 = bytes[i + 1];
                let b2 = bytes[i + 2];
                if 0x80 <= b1 && b1 <= 0xBF && 0x80 <= b2 && b2 <= 0xBF {
                    let cp: u32 = (((b0 & 0x0F) as u32) << 12) | (((b1 & 0x3F) as u32) << 6)
                        | ((b2 & 0x3F) as u32);
                    proof {
                        assert(decode_first_codepoint(tail) == cp);
                    }
                    ok = cp >= 0x800 && !(0xD800 <= cp && cp <= 0xDFFF);
                    width = 3;
                }
            }
        } else if 0xF0 <= b0 && b0 <= 0xF7 {
            if n - i >= 4 {
                let b1 = bytes[i + 1];
                let b2 = bytes[i + 2];
                let b3 = bytes[i + 3];
                if 0x80 <= b1 && b1 <= 0xBF && 0x80 <= b2 && b2 <= 0xBF && 0x80 <= b3 && b3
                    <= 0xBF {
                    let cp: u32 = (((b0 & 0x07) as u32) << 18) | (((b1 & 0x3F) as u32) << 12)
                        | (((b2 & 0x3F) as u32) << 6) | ((b3 & 0x3F) as u32);
                    proof {
                        assert(decode_first_codepoint(tail) == cp);
                    }
                    ok = 0x10000 <= cp && cp <= 0x10FFFF;
                    width = 4;
                }
            }
        }
        if ok {
            proof {
                assert(valid_leading_and_continuation_bytes_first_codepoint(tail));
                assert(length_of_first_codepoint(tail) == width);
                assert(valid_first_scalar(tail));
                partial_valid_utf8_extend(bytes@, i as int);
            }
            i += width;
        } else {
            proof {
                assert(!valid_first_scalar(tail));
                assert(!valid_utf8(tail));
                partial_valid_partial_invalid_utf8(bytes@, i as int);
            }
            return false;
        }
    }
    proof {
        assert(bytes@.subrange(0, n as int) =~= bytes@);
    }
    true
}

} // verus!
