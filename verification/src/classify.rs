//! Binary-versus-text classification of a byte buffer.
//!
//! A buffer counts as binary when it starts with the magic signature of a
//! known non-text container, or, failing a whole-buffer UTF-8 check, when
//! it holds too many NUL bytes or too many control bytes.

use vstd::prelude::*;
use vstd::utf8::valid_utf8;

use crate::utf8scan::is_utf8;

verus! {

/// True when the buffer starts with one of the recognised magic signatures:
/// PNG, JPEG, GIF, PDF, ZIP (also OOXML), or a Windows PE executable.
pub open spec fn has_magic_prefix(b: Seq<u8>) -> bool {
    ||| (b.len() >= 4 && b[0] == 0x89 && b[1] == 0x50 && b[2] == 0x4E && b[3] == 0x47)  // PNG
    ||| (b.len() >= 3 && b[0] == 0xFF && b[1] == 0xD8 && b[2] == 0xFF)  // JPEG
    ||| (b.len() >= 4 && b[0] == 0x47 && b[1] == 0x49 && b[2] == 0x46 && b[3] == 0x38)  // "GIF8"
    ||| (b.len() >= 4 && b[0] == 0x25 && b[1] == 0x50 && b[2] == 0x44 && b[3] == 0x46)  // "%PDF"
    ||| (b.len() >= 2 && b[0] == 0x50 && b[1] == 0x4B)  // "PK": ZIP / OOXML
    ||| (b.len() >= 2 && b[0] == 0x4D && b[1] == 0x5A)  // "MZ": Windows PE
}

/// Number of NUL bytes in the buffer.
pub open spec fn count_nul(b: Seq<u8>) -> nat
    decreases b.len(),
{
    if b.len() == 0 {
        0
    } else {
        count_nul(b.drop_last()) + if b.last() == 0 {
            1nat
        } else {
            0nat
        }
    }
}

/// True for the control bytes the classifier counts: values below 0x09 and
/// values strictly between 0x0D and 0x20. Tab, newline and carriage return
/// are deliberately not counted.
pub open spec fn is_control_byte(v: u8) -> bool {
    v < 0x09 || (0x0D < v && v < 0x20)
}

/// Number of counted control bytes in the buffer.
pub open spec fn count_control(b: Seq<u8>) -> nat
    decreases b.len(),
{
    if b.len() == 0 {
        0
    } else {
        count_control(b.drop_last()) + if is_control_byte(b.last()) {
            1nat
        } else {
            0nat
        }
    }
}

/// Numerator of the control-byte threshold: a buffer whose control-byte
/// count exceeds the fraction `CONTROL_RATIO_NUM / CONTROL_RATIO_DEN` of
/// its length is binary. An empirical tuning constant: changing it
/// changes observable classification behaviour.
pub const CONTROL_RATIO_NUM: u64 = 3;

/// Denominator of the control-byte threshold.
pub const CONTROL_RATIO_DEN: u64 = 10;

/// The classification outcome: `true` means binary. An empty buffer is
/// text; a magic signature is binary unconditionally; valid UTF-8 is text;
/// otherwise the buffer is binary exactly when the NUL count exceeds
/// `len / 100 + 1` or the control-byte fraction exceeds the threshold
/// ratio.
pub open spec fn spec_is_binary(b: Seq<u8>) -> bool {
    if b.len() == 0 {
        false
    } else if has_magic_prefix(b) {
        true
    } else if valid_utf8(b) {
        false
    } else if count_nul(b) > b.len() / 100 + 1 {
        true
    } else {
        CONTROL_RATIO_DEN * count_control(b) > CONTROL_RATIO_NUM * b.len()
    }
}

/// Any buffer with a magic signature is classified binary, whatever bytes
/// follow the signature.
pub proof fn lemma_magic_prefix_is_binary(b: Seq<u8>)
    requires
        has_magic_prefix(b),
    ensures
        spec_is_binary(b),
{
    assert(b.len() >= 2);
}

/// Classification is decided by the buffer's prefix for the magic rules:
/// extending a buffer does not change whether a magic signature is present,
/// as long as the prefix keeps the signature's bytes.
pub proof fn lemma_magic_prefix_stable(b: Seq<u8>, n: int)
    requires
        0 <= n <= b.len(),
        has_magic_prefix(b.subrange(0, n)),
    ensures
        has_magic_prefix(b),
        spec_is_binary(b),
{
    lemma_magic_prefix_is_binary(b);
}

fn matches_magic(bytes: &[u8]) -> (r: bool)
    ensures
        r == has_magic_prefix(bytes@),
{
    let n = bytes.len();
    if n >= 4 && bytes[0] == 0x89 && bytes[1] == 0x50 && bytes[2] == 0x4E && bytes[3] == 0x47 {
        return true;
    }
    if n >= 3 && bytes[0] == 0xFF && bytes[1] == 0xD8 && bytes[2] == 0xFF {
        return true;
    }
    if n >= 4 && bytes[0] == 0x47 && bytes[1] == 0x49 && bytes[2] == 0x46 && bytes[3] == 0x38 {
        return true;
    }
    if n >= 4 && bytes[0] == 0x25 && bytes[1] == 0x50 && bytes[2] == 0x44 && bytes[3] == 0x46 {
        return true;
    }
    if n >= 2 && bytes[0] == 0x50 && bytes[1] == 0x4B {
        return true;
    }
    if n >= 2 && bytes[0] == 0x4D && bytes[1] == 0x5A {
        return true;
    }
    false
}

/// Classifies a byte buffer as binary (`true`) or text (`false`).
///
/// The same algorithm applies to any prefix of a file handed in, so a
/// bounded prefix check and a whole-file check agree on the magic-byte
/// rule by `lemma_magic_prefix_stable`.
pub fn is_binary_bytes(bytes: &[u8]) -> (r: bool)
    ensures
        r == spec_is_binary(bytes@),
{
    if bytes.len() == 0 {
        return false;
    }
    if matches_magic(bytes) {
        return true;
    }
    if is_utf8(bytes) {
        return false;
    }
    let n = bytes.len();
    let mut nuls: usize = 0;
    let mut controls: usize = 0;
    let mut i: usize = 0;
    while i < n
        invariant
            n == bytes@.len(),
            i <= n,
            nuls == count_nul(bytes@.subrange(0, i as int)),
            controls == count_control(bytes@.subrange(0, i as int)),
            nuls <= i,
            controls <= i,
        decreases n - i,
    {
        let b = bytes[i];
        proof {
            let pre = bytes@.subrange(0, i as int);
            let post = bytes@.subrange(0, i as int + 1);
            assert(post.drop_last() =~= pre);
            assert(post.last() == bytes@[i as int]);
        }
        if b == 0 {
            nuls += 1;
        }
        if b < 0x09 || (0x0D < b && b < 0x20) {
            controls += 1;
        }
        i += 1;
    }
    proof {
        assert(bytes@.subrange(0, n as int) =~= bytes@);
    }
    if nuls > n / 100 + 1 {
        return true;
    }
    (CONTROL_RATIO_DEN as u128) * (controls as u128) > (CONTROL_RATIO_NUM as u128) * (n as u128)
}

} // verus!
