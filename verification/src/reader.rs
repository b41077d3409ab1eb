//! The read pipeline over an in-memory buffer: classify first, then detect
//! (unless a tag is forced), then decode; binary content fails the whole
//! read and no partial text comes back. Also the helper that builds a
//! timestamped file name for collision-free saves.

use vstd::prelude::*;
use vstd::string::StringExecFns;

use crate::classify::is_binary_bytes;
use crate::classify::spec_is_binary;
use crate::codec::DecodeError;
use crate::codec::EncodingTag;
use crate::codec::decode_bytes;
use crate::codec::detect_encoding;
use crate::codec::spec_decode;
use crate::codec::spec_detect;

verus! {

/// A successful read: the decoded text together with the tag it was
/// decoded from, so a later save can reproduce the original framing.
pub struct ReadFileResult {
    pub content: String,
    pub encoding: EncodingTag,
}

/// Why a read of an in-memory buffer fails: the buffer is binary, or a
/// strict decode failed.
#[derive(Clone, Copy, Debug, PartialEq, Eq, Structural)]
pub enum ReadError {
    BinaryFile,
    Decode(DecodeError),
}

/// The read result for a buffer: binary content is refused outright;
/// otherwise the buffer is decoded under the forced tag, or under the
/// detected one when none is forced, and the tag travels with the text.
pub open spec fn spec_read(b: Seq<u8>, forced: Option<EncodingTag>) -> Result<
    (Seq<char>, EncodingTag),
    ReadError,
> {
    if spec_is_binary(b) {
        Err(ReadError::BinaryFile)
    } else {
        let tag = match forced {
            Some(t) => t,
            None => spec_detect(b),
        };
        match spec_decode(b, tag) {
            Ok(s) => Ok((s, tag)),
            Err(e) => Err(ReadError::Decode(e)),
        }
    }
}

/// Reads text out of a byte buffer: refuses binary content, detects the
/// encoding unless one is forced, and decodes.
pub fn read_text_from_bytes(bytes: &[u8], forced: Option<EncodingTag>) -> (r: Result<
    ReadFileResult,
    ReadError,
>)
    requires
        forced == Some(EncodingTag::Utf8Bom) ==> bytes@.len() >= 3,
        bytes@.len() <= usize::MAX / 4,
    ensures
        r is Ok <==> spec_read(bytes@, forced) is Ok,
        (r matches Ok(res) ==> spec_read(bytes@, forced) == Ok::<
            (Seq<char>, EncodingTag),
            ReadError,
        >((res.content@, res.encoding))),
        (r matches Err(e) ==> spec_read(bytes@, forced) == Err::<
            (Seq<char>, EncodingTag),
            ReadError,
        >(e)),
{
    if is_binary_bytes(bytes) {
        return Err(ReadError::BinaryFile);
    }
    let tag = match forced {
        Some(t) => t,
        None => detect_encoding(bytes),
    };
    match decode_bytes(bytes, tag) {
        Ok(content) => Ok(ReadFileResult { content, encoding: tag }),
        Err(e) => Err(ReadError::Decode(e)),
    }
}

/// Builds the candidate file name used when a save would collide: the
/// stem, an underscore, a timestamp, and the extension (empty or already
/// dotted), in that order.
pub fn unique_candidate_name(stem: &str, timestamp: &str, extension: &str) -> (r: String)
    ensures
        r@ == stem@ + "_"@ + timestamp@ + extension@,
{
    let mut out = stem.to_owned();
    out.append("_");
    out.append(timestamp);
    out.append(extension);
    out
}

} // verus!
