//! Classifies a byte buffer by its magic signature: the zlib header of the
//! extra layer, the JPEG start-of-image marker, or neither. Nothing beyond
//! the first few bytes is inspected.

use vstd::prelude::*;

verus! {

/// Classification of a content buffer derived purely from its leading bytes.
#[derive(Clone, Copy, Debug, PartialEq, Eq, Structural)]
pub enum FileSignature {
    /// The buffer starts with `0x78 0x01`, the zlib header used by the
    /// metadata-invisible extra layer.
    ZlibWrapped,
    /// The buffer starts with `0xFF 0xD8 0xFF`, the JPEG start-of-image
    /// marker followed by a further marker byte.
    JpegImage,
    /// Anything else, including buffers too short to carry either prefix.
    Unclassified,
}

/// What the sniffer reports for a given byte sequence. The two magic
/// prefixes differ in their first byte, so at most one of them matches.
pub open spec fn sniff_spec(s: Seq<u8>) -> FileSignature {
    if s.len() >= 2 && s[0] == 0x78 && s[1] == 0x01 {
        FileSignature::ZlibWrapped
    } else if s.len() >= 3 && s[0] == 0xff && s[1] == 0xd8 && s[2] == 0xff {
        FileSignature::JpegImage
    } else {
        FileSignature::Unclassified
    }
}

/// Classify a content buffer by comparing its fixed prefix against the known
/// magic sequences. Total and side-effect free: empty or too-short buffers
/// classify as `Unclassified`.
pub fn sniff(content: &[u8]) -> (sig: FileSignature)
    ensures
        sig == sniff_spec(content@),
{
    if content.len() >= 2 && content[0] == 0x78 && content[1] == 0x01 {
        FileSignature::ZlibWrapped
    } else if content.len() >= 3 && content[0] == 0xff && content[1] == 0xd8 && content[2] == 0xff {
        FileSignature::JpegImage
    } else {
        FileSignature::Unclassified
    }
}

} // verus!
