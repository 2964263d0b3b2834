//! Classification of a save file by its leading four bytes.

use vstd::prelude::*;

verus! {

/// What the leading bytes of a file say about its format.
#[derive(Clone, Copy, Debug, PartialEq, Eq)]
pub enum FormatClassification {
    /// A zip archive, uploaded as it is.
    Archive,
    /// A plain-text save, compressed before it is uploaded.
    CompressedText,
    /// Neither of the two; the bytes that were found are kept.
    Unrecognized([u8; 4]),
}

/// The local-file-header signature that opens a zip archive.
pub open spec fn is_zip_signature(prefix: [u8; 4]) -> bool {
    prefix@ =~= seq![0x50u8, 0x4bu8, 0x03u8, 0x04u8]
}

/// The four ASCII letters `EU4t` that open a plain-text save.
pub open spec fn is_text_signature(prefix: [u8; 4]) -> bool {
    prefix@ =~= seq![0x45u8, 0x55u8, 0x34u8, 0x74u8]
}

/// The classification of a four-byte prefix.
pub open spec fn classification_of(prefix: [u8; 4]) -> FormatClassification {
    if is_zip_signature(prefix) {
        FormatClassification::Archive
    } else if is_text_signature(prefix) {
        FormatClassification::CompressedText
    } else {
        FormatClassification::Unrecognized(prefix)
    }
}

/// Classifies a file by its first four bytes, and by nothing else.
pub fn classify(prefix: [u8; 4]) -> (class: FormatClassification)
    ensures
        class == classification_of(prefix),
        class is Archive <==> is_zip_signature(prefix),
        class is CompressedText <==> is_text_signature(prefix),
        class is Unrecognized <==> !is_zip_signature(prefix) && !is_text_signature(prefix),
{
    if prefix[0] == 0x50 && prefix[1] == 0x4b && prefix[2] == 0x03 && prefix[3] == 0x04 {
        FormatClassification::Archive
    } else if prefix[0] == 0x45 && prefix[1] == 0x55 && prefix[2] == 0x34 && prefix[3] == 0x74 {
        FormatClassification::CompressedText
    } else {
        FormatClassification::Unrecognized(prefix)
    }
}

} // verus!
