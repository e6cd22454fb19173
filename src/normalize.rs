use vstd::prelude::*;
use vstd::slice::slice_subrange;

verus! {

/// Length of the signature that prefixes every shred.
pub const SIGNATURE_BYTES: usize = 64;

/// Legacy data-shred marker byte, not supported by this pipeline.
pub const LEGACY_DATA_TAG: u8 = 0b1010_0101;

/// Legacy coding-shred marker byte, not supported by this pipeline.
pub const LEGACY_CODE_TAG: u8 = 0b0101_1010;

/// Canonical length of a data shred.
pub const DATA_SHRED_LEN: usize = 1203;

/// Canonical length of a coding shred.
pub const CODE_SHRED_LEN: usize = 1228;

/// Bytes a resigned shred gives up for its retransmitter signature.
pub const RESIGNED_TRIM: usize = 64;

/// Why a packet is refused by the normalizer.
#[derive(Debug, Clone, Copy, PartialEq, Eq, Structural)]
pub enum Invalid {
    /// The packet ends before its tag byte.
    MissingTag,
    /// The tag byte is one of the legacy markers.
    LegacyTag,
    /// The top nibble of the tag names no known wire-format variant.
    UnknownVariant,
    /// The packet is shorter than the canonical length of its variant.
    TooShort,
}

/// Outcome of normalizing a packet received from a relay.
#[derive(Debug, Clone, Copy, PartialEq, Eq, Structural)]
pub enum Verdict {
    /// Hash the first `len` bytes.
    Valid { len: usize },
    /// Count the packet as invalid and drop it.
    Invalid(Invalid),
}

/// Canonical length selected by the top nibble of a tag byte.
pub open spec fn variant_len(nibble: u8) -> Option<nat> {
    if nibble == 0x4 || nibble == 0x6 {
        Some(1228)
    } else if nibble == 0x7 {
        Some(1164)
    } else if nibble == 0x8 || nibble == 0x9 {
        Some(1203)
    } else if nibble == 0xB {
        Some(1139)
    } else {
        None
    }
}

/// Canonical length of a packet carrying `tag`, or `None` for a refused tag.
pub open spec fn tag_len(tag: u8) -> Option<nat> {
    if tag == LEGACY_DATA_TAG || tag == LEGACY_CODE_TAG {
        None
    } else {
        variant_len(tag / 16)
    }
}

/// What the normalizer decides for the bytes of a received datagram.
pub open spec fn verdict_of(data: Seq<u8>) -> Verdict {
    if data.len() <= SIGNATURE_BYTES {
        Verdict::Invalid(Invalid::MissingTag)
    } else {
        let tag = data[SIGNATURE_BYTES as int];
        if tag == LEGACY_DATA_TAG || tag == LEGACY_CODE_TAG {
            Verdict::Invalid(Invalid::LegacyTag)
        } else {
            match variant_len(tag / 16) {
                None => Verdict::Invalid(Invalid::UnknownVariant),
                Some(len) => if len <= data.len() {
                    Verdict::Valid { len: len as usize }
                } else {
                    Verdict::Invalid(Invalid::TooShort)
                },
            }
        }
    }
}

/// Canonical length for a tag byte, following the table of wire-format
/// variants; `None` for a legacy marker or an unknown variant.
pub fn canonical_len(tag: u8) -> (r: Option<usize>)
    ensures
        match tag_len(tag) {
            Some(n) => r == Some(n as usize),
            None => r is None,
        },
{
    if tag == LEGACY_DATA_TAG || tag == LEGACY_CODE_TAG {
        return None;
    }
    let nibble: u8 = tag / 16;
    if nibble == 0x4 || nibble == 0x6 {
        Some(CODE_SHRED_LEN)
    } else if nibble == 0x7 {
        Some(CODE_SHRED_LEN - RESIGNED_TRIM)
    } else if nibble == 0x8 || nibble == 0x9 {
        Some(DATA_SHRED_LEN)
    } else if nibble == 0xB {
        Some(DATA_SHRED_LEN - RESIGNED_TRIM)
    } else {
        None
    }
}

/// Decides how a datagram received from a relay is hashed: the tag byte
/// after the signature selects a canonical prefix length.
pub fn normalize(data: &[u8]) -> (r: Verdict)
    ensures
        r == verdict_of(data@),
{
    if data.len() <= SIGNATURE_BYTES {
        return Verdict::Invalid(Invalid::MissingTag);
    }
    let tag = data[SIGNATURE_BYTES];
    if tag == LEGACY_DATA_TAG || tag == LEGACY_CODE_TAG {
        return Verdict::Invalid(Invalid::LegacyTag);
    }
    match canonical_len(tag) {
        None => Verdict::Invalid(Invalid::UnknownVariant),
        Some(len) => if len <= data.len() {
            Verdict::Valid { len }
        } else {
            Verdict::Invalid(Invalid::TooShort)
        },
    }
}

/// The canonical slice of a datagram that the normalizer accepted.
pub fn canonical_slice(data: &[u8], len: usize) -> (r: &[u8])
    requires
        len <= data@.len(),
    ensures
        r@ == data@.subrange(0, len as int),
{
    slice_subrange(data, 0, len)
}

} // verus!
