//! Feature bits and their negotiation in 32-bit halves.

use vstd::prelude::*;

verus! {

pub const VIRTIO_NET_F_CSUM: u32 = 0;
pub const VIRTIO_NET_F_GUEST_CSUM: u32 = 1;
pub const VIRTIO_NET_F_GUEST_TSO4: u32 = 7;
pub const VIRTIO_NET_F_GUEST_TSO6: u32 = 8;
pub const VIRTIO_NET_F_GUEST_UFO: u32 = 10;
pub const VIRTIO_NET_F_HOST_TSO4: u32 = 11;
pub const VIRTIO_NET_F_HOST_TSO6: u32 = 12;
pub const VIRTIO_NET_F_HOST_UFO: u32 = 14;
pub const VIRTIO_F_VERSION_1: u32 = 32;

/// The checksum and segmentation offload bits as a mask.
pub const OFFLOAD_FEATURES: u64 = 0x5D83;

/// The mask of `VIRTIO_F_VERSION_1`.
pub const VERSION_1_FEATURE: u64 = 0x1_0000_0000;

/// Bits 29 and 35, which the device offers only on request.
pub const RESERVED_FEATURES: u64 = 0x8_2000_0000;

/// Two to the power 32.
pub const HALF: u64 = 0x1_0000_0000;

/// The offload mask is made of exactly the eight offload bits, and the two
/// other masks of the bits they are named after.
pub proof fn lemma_feature_masks()
    ensures
        OFFLOAD_FEATURES == (1u64 << 0) | (1u64 << 1) | (1u64 << 7) | (1u64 << 8) | (1u64 << 10) | (
        1u64 << 11) | (1u64 << 12) | (1u64 << 14),
        VERSION_1_FEATURE == 1u64 << 32,
        RESERVED_FEATURES == (1u64 << 29) | (1u64 << 35),
{
    assert(0x5D83u64 == (1u64 << 0) | (1u64 << 1) | (1u64 << 7) | (1u64 << 8) | (1u64 << 10) | (
    1u64 << 11) | (1u64 << 12) | (1u64 << 14)) by (bit_vector);
    assert(0x1_0000_0000u64 == 1u64 << 32) by (bit_vector);
    assert(0x8_2000_0000u64 == (1u64 << 29) | (1u64 << 35)) by (bit_vector);
}

/// The features the device offers.
pub open spec fn spec_offered_features(with_reserved: bool) -> u64 {
    if with_reserved {
        0x9_2000_5D83
    } else {
        0x1_0000_5D83
    }
}

/// The features the device offers: version 1 and the offload bits, and the
/// two reserved bits where asked for.
pub fn offered_features(with_reserved: bool) -> (mask: u64)
    ensures
        mask == spec_offered_features(with_reserved),
        mask == if with_reserved {
            VERSION_1_FEATURE | OFFLOAD_FEATURES | RESERVED_FEATURES
        } else {
            VERSION_1_FEATURE | OFFLOAD_FEATURES
        },
{
    assert(0x9_2000_5D83u64 == 0x1_0000_0000u64 | 0x5D83u64 | 0x8_2000_0000u64) by (bit_vector);
    assert(0x1_0000_5D83u64 == 0x1_0000_0000u64 | 0x5D83u64) by (bit_vector);
    if with_reserved {
        0x9_2000_5D83
    } else {
        0x1_0000_5D83
    }
}

/// The half of `features` that selector `sel` addresses: the low 32 bits
/// for 0, the high 32 bits for 1, nothing for any other selector.
pub open spec fn spec_feature_half(features: u64, sel: u32) -> u32 {
    if sel == 0 {
        (features % 0x1_0000_0000) as u32
    } else if sel == 1 {
        (features / 0x1_0000_0000) as u32
    } else {
        0
    }
}

/// `features` with the half that `sel` addresses replaced by `half`; other
/// selectors address nothing and leave `features` as it is.
pub open spec fn spec_with_feature_half(features: u64, sel: u32, half: u32) -> u64 {
    if sel == 0 {
        ((features / 0x1_0000_0000) * 0x1_0000_0000 + half) as u64
    } else if sel == 1 {
        (half * 0x1_0000_0000 + features % 0x1_0000_0000) as u64
    } else {
        features
    }
}

/// Reads one half of a feature set.
pub fn feature_half(features: u64, sel: u32) -> (half: u32)
    ensures
        half == spec_feature_half(features, sel),
{
    if sel == 0 {
        (features % HALF) as u32
    } else if sel == 1 {
        (features / HALF) as u32
    } else {
        0
    }
}

/// Replaces one half of a feature set.
pub fn with_feature_half(features: u64, sel: u32, half: u32) -> (out: u64)
    ensures
        out == spec_with_feature_half(features, sel, half),
{
    if sel == 0 {
        (features / HALF) * HALF + (half as u64)
    } else if sel == 1 {
        (half as u64) * HALF + features % HALF
    } else {
        features
    }
}

/// The features in force: those both offered and accepted.
pub fn negotiated(offered: u64, accepted: u64) -> (active: u64)
    ensures
        active == offered & accepted,
{
    offered & accepted
}

/// Writing a half makes it read back, leaves the other half alone, and
/// writing it a second time changes nothing.
pub proof fn lemma_feature_half_write(features: u64, sel: u32, half: u32)
    requires
        sel < 2,
    ensures
        spec_feature_half(spec_with_feature_half(features, sel, half), sel) == half,
        spec_feature_half(spec_with_feature_half(features, sel, half), (1 - sel) as u32)
            == spec_feature_half(features, (1 - sel) as u32),
        spec_with_feature_half(spec_with_feature_half(features, sel, half), sel, half)
            == spec_with_feature_half(features, sel, half),
{
}

/// A bit is in force exactly when it was both offered and accepted.
pub proof fn lemma_negotiated_bits(offered: u64, accepted: u64, bit: u64)
    requires
        bit < 64,
    ensures
        ((offered & accepted) & (1u64 << bit) != 0) <==> (offered & (1u64 << bit) != 0 && accepted
            & (1u64 << bit) != 0),
{
    assert(((offered & accepted) & (1u64 << bit) != 0) <==> (offered & (1u64 << bit) != 0
        && accepted & (1u64 << bit) != 0)) by (bit_vector)
        requires
            bit < 64,
    ;
}

pub const TUN_F_CSUM: u32 = 0x01;
pub const TUN_F_TSO4: u32 = 0x02;
pub const TUN_F_TSO6: u32 = 0x04;
pub const TUN_F_UFO: u32 = 0x10;

/// Whether bit `bit` is set in `features`.
pub open spec fn spec_has_feature(features: u64, bit: u32) -> bool {
    bit < 64 && features & (1u64 << (bit as u64)) != 0
}

/// Tests one feature bit.
pub fn has_feature(features: u64, bit: u32) -> (set: bool)
    ensures
        set == spec_has_feature(features, bit),
{
    bit < 64 && features & (1u64 << (bit as u64)) != 0
}

/// The offload flags of the host interface that mirror the features in
/// force: checksum offload for guest checksums, and the segmentation
/// offloads for the guest's TSO4, TSO6 and UFO bits.
pub open spec fn spec_offload_flags(features: u64) -> u32 {
    ((if spec_has_feature(features, VIRTIO_NET_F_GUEST_CSUM) {
        TUN_F_CSUM as int
    } else {
        0
    }) + (if spec_has_feature(features, VIRTIO_NET_F_GUEST_TSO4) {
        TUN_F_TSO4 as int
    } else {
        0
    }) + (if spec_has_feature(features, VIRTIO_NET_F_GUEST_TSO6) {
        TUN_F_TSO6 as int
    } else {
        0
    }) + (if spec_has_feature(features, VIRTIO_NET_F_GUEST_UFO) {
        TUN_F_UFO as int
    } else {
        0
    })) as u32
}

/// Computes the offload flags to set on the host interface.
pub fn offload_flags(features: u64) -> (flags: u32)
    ensures
        flags == spec_offload_flags(features),
{
    let mut flags: u32 = 0;
    if has_feature(features, VIRTIO_NET_F_GUEST_CSUM) {
        flags = flags + TUN_F_CSUM;
    }
    if has_feature(features, VIRTIO_NET_F_GUEST_TSO4) {
        flags = flags + TUN_F_TSO4;
    }
    if has_feature(features, VIRTIO_NET_F_GUEST_TSO6) {
        flags = flags + TUN_F_TSO6;
    }
    if has_feature(features, VIRTIO_NET_F_GUEST_UFO) {
        flags = flags + TUN_F_UFO;
    }
    flags
}

} // verus!
