//! The device-specific configuration bytes of a network device.

use vstd::prelude::*;
use crate::bytes::{le16, le32, push_le16, push_le32};

verus! {

/// Number of bytes in the configuration space.
pub const CONFIG_SPACE_LEN: usize = 17;

/// The static attributes a network device publishes to its driver.
#[derive(Clone, Copy, Debug)]
pub struct NetConfig {
    pub mac: [u8; 6],
    pub status: u16,
    pub max_virtqueue_pairs: u16,
    pub mtu: u16,
    pub speed: u32,
    pub duplex: u8,
}

/// The configuration space laid out byte by byte: the MAC address, then
/// status, queue-pair count and MTU as 16-bit values, the speed as a 32-bit
/// value and one byte of duplex, all little-endian.
pub open spec fn config_bytes(c: NetConfig) -> Seq<u8> {
    c.mac@ + le16(c.status) + le16(c.max_virtqueue_pairs) + le16(c.mtu) + le32(c.speed)
        + seq![c.duplex]
}

/// The layout has a fixed length and each field sits at its offset.
pub proof fn lemma_config_layout(c: NetConfig)
    ensures
        config_bytes(c).len() == CONFIG_SPACE_LEN,
        config_bytes(c).subrange(0, 6) == c.mac@,
        config_bytes(c).subrange(6, 8) == le16(c.status),
        config_bytes(c).subrange(8, 10) == le16(c.max_virtqueue_pairs),
        config_bytes(c).subrange(10, 12) == le16(c.mtu),
        config_bytes(c).subrange(12, 16) == le32(c.speed),
        config_bytes(c)[16] == c.duplex,
{
    let b = config_bytes(c);
    assert(c.mac@.len() == 6);
    assert(b.subrange(0, 6) =~= c.mac@);
    assert(b.subrange(6, 8) =~= le16(c.status));
    assert(b.subrange(8, 10) =~= le16(c.max_virtqueue_pairs));
    assert(b.subrange(10, 12) =~= le16(c.mtu));
    assert(b.subrange(12, 16) =~= le32(c.speed));
}

/// Serialises `config` into the bytes the driver reads.
pub fn config_vec(config: &NetConfig) -> (out: Vec<u8>)
    ensures
        out@ == config_bytes(*config),
        out.len() == CONFIG_SPACE_LEN,
{
    let mut out: Vec<u8> = Vec::new();
    let mut i: usize = 0;
    while i < 6
        invariant
            i <= 6,
            out@ == config.mac@.subrange(0, i as int),
        decreases 6 - i,
    {
        out.push(config.mac[i]);
        i = i + 1;
        assert(out@ =~= config.mac@.subrange(0, i as int));
    }
    assert(out@ =~= config.mac@);
    push_le16(&mut out, config.status);
    push_le16(&mut out, config.max_virtqueue_pairs);
    push_le16(&mut out, config.mtu);
    push_le32(&mut out, config.speed);
    out.push(config.duplex);
    assert(out@ =~= config_bytes(*config));
    out
}

} // verus!
