//! CSD decoder: parses the 16-byte Card-Specific Data register into card
//! geometry, branching on the register's structure version.
use vstd::prelude::*;

verus! {

/// Total count of addressable blocks on a card.
pub type NumBlocks = u64;

/// Decoded card geometry: the log2 of the block length and the total block
/// count.
#[derive(Clone, Copy, PartialEq, Eq, Structural, Debug)]
pub struct Csd {
    pub block_size_shift: u8,
    pub num_blocks: NumBlocks,
}

impl Csd {
    /// Geometry bounds every decoded register satisfies: the block-length
    /// shift fits the 4-bit `READ_BL_LEN` field, and the block count is at
    /// least one and within the range the 22-bit high-capacity size field
    /// can express.
    pub open spec fn wf(self) -> bool {
        self.block_size_shift <= 15 && 1 <= self.num_blocks <= 0x1_0000_0000
    }

    pub fn num_blocks(&self) -> (r: NumBlocks)
        ensures
            r == self.num_blocks,
    {
        self.num_blocks
    }

    pub fn block_size_shift(&self) -> (r: u8)
        ensures
            r == self.block_size_shift,
    {
        self.block_size_shift
    }
}

/// The CSD structure version: the top two bits of the register.
pub open spec fn spec_csd_version(raw: Seq<u8>) -> u8 {
    raw[0] >> 6
}

/// Version 1.0 `READ_BL_LEN` field, bits 83:80 of the register.
pub open spec fn spec_v1_read_bl_len(raw: Seq<u8>) -> u8 {
    raw[5] & 0x0F
}

/// Version 1.0 `C_SIZE` field, the 12 bits 73:62 of the register.
pub open spec fn spec_v1_c_size(raw: Seq<u8>) -> u32 {
    (((raw[6] as u32) & 0x03) << 10) | ((raw[7] as u32) << 2) | ((raw[8] as u32) >> 6)
}

/// Version 1.0 `C_SIZE_MULT` field, the 3 bits 49:47 of the register.
pub open spec fn spec_v1_c_size_mult(raw: Seq<u8>) -> u32 {
    (((raw[9] as u32) & 0x03) << 1) | ((raw[10] as u32) >> 7)
}

/// Version 1.0 block count per the documented CSD formula:
/// `(C_SIZE + 1) * 2^(C_SIZE_MULT + 2)`.
pub open spec fn spec_v1_num_blocks(raw: Seq<u8>) -> u64 {
    (((spec_v1_c_size(raw) as u64) + 1) as u64) << ((spec_v1_c_size_mult(raw) + 2) as u32)
}

/// Version 2.0 `C_SIZE` field, the 22 bits 69:48 of the register.
pub open spec fn spec_v2_c_size(raw: Seq<u8>) -> u32 {
    (((raw[7] as u32) & 0x3F) << 16) | ((raw[8] as u32) << 8) | (raw[9] as u32)
}

/// Version 2.0 block count: `(C_SIZE + 1) * 1024` blocks of 512 bytes.
pub open spec fn spec_v2_num_blocks(raw: Seq<u8>) -> u64 {
    (((spec_v2_c_size(raw) as u64) + 1) as u64) << 10u32
}

/// The geometry a 16-byte CSD register decodes to: the version 1.0 fields
/// and formula for structure version 0, the simplified high-capacity size
/// field with a fixed 512-byte block for version 1, and no geometry at all
/// for an unrecognized version.
pub open spec fn spec_decode_csd(raw: Seq<u8>) -> Option<Csd> {
    if spec_csd_version(raw) == 0 {
        Some(
            Csd {
                block_size_shift: spec_v1_read_bl_len(raw),
                num_blocks: spec_v1_num_blocks(raw),
            },
        )
    } else if spec_csd_version(raw) == 1 {
        Some(Csd { block_size_shift: 9, num_blocks: spec_v2_num_blocks(raw) })
    } else {
        None
    }
}

impl Csd {
    /// Decodes the raw CSD register. Returns `None` exactly when the
    /// structure version is unrecognized; a recognized register always
    /// yields well-formed geometry, never a silently wrong one.
    pub fn decode(raw: &[u8; 16]) -> (r: Option<Csd>)
        ensures
            r == spec_decode_csd(raw@),
            r is Some <==> spec_csd_version(raw@) <= 1,
            r matches Some(csd) ==> csd.wf(),
    {
        let b0 = raw[0];
        let version = b0 >> 6u8;
        assert(version <= 3) by (bit_vector)
            requires
                version == b0 >> 6u8,
        ;
        if version == 0 {
            let b5 = raw[5];
            let b6 = raw[6];
            let b7 = raw[7];
            let b8 = raw[8];
            let b9 = raw[9];
            let b10 = raw[10];
            let read_bl_len: u8 = b5 & 0x0F;
            let c_size: u32 = (((b6 as u32) & 0x03) << 10u32) | ((b7 as u32) << 2u32) | ((
            b8 as u32) >> 6u32);
            let c_size_mult: u32 = (((b9 as u32) & 0x03) << 1u32) | ((b10 as u32) >> 7u32);
            assert(read_bl_len <= 15 && c_size <= 4095 && c_size_mult <= 7) by (bit_vector)
                requires
                    read_bl_len == b5 & 0x0F,
                    c_size == (((b6 as u32) & 0x03) << 10u32) | ((b7 as u32) << 2u32) | ((
                    b8 as u32) >> 6u32),
                    c_size_mult == (((b9 as u32) & 0x03) << 1u32) | ((b10 as u32) >> 7u32),
            ;
            let num_blocks: u64 = ((c_size as u64) + 1) << (c_size_mult + 2u32);
            assert(1 <= num_blocks <= 0x1_0000_0000) by (bit_vector)
                requires
                    num_blocks == (((c_size as u64) + 1) as u64) << ((c_size_mult + 2) as u32),
                    c_size <= 4095,
                    c_size_mult <= 7,
            ;
            Some(Csd { block_size_shift: read_bl_len, num_blocks })
        } else if version == 1 {
            let b7 = raw[7];
            let b8 = raw[8];
            let b9 = raw[9];
            let c_size: u32 = (((b7 as u32) & 0x3F) << 16u32) | ((b8 as u32) << 8u32) | (
            b9 as u32);
            assert(c_size <= 0x3F_FFFF) by (bit_vector)
                requires
                    c_size == (((b7 as u32) & 0x3F) << 16u32) | ((b8 as u32) << 8u32) | (
                    b9 as u32),
            ;
            let num_blocks: u64 = ((c_size as u64) + 1) << 10u32;
            assert(1 <= num_blocks <= 0x1_0000_0000) by (bit_vector)
                requires
                    num_blocks == (((c_size as u64) + 1) as u64) << 10u32,
                    c_size <= 0x3F_FFFF,
            ;
            Some(Csd { block_size_shift: 9, num_blocks })
        } else {
            None
        }
    }
}

/// CSD decoding is a pure function of the register bytes: two decodings of
/// the same 16-byte register always yield identical geometry.
pub proof fn lemma_csd_decode_idempotent(raw: Seq<u8>, first: Option<Csd>, second: Option<Csd>)
    requires
        first == spec_decode_csd(raw),
        second == spec_decode_csd(raw),
    ensures
        first == second,
{
}

} // verus!
