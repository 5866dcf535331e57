//! What a buffer may be used for.

use vstd::prelude::*;
use crate::vk;

verus! {

/// The uses that a buffer is created for. They cannot change afterwards.
#[derive(Clone, Copy, Debug, PartialEq, Eq, Structural)]
pub struct BufferUsage {
    pub transfer_source: bool,
    pub transfer_dest: bool,
    pub uniform_texel_buffer: bool,
    pub storage_texel_buffer: bool,
    pub uniform_buffer: bool,
    pub storage_buffer: bool,
    pub index_buffer: bool,
    pub vertex_buffer: bool,
    pub indirect_buffer: bool,
}

/// `bit` where `on`, else no bit.
pub open spec fn bit_if(on: bool, bit: u32) -> u32 {
    if on {
        bit
    } else {
        0
    }
}

impl BufferUsage {
    /// The native flags: one bit for each use that is wanted.
    pub open spec fn bits(self) -> u32 {
        bit_if(self.transfer_source, vk::BUFFER_USAGE_TRANSFER_SRC_BIT) | bit_if(
            self.transfer_dest,
            vk::BUFFER_USAGE_TRANSFER_DST_BIT,
        ) | bit_if(self.uniform_texel_buffer, vk::BUFFER_USAGE_UNIFORM_TEXEL_BUFFER_BIT) | bit_if(
            self.storage_texel_buffer,
            vk::BUFFER_USAGE_STORAGE_TEXEL_BUFFER_BIT,
        ) | bit_if(self.uniform_buffer, vk::BUFFER_USAGE_UNIFORM_BUFFER_BIT) | bit_if(
            self.storage_buffer,
            vk::BUFFER_USAGE_STORAGE_BUFFER_BIT,
        ) | bit_if(self.index_buffer, vk::BUFFER_USAGE_INDEX_BUFFER_BIT) | bit_if(
            self.vertex_buffer,
            vk::BUFFER_USAGE_VERTEX_BUFFER_BIT,
        ) | bit_if(self.indirect_buffer, vk::BUFFER_USAGE_INDIRECT_BUFFER_BIT)
    }

    /// The uses that native flags stand for.
    pub open spec fn of_bits(bits: u32) -> BufferUsage {
        BufferUsage {
            transfer_source: bits & vk::BUFFER_USAGE_TRANSFER_SRC_BIT != 0,
            transfer_dest: bits & vk::BUFFER_USAGE_TRANSFER_DST_BIT != 0,
            uniform_texel_buffer: bits & vk::BUFFER_USAGE_UNIFORM_TEXEL_BUFFER_BIT != 0,
            storage_texel_buffer: bits & vk::BUFFER_USAGE_STORAGE_TEXEL_BUFFER_BIT != 0,
            uniform_buffer: bits & vk::BUFFER_USAGE_UNIFORM_BUFFER_BIT != 0,
            storage_buffer: bits & vk::BUFFER_USAGE_STORAGE_BUFFER_BIT != 0,
            index_buffer: bits & vk::BUFFER_USAGE_INDEX_BUFFER_BIT != 0,
            vertex_buffer: bits & vk::BUFFER_USAGE_VERTEX_BUFFER_BIT != 0,
            indirect_buffer: bits & vk::BUFFER_USAGE_INDIRECT_BUFFER_BIT != 0,
        }
    }

    /// The native flags say exactly which uses are wanted: reading them back
    /// gives the same uses.
    pub proof fn lemma_bits_round_trip(self)
        ensures
            Self::of_bits(self.bits()) == self,
            self.bits() & !0x1ffu32 == 0,
    {
        let a = bit_if(self.transfer_source, vk::BUFFER_USAGE_TRANSFER_SRC_BIT);
        let b = bit_if(self.transfer_dest, vk::BUFFER_USAGE_TRANSFER_DST_BIT);
        let c = bit_if(self.uniform_texel_buffer, vk::BUFFER_USAGE_UNIFORM_TEXEL_BUFFER_BIT);
        let d = bit_if(self.storage_texel_buffer, vk::BUFFER_USAGE_STORAGE_TEXEL_BUFFER_BIT);
        let e = bit_if(self.uniform_buffer, vk::BUFFER_USAGE_UNIFORM_BUFFER_BIT);
        let f = bit_if(self.storage_buffer, vk::BUFFER_USAGE_STORAGE_BUFFER_BIT);
        let g = bit_if(self.index_buffer, vk::BUFFER_USAGE_INDEX_BUFFER_BIT);
        let h = bit_if(self.vertex_buffer, vk::BUFFER_USAGE_VERTEX_BUFFER_BIT);
        let i = bit_if(self.indirect_buffer, vk::BUFFER_USAGE_INDIRECT_BUFFER_BIT);
        let all = a | b | c | d | e | f | g | h | i;
        assert(all == self.bits());
        assert({
            &&& (all & 0x1 != 0) == (a != 0)
            &&& (all & 0x2 != 0) == (b != 0)
            &&& (all & 0x4 != 0) == (c != 0)
            &&& (all & 0x8 != 0) == (d != 0)
            &&& (all & 0x10 != 0) == (e != 0)
            &&& (all & 0x20 != 0) == (f != 0)
            &&& (all & 0x40 != 0) == (g != 0)
            &&& (all & 0x80 != 0) == (h != 0)
            &&& (all & 0x100 != 0) == (i != 0)
            &&& all & !0x1ffu32 == 0
        }) by (bit_vector)
            requires
                all == a | b | c | d | e | f | g | h | i,
                a == 0 || a == 0x1,
                b == 0 || b == 0x2,
                c == 0 || c == 0x4,
                d == 0 || d == 0x8,
                e == 0 || e == 0x10,
                f == 0 || f == 0x20,
                g == 0 || g == 0x40,
                h == 0 || h == 0x80,
                i == 0 || i == 0x100,
        ;
    }

    /// No use at all.
    pub fn none() -> (u: BufferUsage)
        ensures
            u == (BufferUsage {
                transfer_source: false,
                transfer_dest: false,
                uniform_texel_buffer: false,
                storage_texel_buffer: false,
                uniform_buffer: false,
                storage_buffer: false,
                index_buffer: false,
                vertex_buffer: false,
                indirect_buffer: false,
            }),
    {
        BufferUsage {
            transfer_source: false,
            transfer_dest: false,
            uniform_texel_buffer: false,
            storage_texel_buffer: false,
            uniform_buffer: false,
            storage_buffer: false,
            index_buffer: false,
            vertex_buffer: false,
            indirect_buffer: false,
        }
    }

    /// Every use.
    pub fn all() -> (u: BufferUsage)
        ensures
            u == (BufferUsage {
                transfer_source: true,
                transfer_dest: true,
                uniform_texel_buffer: true,
                storage_texel_buffer: true,
                uniform_buffer: true,
                storage_buffer: true,
                index_buffer: true,
                vertex_buffer: true,
                indirect_buffer: true,
            }),
    {
        BufferUsage {
            transfer_source: true,
            transfer_dest: true,
            uniform_texel_buffer: true,
            storage_texel_buffer: true,
            uniform_buffer: true,
            storage_buffer: true,
            index_buffer: true,
            vertex_buffer: true,
            indirect_buffer: true,
        }
    }

    /// Use as a source of indices, and nothing else.
    pub fn index_buffer() -> (u: BufferUsage)
        ensures
            u == (BufferUsage { index_buffer: true, ..Self::none_spec() }),
    {
        BufferUsage { index_buffer: true, ..BufferUsage::none() }
    }

    /// Use as a source of vertices, and nothing else.
    pub fn vertex_buffer() -> (u: BufferUsage)
        ensures
            u == (BufferUsage { vertex_buffer: true, ..Self::none_spec() }),
    {
        BufferUsage { vertex_buffer: true, ..BufferUsage::none() }
    }

    /// No use at all.
    pub open spec fn none_spec() -> BufferUsage {
        BufferUsage {
            transfer_source: false,
            transfer_dest: false,
            uniform_texel_buffer: false,
            storage_texel_buffer: false,
            uniform_buffer: false,
            storage_buffer: false,
            index_buffer: false,
            vertex_buffer: false,
            indirect_buffer: false,
        }
    }
}

/// The native flags for `usage`: one bit for each use that is wanted, and no
/// other bit.
pub fn usage_to_bits(usage: BufferUsage) -> (bits: u32)
    ensures
        bits == usage.bits(),
        BufferUsage::of_bits(bits) == usage,
        bits & !0x1ffu32 == 0,
{
    let mut result: u32 = 0;
    if usage.transfer_source {
        result |= vk::BUFFER_USAGE_TRANSFER_SRC_BIT;
    }
    if usage.transfer_dest {
        result |= vk::BUFFER_USAGE_TRANSFER_DST_BIT;
    }
    if usage.uniform_texel_buffer {
        result |= vk::BUFFER_USAGE_UNIFORM_TEXEL_BUFFER_BIT;
    }
    if usage.storage_texel_buffer {
        result |= vk::BUFFER_USAGE_STORAGE_TEXEL_BUFFER_BIT;
    }
    if usage.uniform_buffer {
        result |= vk::BUFFER_USAGE_UNIFORM_BUFFER_BIT;
    }
    if usage.storage_buffer {
        result |= vk::BUFFER_USAGE_STORAGE_BUFFER_BIT;
    }
    if usage.index_buffer {
        result |= vk::BUFFER_USAGE_INDEX_BUFFER_BIT;
    }
    if usage.vertex_buffer {
        result |= vk::BUFFER_USAGE_VERTEX_BUFFER_BIT;
    }
    if usage.indirect_buffer {
        result |= vk::BUFFER_USAGE_INDIRECT_BUFFER_BIT;
    }
    proof {
        usage.lemma_bits_round_trip();
        let a = bit_if(usage.transfer_source, vk::BUFFER_USAGE_TRANSFER_SRC_BIT);
        let b = bit_if(usage.transfer_dest, vk::BUFFER_USAGE_TRANSFER_DST_BIT);
        let c = bit_if(usage.uniform_texel_buffer, vk::BUFFER_USAGE_UNIFORM_TEXEL_BUFFER_BIT);
        let d = bit_if(usage.storage_texel_buffer, vk::BUFFER_USAGE_STORAGE_TEXEL_BUFFER_BIT);
        let e = bit_if(usage.uniform_buffer, vk::BUFFER_USAGE_UNIFORM_BUFFER_BIT);
        let f = bit_if(usage.storage_buffer, vk::BUFFER_USAGE_STORAGE_BUFFER_BIT);
        let g = bit_if(usage.index_buffer, vk::BUFFER_USAGE_INDEX_BUFFER_BIT);
        let h = bit_if(usage.vertex_buffer, vk::BUFFER_USAGE_VERTEX_BUFFER_BIT);
        let i = bit_if(usage.indirect_buffer, vk::BUFFER_USAGE_INDIRECT_BUFFER_BIT);
        assert(forall|x: u32| 0u32 | x == x) by (bit_vector);
        assert(forall|x: u32| #[trigger] (x | 0u32) == x) by (bit_vector);
        assert(result == a | b | c | d | e | f | g | h | i);
    }
    result
}

} // verus!
