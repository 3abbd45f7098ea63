//! The user-tunable shader parameter block and its uniform-buffer byte layout.

use vstd::prelude::*;

verus! {

/// IEEE 754 single-precision bit pattern of the default `noise_snap` value
/// (the quantization step applied to the displacement-driving noise signal).
pub const DEFAULT_NOISE_SNAP_BITS: u32 = 0x3E4C_CCCD;

/// IEEE 754 single-precision bit pattern of the default `noise_scale` value
/// (the displacement intensity multiplier).
pub const DEFAULT_NOISE_SCALE_BITS: u32 = 0x3CF5_C28F;

/// Number of bytes the block occupies in the shader-side uniform buffer:
/// four 32-bit fields, a multiple of the 16-byte uniform alignment.
pub const BLOCK_BYTE_SIZE: usize = 16;

/// The user-tunable shader parameters, laid out exactly as the shader-side
/// uniform declaration expects them: two meaningful fields followed by two
/// padding fields whose only purpose is to round the byte size up to the
/// 16-byte uniform-buffer alignment.
///
/// Each field holds the IEEE 754 single-precision bit pattern of the value the
/// shader will see. The core never computes with the numbers: it stores,
/// copies, compares and serializes them, so each travels through the pipeline
/// as an opaque 32-bit pattern. No range validation is performed; any pattern
/// is legal and merely produces visually degenerate output when out of range.
///
/// Field order is stable: reordering would break the binary layout contract
/// with the shader.
#[derive(Clone, Copy, Debug, PartialEq, Eq, Structural)]
pub struct ParameterBlock {
    /// Quantization step for the noise signal (bit pattern).
    pub noise_snap: u32,
    /// Displacement intensity multiplier (bit pattern).
    pub noise_scale: u32,
    /// Alignment padding; zero in every block the library hands out. Never
    /// exposed to the editor.
    pub padding1: u32,
    /// Alignment padding; zero in every block the library hands out. Never
    /// exposed to the editor.
    pub padding2: u32,
}

impl ParameterBlock {
    /// The padding fields carry no meaning and must be zero.
    pub open spec fn padding_clear(self) -> bool {
        self.padding1 == 0 && self.padding2 == 0
    }

    /// The same block with its padding forced to zero; the meaningful fields
    /// are kept as they are.
    pub open spec fn sanitized(self) -> ParameterBlock {
        ParameterBlock {
            noise_snap: self.noise_snap,
            noise_scale: self.noise_scale,
            padding1: 0,
            padding2: 0,
        }
    }

    /// The block with the default tuning values and clear padding.
    pub open spec fn spec_default() -> ParameterBlock {
        ParameterBlock {
            noise_snap: DEFAULT_NOISE_SNAP_BITS,
            noise_scale: DEFAULT_NOISE_SCALE_BITS,
            padding1: 0,
            padding2: 0,
        }
    }

    /// The block's uniform-buffer image: each field in declaration order,
    /// little endian.
    pub open spec fn spec_bytes(self) -> Seq<u8> {
        le_bytes_of_u32(self.noise_snap) + le_bytes_of_u32(self.noise_scale)
            + le_bytes_of_u32(self.padding1) + le_bytes_of_u32(self.padding2)
    }

    /// Builds a block from the two tuning values, with clear padding.
    pub fn new(noise_snap: u32, noise_scale: u32) -> (r: ParameterBlock)
        ensures
            r.noise_snap == noise_snap,
            r.noise_scale == noise_scale,
            r.padding_clear(),
    {
        ParameterBlock { noise_snap, noise_scale, padding1: 0, padding2: 0 }
    }

    /// Serializes the block for the uniform buffer. The image is exactly
    /// [`BLOCK_BYTE_SIZE`] (16) bytes long, for any field values.
    pub fn to_bytes(&self) -> (r: Vec<u8>)
        ensures
            r@ == self.spec_bytes(),
            r@.len() == BLOCK_BYTE_SIZE,
    {
        let mut r: Vec<u8> = Vec::new();
        push_le_bytes(&mut r, self.noise_snap);
        push_le_bytes(&mut r, self.noise_scale);
        push_le_bytes(&mut r, self.padding1);
        push_le_bytes(&mut r, self.padding2);
        proof {
            assert(r@ =~= self.spec_bytes());
        }
        r
    }
}

impl Default for ParameterBlock {
    /// The process-start value of the parameters.
    fn default() -> (r: ParameterBlock)
        ensures
            r == ParameterBlock::spec_default(),
    {
        ParameterBlock {
            noise_snap: DEFAULT_NOISE_SNAP_BITS,
            noise_scale: DEFAULT_NOISE_SCALE_BITS,
            padding1: 0,
            padding2: 0,
        }
    }
}

/// The four bytes of a 32-bit value, least significant first.
pub open spec fn le_bytes_of_u32(x: u32) -> Seq<u8> {
    seq![
        (x % 256) as u8,
        ((x / 256) % 256) as u8,
        ((x / 65536) % 256) as u8,
        ((x / 16777216) % 256) as u8,
    ]
}

/// Appends the little-endian bytes of `x` to `out`.
fn push_le_bytes(out: &mut Vec<u8>, x: u32)
    ensures
        final(out)@ == old(out)@ + le_bytes_of_u32(x),
{
    out.push((x % 256) as u8);
    out.push(((x / 256) % 256) as u8);
    out.push(((x / 65536) % 256) as u8);
    out.push(((x / 16777216) % 256) as u8);
    proof {
        assert(out@ =~= old(out)@ + le_bytes_of_u32(x));
    }
}

} // verus!
