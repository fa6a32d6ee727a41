use vstd::prelude::*;

verus! {

/// How a texture is sampled when it is drawn at a size other than its own.
#[derive(Clone, Copy, Debug, PartialEq, Eq, Structural)]
pub enum TextureFilter {
    Nearest,
    Linear,
    MipMap,
}

/// One vertex-attribute binding: which attribute slot reads from which
/// vertex buffer, and how the vertex data is laid out inside that buffer.
#[derive(Clone, Copy, Debug, PartialEq, Eq, Structural)]
pub struct Binding {
    pub attribute: u32,
    pub buffer: u32,
    pub offset: usize,
    pub stride: usize,
    pub instanced: bool,
}

/// Fixed-function state and the vertex layout that a pipeline is built with.
#[derive(Clone, Copy)]
pub struct PipelineDesc<'a> {
    pub depth_test: bool,
    pub depth_write: bool,
    pub alpha_blend: bool,
    pub bindings: &'a [Binding],
}

/// A clear color, each channel carried as the IEEE 754 bit pattern of the
/// wanted f32 value, so that the backends can hand it on untouched.
#[derive(Clone, Copy, Debug, PartialEq, Eq, Structural)]
pub struct ClearColor {
    pub red_bits: u32,
    pub green_bits: u32,
    pub blue_bits: u32,
    pub alpha_bits: u32,
}

/// A value with a single bit set is a power of two.
pub open spec fn single_bit(value: u32) -> bool {
    value & ((value - 1) as u32) == 0
}

/// Reports whether `value` is a power of two, by checking that the bit found
/// by `leading_zeros` accounts for the whole value.
pub fn is_power_of_2(value: u32) -> (r: bool)
    requires
        value >= 1,
    ensures
        r <==> single_bit(value),
        r <==> exists|k: u32| k < 32 && value == (1u32 << k),
{
    proof {
        vstd::std_specs::bits::axiom_u32_leading_zeros(value);
    }
    let shift: u32 = 31 - value.leading_zeros();
    let r = value == (1u32 << shift);
    proof {
        let lz = vstd::std_specs::bits::u32_leading_zeros(value);
        assert((value == 1u32 << (31 - lz) as u32 <==> value & ((value - 1) as u32) == 0)
            && (value & ((value - 1) as u32) != 0 ==> forall|k: u32|
            k < 32 ==> value != (1u32 << k))) by (bit_vector)
            requires
                lz < 32,
                (value >> (31 - lz) as u32) & 1u32 != 0u32,
                value >> (32 - lz) as u32 == 0u32,
        ;
    }
    r
}

} // verus!
