//! How the radius pass turns webcam pixels into sampling radii.
use vstd::prelude::*;
use crate::bytes::{cast_words_to_bytes, is_native_encoding};

verus! {

/// Which feature of a webcam pixel sets the sampling radius there.
#[derive(Clone, Copy, Debug, PartialEq, Eq, Structural)]
pub enum RadiusMode {
    Highlight,
    Shade,
    Red,
    Green,
    Blue,
}

/// The number by which the shader knows each mode: its position in the list.
pub open spec fn mode_code(mode: RadiusMode) -> u32 {
    match mode {
        RadiusMode::Highlight => 0,
        RadiusMode::Shade => 1,
        RadiusMode::Red => 2,
        RadiusMode::Green => 3,
        RadiusMode::Blue => 4,
    }
}

impl RadiusMode {
    /// The number by which the shader knows this mode.
    pub fn code(self) -> (c: u32)
        ensures
            c == mode_code(self),
            c < 5,
    {
        match self {
            RadiusMode::Highlight => 0,
            RadiusMode::Shade => 1,
            RadiusMode::Red => 2,
            RadiusMode::Green => 3,
            RadiusMode::Blue => 4,
        }
    }

    /// The initial contents of the mode uniform: the mode's number as one
    /// 32-bit word in the machine's byte order.
    pub fn uniform_contents(self) -> (bytes: Vec<u8>)
        ensures
            bytes@.len() == 4,
            is_native_encoding(seq![mode_code(self)], bytes@),
    {
        let words: Vec<u32> = vec![self.code()];
        let bytes = cast_words_to_bytes(words.as_slice());
        proof {
            assert(words@ =~= seq![mode_code(self)]);
        }
        bytes
    }
}

/// Different modes are told apart by the shader: their numbers differ.
pub proof fn lemma_mode_codes_distinct(a: RadiusMode, b: RadiusMode)
    ensures
        mode_code(a) == mode_code(b) <==> a == b,
{
}

/// The shader knows the modes by their position in the list Highlight,
/// Shade, Red, Green, Blue: the numbers rise along the list and stay below
/// five, so each mode's number is its position.
pub proof fn lemma_mode_codes_follow_list_order()
    ensures
        mode_code(RadiusMode::Highlight) < mode_code(RadiusMode::Shade),
        mode_code(RadiusMode::Shade) < mode_code(RadiusMode::Red),
        mode_code(RadiusMode::Red) < mode_code(RadiusMode::Green),
        mode_code(RadiusMode::Green) < mode_code(RadiusMode::Blue),
        mode_code(RadiusMode::Blue) < 5,
{
}

} // verus!
