//! The primitive-type showcase: the integer, boolean and character
//! values on display, together with the byte size of each type.

use vstd::prelude::*;

verus! {

/// What the primitive-type showcase displays: each value and the byte
/// size of its type. The boolean is shown twice, once before and once
/// after being toggled through a mutable binding.
pub struct PrimitiveShowcase {
    pub byte_value: u8,
    pub byte_size: usize,
    pub boolean_first: bool,
    pub boolean_second: bool,
    pub boolean_size: usize,
    pub character: char,
    pub character_size: usize,
}

/// Produces the showcase: the largest 8-bit value in one byte, a
/// boolean toggled from `true` to `false` in one byte, and a character
/// in four bytes.
pub fn primitive_showcase() -> (shown: PrimitiveShowcase)
    ensures
        shown.byte_value == 255,
        shown.byte_size == 1,
        shown.boolean_first == true,
        shown.boolean_second == false,
        shown.boolean_size == 1,
        shown.character == 'V',
        shown.character_size == 4,
{
    broadcast use vstd::layout::layout_of_primitives;

    let var: u8 = 255;
    let boolean_first: bool = true;
    let mut boolean: bool = boolean_first;
    boolean = false;
    let character: char = 'V';
    PrimitiveShowcase {
        byte_value: var,
        byte_size: core::mem::size_of::<u8>(),
        boolean_first,
        boolean_second: boolean,
        boolean_size: core::mem::size_of::<bool>(),
        character,
        character_size: core::mem::size_of::<char>(),
    }
}

} // verus!
