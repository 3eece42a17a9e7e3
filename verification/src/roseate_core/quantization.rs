//! Bringing pixels of a higher bit depth down to 8 bits.
use vstd::prelude::*;

verus! {

/// Squishes 16-bit pixel channels to 8 bits by keeping each channel's high byte.
pub fn squish_u16_pixels_to_u8(pixels: &[u16]) -> (squished: Vec<u8>)
    ensures
        squished@.len() == pixels@.len(),
        forall|i: int| 0 <= i < pixels@.len() ==> squished@[i] as int == pixels@[i] as int / 256,
{
    let mut squished: Vec<u8> = Vec::with_capacity(pixels.len());
    let mut index: usize = 0;
    while index < pixels.len()
        invariant
            index <= pixels@.len(),
            squished@.len() == index,
            forall|i: int| 0 <= i < index ==> squished@[i] as int == pixels@[i] as int / 256,
        decreases pixels@.len() - index,
    {
        let pixel = pixels[index];
        assert((pixel >> 8u16) < 256u16 && (pixel >> 8u16) as int == pixel as int / 256) by (bit_vector);
        squished.push((pixel >> 8u16) as u8);
        index = index + 1;
    }
    squished
}

} // verus!
