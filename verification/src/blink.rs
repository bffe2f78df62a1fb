//! The beat display: which image the LED matrix shows for a beat, and
//! how an image is split into the bytes a shift register takes.

use vstd::prelude::*;

verus! {

/// Bit order when shifting a byte out to the register chain.
#[derive(Clone, Copy, PartialEq, Eq, Structural)]
pub enum BitOrder {
    LSBFirst,
    MSBFirst,
}

/// The glyph cycle: one 8x8 bitmap per digit, indexed by the whole beat
/// modulo ten.
pub open spec fn spec_beat_image(beat: u32) -> u64 {
    let d = beat % 10;
    if d == 0 {
        0x3c66666e76663c00u64
    } else if d == 1 {
        0x7e1818181c181800u64
    } else if d == 2 {
        0x7e060c3060663c00u64
    } else if d == 3 {
        0x3c66603860663c00u64
    } else if d == 4 {
        0x30307e3234383000u64
    } else if d == 5 {
        0x3c6660603e067e00u64
    } else if d == 6 {
        0x3c66663e06663c00u64
    } else if d == 7 {
        0x1818183030667e00u64
    } else if d == 8 {
        0x3c66663c66663c00u64
    } else {
        0x3c66607c66663c00u64
    }
}

/// The bitmap the display shows while the transport is at `beat`.
pub fn beat_image(beat: u32) -> (img: u64)
    ensures
        img == spec_beat_image(beat),
{
    let d = beat % 10;
    if d == 0 {
        0x3c66666e76663c00
    } else if d == 1 {
        0x7e1818181c181800
    } else if d == 2 {
        0x7e060c3060663c00
    } else if d == 3 {
        0x3c66603860663c00
    } else if d == 4 {
        0x30307e3234383000
    } else if d == 5 {
        0x3c6660603e067e00
    } else if d == 6 {
        0x3c66663e06663c00
    } else if d == 7 {
        0x1818183030667e00
    } else if d == 8 {
        0x3c66663c66663c00
    } else {
        0x3c66607c66663c00
    }
}

/// The whole beat a published millibeat stands for.
pub fn beat_of_millibeat(millibeat: u32) -> (beat: u32)
    ensures
        beat == millibeat / 1000,
{
    millibeat / 1000
}

/// Row `row` of an 8x8 image, as the byte the register chain takes.
pub fn image_row_byte(image: u64, row: u32) -> (b: u8)
    requires
        row < 8,
    ensures
        b == (image >> (row * 8)) as u8,
{
    (image >> (row * 8)) as u8
}

/// The row-select byte latched with a row: all lines high but the row's.
pub fn row_select_byte(row: u32) -> (b: u8)
    requires
        row < 8,
    ensures
        b == !((1u8 << row) as u8),
{
    !(1u8 << row)
}

/// Which level the data line takes for bit `i` of `data` in the given
/// order; mirrors the shifting loop of the register driver.
pub fn shift_bit(order: BitOrder, data: u8, i: u32) -> (high: bool)
    requires
        i < 8,
    ensures
        order == BitOrder::MSBFirst ==> high == (data & (1u8 << i) != 0),
        order == BitOrder::LSBFirst ==> high == (data & (1u8 << (7 - i)) != 0),
    {
    if order == BitOrder::MSBFirst {
        data & (1u8 << i) != 0
    } else {
        data & (1u8 << (7 - i)) != 0
    }
}

} // verus!
