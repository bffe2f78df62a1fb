//! Button-to-pad routing: the last four hardware buttons double as
//! sample-pad triggers.

use vstd::prelude::*;

verus! {

/// The pad a pressed button fires, if any: buttons past index eight map
/// to pads starting at zero.
pub fn pad_index(button_id: usize) -> (pad: Option<usize>)
    ensures
        button_id > 8 ==> pad == Some((button_id - 9) as usize),
        button_id <= 8 ==> pad is None,
{
    if button_id > 8 {
        Some(button_id - 9)
    } else {
        None
    }
}

} // verus!
