//! Text shown in the header while the weather is still unknown.

use vstd::prelude::*;

verus! {

/// The dots of the loading indicator at an animation step: none, one, two
/// or three, repeating every four steps.
pub open spec fn loading_dots(frame: nat) -> Seq<char> {
    if frame % 4 == 1 {
        "."@
    } else if frame % 4 == 2 {
        ".."@
    } else if frame % 4 == 3 {
        "..."@
    } else {
        ""@
    }
}

/// The loading indicator for an animation step.
pub fn get_loading_animation(frame: usize) -> (r: &'static str)
    ensures
        r@ == loading_dots(frame as nat),
{
    match frame % 4 {
        1 => ".",
        2 => "..",
        3 => "...",
        _ => "",
    }
}

} // verus!
