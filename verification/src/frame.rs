//! One pass of the display loop, without the display: what happens to the
//! universe and to the frame between two transfers to the screen.
use vstd::prelude::*;
use crate::render::{render_into, rendered, ScreenImage};
use crate::touch::{apply_touch, touched, TouchSample};
use crate::universe::Universe;

verus! {

/// The generation that is shown after the touch screen was polled: the one
/// before, with the cells under the touch flipped if there was a touch.
pub open spec fn after_poll(g: Seq<bool>, touch: Option<TouchSample>) -> Seq<bool> {
    match touch {
        Some(sample) => touched(g, sample),
        None => g,
    }
}

/// Apply what the touch screen reported, if anything, and draw the frame to
/// send to the display.  Once it is sent, `Universe::iterate` moves on to the
/// next generation.
pub fn prepare_frame(universe: &mut Universe, touch: Option<TouchSample>, image: &mut ScreenImage)
    ensures
        final(universe)@ == after_poll(old(universe)@, touch),
        final(universe).current_buffer() == old(universe).current_buffer(),
        final(image)@ == rendered(final(universe)@),
{
    if let Some(ev) = touch {
        apply_touch(universe, ev);
    }
    render_into(universe, image);
}

} // verus!
