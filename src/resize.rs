use vstd::prelude::*;

verus! {

/// The quad's side length when the window opens, in pixels.
pub const START_SCALE: u32 = 1080;

/// A window resize, with the new size in pixels.
#[derive(Clone, Copy, Debug, PartialEq, Eq, Structural)]
pub struct WindowResized {
    pub width: u32,
    pub height: u32,
}

/// The quad's scale after the events: the last event's height, or the scale
/// unchanged when there is none.
pub open spec fn resized_scale(scale: u32, events: Seq<WindowResized>) -> u32 {
    if events.len() == 0 {
        scale
    } else {
        events.last().height
    }
}

/// Applies the frame's resize events in order to the quad's scale.
pub fn on_resize(scale: &mut u32, events: &Vec<WindowResized>)
    ensures
        *final(scale) == resized_scale(*old(scale), events@),
{
    let mut i: usize = 0;
    while i < events.len()
        invariant
            0 <= i <= events@.len(),
            *scale == resized_scale(*old(scale), events@.take(i as int)),
        decreases events@.len() - i,
    {
        *scale = events[i].height;
        i = i + 1;
    }
    assert(events@.take(events@.len() as int) == events@);
}

} // verus!
