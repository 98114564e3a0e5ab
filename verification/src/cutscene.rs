//! Cutscenes: slides shown one after the other, each for its time.

use vstd::prelude::*;

verus! {

/// What a frame of a cutscene does.
#[derive(Clone, Copy, PartialEq, Eq, Structural, Debug)]
pub enum SlideStep {
    /// The current slide stays up.
    Stay,
    /// The slide with this number comes up, its timer from zero.
    Next(i32),
    /// The last slide is over: the cutscene closes.
    Finished,
}

/// The step of a cutscene showing slide `cur_slide_no` of `slide_count`,
/// where `slide_over` tells whether the slide's time has run out.
pub fn advance_slide(cur_slide_no: i32, slide_count: usize, slide_over: bool) -> (r: SlideStep)
    requires
        0 <= cur_slide_no < slide_count,
        slide_count <= i32::MAX,
    ensures
        !slide_over ==> r == SlideStep::Stay,
        slide_over && cur_slide_no < slide_count - 1 ==> r == SlideStep::Next((cur_slide_no + 1) as i32),
        slide_over && cur_slide_no == slide_count - 1 ==> r == SlideStep::Finished,
{
    if slide_over {
        if cur_slide_no < slide_count as i32 - 1 {
            SlideStep::Next(cur_slide_no + 1)
        } else {
            SlideStep::Finished
        }
    } else {
        SlideStep::Stay
    }
}

} // verus!
