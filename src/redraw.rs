use vstd::prelude::*;

use crate::event::EventResult;

verus! {

/// The shell's frame bookkeeping: whether a redraw was asked for, and
/// whether a frame was drawn whose validation scope is still open.
#[derive(Clone, Copy, Debug, PartialEq, Eq, Structural)]
pub struct RedrawFlags {
    pub is_redraw_requested: bool,
    pub is_redrawing: bool,
}

impl RedrawFlags {
    /// The first frame is drawn without being asked for.
    pub fn new() -> (r: RedrawFlags)
        ensures
            r.is_redraw_requested,
            !r.is_redrawing,
    {
        RedrawFlags { is_redraw_requested: true, is_redrawing: false }
    }

    /// The window asked for a redraw.
    pub fn request_redraw(&mut self)
        ensures
            final(self).is_redraw_requested,
            final(self).is_redrawing == old(self).is_redrawing,
    {
        self.is_redraw_requested = true;
    }

    /// Applies what the view answered; returns whether the shell exits. An
    /// exit drops a pending redraw.
    pub fn process_event_result(&mut self, result: EventResult) -> (exit: bool)
        ensures
            exit == (result == EventResult::Exit),
            final(self).is_redrawing == old(self).is_redrawing,
            final(self).is_redraw_requested == match result {
                EventResult::Continue => old(self).is_redraw_requested,
                EventResult::Redraw => true,
                EventResult::Exit => false,
            },
    {
        match result {
            EventResult::Continue => false,
            EventResult::Redraw => {
                self.is_redraw_requested = true;
                false
            },
            EventResult::Exit => {
                self.is_redraw_requested = false;
                true
            },
        }
    }

    /// Whether to draw a frame now: only when one was asked for. Drawing
    /// consumes the request and opens the frame.
    pub fn begin_redraw(&mut self) -> (draw: bool)
        ensures
            draw == old(self).is_redraw_requested,
            draw ==> !final(self).is_redraw_requested && final(self).is_redrawing,
            !draw ==> *final(self) == *old(self),
    {
        if !self.is_redraw_requested {
            return false;
        }
        self.is_redraw_requested = false;
        self.is_redrawing = true;
        true
    }

    /// Whether a drawn frame is to be closed now (its validation scope
    /// checked, the view told that the redraw finished); closes it.
    pub fn finish_redraw(&mut self) -> (finished: bool)
        ensures
            finished == old(self).is_redrawing,
            !final(self).is_redrawing,
            final(self).is_redraw_requested == old(self).is_redraw_requested,
    {
        let finished = self.is_redrawing;
        self.is_redrawing = false;
        finished
    }
}

} // verus!
