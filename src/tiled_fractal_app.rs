use vstd::prelude::*;

use crate::event::{ElementState, EventResult, MouseButtons, UserEvent};
use crate::math::UVec2;

verus! {

/// Whether the pointer is dragging the view.
#[derive(Clone, Copy, Debug, PartialEq, Eq, Structural)]
pub enum ManipulateState {
    Idle,
    Drag,
}

/// An input event as the view controller decides on it: the pointer
/// positions, deltas and wheel amounts stay with the caller, who applies
/// them to the viewport when the reaction asks for it.
#[derive(Clone, Copy, Debug, PartialEq, Eq, Structural)]
pub enum ViewInput {
    WindowClose,
    Resized(UVec2),
    RedrawFinished,
    MouseWheel,
    MouseMove,
    MouseButton(MouseButtons, ElementState),
    Custom(UserEvent),
    Unknown,
}

/// The viewport work that follows a decision.
#[derive(Clone, Copy, Debug, PartialEq, Eq, Structural)]
pub enum ViewCommand {
    /// Leave the viewport as it is.
    Nothing,
    /// Scale the viewport about its center by `new_size / old_size`, then
    /// update the tiles.
    Resize { old_size: UVec2, new_size: UVec2 },
    /// Zoom about the pointer by the wheel amount, then update the tiles.
    Zoom,
    /// Move the viewport by the pointer delta, then update the tiles.
    Pan,
}

#[derive(Clone, Copy, Debug, PartialEq, Eq, Structural)]
pub struct ViewReaction {
    pub result: EventResult,
    pub command: ViewCommand,
}

/// The controller state of the fractal view: the window size and whether
/// the pointer drags.
#[derive(Clone, Copy, Debug, PartialEq, Eq, Structural)]
pub struct ViewControl {
    pub window_size: UVec2,
    pub manipulate: ManipulateState,
}

impl ViewControl {
    pub fn new(window_size: UVec2) -> (r: ViewControl)
        ensures
            r.window_size == window_size,
            r.manipulate == ManipulateState::Idle,
    {
        ViewControl { window_size, manipulate: ManipulateState::Idle }
    }

    /// Decides on one input event. A close request exits. A resize to a new
    /// size records it and asks to rescale the viewport and redraw; to the
    /// same size it does nothing. The wheel zooms and redraws. A pointer
    /// move pans and redraws while dragging, and does nothing otherwise.
    /// Pressing the left button starts a drag; any other button event ends
    /// it. Events the view posted to itself ask for a redraw. Anything else
    /// is ignored.
    pub fn react(&mut self, input: ViewInput) -> (r: ViewReaction)
        ensures
            input is WindowClose ==> r == (ViewReaction { result: EventResult::Exit, command: ViewCommand::Nothing })
                && *final(self) == *old(self),
            input matches ViewInput::Resized(size) ==> if size == old(self).window_size {
                r == (ViewReaction { result: EventResult::Continue, command: ViewCommand::Nothing })
                    && *final(self) == *old(self)
            } else {
                r == (ViewReaction {
                    result: EventResult::Redraw,
                    command: ViewCommand::Resize { old_size: old(self).window_size, new_size: size },
                }) && *final(self) == (ViewControl { window_size: size, manipulate: old(self).manipulate })
            },
            input is MouseWheel ==> r == (ViewReaction { result: EventResult::Redraw, command: ViewCommand::Zoom })
                && *final(self) == *old(self),
            input is MouseMove && old(self).manipulate == ManipulateState::Drag ==> r == (ViewReaction {
                result: EventResult::Redraw,
                command: ViewCommand::Pan,
            }) && *final(self) == *old(self),
            input is MouseMove && old(self).manipulate == ManipulateState::Idle ==> r == (ViewReaction {
                result: EventResult::Continue,
                command: ViewCommand::Nothing,
            }) && *final(self) == *old(self),
            input matches ViewInput::MouseButton(btn, state) ==> r == (ViewReaction {
                result: EventResult::Continue,
                command: ViewCommand::Nothing,
            }) && final(self).window_size == old(self).window_size && final(self).manipulate == (if btn
                == MouseButtons::Left && state == ElementState::Pressed {
                ManipulateState::Drag
            } else {
                ManipulateState::Idle
            }),
            input is Custom ==> r == (ViewReaction { result: EventResult::Redraw, command: ViewCommand::Nothing })
                && *final(self) == *old(self),
            input is RedrawFinished || input is Unknown ==> r == (ViewReaction {
                result: EventResult::Continue,
                command: ViewCommand::Nothing,
            }) && *final(self) == *old(self),
    {
        let nothing = ViewCommand::Nothing;
        match input {
            ViewInput::WindowClose => ViewReaction { result: EventResult::Exit, command: nothing },
            ViewInput::Resized(size) => {
                if size == self.window_size {
                    ViewReaction { result: EventResult::Continue, command: nothing }
                } else {
                    let old_size = self.window_size;
                    self.window_size = size;
                    ViewReaction {
                        result: EventResult::Redraw,
                        command: ViewCommand::Resize { old_size, new_size: size },
                    }
                }
            },
            ViewInput::MouseWheel => ViewReaction { result: EventResult::Redraw, command: ViewCommand::Zoom },
            ViewInput::MouseMove => match self.manipulate {
                ManipulateState::Idle => ViewReaction { result: EventResult::Continue, command: nothing },
                ManipulateState::Drag => ViewReaction { result: EventResult::Redraw, command: ViewCommand::Pan },
            },
            ViewInput::MouseButton(btn, state) => {
                self.manipulate = match (btn, state) {
                    (MouseButtons::Left, ElementState::Pressed) => ManipulateState::Drag,
                    _ => ManipulateState::Idle,
                };
                ViewReaction { result: EventResult::Continue, command: nothing }
            },
            ViewInput::Custom(event) => Self::user_event_result(event),
            _ => ViewReaction { result: EventResult::Continue, command: nothing },
        }
    }

    /// Every event the view posts to itself (a redraw request, a finished
    /// tile) asks for a redraw.
    fn user_event_result(event: UserEvent) -> (r: ViewReaction)
        ensures
            r == (ViewReaction { result: EventResult::Redraw, command: ViewCommand::Nothing }),
    {
        match event {
            UserEvent::Redraw => ViewReaction { result: EventResult::Redraw, command: ViewCommand::Nothing },
            UserEvent::TileReady { tile_index: _ } => ViewReaction {
                result: EventResult::Redraw,
                command: ViewCommand::Nothing,
            },
        }
    }
}

} // verus!
