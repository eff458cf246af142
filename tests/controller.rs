use mandel_explorer::event::{ElementState, EventResult, MouseButtons, UserEvent};
use mandel_explorer::math::UVec2;
use mandel_explorer::redraw::RedrawFlags;
use mandel_explorer::tiled_fractal_app::{ManipulateState, ViewCommand, ViewControl, ViewInput};

#[test]
fn wheel_zooms_and_redraws() {
    let mut c = ViewControl::new(UVec2::new(800, 600));
    let r = c.react(ViewInput::MouseWheel);
    assert_eq!(r.result, EventResult::Redraw);
    assert_eq!(r.command, ViewCommand::Zoom);
    assert_eq!(c.manipulate, ManipulateState::Idle);
}

#[test]
fn drag_pans_only_while_pressed() {
    let mut c = ViewControl::new(UVec2::new(800, 600));
    let idle_move = c.react(ViewInput::MouseMove);
    assert_eq!(idle_move.result, EventResult::Continue);
    assert_eq!(idle_move.command, ViewCommand::Nothing);

    let down = c.react(ViewInput::MouseButton(MouseButtons::Left, ElementState::Pressed));
    assert_eq!(down.result, EventResult::Continue);
    assert_eq!(c.manipulate, ManipulateState::Drag);

    let drag = c.react(ViewInput::MouseMove);
    assert_eq!(drag.result, EventResult::Redraw);
    assert_eq!(drag.command, ViewCommand::Pan);

    c.react(ViewInput::MouseButton(MouseButtons::Left, ElementState::Released));
    assert_eq!(c.manipulate, ManipulateState::Idle);
    assert_eq!(c.react(ViewInput::MouseMove).command, ViewCommand::Nothing);
}

#[test]
fn other_button_ends_drag() {
    let mut c = ViewControl::new(UVec2::new(800, 600));
    c.react(ViewInput::MouseButton(MouseButtons::Left, ElementState::Pressed));
    c.react(ViewInput::MouseButton(MouseButtons::Right, ElementState::Pressed));
    assert_eq!(c.manipulate, ManipulateState::Idle);
    c.react(ViewInput::MouseButton(MouseButtons::Other(7), ElementState::Released));
    assert_eq!(c.manipulate, ManipulateState::Idle);
}

#[test]
fn resize_to_one_by_one() {
    let mut c = ViewControl::new(UVec2::new(800, 600));
    let r = c.react(ViewInput::Resized(UVec2::new(1, 1)));
    assert_eq!(r.result, EventResult::Redraw);
    assert_eq!(
        r.command,
        ViewCommand::Resize { old_size: UVec2::new(800, 600), new_size: UVec2::new(1, 1) }
    );
    assert_eq!(c.window_size, UVec2::new(1, 1));
    let same = c.react(ViewInput::Resized(UVec2::new(1, 1)));
    assert_eq!(same.result, EventResult::Continue);
    assert_eq!(same.command, ViewCommand::Nothing);
}

#[test]
fn close_exits_and_posted_events_redraw() {
    let mut c = ViewControl::new(UVec2::new(800, 600));
    assert_eq!(c.react(ViewInput::WindowClose).result, EventResult::Exit);
    assert_eq!(c.react(ViewInput::Custom(UserEvent::TileReady { tile_index: 3 })).result, EventResult::Redraw);
    assert_eq!(c.react(ViewInput::Custom(UserEvent::Redraw)).result, EventResult::Redraw);
    assert_eq!(c.react(ViewInput::Unknown).result, EventResult::Continue);
    assert_eq!(c.react(ViewInput::RedrawFinished).result, EventResult::Continue);
}

#[test]
fn redraw_flags_cycle() {
    let mut f = RedrawFlags::new();
    assert!(f.begin_redraw());
    assert!(!f.begin_redraw());
    assert!(f.finish_redraw());
    assert!(!f.finish_redraw());
    assert!(!f.process_event_result(EventResult::Continue));
    assert!(!f.begin_redraw());
    assert!(!f.process_event_result(EventResult::Redraw));
    assert!(f.process_event_result(EventResult::Exit));
    assert!(!f.begin_redraw());
    f.request_redraw();
    assert!(f.begin_redraw());
}
