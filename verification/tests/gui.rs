use d2d_host::gui::{
    Action, DrawResult, Gui, Rect, RenderAction, RenderEvent, State, D2D1_WINDOW_STATE_OCCLUDED,
    D2DERR_RECREATE_TARGET,
};
use d2d_host::helpers::event::Event;
use d2d_host::helpers::msg::{
    WM_CREATE, WM_DESTROY, WM_DISPLAYCHANGE, WM_MOUSEMOVE, WM_PAINT, WM_SIZE,
};

fn message(message: u32, l_param: isize) -> Event {
    Event { wnd: 0x40, l_param, w_param: 0, message }
}

#[test]
fn the_state_starts_at_zero() {
    let state = State::new();
    assert_eq!(state.mouse_pos, (0, 0));
    assert_eq!(state.paint, Event { wnd: 0, l_param: 0, w_param: 0, message: 0 });
    let gui = Gui::new();
    assert_eq!(gui.state, state);
    assert!(!gui.has_target);
}

#[test]
fn the_failure_code_has_the_documented_bits() {
    assert_eq!(D2DERR_RECREATE_TARGET as u32, 0x8899_000C);
    assert_eq!(D2D1_WINDOW_STATE_OCCLUDED, 1);
}

#[test]
fn paint_is_remembered_and_painted() {
    let mut gui = Gui::new();
    let event = Event { wnd: 0x40, l_param: 1, w_param: 2, message: WM_PAINT };
    assert_eq!(gui.handle(event), Action::Paint { wnd: 0x40 });
    assert_eq!(gui.state.paint, event);
    assert_eq!(gui.state.mouse_pos, (0, 0));
    assert!(!gui.has_target);
}

#[test]
fn size_without_a_target_does_nothing() {
    let mut gui = Gui::new();
    assert_eq!(gui.handle(message(WM_SIZE, (600 << 16) | 800)), Action::Done);
    assert_eq!(gui, Gui::new());
}

#[test]
fn size_with_a_target_resizes_it() {
    let mut gui = Gui { state: State::new(), has_target: true };
    let action = gui.handle(message(WM_SIZE, (600 << 16) | 800));
    assert_eq!(action, Action::Resize { wnd: 0x40, width: 800, height: 600 });
    assert!(gui.has_target);
    let action = gui.on_size(message(WM_SIZE, 0xFFFF_8000));
    assert_eq!(action, Action::Resize { wnd: 0x40, width: 0x8000, height: 0xFFFF });
}

#[test]
fn a_failed_resize_gives_the_target_up() {
    let mut gui = Gui { state: State::new(), has_target: true };
    let event = message(WM_SIZE, 0);
    assert_eq!(gui.on_resized(event, true), Action::Invalidate { wnd: 0x40 });
    assert!(gui.has_target);
    assert_eq!(gui.on_resized(event, false), Action::Invalidate { wnd: 0x40 });
    assert!(!gui.has_target);
    assert_eq!(gui.on_resized(event, true), Action::Invalidate { wnd: 0x40 });
    assert!(!gui.has_target);
}

#[test]
fn a_mouse_move_repaints_the_painted_window() {
    let mut gui = Gui::new();
    let moved = Event { wnd: 0x99, l_param: (40 << 16) | 25, w_param: 0, message: WM_MOUSEMOVE };
    assert_eq!(gui.handle(moved), Action::Invalidate { wnd: 0 });
    assert_eq!(gui.state.mouse_pos, (25, 40));
    gui.handle(message(WM_PAINT, 0));
    let moved = Event { wnd: 0x99, l_param: 0xFFFF_FFFE, w_param: 0, message: WM_MOUSEMOVE };
    assert_eq!(gui.on_mouse_move(moved), Action::Invalidate { wnd: 0x40 });
    assert_eq!(gui.state.mouse_pos, (-2, -1));
}

#[test]
fn a_display_change_repaints() {
    let mut gui = Gui::new();
    assert_eq!(gui.handle(message(WM_DISPLAYCHANGE, 0)), Action::Invalidate { wnd: 0x40 });
    assert_eq!(gui, Gui::new());
}

#[test]
fn destruction_quits_with_zero() {
    let mut gui = Gui::new();
    assert_eq!(gui.handle(message(WM_DESTROY, 0)), Action::Quit { code: 0 });
    assert_eq!(gui, Gui::new());
}

#[test]
fn other_messages_are_left_to_the_system() {
    let mut gui = Gui::new();
    assert_eq!(gui.handle(message(WM_CREATE, 0)), Action::Default);
    assert_eq!(gui.handle(message(0x0084, 77)), Action::Default);
    assert_eq!(gui, Gui::new());
}

#[test]
fn only_the_default_leaves_the_answer_open() {
    assert_eq!(Action::Default.answer(), None);
    assert_eq!(Action::Done.answer(), Some(0));
    assert_eq!(Action::Paint { wnd: 1 }.answer(), Some(0));
    assert_eq!(Action::Resize { wnd: 1, width: 2, height: 3 }.answer(), Some(0));
    assert_eq!(Action::Invalidate { wnd: 1 }.answer(), Some(0));
    assert_eq!(Action::Quit { code: 0 }.answer(), Some(0));
}

#[test]
fn the_first_pass_makes_a_target() {
    let mut gui = Gui::new();
    let paint = message(WM_PAINT, 0);
    gui.handle(paint);
    assert_eq!(gui.render(paint, RenderEvent::Begin), RenderAction::ReadClientRect { wnd: 0x40 });
    let rect = Rect { left: 0, top: 0, right: 800, bottom: 600 };
    assert_eq!(
        gui.render(paint, RenderEvent::ClientRect(rect)),
        RenderAction::CreateTarget { wnd: 0x40, width: 800, height: 600 }
    );
    assert!(!gui.has_target);
    assert_eq!(gui.render(paint, RenderEvent::TargetCreated), RenderAction::CheckWindowState);
    assert!(gui.has_target);
    assert_eq!(gui.render(paint, RenderEvent::WindowState(0)), RenderAction::Draw);
    assert_eq!(gui.render(paint, RenderEvent::Drawn(DrawResult::Done)), RenderAction::Done);
    assert!(gui.has_target);
}

#[test]
fn a_later_pass_keeps_the_target() {
    let mut gui = Gui { state: State::new(), has_target: true };
    let paint = message(WM_PAINT, 0);
    assert_eq!(gui.render(paint, RenderEvent::Begin), RenderAction::CheckWindowState);
    assert!(gui.has_target);
}

#[test]
fn a_negative_extent_wraps() {
    let mut gui = Gui::new();
    let rect = Rect { left: 0, top: 0, right: -1, bottom: i32::MIN };
    assert_eq!(
        gui.render(message(WM_PAINT, 0), RenderEvent::ClientRect(rect)),
        RenderAction::CreateTarget { wnd: 0x40, width: u32::MAX, height: 0x8000_0000 }
    );
}

#[test]
fn a_covered_window_is_not_drawn() {
    let mut gui = Gui { state: State::new(), has_target: true };
    let paint = message(WM_PAINT, 0);
    assert_eq!(
        gui.render(paint, RenderEvent::WindowState(D2D1_WINDOW_STATE_OCCLUDED)),
        RenderAction::Done
    );
    assert_eq!(gui.render(paint, RenderEvent::WindowState(0)), RenderAction::Draw);
    assert_eq!(gui.render(paint, RenderEvent::WindowState(3)), RenderAction::Draw);
    assert!(gui.has_target);
}

#[test]
fn a_lost_target_is_made_anew() {
    let mut gui = Gui { state: State::new(), has_target: true };
    let paint = message(WM_PAINT, 0);
    let lost = RenderEvent::Drawn(DrawResult::Dxgi(D2DERR_RECREATE_TARGET));
    assert_eq!(gui.render(paint, lost), RenderAction::Invalidate { wnd: 0x40 });
    assert!(!gui.has_target);
    assert_eq!(gui.render(paint, RenderEvent::Begin), RenderAction::ReadClientRect { wnd: 0x40 });
}

#[test]
fn other_failures_keep_the_target() {
    let paint = message(WM_PAINT, 0);
    let results = [
        DrawResult::Done,
        DrawResult::Dxgi(0),
        DrawResult::Dxgi(D2DERR_RECREATE_TARGET + 1),
        DrawResult::Com(D2DERR_RECREATE_TARGET),
        DrawResult::Com(-1),
    ];
    for result in results {
        let mut gui = Gui { state: State::new(), has_target: true };
        assert_eq!(gui.render(paint, RenderEvent::Drawn(result)), RenderAction::Done);
        assert!(gui.has_target);
    }
}
