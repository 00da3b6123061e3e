//! The window's reactions to its messages, as a state machine: each message
//! changes the state and names the one thing the host has to do next.

use vstd::prelude::*;
use crate::helpers::event::{dword, high_word, hiword, low_word, loword, Event};
use crate::helpers::msg::{WM_DESTROY, WM_DISPLAYCHANGE, WM_MOUSEMOVE, WM_PAINT, WM_SIZE};

verus! {

/// The window state that says the window is wholly covered.
pub const D2D1_WINDOW_STATE_OCCLUDED: u32 = 1;

/// The failure code that says the render target is lost and must be made
/// anew.
pub const D2DERR_RECREATE_TARGET: i32 = -2003238900;

/// What a demo sees of the window when it draws.
#[derive(Clone, Copy, Debug, PartialEq, Eq)]
pub struct State {
    /// The pointer position last reported, in client coordinates.
    pub mouse_pos: (i32, i32),
    /// The paint message last received.
    pub paint: Event,
}

impl State {
    /// The state before any message: the pointer at the origin, and a paint
    /// message of zeros for the null window.
    pub open spec fn initial() -> State {
        State { mouse_pos: (0, 0), paint: Event { wnd: 0, l_param: 0, w_param: 0, message: 0 } }
    }

    /// The state before any message.
    pub fn new() -> (state: State)
        ensures
            state == State::initial(),
    {
        State { mouse_pos: (0, 0), paint: Event { wnd: 0, l_param: 0, w_param: 0, message: 0 } }
    }
}

/// A window's client rectangle, in pixels.
#[derive(Clone, Copy, Debug, PartialEq, Eq, Structural)]
pub struct Rect {
    pub left: i32,
    pub top: i32,
    pub right: i32,
    pub bottom: i32,
}

/// How a drawing pass ended.
#[derive(Clone, Copy, Debug, PartialEq, Eq, Structural)]
pub enum DrawResult {
    /// Everything was drawn.
    Done,
    /// The graphics infrastructure failed with this code.
    Dxgi(i32),
    /// Another component failed with this code.
    Com(i32),
}

/// What the host does to answer a message. All but `Default` answer it
/// with zero.
#[derive(Clone, Copy, Debug, PartialEq, Eq, Structural)]
pub enum Action {
    /// Nothing.
    Done,
    /// Leave the message to the system's default handling, and answer with
    /// what that gives.
    Default,
    /// Paint the window: begin painting, run `Gui::render` to its end, end
    /// painting.
    Paint { wnd: usize },
    /// Resize the render target to this size in pixels, then report to
    /// `Gui::on_resized` whether that worked.
    Resize { wnd: usize, width: u32, height: u32 },
    /// Mark the window's whole client area as in need of painting.
    Invalidate { wnd: usize },
    /// Post the quit message with this exit code.
    Quit { code: i32 },
}

impl Action {
    /// The answer to the message, where the action fixes it.
    pub fn answer(&self) -> (result: Option<isize>)
        ensures
            *self == Action::Default ==> result is None,
            *self != Action::Default ==> result == Some(0isize),
    {
        match self {
            Action::Default => None,
            _ => Some(0),
        }
    }
}

/// What has happened in a rendering pass.
#[derive(Clone, Copy, Debug, PartialEq, Eq, Structural)]
pub enum RenderEvent {
    /// The pass begins.
    Begin,
    /// The window's client rectangle was read.
    ClientRect(Rect),
    /// The render target was made, and the demo has made its resources on
    /// it.
    TargetCreated,
    /// The render target reported this window state.
    WindowState(u32),
    /// The demo has drawn, and drawing ended like this.
    Drawn(DrawResult),
}

/// What the host does next in a rendering pass.
#[derive(Clone, Copy, Debug, PartialEq, Eq, Structural)]
pub enum RenderAction {
    /// Read the window's client rectangle and report it.
    ReadClientRect { wnd: usize },
    /// Make a render target of this size in pixels for the window, let the
    /// demo make its resources on it, and report that.
    CreateTarget { wnd: usize, width: u32, height: u32 },
    /// Ask the render target for the window's state and report it.
    CheckWindowState,
    /// Begin drawing, let the demo draw, end drawing, and report how that
    /// ended.
    Draw,
    /// Mark the window's whole client area as in need of painting; the pass
    /// is over.
    Invalidate { wnd: usize },
    /// The pass is over.
    Done,
}

/// A signed extent as the unsigned number of the same 32 bits.
pub open spec fn pixels(extent: int) -> int {
    extent % 0x1_0000_0000
}

/// The window's state machine: what a demo sees of the window, and whether
/// a render target exists for it.
#[derive(Clone, Copy, Debug, PartialEq, Eq)]
pub struct Gui {
    pub state: State,
    pub has_target: bool,
}

impl Gui {
    /// The machine before any message: the initial state and no render
    /// target.
    pub fn new() -> (gui: Gui)
        ensures
            gui == (Gui { state: State::initial(), has_target: false }),
    {
        Gui { state: State::new(), has_target: false }
    }

    /// A paint message is remembered, and the window is painted.
    pub open spec fn spec_on_paint(self, event: Event) -> (Gui, Action) {
        (
            Gui { state: State { paint: event, ..self.state }, ..self },
            Action::Paint { wnd: event.wnd },
        )
    }

    /// With a render target, a size message has it resized to the client
    /// size that the message carries in the two low words of its second
    /// parameter; without one, nothing is done.
    pub open spec fn spec_on_size(self, event: Event) -> (Gui, Action) {
        if self.has_target {
            (
                self,
                Action::Resize {
                    wnd: event.wnd,
                    width: low_word(event.l_param as int) as u32,
                    height: high_word(event.l_param as int) as u32,
                },
            )
        } else {
            (self, Action::Done)
        }
    }

    /// The render target stays if resizing worked and is given up if not;
    /// either way the window is painted anew.
    pub open spec fn spec_on_resized(self, event: Event, resized: bool) -> (Gui, Action) {
        (Gui { has_target: self.has_target && resized, ..self }, Action::Invalidate { wnd: event.wnd })
    }

    /// A mouse move records the pointer position, and the window that was
    /// painted last is painted anew.
    pub open spec fn spec_on_mouse_move(self, event: Event) -> (Gui, Action) {
        (
            Gui {
                state: State {
                    mouse_pos: (event.spec_mouse_pos().0 as i32, event.spec_mouse_pos().1 as i32),
                    ..self.state
                },
                ..self
            },
            Action::Invalidate { wnd: self.state.paint.wnd },
        )
    }

    /// A change of the display has the window painted anew.
    pub open spec fn spec_on_display_change(self, event: Event) -> (Gui, Action) {
        (self, Action::Invalidate { wnd: event.wnd })
    }

    /// The window's destruction ends the message loop with exit code zero.
    pub open spec fn spec_on_destroy(self, event: Event) -> (Gui, Action) {
        (self, Action::Quit { code: 0 })
    }

    /// The reaction to any message: paint, size, display change, destruction
    /// and mouse move have their own; every other message is left to the
    /// system.
    pub open spec fn spec_handle(self, event: Event) -> (Gui, Action) {
        if event.message == WM_PAINT {
            self.spec_on_paint(event)
        } else if event.message == WM_SIZE {
            self.spec_on_size(event)
        } else if event.message == WM_DISPLAYCHANGE {
            self.spec_on_display_change(event)
        } else if event.message == WM_DESTROY {
            self.spec_on_destroy(event)
        } else if event.message == WM_MOUSEMOVE {
            self.spec_on_mouse_move(event)
        } else {
            (self, Action::Default)
        }
    }

    /// Reacts to a message.
    pub fn handle(&mut self, event: Event) -> (action: Action)
        ensures
            (*final(self), action) == old(self).spec_handle(event),
    {
        if event.message == WM_PAINT {
            self.on_paint(event)
        } else if event.message == WM_SIZE {
            self.on_size(event)
        } else if event.message == WM_DISPLAYCHANGE {
            self.on_display_change(event)
        } else if event.message == WM_DESTROY {
            self.on_destroy(event)
        } else if event.message == WM_MOUSEMOVE {
            self.on_mouse_move(event)
        } else {
            Action::Default
        }
    }

    /// Reacts to a paint message.
    pub fn on_paint(&mut self, event: Event) -> (action: Action)
        ensures
            (*final(self), action) == old(self).spec_on_paint(event),
    {
        self.state.paint = event;
        Action::Paint { wnd: event.wnd }
    }

    /// Reacts to a size message.
    pub fn on_size(&mut self, event: Event) -> (action: Action)
        ensures
            (*final(self), action) == old(self).spec_on_size(event),
    {
        if self.has_target {
            let l: u32 = dword(event.l_param);
            Action::Resize { wnd: event.wnd, width: loword(l) as u32, height: hiword(l) as u32 }
        } else {
            Action::Done
        }
    }

    /// Takes note of how the resizing that `on_size` asked for went.
    pub fn on_resized(&mut self, event: Event, resized: bool) -> (action: Action)
        ensures
            (*final(self), action) == old(self).spec_on_resized(event, resized),
    {
        if !resized {
            self.has_target = false;
        }
        Action::Invalidate { wnd: event.wnd }
    }

    /// Reacts to a mouse move. No other message carries a pointer position.
    pub fn on_mouse_move(&mut self, event: Event) -> (action: Action)
        requires
            event.message == WM_MOUSEMOVE,
        ensures
            (*final(self), action) == old(self).spec_on_mouse_move(event),
    {
        self.state.mouse_pos = event.mouse_pos();
        Action::Invalidate { wnd: self.state.paint.wnd }
    }

    /// Reacts to a change of the display.
    pub fn on_display_change(&mut self, event: Event) -> (action: Action)
        ensures
            (*final(self), action) == old(self).spec_on_display_change(event),
    {
        Action::Invalidate { wnd: event.wnd }
    }

    /// Reacts to the window's destruction.
    pub fn on_destroy(&mut self, event: Event) -> (action: Action)
        ensures
            (*final(self), action) == old(self).spec_on_destroy(event),
    {
        Action::Quit { code: 0 }
    }

    /// One step of a rendering pass for the paint message `event`.
    ///
    /// A pass that finds no render target has one made first, as large as
    /// the window's client area. Then the demo draws, unless the window is
    /// wholly covered. Where drawing ends with the loss of the render
    /// target, the target is given up and the window painted anew, so that
    /// the next pass makes a new one.
    pub open spec fn spec_render(self, event: Event, step: RenderEvent) -> (Gui, RenderAction) {
        match step {
            RenderEvent::Begin => if self.has_target {
                (self, RenderAction::CheckWindowState)
            } else {
                (self, RenderAction::ReadClientRect { wnd: event.wnd })
            },
            RenderEvent::ClientRect(rect) => (
                self,
                RenderAction::CreateTarget {
                    wnd: event.wnd,
                    width: pixels(rect.right as int) as u32,
                    height: pixels(rect.bottom as int) as u32,
                },
            ),
            RenderEvent::TargetCreated => (
                Gui { has_target: true, ..self },
                RenderAction::CheckWindowState,
            ),
            RenderEvent::WindowState(state) => if state != D2D1_WINDOW_STATE_OCCLUDED {
                (self, RenderAction::Draw)
            } else {
                (self, RenderAction::Done)
            },
            RenderEvent::Drawn(result) => if result == DrawResult::Dxgi(D2DERR_RECREATE_TARGET) {
                (Gui { has_target: false, ..self }, RenderAction::Invalidate { wnd: event.wnd })
            } else {
                (self, RenderAction::Done)
            },
        }
    }

    /// Takes one step of a rendering pass: notes what has happened and says
    /// what to do next. A client rectangle starts at the origin, and only a
    /// render target that exists has a window state or is drawn on.
    pub fn render(&mut self, event: Event, step: RenderEvent) -> (next: RenderAction)
        requires
            step matches RenderEvent::ClientRect(rect) ==> rect.top == 0 && rect.left == 0,
            step is WindowState || step is Drawn ==> old(self).has_target,
        ensures
            (*final(self), next) == old(self).spec_render(event, step),
    {
        match step {
            RenderEvent::Begin => {
                if self.has_target {
                    RenderAction::CheckWindowState
                } else {
                    RenderAction::ReadClientRect { wnd: event.wnd }
                }
            },
            RenderEvent::ClientRect(rect) => {
                RenderAction::CreateTarget {
                    wnd: event.wnd,
                    width: unsigned(rect.right),
                    height: unsigned(rect.bottom),
                }
            },
            RenderEvent::TargetCreated => {
                self.has_target = true;
                RenderAction::CheckWindowState
            },
            RenderEvent::WindowState(state) => {
                if state != D2D1_WINDOW_STATE_OCCLUDED {
                    RenderAction::Draw
                } else {
                    RenderAction::Done
                }
            },
            RenderEvent::Drawn(result) => {
                if is_target_loss(result) {
                    self.has_target = false;
                    RenderAction::Invalidate { wnd: event.wnd }
                } else {
                    RenderAction::Done
                }
            },
        }
    }
}

/// No message makes a render target or gives one up: that happens only in
/// a rendering pass and after a resizing.
pub proof fn lemma_handle_keeps_target(gui: Gui, event: Event)
    ensures
        gui.spec_handle(event).0.has_target == gui.has_target,
{
}

/// Every message but a paint message and a mouse move leaves what a demo
/// sees of the window as it was.
pub proof fn lemma_handle_keeps_state(gui: Gui, event: Event)
    requires
        event.message != WM_PAINT,
        event.message != WM_MOUSEMOVE,
    ensures
        gui.spec_handle(event).0 == gui,
{
}

/// A lost render target is made anew: when drawing ends with the loss of
/// the target, the window is painted again, and the rendering pass for any
/// later paint message begins by reading the client rectangle, whose report
/// has a target of that size made.
pub proof fn lemma_lost_target_is_recreated(gui: Gui, event: Event, later: Event, rect: Rect)
    ensures
        ({
            let (lost, next) = gui.spec_render(
                event,
                RenderEvent::Drawn(DrawResult::Dxgi(D2DERR_RECREATE_TARGET)),
            );
            &&& !lost.has_target
            &&& lost.state == gui.state
            &&& next == RenderAction::Invalidate { wnd: event.wnd }
            &&& lost.spec_render(later, RenderEvent::Begin) == (
                lost,
                RenderAction::ReadClientRect { wnd: later.wnd },
            )
            &&& lost.spec_render(later, RenderEvent::ClientRect(rect)).1 is CreateTarget
            &&& lost.spec_render(later, RenderEvent::TargetCreated).0.has_target
        }),
{
}

/// Any other end of drawing leaves the machine as it was and ends the pass.
pub proof fn lemma_other_results_end_the_pass(gui: Gui, event: Event, result: DrawResult)
    requires
        result != DrawResult::Dxgi(D2DERR_RECREATE_TARGET),
    ensures
        gui.spec_render(event, RenderEvent::Drawn(result)) == (gui, RenderAction::Done),
{
}

/// The unsigned number of the same 32 bits.
fn unsigned(extent: i32) -> (size: u32)
    ensures
        size == pixels(extent as int),
{
    let size: u32 = #[verifier::truncate] (extent as u32);
    assert(size as int == pixels(extent as int)) by (bit_vector)
        requires
            size == extent as u32,
    ;
    size
}

/// Whether drawing ended with the loss of the render target.
fn is_target_loss(result: DrawResult) -> (lost: bool)
    ensures
        lost == (result == DrawResult::Dxgi(D2DERR_RECREATE_TARGET)),
{
    match result {
        DrawResult::Dxgi(code) => code == D2DERR_RECREATE_TARGET,
        _ => false,
    }
}

} // verus!
