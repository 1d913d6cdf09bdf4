//! The event dispatch: which events reach the renderer, in which state, and
//! what the shell is asked to do in answer.

use crate::graphics::graphics::{
    elapsed, motion_of, ElementState, Frame, Graphics, KeyEvent, Motion, PhysicalKey, PhysicalSize,
    SurfaceConfiguration, Texture,
};
use crate::graphics::structures::{AspectRatio, KeyCode};
use vstd::prelude::*;

verus! {

/// A button of the mouse.
#[derive(Clone, Copy, Debug, PartialEq, Eq)]
pub enum MouseButton {
    Left,
    Right,
    Middle,
    Other,
}

/// How the cursor is held to the window.
#[derive(Clone, Copy, Debug, PartialEq, Eq)]
pub enum CursorGrabMode {
    /// Not held.
    Free,
    /// Kept inside the window.
    Confined,
    /// Kept in place.
    Locked,
}

/// What the dispatch reads of a window event.
#[derive(Clone, Copy, Debug, PartialEq, Eq)]
pub enum WindowEvent {
    Resized(PhysicalSize),
    RedrawRequested,
    CloseRequested,
    CursorMoved,
    MouseInput { state: ElementState, button: MouseButton },
    KeyboardInput { event: KeyEvent },
    /// Any other window event.
    Other,
}

/// What the dispatch reads of a device event.
#[derive(Clone, Copy, Debug, PartialEq, Eq)]
pub enum DeviceEvent {
    MouseMotion,
    /// Any other device event.
    Other,
}

/// One thing that the shell is asked to do.
#[derive(Debug, PartialEq, Eq)]
pub enum Action {
    /// Create the window and acquire the device; hand the renderer's state
    /// to `App::user_event` when that is done.
    CreateGraphics,
    /// Ask the window for another redraw.
    RequestRedraw,
    /// Leave the event loop.
    Exit,
    /// Configure the surface, give the camera the aspect ratio and replace
    /// the depth target.
    Resize { surface_config: SurfaceConfiguration, aspect_ratio: AspectRatio, depth_texture: Texture },
    /// Move the camera, then turn it by the gathered mouse motion and
    /// forget that motion.
    Update(Motion),
    /// Upload the uniforms, submit the frame's commands and present.
    Draw(Frame),
    /// Take the cursor position of the event into the globals.
    SetMousePos,
    /// Add the motion of the event to the gathered mouse motion.
    AddMouseMotion,
    /// Hold the cursor by `mode`, or by `fallback` where `mode` is refused,
    /// and show or hide it.
    GrabCursor { mode: CursorGrabMode, fallback: Option<CursorGrabMode>, visible: bool },
}

/// The state of the application.
#[derive(Debug, PartialEq, Eq)]
pub enum State {
    /// The renderer exists and frames are drawn.
    Ready(Graphics),
    /// The renderer does not exist yet. `acquiring` says whether it has
    /// been asked for.
    Init { acquiring: bool },
}

/// The application: the state and nothing else.
#[derive(Debug, PartialEq, Eq)]
pub struct App {
    pub state: State,
}

/// The action that captures the mouse: lock the cursor in place, or confine
/// it to the window where locking is refused, and hide it.
pub open spec fn capture_mouse() -> Action {
    Action::GrabCursor {
        mode: CursorGrabMode::Locked,
        fallback: Some(CursorGrabMode::Confined),
        visible: false,
    }
}

/// The action that releases the mouse: let the cursor go and show it.
pub open spec fn release_mouse() -> Action {
    Action::GrabCursor { mode: CursorGrabMode::Free, fallback: None, visible: true }
}

/// The actions that answer a mouse button: the left button captures the
/// mouse when it goes down, the right button releases it.
pub open spec fn mouse_actions(state: ElementState, button: MouseButton) -> Seq<Action> {
    if state == ElementState::Pressed && button == MouseButton::Left {
        seq![capture_mouse()]
    } else if state == ElementState::Pressed && button == MouseButton::Right {
        seq![release_mouse()]
    } else {
        Seq::empty()
    }
}

/// The actions that answer a keyboard event, besides taking it into the
/// held keys: escape releases the mouse when it goes down.
pub open spec fn key_actions(event: KeyEvent) -> Seq<Action> {
    if event.physical_key == PhysicalKey::Code(KeyCode::Escape) && event.state
        == ElementState::Pressed {
        seq![release_mouse()]
    } else {
        Seq::empty()
    }
}

impl State {
    /// How far the application has come: 0 before the renderer is asked
    /// for, 1 while it is awaited, 2 once it is there.
    pub open spec fn progress(&self) -> nat {
        match self {
            State::Init { acquiring: false } => 0,
            State::Init { acquiring: true } => 1,
            State::Ready(_) => 2,
        }
    }

    /// Whether the renderer may begin another frame: it exists, and its
    /// frame counter can still go up.
    pub open spec fn can_draw(&self) -> bool {
        self matches State::Ready(graphics) ==> graphics.globals.frame < u32::MAX
    }

    /// Whether the window event `event` at instant `now` takes this state
    /// to `after` and asks for `actions`. Before the renderer exists every
    /// event is dropped. Once it exists: a resize is taken and passed on; a
    /// redraw updates, then draws, then asks for the next redraw; a close
    /// request exits; cursor, button and key events are taken as input.
    pub open spec fn window_step(
        &self,
        event: WindowEvent,
        now: u64,
        after: &State,
        actions: Seq<Action>,
    ) -> bool {
        match *self {
            State::Init { acquiring } => {
                &&& *after == *self
                &&& actions == Seq::<Action>::empty()
            },
            State::Ready(before) => {
                &&& *after matches State::Ready(graphics)
                &&& match event {
                    WindowEvent::Resized(size) => {
                        &&& before.resized(&graphics, size)
                        &&& actions == seq![
                            Action::Resize {
                                surface_config: graphics.surface_config,
                                aspect_ratio: graphics.aspect_ratio,
                                depth_texture: graphics.depth_texture,
                            },
                        ]
                    },
                    WindowEvent::RedrawRequested => {
                        &&& actions.len() == 3
                        &&& actions[0] == Action::Update(
                            motion_of(
                                before.metadata.keyboard_state@,
                                elapsed(now, before.metadata.prev_frame_start_instant),
                            ),
                        )
                        &&& actions[1] matches Action::Draw(frame)
                        &&& before.drew(&graphics, now, &frame)
                        &&& actions[2] == Action::RequestRedraw
                    },
                    WindowEvent::CloseRequested => {
                        &&& graphics == before
                        &&& actions == seq![Action::Exit]
                    },
                    WindowEvent::CursorMoved => {
                        &&& graphics == before
                        &&& actions == seq![Action::SetMousePos]
                    },
                    WindowEvent::MouseInput { state, button } => {
                        &&& graphics == before
                        &&& actions == mouse_actions(state, button)
                    },
                    WindowEvent::KeyboardInput { event } => {
                        &&& before.took_key(&graphics, event)
                        &&& actions == key_actions(event)
                    },
                    WindowEvent::Other => {
                        &&& graphics == before
                        &&& actions == Seq::<Action>::empty()
                    },
                }
            },
        }
    }

    /// The actions that answer the device event `event`: mouse motion is
    /// gathered once the renderer exists; everything else is dropped.
    pub open spec fn device_actions(&self, event: DeviceEvent) -> Seq<Action> {
        if *self is Ready && event == DeviceEvent::MouseMotion {
            seq![Action::AddMouseMotion]
        } else {
            Seq::empty()
        }
    }
}

impl App {
    /// The application before anything has happened.
    pub fn new() -> (out: Self)
        ensures
            out.state == (State::Init { acquiring: false }),
    {
        App { state: State::Init { acquiring: false } }
    }

    /// The event loop is up. The first time, the renderer is asked for;
    /// after that nothing happens.
    pub fn resumed(&mut self) -> (out: Vec<Action>)
        ensures
            old(self).state == (State::Init { acquiring: false }) ==> {
                &&& final(self).state == (State::Init { acquiring: true })
                &&& out@ == seq![Action::CreateGraphics]
            },
            old(self).state != (State::Init { acquiring: false }) ==> {
                &&& final(self).state == old(self).state
                &&& out@ == Seq::<Action>::empty()
            },
            final(self).state.progress() >= 1,
            final(self).state.progress() >= old(self).state.progress(),
    {
        let mut actions: Vec<Action> = Vec::new();
        match &mut self.state {
            State::Init { acquiring } => {
                if !*acquiring {
                    *acquiring = true;
                    actions.push(Action::CreateGraphics);
                }
            },
            State::Ready(_) => {},
        }
        actions
    }

    /// The renderer has been made. It becomes the state, and the first
    /// redraw is asked for.
    pub fn user_event(&mut self, gfx: Graphics) -> (out: Vec<Action>)
        ensures
            final(self).state == State::Ready(gfx),
            out@ == seq![Action::RequestRedraw],
            final(self).state.progress() >= old(self).state.progress(),
    {
        let mut actions: Vec<Action> = Vec::new();
        actions.push(Action::RequestRedraw);
        self.state = State::Ready(gfx);
        actions
    }

    /// Takes a window event at instant `now`.
    pub fn window_event(&mut self, event: WindowEvent, now: u64) -> (out: Vec<Action>)
        requires
            event == WindowEvent::RedrawRequested ==> old(self).state.can_draw(),
        ensures
            old(self).state.window_step(event, now, &final(self).state, out@),
            final(self).state.progress() == old(self).state.progress(),
    {
        let mut actions: Vec<Action> = Vec::new();
        match &mut self.state {
            State::Ready(gfx) => {
                match event {
                    WindowEvent::Resized(size) => {
                        gfx.resize(size);
                        actions.push(
                            Action::Resize {
                                surface_config: gfx.surface_config,
                                aspect_ratio: gfx.aspect_ratio,
                                depth_texture: gfx.depth_texture,
                            },
                        );
                    },
                    WindowEvent::RedrawRequested => {
                        let motion = gfx.update(now);
                        actions.push(Action::Update(motion));
                        let frame = gfx.draw(now);
                        actions.push(Action::Draw(frame));
                        actions.push(Action::RequestRedraw);
                    },
                    WindowEvent::CloseRequested => {
                        actions.push(Action::Exit);
                    },
                    WindowEvent::CursorMoved => {
                        actions.push(Action::SetMousePos);
                    },
                    WindowEvent::MouseInput { state, button } => {
                        match (state, button) {
                            (ElementState::Pressed, MouseButton::Left) => {
                                actions.push(
                                    Action::GrabCursor {
                                        mode: CursorGrabMode::Locked,
                                        fallback: Some(CursorGrabMode::Confined),
                                        visible: false,
                                    },
                                );
                            },
                            (ElementState::Pressed, MouseButton::Right) => {
                                actions.push(
                                    Action::GrabCursor {
                                        mode: CursorGrabMode::Free,
                                        fallback: None,
                                        visible: true,
                                    },
                                );
                            },
                            _ => {},
                        }
                    },
                    WindowEvent::KeyboardInput { event } => {
                        match (event.physical_key, event.state) {
                            (PhysicalKey::Code(KeyCode::Escape), ElementState::Pressed) => {
                                actions.push(
                                    Action::GrabCursor {
                                        mode: CursorGrabMode::Free,
                                        fallback: None,
                                        visible: true,
                                    },
                                );
                            },
                            _ => {},
                        }
                        gfx.handle_keyboard_input(&event);
                    },
                    WindowEvent::Other => {},
                }
            },
            State::Init { .. } => {},
        }
        actions
    }

    /// Takes a device event.
    pub fn device_event(&mut self, event: DeviceEvent) -> (out: Vec<Action>)
        ensures
            final(self).state == old(self).state,
            out@ == old(self).state.device_actions(event),
    {
        let mut actions: Vec<Action> = Vec::new();
        match (&self.state, event) {
            (State::Ready(_), DeviceEvent::MouseMotion) => {
                actions.push(Action::AddMouseMotion);
            },
            _ => {},
        }
        actions
    }
}

/// Until the renderer exists, a window event changes nothing and asks for
/// nothing.
pub proof fn lemma_init_drops_window_events(
    before: State,
    event: WindowEvent,
    now: u64,
    after: State,
    actions: Seq<Action>,
)
    requires
        before is Init,
        before.window_step(event, now, &after, actions),
    ensures
        after == before,
        actions.len() == 0,
{
}

/// No window event takes the renderer away again or changes how far the
/// application has come.
pub proof fn lemma_window_events_keep_progress(
    before: State,
    event: WindowEvent,
    now: u64,
    after: State,
    actions: Seq<Action>,
)
    requires
        before.window_step(event, now, &after, actions),
    ensures
        after.progress() == before.progress(),
        before is Ready ==> after is Ready,
{
}

/// Once the renderer exists, a redraw request is answered by exactly three
/// actions in this order: the update, the draw, the request for the next
/// redraw. The update moves for the time since the previous frame began,
/// and the draw makes the instant of the request the new frame start.
pub proof fn lemma_redraw_updates_then_draws(
    before: Graphics,
    now: u64,
    after: State,
    actions: Seq<Action>,
)
    requires
        State::Ready(before).window_step(WindowEvent::RedrawRequested, now, &after, actions),
    ensures
        actions.len() == 3,
        actions[0] matches Action::Update(motion) && motion.delta_time == elapsed(
            now,
            before.metadata.prev_frame_start_instant,
        ),
        actions[1] is Draw,
        actions[2] == Action::RequestRedraw,
        after matches State::Ready(graphics) && graphics.metadata.prev_frame_start_instant == now,
{
}

} // verus!
