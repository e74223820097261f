//! The single owner of the window, its surface, the renderers and the scene:
//! a state machine driven by the windowing system's notifications and by the
//! commands that arrive through the channel. It decides; the caller performs
//! the action it returns.
use vstd::prelude::*;

use crate::codec::BackgroundColor;
use crate::command::Command;
use crate::scene::{entries_of, EntryModel, Scene};

verus! {

/// The windowing system's identifier of a window.
#[derive(Clone, Copy, Debug, PartialEq, Eq, Structural)]
pub struct WindowHandle {
    pub id: u64,
}

/// What the library needs to know of a GPU surface: the device it lives on and
/// its size in pixels.
#[derive(Clone, Copy, Debug, PartialEq, Eq, Structural)]
pub struct SurfaceInfo {
    pub dev_id: usize,
    pub width: u32,
    pub height: u32,
}

/// A window with a live surface.
#[derive(Clone, Copy, Debug, PartialEq, Eq, Structural)]
pub struct ActiveRenderState {
    pub surface: SurfaceInfo,
    pub window: WindowHandle,
}

/// Either a surface exists (`Active`), or none does and at most the window is
/// kept for reuse (`Suspended`).
#[derive(Clone, Copy, Debug, PartialEq, Eq, Structural)]
pub enum RenderState {
    Active(ActiveRenderState),
    Suspended(Option<WindowHandle>),
}

/// What to do with a resume notification.
#[derive(Clone, Copy, Debug, PartialEq, Eq, Structural)]
pub enum ResumePlan {
    /// Nothing: a surface exists already, or the loop has ended.
    Ignore,
    /// Create a window, then a surface for it.
    CreateWindow,
    /// Create a surface for the window kept from before.
    ReuseWindow(WindowHandle),
}

/// The window notifications that the state machine tells apart.
#[derive(Clone, Copy, Debug, PartialEq, Eq, Structural)]
pub enum WindowEvent {
    CloseRequested,
    Resized { width: u32, height: u32 },
    RedrawRequested,
    Other,
}

/// Everything a frame is rendered with, but the scene.
#[derive(Clone, Copy, Debug, PartialEq, Eq, Structural)]
pub struct RenderParams {
    pub background: BackgroundColor,
    pub width: u32,
    pub height: u32,
    pub dev_id: usize,
}

#[derive(Clone, Copy, Debug, PartialEq, Eq, Structural)]
pub enum WindowAction {
    Nothing,
    /// End the event loop.
    Exit,
    /// Rebuild the surface at this size.
    ResizeSurface { width: u32, height: u32 },
    /// Take the surface's next texture, render the scene into it where `render`
    /// holds (a renderer exists for the device), and present it.
    Present { params: RenderParams, render: bool },
}

#[derive(Clone, Copy, Debug, PartialEq, Eq, Structural)]
pub enum UserAction {
    Nothing,
    /// End the event loop.
    Exit,
    /// Ask the windowing system for this inner size.
    RequestInnerSize { width: u32, height: u32 },
    /// Ask the windowing system for one redraw notification.
    RequestRedraw,
}

/// The state machine. `renderers[d]` tells whether a renderer exists for GPU
/// device `d`; renderers are made once and kept for the process lifetime.
pub struct RenderApp {
    pub state: RenderState,
    pub renderers: Vec<bool>,
    pub scene: Scene,
    pub background_color: BackgroundColor,
    pub redraw_pending: bool,
    pub exited: bool,
}

pub struct AppModel {
    pub state: RenderState,
    pub renderers: Seq<bool>,
    pub scene: Seq<EntryModel>,
    pub background_color: BackgroundColor,
    pub redraw_pending: bool,
    pub exited: bool,
}

impl View for RenderApp {
    type V = AppModel;

    open spec fn view(&self) -> AppModel {
        AppModel {
            state: self.state,
            renderers: self.renderers@,
            scene: self.scene@,
            background_color: self.background_color,
            redraw_pending: self.redraw_pending,
            exited: self.exited,
        }
    }
}

pub open spec fn spec_initial() -> AppModel {
    AppModel {
        state: RenderState::Suspended(None),
        renderers: seq![],
        scene: seq![],
        background_color: BackgroundColor::WhiteSmoke,
        redraw_pending: false,
        exited: false,
    }
}

pub open spec fn spec_resume_plan(m: AppModel) -> ResumePlan {
    if m.exited {
        ResumePlan::Ignore
    } else {
        match m.state {
            RenderState::Active(_) => ResumePlan::Ignore,
            RenderState::Suspended(None) => ResumePlan::CreateWindow,
            RenderState::Suspended(Some(w)) => ResumePlan::ReuseWindow(w),
        }
    }
}

/// The renderer table sized for `n` devices: cut down, or grown with empty slots.
pub open spec fn spec_sized_pool(p: Seq<bool>, n: nat) -> Seq<bool> {
    if n <= p.len() {
        p.subrange(0, n as int)
    } else {
        p + Seq::new((n - p.len()) as nat, |i: int| false)
    }
}

/// On resume the kept window is used if there is one, else `new_window`; the
/// surface is the one just made for it. The result tells whether a renderer
/// must be made for the surface's device.
pub open spec fn spec_resumed(
    m: AppModel,
    new_window: WindowHandle,
    surface: SurfaceInfo,
    n_devices: usize,
) -> (AppModel, bool) {
    match spec_resume_plan(m) {
        ResumePlan::Ignore => (m, false),
        plan => {
            let window = match plan {
                ResumePlan::ReuseWindow(w) => w,
                _ => new_window,
            };
            let pool = spec_sized_pool(m.renderers, n_devices as nat);
            (
                AppModel {
                    state: RenderState::Active(ActiveRenderState { surface, window }),
                    renderers: pool.update(surface.dev_id as int, true),
                    ..m
                },
                !pool[surface.dev_id as int],
            )
        },
    }
}

/// On suspend the surface is dropped and the window kept.
pub open spec fn spec_suspended(m: AppModel) -> AppModel {
    match m.state {
        RenderState::Active(a) => AppModel {
            state: RenderState::Suspended(Some(a.window)),
            redraw_pending: false,
            ..m
        },
        _ => m,
    }
}

pub open spec fn spec_has_renderer(m: AppModel, dev_id: usize) -> bool {
    dev_id < m.renderers.len() && m.renderers[dev_id as int]
}

/// Window notifications count only for the active window.
pub open spec fn spec_window_event(m: AppModel, window: WindowHandle, ev: WindowEvent) -> (
    AppModel,
    WindowAction,
) {
    match m.state {
        RenderState::Active(a) => if m.exited || a.window != window {
            (m, WindowAction::Nothing)
        } else {
            match ev {
                WindowEvent::CloseRequested => (AppModel { exited: true, ..m }, WindowAction::Exit),
                WindowEvent::Resized { width, height } => (
                    AppModel {
                        state: RenderState::Active(
                            ActiveRenderState {
                                surface: SurfaceInfo { width, height, ..a.surface },
                                ..a
                            },
                        ),
                        ..m
                    },
                    WindowAction::ResizeSurface { width, height },
                ),
                WindowEvent::RedrawRequested => (
                    AppModel { redraw_pending: false, ..m },
                    WindowAction::Present {
                        params: RenderParams {
                            background: m.background_color,
                            width: a.surface.width,
                            height: a.surface.height,
                            dev_id: a.surface.dev_id,
                        },
                        render: spec_has_renderer(m, a.surface.dev_id),
                    },
                ),
                WindowEvent::Other => (m, WindowAction::Nothing),
            }
        },
        RenderState::Suspended(_) => (m, WindowAction::Nothing),
    }
}

/// A mutation asks for a redraw unless one is already pending.
pub open spec fn spec_schedule_redraw(m: AppModel) -> (AppModel, UserAction) {
    if m.redraw_pending {
        (m, UserAction::Nothing)
    } else {
        (AppModel { redraw_pending: true, ..m }, UserAction::RequestRedraw)
    }
}

/// A command from the channel. `CloseWindow` ends the loop in either state; every
/// other command is dropped unless a surface exists; after the end nothing is
/// applied.
pub open spec fn spec_user_event(m: AppModel, c: Command) -> (AppModel, UserAction) {
    if m.exited {
        (m, UserAction::Nothing)
    } else if c is CloseWindow {
        (AppModel { exited: true, ..m }, UserAction::Exit)
    } else if !(m.state is Active) {
        (m, UserAction::Nothing)
    } else {
        match c {
            Command::ResizeWindow { width, height } => (
                m,
                UserAction::RequestInnerSize { width, height },
            ),
            Command::SetBackground { color } => spec_schedule_redraw(
                AppModel { background_color: color, ..m },
            ),
            Command::NewPage => spec_schedule_redraw(AppModel { scene: seq![], ..m }),
            _ => spec_schedule_redraw(AppModel { scene: m.scene + entries_of(c), ..m }),
        }
    }
}

impl RenderApp {
    /// No window yet, an empty scene, a white-smoke background.
    pub fn new() -> (r: RenderApp)
        ensures
            r@ == spec_initial(),
    {
        let r = RenderApp {
            state: RenderState::Suspended(None),
            renderers: Vec::new(),
            scene: Scene::new(),
            background_color: BackgroundColor::WhiteSmoke,
            redraw_pending: false,
            exited: false,
        };
        assert(r@.renderers =~= seq![]);
        r
    }

    pub fn resume_plan(&self) -> (r: ResumePlan)
        ensures
            r == spec_resume_plan(self@),
    {
        if self.exited {
            return ResumePlan::Ignore;
        }
        match self.state {
            RenderState::Active(_) => ResumePlan::Ignore,
            RenderState::Suspended(None) => ResumePlan::CreateWindow,
            RenderState::Suspended(Some(w)) => ResumePlan::ReuseWindow(w),
        }
    }

    fn size_pool(&mut self, n: usize)
        ensures
            final(self)@ == (AppModel {
                renderers: spec_sized_pool(old(self)@.renderers, n as nat),
                ..old(self)@
            }),
    {
        if n <= self.renderers.len() {
            self.renderers.truncate(n);
        } else {
            while self.renderers.len() < n
                invariant
                    old(self).renderers.len() < n,
                    old(self).renderers.len() <= self.renderers.len() <= n,
                    self.renderers@ == old(self).renderers@ + Seq::new(
                        (self.renderers.len() - old(self).renderers.len()) as nat,
                        |i: int| false,
                    ),
                    self.state == old(self).state,
                    self.scene@ == old(self).scene@,
                    self.background_color == old(self).background_color,
                    self.redraw_pending == old(self).redraw_pending,
                    self.exited == old(self).exited,
                decreases n - self.renderers.len(),
            {
                self.renderers.push(false);
                assert(self.renderers@ =~= old(self).renderers@ + Seq::new(
                    (self.renderers.len() - old(self).renderers.len()) as nat,
                    |i: int| false,
                ));
            }
        }
        assert(self.renderers@ =~= spec_sized_pool(old(self)@.renderers, n as nat));
    }

    /// Takes a surface just made for the window that `resume_plan` named (or for
    /// `new_window`, where it asked for one to be created). Returns whether a
    /// renderer must be made for the surface's device, which is then recorded
    /// as having one.
    pub fn resumed(&mut self, new_window: WindowHandle, surface: SurfaceInfo, n_devices: usize) -> (r:
        bool)
        requires
            surface.dev_id < n_devices,
        ensures
            (final(self)@, r) == spec_resumed(old(self)@, new_window, surface, n_devices),
    {
        let window = match self.resume_plan() {
            ResumePlan::Ignore => {
                return false;
            },
            ResumePlan::ReuseWindow(w) => w,
            ResumePlan::CreateWindow => new_window,
        };
        self.size_pool(n_devices);
        let needs_renderer = !self.renderers[surface.dev_id];
        self.renderers.set(surface.dev_id, true);
        self.state = RenderState::Active(ActiveRenderState { surface, window });
        needs_renderer
    }

    pub fn suspended(&mut self)
        ensures
            final(self)@ == spec_suspended(old(self)@),
    {
        if let RenderState::Active(a) = self.state {
            self.state = RenderState::Suspended(Some(a.window));
            self.redraw_pending = false;
        }
    }

    pub fn window_event(&mut self, window: WindowHandle, ev: WindowEvent) -> (r: WindowAction)
        ensures
            (final(self)@, r) == spec_window_event(old(self)@, window, ev),
    {
        let a = match self.state {
            RenderState::Active(a) => a,
            RenderState::Suspended(_) => {
                return WindowAction::Nothing;
            },
        };
        if self.exited || a.window != window {
            return WindowAction::Nothing;
        }
        match ev {
            WindowEvent::CloseRequested => {
                self.exited = true;
                WindowAction::Exit
            },
            WindowEvent::Resized { width, height } => {
                self.state = RenderState::Active(
                    ActiveRenderState {
                        surface: SurfaceInfo { dev_id: a.surface.dev_id, width, height },
                        window: a.window,
                    },
                );
                WindowAction::ResizeSurface { width, height }
            },
            WindowEvent::RedrawRequested => {
                self.redraw_pending = false;
                let dev_id = a.surface.dev_id;
                let render = dev_id < self.renderers.len() && self.renderers[dev_id];
                WindowAction::Present {
                    params: RenderParams {
                        background: self.background_color,
                        width: a.surface.width,
                        height: a.surface.height,
                        dev_id,
                    },
                    render,
                }
            },
            WindowEvent::Other => WindowAction::Nothing,
        }
    }

    fn schedule_redraw(&mut self) -> (r: UserAction)
        ensures
            (final(self)@, r) == spec_schedule_redraw(old(self)@),
    {
        if self.redraw_pending {
            UserAction::Nothing
        } else {
            self.redraw_pending = true;
            UserAction::RequestRedraw
        }
    }

    pub fn user_event(&mut self, c: Command) -> (r: UserAction)
        ensures
            (final(self)@, r) == spec_user_event(old(self)@, c),
    {
        if self.exited {
            return UserAction::Nothing;
        }
        if let Command::CloseWindow = c {
            self.exited = true;
            return UserAction::Exit;
        }
        if let RenderState::Suspended(_) = self.state {
            return UserAction::Nothing;
        }
        match c {
            Command::ResizeWindow { width, height } => UserAction::RequestInnerSize { width, height },
            Command::SetBackground { color } => {
                self.background_color = color;
                self.schedule_redraw()
            },
            Command::NewPage => {
                self.scene.reset();
                self.schedule_redraw()
            },
            _ => {
                self.scene.draw(c);
                self.schedule_redraw()
            },
        }
    }
}

} // verus!
