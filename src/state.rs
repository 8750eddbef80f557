//! The demo's decisions, apart from the GPU and the window: what a window
//! event does to the state, which draw call a frame makes, and how a failed
//! frame is recovered.

use vstd::prelude::*;
use crate::geometry::{Shape, is_triangle_list, lemma_shape_indices_valid};

verus! {

/// Vertices of the single triangle that the solid-colour shader draws; it
/// makes them itself and reads no vertex buffer.
pub const SOLID_COLOR_VERTEX_COUNT: u32 = 3;

/// The keys the demo reacts to.
#[derive(Clone, Copy, Debug, PartialEq, Eq, Structural)]
pub enum Key {
    C,
    F,
    Escape,
    Other,
}

/// The window events the demo reacts to, with what it reads of them.
#[derive(Clone, Copy, Debug, PartialEq, Eq, Structural)]
pub enum WindowInput {
    CloseRequested,
    Resized { width: u32, height: u32 },
    RedrawRequested,
    Keyboard { key: Key, pressed: bool },
    Other,
}

/// Why the surface could not hand out a frame.
#[derive(Clone, Copy, Debug, PartialEq, Eq, Structural)]
pub enum SurfaceFault {
    Timeout,
    Outdated,
    Lost,
    OutOfMemory,
    Other,
}

/// The three ways a frame can be drawn.
#[derive(Clone, Copy, Debug, PartialEq, Eq, Structural)]
pub enum RenderPath {
    /// The pentagon through the shape shader.
    Plain,
    /// One triangle from the solid-colour shader.
    SolidColor,
    /// The letters through the shape shader.
    Letters,
}

/// The draw call of one frame.
#[derive(Clone, Copy, Debug, PartialEq, Eq, Structural)]
pub enum DrawPlan {
    /// Solid-colour pipeline, no buffers, `vertex_count` vertices.
    SolidColor { vertex_count: u32 },
    /// Shape pipeline with `shape`'s vertex and index buffers, indices
    /// `0..index_count`.
    Indexed { shape: Shape, index_count: u32 },
}

/// What the caller is to do after an event.
#[derive(Clone, Copy, Debug, PartialEq, Eq, Structural)]
pub enum Action {
    Nothing,
    Exit,
    /// Configure the surface at this size.
    Configure { width: u32, height: u32 },
    /// Draw a frame with this plan.
    Draw(DrawPlan),
    /// The frame failed in a way that is reported and otherwise ignored.
    ReportError,
}

/// What the demo remembers between events: the surface size, whether the
/// surface has been configured, and the two display flags.
#[derive(Clone, Copy, Debug, PartialEq, Eq, Structural)]
pub struct State {
    pub width: u32,
    pub height: u32,
    pub is_surface_configured: bool,
    pub use_color: bool,
    pub use_funny: bool,
}

pub open spec fn plan_of_path(p: RenderPath) -> DrawPlan {
    match p {
        RenderPath::Plain => DrawPlan::Indexed {
            shape: Shape::Pentagon,
            index_count: Shape::Pentagon.index_seq().len() as u32,
        },
        RenderPath::SolidColor => DrawPlan::SolidColor { vertex_count: SOLID_COLOR_VERTEX_COUNT },
        RenderPath::Letters => DrawPlan::Indexed {
            shape: Shape::Letters,
            index_count: Shape::Letters.index_seq().len() as u32,
        },
    }
}

impl State {
    /// The surface is only ever configured at a size with no zero side.
    pub open spec fn wf(self) -> bool {
        self.is_surface_configured ==> self.width > 0 && self.height > 0
    }

    pub open spec fn resized(self, width: u32, height: u32) -> State {
        if width > 0 && height > 0 {
            State { width, height, is_surface_configured: true, ..self }
        } else {
            self
        }
    }

    /// A press of C flips the solid-colour flag and a press of F the letters
    /// flag; releases and other keys change nothing.
    pub open spec fn keyed(self, key: Key, pressed: bool) -> State {
        if !pressed {
            self
        } else {
            match key {
                Key::C => State { use_color: !self.use_color, ..self },
                Key::F => State { use_funny: !self.use_funny, ..self },
                _ => self,
            }
        }
    }

    pub open spec fn path_spec(self) -> RenderPath {
        if self.use_color {
            RenderPath::SolidColor
        } else if self.use_funny {
            RenderPath::Letters
        } else {
            RenderPath::Plain
        }
    }

    pub open spec fn plan_spec(self) -> Option<DrawPlan> {
        if self.is_surface_configured {
            Some(plan_of_path(self.path_spec()))
        } else {
            None
        }
    }

    /// The state after `e`.
    pub open spec fn next(self, e: WindowInput) -> State {
        match e {
            WindowInput::Resized { width, height } => self.resized(width, height),
            WindowInput::Keyboard { key, pressed } => self.keyed(key, pressed),
            _ => self,
        }
    }

    /// What the caller does on `e`.
    pub open spec fn action(self, e: WindowInput) -> Action {
        match e {
            WindowInput::CloseRequested => Action::Exit,
            WindowInput::Resized { width, height } => if width > 0 && height > 0 {
                Action::Configure { width, height }
            } else {
                Action::Nothing
            },
            WindowInput::RedrawRequested => match self.plan_spec() {
                Some(p) => Action::Draw(p),
                None => Action::Nothing,
            },
            WindowInput::Keyboard { key, pressed } => if key == Key::Escape && pressed {
                Action::Exit
            } else {
                Action::Nothing
            },
            WindowInput::Other => Action::Nothing,
        }
    }

    /// A lost or outdated surface is configured again at the window's size;
    /// running out of memory ends the program; other faults are reported.
    pub open spec fn fault_action(self, fault: SurfaceFault, width: u32, height: u32) -> Action {
        match fault {
            SurfaceFault::Lost | SurfaceFault::Outdated => self.action(
                WindowInput::Resized { width, height },
            ),
            SurfaceFault::OutOfMemory => Action::Exit,
            _ => Action::ReportError,
        }
    }

    pub open spec fn fault_next(self, fault: SurfaceFault, width: u32, height: u32) -> State {
        match fault {
            SurfaceFault::Lost | SurfaceFault::Outdated => self.resized(width, height),
            _ => self,
        }
    }

    /// The state for a window of the given size: surface not yet configured,
    /// the pentagon selected.
    pub fn new(width: u32, height: u32) -> (r: State)
        ensures
            r == (State {
                width,
                height,
                is_surface_configured: false,
                use_color: false,
                use_funny: false,
            }),
            r.wf(),
    {
        State { width, height, is_surface_configured: false, use_color: false, use_funny: false }
    }

    /// Takes a new surface size. A size with a zero side is ignored; any other
    /// is recorded and marks the surface configured. Returns whether the
    /// surface is to be configured at the new size.
    pub fn resize(&mut self, width: u32, height: u32) -> (r: bool)
        ensures
            r == (width > 0 && height > 0),
            *final(self) == old(self).resized(width, height),
            old(self).wf() ==> final(self).wf(),
    {
        if width > 0 && height > 0 {
            self.width = width;
            self.height = height;
            self.is_surface_configured = true;
            true
        } else {
            false
        }
    }

    /// A key changed state: a press of C toggles the solid colour, a press of
    /// F toggles the letters, and a release does nothing. Returns whether the
    /// program is to end, which a press of Escape asks for.
    pub fn handle_key(&mut self, key: Key, pressed: bool) -> (exit: bool)
        ensures
            exit == (key == Key::Escape && pressed),
            *final(self) == old(self).keyed(key, pressed),
            old(self).wf() ==> final(self).wf(),
    {
        match key {
            Key::C => {
                if pressed {
                    self.use_color = !self.use_color;
                }
                false
            },
            Key::F => {
                if pressed {
                    self.use_funny = !self.use_funny;
                }
                false
            },
            Key::Escape => pressed,
            Key::Other => false,
        }
    }

    /// The path a frame takes: the solid colour wins over the letters, and
    /// the pentagon is drawn when neither is on.
    pub fn render_path(&self) -> (r: RenderPath)
        ensures
            r == self.path_spec(),
    {
        if self.use_color {
            RenderPath::SolidColor
        } else if self.use_funny {
            RenderPath::Letters
        } else {
            RenderPath::Plain
        }
    }

    /// The draw call of the next frame, or `None` while the surface has not
    /// been configured and nothing is drawn.
    pub fn draw_plan(&self) -> (r: Option<DrawPlan>)
        ensures
            r == self.plan_spec(),
    {
        if !self.is_surface_configured {
            return None;
        }
        let plan = match self.render_path() {
            RenderPath::Plain => DrawPlan::Indexed {
                shape: Shape::Pentagon,
                index_count: Shape::Pentagon.index_count(),
            },
            RenderPath::SolidColor => DrawPlan::SolidColor {
                vertex_count: SOLID_COLOR_VERTEX_COUNT,
            },
            RenderPath::Letters => DrawPlan::Indexed {
                shape: Shape::Letters,
                index_count: Shape::Letters.index_count(),
            },
        };
        Some(plan)
    }

    /// Takes one window event: updates the state and says what the caller is
    /// to do.
    pub fn window_event(&mut self, e: WindowInput) -> (r: Action)
        ensures
            r == old(self).action(e),
            *final(self) == old(self).next(e),
            old(self).wf() ==> final(self).wf(),
    {
        match e {
            WindowInput::CloseRequested => Action::Exit,
            WindowInput::Resized { width, height } => {
                if self.resize(width, height) {
                    Action::Configure { width, height }
                } else {
                    Action::Nothing
                }
            },
            WindowInput::RedrawRequested => match self.draw_plan() {
                Some(p) => Action::Draw(p),
                None => Action::Nothing,
            },
            WindowInput::Keyboard { key, pressed } => {
                if self.handle_key(key, pressed) {
                    Action::Exit
                } else {
                    Action::Nothing
                }
            },
            WindowInput::Other => Action::Nothing,
        }
    }

    /// Takes the fault of a frame that could not be drawn, with the window's
    /// current size: updates the state and says what the caller is to do.
    pub fn render_fault(&mut self, fault: SurfaceFault, width: u32, height: u32) -> (r: Action)
        ensures
            r == old(self).fault_action(fault, width, height),
            *final(self) == old(self).fault_next(fault, width, height),
            old(self).wf() ==> final(self).wf(),
    {
        match fault {
            SurfaceFault::Lost | SurfaceFault::Outdated => self.window_event(
                WindowInput::Resized { width, height },
            ),
            SurfaceFault::OutOfMemory => Action::Exit,
            SurfaceFault::Timeout | SurfaceFault::Other => Action::ReportError,
        }
    }
}

/// Every draw call the state machine plans stays inside the buffers it
/// names: an indexed draw covers exactly its shape's index list, which only
/// names that shape's vertices, and a solid-colour draw is made of whole
/// triangles.
pub proof fn lemma_plans_stay_in_bounds(s: State)
    ensures
        match s.plan_spec() {
            Some(DrawPlan::Indexed { shape, index_count }) => {
                &&& index_count as nat == shape.index_seq().len()
                &&& is_triangle_list(shape.index_seq(), shape.vertex_count_spec())
            },
            Some(DrawPlan::SolidColor { vertex_count }) => {
                vertex_count > 0 && vertex_count % 3 == 0
            },
            None => !s.is_surface_configured,
        },
{
    lemma_shape_indices_valid(Shape::Pentagon);
    lemma_shape_indices_valid(Shape::Letters);
}

/// Events never configure the surface at a size with a zero side: from a
/// well-formed state, every sequence of events leads to a well-formed state.
pub proof fn lemma_events_keep_wf(s: State, events: Seq<WindowInput>)
    requires
        s.wf(),
    ensures
        run_events(s, events).wf(),
    decreases events.len(),
{
    if events.len() > 0 {
        lemma_events_keep_wf(s.next(events[0]), events.drop_first());
    }
}

/// The state after each of `events` in turn.
pub open spec fn run_events(s: State, events: Seq<WindowInput>) -> State
    decreases events.len(),
{
    if events.len() == 0 {
        s
    } else {
        run_events(s.next(events[0]), events.drop_first())
    }
}

} // verus!
