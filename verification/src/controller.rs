//! The zoom controller: the state that input events act on, and what each event asks of
//! the display.

use vstd::prelude::*;

use crate::scalar::{exact_scalar, Scalar};
use crate::selection::{Direction, SelectionRect};
use crate::viewport::{
    screen_to_plane, screen_to_plane_defined, spec_screen_to_plane, Resolution, Viewport,
};

verus! {

/// The width of the screen in pixels.
pub const SCREEN_WIDTH: u32 = 500;

/// The height of the screen in pixels.
pub const SCREEN_HEIGHT: u32 = 500;

/// The iteration cap that a session starts with.
pub const DEFAULT_CAP: u32 = 10;

/// The axis in focus.
#[derive(Clone, Copy, Debug, PartialEq, Eq, Structural)]
pub enum ZoomMode {
    X,
    Y,
}

/// The edge in focus.
#[derive(Clone, Copy, Debug, PartialEq, Eq, Structural)]
pub enum ZoomSide {
    Min,
    Max,
}

/// One input event.
#[derive(Clone, Copy, Debug, PartialEq, Eq, Structural)]
pub enum Event {
    /// Put an axis in focus.
    SelectAxis(ZoomMode),
    /// Put an edge in focus.
    SelectSide(ZoomSide),
    /// Move the selection one step.
    Step(Direction),
    /// Zoom into the selection.
    Commit,
    /// Raise the iteration cap by one.
    IncreaseCap,
    /// Save the current image.
    Export,
}

/// What the display has to do after an event.
#[derive(Clone, Copy, Debug, PartialEq, Eq, Structural)]
pub enum Action {
    /// Nothing: the image on display is still current.
    Nothing,
    /// Render the image anew from the viewport and the cap.
    Regenerate,
    /// Write the image on display to its file.
    Export,
}

/// The region that the rectangle `rect` selects from `viewport`: each of its four bounds
/// mapped from the screen to the plane.
pub open spec fn spec_zoom<T: Scalar>(
    viewport: Viewport<T>,
    resolution: Resolution,
    rect: SelectionRect,
) -> Viewport<T> {
    Viewport {
        x_min: spec_screen_to_plane(viewport.x_min, viewport.x_max, resolution.width, rect.min_x),
        x_max: spec_screen_to_plane(viewport.x_min, viewport.x_max, resolution.width, rect.max_x),
        y_min: spec_screen_to_plane(viewport.y_min, viewport.y_max, resolution.height, rect.min_y),
        y_max: spec_screen_to_plane(viewport.y_min, viewport.y_max, resolution.height, rect.max_y),
    }
}

/// Whether all four mappings are defined.
pub open spec fn zoom_defined<T: Scalar>(
    viewport: Viewport<T>,
    resolution: Resolution,
    rect: SelectionRect,
) -> bool {
    &&& screen_to_plane_defined(viewport.x_min, viewport.x_max, resolution.width, rect.min_x)
    &&& screen_to_plane_defined(viewport.x_min, viewport.x_max, resolution.width, rect.max_x)
    &&& screen_to_plane_defined(viewport.y_min, viewport.y_max, resolution.height, rect.min_y)
    &&& screen_to_plane_defined(viewport.y_min, viewport.y_max, resolution.height, rect.max_y)
}

/// Computes the region that the rectangle `rect` selects from `viewport`.
pub fn zoom<T: Scalar>(viewport: &Viewport<T>, resolution: Resolution, rect: SelectionRect) -> (r:
    Viewport<T>)
    requires
        exact_scalar::<T>(),
        zoom_defined(*viewport, resolution, rect),
    ensures
        r == spec_zoom(*viewport, resolution, rect),
{
    Viewport {
        x_min: screen_to_plane(viewport.x_min, viewport.x_max, resolution.width, rect.min_x),
        x_max: screen_to_plane(viewport.x_min, viewport.x_max, resolution.width, rect.max_x),
        y_min: screen_to_plane(viewport.y_min, viewport.y_max, resolution.height, rect.min_y),
        y_max: screen_to_plane(viewport.y_min, viewport.y_max, resolution.height, rect.max_y),
    }
}

/// What the display has to do after `event`.
pub open spec fn spec_action(event: Event) -> Action {
    match event {
        Event::Commit | Event::IncreaseCap => Action::Regenerate,
        Event::Export => Action::Export,
        _ => Action::Nothing,
    }
}

/// The state of a session.
pub struct Controller<T> {
    /// The region on display.
    pub viewport: Viewport<T>,
    /// The size of the screen.
    pub resolution: Resolution,
    /// The region that the next zoom will show.
    pub selection: SelectionRect,
    /// The axis in focus. No step reads it.
    pub mode: ZoomMode,
    /// The edge in focus. No step reads it.
    pub side: ZoomSide,
    /// The iteration cap.
    pub cap: u32,
}

impl<T: Scalar> Controller<T> {
    /// The selection lies on the screen and the cap is positive.
    pub open spec fn wf(self) -> bool {
        &&& self.selection.fits(self.resolution)
        &&& self.cap >= 1
    }

    /// The state that a session on `viewport` starts in.
    pub open spec fn spec_new(viewport: Viewport<T>, resolution: Resolution) -> Controller<T> {
        Controller {
            viewport,
            resolution,
            selection: SelectionRect::spec_initial(resolution),
            mode: ZoomMode::X,
            side: ZoomSide::Min,
            cap: DEFAULT_CAP,
        }
    }

    /// Whether `event` can be handled in this state: a zoom needs its four mappings to be
    /// defined, a raise of the cap needs room above the cap.
    pub open spec fn admits(self, event: Event) -> bool {
        match event {
            Event::Commit => zoom_defined(self.viewport, self.resolution, self.selection),
            Event::IncreaseCap => self.cap < u32::MAX,
            _ => true,
        }
    }

    /// The state after `event`.
    pub open spec fn next(self, event: Event) -> Controller<T> {
        match event {
            Event::SelectAxis(mode) => Controller { mode, ..self },
            Event::SelectSide(side) => Controller { side, ..self },
            Event::Step(direction) => Controller {
                selection: self.selection.spec_step(direction, self.resolution),
                ..self
            },
            Event::Commit => Controller {
                viewport: spec_zoom(self.viewport, self.resolution, self.selection),
                ..self
            },
            Event::IncreaseCap => Controller { cap: (self.cap + 1) as u32, ..self },
            Event::Export => self,
        }
    }

    /// The state after the events of `events`, first to last.
    pub open spec fn after(self, events: Seq<Event>) -> Controller<T>
        decreases events.len(),
    {
        if events.len() == 0 {
            self
        } else {
            self.after(events.drop_last()).next(events.last())
        }
    }

    /// Whether each event of `events` can be handled in the state that the events before
    /// it lead to.
    pub open spec fn admits_all(self, events: Seq<Event>) -> bool
        decreases events.len(),
    {
        events.len() == 0 || (self.admits_all(events.drop_last()) && self.after(
            events.drop_last(),
        ).admits(events.last()))
    }

    /// Starts a session on `viewport`: the selection over the first eighth of each axis,
    /// the focus on the lower edge of the horizontal axis, the cap at its default. A screen
    /// with an axis of fewer than eight pixels has no such selection and gives `None`.
    pub fn new(viewport: Viewport<T>, resolution: Resolution) -> (r: Option<Controller<T>>)
        ensures
            r is Some <==> resolution.width >= 8 && resolution.height >= 8,
            r is Some ==> r->0 == Self::spec_new(viewport, resolution) && r->0.wf(),
    {
        if resolution.width >= 8 && resolution.height >= 8 {
            Some(
                Controller {
                    viewport,
                    resolution,
                    selection: SelectionRect::initial(resolution),
                    mode: ZoomMode::X,
                    side: ZoomSide::Min,
                    cap: DEFAULT_CAP,
                },
            )
        } else {
            None
        }
    }

    /// Applies `event` to the state and says what the display has to do.
    ///
    /// A focus event sets the axis or the edge in focus. A step moves the selection. A
    /// commit replaces the viewport by the region under the selection, which stays where it
    /// is on the screen. A raise adds one to the cap. Commit and raise ask for a new image,
    /// export asks for the image to be saved, and the others ask for nothing.
    pub fn handle(&mut self, event: Event) -> (action: Action)
        requires
            exact_scalar::<T>(),
            old(self).wf(),
            old(self).admits(event),
        ensures
            *final(self) == old(self).next(event),
            action == spec_action(event),
            final(self).wf(),
            final(self).cap >= old(self).cap,
    {
        match event {
            Event::SelectAxis(mode) => {
                self.mode = mode;
                Action::Nothing
            },
            Event::SelectSide(side) => {
                self.side = side;
                Action::Nothing
            },
            Event::Step(direction) => {
                self.selection = self.selection.step(direction, self.resolution);
                Action::Nothing
            },
            Event::Commit => {
                self.viewport = zoom(&self.viewport, self.resolution, self.selection);
                Action::Regenerate
            },
            Event::IncreaseCap => {
                self.cap = self.cap + 1;
                Action::Regenerate
            },
            Event::Export => Action::Export,
        }
    }

    /// Whatever the events and however many, the selection stays on the screen, the screen
    /// keeps its size and the cap never falls.
    pub proof fn lemma_after_keeps_invariants(self, events: Seq<Event>)
        requires
            self.wf(),
            self.admits_all(events),
        ensures
            self.after(events).wf(),
            self.after(events).resolution == self.resolution,
            self.after(events).cap >= self.cap,
        decreases events.len(),
    {
        if events.len() > 0 {
            self.lemma_after_keeps_invariants(events.drop_last());
        }
    }
}

/// The number of raises of the cap among `events`.
pub open spec fn raises(events: Seq<Event>) -> nat
    decreases events.len(),
{
    if events.len() == 0 {
        0
    } else {
        raises(events.drop_last()) + if events.last() == Event::IncreaseCap {
            1nat
        } else {
            0nat
        }
    }
}

/// The number of new images that `events` ask for.
pub open spec fn regenerations(events: Seq<Event>) -> nat
    decreases events.len(),
{
    if events.len() == 0 {
        0
    } else {
        regenerations(events.drop_last()) + if spec_action(events.last()) == Action::Regenerate {
            1nat
        } else {
            0nat
        }
    }
}

/// The cap after a run of events is the cap before it plus the number of raises, and each
/// raise asks for a new image.
pub proof fn lemma_cap_counts_raises<T: Scalar>(state: Controller<T>, events: Seq<Event>)
    requires
        state.admits_all(events),
    ensures
        state.after(events).cap == state.cap + raises(events),
        regenerations(events) >= raises(events),
    decreases events.len(),
{
    if events.len() > 0 {
        lemma_cap_counts_raises(state, events.drop_last());
    }
}

} // verus!
