//! The drag lifecycle controller: the state machine over hover, drop, pointer
//! and close events, with the staged candidate image, the committed active
//! image and the presentation surface.

use vstd::prelude::*;
use crate::raster::{RgbaImage, ImageView, decode_view, decode_rgba};
use crate::surface::{Surface, SurfaceView};

verus! {

/// A platform event, reduced to the plain values the controller decides on.
/// A hover carries the raw bytes of the hovered file; `HoverFailed` stands
/// for a file that could not be read at all.
pub enum Event {
    HoveredFile(Vec<u8>),
    HoverFailed,
    DroppedFile,
    MouseInput { pressed: bool, primary: bool },
    CloseRequested,
}

/// The mathematical value of an event.
pub ghost enum EventView {
    HoveredFile(Seq<u8>),
    HoverFailed,
    DroppedFile,
    MouseInput { pressed: bool, primary: bool },
    CloseRequested,
}

impl View for Event {
    type V = EventView;

    open spec fn view(&self) -> EventView {
        match self {
            Event::HoveredFile(bytes) => EventView::HoveredFile(bytes@),
            Event::HoverFailed => EventView::HoverFailed,
            Event::DroppedFile => EventView::DroppedFile,
            Event::MouseInput { pressed, primary } => EventView::MouseInput {
                pressed: *pressed,
                primary: *primary,
            },
            Event::CloseRequested => EventView::CloseRequested,
        }
    }
}

/// What the caller must do after a step: nothing, present the surface on
/// screen (resizing the window to the surface's size first), or terminate the
/// event loop.
#[derive(Clone, Copy, PartialEq, Eq, Structural, Debug)]
pub enum Action {
    Nothing,
    Present,
    Exit,
}

/// The viewer: the staged candidate image, the displayed active image, the
/// presentation surface, the pointer-button state and the termination flag.
pub struct Viewer {
    candidate: Option<RgbaImage>,
    active: Option<RgbaImage>,
    surface: Surface,
    mouse_pressed: bool,
    exit_requested: bool,
}

/// The mathematical value of a viewer.
#[verifier::ext_equal]
pub ghost struct ViewerView {
    pub candidate: Option<ImageView>,
    pub active: Option<ImageView>,
    pub surface: SurfaceView,
    pub mouse_pressed: bool,
    pub exit_requested: bool,
}

impl ViewerView {
    /// Every held image and the surface hold exactly four bytes per pixel.
    pub open spec fn wf(self) -> bool {
        &&& (self.candidate matches Some(img) ==> img.wf())
        &&& (self.active matches Some(img) ==> img.wf())
        &&& self.surface.wf()
    }
}

/// One step of the drag lifecycle: the next state and the action owed.
///
/// After a close request the viewer is terminal: every further event leaves
/// it unchanged and asks for nothing. A hover stages the decode of the
/// hovered bytes as the candidate, an undecodable file staging nothing. A
/// drop unconditionally moves the candidate into the active slot — a drop
/// without a decodable hover therefore clears the display — and, when an
/// image did move, fills the surface from it. A pointer event only records
/// whether the primary button is now pressed.
pub open spec fn spec_step(v: ViewerView, e: EventView) -> (ViewerView, Action) {
    if v.exit_requested {
        (v, Action::Nothing)
    } else {
        match e {
            EventView::HoveredFile(bytes) => (
                ViewerView { candidate: decode_view(bytes), ..v },
                Action::Nothing,
            ),
            EventView::HoverFailed => (ViewerView { candidate: None, ..v }, Action::Nothing),
            EventView::DroppedFile => match v.candidate {
                Some(img) => (
                    ViewerView {
                        candidate: None,
                        active: Some(img),
                        surface: SurfaceView {
                            width: img.width,
                            height: img.height,
                            frame: img.data,
                        },
                        ..v
                    },
                    Action::Present,
                ),
                None => (ViewerView { candidate: None, active: None, ..v }, Action::Nothing),
            },
            EventView::MouseInput { pressed, primary } => (
                ViewerView { mouse_pressed: pressed && primary, ..v },
                Action::Nothing,
            ),
            EventView::CloseRequested => (
                ViewerView { exit_requested: true, ..v },
                Action::Exit,
            ),
        }
    }
}

impl View for Viewer {
    type V = ViewerView;

    closed spec fn view(&self) -> ViewerView {
        ViewerView {
            candidate: match self.candidate {
                Some(img) => Some(img@),
                None => None,
            },
            active: match self.active {
                Some(img) => Some(img@),
                None => None,
            },
            surface: self.surface@,
            mouse_pressed: self.mouse_pressed,
            exit_requested: self.exit_requested,
        }
    }
}

impl Viewer {
    /// A fresh viewer with no staged and no active image, over a cleared
    /// surface of the given initial size.
    pub fn new(width: u32, height: u32) -> (v: Viewer)
        requires
            4 * width * height <= usize::MAX,
        ensures
            v@.candidate is None,
            v@.active is None,
            v@.mouse_pressed == false,
            v@.exit_requested == false,
            v@.surface.width == width,
            v@.surface.height == height,
            v@.surface.frame == Seq::new(4 * (width as nat) * (height as nat), |j: int| 0u8),
            v@.wf(),
    {
        let v = Viewer {
            candidate: None,
            active: None,
            surface: Surface::new(width, height),
            mouse_pressed: false,
            exit_requested: false,
        };
        v
    }

    /// Dispatch one event: the new state and the returned action are exactly
    /// one step of the drag lifecycle.
    pub fn handle_event(&mut self, event: Event) -> (action: Action)
        ensures
            final(self)@ == spec_step(old(self)@, event@).0,
            action == spec_step(old(self)@, event@).1,
            old(self)@.wf() ==> final(self)@.wf(),
    {
        if self.exit_requested {
            return Action::Nothing;
        }
        match event {
            Event::HoveredFile(bytes) => {
                self.candidate = decode_rgba(&bytes);
                Action::Nothing
            },
            Event::HoverFailed => {
                self.candidate = None;
                Action::Nothing
            },
            Event::DroppedFile => {
                self.active = self.candidate.take();
                match &self.active {
                    Some(img) => {
                        self.surface.commit(img);
                        Action::Present
                    },
                    None => Action::Nothing,
                }
            },
            Event::MouseInput { pressed, primary } => {
                self.mouse_pressed = pressed && primary;
                Action::Nothing
            },
            Event::CloseRequested => {
                self.exit_requested = true;
                Action::Exit
            },
        }
    }

    /// The staged candidate image, if the last hover decoded one.
    pub fn candidate_image(&self) -> (r: Option<&RgbaImage>)
        ensures
            r matches Some(img) ==> self@.candidate == Some(img@),
            r is None ==> self@.candidate is None,
    {
        self.candidate.as_ref()
    }

    /// The committed active image, if one is displayed.
    pub fn active_image(&self) -> (r: Option<&RgbaImage>)
        ensures
            r matches Some(img) ==> self@.active == Some(img@),
            r is None ==> self@.active is None,
    {
        self.active.as_ref()
    }

    /// The presentation surface.
    pub fn surface(&self) -> (s: &Surface)
        ensures
            s@ == self@.surface,
    {
        &self.surface
    }

    /// Whether the primary pointer button is currently pressed.
    pub fn mouse_pressed(&self) -> (b: bool)
        ensures
            b == self@.mouse_pressed,
    {
        self.mouse_pressed
    }

    /// Whether a close request has been handled.
    pub fn exit_requested(&self) -> (b: bool)
        ensures
            b == self@.exit_requested,
    {
        self.exit_requested
    }
}

} // verus!
