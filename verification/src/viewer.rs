//! The viewer's state and its answer to each event of the window.
//!
//! The window's owner reports what happened as an `Event`; `ViewerState::step`
//! updates the state and returns the `Action` that the owner is to carry out.
//! Nothing here reads a file or touches the screen.

use crate::asset::ImageAsset;
use crate::layout::{
    compute_fit, compute_placement, fit_error, is_placement, MarginFactor, Placement, Size,
};
use std::path::PathBuf;
use vstd::prelude::*;

verus! {

/// `std::path::PathBuf`, carried through as it is: nothing is claimed of what
/// a path holds.
#[verifier::external_type_specification]
#[verifier::external_body]
pub struct ExPathBuf(PathBuf);

/// Where the viewer stands.
#[derive(Clone, Copy, Debug, PartialEq, Eq, Structural)]
pub enum Phase {
    /// No picture has been decoded yet.
    Empty,
    /// A picture is shown.
    Displaying,
    /// The window was asked to close; nothing happens any more.
    Terminated,
}

/// What the window reports. `H` is the renderer's handle to an uploaded
/// picture.
pub enum Event<H> {
    /// The Escape key was pressed.
    EscapePressed,
    /// The window's close button was used.
    CloseRequested,
    /// Files were dropped on the window; for each, in order, its path if it
    /// has one.
    FilesDropped(Vec<Option<PathBuf>>),
    /// The file at the current path was decoded and uploaded; `monitor` is
    /// the size of the monitor that shows the window, where it is known.
    Decoded { asset: ImageAsset, handle: H, monitor: Option<Size> },
    /// The file at the current path could not be decoded.
    DecodeFailed,
}

/// What the window's owner is to do next.
#[derive(Clone, Copy, Debug)]
pub enum Action {
    /// Nothing.
    Nothing,
    /// Close the window.
    Close,
    /// Decode the file at the state's current path, upload it, and report
    /// `Event::Decoded` or `Event::DecodeFailed`.
    Decode,
    /// Give the window this size, and move it to this offset on the monitor.
    Place(Placement),
}

/// The picture on display and the renderer's handle to it.
struct Shown<H> {
    asset: ImageAsset,
    handle: H,
}

/// The state of one viewer window.
pub struct ViewerState<H> {
    margin: MarginFactor,
    image_path: Option<PathBuf>,
    shown: Option<Shown<H>>,
    closed: bool,
}

/// What a `ViewerState` holds, as plain values.
pub struct ViewerView<H> {
    /// The share of the monitor that the window takes when it is resized.
    pub margin: MarginFactor,
    /// The path of the file that was dropped last.
    pub image_path: Option<PathBuf>,
    /// The picture on display.
    pub asset: Option<ImageAsset>,
    /// The renderer's handle to the picture on display.
    pub handle: Option<H>,
    /// Whether the window was asked to close.
    pub closed: bool,
}

impl<H> ViewerView<H> {
    /// The state of a viewer that has just been opened.
    pub open spec fn initial(margin: MarginFactor) -> ViewerView<H> {
        ViewerView { margin, image_path: None, asset: None, handle: None, closed: false }
    }

    /// Where the viewer stands.
    pub open spec fn phase(self) -> Phase {
        if self.closed {
            Phase::Terminated
        } else if self.asset is Some {
            Phase::Displaying
        } else {
            Phase::Empty
        }
    }

    /// The path that a drop of these files names: that of the first file, if
    /// there is a file and it has a path.
    pub open spec fn dropped_path(paths: Seq<Option<PathBuf>>) -> Option<PathBuf> {
        if paths.len() > 0 {
            paths[0]
        } else {
            None
        }
    }

    /// The state after `event`.
    ///
    /// A closed viewer stays as it is. A drop that names a path makes it the
    /// current path. A decoded picture replaces the one on display, together
    /// with its handle. Closing closes. Everything else changes nothing.
    pub open spec fn after(self, event: Event<H>) -> ViewerView<H> {
        if self.closed {
            self
        } else {
            match event {
                Event::EscapePressed | Event::CloseRequested => ViewerView {
                    closed: true,
                    ..self
                },
                Event::FilesDropped(paths) => match Self::dropped_path(paths@) {
                    Some(path) => ViewerView { image_path: Some(path), ..self },
                    None => self,
                },
                Event::Decoded { asset, handle, monitor } => ViewerView {
                    asset: Some(asset),
                    handle: Some(handle),
                    ..self
                },
                Event::DecodeFailed => self,
            }
        }
    }

    /// Whether `action` is what the viewer answers to `event` in this state.
    ///
    /// A closed viewer answers nothing. Escape and the close button close the
    /// window. A drop that names a path asks for that file to be decoded. A
    /// decoded picture, on a monitor of known size, places the window: at the
    /// picture's contained size in the monitor, times the margin factor, and
    /// centered; where that size does not exist, and in every other case,
    /// nothing is to be done.
    pub open spec fn answers(self, event: Event<H>, action: Action) -> bool {
        if self.closed {
            action is Nothing
        } else {
            match event {
                Event::EscapePressed | Event::CloseRequested => action is Close,
                Event::FilesDropped(paths) => if Self::dropped_path(paths@) is Some {
                    action is Decode
                } else {
                    action is Nothing
                },
                Event::Decoded { asset, handle, monitor } => match monitor {
                    Some(area) if fit_error(asset.dimensions(), area, self.margin) is None => {
                        &&& action matches Action::Place(p)
                        &&& is_placement(p, asset.dimensions(), area, self.margin)
                    },
                    _ => action is Nothing,
                },
                Event::DecodeFailed => action is Nothing,
            }
        }
    }
}

impl<H> View for ViewerState<H> {
    type V = ViewerView<H>;

    closed spec fn view(&self) -> ViewerView<H> {
        ViewerView {
            margin: self.margin,
            image_path: self.image_path,
            asset: match self.shown {
                Some(shown) => Some(shown.asset),
                None => None,
            },
            handle: match self.shown {
                Some(shown) => Some(shown.handle),
                None => None,
            },
            closed: self.closed,
        }
    }
}

impl<H> ViewerState<H> {
    /// A viewer that shows nothing yet; `margin` is the share of the monitor
    /// that its window will take for a picture.
    pub fn new(margin: MarginFactor) -> (s: ViewerState<H>)
        ensures
            s@ == ViewerView::<H>::initial(margin),
    {
        ViewerState { margin, image_path: None, shown: None, closed: false }
    }

    /// Where the viewer stands.
    pub fn phase(&self) -> (p: Phase)
        ensures
            p == self@.phase(),
    {
        if self.closed {
            Phase::Terminated
        } else if self.shown.is_some() {
            Phase::Displaying
        } else {
            Phase::Empty
        }
    }

    /// The path of the file that was dropped last.
    pub fn image_path(&self) -> (p: Option<&PathBuf>)
        ensures
            p is Some <==> self@.image_path is Some,
            p matches Some(path) ==> self@.image_path == Some(*path),
    {
        self.image_path.as_ref()
    }

    /// The picture on display.
    pub fn asset(&self) -> (a: Option<&ImageAsset>)
        ensures
            a is Some <==> self@.asset is Some,
            a matches Some(asset) ==> self@.asset == Some(*asset),
    {
        match &self.shown {
            Some(shown) => Some(&shown.asset),
            None => None,
        }
    }

    /// The renderer's handle to the picture on display.
    pub fn handle(&self) -> (h: Option<&H>)
        ensures
            h is Some <==> self@.handle is Some,
            h matches Some(handle) ==> self@.handle == Some(*handle),
    {
        match &self.shown {
            Some(shown) => Some(&shown.handle),
            None => None,
        }
    }

    /// Takes in one event: updates the state and returns what is to be done.
    pub fn step(&mut self, event: Event<H>) -> (action: Action)
        ensures
            final(self)@ == old(self)@.after(event),
            old(self)@.answers(event, action),
    {
        if self.closed {
            return Action::Nothing;
        }
        match event {
            Event::EscapePressed | Event::CloseRequested => {
                self.closed = true;
                Action::Close
            },
            Event::FilesDropped(paths) => {
                let mut paths = paths;
                if paths.len() == 0 {
                    return Action::Nothing;
                }
                match paths.remove(0) {
                    Some(path) => {
                        self.image_path = Some(path);
                        Action::Decode
                    },
                    None => Action::Nothing,
                }
            },
            Event::Decoded { asset, handle, monitor } => {
                let content = asset.size();
                self.shown = Some(Shown { asset, handle });
                match monitor {
                    Some(area) => match compute_placement(content, area, self.margin) {
                        Ok(placement) => Action::Place(placement),
                        Err(_) => Action::Nothing,
                    },
                    None => Action::Nothing,
                }
            },
            Event::DecodeFailed => Action::Nothing,
        }
    }

    /// Where to draw the picture on display in a window whose inside has the
    /// size `available`: `compute_fit` of the picture's size.
    ///
    /// `None` while no picture is shown, and where the window has no area.
    pub fn frame_layout(&self, available: Size) -> (r: Option<Placement>)
        ensures
            r is Some <==> self@.asset is Some && !available.is_empty(),
            r matches Some(p) ==> is_placement(
                p,
                self@.asset->Some_0.dimensions(),
                available,
                MarginFactor::exact(),
            ),
    {
        match &self.shown {
            Some(shown) => match compute_fit(shown.asset.size(), available) {
                Ok(placement) => Some(placement),
                Err(_) => None,
            },
            None => None,
        }
    }
}

impl<H> Default for ViewerState<H> {
    /// A viewer that shows nothing yet and whose window will fill the
    /// monitor along one side.
    fn default() -> (s: ViewerState<H>)
        ensures
            s@ == ViewerView::<H>::initial(MarginFactor::exact()),
    {
        ViewerState::new(MarginFactor::exact())
    }
}

/// The picture and its handle are there together or not at all.
pub proof fn lemma_asset_and_handle_go_together<H>(state: ViewerState<H>)
    ensures
        state@.asset is Some <==> state@.handle is Some,
{
}

/// Whatever the event, the picture and its handle are there together
/// afterwards if they were before.
pub proof fn lemma_events_keep_asset_and_handle_together<H>(before: ViewerView<H>, event: Event<H>)
    requires
        before.asset is Some <==> before.handle is Some,
    ensures
        before.after(event).asset is Some <==> before.after(event).handle is Some,
{
}

/// A failed decode changes nothing and asks for nothing.
pub proof fn lemma_decode_failure_is_ignored<H>(before: ViewerView<H>, action: Action)
    ensures
        before.after(Event::DecodeFailed) == before,
        before.answers(Event::DecodeFailed, action) <==> action is Nothing,
{
}

/// A closed viewer stays closed and as it is, and asks for nothing.
pub proof fn lemma_terminated_is_final<H>(before: ViewerView<H>, event: Event<H>, action: Action)
    requires
        before.phase() == Phase::Terminated,
    ensures
        before.after(event) == before,
        before.answers(event, action) <==> action is Nothing,
{
}

/// The phases follow one another in one direction only: a viewer leaves
/// `Empty` for `Displaying` on a decoded picture alone, never leaves
/// `Displaying` but to close, and closes on Escape or the close button alone.
pub proof fn lemma_phase_transitions<H>(before: ViewerView<H>, event: Event<H>)
    ensures
        ({
            let from = before.phase();
            let to = before.after(event).phase();
            let closing = event is EscapePressed || event is CloseRequested;
            &&& from == Phase::Terminated ==> to == Phase::Terminated
            &&& from != Phase::Terminated && closing ==> to == Phase::Terminated
            &&& from != Phase::Terminated && event is Decoded ==> to == Phase::Displaying
            &&& from != Phase::Terminated && !closing && !(event is Decoded) ==> to == from
        }),
{
}

} // verus!
