//! Window management: what the engine decides about the window.
//!
//! The window itself — its events loop, its GL context — belongs to the
//! embedding program. This module fixes the settings a window is built
//! with, and the one decision the event loop takes: whether the game
//! keeps running.

use vstd::prelude::*;

verus! {

/// The settings a window is built with.
pub struct WindowSettings {
    pub dimensions: (u32, u32),
    /// The monitor to go fullscreen on, by the embedding program's
    /// handle; windowed when absent.
    pub fullscreen: Option<u64>,
    pub title: String,
    pub vsync: bool,
    pub multisampling: u16,
}

/// Builds windows.
pub struct Builder {
    pub dimensions: Option<(u32, u32)>,
    pub fullscreen: Option<u64>,
    pub title: Option<String>,
    pub vsync: bool,
    pub multisampling: u16,
}

impl Builder {
    pub fn new() -> (b: Builder)
        ensures
            b.dimensions is None,
            b.fullscreen is None,
            b.title is None,
            !b.vsync,
            b.multisampling == 0,
    {
        Builder { dimensions: None, fullscreen: None, title: None, vsync: false, multisampling: 0 }
    }

    pub fn with_multisampling(self, multisampling: u16) -> (b: Builder)
        ensures
            b == (Builder { multisampling, ..self }),
    {
        Builder { multisampling, ..self }
    }

    pub fn with_dimensions(self, width: u32, height: u32) -> (b: Builder)
        ensures
            b == (Builder { dimensions: Some((width, height)), ..self }),
    {
        Builder { dimensions: Some((width, height)), ..self }
    }

    pub fn with_fullscreen(self, f: u64) -> (b: Builder)
        ensures
            b == (Builder { fullscreen: Some(f), ..self }),
    {
        Builder { fullscreen: Some(f), ..self }
    }

    pub fn with_title(self, t: String) -> (b: Builder)
        ensures
            b == (Builder { title: Some(t), ..self }),
    {
        Builder { title: Some(t), ..self }
    }

    pub fn with_vsync(self, v: bool) -> (b: Builder)
        ensures
            b == (Builder { vsync: v, ..self }),
    {
        Builder { vsync: v, ..self }
    }

    /// The settings the window is built with: the chosen dimensions and
    /// title, or 1280 by 720 and a default title where none were chosen.
    pub fn build_settings(self) -> (w: WindowSettings)
        ensures
            w.dimensions == match self.dimensions {
                Some(d) => d,
                None => (1280u32, 720u32),
            },
            w.title@ == match self.title {
                Some(t) => t@,
                None => "Default Window"@,
            },
            w.fullscreen == self.fullscreen,
            w.vsync == self.vsync,
            w.multisampling == self.multisampling,
    {
        let dimensions = match self.dimensions {
            Some(d) => d,
            None => (1280u32, 720u32),
        };
        let title = match self.title {
            Some(t) => t,
            None => "Default Window".to_owned(),
        };
        WindowSettings {
            dimensions,
            fullscreen: self.fullscreen,
            title,
            vsync: self.vsync,
            multisampling: self.multisampling,
        }
    }
}

/// A window event, reduced to what the engine reads of it. Mouse
/// coordinates and wheel deltas are carried as the raw bit patterns of
/// the floats the embedding program works in.
#[derive(Clone, Copy, PartialEq, Eq, Debug)]
pub enum WindowEvent {
    /// The window was asked to close.
    Closed,
    KeyboardInput,
    MouseMoved { x_bits: u64, y_bits: u64 },
    MouseInput,
    MouseWheel { delta_y_bits: u32 },
    ReceivedCharacter(char),
    Other,
}

/// Whether the game keeps running after these events: it stops exactly
/// when the window was asked to close.
pub open spec fn spec_keeps_running(events: Seq<WindowEvent>) -> bool {
    forall|i: int| 0 <= i < events.len() ==> !((#[trigger] events[i]) is Closed)
}

/// The one decision of the event poll: the game keeps running unless
/// some event closed the window.
pub fn keeps_running(events: &Vec<WindowEvent>) -> (r: bool)
    ensures
        r == spec_keeps_running(events@),
{
    let n = events.len();
    for i in 0..n
        invariant
            n == events@.len(),
            forall|j: int| 0 <= j < i ==> !((#[trigger] events@[j]) is Closed),
    {
        match &events[i] {
            WindowEvent::Closed => {
                return false;
            },
            _ => {},
        }
    }
    true
}

} // verus!
