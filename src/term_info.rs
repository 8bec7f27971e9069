//! Terminal profiles: what the engine's terminal database reports for the terminal
//! the process runs in, read into closed values and checked.

use vstd::prelude::*;
use crate::error::ChafaError;
use crate::modes::{
    canvas_mode_of_raw, passthrough_of_raw, pixel_mode_of_raw, CanvasMode, Passthrough, PixelMode,
};

verus! {

/// What the engine's terminal database answers for a detected profile, as wire values:
/// its best canvas mode, its best pixel mode, the guards of the multiplexer it runs
/// under, and which pixel protocols need those guards.
#[derive(Clone, Copy, Debug, PartialEq, Eq, Structural)]
pub struct ProfileReport {
    pub best_canvas_mode: u32,
    pub best_pixel_mode: u32,
    pub passthrough_type: u32,
    pub sixels_guarded: bool,
    pub kitty_guarded: bool,
    pub iterm2_guarded: bool,
}

/// A terminal profile.
#[derive(Clone, Copy, Debug, PartialEq, Eq, Structural)]
pub struct TermInfo {
    /// The richest color mode the terminal supports.
    pub best_canvas_mode: CanvasMode,
    /// The best pixel protocol the terminal supports.
    pub best_pixel_mode: PixelMode,
    /// The guards of the multiplexer the terminal runs under.
    pub passthrough_type: Passthrough,
    /// Whether sixels need the multiplexer's guards.
    pub sixels_guarded: bool,
    /// Whether the Kitty protocol needs the multiplexer's guards.
    pub kitty_guarded: bool,
    /// Whether the iTerm2 protocol needs the multiplexer's guards.
    pub iterm2_guarded: bool,
}

/// What detection ranks for a profile: its best canvas mode, its best pixel mode, and
/// the guards that pixel mode needs.
#[derive(Clone, Copy, Debug, PartialEq, Eq, Structural)]
pub struct Capabilities {
    pub best_canvas_mode: CanvasMode,
    pub best_pixel_mode: PixelMode,
    pub passthrough_required: Passthrough,
}

impl TermInfo {
    /// No value of the profile is a `Max` sentinel.
    pub open spec fn wf(self) -> bool {
        &&& self.best_canvas_mode != CanvasMode::Max
        &&& self.best_pixel_mode != PixelMode::Max
        &&& self.passthrough_type != Passthrough::Max
    }
}

/// The profile that a report describes, with each wire value read as its variant.
pub open spec fn profile_of_report(r: ProfileReport) -> TermInfo {
    TermInfo {
        best_canvas_mode: canvas_mode_of_raw(r.best_canvas_mode),
        best_pixel_mode: pixel_mode_of_raw(r.best_pixel_mode),
        passthrough_type: passthrough_of_raw(r.passthrough_type),
        sixels_guarded: r.sixels_guarded,
        kitty_guarded: r.kitty_guarded,
        iterm2_guarded: r.iterm2_guarded,
    }
}

/// The profile that detection gives: none where the database matched no profile, or
/// where a value of the report reads as a `Max` sentinel.
pub open spec fn detected(report: Option<ProfileReport>) -> Option<TermInfo> {
    match report {
        Some(r) => if profile_of_report(r).wf() {
            Some(profile_of_report(r))
        } else {
            None
        },
        None => None,
    }
}

/// Guards needed for a pixel mode: the multiplexer's where the profile says that mode
/// needs them, none otherwise.
pub open spec fn passthrough_needed(t: TermInfo, m: PixelMode) -> Passthrough {
    let guarded = match m {
        PixelMode::Sixels => t.sixels_guarded,
        PixelMode::Kitty => t.kitty_guarded,
        PixelMode::Iterm2 => t.iterm2_guarded,
        _ => false,
    };
    if guarded {
        t.passthrough_type
    } else {
        Passthrough::Unguarded
    }
}

/// The capabilities of a profile.
pub open spec fn capabilities_of(t: TermInfo) -> Capabilities {
    Capabilities {
        best_canvas_mode: t.best_canvas_mode,
        best_pixel_mode: t.best_pixel_mode,
        passthrough_required: passthrough_needed(t, t.best_pixel_mode),
    }
}

impl TermInfo {
    /// A profile that supports nothing: default colors only, character symbols, and no
    /// multiplexer.
    pub fn new() -> (r: TermInfo)
        ensures
            r == (TermInfo {
                best_canvas_mode: CanvasMode::FgBg,
                best_pixel_mode: PixelMode::Symbols,
                passthrough_type: Passthrough::Unguarded,
                sixels_guarded: false,
                kitty_guarded: false,
                iterm2_guarded: false,
            }),
            r.wf(),
    {
        TermInfo {
            best_canvas_mode: CanvasMode::FgBg,
            best_pixel_mode: PixelMode::Symbols,
            passthrough_type: Passthrough::Unguarded,
            sixels_guarded: false,
            kitty_guarded: false,
            iterm2_guarded: false,
        }
    }

    /// Reads the engine's answer for the detected terminal (`None` where its database
    /// matched no profile). Fails with `DetectionFailed` where there is no profile, or
    /// where the answer names a `Max` sentinel as a mode.
    pub fn detect(report: Option<ProfileReport>) -> (r: Result<TermInfo, ChafaError>)
        ensures
            match detected(report) {
                Some(t) => r == Ok::<TermInfo, ChafaError>(t),
                None => r == Err::<TermInfo, ChafaError>(ChafaError::DetectionFailed),
            },
            r is Ok ==> r->Ok_0.wf(),
    {
        match report {
            Some(rep) => {
                let t = TermInfo {
                    best_canvas_mode: CanvasMode::from_raw(rep.best_canvas_mode),
                    best_pixel_mode: PixelMode::from_raw(rep.best_pixel_mode),
                    passthrough_type: Passthrough::from_raw(rep.passthrough_type),
                    sixels_guarded: rep.sixels_guarded,
                    kitty_guarded: rep.kitty_guarded,
                    iterm2_guarded: rep.iterm2_guarded,
                };
                if t.best_canvas_mode.is_max() || t.best_pixel_mode.is_max() || t.passthrough_type.is_max() {
                    Err(ChafaError::DetectionFailed)
                } else {
                    Ok(t)
                }
            },
            None => Err(ChafaError::DetectionFailed),
        }
    }

    pub fn get_best_canvas_mode(&self) -> (r: CanvasMode)
        requires
            self.wf(),
        ensures
            r == self.best_canvas_mode,
            r != CanvasMode::Max,
    {
        self.best_canvas_mode
    }

    pub fn get_best_pixel_mode(&self) -> (r: PixelMode)
        requires
            self.wf(),
        ensures
            r == self.best_pixel_mode,
            r != PixelMode::Max,
    {
        self.best_pixel_mode
    }

    /// The guards that `pixel_mode` needs on this terminal.
    pub fn get_is_pixel_passthrough_needed(&self, pixel_mode: PixelMode) -> (r: Passthrough)
        requires
            self.wf(),
        ensures
            r == passthrough_needed(*self, pixel_mode),
            r != Passthrough::Max,
    {
        let guarded = match pixel_mode {
            PixelMode::Sixels => self.sixels_guarded,
            PixelMode::Kitty => self.kitty_guarded,
            PixelMode::Iterm2 => self.iterm2_guarded,
            _ => false,
        };
        if guarded {
            self.passthrough_type
        } else {
            Passthrough::Unguarded
        }
    }

    /// The best modes for this terminal and the guards the best pixel mode needs.
    pub fn capabilities(&self) -> (r: Capabilities)
        requires
            self.wf(),
        ensures
            r == capabilities_of(*self),
            r.best_canvas_mode != CanvasMode::Max,
            r.best_pixel_mode != PixelMode::Max,
            r.passthrough_required != Passthrough::Max,
    {
        let best_pixel_mode = self.get_best_pixel_mode();
        Capabilities {
            best_canvas_mode: self.get_best_canvas_mode(),
            best_pixel_mode,
            passthrough_required: self.get_is_pixel_passthrough_needed(best_pixel_mode),
        }
    }
}

} // verus!
