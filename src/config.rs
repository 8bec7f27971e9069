//! Render configuration: the modes, guards and geometry that a session renders with.

use vstd::prelude::*;
use crate::error::ChafaError;
use crate::geometry::{
    calc_canvas_geometry, canvas_geometry, cell_geometry_of, font_ratio_of, FontRatio, TermSize,
};
use crate::modes::{CanvasMode, Passthrough, PixelMode};
use crate::term_info::{capabilities_of, detected, ProfileReport, TermInfo};

verus! {

/// What a configuration holds. A `-1` in a geometry marks it as unset.
pub struct ConfigView {
    pub canvas_mode: CanvasMode,
    pub pixel_mode: PixelMode,
    pub passthrough: Passthrough,
    pub width_cells: int,
    pub height_cells: int,
    pub cell_width: int,
    pub cell_height: int,
    pub term_info: Option<TermInfo>,
}

/// A configuration before anything is set: true color, character symbols, no guards,
/// no geometry and no terminal profile.
pub open spec fn blank_config() -> ConfigView {
    ConfigView {
        canvas_mode: CanvasMode::TrueColor,
        pixel_mode: PixelMode::Symbols,
        passthrough: Passthrough::Unguarded,
        width_cells: -1,
        height_cells: -1,
        cell_width: -1,
        cell_height: -1,
        term_info: None,
    }
}

/// The configuration built for a detected profile: its best canvas mode, its best
/// pixel mode and the guards that mode needs on it, with the profile kept.
pub open spec fn config_for(t: TermInfo) -> ConfigView {
    ConfigView {
        canvas_mode: capabilities_of(t).best_canvas_mode,
        pixel_mode: capabilities_of(t).best_pixel_mode,
        passthrough: capabilities_of(t).passthrough_required,
        term_info: Some(t),
        ..blank_config()
    }
}

/// How a session renders: modes, guards, canvas size in cells, cell size in pixels,
/// and the terminal profile, where one was detected.
pub struct Config {
    canvas_mode: CanvasMode,
    pixel_mode: PixelMode,
    passthrough: Passthrough,
    width_cells: i32,
    height_cells: i32,
    cell_width: i32,
    cell_height: i32,
    term_info: Option<TermInfo>,
}

impl View for Config {
    type V = ConfigView;

    closed spec fn view(&self) -> ConfigView {
        ConfigView {
            canvas_mode: self.canvas_mode,
            pixel_mode: self.pixel_mode,
            passthrough: self.passthrough,
            width_cells: self.width_cells as int,
            height_cells: self.height_cells as int,
            cell_width: self.cell_width as int,
            cell_height: self.cell_height as int,
            term_info: self.term_info,
        }
    }
}

impl Config {
    /// No mode is a `Max` sentinel.
    pub open spec fn wf(&self) -> bool {
        &&& self@.canvas_mode != CanvasMode::Max
        &&& self@.pixel_mode != PixelMode::Max
        &&& self@.passthrough != Passthrough::Max
        &&& self@.term_info is Some ==> self@.term_info->Some_0.wf()
    }

    /// A configuration with nothing set.
    pub fn new() -> (r: Config)
        ensures
            r@ == blank_config(),
            r.wf(),
    {
        Config {
            canvas_mode: CanvasMode::TrueColor,
            pixel_mode: PixelMode::Symbols,
            passthrough: Passthrough::Unguarded,
            width_cells: -1,
            height_cells: -1,
            cell_width: -1,
            cell_height: -1,
            term_info: None,
        }
    }

    /// A configuration for the terminal that the engine's terminal database detected,
    /// from its answer `report` (`None` where it matched no profile).
    pub fn detect(report: Option<ProfileReport>) -> (r: Result<Config, ChafaError>)
        ensures
            match detected(report) {
                Some(t) => r is Ok && r->Ok_0@ == config_for(t),
                None => r == Err::<Config, ChafaError>(ChafaError::DetectionFailed),
            },
            r is Ok ==> r->Ok_0.wf(),
            r is Ok ==> r->Ok_0@.canvas_mode != CanvasMode::Max && r->Ok_0@.pixel_mode != PixelMode::Max
                && r->Ok_0@.passthrough != Passthrough::Max,
    {
        match TermInfo::detect(report) {
            Ok(t) => {
                let mut conf = Config::new();
                let caps = t.capabilities();
                conf.set_canvas_mode(caps.best_canvas_mode);
                conf.set_pixel_mode(caps.best_pixel_mode);
                conf.set_passthrough(caps.passthrough_required);
                conf.term_info = Some(t);
                Ok(conf)
            },
            Err(e) => Err(e),
        }
    }

    pub fn set_canvas_mode(&mut self, mode: CanvasMode)
        requires
            mode != CanvasMode::Max,
        ensures
            final(self)@ == (ConfigView { canvas_mode: mode, ..old(self)@ }),
    {
        self.canvas_mode = mode;
    }

    pub fn set_pixel_mode(&mut self, mode: PixelMode)
        requires
            mode != PixelMode::Max,
        ensures
            final(self)@ == (ConfigView { pixel_mode: mode, ..old(self)@ }),
    {
        self.pixel_mode = mode;
    }

    pub fn set_passthrough(&mut self, passthrough: Passthrough)
        requires
            passthrough != Passthrough::Max,
        ensures
            final(self)@ == (ConfigView { passthrough, ..old(self)@ }),
    {
        self.passthrough = passthrough;
    }

    /// Sets the canvas size in cells; `-1` leaves a side unset.
    pub fn set_geometry(&mut self, width_cells: i32, height_cells: i32)
        ensures
            final(self)@ == (ConfigView {
                width_cells: width_cells as int,
                height_cells: height_cells as int,
                ..old(self)@
            }),
    {
        self.width_cells = width_cells;
        self.height_cells = height_cells;
    }

    /// Sets the size of one cell in pixels; `-1` leaves a side unset.
    pub fn set_cell_geometry(&mut self, cell_width: i32, cell_height: i32)
        ensures
            final(self)@ == (ConfigView {
                cell_width: cell_width as int,
                cell_height: cell_height as int,
                ..old(self)@
            }),
    {
        self.cell_width = cell_width;
        self.cell_height = cell_height;
    }

    /// Sizes the canvas for a `src_width` by `src_height` image on the terminal `term`:
    /// the cell size is taken from the window where it gives one, and the canvas size
    /// is computed with the cell shape that follows (cells twice as tall as wide where
    /// the window gives none).
    pub fn fit_image(&mut self, src_width: i32, src_height: i32, term: &TermSize, zoom: bool, stretch: bool)
        ensures
            ({
                let ratio = FontRatio {
                    cell_width: font_ratio_of(*term).0 as u32,
                    cell_height: font_ratio_of(*term).1 as u32,
                };
                let g = canvas_geometry(src_width as int, src_height as int, ratio, zoom, stretch, *term);
                final(self)@ == (ConfigView {
                    width_cells: g.0,
                    height_cells: g.1,
                    cell_width: cell_geometry_of(*term).0,
                    cell_height: cell_geometry_of(*term).1,
                    ..old(self)@
                })
            }),
    {
        let ratio = term.font_ratio();
        let (width_cells, height_cells) = calc_canvas_geometry(src_width, src_height, ratio, zoom, stretch, term);
        let (cell_width, cell_height) = term.cell_geometry();
        self.set_geometry(width_cells, height_cells);
        self.set_cell_geometry(cell_width, cell_height);
    }

    pub fn canvas_mode(&self) -> (r: CanvasMode)
        ensures
            r == self@.canvas_mode,
    {
        self.canvas_mode
    }

    pub fn pixel_mode(&self) -> (r: PixelMode)
        ensures
            r == self@.pixel_mode,
    {
        self.pixel_mode
    }

    pub fn passthrough(&self) -> (r: Passthrough)
        ensures
            r == self@.passthrough,
    {
        self.passthrough
    }

    /// Canvas size in cells, `-1` where unset.
    pub fn geometry(&self) -> (r: (i32, i32))
        ensures
            r.0 as int == self@.width_cells,
            r.1 as int == self@.height_cells,
    {
        (self.width_cells, self.height_cells)
    }

    /// Size of one cell in pixels, `-1` where unset.
    pub fn cell_geometry(&self) -> (r: (i32, i32))
        ensures
            r.0 as int == self@.cell_width,
            r.1 as int == self@.cell_height,
    {
        (self.cell_width, self.cell_height)
    }

    /// The detected terminal profile, if any.
    pub fn term_info(&self) -> (r: Option<TermInfo>)
        ensures
            r == self@.term_info,
    {
        self.term_info
    }
}

} // verus!
