//! Closed enumerations of the rendering engine and their integer wire values.

use vstd::prelude::*;

verus! {

/// Terminal graphics transport used to display image data.
#[derive(Clone, Copy, Debug, PartialEq, Eq, Structural)]
pub enum PixelMode {
    /// Pixel data is approximated using character symbols ("ANSI art").
    Symbols,
    /// Pixel data is encoded as sixels.
    Sixels,
    /// Pixel data is encoded using the Kitty terminal protocol.
    Kitty,
    /// Pixel data is encoded using the iTerm2 terminal protocol.
    Iterm2,
    /// Last supported pixel mode plus one.
    Max,
}

/// Wire value of a pixel mode.
pub open spec fn pixel_mode_raw(m: PixelMode) -> u32 {
    match m {
        PixelMode::Symbols => 0,
        PixelMode::Sixels => 1,
        PixelMode::Kitty => 2,
        PixelMode::Iterm2 => 3,
        PixelMode::Max => 4,
    }
}

/// PixelMode carried by a wire value; an unknown value reads as `Symbols`.
pub open spec fn pixel_mode_of_raw(v: u32) -> PixelMode {
    if v == 1 {
        PixelMode::Sixels
    } else if v == 2 {
        PixelMode::Kitty
    } else if v == 3 {
        PixelMode::Iterm2
    } else if v == 4 {
        PixelMode::Max
    } else {
        PixelMode::Symbols
    }
}

impl PixelMode {
    /// Reads a wire value; an unknown value reads as `Symbols`.
    pub fn from_raw(v: u32) -> (r: PixelMode)
        ensures
            r == pixel_mode_of_raw(v),
    {
        match v {
            1 => PixelMode::Sixels,
            2 => PixelMode::Kitty,
            3 => PixelMode::Iterm2,
            4 => PixelMode::Max,
            _ => PixelMode::Symbols,
        }
    }

    /// The wire value of this variant.
    pub fn to_raw(self) -> (r: u32)
        ensures
            r == pixel_mode_raw(self),
    {
        match self {
            PixelMode::Symbols => 0,
            PixelMode::Sixels => 1,
            PixelMode::Kitty => 2,
            PixelMode::Iterm2 => 3,
            PixelMode::Max => 4,
        }
    }

    /// Whether this is the `Max` sentinel, which is never an active value.
    pub fn is_max(self) -> (r: bool)
        ensures
            r == (self == PixelMode::Max),
    {
        matches!(self, PixelMode::Max)
    }
}

impl From<u32> for PixelMode {
    fn from(value: u32) -> (r: PixelMode) {
        PixelMode::from_raw(value)
    }
}

impl vstd::std_specs::convert::FromSpecImpl<u32> for PixelMode {
    open spec fn obeys_from_spec() -> bool {
        true
    }

    open spec fn from_spec(v: u32) -> PixelMode {
        pixel_mode_of_raw(v)
    }
}

impl From<PixelMode> for u32 {
    fn from(value: PixelMode) -> (r: u32) {
        value.to_raw()
    }
}

impl vstd::std_specs::convert::FromSpecImpl<PixelMode> for u32 {
    open spec fn obeys_from_spec() -> bool {
        true
    }

    open spec fn from_spec(v: PixelMode) -> u32 {
        pixel_mode_raw(v)
    }
}

/// Every variant survives the trip to its wire value and back, and every
/// wire value up to that of `Max` survives the trip to a variant and back.
pub proof fn lemma_pixel_mode_round_trip(m: PixelMode, v: u32)
    ensures
        pixel_mode_of_raw(pixel_mode_raw(m)) == m,
        v <= 4 ==> pixel_mode_raw(pixel_mode_of_raw(v)) == v,
        v > 4 ==> pixel_mode_of_raw(v) == PixelMode::Symbols,
{
}

/// Color depth used when approximating an image with character cells.
#[derive(Clone, Copy, Debug, PartialEq, Eq, Structural)]
pub enum CanvasMode {
    /// Truecolor.
    TrueColor,
    /// 256 colors.
    Indexed256,
    /// 256 colors, but avoid using the lower 16 whose values vary between terminal environments.
    Indexed240,
    /// 16 colors using the aixterm ANSI extension.
    Indexed16,
    /// Default foreground and background colors, plus inversion.
    FgbgBgfg,
    /// Default foreground and background colors. No ANSI codes will be used.
    FgBg,
    /// 8 colors, compatible with original ANSI X3.64.
    Indexed8,
    /// 16 FG colors (8 of which enabled with bold/bright) and 8 BG colors.
    Indexed168,
    /// Last supported canvas mode plus one.
    Max,
}

/// Wire value of a canvas mode.
pub open spec fn canvas_mode_raw(m: CanvasMode) -> u32 {
    match m {
        CanvasMode::TrueColor => 0,
        CanvasMode::Indexed256 => 1,
        CanvasMode::Indexed240 => 2,
        CanvasMode::Indexed16 => 3,
        CanvasMode::FgbgBgfg => 4,
        CanvasMode::FgBg => 5,
        CanvasMode::Indexed8 => 6,
        CanvasMode::Indexed168 => 7,
        CanvasMode::Max => 8,
    }
}

/// CanvasMode carried by a wire value; an unknown value reads as `TrueColor`.
pub open spec fn canvas_mode_of_raw(v: u32) -> CanvasMode {
    if v == 1 {
        CanvasMode::Indexed256
    } else if v == 2 {
        CanvasMode::Indexed240
    } else if v == 3 {
        CanvasMode::Indexed16
    } else if v == 4 {
        CanvasMode::FgbgBgfg
    } else if v == 5 {
        CanvasMode::FgBg
    } else if v == 6 {
        CanvasMode::Indexed8
    } else if v == 7 {
        CanvasMode::Indexed168
    } else if v == 8 {
        CanvasMode::Max
    } else {
        CanvasMode::TrueColor
    }
}

impl CanvasMode {
    /// Reads a wire value; an unknown value reads as `TrueColor`.
    pub fn from_raw(v: u32) -> (r: CanvasMode)
        ensures
            r == canvas_mode_of_raw(v),
    {
        match v {
            1 => CanvasMode::Indexed256,
            2 => CanvasMode::Indexed240,
            3 => CanvasMode::Indexed16,
            4 => CanvasMode::FgbgBgfg,
            5 => CanvasMode::FgBg,
            6 => CanvasMode::Indexed8,
            7 => CanvasMode::Indexed168,
            8 => CanvasMode::Max,
            _ => CanvasMode::TrueColor,
        }
    }

    /// The wire value of this variant.
    pub fn to_raw(self) -> (r: u32)
        ensures
            r == canvas_mode_raw(self),
    {
        match self {
            CanvasMode::TrueColor => 0,
            CanvasMode::Indexed256 => 1,
            CanvasMode::Indexed240 => 2,
            CanvasMode::Indexed16 => 3,
            CanvasMode::FgbgBgfg => 4,
            CanvasMode::FgBg => 5,
            CanvasMode::Indexed8 => 6,
            CanvasMode::Indexed168 => 7,
            CanvasMode::Max => 8,
        }
    }

    /// Whether this is the `Max` sentinel, which is never an active value.
    pub fn is_max(self) -> (r: bool)
        ensures
            r == (self == CanvasMode::Max),
    {
        matches!(self, CanvasMode::Max)
    }
}

impl From<u32> for CanvasMode {
    fn from(value: u32) -> (r: CanvasMode) {
        CanvasMode::from_raw(value)
    }
}

impl vstd::std_specs::convert::FromSpecImpl<u32> for CanvasMode {
    open spec fn obeys_from_spec() -> bool {
        true
    }

    open spec fn from_spec(v: u32) -> CanvasMode {
        canvas_mode_of_raw(v)
    }
}

impl From<CanvasMode> for u32 {
    fn from(value: CanvasMode) -> (r: u32) {
        value.to_raw()
    }
}

impl vstd::std_specs::convert::FromSpecImpl<CanvasMode> for u32 {
    open spec fn obeys_from_spec() -> bool {
        true
    }

    open spec fn from_spec(v: CanvasMode) -> u32 {
        canvas_mode_raw(v)
    }
}

/// Every variant survives the trip to its wire value and back, and every
/// wire value up to that of `Max` survives the trip to a variant and back.
pub proof fn lemma_canvas_mode_round_trip(m: CanvasMode, v: u32)
    ensures
        canvas_mode_of_raw(canvas_mode_raw(m)) == m,
        v <= 8 ==> canvas_mode_raw(canvas_mode_of_raw(v)) == v,
        v > 8 ==> canvas_mode_of_raw(v) == CanvasMode::TrueColor,
{
}

/// Guard sequences that let pixel-protocol data through a terminal multiplexer.
#[derive(Clone, Copy, Debug, PartialEq, Eq, Structural)]
pub enum Passthrough {
    /// No passthrough guards will be used.
    Unguarded,
    /// Passthrough guards for GNU Screen will be used.
    Screen,
    /// Passthrough guards for tmux will be used.
    Tmux,
    /// Last supported passthrough mode plus one.
    Max,
}

/// Wire value of a passthrough.
pub open spec fn passthrough_raw(m: Passthrough) -> u32 {
    match m {
        Passthrough::Unguarded => 0,
        Passthrough::Screen => 1,
        Passthrough::Tmux => 2,
        Passthrough::Max => 3,
    }
}

/// Passthrough carried by a wire value; an unknown value reads as `Unguarded`.
pub open spec fn passthrough_of_raw(v: u32) -> Passthrough {
    if v == 1 {
        Passthrough::Screen
    } else if v == 2 {
        Passthrough::Tmux
    } else if v == 3 {
        Passthrough::Max
    } else {
        Passthrough::Unguarded
    }
}

impl Passthrough {
    /// Reads a wire value; an unknown value reads as `Unguarded`.
    pub fn from_raw(v: u32) -> (r: Passthrough)
        ensures
            r == passthrough_of_raw(v),
    {
        match v {
            1 => Passthrough::Screen,
            2 => Passthrough::Tmux,
            3 => Passthrough::Max,
            _ => Passthrough::Unguarded,
        }
    }

    /// The wire value of this variant.
    pub fn to_raw(self) -> (r: u32)
        ensures
            r == passthrough_raw(self),
    {
        match self {
            Passthrough::Unguarded => 0,
            Passthrough::Screen => 1,
            Passthrough::Tmux => 2,
            Passthrough::Max => 3,
        }
    }

    /// Whether this is the `Max` sentinel, which is never an active value.
    pub fn is_max(self) -> (r: bool)
        ensures
            r == (self == Passthrough::Max),
    {
        matches!(self, Passthrough::Max)
    }
}

impl From<u32> for Passthrough {
    fn from(value: u32) -> (r: Passthrough) {
        Passthrough::from_raw(value)
    }
}

impl vstd::std_specs::convert::FromSpecImpl<u32> for Passthrough {
    open spec fn obeys_from_spec() -> bool {
        true
    }

    open spec fn from_spec(v: u32) -> Passthrough {
        passthrough_of_raw(v)
    }
}

impl From<Passthrough> for u32 {
    fn from(value: Passthrough) -> (r: u32) {
        value.to_raw()
    }
}

impl vstd::std_specs::convert::FromSpecImpl<Passthrough> for u32 {
    open spec fn obeys_from_spec() -> bool {
        true
    }

    open spec fn from_spec(v: Passthrough) -> u32 {
        passthrough_raw(v)
    }
}

/// Every variant survives the trip to its wire value and back, and every
/// wire value up to that of `Max` survives the trip to a variant and back.
pub proof fn lemma_passthrough_round_trip(m: Passthrough, v: u32)
    ensures
        passthrough_of_raw(passthrough_raw(m)) == m,
        v <= 3 ==> passthrough_raw(passthrough_of_raw(v)) == v,
        v > 3 ==> passthrough_of_raw(v) == Passthrough::Unguarded,
{
}

/// Layout of the pixels in a source buffer.
#[derive(Clone, Copy, Debug, PartialEq, Eq, Structural)]
pub enum PixelType {
    /// Premultiplied RGBA, 8 bits per channel.
    RGBA8Premultiplied,
    /// Premultiplied BGRA, 8 bits per channel.
    BGRA8Premultiplied,
    /// Premultiplied ARGB, 8 bits per channel.
    ARGB8Premultiplied,
    /// Premultiplied ABGR, 8 bits per channel.
    ABGR8Premultiplied,
    /// Unassociated RGBA, 8 bits per channel.
    RGBA8Unassociated,
    /// Unassociated BGRA, 8 bits per channel.
    BGRA8Unassociated,
    /// Unassociated ARGB, 8 bits per channel.
    ARGB8Unassociated,
    /// Unassociated ABGR, 8 bits per channel.
    ABGR8Unassociated,
    /// Packed RGB (no alpha), 8 bits per channel.
    RGB8,
    /// Packed BGR (no alpha), 8 bits per channel.
    BGR8,
    /// Last supported pixel type, plus one.
    Max,
}

/// Wire value of a pixel type.
pub open spec fn pixel_type_raw(m: PixelType) -> u32 {
    match m {
        PixelType::RGBA8Premultiplied => 0,
        PixelType::BGRA8Premultiplied => 1,
        PixelType::ARGB8Premultiplied => 2,
        PixelType::ABGR8Premultiplied => 3,
        PixelType::RGBA8Unassociated => 4,
        PixelType::BGRA8Unassociated => 5,
        PixelType::ARGB8Unassociated => 6,
        PixelType::ABGR8Unassociated => 7,
        PixelType::RGB8 => 8,
        PixelType::BGR8 => 9,
        PixelType::Max => 10,
    }
}

/// PixelType carried by a wire value; an unknown value reads as `RGBA8Premultiplied`.
pub open spec fn pixel_type_of_raw(v: u32) -> PixelType {
    if v == 1 {
        PixelType::BGRA8Premultiplied
    } else if v == 2 {
        PixelType::ARGB8Premultiplied
    } else if v == 3 {
        PixelType::ABGR8Premultiplied
    } else if v == 4 {
        PixelType::RGBA8Unassociated
    } else if v == 5 {
        PixelType::BGRA8Unassociated
    } else if v == 6 {
        PixelType::ARGB8Unassociated
    } else if v == 7 {
        PixelType::ABGR8Unassociated
    } else if v == 8 {
        PixelType::RGB8
    } else if v == 9 {
        PixelType::BGR8
    } else if v == 10 {
        PixelType::Max
    } else {
        PixelType::RGBA8Premultiplied
    }
}

impl PixelType {
    /// Reads a wire value; an unknown value reads as `RGBA8Premultiplied`.
    pub fn from_raw(v: u32) -> (r: PixelType)
        ensures
            r == pixel_type_of_raw(v),
    {
        match v {
            1 => PixelType::BGRA8Premultiplied,
            2 => PixelType::ARGB8Premultiplied,
            3 => PixelType::ABGR8Premultiplied,
            4 => PixelType::RGBA8Unassociated,
            5 => PixelType::BGRA8Unassociated,
            6 => PixelType::ARGB8Unassociated,
            7 => PixelType::ABGR8Unassociated,
            8 => PixelType::RGB8,
            9 => PixelType::BGR8,
            10 => PixelType::Max,
            _ => PixelType::RGBA8Premultiplied,
        }
    }

    /// The wire value of this variant.
    pub fn to_raw(self) -> (r: u32)
        ensures
            r == pixel_type_raw(self),
    {
        match self {
            PixelType::RGBA8Premultiplied => 0,
            PixelType::BGRA8Premultiplied => 1,
            PixelType::ARGB8Premultiplied => 2,
            PixelType::ABGR8Premultiplied => 3,
            PixelType::RGBA8Unassociated => 4,
            PixelType::BGRA8Unassociated => 5,
            PixelType::ARGB8Unassociated => 6,
            PixelType::ABGR8Unassociated => 7,
            PixelType::RGB8 => 8,
            PixelType::BGR8 => 9,
            PixelType::Max => 10,
        }
    }

    /// Whether this is the `Max` sentinel, which is never an active value.
    pub fn is_max(self) -> (r: bool)
        ensures
            r == (self == PixelType::Max),
    {
        matches!(self, PixelType::Max)
    }
}

impl From<u32> for PixelType {
    fn from(value: u32) -> (r: PixelType) {
        PixelType::from_raw(value)
    }
}

impl vstd::std_specs::convert::FromSpecImpl<u32> for PixelType {
    open spec fn obeys_from_spec() -> bool {
        true
    }

    open spec fn from_spec(v: u32) -> PixelType {
        pixel_type_of_raw(v)
    }
}

impl From<PixelType> for u32 {
    fn from(value: PixelType) -> (r: u32) {
        value.to_raw()
    }
}

impl vstd::std_specs::convert::FromSpecImpl<PixelType> for u32 {
    open spec fn obeys_from_spec() -> bool {
        true
    }

    open spec fn from_spec(v: PixelType) -> u32 {
        pixel_type_raw(v)
    }
}

/// Every variant survives the trip to its wire value and back, and every
/// wire value up to that of `Max` survives the trip to a variant and back.
pub proof fn lemma_pixel_type_round_trip(m: PixelType, v: u32)
    ensures
        pixel_type_of_raw(pixel_type_raw(m)) == m,
        v <= 10 ==> pixel_type_raw(pixel_type_of_raw(v)) == v,
        v > 10 ==> pixel_type_of_raw(v) == PixelType::RGBA8Premultiplied,
{
}

/// Bytes that one pixel of the given type takes; the `Max` sentinel takes none.
pub open spec fn bytes_per_pixel_spec(t: PixelType) -> int {
    match t {
        PixelType::RGB8 | PixelType::BGR8 => 3,
        PixelType::Max => 0,
        _ => 4,
    }
}

impl PixelType {
    /// Bytes that one pixel of this type takes; the `Max` sentinel takes none.
    pub fn bytes_per_pixel(self) -> (r: u32)
        ensures
            r == bytes_per_pixel_spec(self),
    {
        match self {
            PixelType::RGB8 | PixelType::BGR8 => 3,
            PixelType::Max => 0,
            _ => 4,
        }
    }
}

} // verus!
