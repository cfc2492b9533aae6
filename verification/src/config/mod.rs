//! Configuration values, their defaults, and the rules that read them from
//! the text of a configuration file.
use std::collections::HashMap;
use std::path::PathBuf;
use std::time::Duration;

use vstd::prelude::*;

use crate::index::{Column, Line};
use crate::ansi::{Color, NamedColor};
use crate::cli::Options;
use crate::config::bindings::{default_key_bindings, default_mouse_bindings};
use crate::input::{KeyBinding, ModifiersState, MouseBinding};
use crate::Rgb;

pub mod bindings;
pub mod parse;

verus! {

/// Largest scrollback history a configuration may ask for.
pub const MAX_SCROLLBACK_LINES: u32 = 100000;

/// The `Duration` that std's `Duration::from_millis` makes of a count of
/// milliseconds.
pub uninterp spec fn duration_of_millis(millis: u64) -> Duration;

/// Calls std's `Duration::from_millis`; the result is named, as a function of
/// the count alone.
#[verifier::external_body]
pub(crate) fn duration_from_millis(millis: u64) -> (d: Duration)
    ensures
        d == duration_of_millis(millis),
{
    Duration::from_millis(millis)
}

/// std's `Duration` is `Copy`: its `clone` gives back the same duration.
pub assume_specification[ <Duration as Clone>::clone ](d: &Duration) -> (r: Duration)
    ensures
        r == *d,
;

/// Text selection settings.
#[derive(Clone, Debug, PartialEq, Eq)]
pub struct Selection {
    pub semantic_escape_chars: String,
    pub save_to_clipboard: bool,
}

/// The characters that end a semantic selection.
pub open spec fn default_escape_chars_spec() -> Seq<char> {
    ",│`|:\"' ()[]{}<>"@
}

/// The characters that end a semantic selection.
pub fn default_escape_chars() -> (s: String)
    ensures
        s@ == default_escape_chars_spec(),
{
    ",│`|:\"' ()[]{}<>".to_owned()
}

impl Default for Selection {
    fn default() -> (r: Selection)
        ensures
            r.semantic_escape_chars@ == default_escape_chars_spec(),
            !r.save_to_clipboard,
    {
        Selection { semantic_escape_chars: default_escape_chars(), save_to_clipboard: false }
    }
}

/// Timing of a multi-click.
#[derive(Clone, Debug, PartialEq, Eq)]
pub struct ClickHandler {
    pub threshold: Duration,
}

/// The default multi-click threshold: 300 ms.
pub fn default_threshold_ms() -> (d: Duration)
    ensures
        d == duration_of_millis(300),
{
    duration_from_millis(300)
}

impl Default for ClickHandler {
    fn default() -> (r: ClickHandler)
        ensures
            r.threshold == duration_of_millis(300),
    {
        ClickHandler { threshold: default_threshold_ms() }
    }
}

/// A command line: a program alone, or a program with its arguments.
#[derive(Debug, Clone, PartialEq, Eq)]
pub enum CommandWrapper {
    Just(String),
    WithArgs { program: String, args: Vec<String> },
}

impl CommandWrapper {
    /// The program to run.
    pub fn program(&self) -> (p: &str)
        ensures
            self matches CommandWrapper::Just(program) ==> p@ == program@,
            self matches CommandWrapper::WithArgs { program, .. } ==> p@ == program@,
    {
        match self {
            CommandWrapper::Just(program) => program.as_str(),
            CommandWrapper::WithArgs { program, .. } => program.as_str(),
        }
    }

    /// The arguments to pass: none for a bare program.
    pub fn args(&self) -> (a: &[String])
        ensures
            self is Just ==> a@.len() == 0,
            self matches CommandWrapper::WithArgs { args, .. } ==> a@ == args@,
    {
        match self {
            CommandWrapper::Just(_) => &[],
            CommandWrapper::WithArgs { args, .. } => args.as_slice(),
        }
    }
}

/// Where URLs are opened, and with which modifiers held.
#[derive(Clone, Debug, PartialEq, Eq)]
pub struct Url {
    /// Program for opening links
    pub launcher: Option<CommandWrapper>,
    /// Modifier used to open links
    pub modifiers: ModifiersState,
}

impl Default for Url {
    fn default() -> (r: Url)
        ensures
            r.launcher matches Some(CommandWrapper::Just(p)) && p@ == "xdg-open"@,
            r.modifiers == ModifiersState::default_spec(),
    {
        Url {
            launcher: Some(CommandWrapper::Just("xdg-open".to_owned())),
            modifiers: ModifiersState { shift: false, ctrl: false, alt: false, logo: false },
        }
    }
}

impl ModifiersState {
    /// No modifier held.
    pub open spec fn default_spec() -> ModifiersState {
        ModifiersState { shift: false, ctrl: false, alt: false, logo: false }
    }
}

/// Mouse settings.
#[derive(Clone, Debug, PartialEq, Eq)]
pub struct Mouse {
    pub double_click: ClickHandler,
    pub triple_click: ClickHandler,
    pub hide_when_typing: bool,
    pub url: Url,
    pub faux_scrollback_lines: Option<usize>,
}

/// Visual bell animations, modeled after a subset of CSS transitions and
/// Robert Penner's easing functions.
#[derive(Clone, Copy, Debug, PartialEq, Eq, Structural)]
pub enum VisualBellAnimation {
    Ease,
    EaseOut,
    EaseOutSine,
    EaseOutQuad,
    EaseOutCubic,
    EaseOutQuart,
    EaseOutQuint,
    EaseOutExpo,
    EaseOutCirc,
    Linear,
}

impl Default for VisualBellAnimation {
    fn default() -> (r: VisualBellAnimation)
        ensures
            r == VisualBellAnimation::EaseOutExpo,
    {
        VisualBellAnimation::EaseOutExpo
    }
}

/// Visual bell settings.
#[derive(Debug, PartialEq, Eq, Clone, Copy)]
pub struct VisualBellConfig {
    /// Visual bell animation function
    animation: VisualBellAnimation,
    /// Visual bell duration in milliseconds
    duration: u16,
    /// Visual bell flash color
    color: Rgb,
}

/// The default bell flash: white.
pub fn default_visual_bell_color() -> (c: Rgb)
    ensures
        c == (Rgb { r: 255, g: 255, b: 255 }),
{
    Rgb { r: 255, g: 255, b: 255 }
}

/// The default bell duration, in milliseconds: none.
pub fn default_visual_bell_duration() -> (d: u16)
    ensures
        d == 0,
{
    0
}

impl Default for VisualBellConfig {
    fn default() -> (r: VisualBellConfig)
        ensures
            r.spec_animation() == VisualBellAnimation::EaseOutExpo,
            r.spec_duration_ms() == 0,
            r.spec_color() == (Rgb { r: 255, g: 255, b: 255 }),
    {
        VisualBellConfig {
            animation: VisualBellAnimation::EaseOutExpo,
            duration: default_visual_bell_duration(),
            color: default_visual_bell_color(),
        }
    }
}

impl VisualBellConfig {
    pub closed spec fn spec_animation(self) -> VisualBellAnimation {
        self.animation
    }

    pub closed spec fn spec_duration_ms(self) -> u16 {
        self.duration
    }

    pub closed spec fn spec_color(self) -> Rgb {
        self.color
    }

    /// A bell of the given animation, duration in milliseconds and color.
    pub fn new(animation: VisualBellAnimation, duration: u16, color: Rgb) -> (r: VisualBellConfig)
        ensures
            r.spec_animation() == animation,
            r.spec_duration_ms() == duration,
            r.spec_color() == color,
    {
        VisualBellConfig { animation, duration, color }
    }

    /// Visual bell animation
    pub fn animation(&self) -> (r: VisualBellAnimation)
        ensures
            r == self.spec_animation(),
    {
        self.animation
    }

    /// Visual bell duration
    pub fn duration(&self) -> (r: Duration)
        ensures
            r == duration_of_millis(self.spec_duration_ms() as u64),
    {
        duration_from_millis(self.duration as u64)
    }

    /// Visual bell flash color
    pub fn color(&self) -> (r: Rgb)
        ensures
            r == self.spec_color(),
    {
        self.color
    }
}

/// The shell to run: a program and its arguments.
#[derive(Debug, PartialEq, Eq, Clone)]
pub struct Shell {
    program: String,
    args: Vec<String>,
}

impl Shell {
    pub closed spec fn spec_program(&self) -> Seq<char> {
        self.program@
    }

    pub closed spec fn spec_args(&self) -> Seq<String> {
        self.args@
    }

    /// A shell that runs `program` with no arguments.
    pub fn new(program: String) -> (r: Shell)
        ensures
            r.spec_program() == program@,
            r.spec_args().len() == 0,
    {
        Shell { program, args: Vec::new() }
    }

    /// A shell that runs `program` with `args`.
    pub fn new_with_args(program: String, args: Vec<String>) -> (r: Shell)
        ensures
            r.spec_program() == program@,
            r.spec_args() == args@,
    {
        Shell { program, args }
    }

    pub fn program(&self) -> (r: &str)
        ensures
            r@ == self.spec_program(),
    {
        self.program.as_str()
    }

    pub fn args(&self) -> (r: &[String])
        ensures
            r@ == self.spec_args(),
    {
        self.args.as_slice()
    }
}

/// Window decorations.
#[derive(Debug, Copy, Clone, PartialEq, Eq, Structural)]
pub enum Decorations {
    Full,
    Transparent,
    Buttonless,
    NoDecorations,
}

impl Default for Decorations {
    fn default() -> (r: Decorations)
        ensures
            r == Decorations::Full,
    {
        Decorations::Full
    }
}

/// A delta for a point in a 2 dimensional plane
#[derive(Clone, Copy, Debug, Default, PartialEq, Eq, Structural)]
pub struct Delta<T> {
    /// Horizontal change
    pub x: T,
    /// Vertical change
    pub y: T,
}

/// Window Dimensions
#[derive(Default, Debug, Copy, Clone, PartialEq, Eq, Structural)]
pub struct Dimensions {
    /// Window width in character columns
    columns: Column,
    /// Window Height in character lines
    lines: Line,
}

impl Dimensions {
    pub closed spec fn spec_columns(self) -> Column {
        self.columns
    }

    pub closed spec fn spec_lines(self) -> Line {
        self.lines
    }

    pub fn new(columns: Column, lines: Line) -> (r: Dimensions)
        ensures
            r.spec_columns() == columns,
            r.spec_lines() == lines,
    {
        Dimensions { columns, lines }
    }

    /// Get lines, truncated to 32 bits as `as` does.
    pub fn lines_u32(&self) -> (r: u32)
        ensures
            r == self.spec_lines().0 as u32,
    {
        self.lines.0 as u32
    }

    /// Get columns, truncated to 32 bits as `as` does.
    pub fn columns_u32(&self) -> (r: u32)
        ensures
            r == self.spec_columns().0 as u32,
    {
        self.columns.0 as u32
    }
}

/// Pixel padding around the terminal, per side; `x` and `y` are the
/// deprecated forms of left and right, and top and bottom.
#[derive(Clone, Copy, Debug, PartialEq, Eq, Structural)]
pub struct Padding {
    pub top: u8,
    pub right: u8,
    pub bottom: u8,
    pub left: u8,
    x: Option<u8>,
    y: Option<u8>,
}

impl Padding {
    pub closed spec fn spec_top(&self) -> u8 {
        self.top
    }

    pub closed spec fn spec_right(&self) -> u8 {
        self.right
    }

    pub closed spec fn spec_bottom(&self) -> u8 {
        self.bottom
    }

    pub closed spec fn spec_left(&self) -> u8 {
        self.left
    }

    pub closed spec fn spec_x(&self) -> Option<u8> {
        self.x
    }

    pub closed spec fn spec_y(&self) -> Option<u8> {
        self.y
    }

    /// Padding of the given sides, without the deprecated forms.
    pub fn new(top: u8, right: u8, bottom: u8, left: u8) -> (r: Padding)
        ensures
            r.spec_top() == top && r.spec_right() == right && r.spec_bottom() == bottom && r.spec_left() == left,
            r.spec_x() is None && r.spec_y() is None,
    {
        Padding { top, right, bottom, left, x: None, y: None }
    }

    /// Padding of the given sides and deprecated forms, as a configuration
    /// file gives them.
    pub fn with_deprecated(top: u8, right: u8, bottom: u8, left: u8, x: Option<u8>, y: Option<u8>) -> (r: Padding)
        ensures
            r.spec_top() == top && r.spec_right() == right && r.spec_bottom() == bottom && r.spec_left() == left,
            r.spec_x() == x && r.spec_y() == y,
    {
        Padding { top, right, bottom, left, x, y }
    }

    /// Padding above and below together.
    pub fn vertical(&self) -> (r: u8)
        requires
            self.spec_top() + self.spec_bottom() <= u8::MAX,
        ensures
            r == self.spec_top() + self.spec_bottom(),
    {
        self.top + self.bottom
    }

    /// Padding left and right together.
    pub fn horizontal(&self) -> (r: u8)
        requires
            self.spec_left() + self.spec_right() <= u8::MAX,
        ensures
            r == self.spec_left() + self.spec_right(),
    {
        self.left + self.right
    }

    /// The deprecated `y` sets top and bottom, and `x` left and right.
    pub fn apply_deprecated_padding(&mut self)
        ensures
            final(self).spec_top() == (match old(self).spec_y() { Some(y) => y, None => old(self).spec_top() }),
            final(self).spec_bottom() == (match old(self).spec_y() { Some(y) => y, None => old(self).spec_bottom() }),
            final(self).spec_left() == (match old(self).spec_x() { Some(x) => x, None => old(self).spec_left() }),
            final(self).spec_right() == (match old(self).spec_x() { Some(x) => x, None => old(self).spec_right() }),
            final(self).spec_x() == old(self).spec_x(),
            final(self).spec_y() == old(self).spec_y(),
    {
        if let Some(y) = self.y {
            self.top = y;
            self.bottom = y;
        }
        if let Some(x) = self.x {
            self.right = x;
            self.left = x;
        }
    }
}

impl Default for Padding {
    fn default() -> (r: Padding)
        ensures
            r.spec_top() == 2 && r.spec_right() == 2 && r.spec_bottom() == 2 && r.spec_left() == 2,
            r.spec_x() is None && r.spec_y() is None,
    {
        Padding { top: 2, right: 2, bottom: 2, left: 2, x: None, y: None }
    }
}

/// A padding side that cannot be read defaults to 2 pixels.
pub fn default_padding_side() -> (r: u8)
    ensures
        r == 2,
{
    2
}

/// The default padding: two pixels on each side.
pub fn default_padding() -> (r: Delta<u8>)
    ensures
        r == (Delta { x: 2u8, y: 2u8 }),
{
    Delta { x: 2, y: 2 }
}

/// Window settings.
#[derive(Debug, Copy, Clone, PartialEq, Eq, Structural)]
pub struct WindowConfig {
    /// Initial dimensions
    dimensions: Dimensions,
    /// Initial position
    position: Option<Delta<i32>>,
    /// Pixel padding
    padding: Delta<u8>,
    /// Draw the window with title bar / borders
    decorations: Decorations,
    /// Spread out additional padding evenly
    dynamic_padding: bool,
    /// Start maximized
    start_maximized: bool,
}

impl Default for WindowConfig {
    fn default() -> (r: WindowConfig)
        ensures
            r.spec_dimensions() == Dimensions::spec_zero(),
            r.spec_position() is None,
            r.spec_padding() == (Delta { x: 2u8, y: 2u8 }),
            r.spec_decorations() == Decorations::Full,
            !r.spec_dynamic_padding(),
            !r.spec_start_maximized(),
    {
        WindowConfig {
            dimensions: Dimensions::new(Column(0), Line(0)),
            position: None,
            padding: default_padding(),
            decorations: Decorations::Full,
            dynamic_padding: false,
            start_maximized: false,
        }
    }
}

impl Dimensions {
    /// No columns and no lines.
    pub closed spec fn spec_zero() -> Dimensions {
        Dimensions { columns: Column(0), lines: Line(0) }
    }
}

impl WindowConfig {
    pub closed spec fn spec_dimensions(self) -> Dimensions {
        self.dimensions
    }

    pub closed spec fn spec_position(self) -> Option<Delta<i32>> {
        self.position
    }

    pub closed spec fn spec_padding(self) -> Delta<u8> {
        self.padding
    }

    pub closed spec fn spec_decorations(self) -> Decorations {
        self.decorations
    }

    pub closed spec fn spec_dynamic_padding(self) -> bool {
        self.dynamic_padding
    }

    pub closed spec fn spec_start_maximized(self) -> bool {
        self.start_maximized
    }

    /// A window configuration of the given values.
    pub fn new(
        dimensions: Dimensions,
        position: Option<Delta<i32>>,
        padding: Delta<u8>,
        decorations: Decorations,
        dynamic_padding: bool,
        start_maximized: bool,
    ) -> (r: WindowConfig)
        ensures
            r.spec_dimensions() == dimensions,
            r.spec_position() == position,
            r.spec_padding() == padding,
            r.spec_decorations() == decorations,
            r.spec_dynamic_padding() == dynamic_padding,
            r.spec_start_maximized() == start_maximized,
    {
        WindowConfig { dimensions, position, padding, decorations, dynamic_padding, start_maximized }
    }

    pub fn dimensions(&self) -> (r: Dimensions)
        ensures
            r == self.spec_dimensions(),
    {
        self.dimensions
    }

    pub fn position(&self) -> (r: Option<Delta<i32>>)
        ensures
            r == self.spec_position(),
    {
        self.position
    }

    pub fn padding(&self) -> (r: Delta<u8>)
        ensures
            r == self.spec_padding(),
    {
        self.padding
    }

    pub fn decorations(&self) -> (r: Decorations)
        ensures
            r == self.spec_decorations(),
    {
        self.decorations
    }

    pub fn dynamic_padding(&self) -> (r: bool)
        ensures
            r == self.spec_dynamic_padding(),
    {
        self.dynamic_padding
    }

    pub fn start_maximized(&self) -> (r: bool)
        ensures
            r == self.spec_start_maximized(),
    {
        self.start_maximized
    }
}

/// Scrolling settings.
#[derive(Copy, Clone, Debug, PartialEq, Eq, Structural)]
pub struct Scrolling {
    pub history: u32,
    pub multiplier: u8,
    pub faux_multiplier: u8,
    pub auto_scroll: bool,
}

/// Default scrollback history: 10000 lines.
pub fn default_scrolling_history() -> (r: u32)
    ensures
        r == 10000,
{
    10000
}

/// Default multiplier for normal and faux scrolling: 3.
pub fn default_scrolling_multiplier() -> (r: u8)
    ensures
        r == 3,
{
    3
}

impl Default for Scrolling {
    fn default() -> (r: Scrolling)
        ensures
            r == (Scrolling { history: 10000, multiplier: 3, faux_multiplier: 3, auto_scroll: false }),
    {
        Scrolling {
            history: default_scrolling_history(),
            multiplier: default_scrolling_multiplier(),
            faux_multiplier: default_scrolling_multiplier(),
            auto_scroll: false,
        }
    }
}

/// The scrollback history that a configured size gives: at most
/// `MAX_SCROLLBACK_LINES`.
pub fn clamp_scrolling_history(lines: u32) -> (r: u32)
    ensures
        r == (if lines > MAX_SCROLLBACK_LINES { MAX_SCROLLBACK_LINES } else { lines }),
{
    if lines > MAX_SCROLLBACK_LINES {
        MAX_SCROLLBACK_LINES
    } else {
        lines
    }
}

/// Default tab stop spacing: 8.
pub fn default_tabspaces() -> (r: usize)
    ensures
        r == 8,
{
    8
}

/// The value of a flag that defaults to true.
pub fn default_true_bool() -> (r: bool)
    ensures
        r,
{
    true
}

/// The default of a flag that is on unless turned off.
pub fn true_bool() -> (r: bool)
    ensures
        r,
{
    true
}

/// The default number of lines that faux scrolling moves: 1.
pub fn default_faux_scrollback_lines() -> (r: usize)
    ensures
        r == 1,
{
    1
}

/// The shape of the cursor.
#[derive(Debug, Eq, PartialEq, Copy, Clone, Hash, Structural)]
pub enum CursorStyle {
    /// Cursor is a block like `▒`
    Block,
    /// Cursor is an underscore like `_`
    Underline,
    /// Cursor is a vertical bar `⎸`
    Beam,
    /// Cursor is a box like `☐`
    HollowBlock,
}

impl Default for CursorStyle {
    fn default() -> (r: CursorStyle)
        ensures
            r == CursorStyle::Block,
    {
        CursorStyle::Block
    }
}

/// Cursor settings.
#[derive(Copy, Clone, Debug, PartialEq, Eq, Structural)]
pub struct Cursor {
    pub style: CursorStyle,
    pub unfocused_hollow: bool,
}

impl Default for Cursor {
    fn default() -> (r: Cursor)
        ensures
            r == (Cursor { style: CursorStyle::Block, unfocused_hollow: true }),
    {
        Cursor { style: CursorStyle::Block, unfocused_hollow: true }
    }
}

/// Colors of the text and block of the cursor.
#[derive(Debug, Copy, Clone, Default, PartialEq, Eq, Structural)]
pub struct CursorColors {
    pub text: Option<Rgb>,
    pub cursor: Option<Rgb>,
}

/// Colors of selected text and its background.
#[derive(Debug, Copy, Clone, Default, PartialEq, Eq, Structural)]
pub struct SelectionColors {
    pub text: Option<Rgb>,
    pub background: Option<Rgb>,
}

/// Primary foreground and background colors.
#[derive(Debug, Copy, Clone, PartialEq, Eq, Structural)]
pub struct PrimaryColors {
    pub background: Rgb,
    pub foreground: Rgb,
    pub bright_foreground: Option<Rgb>,
    pub dim_foreground: Option<Rgb>,
}

/// The default background: black.
pub fn default_background() -> (r: Rgb)
    ensures
        r == (Rgb { r: 0, g: 0, b: 0 }),
{
    Rgb { r: 0, g: 0, b: 0 }
}

/// The default foreground: light gray.
pub fn default_foreground() -> (r: Rgb)
    ensures
        r == (Rgb { r: 0xea, g: 0xea, b: 0xea }),
{
    Rgb { r: 0xea, g: 0xea, b: 0xea }
}

impl Default for PrimaryColors {
    fn default() -> (r: PrimaryColors)
        ensures
            r.background == (Rgb { r: 0, g: 0, b: 0 }),
            r.foreground == (Rgb { r: 0xea, g: 0xea, b: 0xea }),
            r.bright_foreground is None,
            r.dim_foreground is None,
    {
        PrimaryColors {
            background: default_background(),
            foreground: default_foreground(),
            bright_foreground: None,
            dim_foreground: None,
        }
    }
}

/// The 8-colors sections of config
#[derive(Debug, Copy, Clone, PartialEq, Eq, Structural)]
pub struct AnsiColors {
    pub black: Rgb,
    pub red: Rgb,
    pub green: Rgb,
    pub yellow: Rgb,
    pub blue: Rgb,
    pub magenta: Rgb,
    pub cyan: Rgb,
    pub white: Rgb,
}

/// The default normal colors.
pub open spec fn normal_colors_spec() -> AnsiColors {
    AnsiColors {
        black: Rgb { r: 0x00, g: 0x00, b: 0x00 },
        red: Rgb { r: 0xd5, g: 0x4e, b: 0x53 },
        green: Rgb { r: 0xb9, g: 0xca, b: 0x4a },
        yellow: Rgb { r: 0xe6, g: 0xc5, b: 0x47 },
        blue: Rgb { r: 0x7a, g: 0xa6, b: 0xda },
        magenta: Rgb { r: 0xc3, g: 0x97, b: 0xd8 },
        cyan: Rgb { r: 0x70, g: 0xc0, b: 0xba },
        white: Rgb { r: 0xea, g: 0xea, b: 0xea },
    }
}

/// The default bright colors.
pub open spec fn bright_colors_spec() -> AnsiColors {
    AnsiColors {
        black: Rgb { r: 0x66, g: 0x66, b: 0x66 },
        red: Rgb { r: 0xff, g: 0x33, b: 0x34 },
        green: Rgb { r: 0x9e, g: 0xc4, b: 0x00 },
        yellow: Rgb { r: 0xe7, g: 0xc5, b: 0x47 },
        blue: Rgb { r: 0x7a, g: 0xa6, b: 0xda },
        magenta: Rgb { r: 0xb7, g: 0x7e, b: 0xe0 },
        cyan: Rgb { r: 0x54, g: 0xce, b: 0xd6 },
        white: Rgb { r: 0xff, g: 0xff, b: 0xff },
    }
}

pub fn default_normal_colors() -> (r: AnsiColors)
    ensures
        r == normal_colors_spec(),
{
    AnsiColors {
        black: Rgb { r: 0x00, g: 0x00, b: 0x00 },
        red: Rgb { r: 0xd5, g: 0x4e, b: 0x53 },
        green: Rgb { r: 0xb9, g: 0xca, b: 0x4a },
        yellow: Rgb { r: 0xe6, g: 0xc5, b: 0x47 },
        blue: Rgb { r: 0x7a, g: 0xa6, b: 0xda },
        magenta: Rgb { r: 0xc3, g: 0x97, b: 0xd8 },
        cyan: Rgb { r: 0x70, g: 0xc0, b: 0xba },
        white: Rgb { r: 0xea, g: 0xea, b: 0xea },
    }
}

pub fn default_bright_colors() -> (r: AnsiColors)
    ensures
        r == bright_colors_spec(),
{
    AnsiColors {
        black: Rgb { r: 0x66, g: 0x66, b: 0x66 },
        red: Rgb { r: 0xff, g: 0x33, b: 0x34 },
        green: Rgb { r: 0x9e, g: 0xc4, b: 0x00 },
        yellow: Rgb { r: 0xe7, g: 0xc5, b: 0x47 },
        blue: Rgb { r: 0x7a, g: 0xa6, b: 0xda },
        magenta: Rgb { r: 0xb7, g: 0x7e, b: 0xe0 },
        cyan: Rgb { r: 0x54, g: 0xce, b: 0xd6 },
        white: Rgb { r: 0xff, g: 0xff, b: 0xff },
    }
}

/// A color for one of the 256 indexed colors.
#[derive(Debug, Copy, Clone, PartialEq, Eq, Structural)]
pub struct IndexedColor {
    pub index: u8,
    pub color: Rgb,
}

/// The index that a configured indexed color keeps: the 16 named colors
/// cannot be overridden, so an index below 16 becomes 0, which is ignored.
pub fn checked_color_index(index: u8) -> (r: u8)
    ensures
        r == (if index < 16 { 0u8 } else { index }),
{
    if index < 16 {
        0
    } else {
        index
    }
}

/// All color settings.
#[derive(Debug, Clone, PartialEq, Eq)]
pub struct Colors {
    pub primary: PrimaryColors,
    pub cursor: CursorColors,
    pub selection: SelectionColors,
    pub normal: AnsiColors,
    pub bright: AnsiColors,
    pub dim: Option<AnsiColors>,
    pub indexed_colors: Vec<IndexedColor>,
}

impl Default for Colors {
    fn default() -> (r: Colors)
        ensures
            r.primary.background == (Rgb { r: 0, g: 0, b: 0 }),
            r.primary.foreground == (Rgb { r: 0xea, g: 0xea, b: 0xea }),
            r.primary.bright_foreground is None,
            r.primary.dim_foreground is None,
            r.cursor == (CursorColors { text: None, cursor: None }),
            r.selection == (SelectionColors { text: None, background: None }),
            r.normal == normal_colors_spec(),
            r.bright == bright_colors_spec(),
            r.dim is None,
            r.indexed_colors@.len() == 0,
    {
        Colors {
            primary: PrimaryColors::default(),
            cursor: CursorColors { text: None, cursor: None },
            selection: SelectionColors { text: None, background: None },
            normal: default_normal_colors(),
            bright: default_bright_colors(),
            dim: None,
            indexed_colors: Vec::new(),
        }
    }
}

/// Either the colors of the cursor, or the primary colors standing in for them.
#[derive(Debug, Copy, Clone, PartialEq, Eq, Structural)]
pub enum CursorOrPrimaryColors {
    Cursor { text: Rgb, cursor: Rgb },
    Primary { foreground: Rgb, background: Rgb },
}

impl CursorOrPrimaryColors {
    /// The cursor colors these stand for: the primary background is the
    /// cursor's text color and the primary foreground its block color.
    pub fn into_cursor_colors(self) -> (r: CursorColors)
        ensures
            self matches CursorOrPrimaryColors::Cursor { text, cursor } ==> r == (CursorColors {
                text: Some(text),
                cursor: Some(cursor),
            }),
            self matches CursorOrPrimaryColors::Primary { foreground, background } ==> r == (
            CursorColors { text: Some(background), cursor: Some(foreground) }),
    {
        match self {
            CursorOrPrimaryColors::Cursor { text, cursor } => CursorColors {
                text: Some(text),
                cursor: Some(cursor),
            },
            CursorOrPrimaryColors::Primary { foreground, background } => CursorColors {
                text: Some(background),
                cursor: Some(foreground),
            },
        }
    }
}

/// A font size, counted in half points.
#[derive(Debug, Copy, Clone, PartialEq, Eq, Structural, Hash)]
pub struct Size(pub i16);

/// The default font size: 11 points.
pub fn default_font_size() -> (r: Size)
    ensures
        r == Size(22),
{
    Size(22)
}

/// Description of the normal font
#[derive(Debug, Clone, PartialEq, Eq)]
pub struct FontDescription {
    pub family: String,
    pub style: Option<String>,
}

impl FontDescription {
    /// A description of `family` with no style.
    pub fn new_with_family(family: String) -> (r: FontDescription)
        ensures
            r.family@ == family@,
            r.style is None,
    {
        FontDescription { family, style: None }
    }
}

impl Default for FontDescription {
    fn default() -> (r: FontDescription)
        ensures
            r.family@ == "monospace"@,
            r.style is None,
    {
        FontDescription { family: "monospace".to_owned(), style: None }
    }
}

/// Copies a string.
fn clone_string(s: &String) -> (r: String)
    ensures
        r@ == s@,
{
    s.clone()
}

/// Copies an optional string.
fn clone_opt_string(s: &Option<String>) -> (r: Option<String>)
    ensures
        s is None ==> r is None,
        s matches Some(v) ==> (r matches Some(w) && w@ == v@),
{
    match s {
        Some(v) => Some(v.clone()),
        None => None,
    }
}

/// Description of the italic and bold font
#[derive(Debug, Default, Clone, PartialEq, Eq)]
pub struct SecondaryFontDescription {
    family: Option<String>,
    style: Option<String>,
}

impl SecondaryFontDescription {
    pub closed spec fn spec_family(&self) -> Option<String> {
        self.family
    }

    pub closed spec fn spec_style(&self) -> Option<String> {
        self.style
    }

    /// A description of the given family and style.
    pub fn new(family: Option<String>, style: Option<String>) -> (r: SecondaryFontDescription)
        ensures
            r.spec_family() == family,
            r.spec_style() == style,
    {
        SecondaryFontDescription { family, style }
    }

    /// The full description: its own family, or else the fallback's, and
    /// its own style.
    pub fn desc(&self, fallback: &FontDescription) -> (r: FontDescription)
        ensures
            self.spec_family() matches Some(f) ==> r.family@ == f@,
            self.spec_family() is None ==> r.family@ == fallback.family@,
            self.spec_style() is None ==> r.style is None,
            self.spec_style() matches Some(s) ==> (r.style matches Some(t) && t@ == s@),
    {
        let family = match &self.family {
            Some(f) => clone_string(f),
            None => clone_string(&fallback.family),
        };
        FontDescription { family, style: clone_opt_string(&self.style) }
    }
}

/// Font settings.
#[derive(Debug, Clone, PartialEq, Eq)]
pub struct Font {
    /// Normal font face
    normal: FontDescription,
    /// Italic font face
    italic: SecondaryFontDescription,
    /// Bold font face
    bold: SecondaryFontDescription,
    /// Font size in points
    pub size: Size,
    /// Extra spacing per character
    offset: Delta<i8>,
    /// Glyph offset within character cell
    glyph_offset: Delta<i8>,
}

impl Default for Font {
    fn default() -> (r: Font)
        ensures
            r.spec_size() == Size(22),
            r.spec_normal().family@ == "monospace"@,
            r.spec_normal().style is None,
            r.spec_italic().spec_family() is None,
            r.spec_italic().spec_style() is None,
            r.spec_bold().spec_family() is None,
            r.spec_bold().spec_style() is None,
            r.spec_offset() == (Delta { x: 0i8, y: 0i8 }),
            r.spec_glyph_offset() == (Delta { x: 0i8, y: 0i8 }),
    {
        Font {
            normal: FontDescription::default(),
            italic: SecondaryFontDescription { family: None, style: None },
            bold: SecondaryFontDescription { family: None, style: None },
            size: default_font_size(),
            offset: Delta { x: 0, y: 0 },
            glyph_offset: Delta { x: 0, y: 0 },
        }
    }
}

impl Font {
    pub closed spec fn spec_size(&self) -> Size {
        self.size
    }

    pub closed spec fn spec_normal(&self) -> FontDescription {
        self.normal
    }

    pub closed spec fn spec_italic(&self) -> SecondaryFontDescription {
        self.italic
    }

    pub closed spec fn spec_bold(&self) -> SecondaryFontDescription {
        self.bold
    }

    pub closed spec fn spec_offset(&self) -> Delta<i8> {
        self.offset
    }

    pub closed spec fn spec_glyph_offset(&self) -> Delta<i8> {
        self.glyph_offset
    }

    /// A font of the given faces, size and offsets.
    pub fn new(
        normal: FontDescription,
        italic: SecondaryFontDescription,
        bold: SecondaryFontDescription,
        size: Size,
        offset: Delta<i8>,
        glyph_offset: Delta<i8>,
    ) -> (r: Font)
        ensures
            r.spec_normal() == normal,
            r.spec_italic() == italic,
            r.spec_bold() == bold,
            r.spec_size() == size,
            r.spec_offset() == offset,
            r.spec_glyph_offset() == glyph_offset,
    {
        Font { normal, italic, bold, size, offset, glyph_offset }
    }

    /// Get the font size in points
    pub fn size(&self) -> (r: Size)
        ensures
            r == self.spec_size(),
    {
        self.size
    }

    /// Get offsets to font metrics
    pub fn offset(&self) -> (r: &Delta<i8>)
        ensures
            *r == self.spec_offset(),
    {
        &self.offset
    }

    /// Get cell offsets for glyphs
    pub fn glyph_offset(&self) -> (r: &Delta<i8>)
        ensures
            *r == self.spec_glyph_offset(),
    {
        &self.glyph_offset
    }

    /// Get a font clone with a size modification
    pub fn with_size(self, size: Size) -> (r: Font)
        ensures
            r.spec_size() == size,
            r.spec_normal() == self.spec_normal(),
            r.spec_italic() == self.spec_italic(),
            r.spec_bold() == self.spec_bold(),
            r.spec_offset() == self.spec_offset(),
            r.spec_glyph_offset() == self.spec_glyph_offset(),
    {
        Font { size, ..self }
    }

    /// Get normal font description
    pub fn normal(&self) -> (r: &FontDescription)
        ensures
            *r == self.spec_normal(),
    {
        &self.normal
    }

    /// Get italic font description
    pub fn italic(&self) -> (r: FontDescription)
        ensures
            self.spec_italic().spec_family() matches Some(f) ==> r.family@ == f@,
            self.spec_italic().spec_family() is None ==> r.family@ == self.spec_normal().family@,
            self.spec_italic().spec_style() is None ==> r.style is None,
            self.spec_italic().spec_style() matches Some(s) ==> (r.style matches Some(t) && t@
                == s@),
    {
        self.italic.desc(&self.normal)
    }

    /// Get bold font description
    pub fn bold(&self) -> (r: FontDescription)
        ensures
            self.spec_bold().spec_family() matches Some(f) ==> r.family@ == f@,
            self.spec_bold().spec_family() is None ==> r.family@ == self.spec_normal().family@,
            self.spec_bold().spec_style() is None ==> r.style is None,
            self.spec_bold().spec_style() matches Some(s) ==> (r.style matches Some(t) && t@
                == s@),
    {
        self.bold.desc(&self.normal)
    }
}

/// The default bold face: that of the default font, the default family
/// with no style.
pub fn default_bold_desc() -> (r: FontDescription)
    ensures
        r.family@ == "monospace"@,
        r.style is None,
{
    Font::default().bold()
}

/// The default italic face: that of the default font, the default family
/// with no style.
pub fn default_italic_desc() -> (r: FontDescription)
    ensures
        r.family@ == "monospace"@,
        r.style is None,
{
    Font::default().italic()
}

/// A keyboard key, by its name in the configuration, or by its scancode.
#[derive(Copy, Clone, Debug, Eq, PartialEq, Hash, Structural)]
pub enum Key {
    Scancode(u32),
    Key1, Key2, Key3, Key4, Key5, Key6, Key7, Key8, Key9, Key0,
    A, B, C, D, E, F, G, H, I, J, K, L, M, N, O, P, Q, R, S, T, U, V, W, X, Y, Z,
    Escape,
    F1, F2, F3, F4, F5, F6, F7, F8, F9, F10, F11, F12, F13, F14, F15, F16, F17, F18, F19, F20,
    F21, F22, F23, F24,
    Snapshot, Scroll, Pause, Insert, Home, Delete, End, PageDown, PageUp,
    Left, Up, Right, Down,
    Back, Return, Space, Compose, Numlock,
    Numpad0, Numpad1, Numpad2, Numpad3, Numpad4, Numpad5, Numpad6, Numpad7, Numpad8, Numpad9,
    AbntC1, AbntC2, Add, Apostrophe, Apps, At, Ax, Backslash, Calculator, Capital, Colon, Comma,
    Convert, Decimal, Divide, Equals, Grave, Kana, Kanji, LAlt, LBracket, LControl, LShift, LWin,
    Mail, MediaSelect, MediaStop, Minus, Multiply, Mute, MyComputer, NavigateForward,
    NavigateBackward, NextTrack, NoConvert, NumpadComma, NumpadEnter, NumpadEquals, OEM102,
    Period, PlayPause, Power, PrevTrack, RAlt, RBracket, RControl, RShift, RWin, Semicolon, Slash,
    Sleep, Stop, Subtract, Sysrq, Tab, Underline, Unlabeled, VolumeDown, VolumeUp, Wake, WebBack,
    WebFavorites, WebForward, WebHome, WebRefresh, WebSearch, WebStop, Yen, Caret, Copy, Paste,
    Cut,
}

/// A key as the windowing system names it.
#[derive(Copy, Clone, Debug, Eq, PartialEq, Hash, Structural)]
pub enum VirtualKeyCode {
    Key1, Key2, Key3, Key4, Key5, Key6, Key7, Key8, Key9, Key0, A, B, C, D, E, F, G, H, I, J, K,
    L, M, N, O, P, Q, R, S, T, U, V, W, X, Y, Z, Escape, F1, F2, F3, F4, F5, F6, F7, F8, F9,
    F10, F11, F12, F13, F14, F15, F16, F17, F18, F19, F20, F21, F22, F23, F24, Snapshot, Scroll,
    Pause, Insert, Home, Delete, End, PageDown, PageUp, Left, Up, Right, Down, Back, Return,
    Space, Compose, Numlock, Numpad0, Numpad1, Numpad2, Numpad3, Numpad4, Numpad5, Numpad6,
    Numpad7, Numpad8, Numpad9, AbntC1, AbntC2, Add, Apostrophe, Apps, At, Ax, Backslash,
    Calculator, Capital, Colon, Comma, Convert, Decimal, Divide, Equals, Grave, Kana, Kanji,
    LAlt, LBracket, LControl, LShift, LWin, Mail, MediaSelect, MediaStop, Minus, Multiply, Mute,
    MyComputer, NavigateForward, NavigateBackward, NextTrack, NoConvert, NumpadComma,
    NumpadEnter, NumpadEquals, OEM102, Period, PlayPause, Power, PrevTrack, RAlt, RBracket,
    RControl, RShift, RWin, Semicolon, Slash, Sleep, Stop, Subtract, Sysrq, Tab, Underline,
    Unlabeled, VolumeDown, VolumeUp, Wake, WebBack, WebFavorites, WebForward, WebHome,
    WebRefresh, WebSearch, WebStop, Yen, Caret, Copy, Paste, Cut,
}

/// The windowing system's name of a key; a scancode has none.
pub open spec fn code_of_key(k: Key) -> Option<VirtualKeyCode> {
    match k {
        Key::Scancode(_) => None,
        Key::Key1 => Some(VirtualKeyCode::Key1),
        Key::Key2 => Some(VirtualKeyCode::Key2),
        Key::Key3 => Some(VirtualKeyCode::Key3),
        Key::Key4 => Some(VirtualKeyCode::Key4),
        Key::Key5 => Some(VirtualKeyCode::Key5),
        Key::Key6 => Some(VirtualKeyCode::Key6),
        Key::Key7 => Some(VirtualKeyCode::Key7),
        Key::Key8 => Some(VirtualKeyCode::Key8),
        Key::Key9 => Some(VirtualKeyCode::Key9),
        Key::Key0 => Some(VirtualKeyCode::Key0),
        Key::A => Some(VirtualKeyCode::A),
        Key::B => Some(VirtualKeyCode::B),
        Key::C => Some(VirtualKeyCode::C),
        Key::D => Some(VirtualKeyCode::D),
        Key::E => Some(VirtualKeyCode::E),
        Key::F => Some(VirtualKeyCode::F),
        Key::G => Some(VirtualKeyCode::G),
        Key::H => Some(VirtualKeyCode::H),
        Key::I => Some(VirtualKeyCode::I),
        Key::J => Some(VirtualKeyCode::J),
        Key::K => Some(VirtualKeyCode::K),
        Key::L => Some(VirtualKeyCode::L),
        Key::M => Some(VirtualKeyCode::M),
        Key::N => Some(VirtualKeyCode::N),
        Key::O => Some(VirtualKeyCode::O),
        Key::P => Some(VirtualKeyCode::P),
        Key::Q => Some(VirtualKeyCode::Q),
        Key::R => Some(VirtualKeyCode::R),
        Key::S => Some(VirtualKeyCode::S),
        Key::T => Some(VirtualKeyCode::T),
        Key::U => Some(VirtualKeyCode::U),
        Key::V => Some(VirtualKeyCode::V),
        Key::W => Some(VirtualKeyCode::W),
        Key::X => Some(VirtualKeyCode::X),
        Key::Y => Some(VirtualKeyCode::Y),
        Key::Z => Some(VirtualKeyCode::Z),
        Key::Escape => Some(VirtualKeyCode::Escape),
        Key::F1 => Some(VirtualKeyCode::F1),
        Key::F2 => Some(VirtualKeyCode::F2),
        Key::F3 => Some(VirtualKeyCode::F3),
        Key::F4 => Some(VirtualKeyCode::F4),
        Key::F5 => Some(VirtualKeyCode::F5),
        Key::F6 => Some(VirtualKeyCode::F6),
        Key::F7 => Some(VirtualKeyCode::F7),
        Key::F8 => Some(VirtualKeyCode::F8),
        Key::F9 => Some(VirtualKeyCode::F9),
        Key::F10 => Some(VirtualKeyCode::F10),
        Key::F11 => Some(VirtualKeyCode::F11),
        Key::F12 => Some(VirtualKeyCode::F12),
        Key::F13 => Some(VirtualKeyCode::F13),
        Key::F14 => Some(VirtualKeyCode::F14),
        Key::F15 => Some(VirtualKeyCode::F15),
        Key::F16 => Some(VirtualKeyCode::F16),
        Key::F17 => Some(VirtualKeyCode::F17),
        Key::F18 => Some(VirtualKeyCode::F18),
        Key::F19 => Some(VirtualKeyCode::F19),
        Key::F20 => Some(VirtualKeyCode::F20),
        Key::F21 => Some(VirtualKeyCode::F21),
        Key::F22 => Some(VirtualKeyCode::F22),
        Key::F23 => Some(VirtualKeyCode::F23),
        Key::F24 => Some(VirtualKeyCode::F24),
        Key::Snapshot => Some(VirtualKeyCode::Snapshot),
        Key::Scroll => Some(VirtualKeyCode::Scroll),
        Key::Pause => Some(VirtualKeyCode::Pause),
        Key::Insert => Some(VirtualKeyCode::Insert),
        Key::Home => Some(VirtualKeyCode::Home),
        Key::Delete => Some(VirtualKeyCode::Delete),
        Key::End => Some(VirtualKeyCode::End),
        Key::PageDown => Some(VirtualKeyCode::PageDown),
        Key::PageUp => Some(VirtualKeyCode::PageUp),
        Key::Left => Some(VirtualKeyCode::Left),
        Key::Up => Some(VirtualKeyCode::Up),
        Key::Right => Some(VirtualKeyCode::Right),
        Key::Down => Some(VirtualKeyCode::Down),
        Key::Back => Some(VirtualKeyCode::Back),
        Key::Return => Some(VirtualKeyCode::Return),
        Key::Space => Some(VirtualKeyCode::Space),
        Key::Compose => Some(VirtualKeyCode::Compose),
        Key::Numlock => Some(VirtualKeyCode::Numlock),
        Key::Numpad0 => Some(VirtualKeyCode::Numpad0),
        Key::Numpad1 => Some(VirtualKeyCode::Numpad1),
        Key::Numpad2 => Some(VirtualKeyCode::Numpad2),
        Key::Numpad3 => Some(VirtualKeyCode::Numpad3),
        Key::Numpad4 => Some(VirtualKeyCode::Numpad4),
        Key::Numpad5 => Some(VirtualKeyCode::Numpad5),
        Key::Numpad6 => Some(VirtualKeyCode::Numpad6),
        Key::Numpad7 => Some(VirtualKeyCode::Numpad7),
        Key::Numpad8 => Some(VirtualKeyCode::Numpad8),
        Key::Numpad9 => Some(VirtualKeyCode::Numpad9),
        Key::AbntC1 => Some(VirtualKeyCode::AbntC1),
        Key::AbntC2 => Some(VirtualKeyCode::AbntC2),
        Key::Add => Some(VirtualKeyCode::Add),
        Key::Apostrophe => Some(VirtualKeyCode::Apostrophe),
        Key::Apps => Some(VirtualKeyCode::Apps),
        Key::At => Some(VirtualKeyCode::At),
        Key::Ax => Some(VirtualKeyCode::Ax),
        Key::Backslash => Some(VirtualKeyCode::Backslash),
        Key::Calculator => Some(VirtualKeyCode::Calculator),
        Key::Capital => Some(VirtualKeyCode::Capital),
        Key::Colon => Some(VirtualKeyCode::Colon),
        Key::Comma => Some(VirtualKeyCode::Comma),
        Key::Convert => Some(VirtualKeyCode::Convert),
        Key::Decimal => Some(VirtualKeyCode::Decimal),
        Key::Divide => Some(VirtualKeyCode::Divide),
        Key::Equals => Some(VirtualKeyCode::Equals),
        Key::Grave => Some(VirtualKeyCode::Grave),
        Key::Kana => Some(VirtualKeyCode::Kana),
        Key::Kanji => Some(VirtualKeyCode::Kanji),
        Key::LAlt => Some(VirtualKeyCode::LAlt),
        Key::LBracket => Some(VirtualKeyCode::LBracket),
        Key::LControl => Some(VirtualKeyCode::LControl),
        Key::LShift => Some(VirtualKeyCode::LShift),
        Key::LWin => Some(VirtualKeyCode::LWin),
        Key::Mail => Some(VirtualKeyCode::Mail),
        Key::MediaSelect => Some(VirtualKeyCode::MediaSelect),
        Key::MediaStop => Some(VirtualKeyCode::MediaStop),
        Key::Minus => Some(VirtualKeyCode::Minus),
        Key::Multiply => Some(VirtualKeyCode::Multiply),
        Key::Mute => Some(VirtualKeyCode::Mute),
        Key::MyComputer => Some(VirtualKeyCode::MyComputer),
        Key::NavigateForward => Some(VirtualKeyCode::NavigateForward),
        Key::NavigateBackward => Some(VirtualKeyCode::NavigateBackward),
        Key::NextTrack => Some(VirtualKeyCode::NextTrack),
        Key::NoConvert => Some(VirtualKeyCode::NoConvert),
        Key::NumpadComma => Some(VirtualKeyCode::NumpadComma),
        Key::NumpadEnter => Some(VirtualKeyCode::NumpadEnter),
        Key::NumpadEquals => Some(VirtualKeyCode::NumpadEquals),
        Key::OEM102 => Some(VirtualKeyCode::OEM102),
        Key::Period => Some(VirtualKeyCode::Period),
        Key::PlayPause => Some(VirtualKeyCode::PlayPause),
        Key::Power => Some(VirtualKeyCode::Power),
        Key::PrevTrack => Some(VirtualKeyCode::PrevTrack),
        Key::RAlt => Some(VirtualKeyCode::RAlt),
        Key::RBracket => Some(VirtualKeyCode::RBracket),
        Key::RControl => Some(VirtualKeyCode::RControl),
        Key::RShift => Some(VirtualKeyCode::RShift),
        Key::RWin => Some(VirtualKeyCode::RWin),
        Key::Semicolon => Some(VirtualKeyCode::Semicolon),
        Key::Slash => Some(VirtualKeyCode::Slash),
        Key::Sleep => Some(VirtualKeyCode::Sleep),
        Key::Stop => Some(VirtualKeyCode::Stop),
        Key::Subtract => Some(VirtualKeyCode::Subtract),
        Key::Sysrq => Some(VirtualKeyCode::Sysrq),
        Key::Tab => Some(VirtualKeyCode::Tab),
        Key::Underline => Some(VirtualKeyCode::Underline),
        Key::Unlabeled => Some(VirtualKeyCode::Unlabeled),
        Key::VolumeDown => Some(VirtualKeyCode::VolumeDown),
        Key::VolumeUp => Some(VirtualKeyCode::VolumeUp),
        Key::Wake => Some(VirtualKeyCode::Wake),
        Key::WebBack => Some(VirtualKeyCode::WebBack),
        Key::WebFavorites => Some(VirtualKeyCode::WebFavorites),
        Key::WebForward => Some(VirtualKeyCode::WebForward),
        Key::WebHome => Some(VirtualKeyCode::WebHome),
        Key::WebRefresh => Some(VirtualKeyCode::WebRefresh),
        Key::WebSearch => Some(VirtualKeyCode::WebSearch),
        Key::WebStop => Some(VirtualKeyCode::WebStop),
        Key::Yen => Some(VirtualKeyCode::Yen),
        Key::Caret => Some(VirtualKeyCode::Caret),
        Key::Copy => Some(VirtualKeyCode::Copy),
        Key::Paste => Some(VirtualKeyCode::Paste),
        Key::Cut => Some(VirtualKeyCode::Cut),
    }
}

impl Key {
    /// The key of this configuration that a key of the windowing system is.
    pub fn from_glutin_input(key: VirtualKeyCode) -> (r: Key)
        ensures
            code_of_key(r) == Some(key),
    {
        match key {
            VirtualKeyCode::Key1 => Key::Key1,
            VirtualKeyCode::Key2 => Key::Key2,
            VirtualKeyCode::Key3 => Key::Key3,
            VirtualKeyCode::Key4 => Key::Key4,
            VirtualKeyCode::Key5 => Key::Key5,
            VirtualKeyCode::Key6 => Key::Key6,
            VirtualKeyCode::Key7 => Key::Key7,
            VirtualKeyCode::Key8 => Key::Key8,
            VirtualKeyCode::Key9 => Key::Key9,
            VirtualKeyCode::Key0 => Key::Key0,
            VirtualKeyCode::A => Key::A,
            VirtualKeyCode::B => Key::B,
            VirtualKeyCode::C => Key::C,
            VirtualKeyCode::D => Key::D,
            VirtualKeyCode::E => Key::E,
            VirtualKeyCode::F => Key::F,
            VirtualKeyCode::G => Key::G,
            VirtualKeyCode::H => Key::H,
            VirtualKeyCode::I => Key::I,
            VirtualKeyCode::J => Key::J,
            VirtualKeyCode::K => Key::K,
            VirtualKeyCode::L => Key::L,
            VirtualKeyCode::M => Key::M,
            VirtualKeyCode::N => Key::N,
            VirtualKeyCode::O => Key::O,
            VirtualKeyCode::P => Key::P,
            VirtualKeyCode::Q => Key::Q,
            VirtualKeyCode::R => Key::R,
            VirtualKeyCode::S => Key::S,
            VirtualKeyCode::T => Key::T,
            VirtualKeyCode::U => Key::U,
            VirtualKeyCode::V => Key::V,
            VirtualKeyCode::W => Key::W,
            VirtualKeyCode::X => Key::X,
            VirtualKeyCode::Y => Key::Y,
            VirtualKeyCode::Z => Key::Z,
            VirtualKeyCode::Escape => Key::Escape,
            VirtualKeyCode::F1 => Key::F1,
            VirtualKeyCode::F2 => Key::F2,
            VirtualKeyCode::F3 => Key::F3,
            VirtualKeyCode::F4 => Key::F4,
            VirtualKeyCode::F5 => Key::F5,
            VirtualKeyCode::F6 => Key::F6,
            VirtualKeyCode::F7 => Key::F7,
            VirtualKeyCode::F8 => Key::F8,
            VirtualKeyCode::F9 => Key::F9,
            VirtualKeyCode::F10 => Key::F10,
            VirtualKeyCode::F11 => Key::F11,
            VirtualKeyCode::F12 => Key::F12,
            VirtualKeyCode::F13 => Key::F13,
            VirtualKeyCode::F14 => Key::F14,
            VirtualKeyCode::F15 => Key::F15,
            VirtualKeyCode::F16 => Key::F16,
            VirtualKeyCode::F17 => Key::F17,
            VirtualKeyCode::F18 => Key::F18,
            VirtualKeyCode::F19 => Key::F19,
            VirtualKeyCode::F20 => Key::F20,
            VirtualKeyCode::F21 => Key::F21,
            VirtualKeyCode::F22 => Key::F22,
            VirtualKeyCode::F23 => Key::F23,
            VirtualKeyCode::F24 => Key::F24,
            VirtualKeyCode::Snapshot => Key::Snapshot,
            VirtualKeyCode::Scroll => Key::Scroll,
            VirtualKeyCode::Pause => Key::Pause,
            VirtualKeyCode::Insert => Key::Insert,
            VirtualKeyCode::Home => Key::Home,
            VirtualKeyCode::Delete => Key::Delete,
            VirtualKeyCode::End => Key::End,
            VirtualKeyCode::PageDown => Key::PageDown,
            VirtualKeyCode::PageUp => Key::PageUp,
            VirtualKeyCode::Left => Key::Left,
            VirtualKeyCode::Up => Key::Up,
            VirtualKeyCode::Right => Key::Right,
            VirtualKeyCode::Down => Key::Down,
            VirtualKeyCode::Back => Key::Back,
            VirtualKeyCode::Return => Key::Return,
            VirtualKeyCode::Space => Key::Space,
            VirtualKeyCode::Compose => Key::Compose,
            VirtualKeyCode::Numlock => Key::Numlock,
            VirtualKeyCode::Numpad0 => Key::Numpad0,
            VirtualKeyCode::Numpad1 => Key::Numpad1,
            VirtualKeyCode::Numpad2 => Key::Numpad2,
            VirtualKeyCode::Numpad3 => Key::Numpad3,
            VirtualKeyCode::Numpad4 => Key::Numpad4,
            VirtualKeyCode::Numpad5 => Key::Numpad5,
            VirtualKeyCode::Numpad6 => Key::Numpad6,
            VirtualKeyCode::Numpad7 => Key::Numpad7,
            VirtualKeyCode::Numpad8 => Key::Numpad8,
            VirtualKeyCode::Numpad9 => Key::Numpad9,
            VirtualKeyCode::AbntC1 => Key::AbntC1,
            VirtualKeyCode::AbntC2 => Key::AbntC2,
            VirtualKeyCode::Add => Key::Add,
            VirtualKeyCode::Apostrophe => Key::Apostrophe,
            VirtualKeyCode::Apps => Key::Apps,
            VirtualKeyCode::At => Key::At,
            VirtualKeyCode::Ax => Key::Ax,
            VirtualKeyCode::Backslash => Key::Backslash,
            VirtualKeyCode::Calculator => Key::Calculator,
            VirtualKeyCode::Capital => Key::Capital,
            VirtualKeyCode::Colon => Key::Colon,
            VirtualKeyCode::Comma => Key::Comma,
            VirtualKeyCode::Convert => Key::Convert,
            VirtualKeyCode::Decimal => Key::Decimal,
            VirtualKeyCode::Divide => Key::Divide,
            VirtualKeyCode::Equals => Key::Equals,
            VirtualKeyCode::Grave => Key::Grave,
            VirtualKeyCode::Kana => Key::Kana,
            VirtualKeyCode::Kanji => Key::Kanji,
            VirtualKeyCode::LAlt => Key::LAlt,
            VirtualKeyCode::LBracket => Key::LBracket,
            VirtualKeyCode::LControl => Key::LControl,
            VirtualKeyCode::LShift => Key::LShift,
            VirtualKeyCode::LWin => Key::LWin,
            VirtualKeyCode::Mail => Key::Mail,
            VirtualKeyCode::MediaSelect => Key::MediaSelect,
            VirtualKeyCode::MediaStop => Key::MediaStop,
            VirtualKeyCode::Minus => Key::Minus,
            VirtualKeyCode::Multiply => Key::Multiply,
            VirtualKeyCode::Mute => Key::Mute,
            VirtualKeyCode::MyComputer => Key::MyComputer,
            VirtualKeyCode::NavigateForward => Key::NavigateForward,
            VirtualKeyCode::NavigateBackward => Key::NavigateBackward,
            VirtualKeyCode::NextTrack => Key::NextTrack,
            VirtualKeyCode::NoConvert => Key::NoConvert,
            VirtualKeyCode::NumpadComma => Key::NumpadComma,
            VirtualKeyCode::NumpadEnter => Key::NumpadEnter,
            VirtualKeyCode::NumpadEquals => Key::NumpadEquals,
            VirtualKeyCode::OEM102 => Key::OEM102,
            VirtualKeyCode::Period => Key::Period,
            VirtualKeyCode::PlayPause => Key::PlayPause,
            VirtualKeyCode::Power => Key::Power,
            VirtualKeyCode::PrevTrack => Key::PrevTrack,
            VirtualKeyCode::RAlt => Key::RAlt,
            VirtualKeyCode::RBracket => Key::RBracket,
            VirtualKeyCode::RControl => Key::RControl,
            VirtualKeyCode::RShift => Key::RShift,
            VirtualKeyCode::RWin => Key::RWin,
            VirtualKeyCode::Semicolon => Key::Semicolon,
            VirtualKeyCode::Slash => Key::Slash,
            VirtualKeyCode::Sleep => Key::Sleep,
            VirtualKeyCode::Stop => Key::Stop,
            VirtualKeyCode::Subtract => Key::Subtract,
            VirtualKeyCode::Sysrq => Key::Sysrq,
            VirtualKeyCode::Tab => Key::Tab,
            VirtualKeyCode::Underline => Key::Underline,
            VirtualKeyCode::Unlabeled => Key::Unlabeled,
            VirtualKeyCode::VolumeDown => Key::VolumeDown,
            VirtualKeyCode::VolumeUp => Key::VolumeUp,
            VirtualKeyCode::Wake => Key::Wake,
            VirtualKeyCode::WebBack => Key::WebBack,
            VirtualKeyCode::WebFavorites => Key::WebFavorites,
            VirtualKeyCode::WebForward => Key::WebForward,
            VirtualKeyCode::WebHome => Key::WebHome,
            VirtualKeyCode::WebRefresh => Key::WebRefresh,
            VirtualKeyCode::WebSearch => Key::WebSearch,
            VirtualKeyCode::WebStop => Key::WebStop,
            VirtualKeyCode::Yen => Key::Yen,
            VirtualKeyCode::Caret => Key::Caret,
            VirtualKeyCode::Copy => Key::Copy,
            VirtualKeyCode::Paste => Key::Paste,
            VirtualKeyCode::Cut => Key::Cut,
        }
    }

    /// The windowing system's name of this key; none for a scancode.
    pub fn to_glutin_key(&self) -> (r: Option<VirtualKeyCode>)
        ensures
            r == code_of_key(*self),
    {
        match self {
            Key::Scancode(_) => None,
            Key::Key1 => Some(VirtualKeyCode::Key1),
            Key::Key2 => Some(VirtualKeyCode::Key2),
            Key::Key3 => Some(VirtualKeyCode::Key3),
            Key::Key4 => Some(VirtualKeyCode::Key4),
            Key::Key5 => Some(VirtualKeyCode::Key5),
            Key::Key6 => Some(VirtualKeyCode::Key6),
            Key::Key7 => Some(VirtualKeyCode::Key7),
            Key::Key8 => Some(VirtualKeyCode::Key8),
            Key::Key9 => Some(VirtualKeyCode::Key9),
            Key::Key0 => Some(VirtualKeyCode::Key0),
            Key::A => Some(VirtualKeyCode::A),
            Key::B => Some(VirtualKeyCode::B),
            Key::C => Some(VirtualKeyCode::C),
            Key::D => Some(VirtualKeyCode::D),
            Key::E => Some(VirtualKeyCode::E),
            Key::F => Some(VirtualKeyCode::F),
            Key::G => Some(VirtualKeyCode::G),
            Key::H => Some(VirtualKeyCode::H),
            Key::I => Some(VirtualKeyCode::I),
            Key::J => Some(VirtualKeyCode::J),
            Key::K => Some(VirtualKeyCode::K),
            Key::L => Some(VirtualKeyCode::L),
            Key::M => Some(VirtualKeyCode::M),
            Key::N => Some(VirtualKeyCode::N),
            Key::O => Some(VirtualKeyCode::O),
            Key::P => Some(VirtualKeyCode::P),
            Key::Q => Some(VirtualKeyCode::Q),
            Key::R => Some(VirtualKeyCode::R),
            Key::S => Some(VirtualKeyCode::S),
            Key::T => Some(VirtualKeyCode::T),
            Key::U => Some(VirtualKeyCode::U),
            Key::V => Some(VirtualKeyCode::V),
            Key::W => Some(VirtualKeyCode::W),
            Key::X => Some(VirtualKeyCode::X),
            Key::Y => Some(VirtualKeyCode::Y),
            Key::Z => Some(VirtualKeyCode::Z),
            Key::Escape => Some(VirtualKeyCode::Escape),
            Key::F1 => Some(VirtualKeyCode::F1),
            Key::F2 => Some(VirtualKeyCode::F2),
            Key::F3 => Some(VirtualKeyCode::F3),
            Key::F4 => Some(VirtualKeyCode::F4),
            Key::F5 => Some(VirtualKeyCode::F5),
            Key::F6 => Some(VirtualKeyCode::F6),
            Key::F7 => Some(VirtualKeyCode::F7),
            Key::F8 => Some(VirtualKeyCode::F8),
            Key::F9 => Some(VirtualKeyCode::F9),
            Key::F10 => Some(VirtualKeyCode::F10),
            Key::F11 => Some(VirtualKeyCode::F11),
            Key::F12 => Some(VirtualKeyCode::F12),
            Key::F13 => Some(VirtualKeyCode::F13),
            Key::F14 => Some(VirtualKeyCode::F14),
            Key::F15 => Some(VirtualKeyCode::F15),
            Key::F16 => Some(VirtualKeyCode::F16),
            Key::F17 => Some(VirtualKeyCode::F17),
            Key::F18 => Some(VirtualKeyCode::F18),
            Key::F19 => Some(VirtualKeyCode::F19),
            Key::F20 => Some(VirtualKeyCode::F20),
            Key::F21 => Some(VirtualKeyCode::F21),
            Key::F22 => Some(VirtualKeyCode::F22),
            Key::F23 => Some(VirtualKeyCode::F23),
            Key::F24 => Some(VirtualKeyCode::F24),
            Key::Snapshot => Some(VirtualKeyCode::Snapshot),
            Key::Scroll => Some(VirtualKeyCode::Scroll),
            Key::Pause => Some(VirtualKeyCode::Pause),
            Key::Insert => Some(VirtualKeyCode::Insert),
            Key::Home => Some(VirtualKeyCode::Home),
            Key::Delete => Some(VirtualKeyCode::Delete),
            Key::End => Some(VirtualKeyCode::End),
            Key::PageDown => Some(VirtualKeyCode::PageDown),
            Key::PageUp => Some(VirtualKeyCode::PageUp),
            Key::Left => Some(VirtualKeyCode::Left),
            Key::Up => Some(VirtualKeyCode::Up),
            Key::Right => Some(VirtualKeyCode::Right),
            Key::Down => Some(VirtualKeyCode::Down),
            Key::Back => Some(VirtualKeyCode::Back),
            Key::Return => Some(VirtualKeyCode::Return),
            Key::Space => Some(VirtualKeyCode::Space),
            Key::Compose => Some(VirtualKeyCode::Compose),
            Key::Numlock => Some(VirtualKeyCode::Numlock),
            Key::Numpad0 => Some(VirtualKeyCode::Numpad0),
            Key::Numpad1 => Some(VirtualKeyCode::Numpad1),
            Key::Numpad2 => Some(VirtualKeyCode::Numpad2),
            Key::Numpad3 => Some(VirtualKeyCode::Numpad3),
            Key::Numpad4 => Some(VirtualKeyCode::Numpad4),
            Key::Numpad5 => Some(VirtualKeyCode::Numpad5),
            Key::Numpad6 => Some(VirtualKeyCode::Numpad6),
            Key::Numpad7 => Some(VirtualKeyCode::Numpad7),
            Key::Numpad8 => Some(VirtualKeyCode::Numpad8),
            Key::Numpad9 => Some(VirtualKeyCode::Numpad9),
            Key::AbntC1 => Some(VirtualKeyCode::AbntC1),
            Key::AbntC2 => Some(VirtualKeyCode::AbntC2),
            Key::Add => Some(VirtualKeyCode::Add),
            Key::Apostrophe => Some(VirtualKeyCode::Apostrophe),
            Key::Apps => Some(VirtualKeyCode::Apps),
            Key::At => Some(VirtualKeyCode::At),
            Key::Ax => Some(VirtualKeyCode::Ax),
            Key::Backslash => Some(VirtualKeyCode::Backslash),
            Key::Calculator => Some(VirtualKeyCode::Calculator),
            Key::Capital => Some(VirtualKeyCode::Capital),
            Key::Colon => Some(VirtualKeyCode::Colon),
            Key::Comma => Some(VirtualKeyCode::Comma),
            Key::Convert => Some(VirtualKeyCode::Convert),
            Key::Decimal => Some(VirtualKeyCode::Decimal),
            Key::Divide => Some(VirtualKeyCode::Divide),
            Key::Equals => Some(VirtualKeyCode::Equals),
            Key::Grave => Some(VirtualKeyCode::Grave),
            Key::Kana => Some(VirtualKeyCode::Kana),
            Key::Kanji => Some(VirtualKeyCode::Kanji),
            Key::LAlt => Some(VirtualKeyCode::LAlt),
            Key::LBracket => Some(VirtualKeyCode::LBracket),
            Key::LControl => Some(VirtualKeyCode::LControl),
            Key::LShift => Some(VirtualKeyCode::LShift),
            Key::LWin => Some(VirtualKeyCode::LWin),
            Key::Mail => Some(VirtualKeyCode::Mail),
            Key::MediaSelect => Some(VirtualKeyCode::MediaSelect),
            Key::MediaStop => Some(VirtualKeyCode::MediaStop),
            Key::Minus => Some(VirtualKeyCode::Minus),
            Key::Multiply => Some(VirtualKeyCode::Multiply),
            Key::Mute => Some(VirtualKeyCode::Mute),
            Key::MyComputer => Some(VirtualKeyCode::MyComputer),
            Key::NavigateForward => Some(VirtualKeyCode::NavigateForward),
            Key::NavigateBackward => Some(VirtualKeyCode::NavigateBackward),
            Key::NextTrack => Some(VirtualKeyCode::NextTrack),
            Key::NoConvert => Some(VirtualKeyCode::NoConvert),
            Key::NumpadComma => Some(VirtualKeyCode::NumpadComma),
            Key::NumpadEnter => Some(VirtualKeyCode::NumpadEnter),
            Key::NumpadEquals => Some(VirtualKeyCode::NumpadEquals),
            Key::OEM102 => Some(VirtualKeyCode::OEM102),
            Key::Period => Some(VirtualKeyCode::Period),
            Key::PlayPause => Some(VirtualKeyCode::PlayPause),
            Key::Power => Some(VirtualKeyCode::Power),
            Key::PrevTrack => Some(VirtualKeyCode::PrevTrack),
            Key::RAlt => Some(VirtualKeyCode::RAlt),
            Key::RBracket => Some(VirtualKeyCode::RBracket),
            Key::RControl => Some(VirtualKeyCode::RControl),
            Key::RShift => Some(VirtualKeyCode::RShift),
            Key::RWin => Some(VirtualKeyCode::RWin),
            Key::Semicolon => Some(VirtualKeyCode::Semicolon),
            Key::Slash => Some(VirtualKeyCode::Slash),
            Key::Sleep => Some(VirtualKeyCode::Sleep),
            Key::Stop => Some(VirtualKeyCode::Stop),
            Key::Subtract => Some(VirtualKeyCode::Subtract),
            Key::Sysrq => Some(VirtualKeyCode::Sysrq),
            Key::Tab => Some(VirtualKeyCode::Tab),
            Key::Underline => Some(VirtualKeyCode::Underline),
            Key::Unlabeled => Some(VirtualKeyCode::Unlabeled),
            Key::VolumeDown => Some(VirtualKeyCode::VolumeDown),
            Key::VolumeUp => Some(VirtualKeyCode::VolumeUp),
            Key::Wake => Some(VirtualKeyCode::Wake),
            Key::WebBack => Some(VirtualKeyCode::WebBack),
            Key::WebFavorites => Some(VirtualKeyCode::WebFavorites),
            Key::WebForward => Some(VirtualKeyCode::WebForward),
            Key::WebHome => Some(VirtualKeyCode::WebHome),
            Key::WebRefresh => Some(VirtualKeyCode::WebRefresh),
            Key::WebSearch => Some(VirtualKeyCode::WebSearch),
            Key::WebStop => Some(VirtualKeyCode::WebStop),
            Key::Yen => Some(VirtualKeyCode::Yen),
            Key::Caret => Some(VirtualKeyCode::Caret),
            Key::Copy => Some(VirtualKeyCode::Copy),
            Key::Paste => Some(VirtualKeyCode::Paste),
            Key::Cut => Some(VirtualKeyCode::Cut),
        }
    }
}

/// Keys with the same name in the windowing system are the same key, so
/// a key of the windowing system names exactly one key here.
pub proof fn code_of_key_injective(a: Key, b: Key)
    ensures
        code_of_key(a) is Some && code_of_key(a) == code_of_key(b) ==> a == b,
{
}

/// Translating a key to the windowing system's name and back gives the
/// key again, and so does the other order.
pub proof fn glutin_key_round_trip(k: Key, v: VirtualKeyCode)
    ensures
        code_of_key(k) matches Some(c) ==> (forall|r: Key| code_of_key(r) == Some(c) ==> r == k),
        exists|r: Key| code_of_key(r) == Some(v),
{
    assert(code_of_key(key_named(v)) == Some(v));
}

/// The key that a name of the windowing system names.
pub open spec fn key_named(v: VirtualKeyCode) -> Key {
    match v {
        VirtualKeyCode::Key1 => Key::Key1,
        VirtualKeyCode::Key2 => Key::Key2,
        VirtualKeyCode::Key3 => Key::Key3,
        VirtualKeyCode::Key4 => Key::Key4,
        VirtualKeyCode::Key5 => Key::Key5,
        VirtualKeyCode::Key6 => Key::Key6,
        VirtualKeyCode::Key7 => Key::Key7,
        VirtualKeyCode::Key8 => Key::Key8,
        VirtualKeyCode::Key9 => Key::Key9,
        VirtualKeyCode::Key0 => Key::Key0,
        VirtualKeyCode::A => Key::A,
        VirtualKeyCode::B => Key::B,
        VirtualKeyCode::C => Key::C,
        VirtualKeyCode::D => Key::D,
        VirtualKeyCode::E => Key::E,
        VirtualKeyCode::F => Key::F,
        VirtualKeyCode::G => Key::G,
        VirtualKeyCode::H => Key::H,
        VirtualKeyCode::I => Key::I,
        VirtualKeyCode::J => Key::J,
        VirtualKeyCode::K => Key::K,
        VirtualKeyCode::L => Key::L,
        VirtualKeyCode::M => Key::M,
        VirtualKeyCode::N => Key::N,
        VirtualKeyCode::O => Key::O,
        VirtualKeyCode::P => Key::P,
        VirtualKeyCode::Q => Key::Q,
        VirtualKeyCode::R => Key::R,
        VirtualKeyCode::S => Key::S,
        VirtualKeyCode::T => Key::T,
        VirtualKeyCode::U => Key::U,
        VirtualKeyCode::V => Key::V,
        VirtualKeyCode::W => Key::W,
        VirtualKeyCode::X => Key::X,
        VirtualKeyCode::Y => Key::Y,
        VirtualKeyCode::Z => Key::Z,
        VirtualKeyCode::Escape => Key::Escape,
        VirtualKeyCode::F1 => Key::F1,
        VirtualKeyCode::F2 => Key::F2,
        VirtualKeyCode::F3 => Key::F3,
        VirtualKeyCode::F4 => Key::F4,
        VirtualKeyCode::F5 => Key::F5,
        VirtualKeyCode::F6 => Key::F6,
        VirtualKeyCode::F7 => Key::F7,
        VirtualKeyCode::F8 => Key::F8,
        VirtualKeyCode::F9 => Key::F9,
        VirtualKeyCode::F10 => Key::F10,
        VirtualKeyCode::F11 => Key::F11,
        VirtualKeyCode::F12 => Key::F12,
        VirtualKeyCode::F13 => Key::F13,
        VirtualKeyCode::F14 => Key::F14,
        VirtualKeyCode::F15 => Key::F15,
        VirtualKeyCode::F16 => Key::F16,
        VirtualKeyCode::F17 => Key::F17,
        VirtualKeyCode::F18 => Key::F18,
        VirtualKeyCode::F19 => Key::F19,
        VirtualKeyCode::F20 => Key::F20,
        VirtualKeyCode::F21 => Key::F21,
        VirtualKeyCode::F22 => Key::F22,
        VirtualKeyCode::F23 => Key::F23,
        VirtualKeyCode::F24 => Key::F24,
        VirtualKeyCode::Snapshot => Key::Snapshot,
        VirtualKeyCode::Scroll => Key::Scroll,
        VirtualKeyCode::Pause => Key::Pause,
        VirtualKeyCode::Insert => Key::Insert,
        VirtualKeyCode::Home => Key::Home,
        VirtualKeyCode::Delete => Key::Delete,
        VirtualKeyCode::End => Key::End,
        VirtualKeyCode::PageDown => Key::PageDown,
        VirtualKeyCode::PageUp => Key::PageUp,
        VirtualKeyCode::Left => Key::Left,
        VirtualKeyCode::Up => Key::Up,
        VirtualKeyCode::Right => Key::Right,
        VirtualKeyCode::Down => Key::Down,
        VirtualKeyCode::Back => Key::Back,
        VirtualKeyCode::Return => Key::Return,
        VirtualKeyCode::Space => Key::Space,
        VirtualKeyCode::Compose => Key::Compose,
        VirtualKeyCode::Numlock => Key::Numlock,
        VirtualKeyCode::Numpad0 => Key::Numpad0,
        VirtualKeyCode::Numpad1 => Key::Numpad1,
        VirtualKeyCode::Numpad2 => Key::Numpad2,
        VirtualKeyCode::Numpad3 => Key::Numpad3,
        VirtualKeyCode::Numpad4 => Key::Numpad4,
        VirtualKeyCode::Numpad5 => Key::Numpad5,
        VirtualKeyCode::Numpad6 => Key::Numpad6,
        VirtualKeyCode::Numpad7 => Key::Numpad7,
        VirtualKeyCode::Numpad8 => Key::Numpad8,
        VirtualKeyCode::Numpad9 => Key::Numpad9,
        VirtualKeyCode::AbntC1 => Key::AbntC1,
        VirtualKeyCode::AbntC2 => Key::AbntC2,
        VirtualKeyCode::Add => Key::Add,
        VirtualKeyCode::Apostrophe => Key::Apostrophe,
        VirtualKeyCode::Apps => Key::Apps,
        VirtualKeyCode::At => Key::At,
        VirtualKeyCode::Ax => Key::Ax,
        VirtualKeyCode::Backslash => Key::Backslash,
        VirtualKeyCode::Calculator => Key::Calculator,
        VirtualKeyCode::Capital => Key::Capital,
        VirtualKeyCode::Colon => Key::Colon,
        VirtualKeyCode::Comma => Key::Comma,
        VirtualKeyCode::Convert => Key::Convert,
        VirtualKeyCode::Decimal => Key::Decimal,
        VirtualKeyCode::Divide => Key::Divide,
        VirtualKeyCode::Equals => Key::Equals,
        VirtualKeyCode::Grave => Key::Grave,
        VirtualKeyCode::Kana => Key::Kana,
        VirtualKeyCode::Kanji => Key::Kanji,
        VirtualKeyCode::LAlt => Key::LAlt,
        VirtualKeyCode::LBracket => Key::LBracket,
        VirtualKeyCode::LControl => Key::LControl,
        VirtualKeyCode::LShift => Key::LShift,
        VirtualKeyCode::LWin => Key::LWin,
        VirtualKeyCode::Mail => Key::Mail,
        VirtualKeyCode::MediaSelect => Key::MediaSelect,
        VirtualKeyCode::MediaStop => Key::MediaStop,
        VirtualKeyCode::Minus => Key::Minus,
        VirtualKeyCode::Multiply => Key::Multiply,
        VirtualKeyCode::Mute => Key::Mute,
        VirtualKeyCode::MyComputer => Key::MyComputer,
        VirtualKeyCode::NavigateForward => Key::NavigateForward,
        VirtualKeyCode::NavigateBackward => Key::NavigateBackward,
        VirtualKeyCode::NextTrack => Key::NextTrack,
        VirtualKeyCode::NoConvert => Key::NoConvert,
        VirtualKeyCode::NumpadComma => Key::NumpadComma,
        VirtualKeyCode::NumpadEnter => Key::NumpadEnter,
        VirtualKeyCode::NumpadEquals => Key::NumpadEquals,
        VirtualKeyCode::OEM102 => Key::OEM102,
        VirtualKeyCode::Period => Key::Period,
        VirtualKeyCode::PlayPause => Key::PlayPause,
        VirtualKeyCode::Power => Key::Power,
        VirtualKeyCode::PrevTrack => Key::PrevTrack,
        VirtualKeyCode::RAlt => Key::RAlt,
        VirtualKeyCode::RBracket => Key::RBracket,
        VirtualKeyCode::RControl => Key::RControl,
        VirtualKeyCode::RShift => Key::RShift,
        VirtualKeyCode::RWin => Key::RWin,
        VirtualKeyCode::Semicolon => Key::Semicolon,
        VirtualKeyCode::Slash => Key::Slash,
        VirtualKeyCode::Sleep => Key::Sleep,
        VirtualKeyCode::Stop => Key::Stop,
        VirtualKeyCode::Subtract => Key::Subtract,
        VirtualKeyCode::Sysrq => Key::Sysrq,
        VirtualKeyCode::Tab => Key::Tab,
        VirtualKeyCode::Underline => Key::Underline,
        VirtualKeyCode::Unlabeled => Key::Unlabeled,
        VirtualKeyCode::VolumeDown => Key::VolumeDown,
        VirtualKeyCode::VolumeUp => Key::VolumeUp,
        VirtualKeyCode::Wake => Key::Wake,
        VirtualKeyCode::WebBack => Key::WebBack,
        VirtualKeyCode::WebFavorites => Key::WebFavorites,
        VirtualKeyCode::WebForward => Key::WebForward,
        VirtualKeyCode::WebHome => Key::WebHome,
        VirtualKeyCode::WebRefresh => Key::WebRefresh,
        VirtualKeyCode::WebSearch => Key::WebSearch,
        VirtualKeyCode::WebStop => Key::WebStop,
        VirtualKeyCode::Yen => Key::Yen,
        VirtualKeyCode::Caret => Key::Caret,
        VirtualKeyCode::Copy => Key::Copy,
        VirtualKeyCode::Paste => Key::Paste,
        VirtualKeyCode::Cut => Key::Cut,
    }
}

/// Something to tell when the configuration file is reloaded.
pub trait OnConfigReload {
    fn on_config_reload(&mut self);
}


impl Default for Mouse {
    fn default() -> (r: Mouse)
        ensures
            r.double_click.threshold == duration_of_millis(300),
            r.triple_click.threshold == duration_of_millis(300),
            !r.hide_when_typing,
            r.url.launcher matches Some(CommandWrapper::Just(p)) && p@ == "xdg-open"@,
            r.url.modifiers == ModifiersState::default_spec(),
            r.faux_scrollback_lines is None,
    {
        Mouse {
            double_click: ClickHandler::default(),
            triple_click: ClickHandler::default(),
            hide_when_typing: false,
            url: Url::default(),
            faux_scrollback_lines: None,
        }
    }
}

/// The whole configuration, but for the background opacity, a floating
/// point value that the front end keeps beside it.
#[derive(Debug)]
pub struct Config {
    /// Pixel padding (deprecated: `window.padding`)
    pub padding: Option<Delta<u8>>,
    /// Environment variables for the shell
    pub env: HashMap<String, String>,
    /// Font configuration
    pub font: Font,
    /// Should show render timer
    pub render_timer: bool,
    /// Should draw bold text with brighter colors instead of bold font
    pub draw_bold_text_with_bright_colors: bool,
    pub colors: Colors,
    /// Window configuration
    pub window: WindowConfig,
    /// Keybindings
    pub key_bindings: Vec<KeyBinding>,
    /// Bindings for the mouse
    pub mouse_bindings: Vec<MouseBinding>,
    pub selection: Selection,
    pub mouse: Mouse,
    /// Path to a shell program to run on startup
    pub shell: Option<Shell>,
    /// Path where config was loaded from
    pub config_path: Option<PathBuf>,
    /// Visual bell configuration
    pub visual_bell: VisualBellConfig,
    /// Use dynamic title
    pub dynamic_title: bool,
    /// Live config reload
    pub live_config_reload: bool,
    /// Number of spaces in one tab
    pub tabspaces: usize,
    /// How much scrolling history to keep
    pub scrolling: Scrolling,
    /// Cursor configuration
    pub cursor: Cursor,
    /// Keep the log file after quitting
    pub persistent_logging: bool,
    /// Send escape sequences using the alt key
    pub alt_send_esc: bool,
    /// Deprecated: `colors.cursor`
    pub custom_cursor_colors: Option<bool>,
    /// Deprecated: `mouse.hide_when_typing`
    pub hide_cursor_when_typing: Option<bool>,
    /// Deprecated: `cursor.style`
    pub cursor_style: Option<CursorStyle>,
    /// Deprecated: `cursor.unfocused_hollow`
    pub unfocused_hollow_cursor: Option<bool>,
    /// Deprecated: `window.dimensions`
    pub dimensions: Option<Dimensions>,
}

impl Default for Config {
    /// The configuration that a file without settings gives: every field
    /// at its default.
    fn default() -> (r: Config)
        ensures
            r.padding is None,
            r.env@ == Map::<String, String>::empty(),
            r.font.spec_size() == Size(22),
            !r.render_timer,
            r.draw_bold_text_with_bright_colors,
            r.colors.cursor == (CursorColors { text: None, cursor: None }),
            r.key_bindings@.len() == 113,
            r.mouse_bindings@.len() == 1,
            !r.selection.save_to_clipboard,
            !r.mouse.hide_when_typing,
            r.mouse.faux_scrollback_lines is None,
            r.shell is None,
            r.config_path is None,
            r.dynamic_title,
            r.live_config_reload,
            r.tabspaces == 8,
            r.scrolling == (Scrolling { history: 10000, multiplier: 3, faux_multiplier: 3, auto_scroll: false }),
            r.cursor == (Cursor { style: CursorStyle::Block, unfocused_hollow: true }),
            !r.persistent_logging,
            r.alt_send_esc,
            r.custom_cursor_colors is None,
            r.hide_cursor_when_typing is None,
            r.cursor_style is None,
            r.unfocused_hollow_cursor is None,
            r.dimensions is None,
    {
        Config {
            padding: None,
            env: HashMap::new(),
            font: Font::default(),
            render_timer: false,
            draw_bold_text_with_bright_colors: default_true_bool(),
            colors: Colors::default(),
            window: WindowConfig::default(),
            key_bindings: default_key_bindings(),
            mouse_bindings: default_mouse_bindings(),
            selection: Selection::default(),
            mouse: Mouse::default(),
            shell: None,
            config_path: None,
            visual_bell: VisualBellConfig::default(),
            dynamic_title: default_true_bool(),
            live_config_reload: default_true_bool(),
            tabspaces: default_tabspaces(),
            scrolling: Scrolling::default(),
            cursor: Cursor::default(),
            persistent_logging: false,
            alt_send_esc: default_true_bool(),
            custom_cursor_colors: None,
            hide_cursor_when_typing: None,
            cursor_style: None,
            unfocused_hollow_cursor: None,
            dimensions: None,
        }
    }
}

/// A deprecated option that a configuration sets.
#[derive(Debug, Clone, Copy, PartialEq, Eq, Structural)]
pub enum Deprecation {
    /// `dimensions`; `window.dimensions` replaces it
    Dimensions,
    /// `padding`; `window.padding` replaces it
    Padding,
    /// `mouse.faux_scrollback_lines`; `mouse.faux_scrolling_lines` replaces it
    FauxScrollbackLines,
    /// `custom_cursor_colors`
    CustomCursorColors,
    /// `cursor_style`; `cursor.style` replaces it
    CursorStyle,
    /// `hide_cursor_when_typing`; `mouse.hide_when_typing` replaces it
    HideCursorWhenTyping,
    /// `unfocused_hollow_cursor`; `cursor.unfocused_hollow` replaces it
    UnfocusedHollowCursor,
}

/// The deprecated options that `c` sets, in the order they are warned of.
pub open spec fn deprecations_spec(c: Config) -> Seq<Deprecation> {
    (if c.dimensions is Some { seq![Deprecation::Dimensions] } else { Seq::empty() })
        + (if c.padding is Some { seq![Deprecation::Padding] } else { Seq::empty() })
        + (if c.mouse.faux_scrollback_lines is Some { seq![Deprecation::FauxScrollbackLines] } else { Seq::empty() })
        + (if c.custom_cursor_colors is Some { seq![Deprecation::CustomCursorColors] } else { Seq::empty() })
        + (if c.cursor_style is Some { seq![Deprecation::CursorStyle] } else { Seq::empty() })
        + (if c.hide_cursor_when_typing is Some { seq![Deprecation::HideCursorWhenTyping] } else { Seq::empty() })
        + (if c.unfocused_hollow_cursor is Some { seq![Deprecation::UnfocusedHollowCursor] } else { Seq::empty() })
}

/// Appends `d` when `set`.
fn push_if(v: &mut Vec<Deprecation>, set: bool, d: Deprecation)
    ensures
        final(v)@ == old(v)@ + if set { seq![d] } else { Seq::<Deprecation>::empty() },
{
    if set {
        v.push(d);
    }
}

/// The deprecated options that `c` sets.
fn deprecations(c: &Config) -> (r: Vec<Deprecation>)
    ensures
        r@ == deprecations_spec(*c),
{
    let mut warnings: Vec<Deprecation> = Vec::new();
    push_if(&mut warnings, c.dimensions.is_some(), Deprecation::Dimensions);
    push_if(&mut warnings, c.padding.is_some(), Deprecation::Padding);
    push_if(&mut warnings, c.mouse.faux_scrollback_lines.is_some(), Deprecation::FauxScrollbackLines);
    push_if(&mut warnings, c.custom_cursor_colors.is_some(), Deprecation::CustomCursorColors);
    push_if(&mut warnings, c.cursor_style.is_some(), Deprecation::CursorStyle);
    push_if(&mut warnings, c.hide_cursor_when_typing.is_some(), Deprecation::HideCursorWhenTyping);
    push_if(&mut warnings, c.unfocused_hollow_cursor.is_some(), Deprecation::UnfocusedHollowCursor);
    warnings
}

impl Config {
    /// Get list of colors
    pub fn colors(&self) -> (r: &Colors)
        ensures
            *r == self.colors,
    {
        &self.colors
    }

    pub fn key_bindings(&self) -> (r: &[KeyBinding])
        ensures
            r@ == self.key_bindings@,
    {
        self.key_bindings.as_slice()
    }

    pub fn mouse_bindings(&self) -> (r: &[MouseBinding])
        ensures
            r@ == self.mouse_bindings@,
    {
        self.mouse_bindings.as_slice()
    }

    pub fn mouse(&self) -> (r: &Mouse)
        ensures
            *r == self.mouse,
    {
        &self.mouse
    }

    pub fn selection(&self) -> (r: &Selection)
        ensures
            *r == self.selection,
    {
        &self.selection
    }

    pub fn tabspaces(&self) -> (r: usize)
        ensures
            r == self.tabspaces,
    {
        self.tabspaces
    }

    /// The padding: the deprecated top-level one where it is set, else the
    /// window's.
    pub fn padding(&self) -> (r: Delta<u8>)
        ensures
            r == match self.padding {
                Some(p) => p,
                None => self.window.spec_padding(),
            },
    {
        match self.padding {
            Some(p) => p,
            None => self.window.padding(),
        }
    }

    pub fn draw_bold_text_with_bright_colors(&self) -> (r: bool)
        ensures
            r == self.draw_bold_text_with_bright_colors,
    {
        self.draw_bold_text_with_bright_colors
    }

    /// Get font config
    pub fn font(&self) -> (r: &Font)
        ensures
            *r == self.font,
    {
        &self.font
    }

    /// The window dimensions: the deprecated top-level ones where they are
    /// set, else the window's.
    pub fn dimensions(&self) -> (r: Dimensions)
        ensures
            r == match self.dimensions {
                Some(d) => d,
                None => self.window.spec_dimensions(),
            },
    {
        match self.dimensions {
            Some(d) => d,
            None => self.window.dimensions(),
        }
    }

    pub fn position(&self) -> (r: Option<Delta<i32>>)
        ensures
            r == self.window.spec_position(),
    {
        self.window.position()
    }

    /// Get window config
    pub fn window(&self) -> (r: &WindowConfig)
        ensures
            *r == self.window,
    {
        &self.window
    }

    /// Get visual bell config
    pub fn visual_bell(&self) -> (r: &VisualBellConfig)
        ensures
            *r == self.visual_bell,
    {
        &self.visual_bell
    }

    /// Should show render timer
    pub fn render_timer(&self) -> (r: bool)
        ensures
            r == self.render_timer,
    {
        self.render_timer
    }

    /// Thin strokes are a macOS rendering option; elsewhere they are off.
    pub fn use_thin_strokes(&self) -> (r: bool)
        ensures
            !r,
    {
        false
    }

    pub fn path(&self) -> (r: Option<&PathBuf>)
        ensures
            self.config_path is None ==> r is None,
            self.config_path matches Some(p) ==> (r matches Some(q) && *q == p),
    {
        self.config_path.as_ref()
    }

    pub fn shell(&self) -> (r: Option<&Shell>)
        ensures
            self.shell is None ==> r is None,
            self.shell matches Some(sh) ==> (r matches Some(q) && *q == sh),
    {
        self.shell.as_ref()
    }

    pub fn env(&self) -> (r: &HashMap<String, String>)
        ensures
            *r == self.env,
    {
        &self.env
    }

    /// Should hide mouse cursor when typing: the deprecated option where it
    /// is set, else the mouse's.
    pub fn hide_mouse_when_typing(&self) -> (r: bool)
        ensures
            r == match self.hide_cursor_when_typing {
                Some(h) => h,
                None => self.mouse.hide_when_typing,
            },
    {
        match self.hide_cursor_when_typing {
            Some(h) => h,
            None => self.mouse.hide_when_typing,
        }
    }

    /// Style of the cursor: the deprecated option where it is set, else
    /// the cursor's.
    pub fn cursor_style(&self) -> (r: CursorStyle)
        ensures
            r == match self.cursor_style {
                Some(s) => s,
                None => self.cursor.style,
            },
    {
        match self.cursor_style {
            Some(s) => s,
            None => self.cursor.style,
        }
    }

    /// Use hollow block cursor when unfocused: the deprecated option where
    /// it is set, else the cursor's.
    pub fn unfocused_hollow_cursor(&self) -> (r: bool)
        ensures
            r == match self.unfocused_hollow_cursor {
                Some(h) => h,
                None => self.cursor.unfocused_hollow,
            },
    {
        match self.unfocused_hollow_cursor {
            Some(h) => h,
            None => self.cursor.unfocused_hollow,
        }
    }

    /// Live config reload
    pub fn live_config_reload(&self) -> (r: bool)
        ensures
            r == self.live_config_reload,
    {
        self.live_config_reload
    }

    pub fn dynamic_title(&self) -> (r: bool)
        ensures
            r == self.dynamic_title,
    {
        self.dynamic_title
    }

    /// Scrolling settings
    pub fn scrolling(&self) -> (r: Scrolling)
        ensures
            r == self.scrolling,
    {
        self.scrolling
    }

    /// The cursor's text color, drawn as the cursor foreground, where the
    /// configuration gives one.
    pub fn cursor_text_color(&self) -> (r: Option<Color>)
        ensures
            r == if self.colors.cursor.text is Some {
                Some(Color::Named(NamedColor::CursorForeground))
            } else {
                None
            },
    {
        match self.colors.cursor.text {
            Some(_) => Some(Color::Named(NamedColor::CursorForeground)),
            None => None,
        }
    }

    /// The cursor's block color, drawn as the cursor background, where the
    /// configuration gives one.
    pub fn cursor_cursor_color(&self) -> (r: Option<Color>)
        ensures
            r == if self.colors.cursor.cursor is Some {
                Some(Color::Named(NamedColor::CursorBackground))
            } else {
                None
            },
    {
        match self.colors.cursor.cursor {
            Some(_) => Some(Color::Named(NamedColor::CursorBackground)),
            None => None,
        }
    }

    /// Send escape sequences using the alt key
    pub fn alt_send_esc(&self) -> (r: bool)
        ensures
            r == self.alt_send_esc,
    {
        self.alt_send_esc
    }

    /// Update the history size, used in ref tests
    pub fn set_history(&mut self, history: u32)
        ensures
            *final(self) == (Config { scrolling: Scrolling { history, ..old(self).scrolling }, ..*old(self) }),
    {
        self.scrolling.history = history;
    }

    /// Keep the log file after quitting
    pub fn persistent_logging(&self) -> (r: bool)
        ensures
            r == self.persistent_logging,
    {
        self.persistent_logging
    }

    /// A title given on the command line turns the dynamic title off.
    pub fn update_dynamic_title(self, options: &Options) -> (r: Config)
        ensures
            r == (Config { dynamic_title: self.dynamic_title && options.title is None, ..self }),
    {
        let mut c = self;
        if options.title.is_some() {
            c.dynamic_title = false;
        }
        c
    }

    /// The deprecated options that the configuration sets, to warn of; a
    /// configuration that turns custom cursor colors off loses its cursor
    /// colors.
    pub fn deprecation_warnings(&mut self) -> (r: Vec<Deprecation>)
        ensures
            r@ == deprecations_spec(*old(self)),
            old(self).custom_cursor_colors == Some(false) ==> *final(self) == (Config {
                colors: Colors { cursor: CursorColors { text: None, cursor: None }, ..old(self).colors },
                ..*old(self)
            }),
            old(self).custom_cursor_colors != Some(false) ==> *final(self) == *old(self),
    {
        let warnings = deprecations(self);
        if self.custom_cursor_colors == Some(false) {
            self.colors.cursor = CursorColors { text: None, cursor: None };
        }
        warnings
    }
}

} // verus!
