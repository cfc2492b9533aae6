//! ANSI terminal stream parsing: what a terminal does for each control
//! function that the byte-level parser recognizes.
//!
//! The byte-level parser reports C0/C1 controls, CSI, ESC and OSC sequences;
//! the functions here decide which terminal actions each of them stands for.
use std::ops::Range;

use vstd::prelude::*;
use vstd::utf8::{decode_utf8, valid_utf8};

use crate::index::{Column, Contains, Line};
use crate::Rgb;

verus! {

/// Terminal modes.
#[derive(Debug, Clone, Copy, PartialEq, Eq, Structural)]
pub enum Mode {
    /// ?1
    CursorKeys,
    /// ?6
    Origin,
    /// ?7
    LineWrap,
    /// ?12
    BlinkingCursor,
    /// ?25
    ShowCursor,
    /// ?1000
    ReportMouseClicks,
    /// ?1002
    ReportMouseMotion,
    /// ?1006
    SgrMouse,
    /// ?1049
    SwapScreenAndSetRestoreCursor,
    /// ?2004
    BracketedPaste,
}

/// The mode a private mode number selects.
pub open spec fn mode_spec(private: bool, num: i64) -> Option<Mode> {
    if !private {
        None
    } else if num == 1 {
        Some(Mode::CursorKeys)
    } else if num == 6 {
        Some(Mode::Origin)
    } else if num == 7 {
        Some(Mode::LineWrap)
    } else if num == 12 {
        Some(Mode::BlinkingCursor)
    } else if num == 25 {
        Some(Mode::ShowCursor)
    } else if num == 1000 {
        Some(Mode::ReportMouseClicks)
    } else if num == 1002 {
        Some(Mode::ReportMouseMotion)
    } else if num == 1006 {
        Some(Mode::SgrMouse)
    } else if num == 1049 {
        Some(Mode::SwapScreenAndSetRestoreCursor)
    } else if num == 2004 {
        Some(Mode::BracketedPaste)
    } else {
        None
    }
}

impl Mode {
    /// Create mode from a primitive; only private modes are known.
    pub fn from_primitive(private: bool, num: i64) -> (r: Option<Mode>)
        ensures
            r == mode_spec(private, num),
    {
        if private {
            match num {
                1 => Some(Mode::CursorKeys),
                6 => Some(Mode::Origin),
                7 => Some(Mode::LineWrap),
                12 => Some(Mode::BlinkingCursor),
                25 => Some(Mode::ShowCursor),
                1000 => Some(Mode::ReportMouseClicks),
                1002 => Some(Mode::ReportMouseMotion),
                1006 => Some(Mode::SgrMouse),
                1049 => Some(Mode::SwapScreenAndSetRestoreCursor),
                2004 => Some(Mode::BracketedPaste),
                _ => None,
            }
        } else {
            None
        }
    }
}

/// Mode for clearing line, relative to cursor.
#[derive(Debug, Clone, Copy, PartialEq, Eq, Structural)]
pub enum LineClearMode {
    /// Clear right of cursor
    Right,
    /// Clear left of cursor
    Left,
    /// Clear entire line
    All,
}

/// Mode for clearing terminal, relative to cursor.
#[derive(Debug, Clone, Copy, PartialEq, Eq, Structural)]
pub enum ClearMode {
    /// Clear below cursor
    Below,
    /// Clear above cursor
    Above,
    /// Clear entire terminal
    All,
}

/// Mode for clearing tab stops.
#[derive(Debug, Clone, Copy, PartialEq, Eq, Structural)]
pub enum TabulationClearMode {
    /// Clear stop under cursor
    Current,
    /// Clear all stops
    All,
}

/// Standard colors.
#[derive(Debug, Copy, Clone, Eq, PartialEq, Structural, PartialOrd, Ord)]
pub enum NamedColor {
    Black,
    Red,
    Green,
    Yellow,
    Blue,
    Magenta,
    Cyan,
    White,
    BrightBlack,
    BrightRed,
    BrightGreen,
    BrightYellow,
    BrightBlue,
    BrightMagenta,
    BrightCyan,
    BrightWhite,
    /// The foreground color
    Foreground,
    /// The background color
    Background,
    /// The cursor foreground color
    CursorForeground,
    /// The cursor background color
    CursorBackground,
}

impl NamedColor {
    /// The bright variant of one of the eight normal colors; any other
    /// color is returned unchanged.
    pub fn to_bright(&self) -> (r: Self)
        ensures
            r == match *self {
                NamedColor::Black => NamedColor::BrightBlack,
                NamedColor::Red => NamedColor::BrightRed,
                NamedColor::Green => NamedColor::BrightGreen,
                NamedColor::Yellow => NamedColor::BrightYellow,
                NamedColor::Blue => NamedColor::BrightBlue,
                NamedColor::Magenta => NamedColor::BrightMagenta,
                NamedColor::Cyan => NamedColor::BrightCyan,
                NamedColor::White => NamedColor::BrightWhite,
                val => val,
            },
    {
        match *self {
            NamedColor::Black => NamedColor::BrightBlack,
            NamedColor::Red => NamedColor::BrightRed,
            NamedColor::Green => NamedColor::BrightGreen,
            NamedColor::Yellow => NamedColor::BrightYellow,
            NamedColor::Blue => NamedColor::BrightBlue,
            NamedColor::Magenta => NamedColor::BrightMagenta,
            NamedColor::Cyan => NamedColor::BrightCyan,
            NamedColor::White => NamedColor::BrightWhite,
            val => val,
        }
    }
}

/// A color given by name, by value or by index into the color table.
#[derive(Debug, Clone, Copy, PartialEq, Eq, Structural)]
pub enum Color {
    Named(NamedColor),
    Spec(Rgb),
    Indexed(u8),
}

/// Terminal character attributes.
#[derive(Debug, Clone, Copy, PartialEq, Eq, Structural)]
pub enum Attr {
    /// Clear all special abilities
    Reset,
    /// Bold text
    Bold,
    /// Dim or secondary color
    Dim,
    /// Italic text
    Italic,
    /// Underscore text
    Underscore,
    /// Blink cursor slowly
    BlinkSlow,
    /// Blink cursor fast
    BlinkFast,
    /// Invert colors
    Reverse,
    /// Do not display characters
    Hidden,
    /// Strikethrough text
    Strike,
    /// Cancel bold and dim
    CancelBoldDim,
    /// Cancel italic
    CancelItalic,
    /// Cancel underline
    CancelUnderline,
    /// Cancel blink
    CancelBlink,
    /// Cancel inversion
    CancelReverse,
    /// Cancel text hiding
    CancelHidden,
    /// Cancel strike through
    CancelStrike,
    /// Set indexed foreground color
    Foreground(Color),
    /// Set indexed background color
    Background(Color),
}

/// Identifiers which can be assigned to a graphic character set.
#[derive(Clone, Copy, Debug, Eq, PartialEq, Structural)]
pub enum CharsetIndex {
    /// Default set, is designated as ASCII at startup
    G0,
    G1,
    G2,
    G3,
}

impl Default for CharsetIndex {
    fn default() -> (r: Self)
        ensures
            r == CharsetIndex::G0,
    {
        CharsetIndex::G0
    }
}

/// Standard or common character sets which can be designated as G0-G3.
#[derive(Clone, Copy, Debug, Eq, PartialEq, Structural)]
pub enum StandardCharset {
    Ascii,
    SpecialCharacterAndLineDrawing,
}

impl Default for StandardCharset {
    fn default() -> (r: Self)
        ensures
            r == StandardCharset::Ascii,
    {
        StandardCharset::Ascii
    }
}

/// What the terminal is asked to do; one variant per handler operation.
#[derive(Debug, Clone, PartialEq, Eq)]
pub enum TermAction {
    /// A character to be displayed
    Input(char),
    /// OSC to set window title
    SetTitle(String),
    /// Set cursor to position
    Goto(Line, Column),
    /// Set cursor to specific row
    GotoLine(Line),
    /// Set cursor to specific column
    GotoCol(Column),
    /// Insert blank characters in current line starting from cursor
    InsertBlank(Column),
    /// Move cursor up `rows`
    MoveUp(Line),
    /// Move cursor down `rows`
    MoveDown(Line),
    /// Identify the terminal (should write back to the pty stream)
    IdentifyTerminal,
    /// Move cursor forward `cols`
    MoveForward(Column),
    /// Move cursor backward `cols`
    MoveBackward(Column),
    /// Move cursor down `rows` and set to column 1
    MoveDownAndCr(Line),
    /// Move cursor up `rows` and set to column 1
    MoveUpAndCr(Line),
    /// Put `count` tabs
    PutTab(i64),
    /// Backspace
    Backspace,
    /// Carriage return
    CarriageReturn,
    /// Linefeed
    Linefeed,
    /// Ring the bell
    Bell,
    /// Substitute char under cursor
    Substitute,
    /// Newline
    Newline,
    /// Set current position as a tabstop
    SetHorizontalTabstop,
    /// Scroll up `rows` rows
    ScrollUp(Line),
    /// Scroll down `rows` rows
    ScrollDown(Line),
    /// Insert `count` blank lines
    InsertBlankLines(Line),
    /// Delete `count` lines
    DeleteLines(Line),
    /// Erase `count` chars in current line following cursor
    EraseChars(Column),
    /// Delete `count` chars
    DeleteChars(Column),
    /// Move backward `count` tabs
    MoveBackwardTabs(i64),
    /// Move forward `count` tabs
    MoveForwardTabs(i64),
    /// Save current cursor position
    SaveCursorPosition,
    /// Restore cursor position
    RestoreCursorPosition,
    /// Clear current line
    ClearLine(LineClearMode),
    /// Clear screen
    ClearScreen(ClearMode),
    /// Clear tab stops
    ClearTabs(TabulationClearMode),
    /// Reset terminal state
    ResetState,
    /// Reverse Index
    ReverseIndex,
    /// Set a terminal attribute
    TerminalAttribute(Attr),
    /// Set mode
    SetMode(Mode),
    /// Unset mode
    UnsetMode(Mode),
    /// DECSTBM - Set the terminal scrolling region (top, bottom exclusive)
    SetScrollingRegion(Line, Line),
    /// DECKPAM - Set keypad to applications mode
    SetKeypadApplicationMode,
    /// DECKPNM - Set keypad to numeric mode
    UnsetKeypadApplicationMode,
    /// Invoke one of G0 to G3 as the active charset
    SetActiveCharset(CharsetIndex),
    /// Designate a graphic character set as one of G0 to G3
    ConfigureCharset(CharsetIndex, StandardCharset),
}

/// Information about the terminal that the dispatch needs.
pub trait TermInfo {
    fn lines(&self) -> Line;
    fn cols(&self) -> Column;
}

/// Type that handles actions from the parser.
///
/// The handler keeps the record of the actions handed to it, `performed()`.
/// Every method does nothing but note its action there, unless a terminal
/// implementation overrides it; an override notes its action too.
pub trait Handler {
    /// The actions handed to this handler so far, oldest first. A handler
    /// whose methods are verified defines it; the default has no actions.
    open spec fn performed(&self) -> Seq<TermAction> {
        Seq::empty()
    }

    /// Notes that `action` was handed to the handler.
    fn record(&mut self, action: TermAction)
        ensures
            final(self).performed() == old(self).performed().push(action),
    ;

    /// OSC to set window title
    fn set_title(&mut self, title: &str)
        ensures
            final(self).performed().len() == old(self).performed().len() + 1,
            final(self).performed().drop_last() == old(self).performed(),
            final(self).performed().last() matches TermAction::SetTitle(t) && t@ == title@,
    {
        self.record(TermAction::SetTitle(title.to_string()));
    }

    /// A character to be displayed
    fn input(&mut self, c: char)
        ensures
            final(self).performed() == old(self).performed().push(TermAction::Input(c)),
    {
        self.record(TermAction::Input(c));
    }

    /// Set cursor to position
    fn goto(&mut self, line: Line, col: Column)
        ensures
            final(self).performed() == old(self).performed().push(TermAction::Goto(line, col)),
    {
        self.record(TermAction::Goto(line, col));
    }

    /// Set cursor to specific row
    fn goto_line(&mut self, line: Line)
        ensures
            final(self).performed() == old(self).performed().push(TermAction::GotoLine(line)),
    {
        self.record(TermAction::GotoLine(line));
    }

    /// Set cursor to specific column
    fn goto_col(&mut self, col: Column)
        ensures
            final(self).performed() == old(self).performed().push(TermAction::GotoCol(col)),
    {
        self.record(TermAction::GotoCol(col));
    }

    /// Insert blank characters in current line starting from cursor
    fn insert_blank(&mut self, count: Column)
        ensures
            final(self).performed() == old(self).performed().push(TermAction::InsertBlank(count)),
    {
        self.record(TermAction::InsertBlank(count));
    }

    /// Move cursor up `rows`
    fn move_up(&mut self, rows: Line)
        ensures
            final(self).performed() == old(self).performed().push(TermAction::MoveUp(rows)),
    {
        self.record(TermAction::MoveUp(rows));
    }

    /// Move cursor down `rows`
    fn move_down(&mut self, rows: Line)
        ensures
            final(self).performed() == old(self).performed().push(TermAction::MoveDown(rows)),
    {
        self.record(TermAction::MoveDown(rows));
    }

    /// Identify the terminal (should write back to the pty stream)
    fn identify_terminal(&mut self)
        ensures
            final(self).performed() == old(self).performed().push(TermAction::IdentifyTerminal),
    {
        self.record(TermAction::IdentifyTerminal);
    }

    /// Move cursor forward `cols`
    fn move_forward(&mut self, cols: Column)
        ensures
            final(self).performed() == old(self).performed().push(TermAction::MoveForward(cols)),
    {
        self.record(TermAction::MoveForward(cols));
    }

    /// Move cursor backward `cols`
    fn move_backward(&mut self, cols: Column)
        ensures
            final(self).performed() == old(self).performed().push(TermAction::MoveBackward(cols)),
    {
        self.record(TermAction::MoveBackward(cols));
    }

    /// Move cursor down `rows` and set to column 1
    fn move_down_and_cr(&mut self, rows: Line)
        ensures
            final(self).performed() == old(self).performed().push(TermAction::MoveDownAndCr(rows)),
    {
        self.record(TermAction::MoveDownAndCr(rows));
    }

    /// Move cursor up `rows` and set to column 1
    fn move_up_and_cr(&mut self, rows: Line)
        ensures
            final(self).performed() == old(self).performed().push(TermAction::MoveUpAndCr(rows)),
    {
        self.record(TermAction::MoveUpAndCr(rows));
    }

    /// Put `count` tabs
    fn put_tab(&mut self, count: i64)
        ensures
            final(self).performed() == old(self).performed().push(TermAction::PutTab(count)),
    {
        self.record(TermAction::PutTab(count));
    }

    /// Backspace `count` characters
    fn backspace(&mut self)
        ensures
            final(self).performed() == old(self).performed().push(TermAction::Backspace),
    {
        self.record(TermAction::Backspace);
    }

    /// Carriage return
    fn carriage_return(&mut self)
        ensures
            final(self).performed() == old(self).performed().push(TermAction::CarriageReturn),
    {
        self.record(TermAction::CarriageReturn);
    }

    /// Linefeed
    fn linefeed(&mut self)
        ensures
            final(self).performed() == old(self).performed().push(TermAction::Linefeed),
    {
        self.record(TermAction::Linefeed);
    }

    /// Ring the bell
    fn bell(&mut self)
        ensures
            final(self).performed() == old(self).performed().push(TermAction::Bell),
    {
        self.record(TermAction::Bell);
    }

    /// Substitute char under cursor
    fn substitute(&mut self)
        ensures
            final(self).performed() == old(self).performed().push(TermAction::Substitute),
    {
        self.record(TermAction::Substitute);
    }

    /// Newline
    fn newline(&mut self)
        ensures
            final(self).performed() == old(self).performed().push(TermAction::Newline),
    {
        self.record(TermAction::Newline);
    }

    /// Set current position as a tabstop
    fn set_horizontal_tabstop(&mut self)
        ensures
            final(self).performed() == old(self).performed().push(TermAction::SetHorizontalTabstop),
    {
        self.record(TermAction::SetHorizontalTabstop);
    }

    /// Scroll up `rows` rows
    fn scroll_up(&mut self, rows: Line)
        ensures
            final(self).performed() == old(self).performed().push(TermAction::ScrollUp(rows)),
    {
        self.record(TermAction::ScrollUp(rows));
    }

    /// Scroll down `rows` rows
    fn scroll_down(&mut self, rows: Line)
        ensures
            final(self).performed() == old(self).performed().push(TermAction::ScrollDown(rows)),
    {
        self.record(TermAction::ScrollDown(rows));
    }

    /// Insert `count` blank lines
    fn insert_blank_lines(&mut self, count: Line)
        ensures
            final(self).performed() == old(self).performed().push(TermAction::InsertBlankLines(count)),
    {
        self.record(TermAction::InsertBlankLines(count));
    }

    /// Delete `count` lines
    fn delete_lines(&mut self, count: Line)
        ensures
            final(self).performed() == old(self).performed().push(TermAction::DeleteLines(count)),
    {
        self.record(TermAction::DeleteLines(count));
    }

    /// Erase `count` chars in current line following cursor
    fn erase_chars(&mut self, count: Column)
        ensures
            final(self).performed() == old(self).performed().push(TermAction::EraseChars(count)),
    {
        self.record(TermAction::EraseChars(count));
    }

    /// Delete `count` chars
    fn delete_chars(&mut self, count: Column)
        ensures
            final(self).performed() == old(self).performed().push(TermAction::DeleteChars(count)),
    {
        self.record(TermAction::DeleteChars(count));
    }

    /// Move backward `count` tabs
    fn move_backward_tabs(&mut self, count: i64)
        ensures
            final(self).performed() == old(self).performed().push(TermAction::MoveBackwardTabs(count)),
    {
        self.record(TermAction::MoveBackwardTabs(count));
    }

    /// Move forward `count` tabs
    fn move_forward_tabs(&mut self, count: i64)
        ensures
            final(self).performed() == old(self).performed().push(TermAction::MoveForwardTabs(count)),
    {
        self.record(TermAction::MoveForwardTabs(count));
    }

    /// Save current cursor position
    fn save_cursor_position(&mut self)
        ensures
            final(self).performed() == old(self).performed().push(TermAction::SaveCursorPosition),
    {
        self.record(TermAction::SaveCursorPosition);
    }

    /// Restore cursor position
    fn restore_cursor_position(&mut self)
        ensures
            final(self).performed() == old(self).performed().push(TermAction::RestoreCursorPosition),
    {
        self.record(TermAction::RestoreCursorPosition);
    }

    /// Clear current line
    fn clear_line(&mut self, mode: LineClearMode)
        ensures
            final(self).performed() == old(self).performed().push(TermAction::ClearLine(mode)),
    {
        self.record(TermAction::ClearLine(mode));
    }

    /// Clear screen
    fn clear_screen(&mut self, mode: ClearMode)
        ensures
            final(self).performed() == old(self).performed().push(TermAction::ClearScreen(mode)),
    {
        self.record(TermAction::ClearScreen(mode));
    }

    /// Clear tab stops
    fn clear_tabs(&mut self, mode: TabulationClearMode)
        ensures
            final(self).performed() == old(self).performed().push(TermAction::ClearTabs(mode)),
    {
        self.record(TermAction::ClearTabs(mode));
    }

    /// Reset terminal state
    fn reset_state(&mut self)
        ensures
            final(self).performed() == old(self).performed().push(TermAction::ResetState),
    {
        self.record(TermAction::ResetState);
    }

    /// Reverse Index
    fn reverse_index(&mut self)
        ensures
            final(self).performed() == old(self).performed().push(TermAction::ReverseIndex),
    {
        self.record(TermAction::ReverseIndex);
    }

    /// set a terminal attribute
    fn terminal_attribute(&mut self, attr: Attr)
        ensures
            final(self).performed() == old(self).performed().push(TermAction::TerminalAttribute(attr)),
    {
        self.record(TermAction::TerminalAttribute(attr));
    }

    /// Set mode
    fn set_mode(&mut self, mode: Mode)
        ensures
            final(self).performed() == old(self).performed().push(TermAction::SetMode(mode)),
    {
        self.record(TermAction::SetMode(mode));
    }

    /// Unset mode
    fn unset_mode(&mut self, mode: Mode)
        ensures
            final(self).performed() == old(self).performed().push(TermAction::UnsetMode(mode)),
    {
        self.record(TermAction::UnsetMode(mode));
    }

    /// DECSTBM - Set the terminal scrolling region
    fn set_scrolling_region(&mut self, region: Range<Line>)
        ensures
            final(self).performed() == old(self).performed().push(TermAction::SetScrollingRegion(region.start, region.end)),
    {
        self.record(TermAction::SetScrollingRegion(region.start, region.end));
    }

    /// DECKPAM - Set keypad to applications mode (ESCape instead of digits)
    fn set_keypad_application_mode(&mut self)
        ensures
            final(self).performed() == old(self).performed().push(TermAction::SetKeypadApplicationMode),
    {
        self.record(TermAction::SetKeypadApplicationMode);
    }

    /// DECKPNM - Set keypad to numeric mode (digits intead of ESCape seq)
    fn unset_keypad_application_mode(&mut self)
        ensures
            final(self).performed() == old(self).performed().push(TermAction::UnsetKeypadApplicationMode),
    {
        self.record(TermAction::UnsetKeypadApplicationMode);
    }

    /// Set one of the graphic character sets, G0 to G3, as the active charset.
    fn set_active_charset(&mut self, index: CharsetIndex)
        ensures
            final(self).performed() == old(self).performed().push(TermAction::SetActiveCharset(index)),
    {
        self.record(TermAction::SetActiveCharset(index));
    }

    /// Assign a graphic character set to G0, G1, G2 or G3.
    fn configure_charset(&mut self, index: CharsetIndex, charset: StandardCharset)
        ensures
            final(self).performed() == old(self).performed().push(TermAction::ConfigureCharset(index, charset)),
    {
        self.record(TermAction::ConfigureCharset(index, charset));
    }
}

/// `a` is the action `b`; titles are compared by their text.
pub open spec fn same_action(a: TermAction, b: TermAction) -> bool {
    match (a, b) {
        (TermAction::SetTitle(x), TermAction::SetTitle(y)) => x@ == y@,
        _ => a == b,
    }
}

/// A handler that keeps the actions handed to it, and does nothing else.
pub struct ActionLog {
    pub actions: Vec<TermAction>,
}

impl Handler for ActionLog {
    open spec fn performed(&self) -> Seq<TermAction> {
        self.actions@
    }

    fn record(&mut self, action: TermAction) {
        self.actions.push(action);
    }
}

/// Hands one terminal action to the handler method that performs it: the
/// handler's record gains exactly that action.
pub fn perform<H: Handler>(handler: &mut H, action: TermAction)
    ensures
        final(handler).performed().len() == old(handler).performed().len() + 1,
        final(handler).performed().drop_last() == old(handler).performed(),
        same_action(final(handler).performed().last(), action),
{
    match action {
        TermAction::Input(c) => handler.input(c),
        TermAction::SetTitle(title) => handler.set_title(title.as_str()),
        TermAction::Goto(line, col) => handler.goto(line, col),
        TermAction::GotoLine(line) => handler.goto_line(line),
        TermAction::GotoCol(col) => handler.goto_col(col),
        TermAction::InsertBlank(count) => handler.insert_blank(count),
        TermAction::MoveUp(rows) => handler.move_up(rows),
        TermAction::MoveDown(rows) => handler.move_down(rows),
        TermAction::IdentifyTerminal => handler.identify_terminal(),
        TermAction::MoveForward(cols) => handler.move_forward(cols),
        TermAction::MoveBackward(cols) => handler.move_backward(cols),
        TermAction::MoveDownAndCr(rows) => handler.move_down_and_cr(rows),
        TermAction::MoveUpAndCr(rows) => handler.move_up_and_cr(rows),
        TermAction::PutTab(count) => handler.put_tab(count),
        TermAction::Backspace => handler.backspace(),
        TermAction::CarriageReturn => handler.carriage_return(),
        TermAction::Linefeed => handler.linefeed(),
        TermAction::Bell => handler.bell(),
        TermAction::Substitute => handler.substitute(),
        TermAction::Newline => handler.newline(),
        TermAction::SetHorizontalTabstop => handler.set_horizontal_tabstop(),
        TermAction::ScrollUp(rows) => handler.scroll_up(rows),
        TermAction::ScrollDown(rows) => handler.scroll_down(rows),
        TermAction::InsertBlankLines(count) => handler.insert_blank_lines(count),
        TermAction::DeleteLines(count) => handler.delete_lines(count),
        TermAction::EraseChars(count) => handler.erase_chars(count),
        TermAction::DeleteChars(count) => handler.delete_chars(count),
        TermAction::MoveBackwardTabs(count) => handler.move_backward_tabs(count),
        TermAction::MoveForwardTabs(count) => handler.move_forward_tabs(count),
        TermAction::SaveCursorPosition => handler.save_cursor_position(),
        TermAction::RestoreCursorPosition => handler.restore_cursor_position(),
        TermAction::ClearLine(mode) => handler.clear_line(mode),
        TermAction::ClearScreen(mode) => handler.clear_screen(mode),
        TermAction::ClearTabs(mode) => handler.clear_tabs(mode),
        TermAction::ResetState => handler.reset_state(),
        TermAction::ReverseIndex => handler.reverse_index(),
        TermAction::TerminalAttribute(attr) => handler.terminal_attribute(attr),
        TermAction::SetMode(mode) => handler.set_mode(mode),
        TermAction::UnsetMode(mode) => handler.unset_mode(mode),
        TermAction::SetScrollingRegion(top, bottom) => handler.set_scrolling_region(
            Range { start: top, end: bottom },
        ),
        TermAction::SetKeypadApplicationMode => handler.set_keypad_application_mode(),
        TermAction::UnsetKeypadApplicationMode => handler.unset_keypad_application_mode(),
        TermAction::SetActiveCharset(index) => handler.set_active_charset(index),
        TermAction::ConfigureCharset(index, charset) => handler.configure_charset(index, charset),
    }
}

/// C0 set of 7-bit control characters (from ANSI X3.4-1977).
pub const C0_NUL: u8 = 0x00;
pub const C0_BEL: u8 = 0x07;
pub const C0_BS: u8 = 0x08;
pub const C0_HT: u8 = 0x09;
pub const C0_LF: u8 = 0x0A;
pub const C0_VT: u8 = 0x0B;
pub const C0_FF: u8 = 0x0C;
pub const C0_CR: u8 = 0x0D;
pub const C0_SO: u8 = 0x0E;
pub const C0_SI: u8 = 0x0F;
pub const C0_SUB: u8 = 0x1A;
pub const C0_ESC: u8 = 0x1B;
pub const C0_DEL: u8 = 0x7f;

/// C1 set of 8-bit control characters (from ANSI X3.64-1979).
pub const C1_NEL: u8 = 0x85;
pub const C1_HTS: u8 = 0x88;
pub const C1_DECID: u8 = 0x9a;
pub const C1_CSI: u8 = 0x9B;
pub const C1_ST: u8 = 0x9C;
pub const C1_OSC: u8 = 0x9D;

/// The action for a C0 or C1 control byte.
pub open spec fn execute_spec(byte: u8) -> Option<TermAction> {
    if byte == C0_HT {
        Some(TermAction::PutTab(1))
    } else if byte == C0_BS {
        Some(TermAction::Backspace)
    } else if byte == C0_CR {
        Some(TermAction::CarriageReturn)
    } else if byte == C0_LF || byte == C0_VT || byte == C0_FF {
        Some(TermAction::Linefeed)
    } else if byte == C0_BEL {
        Some(TermAction::Bell)
    } else if byte == C0_SUB {
        Some(TermAction::Substitute)
    } else if byte == C0_SI {
        Some(TermAction::SetActiveCharset(CharsetIndex::G0))
    } else if byte == C0_SO {
        Some(TermAction::SetActiveCharset(CharsetIndex::G1))
    } else if byte == C1_NEL {
        Some(TermAction::Newline)
    } else if byte == C1_HTS {
        Some(TermAction::SetHorizontalTabstop)
    } else if byte == C1_DECID {
        Some(TermAction::IdentifyTerminal)
    } else {
        None
    }
}

/// The action for a C0 or C1 control function; `None` for unhandled bytes.
pub fn execute(byte: u8) -> (r: Option<TermAction>)
    ensures
        r == execute_spec(byte),
{
    if byte == C0_HT {
        Some(TermAction::PutTab(1))
    } else if byte == C0_BS {
        Some(TermAction::Backspace)
    } else if byte == C0_CR {
        Some(TermAction::CarriageReturn)
    } else if byte == C0_LF || byte == C0_VT || byte == C0_FF {
        Some(TermAction::Linefeed)
    } else if byte == C0_BEL {
        Some(TermAction::Bell)
    } else if byte == C0_SUB {
        Some(TermAction::Substitute)
    } else if byte == C0_SI {
        Some(TermAction::SetActiveCharset(CharsetIndex::G0))
    } else if byte == C0_SO {
        Some(TermAction::SetActiveCharset(CharsetIndex::G1))
    } else if byte == C1_NEL {
        Some(TermAction::Newline)
    } else if byte == C1_HTS {
        Some(TermAction::SetHorizontalTabstop)
    } else if byte == C1_DECID {
        Some(TermAction::IdentifyTerminal)
    } else {
        None
    }
}

/// The charset slot an intermediate byte of a designation names.
pub open spec fn charset_index_spec(intermediates: Seq<u8>) -> Option<CharsetIndex> {
    if intermediates.len() == 0 {
        None
    } else if intermediates[0] == 0x28u8 {
        Some(CharsetIndex::G0)
    } else if intermediates[0] == 0x29u8 {
        Some(CharsetIndex::G1)
    } else if intermediates[0] == 0x2au8 {
        Some(CharsetIndex::G2)
    } else if intermediates[0] == 0x2bu8 {
        Some(CharsetIndex::G3)
    } else {
        None
    }
}

/// The action for the final byte of an escape sequence.
pub open spec fn esc_spec(intermediates: Seq<u8>, byte: u8) -> Option<TermAction> {
    if byte == 0x42u8 {
        match charset_index_spec(intermediates) {
            Some(index) => Some(TermAction::ConfigureCharset(index, StandardCharset::Ascii)),
            None => None,
        }
    } else if byte == 0x30u8 {
        match charset_index_spec(intermediates) {
            Some(index) => Some(
                TermAction::ConfigureCharset(index, StandardCharset::SpecialCharacterAndLineDrawing),
            ),
            None => None,
        }
    } else if byte == 0x44u8 {
        Some(TermAction::Linefeed)
    } else if byte == 0x45u8 {
        Some(TermAction::Newline)
    } else if byte == 0x48u8 {
        Some(TermAction::SetHorizontalTabstop)
    } else if byte == 0x4du8 {
        Some(TermAction::ReverseIndex)
    } else if byte == 0x5au8 {
        Some(TermAction::IdentifyTerminal)
    } else if byte == 0x63u8 {
        Some(TermAction::ResetState)
    } else if byte == 0x37u8 {
        Some(TermAction::SaveCursorPosition)
    } else if byte == 0x38u8 {
        Some(TermAction::RestoreCursorPosition)
    } else if byte == 0x3du8 {
        Some(TermAction::SetKeypadApplicationMode)
    } else if byte == 0x3eu8 {
        Some(TermAction::UnsetKeypadApplicationMode)
    } else {
        None
    }
}

fn charset_index(intermediates: &[u8]) -> (r: Option<CharsetIndex>)
    ensures
        r == charset_index_spec(intermediates@),
{
    if intermediates.len() == 0 {
        None
    } else {
        let b = intermediates[0];
        if b == 0x28u8 {
            Some(CharsetIndex::G0)
        } else if b == 0x29u8 {
            Some(CharsetIndex::G1)
        } else if b == 0x2au8 {
            Some(CharsetIndex::G2)
        } else if b == 0x2bu8 {
            Some(CharsetIndex::G3)
        } else {
            None
        }
    }
}

/// The action for the final byte of an escape sequence; `None` for
/// unhandled sequences.
pub fn esc_dispatch(params: &[i64], intermediates: &[u8], ignore: bool, byte: u8) -> (r: Option<
    TermAction,
>)
    ensures
        r == esc_spec(intermediates@, byte),
{
    if byte == 0x42u8 {
        match charset_index(intermediates) {
            Some(index) => Some(TermAction::ConfigureCharset(index, StandardCharset::Ascii)),
            None => None,
        }
    } else if byte == 0x30u8 {
        match charset_index(intermediates) {
            Some(index) => Some(
                TermAction::ConfigureCharset(index, StandardCharset::SpecialCharacterAndLineDrawing),
            ),
            None => None,
        }
    } else if byte == 0x44u8 {
        Some(TermAction::Linefeed)
    } else if byte == 0x45u8 {
        Some(TermAction::Newline)
    } else if byte == 0x48u8 {
        Some(TermAction::SetHorizontalTabstop)
    } else if byte == 0x4du8 {
        Some(TermAction::ReverseIndex)
    } else if byte == 0x5au8 {
        Some(TermAction::IdentifyTerminal)
    } else if byte == 0x63u8 {
        Some(TermAction::ResetState)
    } else if byte == 0x37u8 {
        Some(TermAction::SaveCursorPosition)
    } else if byte == 0x38u8 {
        Some(TermAction::RestoreCursorPosition)
    } else if byte == 0x3du8 {
        Some(TermAction::SetKeypadApplicationMode)
    } else if byte == 0x3eu8 {
        Some(TermAction::UnsetKeypadApplicationMode)
    } else {
        None
    }
}

/// Converts bytes to a string if they are valid UTF-8.
///
/// Calls `std::str::from_utf8`, which std documents as succeeding exactly
/// when the bytes are valid UTF-8; the contract states that, and that the
/// characters are the ones the bytes encode.
#[verifier::external_body]
fn string_from_utf8(bytes: &[u8]) -> (r: Option<String>)
    ensures
        r.is_some() == valid_utf8(bytes@),
        r matches Some(s) ==> s@ == decode_utf8(bytes@),
{
    match std::str::from_utf8(bytes) {
        Ok(s) => Some(s.to_string()),
        Err(_) => None,
    }
}

/// The OSC parameters ask for a window title: two parameters, the first
/// starting with '0' or '2', the second non-empty.
pub open spec fn osc_sets_title(params: Seq<Seq<u8>>) -> bool {
    &&& params.len() == 2
    &&& params[0].len() > 0
    &&& params[1].len() > 0
    &&& (params[0][0] == 0x30u8 || params[0][0] == 0x32u8)
}

/// The action for an operating system command: setting the window title to
/// the second parameter when it is valid UTF-8; `None` otherwise.
pub fn osc_dispatch(params: &[&[u8]]) -> (r: Option<TermAction>)
    ensures
        ({
            let ps = params@.map_values(|p: &[u8]| p@);
            if osc_sets_title(ps) && valid_utf8(ps[1]) {
                r matches Some(TermAction::SetTitle(t)) && t@ == decode_utf8(ps[1])
            } else {
                r.is_none()
            }
        }),
{
    if params.len() != 2 {
        return None;
    }
    let kind = params[0];
    let arg = params[1];
    if kind.len() == 0 || arg.len() == 0 {
        return None;
    }
    if kind[0] == 0x30u8 || kind[0] == 0x32u8 {
        match string_from_utf8(arg) {
            Some(title) => Some(TermAction::SetTitle(title)),
            None => None,
        }
    } else {
        None
    }
}

/// The color an extended color specification at the start of `attrs`
/// describes (`attrs[0]` is 38 or 48), and how many parameters after the
/// first it claims; `None` when it is malformed or out of range.
pub open spec fn parse_color_spec(attrs: Seq<i64>) -> Option<(Color, nat)> {
    if attrs.len() < 2 {
        None
    } else if attrs[1] == 2 {
        if attrs.len() < 5 {
            None
        } else if 0 <= attrs[2] < 256 && 0 <= attrs[3] < 256 && 0 <= attrs[4] < 256 {
            Some((Color::Spec(Rgb { r: attrs[2] as u8, g: attrs[3] as u8, b: attrs[4] as u8 }), 4))
        } else {
            None
        }
    } else if attrs[1] == 5 {
        if attrs.len() < 3 {
            None
        } else if 0 <= attrs[2] <= 255 {
            Some((Color::Indexed(attrs[2] as u8), 2))
        } else {
            None
        }
    } else {
        None
    }
}

/// `parse_color` reads only inside `attrs` when it starts at `i`.
pub open spec fn parse_color_in_bounds(attrs: Seq<i64>, i: int) -> bool {
    attrs.len() < 2 || {
        &&& i + 1 < attrs.len()
        &&& attrs[i + 1] == 2 && attrs.len() >= 5 ==> i + 4 < attrs.len()
        &&& attrs[i + 1] == 5 && attrs.len() >= 3 ==> i + 2 < attrs.len()
    }
}

/// What `parse_color` gives for `attrs` read from `i`: the color, and how
/// far `i` advances. The lengths checked are those of all of `attrs`; an
/// out-of-range color still advances past the parameters it read.
pub open spec fn parse_color_at(attrs: Seq<i64>, i: int) -> (Option<Color>, nat) {
    if attrs.len() < 2 {
        (None, 0)
    } else if attrs[i + 1] == 2 {
        if attrs.len() < 5 {
            (None, 0)
        } else if 0 <= attrs[i + 2] < 256 && 0 <= attrs[i + 3] < 256 && 0 <= attrs[i + 4] < 256 {
            (
                Some(
                    Color::Spec(
                        Rgb { r: attrs[i + 2] as u8, g: attrs[i + 3] as u8, b: attrs[i + 4] as u8 },
                    ),
                ),
                4,
            )
        } else {
            (None, 4)
        }
    } else if attrs[i + 1] == 5 {
        if attrs.len() < 3 {
            (None, 0)
        } else if 0 <= attrs[i + 2] <= 255 {
            (Some(Color::Indexed(attrs[i + 2] as u8)), 2)
        } else {
            (None, 2)
        }
    } else {
        (None, 0)
    }
}

/// Parse a color specifier from a list of attributes, starting at `*i`;
/// `*i` advances past the parameters that were read.
pub fn parse_color(attrs: &[i64], i: &mut usize) -> (r: Option<Color>)
    requires
        parse_color_in_bounds(attrs@, *old(i) as int),
        *old(i) + 4 <= usize::MAX,
    ensures
        r == parse_color_at(attrs@, *old(i) as int).0,
        *final(i) == *old(i) + parse_color_at(attrs@, *old(i) as int).1,
        *old(i) == 0 ==> match parse_color_spec(attrs@) {
            Some((c, n)) => r == Some(c) && *final(i) == n,
            None => r.is_none(),
        },
{
    if attrs.len() < 2 {
        return None;
    }
    let kind = attrs[*i + 1];
    if kind == 2 {
        if attrs.len() < 5 {
            return None;
        }
        let r = attrs[*i + 2];
        let g = attrs[*i + 3];
        let b = attrs[*i + 4];
        *i += 4;
        let range: Range<i64> = 0..256;
        if !range.contains_(r) || !range.contains_(g) || !range.contains_(b) {
            return None;
        }
        Some(Color::Spec(Rgb { r: r as u8, g: g as u8, b: b as u8 }))
    } else if kind == 5 {
        if attrs.len() < 3 {
            None
        } else {
            *i += 2;
            let idx = attrs[*i];
            if 0 <= idx && idx <= 255 {
                Some(Color::Indexed(idx as u8))
            } else {
                None
            }
        }
    } else {
        None
    }
}

/// The `idx`th parameter, or `default` when it is absent or zero.
pub open spec fn arg_or_default(args: Seq<i64>, idx: int, default: i64) -> i64 {
    if idx < args.len() && args[idx] != 0 {
        args[idx]
    } else {
        default
    }
}

fn arg_or_default_exec(args: &[i64], idx: usize, default: i64) -> (r: i64)
    ensures
        r == arg_or_default(args@, idx as int, default),
{
    if idx < args.len() && args[idx] != 0 {
        args[idx]
    } else {
        default
    }
}

/// What a single SGR parameter selects: an attribute, an extended color
/// that continues in the following parameters, or nothing known.
pub enum SgrParam {
    Attribute(Attr),
    ExtendedForeground,
    ExtendedBackground,
    Unknown,
}

/// The meaning of one SGR parameter.
pub open spec fn sgr_param(p: i64) -> SgrParam {
    if p == 0 {
        SgrParam::Attribute(Attr::Reset)
    } else if p == 1 {
        SgrParam::Attribute(Attr::Bold)
    } else if p == 2 {
        SgrParam::Attribute(Attr::Dim)
    } else if p == 3 {
        SgrParam::Attribute(Attr::Italic)
    } else if p == 4 {
        SgrParam::Attribute(Attr::Underscore)
    } else if p == 5 {
        SgrParam::Attribute(Attr::BlinkSlow)
    } else if p == 6 {
        SgrParam::Attribute(Attr::BlinkFast)
    } else if p == 7 {
        SgrParam::Attribute(Attr::Reverse)
    } else if p == 8 {
        SgrParam::Attribute(Attr::Hidden)
    } else if p == 9 {
        SgrParam::Attribute(Attr::Strike)
    } else if p == 22 {
        SgrParam::Attribute(Attr::CancelBoldDim)
    } else if p == 23 {
        SgrParam::Attribute(Attr::CancelItalic)
    } else if p == 24 {
        SgrParam::Attribute(Attr::CancelUnderline)
    } else if p == 25 {
        SgrParam::Attribute(Attr::CancelBlink)
    } else if p == 27 {
        SgrParam::Attribute(Attr::CancelReverse)
    } else if p == 28 {
        SgrParam::Attribute(Attr::CancelHidden)
    } else if p == 29 {
        SgrParam::Attribute(Attr::CancelStrike)
    } else if 30 <= p <= 37 {
        SgrParam::Attribute(Attr::Foreground(Color::Named(normal_color((p - 30) as int))))
    } else if p == 38 {
        SgrParam::ExtendedForeground
    } else if p == 39 {
        SgrParam::Attribute(Attr::Foreground(Color::Named(NamedColor::Foreground)))
    } else if 40 <= p <= 47 {
        SgrParam::Attribute(Attr::Background(Color::Named(normal_color((p - 40) as int))))
    } else if p == 48 {
        SgrParam::ExtendedBackground
    } else if p == 49 {
        SgrParam::Attribute(Attr::Background(Color::Named(NamedColor::Background)))
    } else if 90 <= p <= 97 {
        SgrParam::Attribute(Attr::Foreground(Color::Named(normal_color((p - 90) as int).spec_to_bright())))
    } else if 100 <= p <= 107 {
        SgrParam::Attribute(Attr::Background(Color::Named(normal_color((p - 100) as int).spec_to_bright())))
    } else {
        SgrParam::Unknown
    }
}

/// The eight normal colors in the order of their SGR numbers.
pub open spec fn normal_color(n: int) -> NamedColor {
    if n == 0 {
        NamedColor::Black
    } else if n == 1 {
        NamedColor::Red
    } else if n == 2 {
        NamedColor::Green
    } else if n == 3 {
        NamedColor::Yellow
    } else if n == 4 {
        NamedColor::Blue
    } else if n == 5 {
        NamedColor::Magenta
    } else if n == 6 {
        NamedColor::Cyan
    } else {
        NamedColor::White
    }
}

impl NamedColor {
    /// The bright variant of a normal color.
    pub open spec fn spec_to_bright(self) -> NamedColor {
        match self {
            NamedColor::Black => NamedColor::BrightBlack,
            NamedColor::Red => NamedColor::BrightRed,
            NamedColor::Green => NamedColor::BrightGreen,
            NamedColor::Yellow => NamedColor::BrightYellow,
            NamedColor::Blue => NamedColor::BrightBlue,
            NamedColor::Magenta => NamedColor::BrightMagenta,
            NamedColor::Cyan => NamedColor::BrightCyan,
            NamedColor::White => NamedColor::BrightWhite,
            val => val,
        }
    }
}

/// The attributes an SGR sequence sets, taken from parameter `i` on: each
/// parameter in turn, an extended color with the parameters it claims, and
/// nothing more after a malformed color or an unknown parameter.
pub open spec fn sgr_spec(args: Seq<i64>, i: int) -> Seq<TermAction>
    decreases args.len() - i,
{
    if i < 0 || i >= args.len() {
        seq![]
    } else {
        match sgr_param(args[i]) {
            SgrParam::Attribute(attr) => seq![TermAction::TerminalAttribute(attr)] + sgr_spec(args, i + 1),
            SgrParam::ExtendedForeground => match parse_color_spec(args.subrange(i, args.len() as int)) {
                Some((c, n)) => seq![TermAction::TerminalAttribute(Attr::Foreground(c))] + sgr_spec(
                    args,
                    i + n + 1,
                ),
                None => seq![],
            },
            SgrParam::ExtendedBackground => match parse_color_spec(args.subrange(i, args.len() as int)) {
                Some((c, n)) => seq![TermAction::TerminalAttribute(Attr::Background(c))] + sgr_spec(
                    args,
                    i + n + 1,
                ),
                None => seq![],
            },
            SgrParam::Unknown => seq![],
        }
    }
}

fn named(p: i64, base: i64) -> (c: NamedColor)
    requires
        base <= p <= base + 7,
    ensures
        c == normal_color((p - base) as int),
{
    let n = p - base;
    if n == 0 {
        NamedColor::Black
    } else if n == 1 {
        NamedColor::Red
    } else if n == 2 {
        NamedColor::Green
    } else if n == 3 {
        NamedColor::Yellow
    } else if n == 4 {
        NamedColor::Blue
    } else if n == 5 {
        NamedColor::Magenta
    } else if n == 6 {
        NamedColor::Cyan
    } else {
        NamedColor::White
    }
}

fn sgr_attribute(p: i64) -> (r: Option<Attr>)
    ensures
        match sgr_param(p) {
            SgrParam::Attribute(a) => r == Some(a),
            _ => r.is_none(),
        },
{
    if p == 0 {
        Some(Attr::Reset)
    } else if p == 1 {
        Some(Attr::Bold)
    } else if p == 2 {
        Some(Attr::Dim)
    } else if p == 3 {
        Some(Attr::Italic)
    } else if p == 4 {
        Some(Attr::Underscore)
    } else if p == 5 {
        Some(Attr::BlinkSlow)
    } else if p == 6 {
        Some(Attr::BlinkFast)
    } else if p == 7 {
        Some(Attr::Reverse)
    } else if p == 8 {
        Some(Attr::Hidden)
    } else if p == 9 {
        Some(Attr::Strike)
    } else if p == 22 {
        Some(Attr::CancelBoldDim)
    } else if p == 23 {
        Some(Attr::CancelItalic)
    } else if p == 24 {
        Some(Attr::CancelUnderline)
    } else if p == 25 {
        Some(Attr::CancelBlink)
    } else if p == 27 {
        Some(Attr::CancelReverse)
    } else if p == 28 {
        Some(Attr::CancelHidden)
    } else if p == 29 {
        Some(Attr::CancelStrike)
    } else if 30 <= p && p <= 37 {
        Some(Attr::Foreground(Color::Named(named(p, 30))))
    } else if p == 39 {
        Some(Attr::Foreground(Color::Named(NamedColor::Foreground)))
    } else if 40 <= p && p <= 47 {
        Some(Attr::Background(Color::Named(named(p, 40))))
    } else if p == 49 {
        Some(Attr::Background(Color::Named(NamedColor::Background)))
    } else if 90 <= p && p <= 97 {
        Some(Attr::Foreground(Color::Named(named(p, 90).to_bright())))
    } else if 100 <= p && p <= 107 {
        Some(Attr::Background(Color::Named(named(p, 100).to_bright())))
    } else {
        None
    }
}

/// The attributes an SGR (`CSI ... m`) sequence sets; a sequence without
/// parameters resets them.
pub open spec fn sgr_actions(args: Seq<i64>) -> Seq<TermAction> {
    if args.len() == 0 {
        seq![TermAction::TerminalAttribute(Attr::Reset)]
    } else {
        sgr_spec(args, 0)
    }
}

fn sgr_dispatch(args: &[i64], out: &mut Vec<TermAction>)
    requires
        old(out)@.len() == 0,
    ensures
        final(out)@ == sgr_actions(args@),
{
    if args.len() == 0 {
        out.push(TermAction::TerminalAttribute(Attr::Reset));
        return;
    }
    let mut i: usize = 0;
    loop
        invariant
            args@.len() > 0,
            i <= args@.len() + 4,
            out@ + sgr_spec(args@, i as int) == sgr_spec(args@, 0),
        ensures
            out@ == sgr_spec(args@, 0),
        decreases args@.len() + 5 - i,
    {
        if i >= args.len() {
            break;
        }
        let p = args[i];
        if p == 38 || p == 48 {
            let mut start: usize = 0;
            let tail = &args[i..args.len()];
            assert(tail@ == args@.subrange(i as int, args@.len() as int));
            match parse_color(tail, &mut start) {
                Some(color) => {
                    if p == 38 {
                        out.push(TermAction::TerminalAttribute(Attr::Foreground(color)));
                    } else {
                        out.push(TermAction::TerminalAttribute(Attr::Background(color)));
                    }
                    i += start;
                },
                None => {
                    break;
                },
            }
        } else {
            match sgr_attribute(p) {
                Some(attr) => out.push(TermAction::TerminalAttribute(attr)),
                None => {
                    break;
                },
            }
        }
        i += 1;
    }
}

/// Whether the first intermediate byte marks a private sequence.
pub open spec fn is_private(intermediates: Seq<u8>) -> bool {
    intermediates.len() > 0 && intermediates[0] == 0x3fu8
}

/// A parameter with a default of 1, minus one: the position it names,
/// counted from 0 (the subtraction wraps when the parameter is 0 as `usize`).
pub open spec fn one_based_spec(args: Seq<i64>, idx: int) -> usize {
    let v = arg_or_default(args, idx, 1) as usize;
    if v == 0 {
        usize::MAX
    } else {
        (v - 1) as usize
    }
}

/// A parameter with a default of 1, as a count of lines.
pub open spec fn line_arg(args: Seq<i64>, idx: int) -> Line {
    Line(arg_or_default(args, idx, 1) as usize)
}

/// A parameter with a default of 1, as a count of columns.
pub open spec fn col_arg(args: Seq<i64>, idx: int) -> Column {
    Column(arg_or_default(args, idx, 1) as usize)
}

/// The actions for a CSI sequence with final character `action`, in a
/// terminal of `lines` lines; the empty sequence for unhandled sequences.
pub open spec fn csi_spec(args: Seq<i64>, intermediates: Seq<u8>, action: char, lines: usize) -> Seq<
    TermAction,
> {
    let private = is_private(intermediates);
    if action == '@' {
        seq![TermAction::InsertBlank(col_arg(args, 0))]
    } else if action == 'A' {
        seq![TermAction::MoveUp(line_arg(args, 0))]
    } else if action == 'B' || action == 'e' {
        seq![TermAction::MoveDown(line_arg(args, 0))]
    } else if action == 'c' || action == 'n' {
        seq![TermAction::IdentifyTerminal]
    } else if action == 'C' || action == 'a' {
        seq![TermAction::MoveForward(col_arg(args, 0))]
    } else if action == 'D' {
        seq![TermAction::MoveBackward(col_arg(args, 0))]
    } else if action == 'E' {
        seq![TermAction::MoveDownAndCr(line_arg(args, 0))]
    } else if action == 'F' {
        seq![TermAction::MoveUpAndCr(line_arg(args, 0))]
    } else if action == 'g' {
        let m = arg_or_default(args, 0, 0);
        if m == 0 {
            seq![TermAction::ClearTabs(TabulationClearMode::Current)]
        } else if m == 3 {
            seq![TermAction::ClearTabs(TabulationClearMode::All)]
        } else {
            seq![]
        }
    } else if action == 'G' || action == '`' {
        seq![TermAction::GotoCol(Column(one_based_spec(args, 0)))]
    } else if action == 'H' || action == 'f' {
        seq![
            TermAction::Goto(
                Line(one_based_spec(args, 0)),
                Column(one_based_spec(args, 1)),
            ),
        ]
    } else if action == 'I' {
        seq![TermAction::MoveForwardTabs(arg_or_default(args, 0, 1))]
    } else if action == 'J' {
        let m = arg_or_default(args, 0, 0);
        if m == 0 {
            seq![TermAction::ClearScreen(ClearMode::Below)]
        } else if m == 1 {
            seq![TermAction::ClearScreen(ClearMode::Above)]
        } else if m == 2 {
            seq![TermAction::ClearScreen(ClearMode::All)]
        } else {
            seq![]
        }
    } else if action == 'K' {
        let m = arg_or_default(args, 0, 0);
        if m == 0 {
            seq![TermAction::ClearLine(LineClearMode::Right)]
        } else if m == 1 {
            seq![TermAction::ClearLine(LineClearMode::Left)]
        } else if m == 2 {
            seq![TermAction::ClearLine(LineClearMode::All)]
        } else {
            seq![]
        }
    } else if action == 'S' {
        seq![TermAction::ScrollUp(line_arg(args, 0))]
    } else if action == 'T' {
        seq![TermAction::ScrollDown(line_arg(args, 0))]
    } else if action == 'L' {
        seq![TermAction::InsertBlankLines(line_arg(args, 0))]
    } else if action == 'l' {
        match mode_spec(private, arg_or_default(args, 0, 0)) {
            Some(mode) => seq![TermAction::UnsetMode(mode)],
            None => seq![],
        }
    } else if action == 'M' {
        seq![TermAction::DeleteLines(line_arg(args, 0))]
    } else if action == 'X' {
        seq![TermAction::EraseChars(col_arg(args, 0))]
    } else if action == 'P' {
        seq![TermAction::DeleteChars(col_arg(args, 0))]
    } else if action == 'Z' {
        seq![TermAction::MoveBackwardTabs(arg_or_default(args, 0, 1))]
    } else if action == 'd' {
        seq![TermAction::GotoLine(Line(one_based_spec(args, 0)))]
    } else if action == 'h' {
        match mode_spec(private, arg_or_default(args, 0, 0)) {
            Some(mode) => seq![TermAction::SetMode(mode)],
            None => seq![],
        }
    } else if action == 'm' {
        sgr_actions(args)
    } else if action == 'r' {
        if private {
            seq![]
        } else {
            seq![
                TermAction::SetScrollingRegion(
                    Line(one_based_spec(args, 0)),
                    Line(arg_or_default(args, 1, lines as i64) as usize),
                ),
            ]
        }
    } else if action == 's' {
        seq![TermAction::SaveCursorPosition]
    } else if action == 'u' {
        seq![TermAction::RestoreCursorPosition]
    } else {
        seq![]
    }
}

/// The cursor and line commands each give exactly one action, of the kind
/// that their final character names, by the first parameter (1 when it is
/// absent or 0): `A` moves up, `B` and `e` down, `C` and `a` forward, `D`
/// backward, `E` down and `F` up to column 1, `S` scrolls up, `T` down, `L`
/// inserts lines, `M` deletes lines, `@` inserts blanks, `X` erases and
/// `P` deletes characters.
pub proof fn cursor_commands_follow_their_letter(args: Seq<i64>, intermediates: Seq<u8>, lines: usize)
    ensures
        ({
            let n: usize = (if args.len() > 0 && args[0] != 0 {
                args[0]
            } else {
                1
            }) as usize;
            &&& csi_spec(args, intermediates, 'A', lines) == seq![TermAction::MoveUp(Line(n))]
            &&& csi_spec(args, intermediates, 'B', lines) == seq![TermAction::MoveDown(Line(n))]
            &&& csi_spec(args, intermediates, 'e', lines) == seq![TermAction::MoveDown(Line(n))]
            &&& csi_spec(args, intermediates, 'C', lines) == seq![TermAction::MoveForward(Column(n))]
            &&& csi_spec(args, intermediates, 'a', lines) == seq![TermAction::MoveForward(Column(n))]
            &&& csi_spec(args, intermediates, 'D', lines) == seq![TermAction::MoveBackward(Column(n))]
            &&& csi_spec(args, intermediates, 'E', lines) == seq![TermAction::MoveDownAndCr(Line(n))]
            &&& csi_spec(args, intermediates, 'F', lines) == seq![TermAction::MoveUpAndCr(Line(n))]
            &&& csi_spec(args, intermediates, 'S', lines) == seq![TermAction::ScrollUp(Line(n))]
            &&& csi_spec(args, intermediates, 'T', lines) == seq![TermAction::ScrollDown(Line(n))]
            &&& csi_spec(args, intermediates, 'L', lines) == seq![TermAction::InsertBlankLines(Line(n))]
            &&& csi_spec(args, intermediates, 'M', lines) == seq![TermAction::DeleteLines(Line(n))]
            &&& csi_spec(args, intermediates, '@', lines) == seq![TermAction::InsertBlank(Column(n))]
            &&& csi_spec(args, intermediates, 'X', lines) == seq![TermAction::EraseChars(Column(n))]
            &&& csi_spec(args, intermediates, 'P', lines) == seq![TermAction::DeleteChars(Column(n))]
        }),
{
}

/// The positioning commands count lines and columns from 1: `G` and `` ` ``
/// go to the column, `d` to the line, and `H` and `f` to the line and
/// column that their parameters name, each one less than the parameter.
/// `J` clears below, above or all of the screen for 0, 1 and 2, `K` the
/// right, left or all of the line; `s` saves and `u` restores the cursor.
pub proof fn positioning_commands_count_from_one(y: i64, x: i64, intermediates: Seq<u8>, lines: usize)
    requires
        1 <= y <= usize::MAX,
        1 <= x <= usize::MAX,
    ensures
        csi_spec(seq![y, x], intermediates, 'H', lines) == seq![
            TermAction::Goto(Line((y - 1) as usize), Column((x - 1) as usize)),
        ],
        csi_spec(seq![y, x], intermediates, 'f', lines) == seq![
            TermAction::Goto(Line((y - 1) as usize), Column((x - 1) as usize)),
        ],
        csi_spec(seq![x], intermediates, 'G', lines) == seq![TermAction::GotoCol(Column((x - 1) as usize))],
        csi_spec(seq![x], intermediates, '`', lines) == seq![TermAction::GotoCol(Column((x - 1) as usize))],
        csi_spec(seq![y], intermediates, 'd', lines) == seq![TermAction::GotoLine(Line((y - 1) as usize))],
        csi_spec(Seq::empty(), intermediates, 'H', lines) == seq![TermAction::Goto(Line(0), Column(0))],
        csi_spec(seq![0i64], intermediates, 'J', lines) == seq![TermAction::ClearScreen(ClearMode::Below)],
        csi_spec(seq![1i64], intermediates, 'J', lines) == seq![TermAction::ClearScreen(ClearMode::Above)],
        csi_spec(seq![2i64], intermediates, 'J', lines) == seq![TermAction::ClearScreen(ClearMode::All)],
        csi_spec(seq![0i64], intermediates, 'K', lines) == seq![TermAction::ClearLine(LineClearMode::Right)],
        csi_spec(seq![1i64], intermediates, 'K', lines) == seq![TermAction::ClearLine(LineClearMode::Left)],
        csi_spec(seq![2i64], intermediates, 'K', lines) == seq![TermAction::ClearLine(LineClearMode::All)],
        csi_spec(Seq::empty(), intermediates, 's', lines) == seq![TermAction::SaveCursorPosition],
        csi_spec(Seq::empty(), intermediates, 'u', lines) == seq![TermAction::RestoreCursorPosition],
{
}

/// A parameter, defaulting to 1, minus one; the parameters count from 1.
fn one_based(args: &[i64], idx: usize) -> (r: usize)
    ensures
        r == one_based_spec(args@, idx as int),
{
    let v = arg_or_default_exec(args, idx, 1) as usize;
    v.wrapping_sub(1)
}

/// The actions for a CSI sequence with final character `action`, in a
/// terminal of `lines` lines; nothing for unhandled sequences.
pub fn csi_dispatch(args: &[i64], intermediates: &[u8], ignore: bool, action: char, lines: Line) -> (r:
    Vec<TermAction>)
    ensures
        r@ == csi_spec(args@, intermediates@, action, lines.0),
        action == 'A' ==> r@ == seq![TermAction::MoveUp(Line(arg_or_default(args@, 0, 1) as usize))],
        action == 'B' || action == 'e' ==> r@ == seq![
            TermAction::MoveDown(Line(arg_or_default(args@, 0, 1) as usize)),
        ],
{
    let private = intermediates.len() > 0 && intermediates[0] == 0x3fu8;
    let mut out: Vec<TermAction> = Vec::new();
    if action == '@' {
        out.push(TermAction::InsertBlank(Column(arg_or_default_exec(args, 0, 1) as usize)));
    } else if action == 'A' {
        out.push(TermAction::MoveUp(Line(arg_or_default_exec(args, 0, 1) as usize)));
    } else if action == 'B' || action == 'e' {
        out.push(TermAction::MoveDown(Line(arg_or_default_exec(args, 0, 1) as usize)));
    } else if action == 'c' || action == 'n' {
        out.push(TermAction::IdentifyTerminal);
    } else if action == 'C' || action == 'a' {
        out.push(TermAction::MoveForward(Column(arg_or_default_exec(args, 0, 1) as usize)));
    } else if action == 'D' {
        out.push(TermAction::MoveBackward(Column(arg_or_default_exec(args, 0, 1) as usize)));
    } else if action == 'E' {
        out.push(TermAction::MoveDownAndCr(Line(arg_or_default_exec(args, 0, 1) as usize)));
    } else if action == 'F' {
        out.push(TermAction::MoveUpAndCr(Line(arg_or_default_exec(args, 0, 1) as usize)));
    } else if action == 'g' {
        let m = arg_or_default_exec(args, 0, 0);
        if m == 0 {
            out.push(TermAction::ClearTabs(TabulationClearMode::Current));
        } else if m == 3 {
            out.push(TermAction::ClearTabs(TabulationClearMode::All));
        }
    } else if action == 'G' || action == '`' {
        out.push(TermAction::GotoCol(Column(one_based(args, 0))));
    } else if action == 'H' || action == 'f' {
        let y = one_based(args, 0);
        let x = one_based(args, 1);
        out.push(TermAction::Goto(Line(y), Column(x)));
    } else if action == 'I' {
        out.push(TermAction::MoveForwardTabs(arg_or_default_exec(args, 0, 1)));
    } else if action == 'J' {
        let m = arg_or_default_exec(args, 0, 0);
        if m == 0 {
            out.push(TermAction::ClearScreen(ClearMode::Below));
        } else if m == 1 {
            out.push(TermAction::ClearScreen(ClearMode::Above));
        } else if m == 2 {
            out.push(TermAction::ClearScreen(ClearMode::All));
        }
    } else if action == 'K' {
        let m = arg_or_default_exec(args, 0, 0);
        if m == 0 {
            out.push(TermAction::ClearLine(LineClearMode::Right));
        } else if m == 1 {
            out.push(TermAction::ClearLine(LineClearMode::Left));
        } else if m == 2 {
            out.push(TermAction::ClearLine(LineClearMode::All));
        }
    } else if action == 'S' {
        out.push(TermAction::ScrollUp(Line(arg_or_default_exec(args, 0, 1) as usize)));
    } else if action == 'T' {
        out.push(TermAction::ScrollDown(Line(arg_or_default_exec(args, 0, 1) as usize)));
    } else if action == 'L' {
        out.push(TermAction::InsertBlankLines(Line(arg_or_default_exec(args, 0, 1) as usize)));
    } else if action == 'l' {
        match Mode::from_primitive(private, arg_or_default_exec(args, 0, 0)) {
            Some(mode) => out.push(TermAction::UnsetMode(mode)),
            None => {},
        }
    } else if action == 'M' {
        out.push(TermAction::DeleteLines(Line(arg_or_default_exec(args, 0, 1) as usize)));
    } else if action == 'X' {
        out.push(TermAction::EraseChars(Column(arg_or_default_exec(args, 0, 1) as usize)));
    } else if action == 'P' {
        out.push(TermAction::DeleteChars(Column(arg_or_default_exec(args, 0, 1) as usize)));
    } else if action == 'Z' {
        out.push(TermAction::MoveBackwardTabs(arg_or_default_exec(args, 0, 1)));
    } else if action == 'd' {
        out.push(TermAction::GotoLine(Line(one_based(args, 0))));
    } else if action == 'h' {
        match Mode::from_primitive(private, arg_or_default_exec(args, 0, 0)) {
            Some(mode) => out.push(TermAction::SetMode(mode)),
            None => {},
        }
    } else if action == 'm' {
        sgr_dispatch(args, &mut out);
    } else if action == 'r' {
        if !private {
            let top = one_based(args, 0);
            let bottom = arg_or_default_exec(args, 1, lines.0 as i64) as usize;
            out.push(TermAction::SetScrollingRegion(Line(top), Line(bottom)));
        }
    } else if action == 's' {
        out.push(TermAction::SaveCursorPosition);
    } else if action == 'u' {
        out.push(TermAction::RestoreCursorPosition);
    }
    proof {
        assert(out@ =~= csi_spec(args@, intermediates@, action, lines.0));
    }
    out
}

} // verus!
