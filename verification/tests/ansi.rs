use alacritty::ansi::{
    ActionLog, csi_dispatch, esc_dispatch, execute, osc_dispatch, parse_color, perform, Attr, CharsetIndex,
    Color, Handler, Mode, NamedColor, StandardCharset, TermAction, TermInfo,
};
use alacritty::index::{Column, Line};
use alacritty::Rgb;

/// Feeds the byte-level parser's reports to the dispatch functions and the
/// actions they give to a handler.
struct Performer<'a, H: Handler + TermInfo> {
    handler: &'a mut H,
}

impl<'a, H: Handler + TermInfo> vte::Perform for Performer<'a, H> {
    fn print(&mut self, c: char) {
        perform(self.handler, TermAction::Input(c));
    }

    fn execute(&mut self, byte: u8) {
        if let Some(action) = execute(byte) {
            perform(self.handler, action);
        }
    }

    fn hook(&mut self, _params: &[i64], _intermediates: &[u8], _ignore: bool) {}

    fn put(&mut self, _byte: u8) {}

    fn unhook(&mut self) {}

    fn osc_dispatch(&mut self, params: &[&[u8]]) {
        if let Some(action) = osc_dispatch(params) {
            perform(self.handler, action);
        }
    }

    fn csi_dispatch(&mut self, params: &[i64], intermediates: &[u8], ignore: bool, action: char) {
        let lines = self.handler.lines();
        for a in csi_dispatch(params, intermediates, ignore, action, lines) {
            perform(self.handler, a);
        }
    }

    fn esc_dispatch(&mut self, params: &[i64], intermediates: &[u8], ignore: bool, byte: u8) {
        if let Some(action) = esc_dispatch(params, intermediates, ignore, byte) {
            perform(self.handler, action);
        }
    }
}

struct Processor {
    parser: vte::Parser,
}

impl Processor {
    fn new() -> Processor {
        Processor { parser: vte::Parser::new() }
    }

    fn advance<H: Handler + TermInfo>(&mut self, handler: &mut H, byte: u8) {
        let mut performer = Performer { handler };
        self.parser.advance(&mut performer, byte);
    }
}

#[derive(Default)]
struct AttrHandler {
    attr: Option<Attr>,
}

impl Handler for AttrHandler {
    fn record(&mut self, _action: TermAction) {}

    fn terminal_attribute(&mut self, attr: Attr) {
        self.attr = Some(attr);
    }
}

impl TermInfo for AttrHandler {
    fn lines(&self) -> Line {
        Line(24)
    }

    fn cols(&self) -> Column {
        Column(80)
    }
}

#[test]
fn parse_control_attribute() {
    let bytes: &[u8] = &[0x1b, 0x5b, 0x31, 0x6d];

    let mut parser = Processor::new();
    let mut handler = AttrHandler::default();

    for byte in bytes {
        parser.advance(&mut handler, *byte);
    }

    assert_eq!(handler.attr, Some(Attr::Bold));
}

#[test]
fn parse_truecolor_attr() {
    let bytes: &[u8] = &[
        0x1b, 0x5b, 0x33, 0x38, 0x3b, 0x32, 0x3b, 0x31, 0x32, 0x38, 0x3b, 0x36, 0x36, 0x3b, 0x32,
        0x35, 0x35, 0x6d,
    ];

    let mut parser = Processor::new();
    let mut handler = AttrHandler::default();

    for byte in bytes {
        parser.advance(&mut handler, *byte);
    }

    let spec = Rgb { r: 128, g: 66, b: 255 };

    assert_eq!(handler.attr, Some(Attr::Foreground(Color::Spec(spec))));
}

#[test]
fn parse_zsh_startup() {
    let bytes: &[u8] = &[
        0x1b, 0x5b, 0x31, 0x6d, 0x1b, 0x5b, 0x37, 0x6d, 0x25, 0x1b, 0x5b, 0x32, 0x37, 0x6d, 0x1b,
        0x5b, 0x31, 0x6d, 0x1b, 0x5b, 0x30, 0x6d, 0x20, 0x20, 0x20, 0x20, 0x20, 0x20, 0x20, 0x20,
        0x20, 0x20, 0x20, 0x20, 0x20, 0x20, 0x20, 0x20, 0x20, 0x20, 0x20, 0x20, 0x20, 0x20, 0x20,
        0x20, 0x20, 0x20, 0x20, 0x20, 0x20, 0x20, 0x20, 0x20, 0x20, 0x20, 0x20, 0x20, 0x20, 0x20,
        0x20, 0x20, 0x20, 0x20, 0x20, 0x20, 0x20, 0x20, 0x20, 0x20, 0x20, 0x20, 0x20, 0x20, 0x20,
        0x20, 0x20, 0x20, 0x20, 0x20, 0x20, 0x20, 0x20, 0x20, 0x20, 0x20, 0x20, 0x20, 0x20, 0x20,
        0x20, 0x20, 0x20, 0x20, 0x20, 0x20, 0x20, 0x20, 0x20, 0x20, 0x20, 0x20, 0x20, 0x20, 0x0d,
        0x20, 0x0d, 0x0d, 0x1b, 0x5b, 0x30, 0x6d, 0x1b, 0x5b, 0x32, 0x37, 0x6d, 0x1b, 0x5b, 0x32,
        0x34, 0x6d, 0x1b, 0x5b, 0x4a, 0x6a, 0x77, 0x69, 0x6c, 0x6d, 0x40, 0x6a, 0x77, 0x69, 0x6c,
        0x6d, 0x2d, 0x64, 0x65, 0x73, 0x6b, 0x20, 0x1b, 0x5b, 0x30, 0x31, 0x3b, 0x33, 0x32, 0x6d,
        0xe2, 0x9e, 0x9c, 0x20, 0x1b, 0x5b, 0x30, 0x31, 0x3b, 0x33, 0x32, 0x6d, 0x20, 0x1b, 0x5b,
        0x33, 0x36, 0x6d, 0x7e, 0x2f, 0x63, 0x6f, 0x64, 0x65,
    ];

    let mut handler = AttrHandler::default();
    let mut parser = Processor::new();

    for byte in bytes {
        parser.advance(&mut handler, *byte);
    }
}

struct CharsetHandler {
    index: CharsetIndex,
    charset: StandardCharset,
}

impl Default for CharsetHandler {
    fn default() -> CharsetHandler {
        CharsetHandler { index: CharsetIndex::G0, charset: StandardCharset::Ascii }
    }
}

impl Handler for CharsetHandler {
    fn record(&mut self, _action: TermAction) {}

    fn configure_charset(&mut self, index: CharsetIndex, charset: StandardCharset) {
        self.index = index;
        self.charset = charset;
    }

    fn set_active_charset(&mut self, index: CharsetIndex) {
        self.index = index;
    }
}

impl TermInfo for CharsetHandler {
    fn lines(&self) -> Line {
        Line(200)
    }

    fn cols(&self) -> Column {
        Column(90)
    }
}

#[test]
fn parse_designate_g0_as_line_drawing() {
    let bytes: &[u8] = &[0x1b, b'(', b'0'];
    let mut parser = Processor::new();
    let mut handler = CharsetHandler::default();

    for byte in bytes {
        parser.advance(&mut handler, *byte);
    }

    assert_eq!(handler.index, CharsetIndex::G0);
    assert_eq!(handler.charset, StandardCharset::SpecialCharacterAndLineDrawing);
}

#[test]
fn parse_designate_g1_as_line_drawing_and_invoke() {
    let bytes: &[u8] = &[0x1b, 0x29, 0x30, 0x0e];
    let mut parser = Processor::new();
    let mut handler = CharsetHandler::default();

    for byte in &bytes[..3] {
        parser.advance(&mut handler, *byte);
    }

    assert_eq!(handler.index, CharsetIndex::G1);
    assert_eq!(handler.charset, StandardCharset::SpecialCharacterAndLineDrawing);

    let mut handler = CharsetHandler::default();
    parser.advance(&mut handler, bytes[3]);

    assert_eq!(handler.index, CharsetIndex::G1);
}

#[test]
fn execute_maps_control_bytes() {
    assert_eq!(execute(0x09), Some(TermAction::PutTab(1)));
    assert_eq!(execute(0x0d), Some(TermAction::CarriageReturn));
    assert_eq!(execute(0x0b), Some(TermAction::Linefeed));
    assert_eq!(execute(0x0e), Some(TermAction::SetActiveCharset(CharsetIndex::G1)));
    assert_eq!(execute(0x41), None);
}

#[test]
fn osc_sets_title() {
    let params: &[&[u8]] = &[b"0", b"hello"];
    assert_eq!(osc_dispatch(params), Some(TermAction::SetTitle(String::from("hello"))));
}

#[test]
fn osc_rejects_invalid_utf8_title() {
    let params: &[&[u8]] = &[b"2", &[0xff, 0xfe]];
    assert_eq!(osc_dispatch(params), None);
}

#[test]
fn csi_sets_private_mode() {
    let actions = csi_dispatch(&[25], b"?", false, 'h', Line(24));
    assert_eq!(actions, vec![TermAction::SetMode(Mode::ShowCursor)]);
}

#[test]
fn csi_goto_is_one_based() {
    let actions = csi_dispatch(&[3, 5], b"", false, 'H', Line(24));
    assert_eq!(actions, vec![TermAction::Goto(Line(2), Column(4))]);
}

#[test]
fn csi_sgr_sequence() {
    let actions = csi_dispatch(&[1, 31], b"", false, 'm', Line(24));
    assert_eq!(
        actions,
        vec![
            TermAction::TerminalAttribute(Attr::Bold),
            TermAction::TerminalAttribute(Attr::Foreground(Color::Named(NamedColor::Red))),
        ]
    );
}

#[test]
fn parse_color_indexed_and_truecolor() {
    let mut i = 0;
    assert_eq!(parse_color(&[38, 5, 200], &mut i), Some(Color::Indexed(200)));
    let mut j = 0;
    assert_eq!(
        parse_color(&[38, 2, 1, 2, 3], &mut j),
        Some(Color::Spec(Rgb { r: 1, g: 2, b: 3 }))
    );
}

#[test]
fn esc_configures_charset() {
    assert_eq!(
        esc_dispatch(&[], b"*", false, b'B'),
        Some(TermAction::ConfigureCharset(CharsetIndex::G2, StandardCharset::Ascii))
    );
    assert_eq!(esc_dispatch(&[], b"", false, b'B'), None);
}

#[test]
fn named_colors_brighten() {
    assert_eq!(NamedColor::Red.to_bright(), NamedColor::BrightRed);
    assert_eq!(Mode::from_primitive(true, 2004), Some(Mode::BracketedPaste));
    assert_eq!(Mode::from_primitive(false, 25), None);
}

#[test]
fn parse_color_cursor_on_rejected_specs() {
    let mut i = 0;
    assert_eq!(parse_color(&[38, 2, 1, 300, 3], &mut i), None);
    assert_eq!(i, 4);
    let mut j = 0;
    assert_eq!(parse_color(&[38, 5, 256], &mut j), None);
    assert_eq!(j, 2);
    let mut k = 0;
    assert_eq!(parse_color(&[38, 7, 1], &mut k), None);
    assert_eq!(k, 0);
    let mut l = 0;
    assert_eq!(parse_color(&[38], &mut l), None);
    assert_eq!(l, 0);
    let mut m = 0;
    assert_eq!(parse_color(&[38, 2, 1], &mut m), None);
    assert_eq!(m, 0);
}

#[test]
fn perform_hands_each_action_to_its_method() {
    let mut log = ActionLog { actions: Vec::new() };
    perform(&mut log, TermAction::MoveUp(Line(2)));
    perform(&mut log, TermAction::MoveDown(Line(3)));
    log.set_title("title");
    log.set_scrolling_region(Line(1)..Line(4));
    perform(&mut log, TermAction::Goto(Line(1), Column(5)));
    assert_eq!(
        log.actions,
        vec![
            TermAction::MoveUp(Line(2)),
            TermAction::MoveDown(Line(3)),
            TermAction::SetTitle(String::from("title")),
            TermAction::SetScrollingRegion(Line(1), Line(4)),
            TermAction::Goto(Line(1), Column(5)),
        ]
    );
}
