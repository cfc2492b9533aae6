use alacritty::message_bar::{Message, MessageBar, MIN_FREE_LINES};
use alacritty::Rgb;

const RED: Rgb = Rgb { r: 0xff, g: 0, b: 0 };
const YELLOW: Rgb = Rgb { r: 0xff, g: 0xff, b: 0 };

/// Columns and lines of a terminal with one-pixel cells and no padding.
fn size(width: usize, height: usize) -> (usize, usize) {
    (width, height)
}

fn lines_of(input: &str, width: usize, height: usize) -> Vec<String> {
    let mut message_bar = MessageBar::new();
    message_bar.tx().send(Message::new(input.into(), RED)).unwrap();
    let (cols, lines) = size(width, height);
    message_bar.message().unwrap().text(cols, lines)
}

#[test]
fn appends_close_button() {
    let lines = lines_of("a", 7, 10);
    assert_eq!(lines, vec![String::from("a   [X]")]);
}

#[test]
fn multiline_close_button_first_line() {
    let lines = lines_of("fo\nbar", 6, 10);
    assert_eq!(lines, vec![String::from("fo [X]"), String::from("bar   ")]);
}

#[test]
fn splits_on_newline() {
    let lines = lines_of("a\nb", 6, 10);
    assert_eq!(lines.len(), 2);
}

#[test]
fn splits_on_length() {
    let lines = lines_of("foobar1", 6, 10);
    assert_eq!(lines.len(), 2);
}

#[test]
fn empty_with_shortterm() {
    let lines = lines_of("foobar", 6, 0);
    assert_eq!(lines.len(), 0);
}

#[test]
fn truncates_long_messages() {
    let input = "hahahahahahahahahahaha truncate this because it's too long for the term";
    let lines = lines_of(input, 22, MIN_FREE_LINES + 2);
    assert_eq!(
        lines,
        vec![String::from("hahahahahahahahaha [X]"), String::from("[MESSAGE TRUNCATED]   ")]
    );
}

#[test]
fn hide_button_when_too_narrow() {
    let lines = lines_of("ha", 2, 10);
    assert_eq!(lines, vec![String::from("ha")]);
}

#[test]
fn hide_truncated_when_too_narrow() {
    let lines = lines_of("hahahahahahahahaha", 2, MIN_FREE_LINES + 2);
    assert_eq!(lines, vec![String::from("ha"), String::from("ha")]);
}

#[test]
fn add_newline_for_button() {
    let lines = lines_of("test", 5, 10);
    assert_eq!(lines, vec![String::from("t [X]"), String::from("est  ")]);
}

#[test]
fn remove_topic() {
    let mut message_bar = MessageBar::new();
    for i in 0..10 {
        let mut msg = Message::new(String::new(), RED);
        if i % 2 == 0 {
            msg.set_topic("topic".into());
        }
        message_bar.tx().send(msg).unwrap();
    }

    message_bar.remove_topic("topic".into());

    // Count number of messages
    message_bar.pop();
    let mut num_messages = 0;
    while message_bar.pop().is_some() {
        num_messages += 1;
    }

    assert_eq!(num_messages, 5);
}

#[test]
fn pop() {
    let mut message_bar = MessageBar::new();
    let one = Message::new(String::from("one"), RED);
    message_bar.tx().send(one.clone()).unwrap();
    let two = Message::new(String::from("two"), YELLOW);
    message_bar.tx().send(two.clone()).unwrap();

    assert_eq!(message_bar.message(), Some(one));

    message_bar.pop();

    assert_eq!(message_bar.message(), Some(two));
}

#[test]
fn wrap_on_words() {
    let lines = lines_of("a\nbc defg", 5, 10);
    assert_eq!(
        lines,
        vec![String::from("a [X]"), String::from("bc   "), String::from("defg ")]
    );
}

#[test]
fn pads_by_bytes() {
    assert_eq!(Message::pad_text(String::from("ab"), 5), String::from("ab   "));
    assert_eq!(Message::pad_text(String::from("é"), 3), String::from("é "));
    assert_eq!(Message::pad_text(String::from("abcdef"), 3), String::from("abcdef"));
}

#[test]
fn wide_whitespace_split_is_refused() {
    // An ideographic space is three bytes long; breaking after it would
    // split inside a character.
    let msg = Message::new(String::from("ab\u{3000}cd"), RED);
    assert_eq!(msg.try_text(5, 10), None);
}

#[test]
fn trims_message_text() {
    let msg = Message::new(String::from("  hi  \n"), RED);
    assert_eq!(msg.text(3, 10), vec![String::from("hi ")]);
    assert_eq!(msg.color(), RED);
    assert_eq!(msg.topic(), None);
}

#[test]
fn ascii_lines_fill_the_width() {
    let texts = [
        "hello world, this is a long message that wraps over several lines",
        "a\nbc defg\n\nhij",
        "   padded text   ",
        "x",
    ];
    for text in texts.iter() {
        for cols in 1..30 {
            for rows in 0..12 {
                let lines = lines_of(text, cols, rows);
                assert!(lines.len() <= rows.saturating_sub(MIN_FREE_LINES));
                for line in lines.iter() {
                    assert_eq!(line.len(), cols, "{:?} in {} columns", text, cols);
                }
            }
        }
    }
}

#[test]
fn remove_topic_keeps_a_shown_message_of_another_topic() {
    let mut message_bar = MessageBar::new();
    let mut shown = Message::new(String::from("shown"), RED);
    shown.set_topic("other".into());
    message_bar.tx().send(shown).unwrap();
    let mut waiting = Message::new(String::from("waiting"), RED);
    waiting.set_topic("topic".into());
    message_bar.tx().send(waiting).unwrap();
    message_bar.tx().send(Message::new(String::from("kept"), RED)).unwrap();
    assert!(message_bar.message().is_some());

    message_bar.remove_topic("topic".into());

    let current = message_bar.message().unwrap();
    assert_eq!(current.topic(), Some(&String::from("other")));
    let next = message_bar.pop();
    assert!(next.is_some());
    let kept = message_bar.message().unwrap();
    assert_eq!(kept.topic(), None);
    message_bar.pop();
    assert!(message_bar.message().is_none());
}
