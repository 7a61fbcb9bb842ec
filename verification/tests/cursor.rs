use js_lexer::chars::{
    is_digit, is_identifier_part, is_identifier_start, is_line_terminator, to_digit,
};
use js_lexer::{Cursor, Position, Span};

fn chars(s: &str) -> Vec<char> {
    s.chars().collect()
}

#[test]
fn cursor_walks_the_source() {
    let mut cursor = Cursor::new(chars("ab\ncd"));
    assert_eq!(cursor.offset(), 0);
    assert_eq!(cursor.pos(), Position::new(1, 1));
    assert_eq!(cursor.peek(), Some('a'));
    assert_eq!(cursor.peek_nth(0), Some('a'));
    assert_eq!(cursor.peek_nth(1), Some('b'));
    assert_eq!(cursor.peek_nth(4), Some('d'));
    assert_eq!(cursor.peek_nth(5), None);
    assert_eq!(cursor.peek_nth(usize::MAX), None);
    assert_eq!(cursor.pos(), Position::new(1, 1));
    assert_eq!(cursor.next(), Some('a'));
    assert_eq!(cursor.pos(), Position::new(1, 2));
    assert_eq!(cursor.next(), Some('b'));
    assert_eq!(cursor.pos(), Position::new(1, 3));
    assert_eq!(cursor.next(), Some('\n'));
    assert_eq!(cursor.pos(), Position::new(2, 1));
    assert_eq!(cursor.next(), Some('c'));
    assert_eq!(cursor.pos(), Position::new(2, 2));
    assert_eq!(cursor.peek_nth(1), None);
    assert_eq!(cursor.next(), Some('d'));
    assert_eq!(cursor.pos(), Position::new(2, 3));
    assert_eq!(cursor.offset(), 5);
    assert_eq!(cursor.peek(), None);
    assert_eq!(cursor.next(), None);
    assert_eq!(cursor.next(), None);
    assert_eq!(cursor.pos(), Position::new(2, 3));
    assert_eq!(cursor.offset(), 5);
}

#[test]
fn cursor_on_an_empty_source() {
    let mut cursor = Cursor::new(Vec::new());
    assert_eq!(cursor.peek(), None);
    assert_eq!(cursor.peek_nth(0), None);
    assert_eq!(cursor.next(), None);
    assert!(!cursor.next_is('a'));
    assert_eq!(cursor.pos(), Position::new(1, 1));
    assert_eq!(cursor.slice(0, 0), Vec::<char>::new());
}

#[test]
fn cursor_takes_a_character_only_if_it_is_the_expected_one() {
    let mut cursor = Cursor::new(chars("=>"));
    assert!(!cursor.next_is('>'));
    assert_eq!(cursor.offset(), 0);
    assert!(cursor.next_is('='));
    assert_eq!(cursor.offset(), 1);
    assert!(cursor.next_is('>'));
    assert_eq!(cursor.offset(), 2);
    assert!(!cursor.next_is('>'));
    assert_eq!(cursor.offset(), 2);
    assert_eq!(cursor.pos(), Position::new(1, 3));
}

#[test]
fn cursor_copies_text_out() {
    let cursor = Cursor::new(chars("hello world"));
    assert_eq!(cursor.slice(0, 5), chars("hello"));
    assert_eq!(cursor.slice(6, 11), chars("world"));
    assert_eq!(cursor.slice(3, 3), chars(""));
    assert_eq!(cursor.slice(0, 11), chars("hello world"));
}

#[test]
fn every_line_terminator_starts_a_line() {
    let mut cursor = Cursor::new(chars("\r\n\u{2028}\u{2029}x\u{000B}\u{0085}y"));
    let expected = [(2, 1), (3, 1), (4, 1), (5, 1), (5, 2), (5, 3), (5, 4), (5, 5)];
    for (line, column) in expected {
        assert!(cursor.next().is_some());
        assert_eq!(cursor.pos(), Position::new(line, column));
    }
    assert!(cursor.next().is_none());
}

#[test]
fn positions_are_in_reading_order() {
    let a = Position::new(1, 5);
    let b = Position::new(2, 1);
    let c = Position::new(2, 3);
    assert_eq!(a.line_number(), 1);
    assert_eq!(a.column_number(), 5);
    assert!(a.precedes(b));
    assert!(b.precedes(c));
    assert!(a.precedes(c));
    assert!(!b.precedes(a));
    assert!(!a.precedes(a));
    assert!(a < b && b < c);
    let span = Span::new(a, c);
    assert_eq!(span.start(), a);
    assert_eq!(span.end(), c);
    assert_eq!(Span::new(a, a).start(), Span::new(a, a).end());
}

#[test]
fn digits_in_a_radix() {
    assert_eq!(to_digit('0', 10), Some(0));
    assert_eq!(to_digit('9', 10), Some(9));
    assert_eq!(to_digit('a', 10), None);
    assert_eq!(to_digit('a', 16), Some(10));
    assert_eq!(to_digit('F', 16), Some(15));
    assert_eq!(to_digit('g', 16), None);
    assert_eq!(to_digit('z', 36), Some(35));
    assert_eq!(to_digit('Z', 36), Some(35));
    assert_eq!(to_digit('7', 8), Some(7));
    assert_eq!(to_digit('8', 8), None);
    assert_eq!(to_digit('1', 2), Some(1));
    assert_eq!(to_digit('2', 2), None);
    assert_eq!(to_digit('0', 0), None);
    assert_eq!(to_digit('/', 10), None);
    assert_eq!(to_digit(':', 10), None);
    assert_eq!(to_digit('@', 16), None);
    assert_eq!(to_digit('`', 16), None);
    assert_eq!(to_digit('\u{0663}', 10), None);
    assert_eq!(to_digit('z', 100), Some(35));
    for c in ['0', '5', 'a', 'Q', ' ', '\u{e9}'] {
        for radix in [2, 8, 10, 16, 36] {
            assert_eq!(to_digit(c, radix), c.to_digit(radix));
            assert_eq!(is_digit(c, radix), c.is_digit(radix));
        }
    }
}

#[test]
fn character_classes() {
    for c in chars("\n\r\u{2028}\u{2029}") {
        assert!(is_line_terminator(c));
    }
    for c in chars(" \t\u{000B}\u{000C}\u{0085}a") {
        assert!(!is_line_terminator(c));
    }
    for c in chars("azAZ$_\u{e9}\u{3c0}\u{4e2d}") {
        assert!(is_identifier_start(c), "{:?}", c);
        assert!(is_identifier_part(c), "{:?}", c);
    }
    for c in chars("09\u{0663}\u{200c}\u{200d}\u{2167}") {
        assert!(!is_identifier_start(c) || c == '\u{2167}', "{:?}", c);
        assert!(is_identifier_part(c), "{:?}", c);
    }
    for c in chars(" @#-+.\u{7f}\u{0}\u{d7}\u{2028}\u{a0}") {
        assert!(!is_identifier_start(c), "{:?}", c);
        assert!(!is_identifier_part(c), "{:?}", c);
    }
}
