use epl2img::cursor::ByteCursor;
use epl2img::error::{DecodeError, ErrorKind};

#[test]
fn new_cursor_stands_at_zero() {
    let cursor = ByteCursor::new(b"N\n");
    assert_eq!(cursor.position(), 0);
    assert_eq!(cursor.remaining(), 2);
    assert_eq!(cursor.peek(), Some(b'N'));
}

#[test]
fn peek_does_not_move() {
    let cursor = ByteCursor::new(b"AB");
    assert_eq!(cursor.peek(), Some(b'A'));
    assert_eq!(cursor.peek(), Some(b'A'));
    assert_eq!(cursor.position(), 0);
}

#[test]
fn peek_at_the_end_is_none() {
    let mut cursor = ByteCursor::new(b"A");
    assert_eq!(cursor.advance(1), Ok(()));
    assert_eq!(cursor.peek(), None);
    assert_eq!(ByteCursor::new(b"").peek(), None);
}

#[test]
fn advance_moves_by_n() {
    let mut cursor = ByteCursor::new(b"ABCDE");
    assert_eq!(cursor.advance(2), Ok(()));
    assert_eq!(cursor.position(), 2);
    assert_eq!(cursor.advance(0), Ok(()));
    assert_eq!(cursor.position(), 2);
    assert_eq!(cursor.advance(3), Ok(()));
    assert_eq!(cursor.position(), 5);
    assert_eq!(cursor.remaining(), 0);
}

#[test]
fn advance_past_the_end_fails_and_stays() {
    let mut cursor = ByteCursor::new(b"ABC");
    assert_eq!(cursor.advance(1), Ok(()));
    assert_eq!(
        cursor.advance(3),
        Err(DecodeError { kind: ErrorKind::UnexpectedEnd, position: 1 })
    );
    assert_eq!(cursor.position(), 1);
    assert_eq!(
        cursor.advance(usize::MAX),
        Err(DecodeError { kind: ErrorKind::UnexpectedEnd, position: 1 })
    );
    assert_eq!(cursor.position(), 1);
}

#[test]
fn read_exact_returns_the_bytes_verbatim() {
    let mut cursor = ByteCursor::new(b"ab,\ncd");
    assert_eq!(cursor.advance(1), Ok(()));
    assert_eq!(cursor.read_exact(4), Ok(&b"b,\nc"[..]));
    assert_eq!(cursor.position(), 5);
    assert_eq!(cursor.read_exact(0), Ok(&b""[..]));
    assert_eq!(cursor.position(), 5);
}

#[test]
fn read_exact_with_too_few_bytes_fails_and_stays() {
    let mut cursor = ByteCursor::new(b"abc");
    assert_eq!(cursor.advance(2), Ok(()));
    assert_eq!(
        cursor.read_exact(2),
        Err(DecodeError { kind: ErrorKind::UnexpectedEnd, position: 2 })
    );
    assert_eq!(cursor.position(), 2);
    assert_eq!(cursor.read_exact(1), Ok(&b"c"[..]));
}

#[test]
fn read_while_takes_the_longest_run() {
    let mut cursor = ByteCursor::new(b"123,45");
    let run = cursor.read_while(|b: u8| b.is_ascii_digit());
    assert_eq!(run, b"123");
    assert_eq!(cursor.position(), 3);
    let none = cursor.read_while(|b: u8| b.is_ascii_digit());
    assert_eq!(none, b"");
    assert_eq!(cursor.position(), 3);
}

#[test]
fn read_while_stops_at_the_end() {
    let mut cursor = ByteCursor::new(b"   ");
    let run = cursor.read_while(|b: u8| b == b' ');
    assert_eq!(run, b"   ");
    assert_eq!(cursor.position(), 3);
    assert_eq!(cursor.peek(), None);
}

#[test]
fn a_copy_of_a_cursor_moves_alone() {
    let cursor = ByteCursor::new(b"ABC");
    let mut ahead = cursor;
    assert_eq!(ahead.advance(2), Ok(()));
    assert_eq!(cursor.position(), 0);
    assert_eq!(ahead.position(), 2);
}
