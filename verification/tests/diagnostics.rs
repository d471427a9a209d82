use rust_sharp::ast::SourcePos;
use rust_sharp::bind::bound_ast::TypeError;
use rust_sharp::diagnostics::{
    can_report, handle_parse_error, locate_error, ErrorLocation, ParseFailure,
};

fn pos(start: usize, end: usize) -> SourcePos {
    SourcePos { start, end }
}

#[test]
fn end_of_input_covers_the_byte_at_its_location() {
    assert_eq!(
        handle_parse_error(&ParseFailure::UnrecognizedEof { location: 12 }),
        TypeError { msg: "Bad End Of File.".to_string(), source_pos: pos(12, 13) }
    );
    assert_eq!(
        handle_parse_error(&ParseFailure::UnrecognizedEof { location: 0 }),
        TypeError { msg: "Bad End Of File.".to_string(), source_pos: pos(0, 1) }
    );
}

#[test]
fn unrecognized_token_covers_the_token() {
    assert_eq!(
        handle_parse_error(&ParseFailure::UnrecognizedToken { start: 4, end: 9 }),
        TypeError { msg: "Unrecognized Token.".to_string(), source_pos: pos(4, 9) }
    );
}

#[test]
fn invalid_token_covers_the_byte_before_its_location() {
    assert_eq!(
        handle_parse_error(&ParseFailure::InvalidToken { location: 3 }),
        TypeError { msg: "Invalid Token.".to_string(), source_pos: pos(2, 3) }
    );
    assert_eq!(
        handle_parse_error(&ParseFailure::InvalidToken { location: 1 }),
        TypeError { msg: "Invalid Token.".to_string(), source_pos: pos(0, 1) }
    );
}

#[test]
fn location_in_the_first_line() {
    assert_eq!(
        locate_error("let x = 1;", &pos(4, 5)),
        Some(ErrorLocation { line: 1, line_start: 0, line_end: 10, column: 4, width: 1 })
    );
}

#[test]
fn location_in_a_later_line() {
    let source = "let x = 1;\nlet x = 2;\nprint x;";
    assert_eq!(
        locate_error(source, &pos(15, 16)),
        Some(ErrorLocation { line: 2, line_start: 11, line_end: 21, column: 4, width: 1 })
    );
    assert_eq!(
        locate_error(source, &pos(22, 27)),
        Some(ErrorLocation { line: 3, line_start: 22, line_end: 30, column: 0, width: 5 })
    );
}

#[test]
fn a_line_break_belongs_to_the_line_it_closes() {
    assert_eq!(
        locate_error("ab\ncd", &pos(2, 3)),
        Some(ErrorLocation { line: 1, line_start: 0, line_end: 2, column: 2, width: 1 })
    );
    assert_eq!(
        locate_error("ab\ncd", &pos(3, 3)),
        Some(ErrorLocation { line: 2, line_start: 3, line_end: 5, column: 0, width: 0 })
    );
}

#[test]
fn location_at_the_end_of_the_text() {
    assert_eq!(
        locate_error("ab\n", &pos(3, 4)),
        Some(ErrorLocation { line: 2, line_start: 3, line_end: 3, column: 0, width: 1 })
    );
    assert_eq!(
        locate_error("", &pos(0, 1)),
        Some(ErrorLocation { line: 1, line_start: 0, line_end: 0, column: 0, width: 1 })
    );
}

#[test]
fn a_span_beyond_the_text_lies_nowhere() {
    assert_eq!(locate_error("ab\ncd", &pos(6, 7)), None);
    assert_eq!(locate_error("", &pos(1, 1)), None);
    // also one that ends before it starts
    assert_eq!(locate_error("ab\ncd", &pos(9, 2)), None);
}

#[test]
fn offsets_count_bytes() {
    // the first line holds two characters of two bytes each
    assert_eq!(
        locate_error("éé\nx", &pos(5, 6)),
        Some(ErrorLocation { line: 2, line_start: 5, line_end: 6, column: 0, width: 1 })
    );
}

#[test]
fn failures_without_a_span_are_told_apart() {
    assert!(can_report(&ParseFailure::UnrecognizedEof { location: 0 }));
    assert!(!can_report(&ParseFailure::UnrecognizedEof { location: usize::MAX }));
    assert!(can_report(&ParseFailure::UnrecognizedToken { start: 0, end: 0 }));
    assert!(can_report(&ParseFailure::InvalidToken { location: 1 }));
    assert!(!can_report(&ParseFailure::InvalidToken { location: 0 }));
}
