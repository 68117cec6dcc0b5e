use caoi::location::Location;
use caoi::text::{chars_of, decimal_digit};
use caoi::tokenizer::scan::Run;
use caoi::tokenizer::{
    decimal_value, is_comment_line, join_code_lines, split_code_lines, Keyword, Token, Tokenizer,
};

fn at(line: usize, column: usize) -> Location {
    Location { line, column }
}

fn scan(script: &str) -> Vec<Token> {
    Tokenizer::new(String::from(script)).process()
}

#[test]
fn scans_a_declaration() {
    assert_eq!(
        scan("let x = 1"),
        vec![
            Token::Keyword(Keyword::Let, at(0, 0)),
            Token::Identifier(String::from("x"), at(0, 4)),
            Token::Equals(at(0, 6)),
            Token::Integer(1, at(0, 8)),
            Token::EndOfFile(at(0, 9)),
        ]
    );
}

#[test]
fn scans_a_typed_declaration() {
    assert_eq!(
        scan("let x: Integer = 42"),
        vec![
            Token::Keyword(Keyword::Let, at(0, 0)),
            Token::Identifier(String::from("x"), at(0, 4)),
            Token::Colon(at(0, 5)),
            Token::Identifier(String::from("Integer"), at(0, 7)),
            Token::Equals(at(0, 15)),
            Token::Integer(42, at(0, 17)),
            Token::EndOfFile(at(0, 19)),
        ]
    );
}

#[test]
fn scans_every_operator() {
    assert_eq!(
        scan("+-*/:="),
        vec![
            Token::Plus(at(0, 0)),
            Token::Minus(at(0, 1)),
            Token::Asterisk(at(0, 2)),
            Token::Slash(at(0, 3)),
            Token::Colon(at(0, 4)),
            Token::Equals(at(0, 5)),
            Token::EndOfFile(at(0, 6)),
        ]
    );
}

#[test]
fn empty_script_has_only_the_end_marker() {
    assert_eq!(scan(""), vec![Token::EndOfFile(at(0, 0))]);
}

#[test]
fn counts_lines_and_columns() {
    assert_eq!(
        scan("a\nbc\n  d"),
        vec![
            Token::Identifier(String::from("a"), at(0, 0)),
            Token::Identifier(String::from("bc"), at(1, 0)),
            Token::Identifier(String::from("d"), at(2, 2)),
            Token::EndOfFile(at(2, 8)),
        ]
    );
}

#[test]
fn end_marker_column_is_the_position_in_the_text() {
    assert_eq!(
        scan("1\n2"),
        vec![Token::Integer(1, at(0, 0)), Token::Integer(2, at(1, 0)), Token::EndOfFile(at(1, 3))]
    );
}

#[test]
fn comment_lines_are_left_out() {
    assert_eq!(scan("# a comment\nlet x = 1"), scan("let x = 1"));
    assert_eq!(
        scan("a\n#b\nc"),
        vec![
            Token::Identifier(String::from("a"), at(0, 0)),
            Token::Identifier(String::from("c"), at(1, 0)),
            Token::EndOfFile(at(1, 3)),
        ]
    );
}

#[test]
fn trailing_comment_leaves_no_line_feed() {
    assert_eq!(
        scan("a\n#b"),
        vec![Token::Identifier(String::from("a"), at(0, 0)), Token::EndOfFile(at(0, 1))]
    );
}

#[test]
fn hash_inside_a_line_is_no_comment() {
    assert_eq!(
        scan("a #b"),
        vec![
            Token::Identifier(String::from("a"), at(0, 0)),
            Token::Identifier(String::from("b"), at(0, 3)),
            Token::EndOfFile(at(0, 4)),
        ]
    );
}

#[test]
fn splits_and_joins_lines() {
    let script = chars_of("one\n#two\n\nthree\n");
    let lines = split_code_lines(&script);
    assert_eq!(lines, vec![chars_of("one"), chars_of(""), chars_of("three"), chars_of("")]);
    assert_eq!(join_code_lines(&lines), chars_of("one\n\nthree\n"));
    assert_eq!(join_code_lines(&vec![]), chars_of(""));
    assert_eq!(split_code_lines(&chars_of("")), vec![chars_of("")]);
    assert_eq!(split_code_lines(&chars_of("#only")), Vec::<Vec<char>>::new());
}

#[test]
fn tells_comment_lines() {
    assert!(is_comment_line(&chars_of("# x")));
    assert!(is_comment_line(&chars_of("##")));
    assert!(!is_comment_line(&chars_of(" # x")));
    assert!(!is_comment_line(&chars_of("")));
}

#[test]
fn closing_quote_opens_the_next_literal() {
    assert_eq!(
        scan("\"hi\""),
        vec![
            Token::String(String::from("hi"), at(0, 0)),
            Token::String(String::from(""), at(0, 3)),
            Token::EndOfFile(at(0, 4)),
        ]
    );
}

#[test]
fn unterminated_literal_runs_to_the_end() {
    assert_eq!(
        scan("x \"abc"),
        vec![
            Token::Identifier(String::from("x"), at(0, 0)),
            Token::String(String::from("abc"), at(0, 2)),
            Token::EndOfFile(at(0, 6)),
        ]
    );
}

#[test]
fn line_feed_inside_a_literal_is_no_new_line() {
    assert_eq!(
        scan("\"a\nb\"\nx"),
        vec![
            Token::String(String::from("a\nb"), at(0, 0)),
            Token::String(String::from("\nx"), at(0, 4)),
            Token::EndOfFile(at(0, 7)),
        ]
    );
}

#[test]
fn integer_literals_wrap_at_32_bits() {
    assert_eq!(scan("4294967295")[0], Token::Integer(4294967295, at(0, 0)));
    assert_eq!(scan("4294967296")[0], Token::Integer(0, at(0, 0)));
    assert_eq!(scan("4294967301")[0], Token::Integer(5, at(0, 0)));
    assert_eq!(scan("007")[0], Token::Integer(7, at(0, 0)));
}

#[test]
fn decimal_value_of_digits() {
    assert_eq!(decimal_value(&chars_of("")), Some(0));
    assert_eq!(decimal_value(&chars_of("0")), Some(0));
    assert_eq!(decimal_value(&chars_of("1234567890")), Some(1234567890));
    assert_eq!(decimal_value(&chars_of("99999999999")), Some(1215752191));
    assert_eq!(decimal_value(&chars_of("12a")), None);
    assert_eq!(decimal_value(&chars_of("\u{0663}")), None);
}

#[test]
fn decimal_digits() {
    assert_eq!(decimal_digit('0'), Some(0));
    assert_eq!(decimal_digit('7'), Some(7));
    assert_eq!(decimal_digit('9'), Some(9));
    assert_eq!(decimal_digit('a'), None);
    assert_eq!(decimal_digit('/'), None);
    assert_eq!(decimal_digit(':'), None);
    assert_eq!(decimal_digit('\u{0663}'), None);
}

#[test]
fn numeric_run_without_decimal_value_gives_no_token() {
    assert_eq!(scan("\u{0663}"), vec![Token::EndOfFile(at(0, 1))]);
    assert_eq!(
        scan("1\u{0663} 2"),
        vec![Token::Integer(2, at(0, 3)), Token::EndOfFile(at(0, 4))]
    );
}

#[test]
fn words_hold_letters_and_underscores() {
    assert_eq!(
        scan("foo_bar _x x1"),
        vec![
            Token::Identifier(String::from("foo_bar"), at(0, 0)),
            Token::Identifier(String::from("_x"), at(0, 8)),
            Token::Identifier(String::from("x"), at(0, 11)),
            Token::Integer(1, at(0, 12)),
            Token::EndOfFile(at(0, 13)),
        ]
    );
}

#[test]
fn words_may_hold_letters_of_any_script() {
    assert_eq!(
        scan("\u{00e9}t\u{00e9}"),
        vec![Token::Identifier(String::from("\u{00e9}t\u{00e9}"), at(0, 0)), Token::EndOfFile(at(0, 3))]
    );
}

#[test]
fn only_the_whole_word_is_a_keyword() {
    assert_eq!(
        scan("let lets Let"),
        vec![
            Token::Keyword(Keyword::Let, at(0, 0)),
            Token::Identifier(String::from("lets"), at(0, 4)),
            Token::Identifier(String::from("Let"), at(0, 9)),
            Token::EndOfFile(at(0, 12)),
        ]
    );
}

#[test]
fn other_characters_are_passed_over() {
    assert_eq!(
        scan("@ 1 ;\t2"),
        vec![Token::Integer(1, at(0, 2)), Token::Integer(2, at(0, 6)), Token::EndOfFile(at(0, 7))]
    );
}

#[test]
fn second_run_gives_only_the_end_marker() {
    let mut tokenizer = Tokenizer::new(String::from("a\nb"));
    assert_eq!(tokenizer.process().len(), 3);
    assert_eq!(tokenizer.process(), vec![Token::EndOfFile(at(1, 3))]);
}

#[test]
fn runs_admit_their_characters() {
    assert!(Run::Line.takes('a'));
    assert!(!Run::Line.takes('\n'));
    assert!(Run::Text.takes('\n'));
    assert!(!Run::Text.takes('"'));
    assert!(Run::Word.takes('_'));
    assert!(Run::Word.takes('z'));
    assert!(!Run::Word.takes('1'));
    assert!(Run::Number.takes('1'));
    assert!(Run::Number.takes('\u{0663}'));
    assert!(!Run::Number.takes('a'));
}

#[test]
fn token_location() {
    assert_eq!(Token::Keyword(Keyword::Let, at(1, 2)).location(), at(1, 2));
    assert_eq!(Token::Integer(5, at(3, 4)).location(), at(3, 4));
    assert_eq!(Token::String(String::from("s"), at(5, 6)).location(), at(5, 6));
    assert_eq!(Token::Identifier(String::from("i"), at(7, 8)).location(), at(7, 8));
    assert_eq!(Token::Plus(at(0, 1)).location(), at(0, 1));
    assert_eq!(Token::Minus(at(0, 2)).location(), at(0, 2));
    assert_eq!(Token::Slash(at(0, 3)).location(), at(0, 3));
    assert_eq!(Token::Asterisk(at(0, 4)).location(), at(0, 4));
    assert_eq!(Token::Equals(at(0, 5)).location(), at(0, 5));
    assert_eq!(Token::Colon(at(0, 6)).location(), at(0, 6));
    assert_eq!(Token::EndOfFile(at(9, 9)).location(), at(9, 9));
}

#[test]
fn token_clone_is_equal() {
    let token = Token::Identifier(String::from("name"), at(2, 3));
    assert_eq!(token.clone(), token);
    let token = Token::EndOfFile(at(4, 5));
    assert_eq!(token.clone(), token);
}
