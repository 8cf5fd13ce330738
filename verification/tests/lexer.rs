//! The token cursor: control sequences, literal characters, whitespace,
//! and the tokens that terminate an expression.

use texmath::Lexer;

#[test]
fn control_sequences_take_letter_runs() {
    let mut lex = Lexer::new(r"\alpha b");
    assert!(lex.current.is_command("alpha"));
    lex.next();
    lex.consume_whitespace();
    assert!(lex.current.is_symbol('b'));
}

#[test]
fn whitespace_tokens_are_skippable() {
    let mut lex = Lexer::new("  \t x");
    lex.consume_whitespace();
    assert!(lex.current.is_symbol('x'));
    lex.next();
    assert!(lex.current.ends_expression());
}

#[test]
fn expression_terminators() {
    let lex = Lexer::new("}");
    assert!(lex.current.ends_expression());
    let lex = Lexer::new(r"\right)");
    assert!(lex.current.ends_expression());
    let lex = Lexer::new("");
    assert!(lex.current.ends_expression());
    let lex = Lexer::new("x");
    assert!(!lex.current.ends_expression());
}

#[test]
fn backslash_before_nonletter_names_that_character() {
    let mut lex = Lexer::new(r"\{x");
    assert!(lex.current.is_command("{"));
    lex.next();
    assert!(lex.current.is_symbol('x'));
}
