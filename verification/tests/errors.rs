//! Each kind of parse failure, triggered by an input that exhibits it.

use texmath::{parse, ParseError};

#[test]
fn unparseable_token() {
    assert_eq!(parse(r"\foo"), Err(ParseError::UnparseableToken));
    assert_eq!(parse(r"1 ? 2"), Err(ParseError::UnparseableToken));
    assert_eq!(parse("\u{2202}"), Err(ParseError::UnparseableToken));
}

#[test]
fn duplicate_subscript() {
    assert_eq!(parse(r"x_a_b"), Err(ParseError::DuplicateSubscript));
    assert_eq!(parse(r"_a_b"), Err(ParseError::DuplicateSubscript));
}

#[test]
fn duplicate_superscript() {
    assert_eq!(parse(r"x^a^b"), Err(ParseError::DuplicateSuperscript));
}

#[test]
fn unmatched_group() {
    assert_eq!(parse(r"{1"), Err(ParseError::UnmatchedGroup));
    assert_eq!(parse(r"{1+{2}"), Err(ParseError::UnmatchedGroup));
}

#[test]
fn unmatched_delimiter() {
    assert_eq!(parse(r"\left(1"), Err(ParseError::UnmatchedDelimiter));
}

#[test]
fn atom_type_mismatch() {
    assert_eq!(parse(r"\left+1\right)"), Err(ParseError::AtomTypeMismatch));
    assert_eq!(parse(r"\left(1\right+"), Err(ParseError::AtomTypeMismatch));
}

#[test]
fn missing_math_field() {
    assert_eq!(parse(r"1_"), Err(ParseError::MissingMathField));
    assert_eq!(parse(r"1^"), Err(ParseError::MissingMathField));
}

#[test]
fn missing_macro_argument() {
    assert_eq!(parse(r"\sqrt"), Err(ParseError::MissingMacroArgument));
    assert_eq!(parse(r"\frac1"), Err(ParseError::MissingMacroArgument));
}
