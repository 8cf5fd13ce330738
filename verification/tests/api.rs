//! The parsing procedures that command handlers and embedders can call
//! directly, driven over a lexer, and exact tree shapes for scripts.

use texmath::{
    command, expect_type, group, implicit_group, macro_argument, math_field, parse,
    required_macro_argument, symbol, AtomType, Lexer, ParseError, ParseNode, Radical, Scripts,
    Symbol,
};

fn sym(code: u32, atom_type: AtomType) -> ParseNode {
    ParseNode::Symbol(Symbol { code, atom_type })
}

#[test]
fn math_field_takes_one_unit() {
    let mut lex = Lexer::new("xy");
    assert_eq!(math_field(&mut lex).unwrap(), sym(119909, AtomType::Alpha));
    assert_eq!(math_field(&mut lex).unwrap(), sym(119910, AtomType::Alpha));
    assert_eq!(math_field(&mut lex), Err(ParseError::MissingMathField));
}

#[test]
fn math_field_keeps_braces() {
    let mut lex = Lexer::new("{1}");
    assert_eq!(
        math_field(&mut lex).unwrap(),
        ParseNode::Group(vec![sym(120803, AtomType::Alpha)])
    );
}

#[test]
fn symbol_declines_unknown_names() {
    let mut lex = Lexer::new(r"\foo");
    assert_eq!(symbol(&mut lex).unwrap(), None);
    let mut lex = Lexer::new(r"\alpha");
    assert_eq!(symbol(&mut lex).unwrap(), Some(sym(120572, AtomType::Alpha)));
}

#[test]
fn command_declines_symbols() {
    let mut lex = Lexer::new(r"\alpha");
    assert_eq!(command(&mut lex).unwrap(), None);
    let mut lex = Lexer::new(r"\sqrt2");
    assert_eq!(
        command(&mut lex).unwrap(),
        Some(ParseNode::Radical(Radical { inner: vec![sym(120804, AtomType::Alpha)] }))
    );
}

#[test]
fn group_requires_brace() {
    let mut lex = Lexer::new("x");
    assert_eq!(group(&mut lex).unwrap(), None);
    let mut lex = Lexer::new("{x}");
    assert_eq!(
        group(&mut lex).unwrap(),
        Some(ParseNode::Group(vec![sym(119909, AtomType::Alpha)]))
    );
}

#[test]
fn implicit_group_requires_left() {
    let mut lex = Lexer::new("(x)");
    assert_eq!(implicit_group(&mut lex).unwrap(), None);
    let mut lex = Lexer::new(r"\left(x\right)");
    assert!(implicit_group(&mut lex).unwrap().is_some());
}

#[test]
fn macro_argument_strips_braces() {
    let mut lex = Lexer::new("{1+2}3");
    assert_eq!(
        macro_argument(&mut lex).unwrap(),
        Some(vec![
            sym(120803, AtomType::Alpha),
            sym(43, AtomType::Binary),
            sym(120804, AtomType::Alpha),
        ])
    );
    assert_eq!(
        macro_argument(&mut lex).unwrap(),
        Some(vec![sym(120805, AtomType::Alpha)])
    );
    assert_eq!(macro_argument(&mut lex).unwrap(), None);
}

#[test]
fn macro_argument_declines_commands() {
    let mut lex = Lexer::new(r"\sqrt2");
    assert_eq!(macro_argument(&mut lex).unwrap(), None);
}

#[test]
fn required_macro_argument_demands_one() {
    let mut lex = Lexer::new("");
    assert_eq!(
        required_macro_argument(&mut lex),
        Err(ParseError::MissingMacroArgument)
    );
    let mut lex = Lexer::new("x");
    assert_eq!(
        required_macro_argument(&mut lex).unwrap(),
        vec![sym(119909, AtomType::Alpha)]
    );
}

#[test]
fn expect_type_checks_classification() {
    let mut lex = Lexer::new("  (");
    assert_eq!(
        expect_type(&mut lex, AtomType::Open).unwrap(),
        Symbol { code: 40, atom_type: AtomType::Open }
    );
    let mut lex = Lexer::new("+");
    assert_eq!(
        expect_type(&mut lex, AtomType::Open),
        Err(ParseError::AtomTypeMismatch)
    );
}

#[test]
fn naked_script_has_empty_base() {
    assert_eq!(
        parse("_2").unwrap(),
        vec![ParseNode::Scripts(Scripts {
            base: None,
            subscript: Some(Box::new(sym(120804, AtomType::Alpha))),
            superscript: None,
        })]
    );
}

#[test]
fn bare_radical_argument_binds_scripts_outside() {
    assert_eq!(
        parse(r"\sqrt2_3").unwrap(),
        vec![ParseNode::Scripts(Scripts {
            base: Some(Box::new(ParseNode::Radical(Radical {
                inner: vec![sym(120804, AtomType::Alpha)],
            }))),
            subscript: Some(Box::new(sym(120805, AtomType::Alpha))),
            superscript: None,
        })]
    );
    assert_eq!(
        parse(r"\sqrt{2_3}").unwrap(),
        vec![ParseNode::Radical(Radical {
            inner: vec![ParseNode::Scripts(Scripts {
                base: Some(Box::new(sym(120804, AtomType::Alpha))),
                subscript: Some(Box::new(sym(120805, AtomType::Alpha))),
                superscript: None,
            })],
        })]
    );
}

#[test]
fn whitespace_only_input_is_empty() {
    assert_eq!(parse("   ").unwrap(), vec![]);
    assert_eq!(parse(" a b ").unwrap(), parse("ab").unwrap());
}

#[test]
fn scripts_commute_on_concrete_inputs() {
    assert_eq!(parse("x_a^b").unwrap(), parse("x^b_a").unwrap());
    assert_eq!(parse(r"\sqrt2_a^b").unwrap(), parse(r"\sqrt2^b_a").unwrap());
}
