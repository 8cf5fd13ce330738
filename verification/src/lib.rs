//! A recursive-descent parser for TeX-style mathematical expressions.
//!
//! The parser turns input text into an ordered tree of expression nodes:
//! resolved symbols, brace-delimited groups, subscript/superscript
//! attachments, `\left...\right` delimited sub-expressions, and the nodes
//! produced by named commands such as `\sqrt` and `\frac`.
//!
//! The meaning of every executable function is given by a mathematical
//! grammar over character sequences, and each parsing function is proved
//! to return exactly what that grammar prescribes.

mod lexer;
mod nodes;
mod tables;
mod grammar;
mod commands;
mod engine;
mod laws;

pub use lexer::{Lexer, Token, STok};
pub use nodes::{AtomType, Symbol, ParseNode, Scripts, Delimited, Radical, Fraction, ParseError, GNode};
pub use tables::{FontMode, Command};
pub use grammar::{
    GOpt, GOne, GMany, GArg, GSym, GScr, symbol_spec, command_spec, group_spec,
    implicit_group_spec, math_field_spec, macro_argument_spec, required_macro_argument_spec,
    expect_type_spec, alternatives_spec, scripts_spec, expression_spec, parse_spec,
    attach_subscript, attach_superscript, unwrap_group, matches_parse,
};
pub use laws::{
    scripts_free, lemma_script_attach_commutes, lemma_duplicate_script_rejected,
    lemma_leading_whitespace_ignored, lemma_parse_empty,
};
pub use engine::{
    parse, math_field, command, implicit_group, group, symbol, macro_argument,
    required_macro_argument, expect_type,
};
