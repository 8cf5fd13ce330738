//! The parser engine: mutually recursive procedures that turn the token
//! stream into an expression tree, each proved against the grammar.

use vstd::prelude::*;
use crate::lexer::{Lexer, Token, lemma_token_end, lemma_skip_ws};
use crate::nodes::{AtomType, Symbol, ParseNode, Scripts, Delimited, ParseError};
use crate::tables::{FontMode, lookup_symbol, lookup_command, Command};
use crate::grammar::{
    symbol_spec, command_spec, group_spec, implicit_group_spec, math_field_spec,
    macro_argument_spec, required_macro_argument_spec, expect_type_spec, alternatives_spec,
    scripts_spec, expression_spec, parse_spec, opt_view, matches_opt, matches_one, matches_many,
    matches_arg, matches_sym, matches_scr, matches_parse,
};
use crate::commands::dispatch;

verus! {

/// Parse a symbol: a control sequence resolves through the symbol table,
/// a literal character through classification in italic font mode.  A
/// token that resolves to nothing is no match, never an error.
pub fn symbol(lex: &mut Lexer) -> (r: Result<Option<ParseNode>, ParseError>)
    requires
        old(lex).wf(),
    ensures
        final(lex).wf(),
        final(lex).input() == old(lex).input(),
        matches_opt(
            r,
            old(lex).pos(),
            final(lex).pos(),
            symbol_spec(old(lex).input(), old(lex).pos()),
        ),
{
    proof {
        lex.lemma_current();
        lemma_token_end(lex.input(), lex.pos());
    }
    let sym_opt: Option<Symbol> = match &lex.current {
        Token::ControlSequence(name) => lookup_symbol(name),
        Token::Symbol(c) => crate::tables::char_symbol(*c, FontMode::Italic),
        _ => None,
    };
    match sym_opt {
        Some(sym) => {
            lex.next();
            Ok(Some(ParseNode::Symbol(sym)))
        },
        None => Ok(None),
    }
}

/// Dispatch a command: a control sequence found in the command table is
/// consumed and its handler parses the arguments; a name that is not in
/// the table is no match, so other alternatives get a chance.
pub fn command(lex: &mut Lexer) -> (r: Result<Option<ParseNode>, ParseError>)
    requires
        old(lex).wf(),
    ensures
        final(lex).wf(),
        final(lex).input() == old(lex).input(),
        matches_opt(
            r,
            old(lex).pos(),
            final(lex).pos(),
            command_spec(old(lex).input(), old(lex).pos()),
        ),
    decreases lex.input().len() - lex.pos(), 2int,
{
    proof {
        lex.lemma_current();
        lemma_token_end(lex.input(), lex.pos());
    }
    let cmd_opt: Option<Command> = match &lex.current {
        Token::ControlSequence(name) => lookup_command(name),
        _ => None,
    };
    match cmd_opt {
        None => Ok(None),
        Some(cmd) => {
            lex.next();
            dispatch(cmd, lex)
        },
    }
}

/// Parse an explicit group `{...}`: no opening brace is no match; an
/// opening brace whose expression is not closed by `}` is an error.
pub fn group(lex: &mut Lexer) -> (r: Result<Option<ParseNode>, ParseError>)
    requires
        old(lex).wf(),
    ensures
        final(lex).wf(),
        final(lex).input() == old(lex).input(),
        matches_opt(
            r,
            old(lex).pos(),
            final(lex).pos(),
            group_spec(old(lex).input(), old(lex).pos()),
        ),
    decreases lex.input().len() - lex.pos(), 1int,
{
    proof {
        lex.lemma_current();
    }
    if lex.current.is_symbol('{') {
        lex.next();
        let inner = match expression(lex) {
            Ok(v) => v,
            Err(e) => {
                return Err(e);
            },
        };
        proof {
            lex.lemma_current();
            lemma_token_end(lex.input(), lex.pos());
        }
        if lex.current.is_symbol('}') {
            lex.next();
            Ok(Some(ParseNode::Group(inner)))
        } else {
            Err(ParseError::UnmatchedGroup)
        }
    } else {
        Ok(None)
    }
}

/// Parse an implicit group: `\left`, a symbol classified Open, a full
/// expression, `\right`, a symbol classified Close.
pub fn implicit_group(lex: &mut Lexer) -> (r: Result<Option<ParseNode>, ParseError>)
    requires
        old(lex).wf(),
    ensures
        final(lex).wf(),
        final(lex).input() == old(lex).input(),
        matches_opt(
            r,
            old(lex).pos(),
            final(lex).pos(),
            implicit_group_spec(old(lex).input(), old(lex).pos()),
        ),
    decreases lex.input().len() - lex.pos(), 1int,
{
    proof {
        lex.lemma_current();
        lemma_token_end(lex.input(), lex.pos());
    }
    if lex.current.is_command("left") {
        lex.next();
        let left = match expect_type(lex, AtomType::Open) {
            Ok(sym) => sym,
            Err(e) => {
                return Err(e);
            },
        };
        let inner = match expression(lex) {
            Ok(v) => v,
            Err(e) => {
                return Err(e);
            },
        };
        proof {
            lex.lemma_current();
            lemma_token_end(lex.input(), lex.pos());
        }
        if lex.current.is_command("right") {
            lex.next();
            let right = match expect_type(lex, AtomType::Close) {
                Ok(sym) => sym,
                Err(e) => {
                    return Err(e);
                },
            };
            Ok(Some(ParseNode::Delimited(Delimited { left, right, inner })))
        } else {
            Err(ParseError::UnmatchedDelimiter)
        }
    } else {
        Ok(None)
    }
}

/// Parse a math field: exactly one command, group or symbol, as required
/// after a script marker; nothing of the sort is an error.
pub fn math_field(lex: &mut Lexer) -> (r: Result<ParseNode, ParseError>)
    requires
        old(lex).wf(),
    ensures
        final(lex).wf(),
        final(lex).input() == old(lex).input(),
        matches_one(
            r,
            old(lex).pos(),
            final(lex).pos(),
            math_field_spec(old(lex).input(), old(lex).pos()),
        ),
    decreases lex.input().len() - lex.pos(), 6int,
{
    match command(lex) {
        Err(e) => {
            return Err(e);
        },
        Ok(Some(n)) => {
            return Ok(n);
        },
        Ok(None) => {},
    }
    match group(lex) {
        Err(e) => {
            return Err(e);
        },
        Ok(Some(n)) => {
            return Ok(n);
        },
        Ok(None) => {},
    }
    match symbol(lex) {
        Err(e) => Err(e),
        Ok(Some(n)) => Ok(n),
        Ok(None) => Err(ParseError::MissingMathField),
    }
}

/// Parse one macro argument: a group's content with the braces stripped,
/// or a single resolved symbol; neither is no match.
pub fn macro_argument(lex: &mut Lexer) -> (r: Result<Option<Vec<ParseNode>>, ParseError>)
    requires
        old(lex).wf(),
    ensures
        final(lex).wf(),
        final(lex).input() == old(lex).input(),
        matches_arg(
            r,
            old(lex).pos(),
            final(lex).pos(),
            macro_argument_spec(old(lex).input(), old(lex).pos()),
        ),
    decreases lex.input().len() - lex.pos(), 2int,
{
    match group(lex) {
        Err(e) => {
            return Err(e);
        },
        Ok(Some(n)) => {
            return Ok(Some(crate::commands::unwrap_argument(n)));
        },
        Ok(None) => {},
    }
    match symbol(lex) {
        Err(e) => Err(e),
        Ok(Some(n)) => {
            let mut v: Vec<ParseNode> = Vec::new();
            v.push(n);
            proof {
                assert(v@ =~= seq![n]);
                crate::nodes::lemma_nodes_view_singleton(n);
            }
            Ok(Some(v))
        },
        Ok(None) => Ok(None),
    }
}

/// As [`macro_argument`], but a missing argument is an error.
pub fn required_macro_argument(lex: &mut Lexer) -> (r: Result<Vec<ParseNode>, ParseError>)
    requires
        old(lex).wf(),
    ensures
        final(lex).wf(),
        final(lex).input() == old(lex).input(),
        matches_many(
            r,
            old(lex).pos(),
            final(lex).pos(),
            required_macro_argument_spec(old(lex).input(), old(lex).pos()),
            true,
        ),
    decreases lex.input().len() - lex.pos(), 3int,
{
    match macro_argument(lex) {
        Err(e) => Err(e),
        Ok(Some(v)) => Ok(v),
        Ok(None) => Err(ParseError::MissingMacroArgument),
    }
}

/// Skip whitespace, resolve a symbol, and demand that its atom type is
/// `expected`; anything else is an error.
pub fn expect_type(lex: &mut Lexer, expected: AtomType) -> (r: Result<Symbol, ParseError>)
    requires
        old(lex).wf(),
    ensures
        final(lex).wf(),
        final(lex).input() == old(lex).input(),
        matches_sym(
            r,
            old(lex).pos(),
            final(lex).pos(),
            expect_type_spec(old(lex).input(), old(lex).pos(), expected),
        ),
{
    proof {
        lemma_skip_ws(lex.input(), lex.pos());
    }
    lex.consume_whitespace();
    match symbol(lex) {
        Err(e) => Err(e),
        Ok(Some(node)) => match node {
            ParseNode::Symbol(sym) => {
                if sym.atom_type == expected {
                    Ok(sym)
                } else {
                    Err(ParseError::AtomTypeMismatch)
                }
            },
            _ => Err(ParseError::AtomTypeMismatch),
        },
        Ok(None) => Err(ParseError::AtomTypeMismatch),
    }
}

/// The alternatives the expression loop tries, in their fixed priority
/// order: command, explicit group, symbol, implicit group.
fn alternatives(lex: &mut Lexer) -> (r: Result<Option<ParseNode>, ParseError>)
    requires
        old(lex).wf(),
    ensures
        final(lex).wf(),
        final(lex).input() == old(lex).input(),
        matches_opt(
            r,
            old(lex).pos(),
            final(lex).pos(),
            alternatives_spec(old(lex).input(), old(lex).pos()),
        ),
    decreases lex.input().len() - lex.pos(), 6int,
{
    match command(lex) {
        Err(e) => {
            return Err(e);
        },
        Ok(Some(n)) => {
            return Ok(Some(n));
        },
        Ok(None) => {},
    }
    match group(lex) {
        Err(e) => {
            return Err(e);
        },
        Ok(Some(n)) => {
            return Ok(Some(n));
        },
        Ok(None) => {},
    }
    match symbol(lex) {
        Err(e) => {
            return Err(e);
        },
        Ok(Some(n)) => {
            return Ok(Some(n));
        },
        Ok(None) => {},
    }
    implicit_group(lex)
}

/// The postfix sub-loop: fold `_` and `^` markers, each followed by a
/// math field, into the node the expression loop just produced.  A second
/// script of the same kind on one base is an error.
fn scripts(lex: &mut Lexer, node: Option<ParseNode>) -> (r: Result<Option<ParseNode>, ParseError>)
    requires
        old(lex).wf(),
    ensures
        final(lex).wf(),
        final(lex).input() == old(lex).input(),
        matches_scr(
            r,
            old(lex).pos(),
            final(lex).pos(),
            opt_view(node),
            scripts_spec(old(lex).input(), old(lex).pos(), opt_view(node)),
        ),
    decreases lex.input().len() - lex.pos(), 7int,
{
    proof {
        lemma_skip_ws(lex.input(), lex.pos());
    }
    lex.consume_whitespace();
    proof {
        lex.lemma_current();
        lemma_token_end(lex.input(), lex.pos());
    }
    if lex.current.is_symbol('_') {
        lex.next();
        let script = match math_field(lex) {
            Ok(n) => n,
            Err(e) => {
                return Err(e);
            },
        };
        let node2: ParseNode = match node {
            Some(ParseNode::Scripts(sc)) => {
                if sc.subscript.is_some() {
                    return Err(ParseError::DuplicateSubscript);
                }
                ParseNode::Scripts(
                    Scripts {
                        base: sc.base,
                        subscript: Some(Box::new(script)),
                        superscript: sc.superscript,
                    },
                )
            },
            Some(other) => ParseNode::Scripts(
                Scripts {
                    base: Some(Box::new(other)),
                    subscript: Some(Box::new(script)),
                    superscript: None,
                },
            ),
            None => ParseNode::Scripts(
                Scripts { base: None, subscript: Some(Box::new(script)), superscript: None },
            ),
        };
        scripts(lex, Some(node2))
    } else if lex.current.is_symbol('^') {
        lex.next();
        let script = match math_field(lex) {
            Ok(n) => n,
            Err(e) => {
                return Err(e);
            },
        };
        let node2: ParseNode = match node {
            Some(ParseNode::Scripts(sc)) => {
                if sc.superscript.is_some() {
                    return Err(ParseError::DuplicateSuperscript);
                }
                ParseNode::Scripts(
                    Scripts {
                        base: sc.base,
                        subscript: sc.subscript,
                        superscript: Some(Box::new(script)),
                    },
                )
            },
            Some(other) => ParseNode::Scripts(
                Scripts {
                    base: Some(Box::new(other)),
                    subscript: None,
                    superscript: Some(Box::new(script)),
                },
            ),
            None => ParseNode::Scripts(
                Scripts { base: None, subscript: None, superscript: Some(Box::new(script)) },
            ),
        };
        scripts(lex, Some(node2))
    } else {
        Ok(node)
    }
}

/// The expression loop: skip whitespace; stop on a terminator; otherwise
/// parse one alternative, fold its postfix scripts, and continue with the
/// rest of the expression.  A token no alternative matches is an error.
fn expression(lex: &mut Lexer) -> (r: Result<Vec<ParseNode>, ParseError>)
    requires
        old(lex).wf(),
    ensures
        final(lex).wf(),
        final(lex).input() == old(lex).input(),
        matches_many(
            r,
            old(lex).pos(),
            final(lex).pos(),
            expression_spec(old(lex).input(), old(lex).pos()),
            false,
        ),
    decreases lex.input().len() - lex.pos(), 8int,
{
    proof {
        lemma_skip_ws(lex.input(), lex.pos());
    }
    lex.consume_whitespace();
    proof {
        lex.lemma_current();
    }
    if lex.current.ends_expression() {
        return Ok(Vec::new());
    }
    let node0 = match alternatives(lex) {
        Ok(o) => o,
        Err(e) => {
            return Err(e);
        },
    };
    let folded = match scripts(lex, node0) {
        Ok(o) => o,
        Err(e) => {
            return Err(e);
        },
    };
    match folded {
        None => Err(ParseError::UnparseableToken),
        Some(n) => {
            let mut rest = match expression(lex) {
                Ok(v) => v,
                Err(e) => {
                    return Err(e);
                },
            };
            let ghost grest = rest@;
            let mut out: Vec<ParseNode> = Vec::new();
            out.push(n);
            out.append(&mut rest);
            proof {
                assert(out@ =~= seq![n] + grest);
                crate::nodes::lemma_nodes_view_cons(n, grest);
            }
            Ok(out)
        },
    }
}

/// Parse a whole input text into its sequence of expression nodes.
///
/// The result is exactly what the grammar prescribes: the node sequence
/// of `parse_spec`, or its error.  An empty input yields an empty
/// sequence; the first failure anywhere aborts the whole parse with no
/// partial output.
pub fn parse(input: &str) -> (r: Result<Vec<ParseNode>, ParseError>)
    ensures
        matches_parse(r, parse_spec(input@)),
{
    let mut lexer = Lexer::new(input);
    expression(&mut lexer)
}

} // verus!
