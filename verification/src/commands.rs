//! The named commands: dispatch and the handlers for `\sqrt` and `\frac`.

use vstd::prelude::*;
use crate::lexer::{Lexer, lemma_skip_ws};
use crate::nodes::{ParseNode, ParseError, Radical, Fraction, nodes_view};
use crate::tables::Command;
use crate::grammar::{
    dispatch_spec, radical_spec, fraction_spec, command_argument_spec, unwrap_group, matches_opt,
    matches_many,
};
use crate::engine::{command, group, symbol};

verus! {

/// Hand control to the handler of `cmd`, whose name has been consumed.
pub(crate) fn dispatch(cmd: Command, lex: &mut Lexer) -> (r: Result<
    Option<ParseNode>,
    ParseError,
>)
    requires
        old(lex).wf(),
    ensures
        final(lex).wf(),
        final(lex).input() == old(lex).input(),
        matches_opt(
            r,
            old(lex).pos(),
            final(lex).pos(),
            dispatch_spec(cmd, old(lex).input(), old(lex).pos()),
        ),
    decreases lex.input().len() - lex.pos(), 5int,
{
    match cmd {
        Command::Radical => radical(lex),
        Command::Fraction => fraction(lex),
    }
}

/// `\sqrt`: one argument, wrapped in a radical node.
fn radical(lex: &mut Lexer) -> (r: Result<Option<ParseNode>, ParseError>)
    requires
        old(lex).wf(),
    ensures
        final(lex).wf(),
        final(lex).input() == old(lex).input(),
        matches_opt(
            r,
            old(lex).pos(),
            final(lex).pos(),
            radical_spec(old(lex).input(), old(lex).pos()),
        ),
    decreases lex.input().len() - lex.pos(), 4int,
{
    let inner = match command_argument(lex) {
        Ok(v) => v,
        Err(e) => {
            return Err(e);
        },
    };
    Ok(Some(ParseNode::Radical(Radical { inner })))
}

/// `\frac`: two arguments, wrapped in a fraction node.
fn fraction(lex: &mut Lexer) -> (r: Result<Option<ParseNode>, ParseError>)
    requires
        old(lex).wf(),
    ensures
        final(lex).wf(),
        final(lex).input() == old(lex).input(),
        matches_opt(
            r,
            old(lex).pos(),
            final(lex).pos(),
            fraction_spec(old(lex).input(), old(lex).pos()),
        ),
    decreases lex.input().len() - lex.pos(), 4int,
{
    let numerator = match command_argument(lex) {
        Ok(v) => v,
        Err(e) => {
            return Err(e);
        },
    };
    let denominator = match command_argument(lex) {
        Ok(v) => v,
        Err(e) => {
            return Err(e);
        },
    };
    Ok(Some(ParseNode::Fraction(Fraction { numerator, denominator })))
}

/// The content of an argument node: a group's braces are stripped, any
/// other node stands alone.
pub(crate) fn unwrap_argument(n: ParseNode) -> (v: Vec<ParseNode>)
    ensures
        nodes_view(v@) == unwrap_group(crate::nodes::node_view(n)),
{
    match n {
        ParseNode::Group(inner) => inner,
        other => {
            let mut v: Vec<ParseNode> = Vec::new();
            v.push(other);
            proof {
                assert(v@ =~= seq![other]);
                crate::nodes::lemma_nodes_view_singleton(other);
            }
            v
        },
    }
}

/// One command argument: after optional whitespace, the first of a
/// command, a group or a symbol, its content unwrapped.
pub(crate) fn command_argument(lex: &mut Lexer) -> (r: Result<Vec<ParseNode>, ParseError>)
    requires
        old(lex).wf(),
    ensures
        final(lex).wf(),
        final(lex).input() == old(lex).input(),
        matches_many(
            r,
            old(lex).pos(),
            final(lex).pos(),
            command_argument_spec(old(lex).input(), old(lex).pos()),
            true,
        ),
    decreases lex.input().len() - lex.pos(), 3int,
{
    proof {
        lemma_skip_ws(lex.input(), lex.pos());
    }
    lex.consume_whitespace();
    match command(lex) {
        Err(e) => {
            return Err(e);
        },
        Ok(Some(n)) => {
            return Ok(unwrap_argument(n));
        },
        Ok(None) => {},
    }
    match group(lex) {
        Err(e) => {
            return Err(e);
        },
        Ok(Some(n)) => {
            return Ok(unwrap_argument(n));
        },
        Ok(None) => {},
    }
    match symbol(lex) {
        Err(e) => Err(e),
        Ok(Some(n)) => Ok(unwrap_argument(n)),
        Ok(None) => Err(ParseError::MissingMacroArgument),
    }
}

} // verus!
