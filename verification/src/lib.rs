//! Expansion of element literals such as `div(class = "card")(child)` into
//! chains of builder calls.
//!
//! A literal is a tag, an optional parenthesized list of fields and an
//! optional parenthesized list of children. [`view`] reads one literal and
//! writes the chain that builds the element: `div(id = "x")(a, b)` becomes
//! `leptos::html::div().attr("id", "x").child(a).child(b)`.

pub mod call;
pub mod cursor;
pub mod error;
pub mod grammar;
pub mod laws;
pub mod node;
pub mod oracle;
pub mod token;

use vstd::prelude::*;
use crate::call::{chain_text, write_chain};
use crate::cursor::{outcome, Cursor};
use crate::error::{
    Diagnostic, DiagnosticView, ErrorKind, ErrorKindView, ParseError, ParseErrorView,
};
use crate::grammar::node_at;
use crate::node::Node;
use crate::token::{tokenize, tokens_of};

verus! {

/// The chain that a literal expands into, or why it is rejected: its
/// text has to be a sequence of tokens that is one element and nothing
/// more.
pub open spec fn expansion(literal: Seq<char>) -> Result<Seq<char>, ParseErrorView> {
    match tokens_of(literal) {
        Err(error) => Err(ParseErrorView::Single { within: None, cause: error }),
        Ok(tokens) => match node_at(tokens, 0) {
            Err(error) => Err(error),
            Ok((node, end)) => {
                if end == tokens.len() {
                    Ok(chain_text(node.calls()))
                } else {
                    Err(
                        ParseErrorView::Single {
                            within: None,
                            cause: DiagnosticView { kind: ErrorKindView::UnexpectedToken, at: end },
                        },
                    )
                }
            },
        },
    }
}

/// Expands one element literal into the text of its builder chain.
pub fn view(literal: &str) -> (result: Result<String, ParseError>)
    ensures
        outcome(result) == expansion(literal@),
{
    let tokens = match tokenize(literal) {
        Ok(tokens) => tokens,
        Err(error) => {
            return Err(ParseError::Single { within: None, cause: error });
        },
    };
    let mut input = Cursor::new(&tokens);
    let node = Node::parse(&mut input)?;
    if input.is_empty() {
        Ok(write_chain(&node.calls()))
    } else {
        Err(
            ParseError::Single {
                within: None,
                cause: Diagnostic { kind: ErrorKind::UnexpectedToken, at: input.index() },
            },
        )
    }
}

} // verus!
