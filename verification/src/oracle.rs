//! The calls into `proc-macro2` and `syn`.
//!
//! Tokenizing and the grammar of expressions are not this crate's own: they
//! are asked of the two crates, on text. What comes back depends on the text
//! alone, so each answer has a name that contracts can speak of, and nothing
//! else is assumed of it.

use vstd::prelude::*;
use crate::token::{token_views, Delimiter, Token, TokenView};
use proc_macro2::{Delimiter as Brackets, Spacing, TokenStream, TokenTree};
use quote::ToTokens;
use std::str::FromStr;

verus! {

/// The token trees that `proc-macro2` reads from `source`, if it reads it
/// as a token stream at all.
pub uninterp spec fn lexed(source: Seq<char>) -> Option<Seq<TokenView>>;

/// What `syn` holds against `name` as an identifier, if anything.
pub uninterp spec fn syn_ident_refusal(name: Seq<char>) -> Option<Seq<char>>;

/// What `syn` reads from the front of `source` as one expression: the
/// expression's text and the number of token trees behind it, or the text of
/// syn's refusal.
pub uninterp spec fn syn_expr(source: Seq<char>) -> Result<(Seq<char>, nat), Seq<char>>;

/// What `syn` reads from the front of `source` as one tuple expression: the
/// text of each component and the number of token trees behind the tuple,
/// or the text of syn's refusal.
pub uninterp spec fn syn_tuple(source: Seq<char>) -> Result<(Seq<Seq<char>>, nat), Seq<char>>;

/// The string literal that `proc-macro2` writes for `text`.
pub uninterp spec fn string_literal(text: Seq<char>) -> Seq<char>;

/// The value of a tokenizer's answer.
pub open spec fn lex_view(result: Option<Vec<Token>>) -> Option<Seq<TokenView>> {
    match result {
        Some(tokens) => Some(token_views(tokens@)),
        None => None,
    }
}

/// The value of an identifier check's answer.
pub open spec fn refusal_view(refusal: Option<String>) -> Option<Seq<char>> {
    match refusal {
        Some(message) => Some(message@),
        None => None,
    }
}

/// The value of an expression parser's answer.
pub open spec fn expr_view(result: Result<(String, usize), String>) -> Result<
    (Seq<char>, nat),
    Seq<char>,
> {
    match result {
        Ok((text, rest)) => Ok((text@, rest as nat)),
        Err(message) => Err(message@),
    }
}

/// The texts of a tuple's components.
pub open spec fn texts(items: Seq<String>) -> Seq<Seq<char>> {
    Seq::new(items.len(), |i: int| items[i]@)
}

/// The value of a tuple parser's answer.
pub open spec fn tuple_view(result: Result<(Vec<String>, usize), String>) -> Result<
    (Seq<Seq<char>>, nat),
    Seq<char>,
> {
    match result {
        Ok((items, rest)) => Ok((texts(items@), rest as nat)),
        Err(message) => Err(message@),
    }
}

/// `proc_macro2::TokenStream::from_str` on `source`, with each token tree
/// of the stream turned into a [`Token`] of the same kind: an identifier and
/// a literal by the text that they print as, a punctuation character with
/// its spacing, a group by its delimiter and the text that its stream prints
/// as. `None` where the text is refused. Nothing is proved of it: the
/// contract gives the answer its name.
#[verifier::external_body]
pub(crate) fn lex(source: &str) -> (result: Option<Vec<Token>>)
    ensures
        lex_view(result) == lexed(source@),
{
    let stream = TokenStream::from_str(source).ok()?;
    Some(stream.into_iter().map(|tree| match tree {
        TokenTree::Ident(ident) => Token::Ident(ident.to_string()),
        TokenTree::Punct(punct) => {
            Token::Punct(punct.as_char(), matches!(punct.spacing(), Spacing::Joint))
        },
        TokenTree::Literal(literal) => Token::Literal(literal.to_string()),
        TokenTree::Group(group) => Token::Group(match group.delimiter() {
            Brackets::Parenthesis => Delimiter::Parenthesis,
            Brackets::Brace => Delimiter::Brace,
            Brackets::Bracket => Delimiter::Bracket,
            Brackets::None => Delimiter::Invisible,
        }, group.stream().to_string()),
    }).collect())
}

/// `syn::parse_str` for `syn::Ident` on `name`, which accepts a text that
/// is one identifier and no reserved word; the message of its error where
/// it refuses. Nothing is proved of it: the contract gives the refusal its
/// name.
#[verifier::external_body]
pub(crate) fn ident_refusal(name: &str) -> (refusal: Option<String>)
    ensures
        refusal_view(refusal) == syn_ident_refusal(name@),
{
    match syn::parse_str::<syn::Ident>(name) {
        Ok(_) => None,
        Err(error) => Some(error.to_string()),
    }
}

/// `syn::parse::Parser::parse_str` on `source`, with a parser that reads
/// one `syn::Expr` and hands what follows to the parser of `TokenStream`,
/// which takes all of it. The expression comes back as `ToTokens` prints
/// it, what follows as the number of its token trees. Nothing is proved of
/// it: the contract gives the answer its name.
#[verifier::external_body]
pub(crate) fn read_expr(source: &str) -> (result: Result<(String, usize), String>)
    ensures
        expr_view(result) == syn_expr(source@),
{
    let parser = |input: syn::parse::ParseStream| {
        let expr: syn::Expr = input.parse()?;
        let rest: TokenStream = input.parse()?;
        Ok((expr, rest))
    };
    match syn::parse::Parser::parse_str(parser, source) {
        Ok((expr, rest)) => Ok((expr.to_token_stream().to_string(), rest.into_iter().count())),
        Err(error) => Err(error.to_string()),
    }
}

/// `syn::parse::Parser::parse_str` on `source`, with a parser that reads
/// one `syn::ExprTuple` and hands what follows to the parser of
/// `TokenStream`, which takes all of it. Each component of the tuple comes
/// back as `ToTokens` prints it, what follows as the number of its token
/// trees. Nothing is proved of it: the contract gives the answer its name.
#[verifier::external_body]
pub(crate) fn read_tuple(source: &str) -> (result: Result<(Vec<String>, usize), String>)
    ensures
        tuple_view(result) == syn_tuple(source@),
{
    let parser = |input: syn::parse::ParseStream| {
        let tuple: syn::ExprTuple = input.parse()?;
        let rest: TokenStream = input.parse()?;
        Ok((tuple, rest))
    };
    match syn::parse::Parser::parse_str(parser, source) {
        Ok((tuple, rest)) => Ok((
            tuple.elems.iter().map(|item| item.to_token_stream().to_string()).collect(),
            rest.into_iter().count(),
        )),
        Err(error) => Err(error.to_string()),
    }
}

/// `proc_macro2::Literal::string` on `text`, as the literal prints: `text`
/// between double quotes, with escapes where it needs them. Nothing is
/// proved of it: the contract gives the literal its name.
#[verifier::external_body]
pub(crate) fn quote_string(text: &str) -> (literal: String)
    ensures
        literal@ == string_literal(text@),
{
    proc_macro2::Literal::string(text).to_string()
}

} // verus!
