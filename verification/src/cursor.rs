//! A position in a token sequence, and the steps that read single things
//! from it.
//!
//! Every step either succeeds and moves the cursor behind what it read, or
//! fails and leaves the cursor where it was. A speculative parse works on a
//! [`Cursor::fork`] and is committed by [`Cursor::advance_to`].

use vstd::prelude::*;
use crate::error::{Diagnostic, DiagnosticView, ErrorKind, ErrorKindView, Keyword};
use crate::oracle::{
    ident_refusal, read_expr, read_tuple, syn_expr, syn_ident_refusal, syn_tuple, texts,
};
use crate::token::{render, render_from, token_views, Delimiter, Token, TokenView};

verus! {

/// What a step reads at a position: a value and the position behind it, or
/// the cause of its failure.
pub type Parsed<T> = Result<(T, int), DiagnosticView>;

/// The value of a result: the value of what it holds.
pub open spec fn outcome<T: View, E: View>(result: Result<T, E>) -> Result<T::V, E::V> {
    match result {
        Ok(value) => Ok(value@),
        Err(error) => Err(error@),
    }
}

/// The value of a result that holds the texts of a tuple's components.
pub open spec fn texts_outcome(result: Result<Vec<String>, Diagnostic>) -> Result<
    Seq<Seq<char>>,
    DiagnosticView,
> {
    match result {
        Ok(items) => Ok(texts(items@)),
        Err(error) => Err(error@),
    }
}

/// A failure of kind `kind` at `at`.
pub open spec fn failure<T>(kind: ErrorKindView, at: int) -> Parsed<T> {
    Err(DiagnosticView { kind, at })
}

/// The identifier at `pos`, if the token there is one that `syn` accepts.
pub open spec fn ident_at(tokens: Seq<TokenView>, pos: int) -> Parsed<Seq<char>> {
    if 0 <= pos < tokens.len() && tokens[pos] is Ident {
        let name = tokens[pos]->Ident_0;
        match syn_ident_refusal(name) {
            None => Ok((name, pos + 1)),
            Some(message) => failure(ErrorKindView::Identifier(message), pos),
        }
    } else {
        failure(ErrorKindView::ExpectedIdent, pos)
    }
}

/// Whether the token at `pos` is the punctuation character `ch`.
pub open spec fn is_punct(tokens: Seq<TokenView>, pos: int, ch: char) -> bool {
    0 <= pos < tokens.len() && tokens[pos] is Punct && tokens[pos]->Punct_0 == ch
}

/// The punctuation character `ch` at `pos`.
pub open spec fn punct_at(tokens: Seq<TokenView>, pos: int, ch: char) -> Parsed<()> {
    if is_punct(tokens, pos, ch) {
        Ok(((), pos + 1))
    } else {
        failure(ErrorKindView::ExpectedPunct(ch), pos)
    }
}

/// Whether the token at `pos` is the identifier `keyword`.
pub open spec fn is_keyword(tokens: Seq<TokenView>, pos: int, keyword: Keyword) -> bool {
    0 <= pos < tokens.len() && tokens[pos] is Ident && tokens[pos]->Ident_0 == keyword.text()
}

/// The keyword `keyword` at `pos`.
pub open spec fn keyword_at(tokens: Seq<TokenView>, pos: int, keyword: Keyword) -> Parsed<()> {
    if is_keyword(tokens, pos, keyword) {
        Ok(((), pos + 1))
    } else {
        failure(ErrorKindView::ExpectedKeyword(keyword), pos)
    }
}

/// The content of the parenthesized group at `pos`, if the token there is
/// one.
pub open spec fn group_at(tokens: Seq<TokenView>, pos: int) -> Option<Seq<char>> {
    if 0 <= pos < tokens.len() && tokens[pos] is Group && tokens[pos]->Group_0
        == Delimiter::Parenthesis {
        Some(tokens[pos]->Group_1)
    } else {
        None
    }
}

/// The text of the tokens from `pos` on.
pub open spec fn text_from(tokens: Seq<TokenView>, pos: int) -> Seq<char> {
    render(tokens.subrange(pos, tokens.len() as int))
}

/// The position that leaves `rest` of the tokens from `pos` on unread, or
/// the failure to find one.
pub open spec fn position_leaving(tokens: Seq<TokenView>, pos: int, rest: nat) -> Parsed<()> {
    if rest <= tokens.len() - pos {
        Ok(((), tokens.len() - rest))
    } else {
        failure(ErrorKindView::Overrun, pos)
    }
}

/// The expression that `syn` reads at `pos`, by its text.
pub open spec fn expr_at(tokens: Seq<TokenView>, pos: int) -> Parsed<Seq<char>> {
    match syn_expr(text_from(tokens, pos)) {
        Ok((text, rest)) => match position_leaving(tokens, pos, rest) {
            Ok((_, end)) => Ok((text, end)),
            Err(error) => Err(error),
        },
        Err(message) => failure(ErrorKindView::Expression(message), pos),
    }
}

/// The tuple expression that `syn` reads at `pos`, by the texts of its
/// components.
pub open spec fn tuple_at(tokens: Seq<TokenView>, pos: int) -> Parsed<Seq<Seq<char>>> {
    match syn_tuple(text_from(tokens, pos)) {
        Ok((items, rest)) => match position_leaving(tokens, pos, rest) {
            Ok((_, end)) => Ok((items, end)),
            Err(error) => Err(error),
        },
        Err(message) => failure(ErrorKindView::Expression(message), pos),
    }
}

/// A position in a borrowed token sequence.
#[derive(Debug)]
pub struct Cursor<'a> {
    tokens: &'a Vec<Token>,
    pos: usize,
}

/// Whether a step that took the cursor from `before` to `after` and ended
/// in `outcome` has read `expected`: it moves over the same tokens, on
/// success it gives the expected value and stands behind it, and on failure
/// it gives the expected cause and has not moved.
pub open spec fn reads<V, E>(
    before: Cursor,
    after: Cursor,
    outcome: Result<V, E>,
    expected: Result<(V, int), E>,
) -> bool {
    &&& after.tokens() == before.tokens()
    &&& match outcome {
        Ok(value) => expected == Ok::<_, E>((value, after.position())),
        Err(error) => expected == Err::<(V, int), _>(error) && after.position()
            == before.position(),
    }
}

impl<'a> Cursor<'a> {
    #[verifier::type_invariant]
    spec fn in_bounds(self) -> bool {
        self.pos <= self.tokens.len()
    }

    /// The tokens that the cursor moves over.
    pub closed spec fn tokens(self) -> Seq<TokenView> {
        token_views(self.tokens@)
    }

    /// The index of the next token to read.
    pub closed spec fn position(self) -> int {
        self.pos as int
    }

    /// A cursor at the first of `tokens`.
    pub fn new(tokens: &'a Vec<Token>) -> (cursor: Cursor<'a>)
        ensures
            cursor.tokens() == token_views(tokens@),
            cursor.position() == 0,
    {
        Cursor { tokens, pos: 0 }
    }

    /// The index of the next token to read.
    pub fn index(&self) -> (index: usize)
        ensures
            index == self.position(),
            0 <= self.position() <= self.tokens().len(),
    {
        proof {
            use_type_invariant(self);
        }
        self.pos
    }

    /// Whether every token has been read.
    pub fn is_empty(&self) -> (empty: bool)
        ensures
            empty == (self.position() >= self.tokens().len()),
            0 <= self.position() <= self.tokens().len(),
    {
        proof {
            use_type_invariant(self);
        }
        self.pos >= self.tokens.len()
    }

    /// An independent copy of the cursor, to parse on speculatively.
    pub fn fork(&self) -> (fork: Cursor<'a>)
        ensures
            fork == *self,
    {
        proof {
            use_type_invariant(self);
        }
        Cursor { tokens: self.tokens, pos: self.pos }
    }

    /// Commits a speculative parse: moves the cursor to where `fork`, a
    /// copy of it, has got to.
    pub fn advance_to(&mut self, fork: &Cursor<'a>)
        requires
            fork.tokens() == old(self).tokens(),
            old(self).position() <= fork.position(),
        ensures
            final(self).tokens() == old(self).tokens(),
            final(self).position() == fork.position(),
    {
        proof {
            use_type_invariant(&*self);
            use_type_invariant(fork);
            assert(token_views(self.tokens@).len() == self.tokens@.len());
        }
        self.pos = fork.pos;
    }

    /// Whether the next token is the identifier `keyword`. Reads nothing.
    pub fn peek_keyword(&self, keyword: Keyword) -> (found: bool)
        ensures
            found == is_keyword(self.tokens(), self.position(), keyword),
    {
        if self.pos < self.tokens.len() {
            match &self.tokens[self.pos] {
                Token::Ident(name) => *name == String::from_str(keyword.as_str()),
                _ => false,
            }
        } else {
            false
        }
    }

    /// Reads the identifier `keyword`.
    pub fn keyword(&mut self, keyword: Keyword) -> (result: Result<(), Diagnostic>)
        ensures
            reads(
                *old(self),
                *final(self),
                outcome(result),
                keyword_at(old(self).tokens(), old(self).position(), keyword),
            ),
    {
        proof {
            use_type_invariant(&*self);
        }
        if self.peek_keyword(keyword) {
            self.pos = self.pos + 1;
            Ok(())
        } else {
            Err(Diagnostic { kind: ErrorKind::ExpectedKeyword(keyword), at: self.pos })
        }
    }

    /// Whether the next token is the punctuation character `ch`. Reads
    /// nothing.
    pub fn peek_punct(&self, ch: char) -> (found: bool)
        ensures
            found == is_punct(self.tokens(), self.position(), ch),
    {
        if self.pos < self.tokens.len() {
            match &self.tokens[self.pos] {
                Token::Punct(found, _) => *found == ch,
                _ => false,
            }
        } else {
            false
        }
    }

    /// Reads the punctuation character `ch`.
    pub fn punct(&mut self, ch: char) -> (result: Result<(), Diagnostic>)
        ensures
            reads(
                *old(self),
                *final(self),
                outcome(result),
                punct_at(old(self).tokens(), old(self).position(), ch),
            ),
    {
        proof {
            use_type_invariant(&*self);
        }
        if self.peek_punct(ch) {
            self.pos = self.pos + 1;
            Ok(())
        } else {
            Err(Diagnostic { kind: ErrorKind::ExpectedPunct(ch), at: self.pos })
        }
    }

    /// Reads an identifier that `syn` accepts as a name.
    pub fn ident(&mut self) -> (result: Result<String, Diagnostic>)
        ensures
            reads(
                *old(self),
                *final(self),
                outcome(result),
                ident_at(old(self).tokens(), old(self).position()),
            ),
    {
        if self.pos < self.tokens.len() {
            match &self.tokens[self.pos] {
                Token::Ident(name) => {
                    match ident_refusal(name.as_str()) {
                        None => {
                            self.pos = self.pos + 1;
                            Ok(name.clone())
                        },
                        Some(message) => Err(
                            Diagnostic { kind: ErrorKind::Identifier(message), at: self.pos },
                        ),
                    }
                },
                _ => Err(Diagnostic { kind: ErrorKind::ExpectedIdent, at: self.pos }),
            }
        } else {
            Err(Diagnostic { kind: ErrorKind::ExpectedIdent, at: self.pos })
        }
    }

    /// Reads a parenthesized group and gives the text between its
    /// parentheses; reads nothing where the next token is no such group.
    pub fn parenthesized(&mut self) -> (content: Option<String>)
        ensures
            final(self).tokens() == old(self).tokens(),
            content matches Some(inner) ==> group_at(old(self).tokens(), old(self).position())
                == Some(inner@) && final(self).position() == old(self).position() + 1,
            content is None ==> group_at(old(self).tokens(), old(self).position()) is None
                && final(self).position() == old(self).position(),
    {
        if self.pos < self.tokens.len() {
            match &self.tokens[self.pos] {
                Token::Group(Delimiter::Parenthesis, inner) => {
                    self.pos = self.pos + 1;
                    Some(inner.clone())
                },
                _ => None,
            }
        } else {
            None
        }
    }

    /// The text of the tokens that are still to read.
    pub fn text(&self) -> (text: String)
        ensures
            text@ == text_from(self.tokens(), self.position()),
    {
        proof {
            use_type_invariant(self);
        }
        render_from(self.tokens, self.pos)
    }

    /// Moves the cursor so that `rest` of the tokens still to read stay
    /// unread; fails where there are fewer.
    pub fn leave(&mut self, rest: usize) -> (result: Result<(), Diagnostic>)
        ensures
            reads(
                *old(self),
                *final(self),
                outcome(result),
                position_leaving(old(self).tokens(), old(self).position(), rest as nat),
            ),
    {
        proof {
            use_type_invariant(&*self);
        }
        if rest <= self.tokens.len() - self.pos {
            self.pos = self.tokens.len() - rest;
            Ok(())
        } else {
            Err(Diagnostic { kind: ErrorKind::Overrun, at: self.pos })
        }
    }

    /// Reads one expression, as far as `syn` takes it, and gives its text.
    pub fn expr(&mut self) -> (result: Result<String, Diagnostic>)
        ensures
            reads(
                *old(self),
                *final(self),
                outcome(result),
                expr_at(old(self).tokens(), old(self).position()),
            ),
    {
        let source = self.text();
        match read_expr(source.as_str()) {
            Ok((text, rest)) => match self.leave(rest) {
                Ok(_) => Ok(text),
                Err(error) => Err(error),
            },
            Err(message) => Err(Diagnostic { kind: ErrorKind::Expression(message), at: self.pos }),
        }
    }

    /// Reads one tuple expression, as far as `syn` takes it, and gives the
    /// texts of its components.
    pub fn tuple(&mut self) -> (result: Result<Vec<String>, Diagnostic>)
        ensures
            reads(
                *old(self),
                *final(self),
                texts_outcome(result),
                tuple_at(old(self).tokens(), old(self).position()),
            ),
    {
        let source = self.text();
        match read_tuple(source.as_str()) {
            Ok((items, rest)) => match self.leave(rest) {
                Ok(_) => Ok(items),
                Err(error) => Err(error),
            },
            Err(message) => Err(Diagnostic { kind: ErrorKind::Expression(message), at: self.pos }),
        }
    }
}

} // verus!
