//! Tokens of a literal, held as plain text.
//!
//! A token is one lexical unit of the notation: an identifier, a punctuation
//! character, a literal, or a delimited group. A group holds the text between
//! its delimiters, not the tokens that this text is made of, so a token
//! sequence is always flat.

use vstd::prelude::*;
use crate::error::{Diagnostic, DiagnosticView, ErrorKind, ErrorKindView};
use crate::oracle::{lex, lexed};

verus! {

/// `String::push` appends one character.
pub assume_specification[ String::push ](text: &mut String, ch: char)
    ensures
        final(text)@ == old(text)@.push(ch),
;

/// The brackets around a group.
#[derive(Clone, Copy, Debug, PartialEq, Eq, Structural)]
pub enum Delimiter {
    /// `( ... )`
    Parenthesis,
    /// `{ ... }`
    Brace,
    /// `[ ... ]`
    Bracket,
    /// A group without written brackets.
    Invisible,
}

impl Delimiter {
    /// The text that opens a group.
    pub open spec fn opening(self) -> Seq<char> {
        match self {
            Delimiter::Parenthesis => seq!['('],
            Delimiter::Brace => seq!['{'],
            Delimiter::Bracket => seq!['['],
            Delimiter::Invisible => seq![],
        }
    }

    /// The text that closes a group.
    pub open spec fn closing(self) -> Seq<char> {
        match self {
            Delimiter::Parenthesis => seq![')'],
            Delimiter::Brace => seq!['}'],
            Delimiter::Bracket => seq![']'],
            Delimiter::Invisible => seq![],
        }
    }

    /// Appends the opening bracket to `text`.
    pub fn write_opening(self, text: &mut String)
        ensures
            final(text)@ == old(text)@ + self.opening(),
    {
        match self {
            Delimiter::Parenthesis => text.push('('),
            Delimiter::Brace => text.push('{'),
            Delimiter::Bracket => text.push('['),
            Delimiter::Invisible => {},
        }
    }

    /// Appends the closing bracket to `text`.
    pub fn write_closing(self, text: &mut String)
        ensures
            final(text)@ == old(text)@ + self.closing(),
    {
        match self {
            Delimiter::Parenthesis => text.push(')'),
            Delimiter::Brace => text.push('}'),
            Delimiter::Bracket => text.push(']'),
            Delimiter::Invisible => {},
        }
    }
}

/// One token.
#[derive(Clone, Debug, PartialEq, Eq)]
pub enum Token {
    /// An identifier, by its name.
    Ident(String),
    /// A punctuation character; the flag says that the next token follows
    /// it without a space, as the first `=` of `==` does.
    Punct(char, bool),
    /// A literal, as written: a string literal keeps its quotes.
    Literal(String),
    /// A group, by its brackets and the text between them.
    Group(Delimiter, String),
}

/// The mathematical value of a [`Token`].
pub enum TokenView {
    Ident(Seq<char>),
    Punct(char, bool),
    Literal(Seq<char>),
    Group(Delimiter, Seq<char>),
}

impl View for Token {
    type V = TokenView;

    open spec fn view(&self) -> TokenView {
        match *self {
            Token::Ident(name) => TokenView::Ident(name@),
            Token::Punct(ch, joint) => TokenView::Punct(ch, joint),
            Token::Literal(text) => TokenView::Literal(text@),
            Token::Group(delimiter, inner) => TokenView::Group(delimiter, inner@),
        }
    }
}

impl TokenView {
    /// The token as it is written.
    pub open spec fn text(self) -> Seq<char> {
        match self {
            TokenView::Ident(name) => name,
            TokenView::Punct(ch, _) => seq![ch],
            TokenView::Literal(text) => text,
            TokenView::Group(delimiter, inner) => delimiter.opening() + inner + delimiter.closing(),
        }
    }

    /// Whether the next token is written directly behind this one.
    pub open spec fn glued(self) -> bool {
        self matches TokenView::Punct(_, joint) && joint
    }

    /// The token as it is written within a sequence: its text, and a space
    /// unless the next token is glued to it.
    pub open spec fn piece(self) -> Seq<char> {
        if self.glued() {
            self.text()
        } else {
            self.text().push(' ')
        }
    }
}

/// The values of a sequence of tokens.
pub open spec fn token_views(tokens: Seq<Token>) -> Seq<TokenView> {
    Seq::new(tokens.len(), |i: int| tokens[i]@)
}

/// The text of a token sequence: the pieces of its tokens, in order.
pub open spec fn render(tokens: Seq<TokenView>) -> Seq<char>
    decreases tokens.len(),
{
    if tokens.len() == 0 {
        seq![]
    } else {
        render(tokens.drop_last()) + tokens.last().piece()
    }
}

impl Token {
    /// Appends the token's piece to `text`.
    pub fn write(&self, text: &mut String)
        ensures
            final(text)@ == old(text)@ + self@.piece(),
    {
        match self {
            Token::Ident(name) => {
                text.append(name.as_str());
                text.push(' ');
            },
            Token::Punct(ch, joint) => {
                text.push(*ch);
                if !*joint {
                    text.push(' ');
                }
            },
            Token::Literal(literal) => {
                text.append(literal.as_str());
                text.push(' ');
            },
            Token::Group(delimiter, inner) => {
                delimiter.write_opening(text);
                text.append(inner.as_str());
                delimiter.write_closing(text);
                text.push(' ');
            },
        }
    }
}

/// The text of `tokens` from index `from` on; of no tokens where `from` is
/// past the end.
pub fn render_from(tokens: &Vec<Token>, from: usize) -> (text: String)
    ensures
        from <= tokens.len() ==> text@ == render(
            token_views(tokens@).subrange(from as int, tokens.len() as int),
        ),
        from > tokens.len() ==> text@ == Seq::<char>::empty(),
{
    let mut text = String::new();
    if from > tokens.len() {
        return text;
    }
    let mut i: usize = from;
    let ghost views = token_views(tokens@);
    while i < tokens.len()
        invariant
            from <= i <= tokens.len(),
            views == token_views(tokens@),
            text@ == render(views.subrange(from as int, i as int)),
        decreases tokens.len() - i,
    {
        tokens[i].write(&mut text);
        proof {
            let next = views.subrange(from as int, i + 1);
            assert(next.drop_last() =~= views.subrange(from as int, i as int));
        }
        i = i + 1;
    }
    text
}

/// The text of `tokens`.
pub fn render_tokens(tokens: &Vec<Token>) -> (text: String)
    ensures
        text@ == render(token_views(tokens@)),
{
    assert(token_views(tokens@).subrange(0, tokens.len() as int) =~= token_views(tokens@));
    render_from(tokens, 0)
}

/// The tokens that `text` is made of, or the tokenizer's failure.
pub open spec fn tokens_of(text: Seq<char>) -> Result<Seq<TokenView>, DiagnosticView> {
    match lexed(text) {
        Some(tokens) => Ok(tokens),
        None => Err(DiagnosticView { kind: ErrorKindView::Lex, at: 0 }),
    }
}

/// The value of a result that holds a token sequence.
pub open spec fn tokens_outcome(result: Result<Vec<Token>, Diagnostic>) -> Result<
    Seq<TokenView>,
    DiagnosticView,
> {
    match result {
        Ok(tokens) => Ok(token_views(tokens@)),
        Err(error) => Err(error@),
    }
}

/// Splits `text` into its tokens.
pub fn tokenize(text: &str) -> (result: Result<Vec<Token>, Diagnostic>)
    ensures
        tokens_outcome(result) == tokens_of(text@),
{
    match lex(text) {
        Some(tokens) => Ok(tokens),
        None => Err(Diagnostic { kind: ErrorKind::Lex, at: 0 }),
    }
}

} // verus!
