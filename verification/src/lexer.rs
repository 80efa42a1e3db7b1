//! The token source of the parser.
//!
//! A [`Lexer`] hands out the tokens of a schema one at a time. What it will
//! hand out from now on is its [`TokenStream`]: a sequence of tokens, and the
//! failure that comes after them if the text could not be read to its end.
//! Once the tokens are used up, a lexer that has failed reports the failure
//! at each call; another one hands out `EOF` for ever.
use crate::scanner::{lex, tokenize};
use crate::token::{Token, TokenView};
use vstd::prelude::*;

verus! {

/// Why a text could not be split into tokens.
#[derive(Debug, Clone, Copy, PartialEq, Eq, Structural)]
pub enum LexErrorKind {
    /// A character that starts no token.
    UnexpectedCharacter,
    /// A text or byte string without its closing quote.
    UnterminatedString,
    /// An integer that does not fit in 64 bits.
    NumberTooLarge,
    /// A number that breaks off: a sign, a point or an exponent without digits.
    MalformedNumber,
    /// `..` or `...` without a literal after it.
    MalformedRange,
    /// A character of a byte string that is not ASCII.
    NonAsciiByte,
}

/// A failure of the lexer.
#[derive(Debug, Clone, Copy, PartialEq, Eq, Structural)]
pub struct LexError {
    /// The index of the character at which the lexer gave up.
    pub position: usize,
    /// What went wrong there.
    pub kind: LexErrorKind,
}

/// What a lexer hands out, in order.
pub ghost struct TokenStream {
    /// The tokens. None of them is `EOF`.
    pub tokens: Seq<TokenView>,
    /// The failure that follows the tokens, if the lexer failed.
    pub failure: Option<LexError>,
}

impl TokenStream {
    /// The token at index `i`: past the last token, `EOF`.
    pub open spec fn at(self, i: int) -> TokenView {
        if 0 <= i < self.tokens.len() {
            self.tokens[i]
        } else {
            TokenView::EOF
        }
    }

    /// No token of the stream is `EOF`, and the tokens can be counted in a
    /// `usize`.
    pub open spec fn wf(self) -> bool {
        &&& self.tokens.len() <= usize::MAX
        &&& forall|i: int| 0 <= i < self.tokens.len() ==> self.tokens[i] != TokenView::EOF
    }

    /// The stream without its first `n` tokens.
    pub open spec fn skip(self, n: int) -> TokenStream {
        TokenStream { tokens: self.tokens.skip(n), failure: self.failure }
    }
}

/// The values of a sequence of tokens.
pub open spec fn tokens_view(tokens: Seq<Token>) -> Seq<TokenView> {
    Seq::new(tokens.len(), |i: int| tokens[i]@)
}

/// How many tokens stand in front of the first `EOF` from index `from` on.
pub open spec fn count_until_eof(tokens: Seq<TokenView>, from: int) -> nat
    decreases tokens.len() - from,
{
    if from < 0 || from >= tokens.len() || tokens[from] == TokenView::EOF {
        0
    } else {
        1 + count_until_eof(tokens, from + 1)
    }
}

/// The tokens in front of the first `EOF`.
pub open spec fn until_eof(tokens: Seq<TokenView>) -> Seq<TokenView> {
    tokens.take(count_until_eof(tokens, 0) as int)
}

/// In front of the first `EOF` stands no `EOF`.
pub proof fn lemma_count_until_eof(tokens: Seq<TokenView>, from: int)
    requires
        0 <= from <= tokens.len(),
    ensures
        from + count_until_eof(tokens, from) <= tokens.len(),
        forall|i: int|
            from <= i < from + count_until_eof(tokens, from) ==> tokens[i] != TokenView::EOF,
        from + count_until_eof(tokens, from) < tokens.len() ==> tokens[from + count_until_eof(
            tokens,
            from,
        )] == TokenView::EOF,
    decreases tokens.len() - from,
{
    if from < tokens.len() && tokens[from] != TokenView::EOF {
        lemma_count_until_eof(tokens, from + 1);
    }
}

/// A source of tokens.
#[derive(Debug)]
pub struct Lexer {
    tokens: Vec<Token>,
    failure: Option<LexError>,
    position: usize,
}

impl Lexer {
    /// What the lexer will hand out from now on.
    pub closed spec fn remaining(&self) -> TokenStream {
        TokenStream {
            tokens: tokens_view(self.tokens@).skip(self.position as int),
            failure: self.failure,
        }
    }

    /// The lexer is in order: see [`TokenStream::wf`].
    pub closed spec fn wf(&self) -> bool {
        &&& self.position <= self.tokens.len()
        &&& forall|i: int| 0 <= i < self.tokens.len() ==> self.tokens[i]@ != TokenView::EOF
    }

    /// What a lexer in order hands out is a stream in order.
    pub proof fn lemma_wf(&self)
        requires
            self.wf(),
        ensures
            self.remaining().wf(),
    {
    }

    /// A lexer that hands out the tokens of `input`: see [`lex`].
    pub fn new(input: &str) -> (l: Lexer)
        ensures
            l.wf(),
            l.remaining() == lex(input@),
    {
        let (tokens, failure) = tokenize(input);
        let l = Lexer { tokens, failure, position: 0 };
        assert(l.remaining().tokens =~= lex(input@).tokens);
        l
    }

    /// A lexer that hands out `tokens` as far as they go: up to the first
    /// `EOF` among them, or all of them if there is none.
    pub fn from_tokens(tokens: Vec<Token>) -> (l: Lexer)
        ensures
            l.wf(),
            l.remaining().tokens == until_eof(tokens_view(tokens@)),
            l.remaining().failure is None,
    {
        let mut tokens = tokens;
        let ghost all = tokens_view(tokens@);
        let mut n: usize = 0;
        while n < tokens.len() && !matches!(tokens[n], Token::EOF)
            invariant
                n <= tokens.len(),
                all == tokens_view(tokens@),
                count_until_eof(all, 0) == n + count_until_eof(all, n as int),
                forall|i: int| 0 <= i < n ==> tokens[i]@ != TokenView::EOF,
            decreases tokens.len() - n,
        {
            n += 1;
        }
        tokens.truncate(n);
        let l = Lexer { tokens, failure: None, position: 0 };
        assert(l.remaining().tokens =~= until_eof(all));
        l
    }

    /// The next token. After the last token, the failure of the lexer if it
    /// has failed, and `EOF` otherwise, at every call.
    pub fn next_token(&mut self) -> (r: Result<Token, LexError>)
        requires
            old(self).wf(),
        ensures
            final(self).wf(),
            final(self).remaining().failure == old(self).remaining().failure,
            old(self).remaining().tokens.len() > 0 ==> {
                &&& r matches Ok(t)
                &&& t@ == old(self).remaining().tokens[0]
                &&& final(self).remaining().tokens == old(self).remaining().tokens.skip(1)
            },
            old(self).remaining().tokens.len() == 0 ==> {
                &&& final(self).remaining() == old(self).remaining()
                &&& match old(self).remaining().failure {
                    Some(e) => r == Err::<Token, LexError>(e),
                    None => r matches Ok(t) && t@ == TokenView::EOF,
                }
            },
    {
        if self.position < self.tokens.len() {
            let t = self.tokens[self.position].clone();
            self.position += 1;
            assert(self.remaining().tokens =~= old(self).remaining().tokens.skip(1));
            Ok(t)
        } else {
            match self.failure {
                Some(e) => Err(e),
                None => Ok(Token::EOF),
            }
        }
    }
}

} // verus!
