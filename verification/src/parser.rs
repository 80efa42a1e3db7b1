//! The parser: from tokens to a syntax tree.
//!
//! A [`Parser`] reads the tokens of a [`Lexer`] by recursive descent, with one
//! function for each nonterminal of the grammar. What each of them returns is
//! stated by the function of the same name in [`crate::grammar`].
use crate::ast::{
    Assignment, GenericArg, GenericArgs, GenericArgsView, GenericParam, GenericParams, Group,
    GroupChoice, GroupEntry, Identifier, MemberKey, Occur, Occurrence, OccurrenceView, Operator,
    RangeCtlOp, Rule, Type, Type1, Type2, TypeChoice, TypeGroupnameEntry, TypeRule,
    ValueMemberKeyEntry, CDDL,
};
use crate::grammar::{
    after, cddl_notes, done, expect, lemma_group_entry_spans_a_token, lemma_rule_spans_tokens,
    lemma_rule_without_notes, lex_error, parse_cddl, parse_genericarg, parse_genericarg_items,
    parse_genericparm, parse_genericparm_items, parse_group, parse_group_choice,
    parse_group_choices, parse_group_entry, parse_group_entry_body, parse_group_in, parse_name,
    parse_occurrence, parse_rule, parse_rule_body, parse_rules, parse_stream, parse_type,
    parse_type1, parse_type2, parse_type_choices, plain_entry, pull_fails, rule_notes,
    tokens_left, type2_of_value, ParseError,
};
use crate::lexer::{Lexer, TokenStream};
use crate::scanner::lex;
use crate::token::{bytes_clone, ByteValue, Token, TokenKind, TokenView, Value};
use vstd::prelude::*;

verus! {

/// The value of generic arguments that may be missing.
pub open spec fn generic_args_view(args: Option<GenericArgs>) -> Option<GenericArgsView> {
    match args {
        Some(a) => Some(a@),
        None => None,
    }
}

/// The value of an occurrence indicator that may be missing.
pub open spec fn occurrence_view(occur: Option<Occurrence>) -> Option<OccurrenceView> {
    match occur {
        Some(o) => Some(o@),
        None => None,
    }
}

impl Type2 {
    /// The basic type that the literal `v` stands for.
    pub fn from_value(v: &Value) -> (t: Type2)
        ensures
            t@ == type2_of_value(v@),
    {
        match v {
            Value::INT(value) => Type2::IntValue { value: *value },
            Value::UINT(value) => Type2::UintValue { value: *value },
            Value::FLOAT(value) => Type2::FloatValue { value: value.clone() },
            Value::TEXT(value) => Type2::TextValue { value: value.clone() },
            Value::BYTE(ByteValue::UTF8(value)) => Type2::UTF8ByteString {
                value: bytes_clone(value),
            },
            Value::BYTE(ByteValue::B16(value)) => {
                Type2::B16ByteString { value: bytes_clone(value) }
            },
            Value::BYTE(ByteValue::B64(value)) => {
                Type2::B64ByteString { value: bytes_clone(value) }
            },
        }
    }
}

/// A recursive-descent parser over the tokens of a [`Lexer`].
///
/// The parser looks at two tokens: the current one and the one after it. It
/// counts the tokens that it has moved past, which is the position of the
/// current token in the stream; past the end of the stream it stays where it
/// is.
pub struct Parser {
    l: Lexer,
    cur_token: Token,
    peek_token: Token,
    errors: Vec<ParseError>,
    index: usize,
    source: Ghost<TokenStream>,
}

impl Parser {
    /// The tokens that the parser reads: all that its lexer had to hand out
    /// when the parser was made.
    pub closed spec fn stream(&self) -> TokenStream {
        self.source@
    }

    /// The position of the current token in the stream.
    pub closed spec fn position(&self) -> int {
        self.index as int
    }

    /// The errors that were noted down without ending the parse.
    pub closed spec fn noted(&self) -> Seq<ParseError> {
        self.errors@
    }

    /// The errors that were noted down without ending the parse.
    pub fn errors(&self) -> (r: &Vec<ParseError>)
        ensures
            r@ == self.noted(),
    {
        &self.errors
    }

    /// The parser is in order: its two tokens are those of the stream at its
    /// position, and its lexer has the rest.
    pub closed spec fn wf(&self) -> bool {
        &&& self.l.wf()
        &&& self.source@.wf()
        &&& self.index <= self.source@.tokens.len()
        &&& self.cur_token@ == self.source@.at(self.index as int)
        &&& self.peek_token@ == self.source@.at(self.index + 1)
        &&& self.l.remaining().failure == self.source@.failure
        &&& self.l.remaining().tokens == self.source@.tokens.skip(
            if self.index + 2 <= self.source@.tokens.len() {
                self.index + 2
            } else {
                self.source@.tokens.len() as int
            },
        )
    }

    /// The position of a parser in order lies in its stream or at its end.
    pub proof fn lemma_wf(&self)
        requires
            self.wf(),
        ensures
            self.stream().wf(),
            0 <= self.position() <= self.stream().tokens.len(),
    {
    }

    /// A parser at the start of what `l` hands out. It asks for two tokens,
    /// and fails if the lexer fails on one of them.
    pub fn new(l: Lexer) -> (r: Result<Parser, ParseError>)
        requires
            l.wf(),
        ensures
            match r {
                Ok(p) => {
                    &&& !(l.remaining().failure is Some && l.remaining().tokens.len() < 2)
                    &&& p.wf()
                    &&& p.stream() == l.remaining()
                    &&& p.position() == 0
                    &&& p.noted() == Seq::<ParseError>::empty()
                },
                Err(e) => {
                    &&& l.remaining().failure is Some
                    &&& l.remaining().tokens.len() < 2
                    &&& e == lex_error(l.remaining())
                },
            },
    {
        let ghost source = l.remaining();
        proof {
            l.lemma_wf();
        }
        let mut l = l;
        let cur_token = match l.next_token() {
            Ok(t) => t,
            Err(e) => {
                return Err(ParseError::Lex { error: e });
            },
        };
        let peek_token = match l.next_token() {
            Ok(t) => t,
            Err(e) => {
                return Err(ParseError::Lex { error: e });
            },
        };
        let p = Parser {
            l,
            cur_token,
            peek_token,
            errors: Vec::new(),
            index: 0,
            source: Ghost(source),
        };
        proof {
            if source.tokens.len() >= 2 {
                assert(p.l.remaining().tokens =~= source.tokens.skip(2));
            } else {
                assert(p.l.remaining().tokens =~= source.tokens.skip(source.tokens.len() as int));
            }
        }
        Ok(p)
    }

    /// Moves on by one token: the token after the current one becomes the
    /// current one, and the lexer hands out the one after that. Where the
    /// lexer fails, nothing moves. At the end of the stream the position
    /// stays.
    pub fn next_token(&mut self) -> (r: Result<(), ParseError>)
        requires
            old(self).wf(),
        ensures
            final(self).wf(),
            final(self).stream() == old(self).stream(),
            final(self).noted() == old(self).noted(),
            pull_fails(old(self).stream(), old(self).position()) ==> {
                &&& r == Err::<(), ParseError>(lex_error(old(self).stream()))
                &&& final(self).position() == old(self).position()
            },
            !pull_fails(old(self).stream(), old(self).position()) ==> {
                &&& r is Ok
                &&& final(self).position() == if old(self).position() < old(
                    self,
                ).stream().tokens.len() {
                    old(self).position() + 1
                } else {
                    old(self).position()
                }
            },
    {
        let ghost s = self.source@;
        let ghost at_lexer: int = if self.index + 2 <= s.tokens.len() {
            self.index + 2
        } else {
            s.tokens.len() as int
        };
        match self.l.next_token() {
            Err(e) => Err(ParseError::Lex { error: e }),
            Ok(t) => {
                let at_end = matches!(self.cur_token, Token::EOF);
                core::mem::swap(&mut self.cur_token, &mut self.peek_token);
                self.peek_token = t;
                if !at_end {
                    self.index = self.index + 1;
                }
                proof {
                    if at_lexer < s.tokens.len() {
                        assert(s.tokens.skip(at_lexer).skip(1) =~= s.tokens.skip(at_lexer + 1));
                    }
                }
                Ok(())
            },
        }
    }

    /// Whether the current token is of the same kind as `t`.
    pub fn cur_token_is(&self, t: Token) -> (r: bool)
        ensures
            r == (self.cur().kind() == t@.kind()),
    {
        self.cur_token.kind() == t.kind()
    }

    /// Whether the token after the current one is of the same kind as `t`.
    pub fn peek_token_is(&self, t: &Token) -> (r: bool)
        ensures
            r == (self.peek().kind() == t@.kind()),
    {
        self.peek_token.kind() == t.kind()
    }

    /// The current token.
    pub closed spec fn cur(&self) -> TokenView {
        self.cur_token@
    }

    /// The token after the current one.
    pub closed spec fn peek(&self) -> TokenView {
        self.peek_token@
    }

    /// The two tokens of a parser in order are those of its stream at its
    /// position and at the next.
    pub proof fn lemma_lookahead(&self)
        requires
            self.wf(),
        ensures
            self.cur() == self.stream().at(self.position()),
            self.peek() == self.stream().at(self.position() + 1),
    {
    }

    /// The position of the token after the current one: at the end of the
    /// stream, the end.
    pub open spec fn peek_position(&self) -> int {
        if self.position() < self.stream().tokens.len() {
            self.position() + 1
        } else {
            self.position()
        }
    }

    /// Notes down that the token after the current one is not of the kind of
    /// `t`.
    pub fn peek_error(&mut self, t: &Token)
        requires
            old(self).wf(),
        ensures
            final(self).wf(),
            final(self).stream() == old(self).stream(),
            final(self).position() == old(self).position(),
            final(self).noted() == old(self).noted().push(
                ParseError::UnexpectedToken {
                    position: old(self).peek_position() as usize,
                    expected: t@.kind(),
                    found: old(self).peek().kind(),
                },
            ),
    {
        let position = if matches!(self.cur_token, Token::EOF) {
            self.index
        } else {
            self.index + 1
        };
        let error = ParseError::UnexpectedToken {
            position,
            expected: t.kind(),
            found: self.peek_token.kind(),
        };
        self.errors.push(error);
    }

    /// Moves on if the token after the current one is of the kind of `t`, and
    /// says so. If it is of another kind, that is noted down and nothing
    /// moves.
    pub fn expect_peek(&mut self, t: &Token) -> (r: Result<bool, ParseError>)
        requires
            old(self).wf(),
        ensures
            final(self).wf(),
            final(self).stream() == old(self).stream(),
            old(self).peek().kind() == t@.kind() ==> {
                &&& final(self).noted() == old(self).noted()
                &&& if pull_fails(old(self).stream(), old(self).position()) {
                    &&& r == Err::<bool, ParseError>(lex_error(old(self).stream()))
                    &&& final(self).position() == old(self).position()
                } else {
                    &&& r == Ok::<bool, ParseError>(true)
                    &&& final(self).position() == old(self).peek_position()
                }
            },
            old(self).peek().kind() != t@.kind() ==> {
                &&& r == Ok::<bool, ParseError>(false)
                &&& final(self).position() == old(self).position()
                &&& final(self).noted() == old(self).noted().push(
                    ParseError::UnexpectedToken {
                        position: old(self).peek_position() as usize,
                        expected: t@.kind(),
                        found: old(self).peek().kind(),
                    },
                )
            },
    {
        if self.peek_token_is(t) {
            self.next_token()?;
            return Ok(true);
        }
        self.peek_error(t);
        Ok(false)
    }

    /// Moves on if the current token is of kind `kind`, and fails otherwise.
    pub fn expect_cur(&mut self, kind: TokenKind) -> (r: Result<(), ParseError>)
        requires
            old(self).wf(),
        ensures
            final(self).wf(),
            final(self).stream() == old(self).stream(),
            final(self).noted() == old(self).noted(),
            match expect(old(self).stream(), old(self).position(), kind, done(())) {
                Ok(p) => r is Ok && final(self).position() == old(self).position() + p.len,
                Err(e) => r == Err::<(), ParseError>(e),
            },
    {
        if self.cur_token.kind() == kind {
            if kind == TokenKind::EOF {
                Ok(())
            } else {
                self.next_token()
            }
        } else {
            Err(
                ParseError::UnexpectedToken {
                    position: self.index,
                    expected: kind,
                    found: self.cur_token.kind(),
                },
            )
        }
    }

    /// Reads a name, with its generic arguments if `<` follows it.
    pub fn parse_name(&mut self) -> (r: Result<(Identifier, Option<GenericArgs>), ParseError>)
        requires
            old(self).wf(),
        ensures
            final(self).wf(),
            final(self).stream() == old(self).stream(),
            final(self).noted() == old(self).noted(),
            match parse_name(old(self).stream(), old(self).position()) {
                Ok(p) => r matches Ok((ident, generic_args)) && ident@ == p.value.ident
                    && generic_args_view(generic_args) == p.value.generic_args
                        && final(self).position() == old(self).position() + p.len,
                Err(e) => r == Err::<(Identifier, Option<GenericArgs>), ParseError>(e),
            },
        decreases tokens_left(old(self).stream(), old(self).position()), 0nat,
    {
        proof {
            reveal(parse_name);
            reveal(parse_genericarg);
        }
        match &self.cur_token {
            Token::IDENT(i) => {
                let ident = Identifier { ident: i.clone(), position: self.index };
                let generic_args = if self.peek_token_is(&Token::LANGLEBRACKET) {
                    self.next_token()?;
                    Some(self.parse_genericarg()?)
                } else {
                    self.next_token()?;
                    None
                };
                Ok((ident, generic_args))
            },
            _ => Err(
                ParseError::UnexpectedToken {
                    position: self.index,
                    expected: TokenKind::IDENT,
                    found: self.cur_token.kind(),
                },
            ),
        }
    }

    /// Reads a group and the closing bracket of kind `close` behind it.
    pub fn parse_group_in(&mut self, close: TokenKind) -> (r: Result<Group, ParseError>)
        requires
            old(self).wf(),
        ensures
            final(self).wf(),
            final(self).stream() == old(self).stream(),
            final(self).noted() == old(self).noted(),
            match parse_group_in(old(self).stream(), old(self).position(), close) {
                Ok(p) => r matches Ok(g) && g@ == p.value && final(self).position() == old(
                    self,
                ).position() + p.len,
                Err(e) => r == Err::<Group, ParseError>(e),
            },
        decreases tokens_left(old(self).stream(), old(self).position()), 10nat,
    {
        proof {
            reveal(parse_group_in);
            reveal(parse_group);
        }
        let group = self.parse_group()?;
        self.expect_cur(close)?;
        Ok(group)
    }

    /// Reads a basic type.
    #[verifier::rlimit(100)]
    pub fn parse_type2(&mut self) -> (r: Result<Type2, ParseError>)
        requires
            old(self).wf(),
        ensures
            final(self).wf(),
            final(self).stream() == old(self).stream(),
            final(self).noted() == old(self).noted(),
            match parse_type2(old(self).stream(), old(self).position()) {
                Ok(p) => r matches Ok(t2) && t2@ == p.value && final(self).position() == old(
                    self,
                ).position() + p.len,
                Err(e) => r == Err::<Type2, ParseError>(e),
            },
        decreases tokens_left(old(self).stream(), old(self).position()), 1nat,
    {
        proof {
            reveal(parse_type2);
            reveal(parse_name);
            reveal(parse_type);
            reveal(parse_group_in);
        }
        match &self.cur_token {
            Token::VALUE(value) => {
                let t2 = Type2::from_value(value);
                self.next_token()?;
                Ok(t2)
            },
            Token::IDENT(_) => {
                let (ident, generic_args) = self.parse_name()?;
                Ok(Type2::Typename { ident, generic_args })
            },
            Token::LPAREN => {
                self.next_token()?;
                let pt = self.parse_type()?;
                self.expect_cur(TokenKind::RPAREN)?;
                Ok(Type2::ParenthesizedType { pt })
            },
            Token::LBRACE => {
                self.next_token()?;
                let group = self.parse_group_in(TokenKind::RBRACE)?;
                Ok(Type2::MapType { group })
            },
            Token::LBRACKET => {
                self.next_token()?;
                let group = self.parse_group_in(TokenKind::RBRACKET)?;
                Ok(Type2::Array { group })
            },
            Token::UNWRAP => {
                self.next_token()?;
                let (ident, generic_args) = self.parse_name()?;
                Ok(Type2::Unwrap { ident, generic_args })
            },
            Token::GTOCHOICE => {
                if self.peek_token_is(&Token::LPAREN) {
                    self.next_token()?;
                    self.next_token()?;
                    let group = self.parse_group_in(TokenKind::RPAREN)?;
                    Ok(Type2::ChoiceFromInlineGroup { group })
                } else {
                    self.next_token()?;
                    let (ident, generic_args) = self.parse_name()?;
                    Ok(Type2::ChoiceFromGroup { ident, generic_args })
                }
            },
            _ => Err(
                ParseError::UnrecognizedType2 {
                    position: self.index,
                    found: self.cur_token.kind(),
                },
            ),
        }
    }

    /// Reads a `Type1`: a range token, or a basic type.
    pub fn parse_type1(&mut self) -> (r: Result<Type1, ParseError>)
        requires
            old(self).wf(),
        ensures
            final(self).wf(),
            final(self).stream() == old(self).stream(),
            final(self).noted() == old(self).noted(),
            match parse_type1(old(self).stream(), old(self).position()) {
                Ok(p) => r matches Ok(t1) && t1@ == p.value && final(self).position() == old(
                    self,
                ).position() + p.len,
                Err(e) => r == Err::<Type1, ParseError>(e),
            },
        decreases tokens_left(old(self).stream(), old(self).position()), 2nat,
    {
        proof {
            reveal(parse_type1);
            reveal(parse_type2);
        }
        match &self.cur_token {
            Token::RANGE { lower, upper, is_inclusive } => {
                let t1 = Type1 {
                    type2: Type2::from_value(lower),
                    operator: Some(
                        Operator {
                            operator: RangeCtlOp::RangeOp { is_inclusive: *is_inclusive },
                            type2: Type2::from_value(upper),
                        },
                    ),
                };
                self.next_token()?;
                Ok(t1)
            },
            _ => Ok(Type1 { type2: self.parse_type2()?, operator: None }),
        }
    }

    /// Reads a list of generic arguments: `<`, one or more `Type1` separated
    /// by commas, `>`.
    pub fn parse_genericarg(&mut self) -> (r: Result<GenericArgs, ParseError>)
        requires
            old(self).wf(),
        ensures
            final(self).wf(),
            final(self).stream() == old(self).stream(),
            final(self).noted() == old(self).noted(),
            match parse_genericarg(old(self).stream(), old(self).position()) {
                Ok(p) => r matches Ok(args) && args@ == p.value && final(self).position() == old(
                    self,
                ).position() + p.len,
                Err(e) => r == Err::<GenericArgs, ParseError>(e),
            },
        decreases tokens_left(old(self).stream(), old(self).position()), 4nat,
    {
        proof {
            reveal(parse_genericarg);
            reveal(parse_genericarg_items);
        }
        let ghost s = self.stream();
        let ghost start = self.position();
        self.expect_cur(TokenKind::LANGLEBRACKET)?;
        let mut generic_args = GenericArgs { args: Vec::new() };
        assert(generic_args@.args =~= Seq::empty());
        loop
            invariant
                self.wf(),
                self.stream() == s,
                s == old(self).stream(),
                start == old(self).position(),
                self.noted() == old(self).noted(),
                start < self.position(),
                tokens_left(s, start) > 0,
                parse_genericarg(s, start) == after(
                    self.position() - start,
                    parse_genericarg_items(s, self.position(), generic_args@.args),
                ),
            decreases tokens_left(s, self.position()),
        {
            proof {
                reveal(parse_genericarg_items);
                reveal(parse_type1);
            }
            let ghost before = generic_args@.args;
            let arg = self.parse_type1()?;
            generic_args.args.push(GenericArg { arg });
            assert(generic_args@.args =~= before.push(generic_args.args[before.len() as int]@));
            if self.cur_token_is(Token::COMMA) {
                self.next_token()?;
            } else if self.cur_token_is(Token::RANGLEBRACKET) {
                self.next_token()?;
                return Ok(generic_args);
            } else {
                return Err(
                    ParseError::IllegalToken {
                        position: self.index,
                        found: self.cur_token.kind(),
                    },
                );
            }
        }
    }

    /// Reads a list of generic parameters: `<`, one or more names separated
    /// by commas, `>`.
    pub fn parse_genericparm(&mut self) -> (r: Result<GenericParams, ParseError>)
        requires
            old(self).wf(),
        ensures
            final(self).wf(),
            final(self).stream() == old(self).stream(),
            final(self).noted() == old(self).noted(),
            match parse_genericparm(old(self).stream(), old(self).position()) {
                Ok(p) => r matches Ok(params) && params@ == p.value && final(self).position()
                    == old(self).position() + p.len,
                Err(e) => r == Err::<GenericParams, ParseError>(e),
            },
    {
        proof {
            reveal(parse_genericparm);
            reveal(parse_genericparm_items);
        }
        let ghost s = self.stream();
        let ghost start = self.position();
        self.expect_cur(TokenKind::LANGLEBRACKET)?;
        let mut generic_params = GenericParams { params: Vec::new() };
        assert(generic_params@.params =~= Seq::empty());
        loop
            invariant
                self.wf(),
                self.stream() == s,
                s == old(self).stream(),
                start == old(self).position(),
                self.noted() == old(self).noted(),
                start < self.position(),
                parse_genericparm(s, start) == after(
                    self.position() - start,
                    parse_genericparm_items(s, self.position(), generic_params@.params),
                ),
            decreases tokens_left(s, self.position()),
        {
            proof {
                reveal(parse_genericparm_items);
            }
            let ghost before = generic_params@.params;
            match &self.cur_token {
                Token::IDENT(i) => {
                    let param = Identifier { ident: i.clone(), position: self.index };
                    generic_params.params.push(GenericParam { param });
                    assert(generic_params@.params =~= before.push(
                        generic_params.params[before.len() as int]@,
                    ));
                    self.next_token()?;
                },
                _ => {
                    return Err(
                        ParseError::IllegalToken {
                            position: self.index,
                            found: self.cur_token.kind(),
                        },
                    );
                },
            }
            if self.cur_token_is(Token::COMMA) {
                self.next_token()?;
            } else if self.cur_token_is(Token::RANGLEBRACKET) {
                self.next_token()?;
                return Ok(generic_params);
            } else {
                return Err(
                    ParseError::IllegalToken {
                        position: self.index,
                        found: self.cur_token.kind(),
                    },
                );
            }
        }
    }

    /// Reads a type: one or more `Type1` separated by `/`.
    pub fn parse_type(&mut self) -> (r: Result<Type, ParseError>)
        requires
            old(self).wf(),
        ensures
            final(self).wf(),
            final(self).stream() == old(self).stream(),
            final(self).noted() == old(self).noted(),
            match parse_type(old(self).stream(), old(self).position()) {
                Ok(p) => r matches Ok(t) && t@ == p.value && final(self).position() == old(
                    self,
                ).position() + p.len,
                Err(e) => r == Err::<Type, ParseError>(e),
            },
        decreases tokens_left(old(self).stream(), old(self).position()), 4nat,
    {
        proof {
            reveal(parse_type);
            reveal(parse_type1);
            reveal(parse_type_choices);
        }
        let first = self.parse_type1()?;
        self.parse_type_choices(first)
    }

    /// Reads the rest of a type whose first choice is `first`: as many times
    /// `/` and a `Type1` as there are.
    pub fn parse_type_choices(&mut self, first: Type1) -> (r: Result<Type, ParseError>)
        requires
            old(self).wf(),
        ensures
            final(self).wf(),
            final(self).stream() == old(self).stream(),
            final(self).noted() == old(self).noted(),
            match parse_type_choices(
                old(self).stream(),
                old(self).position(),
                seq![crate::ast::TypeChoiceView { type1: first@ }],
            ) {
                Ok(p) => r matches Ok(t) && t@ == p.value && final(self).position() == old(
                    self,
                ).position() + p.len,
                Err(e) => r == Err::<Type, ParseError>(e),
            },
        decreases tokens_left(old(self).stream(), old(self).position()), 3nat,
    {
        proof {
            reveal(parse_type_choices);
        }
        let ghost s = self.stream();
        let ghost start = self.position();
        let ghost choices = seq![crate::ast::TypeChoiceView { type1: first@ }];
        let mut t = Type { type_choices: Vec::new() };
        t.type_choices.push(TypeChoice { type1: first });
        assert(t@.type_choices =~= choices);
        while self.cur_token_is(Token::TCHOICE)
            invariant
                self.wf(),
                self.stream() == s,
                s == old(self).stream(),
                start == old(self).position(),
                self.noted() == old(self).noted(),
                start <= self.position(),
                choices == seq![crate::ast::TypeChoiceView { type1: first@ }],
                parse_type_choices(s, start, choices) == after(
                    self.position() - start,
                    parse_type_choices(s, self.position(), t@.type_choices),
                ),
            decreases tokens_left(s, self.position()),
        {
            proof {
                reveal(parse_type_choices);
                reveal(parse_type1);
            }
            let ghost before = t@.type_choices;
            self.next_token()?;
            let next = self.parse_type1()?;
            t.type_choices.push(TypeChoice { type1: next });
            assert(t@.type_choices =~= before.push(t.type_choices[before.len() as int]@));
        }
        Ok(t)
    }

    /// Reads a group: one or more choices separated by `//`.
    pub fn parse_group(&mut self) -> (r: Result<Group, ParseError>)
        requires
            old(self).wf(),
        ensures
            final(self).wf(),
            final(self).stream() == old(self).stream(),
            final(self).noted() == old(self).noted(),
            match parse_group(old(self).stream(), old(self).position()) {
                Ok(p) => r matches Ok(g) && g@ == p.value && final(self).position() == old(
                    self,
                ).position() + p.len,
                Err(e) => r == Err::<Group, ParseError>(e),
            },
        decreases tokens_left(old(self).stream(), old(self).position()), 9nat,
    {
        proof {
            reveal(parse_group);
            reveal(parse_group_choices);
            reveal(parse_group_choice);
        }
        let ghost s = self.stream();
        let ghost start = self.position();
        let mut g = Group { group_choices: Vec::new() };
        let first = self.parse_group_choice()?;
        g.group_choices.push(first);
        assert(g@.group_choices =~= seq![g.group_choices[0]@]);
        while self.cur_token_is(Token::GCHOICE)
            invariant
                self.wf(),
                self.stream() == s,
                s == old(self).stream(),
                start == old(self).position(),
                self.noted() == old(self).noted(),
                start <= self.position(),
                parse_group(s, start) == after(
                    self.position() - start,
                    parse_group_choices(s, self.position(), g@.group_choices),
                ),
            decreases tokens_left(s, self.position()),
        {
            proof {
                reveal(parse_group_choices);
                reveal(parse_group_choice);
            }
            let ghost before = g@.group_choices;
            self.next_token()?;
            let next = self.parse_group_choice()?;
            g.group_choices.push(next);
            assert(g@.group_choices =~= before.push(g.group_choices[before.len() as int]@));
        }
        Ok(g)
    }

    /// Reads a group choice: entries, each with a comma behind it or without,
    /// up to a closing bracket, `//`, or the end of the input.
    pub fn parse_group_choice(&mut self) -> (r: Result<GroupChoice, ParseError>)
        requires
            old(self).wf(),
        ensures
            final(self).wf(),
            final(self).stream() == old(self).stream(),
            final(self).noted() == old(self).noted(),
            match parse_group_choice(old(self).stream(), old(self).position(), Seq::empty()) {
                Ok(p) => r matches Ok(gc) && gc@ == p.value && final(self).position() == old(
                    self,
                ).position() + p.len,
                Err(e) => r == Err::<GroupChoice, ParseError>(e),
            },
        decreases tokens_left(old(self).stream(), old(self).position()), 7nat,
    {
        proof {
            reveal(parse_group_choice);
        }
        let ghost s = self.stream();
        let ghost start = self.position();
        let mut gc = GroupChoice { group_entries: Vec::new() };
        assert(gc@.group_entries =~= Seq::empty());
        loop
            invariant
                self.wf(),
                self.stream() == s,
                s == old(self).stream(),
                start == old(self).position(),
                self.noted() == old(self).noted(),
                start <= self.position(),
                parse_group_choice(s, start, Seq::empty()) == after(
                    self.position() - start,
                    parse_group_choice(s, self.position(), gc@.group_entries),
                ),
            decreases tokens_left(s, self.position()),
        {
            proof {
                reveal(parse_group_choice);
                reveal(parse_group_entry);
            }
            let at_end = match &self.cur_token {
                Token::RPAREN | Token::RBRACE | Token::RBRACKET | Token::GCHOICE | Token::EOF => {
                    true
                },
                _ => false,
            };
            if at_end {
                return Ok(gc);
            }
            let ghost before = gc@.group_entries;
            proof {
                lemma_group_entry_spans_a_token(s, self.position());
            }
            let entry = self.parse_group_entry()?;
            let comma = self.cur_token_is(Token::COMMA);
            if comma {
                self.next_token()?;
            }
            gc.group_entries.push((entry, comma));
            assert(gc@.group_entries =~= before.push(
                (gc.group_entries[before.len() as int].0@, comma),
            ));
        }
    }

    /// Reads the occurrence indicator at the current token, if there is one.
    pub fn parse_occurrence(&mut self) -> (r: Result<Option<Occurrence>, ParseError>)
        requires
            old(self).wf(),
        ensures
            final(self).wf(),
            final(self).stream() == old(self).stream(),
            final(self).noted() == old(self).noted(),
            match parse_occurrence(old(self).stream(), old(self).position()) {
                Ok(p) => {
                    r matches Ok(o)
                        && occurrence_view(o) == p.value
                        && final(self).position() == old(self).position() + p.len
                },
                Err(e) => r == Err::<Option<Occurrence>, ParseError>(e),
            },
    {
        proof {
            reveal(parse_occurrence);
        }
        let occur = match &self.cur_token {
            Token::OPTIONAL => {
                self.next_token()?;
                Occur::Optional
            },
            Token::ONEORMORE => {
                self.next_token()?;
                Occur::OneOrMore
            },
            Token::ASTERISK => {
                self.next_token()?;
                match self.uint_at_cur() {
                    Some(upper) => {
                        self.next_token()?;
                        Occur::Exact { lower: None, upper: Some(upper) }
                    },
                    None => Occur::ZeroOrMore,
                }
            },
            Token::VALUE(Value::UINT(lower)) => {
                let lower = *lower;
                if !self.peek_token_is(&Token::ASTERISK) {
                    return Ok(None);
                }
                self.next_token()?;
                self.next_token()?;
                match self.uint_at_cur() {
                    Some(upper) => {
                        self.next_token()?;
                        Occur::Exact { lower: Some(lower), upper: Some(upper) }
                    },
                    None => Occur::Exact { lower: Some(lower), upper: None },
                }
            },
            _ => {
                return Ok(None);
            },
        };
        Ok(Some(Occurrence { occur }))
    }

    /// The number that the current token holds, if it is an unsigned integer.
    pub fn uint_at_cur(&self) -> (r: Option<u64>)
        ensures
            match self.cur() {
                TokenView::VALUE(crate::token::ValueView::UINT(n)) => r == Some(n),
                _ => r is None,
            },
    {
        match &self.cur_token {
            Token::VALUE(Value::UINT(n)) => Some(*n),
            _ => None,
        }
    }

    /// Reads a group entry: an occurrence indicator if there is one, and then
    /// a group in parentheses, a key with a type, a name, or a type.
    pub fn parse_group_entry(&mut self) -> (r: Result<GroupEntry, ParseError>)
        requires
            old(self).wf(),
        ensures
            final(self).wf(),
            final(self).stream() == old(self).stream(),
            final(self).noted() == old(self).noted(),
            match parse_group_entry(old(self).stream(), old(self).position()) {
                Ok(p) => r matches Ok(entry) && entry@ == p.value && final(self).position()
                    == old(self).position() + p.len,
                Err(e) => r == Err::<GroupEntry, ParseError>(e),
            },
        decreases tokens_left(old(self).stream(), old(self).position()), 6nat,
    {
        proof {
            reveal(parse_group_entry);
            reveal(parse_group_entry_body);
        }
        let occur = self.parse_occurrence()?;
        self.parse_group_entry_body(occur)
    }

    /// Reads a group entry behind its occurrence indicator `occur`.
    #[verifier::rlimit(100)]
    pub fn parse_group_entry_body(&mut self, occur: Option<Occurrence>) -> (r: Result<
        GroupEntry,
        ParseError,
    >)
        requires
            old(self).wf(),
        ensures
            final(self).wf(),
            final(self).stream() == old(self).stream(),
            final(self).noted() == old(self).noted(),
            match parse_group_entry_body(
                old(self).stream(),
                old(self).position(),
                occurrence_view(occur),
            ) {
                Ok(p) => r matches Ok(entry) && entry@ == p.value && final(self).position()
                    == old(self).position() + p.len,
                Err(e) => r == Err::<GroupEntry, ParseError>(e),
            },
        decreases tokens_left(old(self).stream(), old(self).position()), 5nat,
    {
        proof {
            reveal(parse_group_entry_body);
            reveal(parse_group_in);
            reveal(parse_type);
            reveal(parse_type1);
            reveal(parse_type_choices);
        }
        if self.cur_token_is(Token::LPAREN) {
            self.next_token()?;
            let group = self.parse_group_in(TokenKind::RPAREN)?;
            return Ok(GroupEntry::InlineGroup { occur, group });
        }
        if self.peek_token_is(&Token::COLON) {
            let key = match &self.cur_token {
                Token::IDENT(i) => Some(
                    MemberKey::Bareword {
                        ident: Identifier { ident: i.clone(), position: self.index },
                    },
                ),
                Token::VALUE(v) => Some(MemberKey::Value { value: v.clone() }),
                _ => None,
            };
            if key.is_some() {
                self.next_token()?;
                self.next_token()?;
                let entry_type = self.parse_type()?;
                return Ok(
                    GroupEntry::ValueMemberKey {
                        ge: ValueMemberKeyEntry { occur, member_key: key, entry_type },
                    },
                );
            }
        }
        let t1 = self.parse_type1()?;
        if self.cur_token_is(Token::CUT) {
            self.next_token()?;
            self.expect_cur(TokenKind::ARROWMAP)?;
            let entry_type = self.parse_type()?;
            Ok(
                GroupEntry::ValueMemberKey {
                    ge: ValueMemberKeyEntry {
                        occur,
                        member_key: Some(MemberKey::Type1 { t1, is_cut: true }),
                        entry_type,
                    },
                },
            )
        } else if self.cur_token_is(Token::ARROWMAP) {
            self.next_token()?;
            let entry_type = self.parse_type()?;
            Ok(
                GroupEntry::ValueMemberKey {
                    ge: ValueMemberKeyEntry {
                        occur,
                        member_key: Some(MemberKey::Type1 { t1, is_cut: false }),
                        entry_type,
                    },
                },
            )
        } else if self.cur_token_is(Token::TCHOICE) {
            let entry_type = self.parse_type_choices(t1)?;
            Ok(
                GroupEntry::ValueMemberKey {
                    ge: ValueMemberKeyEntry { occur, member_key: None, entry_type },
                },
            )
        } else {
            Ok(plain_group_entry(occur, t1))
        }
    }

    /// Reads a rule: a name, generic parameters if `<` follows the name, an
    /// assignment token, and a type. A right-hand side that starts with `(`
    /// is refused as [`ParseError::Unimplemented`].
    pub fn parse_rule(&mut self) -> (r: Result<Rule, ParseError>)
        requires
            old(self).wf(),
        ensures
            final(self).wf(),
            final(self).stream() == old(self).stream(),
            final(self).noted() == old(self).noted() + rule_notes(
                old(self).stream(),
                old(self).position(),
            ),
            match parse_rule(old(self).stream(), old(self).position()) {
                Ok(p) => r matches Ok(rule) && rule@ == p.value && final(self).position() == old(
                    self,
                ).position() + p.len,
                Err(e) => r == Err::<Rule, ParseError>(e),
            },
    {
        proof {
            reveal(parse_rule);
            reveal(parse_rule_body);
            reveal(parse_genericparm);
        }
        let ghost s = self.stream();
        let ghost start = self.position();
        let name = match &self.cur_token {
            Token::IDENT(i) => Identifier { ident: i.clone(), position: self.index },
            _ => {
                assert(self.noted() + rule_notes(s, start) =~= self.noted());
                return Err(
                    ParseError::UnexpectedToken {
                        position: self.index,
                        expected: TokenKind::IDENT,
                        found: self.cur_token.kind(),
                    },
                );
            },
        };
        let mut gp: Option<GenericParams> = None;
        if self.peek_token_is(&Token::LANGLEBRACKET) {
            assert(self.noted() + rule_notes(s, start) =~= self.noted());
            self.next_token()?;
            gp = Some(self.parse_genericparm()?);
            if !(self.cur_token_is(Token::ASSIGN) || self.cur_token_is(Token::TCHOICEALT)
                || self.cur_token_is(Token::GCHOICEALT)) {
                return Err(
                    ParseError::ExpectedAssignment {
                        position: self.index,
                        found: self.cur_token.kind(),
                    },
                );
            }
        } else {
            let found = self.peek_token.kind();
            let assigned = if self.peek_token_is(&Token::ASSIGN) || self.peek_token_is(
                &Token::TCHOICEALT,
            ) {
                assert(self.noted() + rule_notes(s, start) =~= self.noted());
                self.next_token()?;
                true
            } else {
                let ghost before = self.noted();
                let moved = self.expect_peek(&Token::GCHOICEALT)?;
                assert(before + rule_notes(s, start) =~= self.noted());
                moved
            };
            if !assigned {
                return Err(ParseError::ExpectedAssignment { position: self.index + 1, found });
            }
        }
        let assign = if self.cur_token_is(Token::TCHOICEALT) {
            Assignment::TypeChoiceAlternate
        } else if self.cur_token_is(Token::GCHOICEALT) {
            Assignment::GroupChoiceAlternate
        } else {
            Assignment::Define
        };
        self.next_token()?;
        if self.cur_token_is(Token::LPAREN) {
            return Err(ParseError::Unimplemented { position: self.index });
        }
        let value = self.parse_type()?;
        Ok(Rule::Type { rule: TypeRule { name, generic_params: gp, assign, value } })
    }

    /// Reads a schema: rules up to the end of the input.
    pub fn parse_cddl(&mut self) -> (r: Result<CDDL, ParseError>)
        requires
            old(self).wf(),
        ensures
            final(self).wf(),
            final(self).stream() == old(self).stream(),
            final(self).noted() == old(self).noted() + cddl_notes(
                old(self).stream(),
                old(self).position(),
            ),
            match parse_cddl(old(self).stream(), old(self).position()) {
                Ok(p) => r matches Ok(c) && c@ == p.value && final(self).position() == old(
                    self,
                ).position() + p.len,
                Err(e) => r == Err::<CDDL, ParseError>(e),
            },
    {
        proof {
            reveal(parse_rules);
            reveal(cddl_notes);
        }
        let ghost s = self.stream();
        let ghost start = self.position();
        let mut c = CDDL { rules: Vec::new() };
        assert(c@.rules =~= Seq::empty());
        assert(self.noted() + Seq::<ParseError>::empty() =~= self.noted());
        while !self.cur_token_is(Token::EOF)
            invariant
                self.wf(),
                self.stream() == s,
                s == old(self).stream(),
                start == old(self).position(),
                start <= self.position(),
                old(self).noted() + cddl_notes(s, start) == self.noted() + cddl_notes(
                    s,
                    self.position(),
                ),
                parse_cddl(s, start) == after(
                    self.position() - start,
                    parse_rules(s, self.position(), c@.rules),
                ),
            decreases tokens_left(s, self.position()),
        {
            proof {
                reveal(parse_rules);
                reveal(cddl_notes);
            }
            let ghost before = c@.rules;
            let ghost noted = self.noted();
            let ghost here = self.position();
            proof {
                lemma_rule_spans_tokens(s, here);
                lemma_rule_without_notes(s, here);
            }
            let rule = self.parse_rule()?;
            assert(noted + rule_notes(s, here) =~= noted);
            c.rules.push(rule);
            assert(c@.rules =~= before.push(c.rules[before.len() as int]@));
        }
        assert(self.noted() + Seq::<ParseError>::empty() =~= self.noted());
        Ok(c)
    }

    /// Gives up the parser for the errors that it noted down.
    pub fn into_errors(self) -> (errors: Vec<ParseError>)
        ensures
            errors@ == self.noted(),
    {
        self.errors
    }
}

/// The entry that is made of the occurrence `occur` and the `Type1` `t1`
/// alone: a reference by name if `t1` is nothing but a name, and a type
/// without key that has `t1` as its one choice otherwise.
pub fn plain_group_entry(occur: Option<Occurrence>, t1: Type1) -> (entry: GroupEntry)
    ensures
        entry@ == plain_entry(occurrence_view(occur), t1@),
{
    match t1 {
        Type1 { type2: Type2::Typename { ident, generic_args }, operator: None } => {
            GroupEntry::TypeGroupname {
                ge: TypeGroupnameEntry { occur, name: ident, generic_args },
            }
        },
        other => {
            let mut type_choices = Vec::new();
            type_choices.push(TypeChoice { type1: other });
            let entry_type = Type { type_choices };
            assert(entry_type@.type_choices =~= seq![
                crate::ast::TypeChoiceView { type1: t1@ },
            ]);
            GroupEntry::ValueMemberKey {
                ge: ValueMemberKeyEntry { occur, member_key: None, entry_type },
            }
        },
    }
}

/// Reads the schema that `l` hands out, from the first token to the end of
/// the input.
pub fn parse(l: Lexer) -> (r: Result<CDDL, Vec<ParseError>>)
    requires
        l.wf(),
    ensures
        match parse_stream(l.remaining()) {
            Ok(c) => r matches Ok(cddl) && cddl@ == c,
            Err(es) => r matches Err(errors) && errors@ == es,
        },
{
    let mut p = match Parser::new(l) {
        Ok(p) => p,
        Err(e) => {
            let mut errors = Vec::new();
            errors.push(e);
            assert(errors@ =~= seq![e]);
            return Err(errors);
        },
    };
    match p.parse_cddl() {
        Ok(c) => Ok(c),
        Err(e) => {
            let mut errors = p.into_errors();
            assert(Seq::<ParseError>::empty() + cddl_notes(l.remaining(), 0) =~= cddl_notes(
                l.remaining(),
                0,
            ));
            errors.push(e);
            Err(errors)
        },
    }
}

/// Reads the schema that the text `input` holds.
pub fn cddl_from_str(input: &str) -> (r: Result<CDDL, Vec<ParseError>>)
    ensures
        match parse_stream(lex(input@)) {
            Ok(c) => r matches Ok(cddl) && cddl@ == c,
            Err(es) => r matches Err(errors) && errors@ == es,
        },
{
    parse(Lexer::new(input))
}

} // verus!
