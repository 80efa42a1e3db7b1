//! What the parser reads.
//!
//! ```text
//! cddl        = *rule EOF
//! rule        = IDENT [genericparm] ("=" / "/=" / "//=") type
//! genericparm = "<" IDENT *("," IDENT) ">"
//! genericarg  = "<" type1 *("," type1) ">"
//! type        = type1 *("/" type1)
//! type1       = RANGE / type2
//! type2       = VALUE / name / "(" type ")" / "{" group "}" / "[" group "]"
//!             / "~" name / "&" "(" group ")" / "&" name
//! name        = IDENT [genericarg]
//! group       = grpchoice *("//" grpchoice)
//! grpchoice   = *(grpent [","])
//! grpent      = [occur] "(" group ")"
//!             / [occur] IDENT ":" type
//!             / [occur] VALUE ":" type
//!             / [occur] type1 ["^"] "=>" type
//!             / [occur] name
//!             / [occur] type
//! occur       = "?" / "+" / "*" [UINT] / UINT "*" [UINT]
//! ```
//!
//! Where two forms of `grpent` fit, the earlier one is taken. A rule whose
//! right-hand side starts with `(` would bind a group; such rules are
//! recognised and refused with [`ParseError::Unimplemented`].
//!
//! For each nonterminal there is a function of a [`TokenStream`] and a
//! position in it. It gives the tree that is read from that position on and
//! the number of tokens that the tree spans, or the error that ends the
//! parse.
use crate::ast::{
    Assignment, CDDLView, GenericArgView, GenericArgsView, GenericParamView, GenericParamsView,
    GroupChoiceView, GroupEntryView, GroupView, IdentifierView, MemberKeyView, Occur,
    OccurrenceView, OperatorView, RangeCtlOpView, RuleView, Type1View, Type2View, TypeChoiceView,
    TypeGroupnameEntryView, TypeRuleView, TypeView, ValueMemberKeyEntryView,
};
use crate::lexer::{LexError, TokenStream};
use crate::token::{ByteValueView, TokenKind, TokenView, ValueView};
use vstd::prelude::*;

verus! {

/// Why a token stream is not a schema.
#[derive(Debug, Clone, Copy, PartialEq, Eq, Structural)]
pub enum ParseError {
    /// The lexer failed before the parser had the tokens it needed.
    Lex { error: LexError },
    /// The token at `position` is not of the one kind that can stand there.
    UnexpectedToken { position: usize, expected: TokenKind, found: TokenKind },
    /// The token at `position` cannot stand in a list of generic parameters
    /// or arguments.
    IllegalToken { position: usize, found: TokenKind },
    /// The token at `position` should be `=`, `/=` or `//=`.
    ExpectedAssignment { position: usize, found: TokenKind },
    /// The token at `position` starts no basic type.
    UnrecognizedType2 { position: usize, found: TokenKind },
    /// The rule whose right-hand side starts at `position` binds a group in
    /// parentheses, which this parser does not read.
    Unimplemented { position: usize },
}

/// What was read: a tree, and the number of tokens that it spans.
pub ghost struct Parsed<T> {
    pub value: T,
    pub len: nat,
}

/// The outcome of reading a tree of type `T`.
pub type Outcome<T> = Result<Parsed<T>, ParseError>;

/// How many tokens stand at `pos` and after it.
pub open spec fn tokens_left(s: TokenStream, pos: int) -> nat {
    if pos < s.tokens.len() {
        (s.tokens.len() - pos) as nat
    } else {
        0
    }
}

/// Whether the parser fails when it moves on from position `pos`: it then
/// asks the lexer for the token two places further, and the lexer has failed
/// and has none.
pub open spec fn pull_fails(s: TokenStream, pos: int) -> bool {
    s.failure is Some && pos + 2 >= s.tokens.len()
}

/// The error of a parser whose lexer has failed.
pub open spec fn lex_error(s: TokenStream) -> ParseError {
    ParseError::Lex { error: s.failure->0 }
}

/// A tree that was read from no token.
pub open spec fn done<T>(value: T) -> Outcome<T> {
    Ok(Parsed { value, len: 0 })
}

/// An outcome whose tree spans `n` tokens more: those that were read in
/// front of it.
pub open spec fn after<T>(n: int, o: Outcome<T>) -> Outcome<T> {
    match o {
        Ok(p) => Ok(Parsed { value: p.value, len: (n + p.len) as nat }),
        Err(e) => Err(e),
    }
}

/// Moving on from the token at `pos` and then reading `then`: the failure of
/// the lexer if that ends the move, else `then` with one token more.
pub open spec fn advance<T>(s: TokenStream, pos: int, then: Outcome<T>) -> Outcome<T> {
    if pull_fails(s, pos) {
        Err(lex_error(s))
    } else {
        after(1, then)
    }
}

/// Reading a token of kind `kind` at `pos`, and then `then`. The end of the
/// input is read without moving on.
pub open spec fn expect<T>(s: TokenStream, pos: int, kind: TokenKind, then: Outcome<T>) -> Outcome<
    T,
> {
    if s.at(pos).kind() == kind {
        if kind == TokenKind::EOF {
            then
        } else {
            advance(s, pos, then)
        }
    } else {
        Err(
            ParseError::UnexpectedToken {
                position: pos as usize,
                expected: kind,
                found: s.at(pos).kind(),
            },
        )
    }
}

/// The name that the token at `pos` holds.
pub open spec fn identifier_at(name: Seq<char>, pos: int) -> IdentifierView {
    IdentifierView { ident: name, position: pos as usize }
}

/// The basic type that a literal stands for.
pub open spec fn type2_of_value(v: ValueView) -> Type2View {
    match v {
        ValueView::INT(value) => Type2View::IntValue { value },
        ValueView::UINT(value) => Type2View::UintValue { value },
        ValueView::FLOAT(value) => Type2View::FloatValue { value },
        ValueView::TEXT(value) => Type2View::TextValue { value },
        ValueView::BYTE(ByteValueView::UTF8(value)) => Type2View::UTF8ByteString { value },
        ValueView::BYTE(ByteValueView::B16(value)) => Type2View::B16ByteString { value },
        ValueView::BYTE(ByteValueView::B64(value)) => Type2View::B64ByteString { value },
    }
}

/// The `Type1` that a range token stands for: the lower bound, with the range
/// operator and the upper bound.
pub open spec fn type1_of_range(
    lower: ValueView,
    upper: ValueView,
    is_inclusive: bool,
) -> Type1View {
    Type1View {
        type2: type2_of_value(lower),
        operator: Some(
            OperatorView {
                operator: RangeCtlOpView::RangeOp { is_inclusive },
                type2: type2_of_value(upper),
            },
        ),
    }
}

/// A name with the generic arguments that follow it.
pub ghost struct NameView {
    pub ident: IdentifierView,
    pub generic_args: Option<GenericArgsView>,
}

/// A name at `pos`, with its generic arguments if `<` follows it.
#[verifier::opaque]
pub open spec fn parse_name(s: TokenStream, pos: int) -> Outcome<NameView>
    decreases tokens_left(s, pos), 0nat,
{
    match s.at(pos) {
        TokenView::IDENT(name) => if s.at(pos + 1) is LANGLEBRACKET {
            advance(
                s,
                pos,
                match parse_genericarg(s, pos + 1) {
                    Ok(args) => Ok(
                        Parsed {
                            value: NameView {
                                ident: identifier_at(name, pos),
                                generic_args: Some(args.value),
                            },
                            len: args.len,
                        },
                    ),
                    Err(e) => Err(e),
                },
            )
        } else {
            advance(
                s,
                pos,
                done(NameView { ident: identifier_at(name, pos), generic_args: None }),
            )
        },
        other => Err(
            ParseError::UnexpectedToken {
                position: pos as usize,
                expected: TokenKind::IDENT,
                found: other.kind(),
            },
        ),
    }
}

/// A group at `pos` and the closing bracket of kind `close` behind it.
#[verifier::opaque]
pub open spec fn parse_group_in(s: TokenStream, pos: int, close: TokenKind) -> Outcome<GroupView>
    decreases tokens_left(s, pos), 10nat,
{
    match parse_group(s, pos) {
        Err(e) => Err(e),
        Ok(g) => after(g.len as int, expect(s, pos + g.len, close, done(g.value))),
    }
}

/// A basic type at `pos`.
#[verifier::opaque]
pub open spec fn parse_type2(s: TokenStream, pos: int) -> Outcome<Type2View>
    decreases tokens_left(s, pos), 1nat,
{
    match s.at(pos) {
        TokenView::VALUE(v) => advance(s, pos, done(type2_of_value(v))),
        TokenView::IDENT(_) => match parse_name(s, pos) {
            Ok(n) => Ok(
                Parsed {
                    value: Type2View::Typename {
                        ident: n.value.ident,
                        generic_args: n.value.generic_args,
                    },
                    len: n.len,
                },
            ),
            Err(e) => Err(e),
        },
        TokenView::LPAREN => advance(
            s,
            pos,
            match parse_type(s, pos + 1) {
                Err(e) => Err(e),
                Ok(pt) => after(
                    pt.len as int,
                    expect(
                        s,
                        pos + 1 + pt.len,
                        TokenKind::RPAREN,
                        done(Type2View::ParenthesizedType { pt: pt.value }),
                    ),
                ),
            },
        ),
        TokenView::LBRACE => advance(
            s,
            pos,
            match parse_group_in(s, pos + 1, TokenKind::RBRACE) {
                Ok(g) => Ok(Parsed { value: Type2View::MapType { group: g.value }, len: g.len }),
                Err(e) => Err(e),
            },
        ),
        TokenView::LBRACKET => advance(
            s,
            pos,
            match parse_group_in(s, pos + 1, TokenKind::RBRACKET) {
                Ok(g) => Ok(Parsed { value: Type2View::Array { group: g.value }, len: g.len }),
                Err(e) => Err(e),
            },
        ),
        TokenView::UNWRAP => advance(
            s,
            pos,
            match parse_name(s, pos + 1) {
                Ok(n) => Ok(
                    Parsed {
                        value: Type2View::Unwrap {
                            ident: n.value.ident,
                            generic_args: n.value.generic_args,
                        },
                        len: n.len,
                    },
                ),
                Err(e) => Err(e),
            },
        ),
        TokenView::GTOCHOICE => advance(
            s,
            pos,
            if s.at(pos + 1) is LPAREN {
                advance(
                    s,
                    pos + 1,
                    match parse_group_in(s, pos + 2, TokenKind::RPAREN) {
                        Ok(g) => Ok(
                            Parsed {
                                value: Type2View::ChoiceFromInlineGroup { group: g.value },
                                len: g.len,
                            },
                        ),
                        Err(e) => Err(e),
                    },
                )
            } else {
                match parse_name(s, pos + 1) {
                    Ok(n) => Ok(
                        Parsed {
                            value: Type2View::ChoiceFromGroup {
                                ident: n.value.ident,
                                generic_args: n.value.generic_args,
                            },
                            len: n.len,
                        },
                    ),
                    Err(e) => Err(e),
                }
            },
        ),
        other => Err(
            ParseError::UnrecognizedType2 { position: pos as usize, found: other.kind() },
        ),
    }
}

/// A `Type1` at `pos`: a range token, or a basic type.
#[verifier::opaque]
pub open spec fn parse_type1(s: TokenStream, pos: int) -> Outcome<Type1View>
    decreases tokens_left(s, pos), 2nat,
{
    match s.at(pos) {
        TokenView::RANGE { lower, upper, is_inclusive } => advance(
            s,
            pos,
            done(type1_of_range(lower, upper, is_inclusive)),
        ),
        _ => match parse_type2(s, pos) {
            Ok(t2) => {
                Ok(Parsed { value: Type1View { type2: t2.value, operator: None }, len: t2.len })
            },
            Err(e) => Err(e),
        },
    }
}

/// A list of generic arguments at `pos`: `<`, one or more `Type1` separated
/// by commas, `>`.
#[verifier::opaque]
pub open spec fn parse_genericarg(s: TokenStream, pos: int) -> Outcome<GenericArgsView>
    decreases tokens_left(s, pos), 4nat,
{
    expect(s, pos, TokenKind::LANGLEBRACKET, parse_genericarg_items(s, pos + 1, Seq::empty()))
}

/// The rest of a list of generic arguments, from the argument at `pos` on,
/// where the arguments `before` were read already.
#[verifier::opaque]
pub open spec fn parse_genericarg_items(
    s: TokenStream,
    pos: int,
    before: Seq<GenericArgView>,
) -> Outcome<GenericArgsView>
    decreases tokens_left(s, pos), 3nat,
{
    match parse_type1(s, pos) {
        Err(e) => Err(e),
        Ok(arg) => {
            let args = before.push(GenericArgView { arg: arg.value });
            let end = pos + arg.len;
            after(
                arg.len as int,
                match s.at(end) {
                    TokenView::COMMA => advance(s, end, parse_genericarg_items(s, end + 1, args)),
                    TokenView::RANGLEBRACKET => advance(s, end, done(GenericArgsView { args })),
                    other => Err(
                        ParseError::IllegalToken { position: end as usize, found: other.kind() },
                    ),
                },
            )
        },
    }
}

/// A list of generic parameters at `pos`: `<`, one or more names separated by
/// commas, `>`.
#[verifier::opaque]
pub open spec fn parse_genericparm(s: TokenStream, pos: int) -> Outcome<GenericParamsView> {
    expect(s, pos, TokenKind::LANGLEBRACKET, parse_genericparm_items(s, pos + 1, Seq::empty()))
}

/// The rest of a list of generic parameters, from the name at `pos` on, where
/// the parameters `before` were read already.
#[verifier::opaque]
pub open spec fn parse_genericparm_items(
    s: TokenStream,
    pos: int,
    before: Seq<GenericParamView>,
) -> Outcome<GenericParamsView>
    decreases tokens_left(s, pos),
{
    match s.at(pos) {
        TokenView::IDENT(name) => {
            let params = before.push(GenericParamView { param: identifier_at(name, pos) });
            advance(
                s,
                pos,
                match s.at(pos + 1) {
                    TokenView::COMMA => advance(
                        s,
                        pos + 1,
                        parse_genericparm_items(s, pos + 2, params),
                    ),
                    TokenView::RANGLEBRACKET => advance(
                        s,
                        pos + 1,
                        done(GenericParamsView { params }),
                    ),
                    other => Err(
                        ParseError::IllegalToken {
                            position: (pos + 1) as usize,
                            found: other.kind(),
                        },
                    ),
                },
            )
        },
        other => Err(ParseError::IllegalToken { position: pos as usize, found: other.kind() }),
    }
}

/// A type at `pos`: one or more `Type1` separated by `/`.
#[verifier::opaque]
pub open spec fn parse_type(s: TokenStream, pos: int) -> Outcome<TypeView>
    decreases tokens_left(s, pos), 4nat,
{
    match parse_type1(s, pos) {
        Err(e) => Err(e),
        Ok(first) => after(
            first.len as int,
            parse_type_choices(s, pos + first.len, seq![TypeChoiceView { type1: first.value }]),
        ),
    }
}

/// The rest of a type, from the `/` at `pos` on if there is one, where the
/// choices `before` were read already.
#[verifier::opaque]
pub open spec fn parse_type_choices(
    s: TokenStream,
    pos: int,
    before: Seq<TypeChoiceView>,
) -> Outcome<TypeView>
    decreases tokens_left(s, pos), 3nat,
{
    if s.at(pos) is TCHOICE {
        advance(
            s,
            pos,
            match parse_type1(s, pos + 1) {
                Err(e) => Err(e),
                Ok(next) => after(
                    next.len as int,
                    parse_type_choices(
                        s,
                        pos + 1 + next.len,
                        before.push(TypeChoiceView { type1: next.value }),
                    ),
                ),
            },
        )
    } else {
        done(TypeView { type_choices: before })
    }
}

/// A group at `pos`: one or more choices separated by `//`.
#[verifier::opaque]
pub open spec fn parse_group(s: TokenStream, pos: int) -> Outcome<GroupView>
    decreases tokens_left(s, pos), 9nat,
{
    match parse_group_choice(s, pos, Seq::empty()) {
        Err(e) => Err(e),
        Ok(first) => after(
            first.len as int,
            parse_group_choices(s, pos + first.len, seq![first.value]),
        ),
    }
}

/// The rest of a group, from the `//` at `pos` on if there is one, where the
/// choices `before` were read already.
#[verifier::opaque]
pub open spec fn parse_group_choices(
    s: TokenStream,
    pos: int,
    before: Seq<GroupChoiceView>,
) -> Outcome<GroupView>
    decreases tokens_left(s, pos), 8nat,
{
    if s.at(pos) is GCHOICE {
        advance(
            s,
            pos,
            match parse_group_choice(s, pos + 1, Seq::empty()) {
                Err(e) => Err(e),
                Ok(next) => after(
                    next.len as int,
                    parse_group_choices(s, pos + 1 + next.len, before.push(next.value)),
                ),
            },
        )
    } else {
        done(GroupView { group_choices: before })
    }
}

/// Whether the token `t` ends a group choice: a closing bracket, `//`, or the
/// end of the input.
pub open spec fn ends_group_choice(t: TokenView) -> bool {
    t is RPAREN || t is RBRACE || t is RBRACKET || t is GCHOICE || t is EOF
}

/// A group choice from `pos` on: entries, each with a comma behind it or
/// without, up to the token that ends the choice, where the entries `before`
/// were read already.
///
/// An entry spans at least one token ([`lemma_group_entry_spans_a_token`]),
/// so the branch for an entry without tokens is never taken.
#[verifier::opaque]
pub open spec fn parse_group_choice(
    s: TokenStream,
    pos: int,
    before: Seq<(GroupEntryView, bool)>,
) -> Outcome<GroupChoiceView>
    decreases tokens_left(s, pos), 7nat,
{
    if ends_group_choice(s.at(pos)) {
        done(GroupChoiceView { group_entries: before })
    } else {
        match parse_group_entry(s, pos) {
            Err(e) => Err(e),
            Ok(entry) => {
                let end = pos + entry.len;
                if entry.len == 0 {
                    Err(
                        ParseError::IllegalToken {
                            position: pos as usize,
                            found: s.at(pos).kind(),
                        },
                    )
                } else if s.at(end) is COMMA {
                    after(
                        entry.len as int,
                        advance(
                            s,
                            end,
                            parse_group_choice(s, end + 1, before.push((entry.value, true))),
                        ),
                    )
                } else {
                    after(
                        entry.len as int,
                        parse_group_choice(s, end, before.push((entry.value, false))),
                    )
                }
            },
        }
    }
}

/// The occurrence indicator at `pos`, if there is one. A number is an
/// indicator only with `*` behind it, and the number behind `*` belongs to
/// the indicator.
#[verifier::opaque]
pub open spec fn parse_occurrence(s: TokenStream, pos: int) -> Outcome<Option<OccurrenceView>> {
    match s.at(pos) {
        TokenView::OPTIONAL => advance(
            s,
            pos,
            done(Some(OccurrenceView { occur: Occur::Optional })),
        ),
        TokenView::ONEORMORE => advance(
            s,
            pos,
            done(Some(OccurrenceView { occur: Occur::OneOrMore })),
        ),
        TokenView::ASTERISK => advance(
            s,
            pos,
            match s.at(pos + 1) {
                TokenView::VALUE(ValueView::UINT(upper)) => advance(
                    s,
                    pos + 1,
                    done(
                        Some(
                            OccurrenceView {
                                occur: Occur::Exact { lower: None, upper: Some(upper) },
                            },
                        ),
                    ),
                ),
                _ => done(Some(OccurrenceView { occur: Occur::ZeroOrMore })),
            },
        ),
        TokenView::VALUE(ValueView::UINT(lower)) => if s.at(pos + 1) is ASTERISK {
            advance(
                s,
                pos,
                advance(
                    s,
                    pos + 1,
                    match s.at(pos + 2) {
                        TokenView::VALUE(ValueView::UINT(upper)) => advance(
                            s,
                            pos + 2,
                            done(
                                Some(
                                    OccurrenceView {
                                        occur: Occur::Exact {
                                            lower: Some(lower),
                                            upper: Some(upper),
                                        },
                                    },
                                ),
                            ),
                        ),
                        _ => done(
                            Some(
                                OccurrenceView {
                                    occur: Occur::Exact { lower: Some(lower), upper: None },
                                },
                            ),
                        ),
                    },
                ),
            )
        } else {
            done(None)
        },
        _ => done(None),
    }
}

/// The entry with the occurrence `occur`, the key `member_key` and the type
/// that `entry_type` read.
pub open spec fn keyed_entry(
    occur: Option<OccurrenceView>,
    member_key: Option<MemberKeyView>,
    entry_type: Outcome<TypeView>,
) -> Outcome<GroupEntryView> {
    match entry_type {
        Ok(t) => Ok(
            Parsed {
                value: GroupEntryView::ValueMemberKey {
                    ge: ValueMemberKeyEntryView { occur, member_key, entry_type: t.value },
                },
                len: t.len,
            },
        ),
        Err(e) => Err(e),
    }
}

/// The entry that is made of the occurrence `occur` and the `Type1` `t1`
/// alone: a reference by name if `t1` is nothing but a name, and a type
/// without key that has `t1` as its one choice otherwise.
pub open spec fn plain_entry(occur: Option<OccurrenceView>, t1: Type1View) -> GroupEntryView {
    match t1 {
        Type1View { type2: Type2View::Typename { ident, generic_args }, operator: None } => {
            GroupEntryView::TypeGroupname {
                ge: TypeGroupnameEntryView { occur, name: ident, generic_args },
            }
        },
        _ => GroupEntryView::ValueMemberKey {
            ge: ValueMemberKeyEntryView {
                occur,
                member_key: None,
                entry_type: TypeView { type_choices: seq![TypeChoiceView { type1: t1 }] },
            },
        },
    }
}

/// A group entry at `pos`: an occurrence indicator if there is one, and then
/// a group in parentheses, a key with a type, a name, or a type.
#[verifier::opaque]
pub open spec fn parse_group_entry(s: TokenStream, pos: int) -> Outcome<GroupEntryView>
    decreases tokens_left(s, pos), 6nat,
{
    match parse_occurrence(s, pos) {
        Err(e) => Err(e),
        Ok(occurrence) => after(
            occurrence.len as int,
            parse_group_entry_body(s, pos + occurrence.len, occurrence.value),
        ),
    }
}

/// A group entry from `pos` on, behind its occurrence indicator `occur`.
#[verifier::opaque]
pub open spec fn parse_group_entry_body(
    s: TokenStream,
    pos: int,
    occur: Option<OccurrenceView>,
) -> Outcome<GroupEntryView>
    decreases tokens_left(s, pos), 5nat,
{
    match s.at(pos) {
        TokenView::LPAREN => advance(
            s,
            pos,
            match parse_group_in(s, pos + 1, TokenKind::RPAREN) {
                Ok(g) => Ok(
                    Parsed {
                        value: GroupEntryView::InlineGroup { occur, group: g.value },
                        len: g.len,
                    },
                ),
                Err(e) => Err(e),
            },
        ),
        first => if s.at(pos + 1) is COLON && first is IDENT {
            advance(
                s,
                pos,
                advance(
                    s,
                    pos + 1,
                    keyed_entry(
                        occur,
                        Some(
                            MemberKeyView::Bareword { ident: identifier_at(first->IDENT_0, pos) },
                        ),
                        parse_type(s, pos + 2),
                    ),
                ),
            )
        } else if s.at(pos + 1) is COLON && first is VALUE {
            advance(
                s,
                pos,
                advance(
                    s,
                    pos + 1,
                    keyed_entry(
                        occur,
                        Some(MemberKeyView::Value { value: first->VALUE_0 }),
                        parse_type(s, pos + 2),
                    ),
                ),
            )
        } else {
            match parse_type1(s, pos) {
                Err(e) => Err(e),
                Ok(t1) => {
                    let end = pos + t1.len;
                    after(
                        t1.len as int,
                        match s.at(end) {
                            TokenView::CUT => advance(
                                s,
                                end,
                                expect(
                                    s,
                                    end + 1,
                                    TokenKind::ARROWMAP,
                                    keyed_entry(
                                        occur,
                                        Some(MemberKeyView::Type1 { t1: t1.value, is_cut: true }),
                                        parse_type(s, end + 2),
                                    ),
                                ),
                            ),
                            TokenView::ARROWMAP => advance(
                                s,
                                end,
                                keyed_entry(
                                    occur,
                                    Some(MemberKeyView::Type1 { t1: t1.value, is_cut: false }),
                                    parse_type(s, end + 1),
                                ),
                            ),
                            TokenView::TCHOICE => keyed_entry(
                                occur,
                                None,
                                parse_type_choices(
                                    s,
                                    end,
                                    seq![TypeChoiceView { type1: t1.value }],
                                ),
                            ),
                            _ => done(plain_entry(occur, t1.value)),
                        },
                    )
                },
            }
        },
    }
}

/// What the assignment token `t` says of a rule, if `t` is one.
pub open spec fn assignment_of(t: TokenView) -> Option<Assignment> {
    match t {
        TokenView::ASSIGN => Some(Assignment::Define),
        TokenView::TCHOICEALT => Some(Assignment::TypeChoiceAlternate),
        TokenView::GCHOICEALT => Some(Assignment::GroupChoiceAlternate),
        _ => None,
    }
}

/// A rule at `pos`: a name, generic parameters if `<` follows the name, an
/// assignment token, and a type.
#[verifier::opaque]
pub open spec fn parse_rule(s: TokenStream, pos: int) -> Outcome<RuleView> {
    match s.at(pos) {
        TokenView::IDENT(name) => {
            if s.at(pos + 1) is LANGLEBRACKET {
                advance(
                    s,
                    pos,
                    match parse_genericparm(s, pos + 1) {
                        Err(e) => Err(e),
                        Ok(gp) => after(
                            gp.len as int,
                            parse_rule_body(
                                s,
                                identifier_at(name, pos),
                                Some(gp.value),
                                pos + 1 + gp.len,
                            ),
                        ),
                    },
                )
            } else if assignment_of(s.at(pos + 1)) is None {
                Err(
                    ParseError::ExpectedAssignment {
                        position: (pos + 1) as usize,
                        found: s.at(pos + 1).kind(),
                    },
                )
            } else {
                advance(s, pos, parse_rule_body(s, identifier_at(name, pos), None, pos + 1))
            }
        },
        other => Err(
            ParseError::UnexpectedToken {
                position: pos as usize,
                expected: TokenKind::IDENT,
                found: other.kind(),
            },
        ),
    }
}

/// The rule with the name `name` and the generic parameters `generic_params`,
/// from its assignment token at `pos` on.
#[verifier::opaque]
pub open spec fn parse_rule_body(
    s: TokenStream,
    name: IdentifierView,
    generic_params: Option<GenericParamsView>,
    pos: int,
) -> Outcome<RuleView> {
    match assignment_of(s.at(pos)) {
        None => Err(
            ParseError::ExpectedAssignment { position: pos as usize, found: s.at(pos).kind() },
        ),
        Some(assign) => advance(
            s,
            pos,
            if s.at(pos + 1) is LPAREN {
                Err(ParseError::Unimplemented { position: (pos + 1) as usize })
            } else {
                match parse_type(s, pos + 1) {
                    Err(e) => Err(e),
                    Ok(value) => Ok(
                        Parsed {
                            value: RuleView::Type {
                                rule: TypeRuleView {
                                    name,
                                    generic_params,
                                    assign,
                                    value: value.value,
                                },
                            },
                            len: value.len,
                        },
                    ),
                }
            },
        ),
    }
}

/// The errors that the parser notes down while it reads a rule at `pos`,
/// beside the one that it returns: where neither `<` nor an assignment token
/// follows the name of the rule, that the last assignment token that was
/// tried was not found.
pub open spec fn rule_notes(s: TokenStream, pos: int) -> Seq<ParseError> {
    if s.at(pos) is IDENT && !(s.at(pos + 1) is LANGLEBRACKET) && assignment_of(s.at(pos + 1))
        is None {
        seq![
            ParseError::UnexpectedToken {
                position: (pos + 1) as usize,
                expected: TokenKind::GCHOICEALT,
                found: s.at(pos + 1).kind(),
            },
        ]
    } else {
        Seq::empty()
    }
}

/// A schema from `pos` on: rules up to the end of the input, where the rules
/// `before` were read already.
#[verifier::opaque]
pub open spec fn parse_rules(s: TokenStream, pos: int, before: Seq<RuleView>) -> Outcome<CDDLView>
    decreases tokens_left(s, pos),
{
    if s.at(pos) is EOF {
        done(CDDLView { rules: before })
    } else {
        proof {
            lemma_rule_spans_tokens(s, pos);
        }
        match parse_rule(s, pos) {
            Err(e) => Err(e),
            Ok(rule) => after(
                rule.len as int,
                parse_rules(s, pos + rule.len, before.push(rule.value)),
            ),
        }
    }
}

/// A schema at `pos`: rules up to the end of the input.
pub open spec fn parse_cddl(s: TokenStream, pos: int) -> Outcome<CDDLView> {
    parse_rules(s, pos, Seq::empty())
}

/// The errors that the parser notes down while it reads a schema at `pos`,
/// beside the one that it returns: those of the rule that failed.
#[verifier::opaque]
pub open spec fn cddl_notes(s: TokenStream, pos: int) -> Seq<ParseError>
    decreases tokens_left(s, pos),
{
    if s.at(pos) is EOF {
        Seq::empty()
    } else {
        proof {
            lemma_rule_spans_tokens(s, pos);
        }
        match parse_rule(s, pos) {
            Err(e) => rule_notes(s, pos),
            Ok(rule) => cddl_notes(s, pos + rule.len),
        }
    }
}

/// What parsing makes of a token stream: the schema, or every error that was
/// met, the one that ended the parse last.
pub open spec fn parse_stream(s: TokenStream) -> Result<CDDLView, Seq<ParseError>> {
    if s.failure is Some && s.tokens.len() < 2 {
        Err(seq![lex_error(s)])
    } else {
        match parse_cddl(s, 0) {
            Ok(p) => Ok(p.value),
            Err(e) => Err(cddl_notes(s, 0).push(e)),
        }
    }
}

/// A basic type spans at least one token.
pub proof fn lemma_type2_spans_a_token(s: TokenStream, pos: int)
    ensures
        parse_type2(s, pos) matches Ok(p) ==> p.len >= 1,
{
    reveal(parse_type2);
    reveal(parse_name);
}

/// A `Type1` spans at least one token.
pub proof fn lemma_type1_spans_a_token(s: TokenStream, pos: int)
    ensures
        parse_type1(s, pos) matches Ok(p) ==> p.len >= 1,
{
    reveal(parse_type1);
    lemma_type2_spans_a_token(s, pos);
}

/// A group entry spans at least one token.
pub proof fn lemma_group_entry_spans_a_token(s: TokenStream, pos: int)
    ensures
        parse_group_entry(s, pos) matches Ok(p) ==> p.len >= 1,
{
    reveal(parse_group_entry);
    reveal(parse_group_entry_body);
    if let Ok(occurrence) = parse_occurrence(s, pos) {
        lemma_type1_spans_a_token(s, pos + occurrence.len);
    }
}

/// A rule spans at least two tokens: its name and its assignment token.
pub proof fn lemma_rule_spans_tokens(s: TokenStream, pos: int)
    ensures
        parse_rule(s, pos) matches Ok(p) ==> p.len >= 2,
{
    reveal(parse_rule);
    reveal(parse_rule_body);
}

/// A rule that is read leaves no note behind.
pub proof fn lemma_rule_without_notes(s: TokenStream, pos: int)
    ensures
        parse_rule(s, pos) is Ok ==> rule_notes(s, pos) == Seq::<ParseError>::empty(),
{
    reveal(parse_rule);
}

} // verus!
