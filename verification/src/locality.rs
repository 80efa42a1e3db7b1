//! What a parse depends on.
//!
//! Whether a tree can be read at a position, and how many tokens it spans,
//! depends on the tokens that the tree spans and on a glance at the token
//! behind them. So a rule that is read from a text on its own is read from
//! any text that holds the same tokens in some place, provided that the token
//! behind them does not carry the rule on: [`lemma_rule_is_local`]. From this
//! follows what is read from rules written one after the other:
//! [`lemma_rules_in_sequence`].
//!
//! A tree spans tokens of its stream only, and a schema spans all of them:
//! [`lemma_schema_spans_the_stream`].
use crate::ast::{
    GenericArgView, GenericParamView, GroupChoiceView, GroupEntryView, OccurrenceView, RuleView,
    TypeChoiceView,
};
use crate::grammar::{
    lemma_rule_spans_tokens, lemma_type1_spans_a_token, parse_cddl, parse_genericarg,
    parse_genericarg_items, parse_genericparm, parse_genericparm_items, parse_group,
    parse_group_choice, parse_group_choices, parse_group_entry, parse_group_entry_body,
    parse_group_in, parse_name, parse_occurrence, parse_rule, parse_rule_body, parse_rules,
    parse_stream, parse_type, parse_type1, parse_type2, parse_type_choices, tokens_left,
};
use crate::lexer::TokenStream;
use crate::token::{TokenKind, TokenView};
use vstd::prelude::*;

verus! {

/// Whether the tokens `x` and `y` carry on what stands in front of them in
/// the same way: with generic arguments, with a further choice of a type, or
/// not at all.
pub open spec fn same_turn(x: TokenView, y: TokenView) -> bool {
    &&& x is LANGLEBRACKET <==> y is LANGLEBRACKET
    &&& x is TCHOICE <==> y is TCHOICE
}

/// Stream `b` holds, `shift` places further on, the tokens that stream `a`
/// holds from `lo` up to `hi`, and what stands behind them in `b` carries on
/// in the same way as what stands at `hi` in `a`. Neither lexer has failed.
pub open spec fn alike(a: TokenStream, b: TokenStream, shift: int, lo: int, hi: int) -> bool {
    &&& a.failure is None
    &&& b.failure is None
    &&& forall|i: int| lo <= i < hi ==> #[trigger] a.at(i) == b.at(i + shift)
    &&& same_turn(a.at(hi), b.at(hi + shift))
}

/// A name is read alike from streams that are alike.
pub proof fn lemma_name_is_local(
    a: TokenStream,
    b: TokenStream,
    shift: int,
    lo: int,
    hi: int,
    p: int,
)
    requires
        alike(a, b, shift, lo, hi),
        lo <= p,
        parse_name(a, p) matches Ok(r) && p + r.len <= hi,
    ensures
        parse_name(b, p + shift) matches Ok(r) && r.len == parse_name(a, p)->Ok_0.len,
    decreases tokens_left(a, p), 0nat,
{
    reveal(parse_name);
    reveal(parse_genericarg);
    if a.at(p + 1) is LANGLEBRACKET {
        lemma_genericarg_is_local(a, b, shift, lo, hi, p + 1);
    }
}

/// A group in brackets is read alike from streams that are alike.
#[verifier::rlimit(50)]
pub proof fn lemma_group_in_is_local(
    a: TokenStream,
    b: TokenStream,
    shift: int,
    lo: int,
    hi: int,
    p: int,
    close: TokenKind,
)
    requires
        alike(a, b, shift, lo, hi),
        lo <= p,
        close != TokenKind::EOF,
        parse_group_in(a, p, close) matches Ok(r) && p + r.len <= hi,
    ensures
        parse_group_in(b, p + shift, close) matches Ok(r) && r.len == parse_group_in(
            a,
            p,
            close,
        )->Ok_0.len,
    decreases tokens_left(a, p), 10nat,
{
    reveal(parse_group_in);
    reveal(parse_group);
    let group = parse_group(a, p)->Ok_0;
    assert(a.at(p + group.len).kind() == close);
    assert(p + group.len < hi);
    lemma_group_is_local(a, b, shift, lo, hi, p);
    assert(a.at(p + group.len) == b.at(p + group.len + shift));
}

/// A basic type is read alike from streams that are alike.
pub proof fn lemma_type2_is_local(
    a: TokenStream,
    b: TokenStream,
    shift: int,
    lo: int,
    hi: int,
    p: int,
)
    requires
        alike(a, b, shift, lo, hi),
        lo <= p,
        parse_type2(a, p) matches Ok(r) && p + r.len <= hi,
    ensures
        parse_type2(b, p + shift) matches Ok(r) && r.len == parse_type2(a, p)->Ok_0.len,
    decreases tokens_left(a, p), 1nat,
{
    reveal(parse_type2);
    reveal(parse_name);
    reveal(parse_type);
    reveal(parse_group_in);
    match a.at(p) {
        TokenView::IDENT(_) => {
            lemma_name_is_local(a, b, shift, lo, hi, p);
        },
        TokenView::LPAREN => {
            lemma_type_is_local(a, b, shift, lo, hi, p + 1);
        },
        TokenView::LBRACE => {
            lemma_group_in_is_local(a, b, shift, lo, hi, p + 1, TokenKind::RBRACE);
        },
        TokenView::LBRACKET => {
            lemma_group_in_is_local(a, b, shift, lo, hi, p + 1, TokenKind::RBRACKET);
        },
        TokenView::UNWRAP => {
            lemma_name_is_local(a, b, shift, lo, hi, p + 1);
        },
        TokenView::GTOCHOICE => {
            if a.at(p + 1) is LPAREN {
                lemma_group_in_is_local(a, b, shift, lo, hi, p + 2, TokenKind::RPAREN);
            } else {
                lemma_name_is_local(a, b, shift, lo, hi, p + 1);
            }
        },
        _ => {},
    }
}

/// A `Type1` is read alike from streams that are alike.
pub proof fn lemma_type1_is_local(
    a: TokenStream,
    b: TokenStream,
    shift: int,
    lo: int,
    hi: int,
    p: int,
)
    requires
        alike(a, b, shift, lo, hi),
        lo <= p,
        parse_type1(a, p) matches Ok(r) && p + r.len <= hi,
    ensures
        parse_type1(b, p + shift) matches Ok(r) && r.len == parse_type1(a, p)->Ok_0.len,
    decreases tokens_left(a, p), 2nat,
{
    reveal(parse_type1);
    reveal(parse_type2);
    if !(a.at(p) is RANGE) {
        lemma_type2_is_local(a, b, shift, lo, hi, p);
    }
}

/// A list of generic arguments is read alike from streams that are alike.
pub proof fn lemma_genericarg_is_local(
    a: TokenStream,
    b: TokenStream,
    shift: int,
    lo: int,
    hi: int,
    p: int,
)
    requires
        alike(a, b, shift, lo, hi),
        lo <= p,
        parse_genericarg(a, p) matches Ok(r) && p + r.len <= hi,
    ensures
        parse_genericarg(b, p + shift) matches Ok(r) && r.len == parse_genericarg(a, p)->Ok_0.len,
    decreases tokens_left(a, p), 4nat,
{
    reveal(parse_genericarg);
    reveal(parse_genericarg_items);
    lemma_genericarg_items_is_local(a, b, shift, lo, hi, p + 1, Seq::empty(), Seq::empty());
}

/// The rest of a list of generic arguments is read alike from streams that
/// are alike, whatever was read in front of it.
pub proof fn lemma_genericarg_items_is_local(
    a: TokenStream,
    b: TokenStream,
    shift: int,
    lo: int,
    hi: int,
    p: int,
    before_a: Seq<GenericArgView>,
    before_b: Seq<GenericArgView>,
)
    requires
        alike(a, b, shift, lo, hi),
        lo <= p,
        parse_genericarg_items(a, p, before_a) matches Ok(r) && p + r.len <= hi,
    ensures
        parse_genericarg_items(b, p + shift, before_b) matches Ok(r) && r.len
            == parse_genericarg_items(a, p, before_a)->Ok_0.len,
    decreases tokens_left(a, p), 3nat,
{
    reveal(parse_genericarg_items);
    reveal(parse_type1);
    lemma_type1_is_local(a, b, shift, lo, hi, p);
    let arg_a = parse_type1(a, p)->Ok_0;
    let arg_b = parse_type1(b, p + shift)->Ok_0;
    let end = p + arg_a.len;
    if a.at(end) is COMMA {
        lemma_genericarg_items_is_local(
            a,
            b,
            shift,
            lo,
            hi,
            end + 1,
            before_a.push(GenericArgView { arg: arg_a.value }),
            before_b.push(GenericArgView { arg: arg_b.value }),
        );
    }
}

/// A type is read alike from streams that are alike.
pub proof fn lemma_type_is_local(
    a: TokenStream,
    b: TokenStream,
    shift: int,
    lo: int,
    hi: int,
    p: int,
)
    requires
        alike(a, b, shift, lo, hi),
        lo <= p,
        parse_type(a, p) matches Ok(r) && p + r.len <= hi,
    ensures
        parse_type(b, p + shift) matches Ok(r) && r.len == parse_type(a, p)->Ok_0.len,
    decreases tokens_left(a, p), 4nat,
{
    reveal(parse_type);
    reveal(parse_type1);
    reveal(parse_type_choices);
    lemma_type1_is_local(a, b, shift, lo, hi, p);
    let first_a = parse_type1(a, p)->Ok_0;
    let first_b = parse_type1(b, p + shift)->Ok_0;
    lemma_type_choices_is_local(
        a,
        b,
        shift,
        lo,
        hi,
        p + first_a.len,
        seq![TypeChoiceView { type1: first_a.value }],
        seq![TypeChoiceView { type1: first_b.value }],
    );
}

/// The rest of a type is read alike from streams that are alike, whatever
/// was read in front of it.
pub proof fn lemma_type_choices_is_local(
    a: TokenStream,
    b: TokenStream,
    shift: int,
    lo: int,
    hi: int,
    p: int,
    before_a: Seq<TypeChoiceView>,
    before_b: Seq<TypeChoiceView>,
)
    requires
        alike(a, b, shift, lo, hi),
        lo <= p,
        parse_type_choices(a, p, before_a) matches Ok(r) && p + r.len <= hi,
    ensures
        parse_type_choices(b, p + shift, before_b) matches Ok(r) && r.len == parse_type_choices(
            a,
            p,
            before_a,
        )->Ok_0.len,
    decreases tokens_left(a, p), 3nat,
{
    reveal(parse_type_choices);
    reveal(parse_type1);
    if a.at(p) is TCHOICE {
        lemma_type1_is_local(a, b, shift, lo, hi, p + 1);
        let next_a = parse_type1(a, p + 1)->Ok_0;
        let next_b = parse_type1(b, p + 1 + shift)->Ok_0;
        lemma_type_choices_is_local(
            a,
            b,
            shift,
            lo,
            hi,
            p + 1 + next_a.len,
            before_a.push(TypeChoiceView { type1: next_a.value }),
            before_b.push(TypeChoiceView { type1: next_b.value }),
        );
    }
}

/// A group is read alike from streams that are alike, where a token of the
/// part that is alike stands behind the group.
pub proof fn lemma_group_is_local(
    a: TokenStream,
    b: TokenStream,
    shift: int,
    lo: int,
    hi: int,
    p: int,
)
    requires
        alike(a, b, shift, lo, hi),
        lo <= p,
        parse_group(a, p) matches Ok(r) && p + r.len < hi,
    ensures
        parse_group(b, p + shift) matches Ok(r) && r.len == parse_group(a, p)->Ok_0.len,
    decreases tokens_left(a, p), 9nat,
{
    reveal(parse_group);
    reveal(parse_group_choice);
    reveal(parse_group_choices);
    lemma_group_choice_is_local(a, b, shift, lo, hi, p, Seq::empty(), Seq::empty());
    let first_a = parse_group_choice(a, p, Seq::empty())->Ok_0;
    let first_b = parse_group_choice(b, p + shift, Seq::empty())->Ok_0;
    lemma_group_choices_is_local(
        a,
        b,
        shift,
        lo,
        hi,
        p + first_a.len,
        seq![first_a.value],
        seq![first_b.value],
    );
}

/// The rest of a group is read alike from streams that are alike, whatever
/// was read in front of it.
pub proof fn lemma_group_choices_is_local(
    a: TokenStream,
    b: TokenStream,
    shift: int,
    lo: int,
    hi: int,
    p: int,
    before_a: Seq<GroupChoiceView>,
    before_b: Seq<GroupChoiceView>,
)
    requires
        alike(a, b, shift, lo, hi),
        lo <= p,
        parse_group_choices(a, p, before_a) matches Ok(r) && p + r.len < hi,
    ensures
        parse_group_choices(b, p + shift, before_b) matches Ok(r) && r.len
            == parse_group_choices(a, p, before_a)->Ok_0.len,
    decreases tokens_left(a, p), 8nat,
{
    reveal(parse_group_choices);
    reveal(parse_group_choice);
    if a.at(p) is GCHOICE {
        lemma_group_choice_is_local(a, b, shift, lo, hi, p + 1, Seq::empty(), Seq::empty());
        let next_a = parse_group_choice(a, p + 1, Seq::empty())->Ok_0;
        let next_b = parse_group_choice(b, p + 1 + shift, Seq::empty())->Ok_0;
        lemma_group_choices_is_local(
            a,
            b,
            shift,
            lo,
            hi,
            p + 1 + next_a.len,
            before_a.push(next_a.value),
            before_b.push(next_b.value),
        );
    }
}

/// A group choice is read alike from streams that are alike, whatever was
/// read in front of it.
#[verifier::rlimit(50)]
pub proof fn lemma_group_choice_is_local(
    a: TokenStream,
    b: TokenStream,
    shift: int,
    lo: int,
    hi: int,
    p: int,
    before_a: Seq<(GroupEntryView, bool)>,
    before_b: Seq<(GroupEntryView, bool)>,
)
    requires
        alike(a, b, shift, lo, hi),
        lo <= p,
        parse_group_choice(a, p, before_a) matches Ok(r) && p + r.len < hi,
    ensures
        parse_group_choice(b, p + shift, before_b) matches Ok(r) && r.len == parse_group_choice(
            a,
            p,
            before_a,
        )->Ok_0.len,
    decreases tokens_left(a, p), 7nat,
{
    reveal(parse_group_choice);
    reveal(parse_group_entry);
    assert(a.at(p) == b.at(p + shift));
    if !crate::grammar::ends_group_choice(a.at(p)) {
        let entry_a = parse_group_entry(a, p)->Ok_0;
        assert(parse_group_entry(a, p) is Ok);
        assert(entry_a.len >= 1);
        let end = p + entry_a.len;
        assert(end < hi);
        lemma_group_entry_is_local(a, b, shift, lo, hi, p);
        let entry_b = parse_group_entry(b, p + shift)->Ok_0;
        assert(a.at(end) == b.at(end + shift));
        let comma = a.at(end) is COMMA;
        lemma_group_choice_is_local(
            a,
            b,
            shift,
            lo,
            hi,
            if comma {
                end + 1
            } else {
                end
            },
            before_a.push((entry_a.value, comma)),
            before_b.push((entry_b.value, comma)),
        );
    }
}

/// An occurrence indicator is read alike from streams that are alike, where
/// the entry that it belongs to stands in the part that is alike.
pub proof fn lemma_occurrence_is_local(
    a: TokenStream,
    b: TokenStream,
    shift: int,
    lo: int,
    hi: int,
    p: int,
)
    requires
        alike(a, b, shift, lo, hi),
        lo <= p,
        parse_occurrence(a, p) matches Ok(r) && p + r.len + 1 < hi,
    ensures
        parse_occurrence(b, p + shift) == parse_occurrence(a, p),
{
    reveal(parse_occurrence);
    assert(a.at(p) == b.at(p + shift));
    assert(a.at(p + 1) == b.at(p + 1 + shift));
    if parse_occurrence(a, p)->Ok_0.len >= 2 {
        assert(a.at(p + 2) == b.at(p + 2 + shift));
    }
}

/// A group entry is read alike from streams that are alike, where a token of
/// the part that is alike stands behind the entry.
pub proof fn lemma_group_entry_is_local(
    a: TokenStream,
    b: TokenStream,
    shift: int,
    lo: int,
    hi: int,
    p: int,
)
    requires
        alike(a, b, shift, lo, hi),
        lo <= p,
        parse_group_entry(a, p) matches Ok(r) && p + r.len < hi,
    ensures
        parse_group_entry(b, p + shift) matches Ok(r) && r.len == parse_group_entry(
            a,
            p,
        )->Ok_0.len,
    decreases tokens_left(a, p), 6nat,
{
    reveal(parse_group_entry);
    reveal(parse_group_entry_body);
    let occurrence = parse_occurrence(a, p)->Ok_0;
    assert(parse_group_entry_body(a, p + occurrence.len, occurrence.value) matches Ok(r) && r.len
        >= 1) by {
        lemma_type1_spans_a_token(a, p + occurrence.len);
    }
    lemma_occurrence_is_local(a, b, shift, lo, hi, p);
    assert(tokens_left(a, p + occurrence.len) <= tokens_left(a, p));
    lemma_group_entry_body_is_local(
        a,
        b,
        shift,
        lo,
        hi,
        p + occurrence.len,
        occurrence.value,
        occurrence.value,
    );
}

/// What follows the occurrence indicator of a group entry is read alike from
/// streams that are alike, whatever the indicator was.
#[verifier::rlimit(100)]
pub proof fn lemma_group_entry_body_is_local(
    a: TokenStream,
    b: TokenStream,
    shift: int,
    lo: int,
    hi: int,
    p: int,
    occur_a: Option<OccurrenceView>,
    occur_b: Option<OccurrenceView>,
)
    requires
        alike(a, b, shift, lo, hi),
        lo <= p,
        parse_group_entry_body(a, p, occur_a) matches Ok(r) && p + r.len < hi,
    ensures
        parse_group_entry_body(b, p + shift, occur_b) matches Ok(r) && r.len
            == parse_group_entry_body(a, p, occur_a)->Ok_0.len,
    decreases tokens_left(a, p), 5nat,
{
    reveal(parse_group_entry_body);
    reveal(parse_group_in);
    reveal(parse_type);
    reveal(parse_type1);
    reveal(parse_type_choices);
    lemma_type1_spans_a_token(a, p);
    assert(a.at(p) == b.at(p + shift));
    assert(a.at(p + 1) == b.at(p + 1 + shift));
    if a.at(p) is LPAREN {
        lemma_group_in_is_local(a, b, shift, lo, hi, p + 1, TokenKind::RPAREN);
    } else if a.at(p + 1) is COLON && (a.at(p) is IDENT || a.at(p) is VALUE) {
        lemma_type_is_local(a, b, shift, lo, hi, p + 2);
    } else {
        lemma_type1_is_local(a, b, shift, lo, hi, p);
        let t1_a = parse_type1(a, p)->Ok_0;
        let t1_b = parse_type1(b, p + shift)->Ok_0;
        let end = p + t1_a.len;
        assert(a.at(end) == b.at(end + shift));
        match a.at(end) {
            TokenView::CUT => {
                assert(a.at(end + 1) == b.at(end + 1 + shift));
                lemma_type_is_local(a, b, shift, lo, hi, end + 2);
            },
            TokenView::ARROWMAP => {
                lemma_type_is_local(a, b, shift, lo, hi, end + 1);
            },
            TokenView::TCHOICE => {
                lemma_type_choices_is_local(
                    a,
                    b,
                    shift,
                    lo,
                    hi,
                    end,
                    seq![TypeChoiceView { type1: t1_a.value }],
                    seq![TypeChoiceView { type1: t1_b.value }],
                );
            },
            _ => {},
        }
    }
}

/// The rest of a list of generic parameters is read alike from streams that
/// are alike, whatever was read in front of it.
pub proof fn lemma_genericparm_items_is_local(
    a: TokenStream,
    b: TokenStream,
    shift: int,
    lo: int,
    hi: int,
    p: int,
    before_a: Seq<GenericParamView>,
    before_b: Seq<GenericParamView>,
)
    requires
        alike(a, b, shift, lo, hi),
        lo <= p,
        parse_genericparm_items(a, p, before_a) matches Ok(r) && p + r.len <= hi,
    ensures
        parse_genericparm_items(b, p + shift, before_b) matches Ok(r) && r.len
            == parse_genericparm_items(a, p, before_a)->Ok_0.len,
    decreases tokens_left(a, p),
{
    reveal(parse_genericparm_items);
    assert(a.at(p) == b.at(p + shift));
    assert(a.at(p + 1) == b.at(p + 1 + shift));
    if a.at(p + 1) is COMMA {
        let name_a = a.at(p)->IDENT_0;
        lemma_genericparm_items_is_local(
            a,
            b,
            shift,
            lo,
            hi,
            p + 2,
            before_a.push(
                GenericParamView { param: crate::grammar::identifier_at(name_a, p) },
            ),
            before_b.push(
                GenericParamView { param: crate::grammar::identifier_at(name_a, p + shift) },
            ),
        );
    }
}

/// The name that a rule binds.
pub open spec fn rule_name(rule: RuleView) -> Seq<char> {
    match rule {
        RuleView::Type { rule } => rule.name.ident,
        RuleView::Group { rule } => rule.name.ident,
    }
}

/// A rule is read alike from streams that are alike, and binds the same
/// name.
pub proof fn lemma_rule_is_local(
    a: TokenStream,
    b: TokenStream,
    shift: int,
    lo: int,
    hi: int,
    p: int,
)
    requires
        alike(a, b, shift, lo, hi),
        lo <= p,
        parse_rule(a, p) matches Ok(r) && p + r.len <= hi,
    ensures
        parse_rule(b, p + shift) matches Ok(r) && r.len == parse_rule(a, p)->Ok_0.len
            && rule_name(r.value) == rule_name(parse_rule(a, p)->Ok_0.value),
{
    reveal(parse_rule);
    reveal(parse_rule_body);
    reveal(parse_genericparm);
    lemma_rule_spans_tokens(a, p);
    assert(a.at(p) == b.at(p + shift));
    assert(a.at(p + 1) == b.at(p + 1 + shift));
    let at = if a.at(p + 1) is LANGLEBRACKET {
        lemma_genericparm_items_is_local(a, b, shift, lo, hi, p + 2, Seq::empty(), Seq::empty());
        p + 1 + parse_genericparm(a, p + 1)->Ok_0.len
    } else {
        p + 1
    };
    lemma_type1_spans_a_token(a, at + 1);
    assert(parse_type(a, at + 1) matches Ok(t) && t.len >= 1) by {
        reveal(parse_type);
        reveal(parse_type1);
    }
    assert(a.at(at) == b.at(at + shift));
    assert(a.at(at + 1) == b.at(at + 1 + shift));
    lemma_type_is_local(a, b, shift, lo, hi, at + 1);
}

/// The stream of a lexer that hands out `tokens` and does not fail.
pub open spec fn stream_of(tokens: Seq<TokenView>) -> TokenStream {
    TokenStream { tokens, failure: None }
}

/// The tokens of texts written one after the other.
pub open spec fn in_sequence(texts: Seq<Seq<TokenView>>) -> Seq<TokenView>
    decreases texts.len(),
{
    if texts.len() == 0 {
        Seq::empty()
    } else {
        texts[0] + in_sequence(texts.drop_first())
    }
}

/// Whether `tokens` are one well-formed rule definition: a rule is read from
/// them on their own, and it spans all of them.
pub open spec fn is_rule(tokens: Seq<TokenView>) -> bool {
    parse_rule(stream_of(tokens), 0) matches Ok(r) && r.len == tokens.len()
}

/// The name that the rule definition `tokens` binds.
pub open spec fn name_of(tokens: Seq<TokenView>) -> Seq<char> {
    rule_name(parse_rule(stream_of(tokens), 0)->Ok_0.value)
}

/// The name that a rule definition binds is the name that it starts with.
pub proof fn lemma_name_of_is_the_first_token(tokens: Seq<TokenView>)
    requires
        is_rule(tokens),
    ensures
        tokens.len() >= 2,
        tokens[0] matches TokenView::IDENT(name) && name_of(tokens) == name,
{
    reveal(parse_rule);
    reveal(parse_rule_body);
    reveal(parse_genericparm);
    lemma_rule_spans_tokens(stream_of(tokens), 0);
}

/// Where a stream holds rule definitions one after the other from `pos` up to
/// its end, the rules `before` and then one rule for each definition are
/// read, in that order, and each rule binds the name of its definition.
pub proof fn lemma_rules_follow(
    s: TokenStream,
    pos: int,
    definitions: Seq<Seq<TokenView>>,
    before: Seq<RuleView>,
)
    requires
        s.failure is None,
        0 <= pos <= s.tokens.len(),
        s.tokens.skip(pos) == in_sequence(definitions),
        forall|i: int| 0 <= i < definitions.len() ==> is_rule(#[trigger] definitions[i]),
    ensures
        parse_rules(s, pos, before) matches Ok(p) && {
            &&& p.value.rules.len() == before.len() + definitions.len()
            &&& forall|i: int| 0 <= i < before.len() ==> p.value.rules[i] == before[i]
            &&& forall|i: int|
                0 <= i < definitions.len() ==> rule_name(#[trigger] p.value.rules[before.len() + i])
                    == name_of(definitions[i])
        },
    decreases definitions.len(),
{
    reveal(parse_rules);
    if definitions.len() == 0 {
        assert(s.tokens.skip(pos).len() == 0);
    } else {
        let first = definitions[0];
        let rest = definitions.drop_first();
        let a = stream_of(first);
        let n = first.len() as int;
        assert(is_rule(first));
        lemma_rule_spans_tokens(a, 0);
        assert(s.tokens.skip(pos) == first + in_sequence(rest));
        assert(s.tokens.len() - pos == n + in_sequence(rest).len());
        assert forall|i: int| 0 <= i < n implies #[trigger] a.at(i) == s.at(i + pos) by {
            assert(s.tokens.skip(pos)[i] == first[i]);
        }
        assert(s.tokens.skip(pos + n) =~= in_sequence(rest)) by {
            assert(s.tokens.skip(pos).skip(n) =~= in_sequence(rest));
            assert(s.tokens.skip(pos).skip(n) =~= s.tokens.skip(pos + n));
        }
        assert(same_turn(a.at(n), s.at(n + pos))) by {
            if rest.len() > 0 {
                let next = rest[0];
                assert(next == definitions[1]);
                assert(is_rule(next));
                reveal(parse_rule);
                assert(stream_of(next).at(0) is IDENT);
                assert(in_sequence(rest) == next + in_sequence(rest.drop_first()));
                assert(s.tokens.skip(pos + n)[0] == next[0]);
            } else {
                assert(in_sequence(rest).len() == 0);
            }
        }
        lemma_rule_is_local(a, s, pos, 0, n, 0);
        let rule = parse_rule(s, pos)->Ok_0;
        assert(!(s.at(pos) is EOF)) by {
            reveal(parse_rule);
            assert(a.at(0) == s.at(0 + pos));
        }
        assert forall|i: int| 0 <= i < rest.len() implies is_rule(#[trigger] rest[i]) by {
            assert(rest[i] == definitions[i + 1]);
        }
        lemma_rules_follow(s, pos + n, rest, before.push(rule.value));
        let p = parse_rules(s, pos, before)->Ok_0;
        let inner = parse_rules(s, pos + n, before.push(rule.value))->Ok_0;
        assert(parse_rules(s, pos, before) is Ok);
        assert(p.value == inner.value);
        assert(p.value.rules.len() == before.len() + definitions.len());
        assert forall|i: int| 0 <= i < before.len() implies p.value.rules[i] == before[i] by {
            assert(before.push(rule.value)[i] == before[i]);
        }
        assert forall|i: int| 0 <= i < definitions.len() implies rule_name(
            #[trigger] p.value.rules[before.len() + i],
        ) == name_of(definitions[i]) by {
            if i > 0 {
                assert(definitions[i] == rest[i - 1]);
                assert(p.value.rules[before.push(rule.value).len() + (i - 1)]
                    == p.value.rules[before.len() + i]);
            } else {
                assert(
                    p.value.rules[before.len() as int] == before.push(
                        rule.value,
                    )[before.len() as int]
                );
            }
        }
    }
}

/// Rules in sequence: from well-formed rule definitions written one after
/// the other, a schema is read that holds one rule for each definition, in
/// the order of the definitions, and each rule binds the name of its
/// definition.
pub proof fn lemma_rules_in_sequence(definitions: Seq<Seq<TokenView>>)
    requires
        forall|i: int| 0 <= i < definitions.len() ==> is_rule(#[trigger] definitions[i]),
    ensures
        parse_stream(stream_of(in_sequence(definitions))) matches Ok(cddl) && {
            &&& cddl.rules.len() == definitions.len()
            &&& forall|i: int|
                0 <= i < definitions.len() ==> rule_name(#[trigger] cddl.rules[i]) == name_of(
                    definitions[i],
                )
        },
{
    let s = stream_of(in_sequence(definitions));
    assert(s.tokens.skip(0) =~= in_sequence(definitions));
    lemma_rules_follow(s, 0, definitions, Seq::empty());
    let cddl = parse_cddl(s, 0)->Ok_0.value;
    assert forall|i: int| 0 <= i < definitions.len() implies rule_name(#[trigger] cddl.rules[i])
        == name_of(definitions[i]) by {
        assert(cddl.rules[Seq::<RuleView>::empty().len() + i] == cddl.rules[i]);
    }
}

/// A name lies in its stream.
pub proof fn lemma_name_lies_in_the_stream(s: TokenStream, pos: int)
    requires
        0 <= pos <= s.tokens.len(),
        parse_name(s, pos) is Ok,
    ensures
        pos + parse_name(s, pos)->Ok_0.len <= s.tokens.len(),
    decreases tokens_left(s, pos), 0nat,
{
    reveal(parse_name);
    reveal(parse_genericarg);
    if s.at(pos + 1) is LANGLEBRACKET {
        lemma_genericarg_lies_in_the_stream(s, pos + 1);
    }
}

/// A group in brackets lies in its stream.
pub proof fn lemma_group_in_lies_in_the_stream(s: TokenStream, pos: int, close: TokenKind)
    requires
        0 <= pos <= s.tokens.len(),
        parse_group_in(s, pos, close) is Ok,
    ensures
        pos + parse_group_in(s, pos, close)->Ok_0.len <= s.tokens.len(),
    decreases tokens_left(s, pos), 10nat,
{
    reveal(parse_group_in);
    reveal(parse_group);
    lemma_group_lies_in_the_stream(s, pos);
}

/// A basic type lies in its stream.
pub proof fn lemma_type2_lies_in_the_stream(s: TokenStream, pos: int)
    requires
        0 <= pos <= s.tokens.len(),
        parse_type2(s, pos) is Ok,
    ensures
        pos + parse_type2(s, pos)->Ok_0.len <= s.tokens.len(),
    decreases tokens_left(s, pos), 1nat,
{
    reveal(parse_type2);
    reveal(parse_name);
    reveal(parse_type);
    reveal(parse_group_in);
    match s.at(pos) {
        TokenView::IDENT(_) => {
            lemma_name_lies_in_the_stream(s, pos);
        },
        TokenView::LPAREN => {
            lemma_type_lies_in_the_stream(s, pos + 1);
        },
        TokenView::LBRACE => {
            lemma_group_in_lies_in_the_stream(s, pos + 1, TokenKind::RBRACE);
        },
        TokenView::LBRACKET => {
            lemma_group_in_lies_in_the_stream(s, pos + 1, TokenKind::RBRACKET);
        },
        TokenView::UNWRAP => {
            lemma_name_lies_in_the_stream(s, pos + 1);
        },
        TokenView::GTOCHOICE => {
            if s.at(pos + 1) is LPAREN {
                lemma_group_in_lies_in_the_stream(s, pos + 2, TokenKind::RPAREN);
            } else {
                lemma_name_lies_in_the_stream(s, pos + 1);
            }
        },
        _ => {},
    }
}

/// A `Type1` lies in its stream.
pub proof fn lemma_type1_lies_in_the_stream(s: TokenStream, pos: int)
    requires
        0 <= pos <= s.tokens.len(),
        parse_type1(s, pos) is Ok,
    ensures
        pos + parse_type1(s, pos)->Ok_0.len <= s.tokens.len(),
    decreases tokens_left(s, pos), 2nat,
{
    reveal(parse_type1);
    reveal(parse_type2);
    if !(s.at(pos) is RANGE) {
        lemma_type2_lies_in_the_stream(s, pos);
    }
}

/// A list of generic arguments lies in its stream.
pub proof fn lemma_genericarg_lies_in_the_stream(s: TokenStream, pos: int)
    requires
        0 <= pos <= s.tokens.len(),
        parse_genericarg(s, pos) is Ok,
    ensures
        pos + parse_genericarg(s, pos)->Ok_0.len <= s.tokens.len(),
    decreases tokens_left(s, pos), 4nat,
{
    reveal(parse_genericarg);
    reveal(parse_genericarg_items);
    lemma_genericarg_items_lies_in_the_stream(s, pos + 1, Seq::empty());
}

/// The rest of a list of generic arguments lies in its stream.
pub proof fn lemma_genericarg_items_lies_in_the_stream(
    s: TokenStream,
    pos: int,
    before: Seq<GenericArgView>,
)
    requires
        0 <= pos <= s.tokens.len(),
        parse_genericarg_items(s, pos, before) is Ok,
    ensures
        pos + parse_genericarg_items(s, pos, before)->Ok_0.len <= s.tokens.len(),
    decreases tokens_left(s, pos), 3nat,
{
    reveal(parse_genericarg_items);
    reveal(parse_type1);
    lemma_type1_lies_in_the_stream(s, pos);
    let arg = parse_type1(s, pos)->Ok_0;
    let end = pos + arg.len;
    if s.at(end) is COMMA {
        lemma_genericarg_items_lies_in_the_stream(
            s,
            end + 1,
            before.push(GenericArgView { arg: arg.value }),
        );
    }
}

/// A type lies in its stream.
pub proof fn lemma_type_lies_in_the_stream(s: TokenStream, pos: int)
    requires
        0 <= pos <= s.tokens.len(),
        parse_type(s, pos) is Ok,
    ensures
        pos + parse_type(s, pos)->Ok_0.len <= s.tokens.len(),
    decreases tokens_left(s, pos), 4nat,
{
    reveal(parse_type);
    reveal(parse_type1);
    reveal(parse_type_choices);
    lemma_type1_lies_in_the_stream(s, pos);
    let first = parse_type1(s, pos)->Ok_0;
    lemma_type_choices_lies_in_the_stream(
        s,
        pos + first.len,
        seq![TypeChoiceView { type1: first.value }],
    );
}

/// The rest of a type lies in its stream.
pub proof fn lemma_type_choices_lies_in_the_stream(
    s: TokenStream,
    pos: int,
    before: Seq<TypeChoiceView>,
)
    requires
        0 <= pos <= s.tokens.len(),
        parse_type_choices(s, pos, before) is Ok,
    ensures
        pos + parse_type_choices(s, pos, before)->Ok_0.len <= s.tokens.len(),
    decreases tokens_left(s, pos), 3nat,
{
    reveal(parse_type_choices);
    reveal(parse_type1);
    if s.at(pos) is TCHOICE {
        lemma_type1_lies_in_the_stream(s, pos + 1);
        let next = parse_type1(s, pos + 1)->Ok_0;
        lemma_type_choices_lies_in_the_stream(
            s,
            pos + 1 + next.len,
            before.push(TypeChoiceView { type1: next.value }),
        );
    }
}

/// A group lies in its stream.
pub proof fn lemma_group_lies_in_the_stream(s: TokenStream, pos: int)
    requires
        0 <= pos <= s.tokens.len(),
        parse_group(s, pos) is Ok,
    ensures
        pos + parse_group(s, pos)->Ok_0.len <= s.tokens.len(),
    decreases tokens_left(s, pos), 9nat,
{
    reveal(parse_group);
    reveal(parse_group_choice);
    reveal(parse_group_choices);
    lemma_group_choice_lies_in_the_stream(s, pos, Seq::empty());
    let first = parse_group_choice(s, pos, Seq::empty())->Ok_0;
    lemma_group_choices_lies_in_the_stream(s, pos + first.len, seq![first.value]);
}

/// The rest of a group lies in its stream.
pub proof fn lemma_group_choices_lies_in_the_stream(
    s: TokenStream,
    pos: int,
    before: Seq<GroupChoiceView>,
)
    requires
        0 <= pos <= s.tokens.len(),
        parse_group_choices(s, pos, before) is Ok,
    ensures
        pos + parse_group_choices(s, pos, before)->Ok_0.len <= s.tokens.len(),
    decreases tokens_left(s, pos), 8nat,
{
    reveal(parse_group_choices);
    reveal(parse_group_choice);
    if s.at(pos) is GCHOICE {
        lemma_group_choice_lies_in_the_stream(s, pos + 1, Seq::empty());
        let next = parse_group_choice(s, pos + 1, Seq::empty())->Ok_0;
        lemma_group_choices_lies_in_the_stream(s, pos + 1 + next.len, before.push(next.value));
    }
}

/// A group choice lies in its stream.
pub proof fn lemma_group_choice_lies_in_the_stream(
    s: TokenStream,
    pos: int,
    before: Seq<(GroupEntryView, bool)>,
)
    requires
        0 <= pos <= s.tokens.len(),
        parse_group_choice(s, pos, before) is Ok,
    ensures
        pos + parse_group_choice(s, pos, before)->Ok_0.len <= s.tokens.len(),
    decreases tokens_left(s, pos), 7nat,
{
    reveal(parse_group_choice);
    reveal(parse_group_entry);
    if !crate::grammar::ends_group_choice(s.at(pos)) {
        lemma_group_entry_lies_in_the_stream(s, pos);
        let entry = parse_group_entry(s, pos)->Ok_0;
        let end = pos + entry.len;
        let comma = s.at(end) is COMMA;
        lemma_group_choice_lies_in_the_stream(
            s,
            if comma {
                end + 1
            } else {
                end
            },
            before.push((entry.value, comma)),
        );
    }
}

/// A group entry lies in its stream.
pub proof fn lemma_group_entry_lies_in_the_stream(s: TokenStream, pos: int)
    requires
        0 <= pos <= s.tokens.len(),
        parse_group_entry(s, pos) is Ok,
    ensures
        pos + parse_group_entry(s, pos)->Ok_0.len <= s.tokens.len(),
    decreases tokens_left(s, pos), 6nat,
{
    reveal(parse_group_entry);
    reveal(parse_group_entry_body);
    reveal(parse_occurrence);
    let occurrence = parse_occurrence(s, pos)->Ok_0;
    lemma_group_entry_body_lies_in_the_stream(s, pos + occurrence.len, occurrence.value);
}

/// What follows the occurrence indicator of a group entry lies in its stream.
pub proof fn lemma_group_entry_body_lies_in_the_stream(
    s: TokenStream,
    pos: int,
    occur: Option<OccurrenceView>,
)
    requires
        0 <= pos <= s.tokens.len(),
        parse_group_entry_body(s, pos, occur) is Ok,
    ensures
        pos + parse_group_entry_body(s, pos, occur)->Ok_0.len <= s.tokens.len(),
    decreases tokens_left(s, pos), 5nat,
{
    reveal(parse_group_entry_body);
    reveal(parse_group_in);
    reveal(parse_type);
    reveal(parse_type1);
    reveal(parse_type_choices);
    if s.at(pos) is LPAREN {
        lemma_group_in_lies_in_the_stream(s, pos + 1, TokenKind::RPAREN);
    } else if s.at(pos + 1) is COLON && (s.at(pos) is IDENT || s.at(pos) is VALUE) {
        lemma_type_lies_in_the_stream(s, pos + 2);
    } else {
        lemma_type1_lies_in_the_stream(s, pos);
        let t1 = parse_type1(s, pos)->Ok_0;
        let end = pos + t1.len;
        match s.at(end) {
            TokenView::CUT => {
                lemma_type_lies_in_the_stream(s, end + 2);
            },
            TokenView::ARROWMAP => {
                lemma_type_lies_in_the_stream(s, end + 1);
            },
            TokenView::TCHOICE => {
                lemma_type_choices_lies_in_the_stream(
                    s,
                    end,
                    seq![TypeChoiceView { type1: t1.value }],
                );
            },
            _ => {},
        }
    }
}

/// The rest of a list of generic parameters lies in its stream.
pub proof fn lemma_genericparm_items_lies_in_the_stream(
    s: TokenStream,
    pos: int,
    before: Seq<GenericParamView>,
)
    requires
        0 <= pos <= s.tokens.len(),
        parse_genericparm_items(s, pos, before) is Ok,
    ensures
        pos + parse_genericparm_items(s, pos, before)->Ok_0.len <= s.tokens.len(),
    decreases tokens_left(s, pos),
{
    reveal(parse_genericparm_items);
    if s.at(pos + 1) is COMMA {
        lemma_genericparm_items_lies_in_the_stream(
            s,
            pos + 2,
            before.push(
                GenericParamView { param: crate::grammar::identifier_at(s.at(pos)->IDENT_0, pos) },
            ),
        );
    }
}

/// A rule lies in its stream.
pub proof fn lemma_rule_lies_in_the_stream(s: TokenStream, pos: int)
    requires
        0 <= pos <= s.tokens.len(),
        parse_rule(s, pos) is Ok,
    ensures
        pos + parse_rule(s, pos)->Ok_0.len <= s.tokens.len(),
{
    reveal(parse_rule);
    reveal(parse_rule_body);
    reveal(parse_genericparm);
    let at = if s.at(pos + 1) is LANGLEBRACKET {
        lemma_genericparm_items_lies_in_the_stream(s, pos + 2, Seq::empty());
        pos + 1 + parse_genericparm(s, pos + 1)->Ok_0.len
    } else {
        pos + 1
    };
    lemma_type_lies_in_the_stream(s, at + 1);
}

/// A schema accounts for every token: where a schema is read from a stream,
/// it spans the stream from the position where it was read to the end.
pub proof fn lemma_schema_spans_the_stream(s: TokenStream, pos: int, before: Seq<RuleView>)
    requires
        s.wf(),
        0 <= pos <= s.tokens.len(),
        parse_rules(s, pos, before) is Ok,
    ensures
        pos + parse_rules(s, pos, before)->Ok_0.len == s.tokens.len(),
    decreases tokens_left(s, pos),
{
    reveal(parse_rules);
    if !(s.at(pos) is EOF) {
        lemma_rule_lies_in_the_stream(s, pos);
        lemma_rule_spans_tokens(s, pos);
        let rule = parse_rule(s, pos)->Ok_0;
        lemma_schema_spans_the_stream(s, pos + rule.len, before.push(rule.value));
    }
}

} // verus!
