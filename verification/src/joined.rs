//! Texts joined by blank lines.
//!
//! Which token starts at a place in a text depends on the characters of the
//! token and on the one or two characters behind it. So the tokens of a text
//! are found again in any longer text that holds it, provided that the text
//! is followed there by the end of a line: [`lemma_lex_from_is_local`]. From
//! this follows what the tokens of texts are that are joined by blank lines
//! ([`lemma_lex_joined`]), and what is read from rule definitions that are
//! written one below the other ([`lemma_rules_joined_by_blank_lines`]).
use crate::grammar::parse_stream;
use crate::locality::{
    in_sequence, is_rule, lemma_rules_in_sequence, name_of, rule_name, stream_of,
};
use crate::scanner::{
    blank_len, byte_string_at, char_at, digits_len, digits_value, ident_len, is_digit,
    is_ident_part, is_ident_start, is_space, lex, lex_from, literal_at, number_at, number_shape,
    quoted_len, starts_number, token_at,
};
use crate::token::TokenView;
use vstd::prelude::*;

verus! {

/// Whether a line ends at index `i` of a text: with a line feed, or with the
/// text.
pub open spec fn ends_line(cs: Seq<char>, i: int) -> bool {
    i >= cs.len() || cs[i] == '\n'
}

/// Text `b` holds text `a` from index `shift` on, and behind it two ends of
/// a line: a blank line, or the end of `b`.
pub open spec fn holds(a: Seq<char>, b: Seq<char>, shift: int) -> bool {
    &&& 0 <= shift
    &&& a.len() + shift <= b.len()
    &&& forall|i: int| 0 <= i < a.len() ==> #[trigger] a[i] == b[i + shift]
    &&& ends_line(b, a.len() + shift)
    &&& ends_line(b, a.len() + shift + 1)
}

/// Where `b` holds `a`, a look at a character of `a`, or at one of the two
/// places behind `a`, sees the same in `b` as far as tokens go: the same
/// character, or no character and a line feed.
pub proof fn lemma_look(a: Seq<char>, b: Seq<char>, shift: int, i: int)
    requires
        holds(a, b, shift),
        0 <= i <= a.len() + 1,
    ensures
        i < a.len() ==> char_at(b, i + shift) == char_at(a, i),
        i >= a.len() ==> char_at(a, i) == '\0' && (char_at(b, i + shift) == '\0' || char_at(
            b,
            i + shift,
        ) == '\n'),
{
    if i < a.len() {
        assert(a[i] == b[i + shift]);
    }
}

/// A run of digits of `a` is the same run in `b`.
pub proof fn lemma_digits_len_is_local(a: Seq<char>, b: Seq<char>, shift: int, i: int)
    requires
        holds(a, b, shift),
        0 <= i <= a.len(),
    ensures
        digits_len(b, i + shift) == digits_len(a, i),
        i + digits_len(a, i) <= a.len(),
    decreases a.len() - i,
{
    lemma_look(a, b, shift, i);
    if i < a.len() && is_digit(a[i]) {
        lemma_digits_len_is_local(a, b, shift, i + 1);
    }
}

/// A run of characters of a name of `a` is the same run in `b`.
pub proof fn lemma_ident_len_is_local(a: Seq<char>, b: Seq<char>, shift: int, i: int)
    requires
        holds(a, b, shift),
        0 <= i <= a.len(),
    ensures
        ident_len(b, i + shift) == ident_len(a, i),
        i + ident_len(a, i) <= a.len(),
    decreases a.len() - i,
{
    lemma_look(a, b, shift, i);
    if i < a.len() && is_ident_part(a[i]) {
        lemma_ident_len_is_local(a, b, shift, i + 1);
    }
}

/// A string of `a` that is closed in `a` is the same string in `b`.
pub proof fn lemma_quoted_len_is_local(a: Seq<char>, b: Seq<char>, shift: int, i: int, quote: char)
    requires
        holds(a, b, shift),
        0 <= i,
        quoted_len(a, i, quote) is Some,
    ensures
        quoted_len(b, i + shift, quote) == quoted_len(a, i, quote),
        i + quoted_len(a, i, quote)->0 < a.len(),
    decreases a.len() - i,
{
    if i < a.len() {
        assert(a[i] == b[i + shift]);
        if a[i] == quote {
        } else if a[i] == '\\' {
            lemma_quoted_len_is_local(a, b, shift, i + 2, quote);
        } else {
            lemma_quoted_len_is_local(a, b, shift, i + 1, quote);
        }
    }
}

/// The digits of `a` write the same number in `b`.
pub proof fn lemma_digits_value_is_local(a: Seq<char>, b: Seq<char>, shift: int, i: int, n: nat)
    requires
        holds(a, b, shift),
        0 <= i,
        i + n <= a.len(),
    ensures
        digits_value(b, i + shift, n) == digits_value(a, i, n),
    decreases n,
{
    if n > 0 {
        lemma_digits_value_is_local(a, b, shift, i, (n - 1) as nat);
        assert(a[i + n - 1] == b[i + n - 1 + shift]);
    }
}

/// A number of `a` has the same parts in `b`, and lies in `a`.
pub proof fn lemma_number_shape_is_local(a: Seq<char>, b: Seq<char>, shift: int, i: int)
    requires
        holds(a, b, shift),
        0 <= i < a.len(),
        starts_number(a, i),
    ensures
        number_shape(b, i + shift) == number_shape(a, i),
        i + number_shape(a, i).len() <= a.len(),
        number_shape(a, i).integer >= 1,
        starts_number(b, i + shift),
{
    let shape = number_shape(a, i);
    lemma_look(a, b, shift, i);
    lemma_look(a, b, shift, i + 1);
    lemma_digits_len_is_local(a, b, shift, i + shape.sign);
    let point = i + shape.sign + shape.integer;
    lemma_look(a, b, shift, point);
    if point < a.len() {
        lemma_look(a, b, shift, point + 1);
        lemma_digits_len_is_local(a, b, shift, point + 1);
    }
    let e = point + shape.fraction;
    lemma_look(a, b, shift, e);
    if e < a.len() {
        lemma_look(a, b, shift, e + 1);
        if e + 1 < a.len() {
            lemma_look(a, b, shift, e + 2);
            lemma_digits_len_is_local(a, b, shift, e + 1);
            if e + 2 <= a.len() {
                lemma_digits_len_is_local(a, b, shift, e + 2);
            }
        }
    }
}

/// A number of `a` is the same number in `b`.
pub proof fn lemma_number_at_is_local(a: Seq<char>, b: Seq<char>, shift: int, i: int)
    requires
        holds(a, b, shift),
        0 <= i < a.len(),
        starts_number(a, i),
    ensures
        number_at(b, i + shift) == number_at(a, i),
        number_at(a, i) matches Ok(l) ==> 1 <= l.len && i + l.len <= a.len(),
{
    let shape = number_shape(a, i);
    lemma_number_shape_is_local(a, b, shift, i);
    lemma_digits_len_is_local(a, b, shift, i + shape.sign);
    lemma_digits_value_is_local(a, b, shift, i + shape.sign, shape.integer);
    assert(a.subrange(i, i + shape.len()) =~= b.subrange(i + shift, i + shift + shape.len()));
}

/// A number or range of `a` is the same in `b`.
pub proof fn lemma_literal_at_is_local(a: Seq<char>, b: Seq<char>, shift: int, i: int)
    requires
        holds(a, b, shift),
        0 <= i < a.len(),
        starts_number(a, i),
    ensures
        literal_at(b, i + shift) == literal_at(a, i),
        literal_at(a, i) matches Ok(l) ==> 1 <= l.len && i + l.len <= a.len(),
{
    lemma_number_at_is_local(a, b, shift, i);
    if let Ok(lower) = number_at(a, i) {
        let dots_at = i + lower.len;
        lemma_look(a, b, shift, dots_at);
        lemma_look(a, b, shift, dots_at + 1);
        if char_at(a, dots_at) == '.' && char_at(a, dots_at + 1) == '.' {
            lemma_look(a, b, shift, dots_at + 2);
            let dots: nat = if char_at(a, dots_at + 2) == '.' {
                3
            } else {
                2
            };
            lemma_look(a, b, shift, dots_at + dots);
            if dots_at + dots < a.len() {
                lemma_look(a, b, shift, dots_at + dots + 1);
            }
            if starts_number(a, dots_at + dots) {
                lemma_number_at_is_local(a, b, shift, dots_at + dots);
            }
        }
    }
}

/// A byte string of `a` that is read in `a` is the same in `b`.
pub proof fn lemma_byte_string_at_is_local(
    a: Seq<char>,
    b: Seq<char>,
    shift: int,
    quote_at: int,
    prefix: nat,
)
    requires
        holds(a, b, shift),
        0 <= quote_at < a.len(),
        byte_string_at(a, quote_at, prefix) is Ok,
    ensures
        byte_string_at(b, quote_at + shift, prefix) == byte_string_at(a, quote_at, prefix),
        quote_at + 1 + byte_string_at(a, quote_at, prefix)->Ok_0.len - prefix <= a.len() + 1,
        byte_string_at(a, quote_at, prefix)->Ok_0.len >= prefix + 2,
{
    lemma_quoted_len_is_local(a, b, shift, quote_at + 1, '\'');
    let n = quoted_len(a, quote_at + 1, '\'')->0;
    assert forall|k: int| quote_at + 1 + shift <= k < quote_at + 1 + shift + n implies b[k]
        <= '\u{7f}' by {
        assert(a[k - shift] == b[k - shift + shift]);
    }
    let bytes_a = Seq::new(n, |k: int| a[quote_at + 1 + k] as u8);
    let bytes_b = Seq::new(n, |k: int| b[quote_at + 1 + shift + k] as u8);
    assert forall|k: int| 0 <= k < n implies #[trigger] bytes_a[k] == bytes_b[k] by {
        assert(a[quote_at + 1 + k] == b[quote_at + 1 + k + shift]);
    }
    assert(bytes_a =~= bytes_b);
}

/// A token of `a` that is read in `a` is the same token in `b`, and lies in
/// `a`.
pub proof fn lemma_token_at_is_local(a: Seq<char>, b: Seq<char>, shift: int, i: int)
    requires
        holds(a, b, shift),
        0 <= i < a.len(),
        token_at(a, i) is Ok,
    ensures
        token_at(b, i + shift) == token_at(a, i),
        1 <= token_at(a, i)->Ok_0.len,
        i + token_at(a, i)->Ok_0.len <= a.len(),
{
    reveal(token_at);
    lemma_look(a, b, shift, i);
    lemma_look(a, b, shift, i + 1);
    if i + 1 < a.len() {
        lemma_look(a, b, shift, i + 2);
        if i + 2 < a.len() {
            lemma_look(a, b, shift, i + 3);
        }
    }
    let c = a[i];
    let c1 = char_at(a, i + 1);
    let c2 = char_at(a, i + 2);
    if c == '"' {
        lemma_quoted_len_is_local(a, b, shift, i + 1, '"');
        let n = quoted_len(a, i + 1, '"')->0;
        assert(a.subrange(i + 1, i + 1 + n) =~= b.subrange(i + 1 + shift, i + 1 + shift + n));
    } else if c == '\'' {
        lemma_byte_string_at_is_local(a, b, shift, i, 0);
    } else if c == 'h' && c1 == '\'' {
        lemma_byte_string_at_is_local(a, b, shift, i + 1, 1);
    } else if c == 'b' && c1 == '6' && c2 == '4' && char_at(a, i + 3) == '\'' {
        lemma_byte_string_at_is_local(a, b, shift, i + 3, 3);
    } else if starts_number(a, i) {
        lemma_literal_at_is_local(a, b, shift, i);
    } else if is_ident_start(c) {
        lemma_ident_len_is_local(a, b, shift, i + 1);
        let n = 1 + ident_len(a, i + 1);
        assert(a.subrange(i, i + n) =~= b.subrange(i + shift, i + shift + n));
    }
}

/// Blanks and comments of `a` that end in front of the end of `a` are the
/// same in `b`.
pub proof fn lemma_blank_len_is_local(
    a: Seq<char>,
    b: Seq<char>,
    shift: int,
    i: int,
    in_comment: bool,
)
    requires
        holds(a, b, shift),
        0 <= i <= a.len(),
        i + blank_len(a, i, in_comment) < a.len(),
    ensures
        blank_len(b, i + shift, in_comment) == blank_len(a, i, in_comment),
    decreases a.len() - i,
{
    if i < a.len() {
        assert(a[i] == b[i + shift]);
        if in_comment {
            lemma_blank_len_is_local(a, b, shift, i + 1, a[i] != '\n');
        } else if is_space(a[i]) {
            lemma_blank_len_is_local(a, b, shift, i + 1, false);
        } else if a[i] == ';' {
            lemma_blank_len_is_local(a, b, shift, i + 1, true);
        }
    }
}

/// Blanks and comments do not reach past the end of a text.
pub proof fn lemma_blank_len_bound(cs: Seq<char>, i: int, in_comment: bool)
    requires
        0 <= i <= cs.len(),
    ensures
        i + blank_len(cs, i, in_comment) <= cs.len(),
    decreases cs.len() - i,
{
    if i < cs.len() {
        if in_comment {
            lemma_blank_len_bound(cs, i + 1, cs[i] != '\n');
        } else if is_space(cs[i]) {
            lemma_blank_len_bound(cs, i + 1, false);
        } else if cs[i] == ';' {
            lemma_blank_len_bound(cs, i + 1, true);
        }
    }
}

/// Blanks and comments of `a` that reach the end of `a` go on in `b` with
/// what stands behind `a`: the end of the line ends a comment that was open.
pub proof fn lemma_blank_len_runs_on(
    a: Seq<char>,
    b: Seq<char>,
    shift: int,
    i: int,
    in_comment: bool,
)
    requires
        holds(a, b, shift),
        0 <= i <= a.len(),
        i + blank_len(a, i, in_comment) == a.len(),
    ensures
        i + blank_len(b, i + shift, in_comment) == a.len() + blank_len(
            b,
            a.len() + shift,
            false,
        ),
    decreases a.len() - i,
{
    if i < a.len() {
        assert(a[i] == b[i + shift]);
        if in_comment {
            lemma_blank_len_runs_on(a, b, shift, i + 1, a[i] != '\n');
        } else if is_space(a[i]) {
            lemma_blank_len_runs_on(a, b, shift, i + 1, false);
        } else if a[i] == ';' {
            lemma_blank_len_runs_on(a, b, shift, i + 1, true);
        }
    }
}

/// The tokens from two places of a text are the same if the same token is
/// the first one behind both places.
pub proof fn lemma_lex_from_same_start(cs: Seq<char>, i: int, j: int)
    requires
        0 <= i,
        0 <= j,
        i + blank_len(cs, i, false) == j + blank_len(cs, j, false),
    ensures
        lex_from(cs, i) == lex_from(cs, j),
{
}

/// The tokens of `a` from `i` on are in `b` the tokens from the same place
/// on, up to the end of `a`; behind them come the tokens that `b` holds
/// behind `a`.
pub proof fn lemma_lex_from_is_local(a: Seq<char>, b: Seq<char>, shift: int, i: int)
    requires
        holds(a, b, shift),
        0 <= i <= a.len(),
        lex_from(a, i).failure is None,
    ensures
        lex_from(b, i + shift).tokens == lex_from(a, i).tokens + lex_from(
            b,
            a.len() + shift,
        ).tokens,
        lex_from(b, i + shift).failure == lex_from(b, a.len() + shift).failure,
    decreases a.len() - i,
{
    lemma_blank_len_bound(a, i, false);
    let start = i + blank_len(a, i, false);
    if start >= a.len() {
        lemma_blank_len_runs_on(a, b, shift, i, false);
        lemma_lex_from_same_start(b, i + shift, a.len() + shift);
        assert(lex_from(a, i).tokens + lex_from(b, a.len() + shift).tokens =~= lex_from(
            b,
            a.len() + shift,
        ).tokens);
    } else {
        lemma_blank_len_is_local(a, b, shift, i, false);
        lemma_token_at_is_local(a, b, shift, start);
        let first = token_at(a, start)->Ok_0;
        lemma_lex_from_is_local(a, b, shift, start + first.len);
        let rest_a = lex_from(a, start + first.len);
        let rest_b = lex_from(b, start + first.len + shift);
        let behind = lex_from(b, a.len() + shift);
        assert(seq![first.value] + (rest_a.tokens + behind.tokens) =~= seq![first.value]
            + rest_a.tokens + behind.tokens);
    }
}

/// Texts one below the other, with a blank line between each two of them.
pub open spec fn joined(texts: Seq<Seq<char>>) -> Seq<char>
    decreases texts.len(),
{
    if texts.len() == 0 {
        Seq::empty()
    } else if texts.len() == 1 {
        texts[0]
    } else {
        texts[0] + seq!['\n', '\n'] + joined(texts.drop_first())
    }
}

/// The tokens of each of the texts.
pub open spec fn tokens_of(texts: Seq<Seq<char>>) -> Seq<Seq<TokenView>> {
    Seq::new(texts.len(), |i: int| lex(texts[i]).tokens)
}

/// The tokens of texts that are joined by blank lines are the tokens of the
/// texts, one text after the other, if the lexer fails on none of the texts.
pub proof fn lemma_lex_joined(texts: Seq<Seq<char>>)
    requires
        forall|i: int| 0 <= i < texts.len() ==> lex(#[trigger] texts[i]).failure is None,
    ensures
        lex(joined(texts)).tokens == in_sequence(tokens_of(texts)),
        lex(joined(texts)).failure is None,
    decreases texts.len(),
{
    let all = joined(texts);
    if texts.len() == 0 {
        assert(in_sequence(tokens_of(texts)) =~= Seq::<TokenView>::empty());
    } else {
        let first = texts[0];
        let rest = texts.drop_first();
        assert(lex(first).failure is None);
        assert(tokens_of(texts).drop_first() =~= tokens_of(rest));
        assert(tokens_of(texts)[0] == lex(first).tokens);
        if texts.len() == 1 {
            assert(in_sequence(tokens_of(rest)) =~= Seq::<TokenView>::empty());
            assert(lex(first).tokens + Seq::<TokenView>::empty() =~= lex(first).tokens);
        } else {
            let below = joined(rest);
            assert forall|i: int| 0 <= i < rest.len() implies lex(#[trigger] rest[i]).failure
                is None by {
                assert(rest[i] == texts[i + 1]);
            }
            lemma_lex_joined(rest);
            let at = first.len() as int;
            assert(holds(first, all, 0)) by {
                assert forall|i: int| 0 <= i < first.len() implies #[trigger] first[i] == all[i
                    + 0] by {}
                assert(all[at] == '\n');
                assert(all[at + 1] == '\n');
            }
            lemma_lex_from_is_local(first, all, 0, 0);
            assert(holds(below, all, at + 2)) by {
                assert forall|i: int| 0 <= i < below.len() implies #[trigger] below[i] == all[i
                    + (at + 2)] by {}
            }
            lemma_lex_from_is_local(below, all, at + 2, 0);
            assert(lex_from(all, all.len() as int).tokens =~= Seq::<TokenView>::empty()
                && lex_from(all, all.len() as int).failure is None) by {
                lemma_blank_len_bound(all, all.len() as int, false);
            }
            assert(lex_from(all, at) == lex_from(all, at + 2)) by {
                assert(all[at] == '\n');
                assert(all[at + 1] == '\n');
                assert(blank_len(all, at + 1, false) == 1 + blank_len(all, at + 2, false));
                assert(blank_len(all, at, false) == 1 + blank_len(all, at + 1, false));
                lemma_lex_from_same_start(all, at, at + 2);
            }
            assert(lex(below).tokens + Seq::<TokenView>::empty() =~= lex(below).tokens);
        }
    }
}

/// Rules in sequence: from well-formed rule definitions that are written one
/// below the other with blank lines between them, a schema is read that holds
/// one rule for each definition, in the order of the definitions, and each
/// rule binds the name of its definition.
pub proof fn lemma_rules_joined_by_blank_lines(definitions: Seq<Seq<char>>)
    requires
        forall|i: int|
            0 <= i < definitions.len() ==> lex(#[trigger] definitions[i]).failure is None
                && is_rule(lex(definitions[i]).tokens),
    ensures
        parse_stream(lex(joined(definitions))) matches Ok(cddl) && {
            &&& cddl.rules.len() == definitions.len()
            &&& forall|i: int|
                0 <= i < definitions.len() ==> rule_name(#[trigger] cddl.rules[i]) == name_of(
                    lex(definitions[i]).tokens,
                )
        },
{
    lemma_lex_joined(definitions);
    let tokens = tokens_of(definitions);
    assert forall|i: int| 0 <= i < tokens.len() implies is_rule(#[trigger] tokens[i]) by {
        assert(lex(definitions[i]).failure is None);
    }
    lemma_rules_in_sequence(tokens);
    assert(lex(joined(definitions)) == stream_of(in_sequence(tokens)));
}

} // verus!
