//! Splitting text into tokens.
//!
//! [`lex`] says which tokens a text holds. Blanks and comments (from `;` to
//! the end of the line) separate tokens and are dropped. A token is the
//! longest one that starts where the last one ended: `//=` is one token, not
//! `/` and `/=`. A number followed at once by `..` or `...` and a second
//! number is one range token.
use crate::lexer::{tokens_view, LexError, LexErrorKind, TokenStream};
use crate::token::{ByteValue, ByteValueView, Token, TokenView, Value, ValueView};
use vstd::prelude::*;

verus! {

/// The character at index `i`, and `'\0'` past the end of the text.
pub open spec fn char_at(cs: Seq<char>, i: int) -> char {
    if 0 <= i < cs.len() {
        cs[i]
    } else {
        '\0'
    }
}

/// Whether `c` is a decimal digit.
pub open spec fn is_digit(c: char) -> bool {
    '0' <= c <= '9'
}

/// Whether `c` is a blank: a space, a tab, or the end of a line.
pub open spec fn is_space(c: char) -> bool {
    c == ' ' || c == '\t' || c == '\r' || c == '\n'
}

/// Whether a name can start with `c`.
pub open spec fn is_ident_start(c: char) -> bool {
    'a' <= c <= 'z' || 'A' <= c <= 'Z' || c == '_' || c == '@' || c == '$'
}

/// Whether a name can go on with `c`.
pub open spec fn is_ident_part(c: char) -> bool {
    is_ident_start(c) || is_digit(c) || c == '-' || c == '.'
}

/// How many digits stand at `i` and after it without a break.
pub open spec fn digits_len(cs: Seq<char>, i: int) -> nat
    decreases cs.len() - i,
{
    if 0 <= i < cs.len() && is_digit(cs[i]) {
        1 + digits_len(cs, i + 1)
    } else {
        0
    }
}

/// How many characters of a name stand at `i` and after it without a break.
pub open spec fn ident_len(cs: Seq<char>, i: int) -> nat
    decreases cs.len() - i,
{
    if 0 <= i < cs.len() && is_ident_part(cs[i]) {
        1 + ident_len(cs, i + 1)
    } else {
        0
    }
}

/// How many characters of blanks and comments stand at `i` and after it
/// without a break, where `in_comment` says whether `i` lies in a comment.
pub open spec fn blank_len(cs: Seq<char>, i: int, in_comment: bool) -> nat
    decreases cs.len() - i,
{
    if !(0 <= i < cs.len()) {
        0
    } else if in_comment {
        1 + blank_len(cs, i + 1, cs[i] != '\n')
    } else if is_space(cs[i]) {
        1 + blank_len(cs, i + 1, false)
    } else if cs[i] == ';' {
        1 + blank_len(cs, i + 1, true)
    } else {
        0
    }
}

/// How many characters stand between `i` and the next `quote` that no
/// backslash stands in front of: none if there is no such quote.
pub open spec fn quoted_len(cs: Seq<char>, i: int, quote: char) -> Option<nat>
    decreases cs.len() - i,
{
    if !(0 <= i < cs.len()) {
        None
    } else if cs[i] == quote {
        Some(0)
    } else if cs[i] == '\\' {
        if i + 1 >= cs.len() {
            None
        } else {
            match quoted_len(cs, i + 2, quote) {
                Some(n) => Some(n + 2),
                None => None,
            }
        }
    } else {
        match quoted_len(cs, i + 1, quote) {
            Some(n) => Some(n + 1),
            None => None,
        }
    }
}

/// Whether `c` is a decimal digit.
pub fn digit(c: char) -> (b: bool)
    ensures
        b == is_digit(c),
{
    '0' <= c && c <= '9'
}

/// Whether `c` is a blank.
pub fn space(c: char) -> (b: bool)
    ensures
        b == is_space(c),
{
    c == ' ' || c == '\t' || c == '\r' || c == '\n'
}

/// Whether a name can start with `c`.
pub fn ident_start(c: char) -> (b: bool)
    ensures
        b == is_ident_start(c),
{
    ('a' <= c && c <= 'z') || ('A' <= c && c <= 'Z') || c == '_' || c == '@' || c == '$'
}

/// Whether a name can go on with `c`.
pub fn ident_part(c: char) -> (b: bool)
    ensures
        b == is_ident_part(c),
{
    ident_start(c) || digit(c) || c == '-' || c == '.'
}

/// The character `ahead` places after index `i`, and `'\0'` past the end of
/// the text.
pub fn look(chars: &Vec<char>, i: usize, ahead: usize) -> (c: char)
    requires
        i <= chars.len(),
    ensures
        c == char_at(chars@, i + ahead),
{
    if ahead < chars.len() - i {
        chars[i + ahead]
    } else {
        '\0'
    }
}

/// Counts the digits at `from` and after it.
pub fn count_digits(chars: &Vec<char>, from: usize) -> (n: usize)
    requires
        from <= chars.len(),
    ensures
        n == digits_len(chars@, from as int),
        from + n <= chars.len(),
{
    let mut i = from;
    while i < chars.len() && digit(chars[i])
        invariant
            from <= i <= chars.len(),
            digits_len(chars@, from as int) == (i - from) + digits_len(chars@, i as int),
        decreases chars.len() - i,
    {
        i += 1;
    }
    i - from
}

/// Counts the characters of a name at `from` and after it.
pub fn count_ident(chars: &Vec<char>, from: usize) -> (n: usize)
    requires
        from <= chars.len(),
    ensures
        n == ident_len(chars@, from as int),
        from + n <= chars.len(),
{
    let mut i = from;
    while i < chars.len() && ident_part(chars[i])
        invariant
            from <= i <= chars.len(),
            ident_len(chars@, from as int) == (i - from) + ident_len(chars@, i as int),
        decreases chars.len() - i,
    {
        i += 1;
    }
    i - from
}

/// Counts the blanks and comments at `from` and after it.
pub fn count_blank(chars: &Vec<char>, from: usize) -> (n: usize)
    requires
        from <= chars.len(),
    ensures
        n == blank_len(chars@, from as int, false),
        from + n <= chars.len(),
{
    let mut i = from;
    let mut in_comment = false;
    while i < chars.len() && (in_comment || space(chars[i]) || chars[i] == ';')
        invariant
            from <= i <= chars.len(),
            blank_len(chars@, from as int, false) == (i - from) + blank_len(
                chars@,
                i as int,
                in_comment,
            ),
        decreases chars.len() - i,
    {
        if in_comment {
            in_comment = chars[i] != '\n';
        } else {
            in_comment = chars[i] == ';';
        }
        i += 1;
    }
    i - from
}

/// Counts the characters between `from` and the closing `quote`.
pub fn count_quoted(chars: &Vec<char>, from: usize, quote: char) -> (r: Option<usize>)
    requires
        from <= chars.len(),
    ensures
        match r {
            Some(n) => quoted_len(chars@, from as int, quote) == Some(n as nat) && from + n
                < chars.len(),
            None => quoted_len(chars@, from as int, quote) is None,
        },
{
    let mut i = from;
    while i < chars.len() && chars[i] != quote
        invariant
            from <= i <= chars.len(),
            match quoted_len(chars@, i as int, quote) {
                Some(n) => quoted_len(chars@, from as int, quote) == Some((n + i - from) as nat),
                None => quoted_len(chars@, from as int, quote) is None,
            },
        decreases chars.len() - i,
    {
        if chars[i] == '\\' {
            if i + 1 >= chars.len() {
                return None;
            }
            i += 2;
        } else {
            i += 1;
        }
    }
    if i < chars.len() {
        Some(i - from)
    } else {
        None
    }
}

/// The number that the `n` digits from `i` on write in base ten.
pub open spec fn digits_value(cs: Seq<char>, i: int, n: nat) -> nat
    decreases n,
{
    if n == 0 {
        0
    } else {
        digits_value(cs, i, (n - 1) as nat) * 10 + (cs[i + n - 1] as u32 - '0' as u32) as nat
    }
}

/// More digits write no smaller number.
pub proof fn lemma_digits_value_grows(cs: Seq<char>, i: int, k: nat, n: nat)
    requires
        k <= n,
        0 <= i,
        i + n <= cs.len(),
        forall|j: int| i <= j < i + n ==> is_digit(cs[j]),
    ensures
        digits_value(cs, i, k) <= digits_value(cs, i, n),
    decreases n,
{
    if k < n {
        lemma_digits_value_grows(cs, i, k, (n - 1) as nat);
    }
}

/// A run of digits holds digits.
pub proof fn lemma_digits_len(cs: Seq<char>, i: int)
    requires
        0 <= i,
    ensures
        i + digits_len(cs, i) <= cs.len() || digits_len(cs, i) == 0,
        forall|j: int| i <= j < i + digits_len(cs, i) ==> is_digit(cs[j]),
    decreases cs.len() - i,
{
    if i < cs.len() && is_digit(cs[i]) {
        lemma_digits_len(cs, i + 1);
    }
}

/// Reads the `n` digits from `from` on as a number: none if it does not fit
/// in 64 bits.
pub fn read_digits(chars: &Vec<char>, from: usize, n: usize) -> (r: Option<u64>)
    requires
        from + n <= chars.len(),
        forall|j: int| from <= j < from + n ==> is_digit(chars[j]),
    ensures
        match r {
            Some(v) => v == digits_value(chars@, from as int, n as nat),
            None => digits_value(chars@, from as int, n as nat) > u64::MAX,
        },
{
    let mut value: u64 = 0;
    let mut k: usize = 0;
    while k < n
        invariant
            k <= n,
            from + n <= chars.len(),
            forall|j: int| from <= j < from + n ==> is_digit(chars[j]),
            value == digits_value(chars@, from as int, k as nat),
        decreases n - k,
    {
        let d = (chars[from + k] as u32 - '0' as u32) as u64;
        if value > (u64::MAX - d) / 10 {
            proof {
                lemma_digits_value_grows(chars@, from as int, (k + 1) as nat, n as nat);
            }
            return None;
        }
        value = value * 10 + d;
        k += 1;
    }
    Some(value)
}

/// The lengths of the parts of a number: its sign, the digits in front of the
/// point, the point with the digits after it, and the exponent.
pub ghost struct NumberShape {
    pub sign: nat,
    pub integer: nat,
    pub fraction: nat,
    pub exponent: nat,
}

impl NumberShape {
    /// The length of the number.
    pub open spec fn len(self) -> nat {
        self.sign + self.integer + self.fraction + self.exponent
    }
}

/// Whether a number starts at `i`: a digit, or `-` and a digit.
pub open spec fn starts_number(cs: Seq<char>, i: int) -> bool {
    is_digit(char_at(cs, i)) || (char_at(cs, i) == '-' && is_digit(char_at(cs, i + 1)))
}

/// The parts of the number that starts at `i`. A point counts only with a
/// digit after it, and an exponent only with a digit in it.
pub open spec fn number_shape(cs: Seq<char>, i: int) -> NumberShape {
    let sign: nat = if char_at(cs, i) == '-' {
        1
    } else {
        0
    };
    let integer = digits_len(cs, i + sign);
    let point = i + sign + integer;
    let fraction: nat = if char_at(cs, point) == '.' && is_digit(char_at(cs, point + 1)) {
        1 + digits_len(cs, point + 1)
    } else {
        0
    };
    let e = point + fraction;
    let exponent_sign: nat = if char_at(cs, e + 1) == '+' || char_at(cs, e + 1) == '-' {
        1
    } else {
        0
    };
    let exponent: nat = if (char_at(cs, e) == 'e' || char_at(cs, e) == 'E') && is_digit(
        char_at(cs, e + 1 + exponent_sign),
    ) {
        1 + exponent_sign + digits_len(cs, e + 1 + exponent_sign)
    } else {
        0
    };
    NumberShape { sign, integer, fraction, exponent }
}

/// A piece of text that was read: what it stands for, and its length in
/// characters.
pub ghost struct Lexeme<T> {
    pub value: T,
    pub len: nat,
}

/// The number that starts at `i`. With a point or an exponent it is a float,
/// kept as written; else it is an integer, which has to fit in 64 bits.
pub open spec fn number_at(cs: Seq<char>, i: int) -> Result<Lexeme<ValueView>, LexErrorKind> {
    let shape = number_shape(cs, i);
    if shape.fraction > 0 || shape.exponent > 0 {
        Ok(Lexeme { value: ValueView::FLOAT(cs.subrange(i, i + shape.len())), len: shape.len() })
    } else {
        let value = digits_value(cs, i + shape.sign, shape.integer);
        if shape.sign == 1 {
            if value > 0x8000_0000_0000_0000 {
                Err(LexErrorKind::NumberTooLarge)
            } else {
                Ok(Lexeme { value: ValueView::INT((-value) as i64), len: shape.len() })
            }
        } else {
            if value > u64::MAX {
                Err(LexErrorKind::NumberTooLarge)
            } else {
                Ok(Lexeme { value: ValueView::UINT(value as u64), len: shape.len() })
            }
        }
    }
}

/// Reads the number that starts at `from`.
#[verifier::rlimit(50)]
pub fn scan_number(input: &str, chars: &Vec<char>, from: usize) -> (r: Result<
    (Value, usize),
    LexErrorKind,
>)
    requires
        input@ == chars@,
        from < chars.len(),
        starts_number(chars@, from as int),
    ensures
        match number_at(chars@, from as int) {
            Ok(l) => r matches Ok((value, len)) && value@ == l.value && len == l.len && len >= 1
                && from + len <= chars.len(),
            Err(kind) => r == Err::<(Value, usize), LexErrorKind>(kind),
        },
{
    let negative = chars[from] == '-';
    let digits_from = if negative {
        from + 1
    } else {
        from
    };
    let integer = count_digits(chars, digits_from);
    proof {
        lemma_digits_len(chars@, digits_from as int);
    }
    let point = digits_from + integer;
    let mut end = point;
    if look(chars, point, 0) == '.' && digit(look(chars, point, 1)) {
        end = point + 1 + count_digits(chars, point + 1);
    }
    let e = end;
    let c = look(chars, e, 0);
    if c == 'e' || c == 'E' {
        let s = look(chars, e, 1);
        let exponent_sign: usize = if s == '+' || s == '-' {
            1
        } else {
            0
        };
        if digit(look(chars, e, 1 + exponent_sign)) {
            end = e + 1 + exponent_sign;
            end = end + count_digits(chars, end);
        }
    }
    if end > point {
        let text = input.substring_char(from, end).to_owned();
        return Ok((Value::FLOAT(text), end - from));
    }
    match read_digits(chars, digits_from, integer) {
        None => Err(LexErrorKind::NumberTooLarge),
        Some(value) => {
            if negative {
                if value > 0x8000_0000_0000_0000 {
                    Err(LexErrorKind::NumberTooLarge)
                } else if value == 0x8000_0000_0000_0000 {
                    Ok((Value::INT(i64::MIN), end - from))
                } else {
                    Ok((Value::INT(-(value as i64)), end - from))
                }
            } else {
                Ok((Value::UINT(value), end - from))
            }
        },
    }
}

/// The number that starts at `i`, or the range that it starts: a number with
/// `..` or `...` and a second number right behind it.
pub open spec fn literal_at(cs: Seq<char>, i: int) -> Result<Lexeme<TokenView>, LexErrorKind> {
    match number_at(cs, i) {
        Err(kind) => Err(kind),
        Ok(lower) => {
            let dots_at = i + lower.len;
            if char_at(cs, dots_at) == '.' && char_at(cs, dots_at + 1) == '.' {
                let dots: nat = if char_at(cs, dots_at + 2) == '.' {
                    3
                } else {
                    2
                };
                if !starts_number(cs, dots_at + dots) {
                    Err(LexErrorKind::MalformedRange)
                } else {
                    match number_at(cs, dots_at + dots) {
                        Err(kind) => Err(kind),
                        Ok(upper) => Ok(
                            Lexeme {
                                value: TokenView::RANGE {
                                    lower: lower.value,
                                    upper: upper.value,
                                    is_inclusive: dots == 2,
                                },
                                len: lower.len + dots + upper.len,
                            },
                        ),
                    }
                }
            } else {
                Ok(Lexeme { value: TokenView::VALUE(lower.value), len: lower.len })
            }
        },
    }
}

/// The `n` characters from `i` on as bytes: none unless all of them are
/// ASCII.
pub open spec fn ascii_bytes(cs: Seq<char>, i: int, n: nat) -> Option<Seq<u8>> {
    if forall|k: int| i <= k < i + n ==> cs[k] <= '\u{7f}' {
        Some(Seq::new(n, |k: int| cs[i + k] as u8))
    } else {
        None
    }
}

/// The byte string whose opening quote stands at `quote_at`, as a token that
/// starts `prefix` characters in front of the quote. The bytes are those
/// between the quotes, as written.
pub open spec fn byte_string_at(cs: Seq<char>, quote_at: int, prefix: nat) -> Result<
    Lexeme<Seq<u8>>,
    LexErrorKind,
> {
    match quoted_len(cs, quote_at + 1, '\'') {
        None => Err(LexErrorKind::UnterminatedString),
        Some(n) => match ascii_bytes(cs, quote_at + 1, n) {
            None => Err(LexErrorKind::NonAsciiByte),
            Some(bytes) => Ok(Lexeme { value: bytes, len: prefix + n + 2 }),
        },
    }
}

/// A token that carries nothing, with its length.
pub open spec fn sign(token: TokenView, len: nat) -> Result<Lexeme<TokenView>, LexErrorKind> {
    Ok(Lexeme { value: token, len })
}

/// The token that starts at `i`, where `i` is the index of a character that
/// is neither blank nor in a comment.
#[verifier::opaque]
pub open spec fn token_at(cs: Seq<char>, i: int) -> Result<Lexeme<TokenView>, LexErrorKind> {
    let c = char_at(cs, i);
    let c1 = char_at(cs, i + 1);
    let c2 = char_at(cs, i + 2);
    if c == '=' {
        if c1 == '>' {
            sign(TokenView::ARROWMAP, 2)
        } else {
            sign(TokenView::ASSIGN, 1)
        }
    } else if c == '/' {
        if c1 == '/' && c2 == '=' {
            sign(TokenView::GCHOICEALT, 3)
        } else if c1 == '/' {
            sign(TokenView::GCHOICE, 2)
        } else if c1 == '=' {
            sign(TokenView::TCHOICEALT, 2)
        } else {
            sign(TokenView::TCHOICE, 1)
        }
    } else if c == '<' {
        sign(TokenView::LANGLEBRACKET, 1)
    } else if c == '>' {
        sign(TokenView::RANGLEBRACKET, 1)
    } else if c == '(' {
        sign(TokenView::LPAREN, 1)
    } else if c == ')' {
        sign(TokenView::RPAREN, 1)
    } else if c == '{' {
        sign(TokenView::LBRACE, 1)
    } else if c == '}' {
        sign(TokenView::RBRACE, 1)
    } else if c == '[' {
        sign(TokenView::LBRACKET, 1)
    } else if c == ']' {
        sign(TokenView::RBRACKET, 1)
    } else if c == ',' {
        sign(TokenView::COMMA, 1)
    } else if c == ':' {
        sign(TokenView::COLON, 1)
    } else if c == '?' {
        sign(TokenView::OPTIONAL, 1)
    } else if c == '*' {
        sign(TokenView::ASTERISK, 1)
    } else if c == '+' {
        sign(TokenView::ONEORMORE, 1)
    } else if c == '~' {
        sign(TokenView::UNWRAP, 1)
    } else if c == '&' {
        sign(TokenView::GTOCHOICE, 1)
    } else if c == '^' {
        sign(TokenView::CUT, 1)
    } else if c == '"' {
        match quoted_len(cs, i + 1, '"') {
            None => Err(LexErrorKind::UnterminatedString),
            Some(n) => Ok(
                Lexeme {
                    value: TokenView::VALUE(ValueView::TEXT(cs.subrange(i + 1, i + 1 + n))),
                    len: n + 2,
                },
            ),
        }
    } else if c == '\'' {
        match byte_string_at(cs, i, 0) {
            Err(kind) => Err(kind),
            Ok(b) => Ok(
                Lexeme {
                    value: TokenView::VALUE(ValueView::BYTE(ByteValueView::UTF8(b.value))),
                    len: b.len,
                },
            ),
        }
    } else if c == 'h' && c1 == '\'' {
        match byte_string_at(cs, i + 1, 1) {
            Err(kind) => Err(kind),
            Ok(b) => Ok(
                Lexeme {
                    value: TokenView::VALUE(ValueView::BYTE(ByteValueView::B16(b.value))),
                    len: b.len,
                },
            ),
        }
    } else if c == 'b' && c1 == '6' && c2 == '4' && char_at(cs, i + 3) == '\'' {
        match byte_string_at(cs, i + 3, 3) {
            Err(kind) => Err(kind),
            Ok(b) => Ok(
                Lexeme {
                    value: TokenView::VALUE(ValueView::BYTE(ByteValueView::B64(b.value))),
                    len: b.len,
                },
            ),
        }
    } else if starts_number(cs, i) {
        literal_at(cs, i)
    } else if c == '-' {
        Err(LexErrorKind::MalformedNumber)
    } else if is_ident_start(c) {
        Ok(
            Lexeme {
                value: TokenView::IDENT(cs.subrange(i, i + 1 + ident_len(cs, i + 1))),
                len: 1 + ident_len(cs, i + 1),
            },
        )
    } else {
        Err(LexErrorKind::UnexpectedCharacter)
    }
}

/// A token has at least one character.
pub proof fn lemma_token_at_has_a_character(cs: Seq<char>, i: int)
    ensures
        token_at(cs, i) matches Ok(l) ==> l.len >= 1,
{
    reveal(token_at);
}

/// How many characters stand at `i` and after it.
pub open spec fn chars_left(cs: Seq<char>, i: int) -> nat {
    if i < cs.len() {
        (cs.len() - i) as nat
    } else {
        0
    }
}

/// The tokens of the text from `i` on. The lexer fails at the first token
/// that it cannot read, and the failure names the index at which that token
/// starts.
pub open spec fn lex_from(cs: Seq<char>, i: int) -> TokenStream
    decreases chars_left(cs, i),
{
    let start = i + blank_len(cs, i, false);
    if i < 0 || start >= cs.len() {
        TokenStream { tokens: Seq::empty(), failure: None }
    } else {
        proof {
            lemma_token_at_has_a_character(cs, start);
        }
        match token_at(cs, start) {
            Err(kind) => TokenStream {
                tokens: Seq::empty(),
                failure: Some(LexError { position: start as usize, kind }),
            },
            Ok(first) => {
                let rest = lex_from(cs, start + first.len);
                TokenStream { tokens: seq![first.value] + rest.tokens, failure: rest.failure }
            },
        }
    }
}

/// The tokens of a text.
pub open spec fn lex(cs: Seq<char>) -> TokenStream {
    lex_from(cs, 0)
}

/// Reads the number that starts at `from`, or the range that it starts.
pub fn scan_literal(input: &str, chars: &Vec<char>, from: usize) -> (r: Result<
    (Token, usize),
    LexErrorKind,
>)
    requires
        input@ == chars@,
        from < chars.len(),
        starts_number(chars@, from as int),
    ensures
        match literal_at(chars@, from as int) {
            Ok(l) => r matches Ok((token, len)) && token@ == l.value && len == l.len && len >= 1
                && from + len <= chars.len() && token@ != TokenView::EOF,
            Err(kind) => r == Err::<(Token, usize), LexErrorKind>(kind),
        },
{
    let (lower, len) = scan_number(input, chars, from)?;
    let dots_at = from + len;
    if look(chars, dots_at, 0) == '.' && look(chars, dots_at, 1) == '.' {
        let dots: usize = if look(chars, dots_at, 2) == '.' {
            3
        } else {
            2
        };
        let c = look(chars, dots_at, dots);
        if !(digit(c) || (c == '-' && digit(look(chars, dots_at, dots + 1)))) {
            return Err(LexErrorKind::MalformedRange);
        }
        let upper_at = dots_at + dots;
        let (upper, upper_len) = scan_number(input, chars, upper_at)?;
        Ok((Token::RANGE { lower, upper, is_inclusive: dots == 2 }, len + dots + upper_len))
    } else {
        Ok((Token::VALUE(lower), len))
    }
}

/// Reads the byte string whose opening quote stands at `quote_at`, as a token
/// that starts `prefix` characters in front of the quote.
pub fn scan_byte_string(chars: &Vec<char>, quote_at: usize, prefix: usize) -> (r: Result<
    (Vec<u8>, usize),
    LexErrorKind,
>)
    requires
        quote_at < chars.len(),
        prefix <= quote_at,
    ensures
        match byte_string_at(chars@, quote_at as int, prefix as nat) {
            Ok(l) => r matches Ok((bytes, len)) && bytes@ == l.value && len == l.len && len >= 1
                && quote_at - prefix + len <= chars.len(),
            Err(kind) => r == Err::<(Vec<u8>, usize), LexErrorKind>(kind),
        },
{
    let from = quote_at + 1;
    let n = match count_quoted(chars, from, '\'') {
        Some(n) => n,
        None => {
            return Err(LexErrorKind::UnterminatedString);
        },
    };
    let mut bytes: Vec<u8> = Vec::new();
    let mut k: usize = 0;
    while k < n
        invariant
            k <= n,
            from + n < chars.len(),
            from == quote_at + 1,
            quoted_len(chars@, from as int, '\'') == Some(n as nat),
            forall|j: int| from <= j < from + k ==> chars@[j] <= '\u{7f}',
            bytes@ =~= Seq::new(k as nat, |j: int| chars@[from + j] as u8),
        decreases n - k,
    {
        let c = chars[from + k];
        if c > '\u{7f}' {
            assert(!(chars@[from + k] <= '\u{7f}'));
            return Err(LexErrorKind::NonAsciiByte);
        }
        bytes.push(c as u8);
        k += 1;
    }
    assert(ascii_bytes(chars@, from as int, n as nat) == Some(bytes@));
    Ok((bytes, prefix + n + 2))
}

/// Reads the token that starts at `from`.
pub fn scan_token(input: &str, chars: &Vec<char>, from: usize) -> (r: Result<
    (Token, usize),
    LexErrorKind,
>)
    requires
        input@ == chars@,
        from < chars.len(),
    ensures
        match token_at(chars@, from as int) {
            Ok(l) => r matches Ok((token, len)) && token@ == l.value && len == l.len && len >= 1
                && from + len <= chars.len() && token@ != TokenView::EOF,
            Err(kind) => r == Err::<(Token, usize), LexErrorKind>(kind),
        },
{
    proof {
        reveal(token_at);
    }
    let c = chars[from];
    let c1 = look(chars, from, 1);
    let c2 = look(chars, from, 2);
    if c == '=' {
        if c1 == '>' {
            Ok((Token::ARROWMAP, 2))
        } else {
            Ok((Token::ASSIGN, 1))
        }
    } else if c == '/' {
        if c1 == '/' && c2 == '=' {
            Ok((Token::GCHOICEALT, 3))
        } else if c1 == '/' {
            Ok((Token::GCHOICE, 2))
        } else if c1 == '=' {
            Ok((Token::TCHOICEALT, 2))
        } else {
            Ok((Token::TCHOICE, 1))
        }
    } else if c == '<' {
        Ok((Token::LANGLEBRACKET, 1))
    } else if c == '>' {
        Ok((Token::RANGLEBRACKET, 1))
    } else if c == '(' {
        Ok((Token::LPAREN, 1))
    } else if c == ')' {
        Ok((Token::RPAREN, 1))
    } else if c == '{' {
        Ok((Token::LBRACE, 1))
    } else if c == '}' {
        Ok((Token::RBRACE, 1))
    } else if c == '[' {
        Ok((Token::LBRACKET, 1))
    } else if c == ']' {
        Ok((Token::RBRACKET, 1))
    } else if c == ',' {
        Ok((Token::COMMA, 1))
    } else if c == ':' {
        Ok((Token::COLON, 1))
    } else if c == '?' {
        Ok((Token::OPTIONAL, 1))
    } else if c == '*' {
        Ok((Token::ASTERISK, 1))
    } else if c == '+' {
        Ok((Token::ONEORMORE, 1))
    } else if c == '~' {
        Ok((Token::UNWRAP, 1))
    } else if c == '&' {
        Ok((Token::GTOCHOICE, 1))
    } else if c == '^' {
        Ok((Token::CUT, 1))
    } else if c == '"' {
        match count_quoted(chars, from + 1, '"') {
            None => Err(LexErrorKind::UnterminatedString),
            Some(n) => {
                let text = input.substring_char(from + 1, from + 1 + n).to_owned();
                Ok((Token::VALUE(Value::TEXT(text)), n + 2))
            },
        }
    } else if c == '\'' {
        let (bytes, len) = scan_byte_string(chars, from, 0)?;
        Ok((Token::VALUE(Value::BYTE(ByteValue::UTF8(bytes))), len))
    } else if c == 'h' && c1 == '\'' {
        let (bytes, len) = scan_byte_string(chars, from + 1, 1)?;
        Ok((Token::VALUE(Value::BYTE(ByteValue::B16(bytes))), len))
    } else if c == 'b' && c1 == '6' && c2 == '4' && look(chars, from, 3) == '\'' {
        let (bytes, len) = scan_byte_string(chars, from + 3, 3)?;
        Ok((Token::VALUE(Value::BYTE(ByteValue::B64(bytes))), len))
    } else if digit(c) || (c == '-' && digit(c1)) {
        scan_literal(input, chars, from)
    } else if c == '-' {
        Err(LexErrorKind::MalformedNumber)
    } else if ident_start(c) {
        let n = count_ident(chars, from + 1);
        let name = input.substring_char(from, from + 1 + n).to_owned();
        Ok((Token::IDENT(name), 1 + n))
    } else {
        Err(LexErrorKind::UnexpectedCharacter)
    }
}

/// The characters of a text.
pub fn to_chars(input: &str) -> (chars: Vec<char>)
    ensures
        chars@ == input@,
{
    let n = input.unicode_len();
    let mut chars: Vec<char> = Vec::new();
    let mut i: usize = 0;
    while i < n
        invariant
            i <= n,
            n == input@.len(),
            chars@ == input@.take(i as int),
        decreases n - i,
    {
        chars.push(input.get_char(i));
        assert(chars@ =~= input@.take(i + 1));
        i += 1;
    }
    assert(input@.take(n as int) =~= input@);
    chars
}

/// Splits a text into tokens: the tokens in front of the first one that
/// cannot be read, and the failure there if there is one.
pub fn tokenize(input: &str) -> (r: (Vec<Token>, Option<LexError>))
    ensures
        tokens_view(r.0@) == lex(input@).tokens,
        r.1 == lex(input@).failure,
        forall|i: int| 0 <= i < r.0.len() ==> r.0[i]@ != TokenView::EOF,
{
    let chars = to_chars(input);
    let mut tokens: Vec<Token> = Vec::new();
    let mut i: usize = 0;
    assert(tokens_view(tokens@) + lex_from(chars@, 0).tokens =~= lex_from(chars@, 0).tokens);
    loop
        invariant
            input@ == chars@,
            i <= chars.len(),
            lex(chars@).tokens == tokens_view(tokens@) + lex_from(chars@, i as int).tokens,
            lex(chars@).failure == lex_from(chars@, i as int).failure,
            forall|k: int| 0 <= k < tokens.len() ==> tokens[k]@ != TokenView::EOF,
        decreases chars.len() - i,
    {
        let start = i + count_blank(&chars, i);
        if start >= chars.len() {
            assert(tokens_view(tokens@) + Seq::<TokenView>::empty() =~= tokens_view(tokens@));
            return (tokens, None);
        }
        match scan_token(input, &chars, start) {
            Err(kind) => {
                assert(tokens_view(tokens@) + Seq::<TokenView>::empty() =~= tokens_view(
                    tokens@,
                ));
                return (tokens, Some(LexError { position: start, kind }));
            },
            Ok((token, len)) => {
                let ghost before = tokens_view(tokens@);
                let ghost rest = lex_from(chars@, start + len);
                tokens.push(token);
                assert(tokens_view(tokens@) =~= before + seq![token@]);
                assert(before + (seq![token@] + rest.tokens) =~= before + seq![token@]
                    + rest.tokens);
                i = start + len;
            },
        }
    }
}

} // verus!
