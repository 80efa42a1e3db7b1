//! Tokens and literal values.
//!
//! Each type has a mathematical value, reached with `@`, in which a string is a
//! sequence of characters and a byte string a sequence of bytes. Two tokens are
//! equal when their values are.
use vstd::prelude::*;
use vstd::std_specs::cmp::PartialEqSpecImpl;

verus! {

/// A byte string literal, kept in the encoding it was written in.
#[derive(Debug)]
pub enum ByteValue {
    /// Written between single quotes: `'bytes'`.
    UTF8(Vec<u8>),
    /// Written in base 16: `h'6279'`.
    B16(Vec<u8>),
    /// Written in base 64: `b64'Ynl0ZXM'`.
    B64(Vec<u8>),
}

/// A literal value.
#[derive(Debug)]
pub enum Value {
    /// A negative integer.
    INT(i64),
    /// An unsigned integer.
    UINT(u64),
    /// A number with a fraction or an exponent, kept as its decimal text.
    FLOAT(String),
    /// A text string, without its quotes.
    TEXT(String),
    /// A byte string.
    BYTE(ByteValue),
}

/// One lexical token of a schema.
#[derive(Debug)]
pub enum Token {
    /// A name.
    IDENT(String),
    /// A literal.
    VALUE(Value),
    /// Two literals joined by `..` (upper bound included) or `...` (excluded).
    RANGE { lower: Value, upper: Value, is_inclusive: bool },
    /// `=`
    ASSIGN,
    /// `/=`
    TCHOICEALT,
    /// `//=`
    GCHOICEALT,
    /// `/`
    TCHOICE,
    /// `//`
    GCHOICE,
    /// `<`
    LANGLEBRACKET,
    /// `>`
    RANGLEBRACKET,
    /// `(`
    LPAREN,
    /// `)`
    RPAREN,
    /// `{`
    LBRACE,
    /// `}`
    RBRACE,
    /// `[`
    LBRACKET,
    /// `]`
    RBRACKET,
    /// `,`
    COMMA,
    /// `:`
    COLON,
    /// `=>`
    ARROWMAP,
    /// `?`
    OPTIONAL,
    /// `*`
    ASTERISK,
    /// `+`
    ONEORMORE,
    /// `~`
    UNWRAP,
    /// `&`
    GTOCHOICE,
    /// `^`
    CUT,
    /// The end of the input.
    EOF,
}

/// What sort of token a [`Token`] is, leaving aside what it carries.
#[derive(Debug, Clone, Copy, PartialEq, Eq, Structural)]
pub enum TokenKind {
    IDENT,
    VALUE,
    RANGE,
    ASSIGN,
    TCHOICEALT,
    GCHOICEALT,
    TCHOICE,
    GCHOICE,
    LANGLEBRACKET,
    RANGLEBRACKET,
    LPAREN,
    RPAREN,
    LBRACE,
    RBRACE,
    LBRACKET,
    RBRACKET,
    COMMA,
    COLON,
    ARROWMAP,
    OPTIONAL,
    ASTERISK,
    ONEORMORE,
    UNWRAP,
    GTOCHOICE,
    CUT,
    EOF,
}

/// The mathematical value of a [`ByteValue`].
pub ghost enum ByteValueView {
    UTF8(Seq<u8>),
    B16(Seq<u8>),
    B64(Seq<u8>),
}

/// The mathematical value of a [`Value`].
pub ghost enum ValueView {
    INT(i64),
    UINT(u64),
    FLOAT(Seq<char>),
    TEXT(Seq<char>),
    BYTE(ByteValueView),
}

/// The mathematical value of a [`Token`].
pub ghost enum TokenView {
    IDENT(Seq<char>),
    VALUE(ValueView),
    RANGE { lower: ValueView, upper: ValueView, is_inclusive: bool },
    ASSIGN,
    TCHOICEALT,
    GCHOICEALT,
    TCHOICE,
    GCHOICE,
    LANGLEBRACKET,
    RANGLEBRACKET,
    LPAREN,
    RPAREN,
    LBRACE,
    RBRACE,
    LBRACKET,
    RBRACKET,
    COMMA,
    COLON,
    ARROWMAP,
    OPTIONAL,
    ASTERISK,
    ONEORMORE,
    UNWRAP,
    GTOCHOICE,
    CUT,
    EOF,
}

impl ByteValue {
    pub open spec fn view(&self) -> ByteValueView
        decreases self,
    {
        match self {
            ByteValue::UTF8(x) => ByteValueView::UTF8(x@),
            ByteValue::B16(x) => ByteValueView::B16(x@),
            ByteValue::B64(x) => ByteValueView::B64(x@),
        }
    }
}

impl Value {
    pub open spec fn view(&self) -> ValueView
        decreases self,
    {
        match self {
            Value::INT(x) => ValueView::INT(*x),
            Value::UINT(x) => ValueView::UINT(*x),
            Value::FLOAT(x) => ValueView::FLOAT(x@),
            Value::TEXT(x) => ValueView::TEXT(x@),
            Value::BYTE(x) => ValueView::BYTE(x@),
        }
    }
}

impl Token {
    pub open spec fn view(&self) -> TokenView
        decreases self,
    {
        match self {
            Token::IDENT(x) => TokenView::IDENT(x@),
            Token::VALUE(x) => TokenView::VALUE(x@),
            Token::RANGE { lower, upper, is_inclusive } => {
                TokenView::RANGE { lower: lower@, upper: upper@, is_inclusive: *is_inclusive }
            },
            Token::ASSIGN => TokenView::ASSIGN,
            Token::TCHOICEALT => TokenView::TCHOICEALT,
            Token::GCHOICEALT => TokenView::GCHOICEALT,
            Token::TCHOICE => TokenView::TCHOICE,
            Token::GCHOICE => TokenView::GCHOICE,
            Token::LANGLEBRACKET => TokenView::LANGLEBRACKET,
            Token::RANGLEBRACKET => TokenView::RANGLEBRACKET,
            Token::LPAREN => TokenView::LPAREN,
            Token::RPAREN => TokenView::RPAREN,
            Token::LBRACE => TokenView::LBRACE,
            Token::RBRACE => TokenView::RBRACE,
            Token::LBRACKET => TokenView::LBRACKET,
            Token::RBRACKET => TokenView::RBRACKET,
            Token::COMMA => TokenView::COMMA,
            Token::COLON => TokenView::COLON,
            Token::ARROWMAP => TokenView::ARROWMAP,
            Token::OPTIONAL => TokenView::OPTIONAL,
            Token::ASTERISK => TokenView::ASTERISK,
            Token::ONEORMORE => TokenView::ONEORMORE,
            Token::UNWRAP => TokenView::UNWRAP,
            Token::GTOCHOICE => TokenView::GTOCHOICE,
            Token::CUT => TokenView::CUT,
            Token::EOF => TokenView::EOF,
        }
    }
}

impl TokenView {
    /// The sort of the token.
    pub open spec fn kind(self) -> TokenKind {
        match self {
            TokenView::IDENT(_) => TokenKind::IDENT,
            TokenView::VALUE(_) => TokenKind::VALUE,
            TokenView::RANGE { .. } => TokenKind::RANGE,
            TokenView::ASSIGN => TokenKind::ASSIGN,
            TokenView::TCHOICEALT => TokenKind::TCHOICEALT,
            TokenView::GCHOICEALT => TokenKind::GCHOICEALT,
            TokenView::TCHOICE => TokenKind::TCHOICE,
            TokenView::GCHOICE => TokenKind::GCHOICE,
            TokenView::LANGLEBRACKET => TokenKind::LANGLEBRACKET,
            TokenView::RANGLEBRACKET => TokenKind::RANGLEBRACKET,
            TokenView::LPAREN => TokenKind::LPAREN,
            TokenView::RPAREN => TokenKind::RPAREN,
            TokenView::LBRACE => TokenKind::LBRACE,
            TokenView::RBRACE => TokenKind::RBRACE,
            TokenView::LBRACKET => TokenKind::LBRACKET,
            TokenView::RBRACKET => TokenKind::RBRACKET,
            TokenView::COMMA => TokenKind::COMMA,
            TokenView::COLON => TokenKind::COLON,
            TokenView::ARROWMAP => TokenKind::ARROWMAP,
            TokenView::OPTIONAL => TokenKind::OPTIONAL,
            TokenView::ASTERISK => TokenKind::ASTERISK,
            TokenView::ONEORMORE => TokenKind::ONEORMORE,
            TokenView::UNWRAP => TokenKind::UNWRAP,
            TokenView::GTOCHOICE => TokenKind::GTOCHOICE,
            TokenView::CUT => TokenKind::CUT,
            TokenView::EOF => TokenKind::EOF,
        }
    }
}

impl Token {
    /// The sort of the token.
    pub fn kind(&self) -> (k: TokenKind)
        ensures
            k == self@.kind(),
    {
        match self {
            Token::IDENT(_) => TokenKind::IDENT,
            Token::VALUE(_) => TokenKind::VALUE,
            Token::RANGE { .. } => TokenKind::RANGE,
            Token::ASSIGN => TokenKind::ASSIGN,
            Token::TCHOICEALT => TokenKind::TCHOICEALT,
            Token::GCHOICEALT => TokenKind::GCHOICEALT,
            Token::TCHOICE => TokenKind::TCHOICE,
            Token::GCHOICE => TokenKind::GCHOICE,
            Token::LANGLEBRACKET => TokenKind::LANGLEBRACKET,
            Token::RANGLEBRACKET => TokenKind::RANGLEBRACKET,
            Token::LPAREN => TokenKind::LPAREN,
            Token::RPAREN => TokenKind::RPAREN,
            Token::LBRACE => TokenKind::LBRACE,
            Token::RBRACE => TokenKind::RBRACE,
            Token::LBRACKET => TokenKind::LBRACKET,
            Token::RBRACKET => TokenKind::RBRACKET,
            Token::COMMA => TokenKind::COMMA,
            Token::COLON => TokenKind::COLON,
            Token::ARROWMAP => TokenKind::ARROWMAP,
            Token::OPTIONAL => TokenKind::OPTIONAL,
            Token::ASTERISK => TokenKind::ASTERISK,
            Token::ONEORMORE => TokenKind::ONEORMORE,
            Token::UNWRAP => TokenKind::UNWRAP,
            Token::GTOCHOICE => TokenKind::GTOCHOICE,
            Token::CUT => TokenKind::CUT,
            Token::EOF => TokenKind::EOF,
        }
    }
}

/// Whether the two byte strings hold the same bytes.
pub fn bytes_equal(a: &Vec<u8>, b: &Vec<u8>) -> (r: bool)
    ensures
        r == (a@ == b@),
{
    if a.len() != b.len() {
        return false;
    }
    let mut i: usize = 0;
    while i < a.len()
        invariant
            i <= a.len(),
            a.len() == b.len(),
            forall|j: int| 0 <= j < i ==> a[j] == b[j],
        decreases a.len() - i,
    {
        if a[i] != b[i] {
            return false;
        }
        i += 1;
    }
    assert(a@ =~= b@);
    true
}

/// A copy of the byte string.
pub fn bytes_clone(a: &Vec<u8>) -> (r: Vec<u8>)
    ensures
        r@ == a@,
{
    let r = a.clone();
    assert(r@ =~= a@);
    r
}

impl Clone for ByteValue {
    fn clone(&self) -> (r: ByteValue)
        ensures
            r@ == self@,
    {
        match self {
            ByteValue::UTF8(x) => ByteValue::UTF8(bytes_clone(x)),
            ByteValue::B16(x) => ByteValue::B16(bytes_clone(x)),
            ByteValue::B64(x) => ByteValue::B64(bytes_clone(x)),
        }
    }
}

impl Clone for Value {
    fn clone(&self) -> (r: Value)
        ensures
            r@ == self@,
    {
        match self {
            Value::INT(x) => Value::INT(*x),
            Value::UINT(x) => Value::UINT(*x),
            Value::FLOAT(x) => Value::FLOAT(x.clone()),
            Value::TEXT(x) => Value::TEXT(x.clone()),
            Value::BYTE(x) => Value::BYTE(x.clone()),
        }
    }
}

impl Clone for Token {
    fn clone(&self) -> (r: Token)
        ensures
            r@ == self@,
    {
        match self {
            Token::IDENT(x) => Token::IDENT(x.clone()),
            Token::VALUE(x) => Token::VALUE(x.clone()),
            Token::RANGE { lower, upper, is_inclusive } => Token::RANGE {
                lower: lower.clone(),
                upper: upper.clone(),
                is_inclusive: *is_inclusive,
            },
            Token::ASSIGN => Token::ASSIGN,
            Token::TCHOICEALT => Token::TCHOICEALT,
            Token::GCHOICEALT => Token::GCHOICEALT,
            Token::TCHOICE => Token::TCHOICE,
            Token::GCHOICE => Token::GCHOICE,
            Token::LANGLEBRACKET => Token::LANGLEBRACKET,
            Token::RANGLEBRACKET => Token::RANGLEBRACKET,
            Token::LPAREN => Token::LPAREN,
            Token::RPAREN => Token::RPAREN,
            Token::LBRACE => Token::LBRACE,
            Token::RBRACE => Token::RBRACE,
            Token::LBRACKET => Token::LBRACKET,
            Token::RBRACKET => Token::RBRACKET,
            Token::COMMA => Token::COMMA,
            Token::COLON => Token::COLON,
            Token::ARROWMAP => Token::ARROWMAP,
            Token::OPTIONAL => Token::OPTIONAL,
            Token::ASTERISK => Token::ASTERISK,
            Token::ONEORMORE => Token::ONEORMORE,
            Token::UNWRAP => Token::UNWRAP,
            Token::GTOCHOICE => Token::GTOCHOICE,
            Token::CUT => Token::CUT,
            Token::EOF => Token::EOF,
        }
    }
}

impl ByteValue {
    /// Whether the two nodes have the same shape and content.
    pub fn equals(&self, other: &ByteValue) -> (r: bool)
        ensures
            r == (self@ == other@),
        decreases self,
    {
        match self {
            ByteValue::UTF8(x) => match other {
                ByteValue::UTF8(other_x) => bytes_equal(x, other_x),
                _ => false,
            },
            ByteValue::B16(x) => match other {
                ByteValue::B16(other_x) => bytes_equal(x, other_x),
                _ => false,
            },
            ByteValue::B64(x) => match other {
                ByteValue::B64(other_x) => bytes_equal(x, other_x),
                _ => false,
            },
        }
    }
}

impl PartialEq for ByteValue {
    fn eq(&self, other: &ByteValue) -> (r: bool) {
        self.equals(other)
    }
}

impl PartialEqSpecImpl for ByteValue {
    open spec fn obeys_eq_spec() -> bool {
        true
    }

    open spec fn eq_spec(&self, other: &ByteValue) -> bool {
        self@ == other@
    }
}

impl Value {
    /// Whether the two nodes have the same shape and content.
    pub fn equals(&self, other: &Value) -> (r: bool)
        ensures
            r == (self@ == other@),
        decreases self,
    {
        match self {
            Value::INT(x) => match other {
                Value::INT(other_x) => *x == *other_x,
                _ => false,
            },
            Value::UINT(x) => match other {
                Value::UINT(other_x) => *x == *other_x,
                _ => false,
            },
            Value::FLOAT(x) => match other {
                Value::FLOAT(other_x) => *x == *other_x,
                _ => false,
            },
            Value::TEXT(x) => match other {
                Value::TEXT(other_x) => *x == *other_x,
                _ => false,
            },
            Value::BYTE(x) => match other {
                Value::BYTE(other_x) => x.equals(other_x),
                _ => false,
            },
        }
    }
}

impl PartialEq for Value {
    fn eq(&self, other: &Value) -> (r: bool) {
        self.equals(other)
    }
}

impl PartialEqSpecImpl for Value {
    open spec fn obeys_eq_spec() -> bool {
        true
    }

    open spec fn eq_spec(&self, other: &Value) -> bool {
        self@ == other@
    }
}

impl Token {
    /// Whether the two nodes have the same shape and content.
    pub fn equals(&self, other: &Token) -> (r: bool)
        ensures
            r == (self@ == other@),
        decreases self,
    {
        match self {
            Token::IDENT(x) => match other {
                Token::IDENT(other_x) => *x == *other_x,
                _ => false,
            },
            Token::VALUE(x) => match other {
                Token::VALUE(other_x) => x.equals(other_x),
                _ => false,
            },
            Token::RANGE { lower, upper, is_inclusive } => match other {
                Token::RANGE {
                    lower: other_lower,
                    upper: other_upper,
                    is_inclusive: other_is_inclusive,
                } => {
                    lower.equals(other_lower) && upper.equals(other_upper) && *is_inclusive
                        == *other_is_inclusive
                },
                _ => false,
            },
            Token::ASSIGN => match other {
                Token::ASSIGN => true,
                _ => false,
            },
            Token::TCHOICEALT => match other {
                Token::TCHOICEALT => true,
                _ => false,
            },
            Token::GCHOICEALT => match other {
                Token::GCHOICEALT => true,
                _ => false,
            },
            Token::TCHOICE => match other {
                Token::TCHOICE => true,
                _ => false,
            },
            Token::GCHOICE => match other {
                Token::GCHOICE => true,
                _ => false,
            },
            Token::LANGLEBRACKET => match other {
                Token::LANGLEBRACKET => true,
                _ => false,
            },
            Token::RANGLEBRACKET => match other {
                Token::RANGLEBRACKET => true,
                _ => false,
            },
            Token::LPAREN => match other {
                Token::LPAREN => true,
                _ => false,
            },
            Token::RPAREN => match other {
                Token::RPAREN => true,
                _ => false,
            },
            Token::LBRACE => match other {
                Token::LBRACE => true,
                _ => false,
            },
            Token::RBRACE => match other {
                Token::RBRACE => true,
                _ => false,
            },
            Token::LBRACKET => match other {
                Token::LBRACKET => true,
                _ => false,
            },
            Token::RBRACKET => match other {
                Token::RBRACKET => true,
                _ => false,
            },
            Token::COMMA => match other {
                Token::COMMA => true,
                _ => false,
            },
            Token::COLON => match other {
                Token::COLON => true,
                _ => false,
            },
            Token::ARROWMAP => match other {
                Token::ARROWMAP => true,
                _ => false,
            },
            Token::OPTIONAL => match other {
                Token::OPTIONAL => true,
                _ => false,
            },
            Token::ASTERISK => match other {
                Token::ASTERISK => true,
                _ => false,
            },
            Token::ONEORMORE => match other {
                Token::ONEORMORE => true,
                _ => false,
            },
            Token::UNWRAP => match other {
                Token::UNWRAP => true,
                _ => false,
            },
            Token::GTOCHOICE => match other {
                Token::GTOCHOICE => true,
                _ => false,
            },
            Token::CUT => match other {
                Token::CUT => true,
                _ => false,
            },
            Token::EOF => match other {
                Token::EOF => true,
                _ => false,
            },
        }
    }
}

impl PartialEq for Token {
    fn eq(&self, other: &Token) -> (r: bool) {
        self.equals(other)
    }
}

impl PartialEqSpecImpl for Token {
    open spec fn obeys_eq_spec() -> bool {
        true
    }

    open spec fn eq_spec(&self, other: &Token) -> bool {
        self@ == other@
    }
}

} // verus!
