//! The syntax tree of a schema.
//!
//! A node owns its children; no node refers to its parent. Each type has a
//! mathematical value, reached with `@`, in which a vector is a sequence and a
//! string a sequence of characters.
use crate::token::{Value, ValueView};
use vstd::prelude::*;

verus! {

/// How a rule binds its name.
#[derive(Debug, Clone, Copy, PartialEq, Eq, Structural)]
pub enum Assignment {
    /// `=`: the rule defines the name.
    Define,
    /// `/=`: the rule adds choices to a type defined elsewhere.
    TypeChoiceAlternate,
    /// `//=`: the rule adds choices to a group defined elsewhere.
    GroupChoiceAlternate,
}

/// How often a group entry may occur.
#[derive(Debug, Clone, Copy, PartialEq, Eq, Structural)]
pub enum Occur {
    /// `lower*upper`: between `lower` (default 0) and `upper` (default
    /// unbounded) times.
    Exact { lower: Option<u64>, upper: Option<u64> },
    /// `*`
    ZeroOrMore,
    /// `+`
    OneOrMore,
    /// `?`
    Optional,
}

/// A whole schema: its rules, in source order.
#[derive(Debug)]
pub struct CDDL {
    /// The rules. A rule may refer to one that is defined later.
    pub rules: Vec<Rule>,
}

/// A top-level binding of a name.
#[derive(Debug)]
#[allow(inconsistent_fields)]
pub enum Rule {
    /// The name stands for a type.
    Type { rule: TypeRule },
    /// The name stands for a group.
    Group { rule: GroupRule },
}

/// A rule that binds a name to a type.
#[derive(Debug)]
pub struct TypeRule {
    /// The name being bound.
    pub name: Identifier,
    /// The parameters of a parametric rule.
    pub generic_params: Option<GenericParams>,
    /// Whether the rule defines the name or extends it.
    pub assign: Assignment,
    /// The type bound to the name.
    pub value: Type,
}

/// A rule that binds a name to a group entry.
#[derive(Debug)]
pub struct GroupRule {
    /// The name being bound.
    pub name: Identifier,
    /// The parameters of a parametric rule.
    pub generic_params: Option<GenericParams>,
    /// Whether the rule defines the name or extends it.
    pub assign: Assignment,
    /// The entry bound to the name.
    pub entry: GroupEntry,
}

/// The parameter list of a parametric rule: `<t, v>`.
#[derive(Debug)]
pub struct GenericParams {
    /// The parameters, in order.
    pub params: Vec<GenericParam>,
}

/// One parameter of a parametric rule.
#[derive(Debug)]
pub struct GenericParam {
    /// The name of the parameter.
    pub param: Identifier,
}

/// The argument list of a use of a parametric rule: `<tstr, 1..5>`.
#[derive(Debug)]
pub struct GenericArgs {
    /// The arguments, in order.
    pub args: Vec<GenericArg>,
}

/// One argument of a use of a parametric rule.
#[derive(Debug)]
pub struct GenericArg {
    /// The type passed for the parameter.
    pub arg: Type1,
}

/// A type: one or more choices separated by `/`. The first choice that matches wins.
#[derive(Debug)]
pub struct Type {
    /// The choices, in order.
    pub type_choices: Vec<TypeChoice>,
}

/// One alternative of a type.
#[derive(Debug)]
pub struct TypeChoice {
    /// The alternative.
    pub type1: Type1,
}

/// A basic type, optionally followed by a range or control operator.
#[derive(Debug)]
pub struct Type1 {
    /// The basic type; with a range operator, the lower bound.
    pub type2: Type2,
    /// The operator and its right-hand side.
    pub operator: Option<Operator>,
}

/// The right-hand part of a [`Type1`]: an operator and its operand.
#[derive(Debug)]
pub struct Operator {
    /// Which operator.
    pub operator: RangeCtlOp,
    /// The operand; with a range operator, the upper bound.
    pub type2: Type2,
}

/// A range or control operator.
#[derive(Debug)]
pub enum RangeCtlOp {
    /// `..` or `...`
    RangeOp { is_inclusive: bool },
    /// A control operator such as `.size`.
    CtlOp { ctrl: String },
}

/// A basic type.
#[derive(Debug)]
#[allow(inconsistent_fields)]
pub enum Type2 {
    /// A negative integer literal.
    IntValue { value: i64 },
    /// An unsigned integer literal.
    UintValue { value: u64 },
    /// A floating-point literal, as its decimal text.
    FloatValue { value: String },
    /// A text literal, without its quotes.
    TextValue { value: String },
    /// A byte string literal written as `'bytes'`.
    UTF8ByteString { value: Vec<u8> },
    /// A byte string literal written as `h'6279'`.
    B16ByteString { value: Vec<u8> },
    /// A byte string literal written as `b64'Ynl0ZXM'`.
    B64ByteString { value: Vec<u8> },
    /// A reference to a rule, with arguments if the rule is parametric.
    Typename { ident: Identifier, generic_args: Option<GenericArgs> },
    /// A type in parentheses.
    ParenthesizedType { pt: Type },
    /// A map: `{ group }`.
    MapType { group: Group },
    /// An array: `[ group ]`.
    Array { group: Group },
    /// The group inside a named map or array: `~name`.
    Unwrap { ident: Identifier, generic_args: Option<GenericArgs> },
    /// A choice among the entries of a group: `&( group )`.
    ChoiceFromInlineGroup { group: Group },
    /// A choice among the entries of a named group: `&name`.
    ChoiceFromGroup { ident: Identifier, generic_args: Option<GenericArgs> },
    /// A tagged value: `#6.tag(type)`.
    TaggedData { tag: Option<u64>, t: Type },
}

/// A group: one or more choices separated by `//`.
#[derive(Debug)]
pub struct Group {
    /// The choices, in order.
    pub group_choices: Vec<GroupChoice>,
}

/// One alternative of a group: a sequence of entries.
#[derive(Debug)]
pub struct GroupChoice {
    /// Each entry, and whether a comma follows it.
    pub group_entries: Vec<(GroupEntry, bool)>,
}

/// One entry of a group.
#[derive(Debug)]
#[allow(inconsistent_fields)]
pub enum GroupEntry {
    /// A type, with a key if the group describes a map.
    ValueMemberKey { ge: ValueMemberKeyEntry },
    /// A reference to a type or group by name.
    TypeGroupname { ge: TypeGroupnameEntry },
    /// A group in parentheses.
    InlineGroup { occur: Option<Occurrence>, group: Group },
}

/// A group entry made of an optional key and a type.
#[derive(Debug)]
pub struct ValueMemberKeyEntry {
    /// How often the entry may occur.
    pub occur: Option<Occurrence>,
    /// The key.
    pub member_key: Option<MemberKey>,
    /// The type of the value.
    pub entry_type: Type,
}

/// A group entry that names a type or a group.
#[derive(Debug)]
pub struct TypeGroupnameEntry {
    /// How often the entry may occur.
    pub occur: Option<Occurrence>,
    /// The name referred to.
    pub name: Identifier,
    /// The arguments, if the name is parametric.
    pub generic_args: Option<GenericArgs>,
}

/// The occurrence indicator in front of a group entry.
#[derive(Debug)]
pub struct Occurrence {
    /// The indicator.
    pub occur: Occur,
}

/// The key of a group entry.
#[derive(Debug)]
pub enum MemberKey {
    /// A type as key: `type1 =>`, with `^` for a cut.
    Type1 { t1: Type1, is_cut: bool },
    /// A name as key: `name:`.
    Bareword { ident: Identifier },
    /// A literal as key: `"key":`.
    Value { value: Value },
    /// A parenthesized type or group where a key could stand.
    NonMemberKey { non_member_key: NonMemberKey },
}

/// What stands in key position without being a key.
#[derive(Debug)]
pub enum NonMemberKey {
    /// A group.
    Group(Group),
    /// A type.
    Type(Type),
}

/// A name, together with the place where it was written.
///
/// The place makes two occurrences of one name two different nodes: a
/// definition and a use of `a` are never equal.
#[derive(Debug)]
pub struct Identifier {
    /// The text of the name.
    pub ident: String,
    /// Where the name was written: the index of its token in the token stream.
    pub position: usize,
}

/// The mathematical value of a [`CDDL`].
pub ghost struct CDDLView {
    pub rules: Seq<RuleView>,
}

/// The mathematical value of a [`Rule`].
#[allow(inconsistent_fields)]
pub ghost enum RuleView {
    Type { rule: TypeRuleView },
    Group { rule: GroupRuleView },
}

/// The mathematical value of a [`TypeRule`].
pub ghost struct TypeRuleView {
    pub name: IdentifierView,
    pub generic_params: Option<GenericParamsView>,
    pub assign: Assignment,
    pub value: TypeView,
}

/// The mathematical value of a [`GroupRule`].
pub ghost struct GroupRuleView {
    pub name: IdentifierView,
    pub generic_params: Option<GenericParamsView>,
    pub assign: Assignment,
    pub entry: GroupEntryView,
}

/// The mathematical value of a [`GenericParams`].
pub ghost struct GenericParamsView {
    pub params: Seq<GenericParamView>,
}

/// The mathematical value of a [`GenericParam`].
pub ghost struct GenericParamView {
    pub param: IdentifierView,
}

/// The mathematical value of a [`GenericArgs`].
pub ghost struct GenericArgsView {
    pub args: Seq<GenericArgView>,
}

/// The mathematical value of a [`GenericArg`].
pub ghost struct GenericArgView {
    pub arg: Type1View,
}

/// The mathematical value of a [`Type`].
pub ghost struct TypeView {
    pub type_choices: Seq<TypeChoiceView>,
}

/// The mathematical value of a [`TypeChoice`].
pub ghost struct TypeChoiceView {
    pub type1: Type1View,
}

/// The mathematical value of a [`Type1`].
pub ghost struct Type1View {
    pub type2: Type2View,
    pub operator: Option<OperatorView>,
}

/// The mathematical value of a [`Operator`].
pub ghost struct OperatorView {
    pub operator: RangeCtlOpView,
    pub type2: Type2View,
}

/// The mathematical value of a [`RangeCtlOp`].
pub ghost enum RangeCtlOpView {
    RangeOp { is_inclusive: bool },
    CtlOp { ctrl: Seq<char> },
}

/// The mathematical value of a [`Type2`].
#[allow(inconsistent_fields)]
pub ghost enum Type2View {
    IntValue { value: i64 },
    UintValue { value: u64 },
    FloatValue { value: Seq<char> },
    TextValue { value: Seq<char> },
    UTF8ByteString { value: Seq<u8> },
    B16ByteString { value: Seq<u8> },
    B64ByteString { value: Seq<u8> },
    Typename { ident: IdentifierView, generic_args: Option<GenericArgsView> },
    ParenthesizedType { pt: TypeView },
    MapType { group: GroupView },
    Array { group: GroupView },
    Unwrap { ident: IdentifierView, generic_args: Option<GenericArgsView> },
    ChoiceFromInlineGroup { group: GroupView },
    ChoiceFromGroup { ident: IdentifierView, generic_args: Option<GenericArgsView> },
    TaggedData { tag: Option<u64>, t: TypeView },
}

/// The mathematical value of a [`Group`].
pub ghost struct GroupView {
    pub group_choices: Seq<GroupChoiceView>,
}

/// The mathematical value of a [`GroupChoice`].
pub ghost struct GroupChoiceView {
    pub group_entries: Seq<(GroupEntryView, bool)>,
}

/// The mathematical value of a [`GroupEntry`].
#[allow(inconsistent_fields)]
pub ghost enum GroupEntryView {
    ValueMemberKey { ge: ValueMemberKeyEntryView },
    TypeGroupname { ge: TypeGroupnameEntryView },
    InlineGroup { occur: Option<OccurrenceView>, group: GroupView },
}

/// The mathematical value of a [`ValueMemberKeyEntry`].
pub ghost struct ValueMemberKeyEntryView {
    pub occur: Option<OccurrenceView>,
    pub member_key: Option<MemberKeyView>,
    pub entry_type: TypeView,
}

/// The mathematical value of a [`TypeGroupnameEntry`].
pub ghost struct TypeGroupnameEntryView {
    pub occur: Option<OccurrenceView>,
    pub name: IdentifierView,
    pub generic_args: Option<GenericArgsView>,
}

/// The mathematical value of a [`Occurrence`].
pub ghost struct OccurrenceView {
    pub occur: Occur,
}

/// The mathematical value of a [`MemberKey`].
pub ghost enum MemberKeyView {
    Type1 { t1: Type1View, is_cut: bool },
    Bareword { ident: IdentifierView },
    Value { value: ValueView },
    NonMemberKey { non_member_key: NonMemberKeyView },
}

/// The mathematical value of a [`NonMemberKey`].
pub ghost enum NonMemberKeyView {
    Group(GroupView),
    Type(TypeView),
}

/// The mathematical value of a [`Identifier`].
pub ghost struct IdentifierView {
    pub ident: Seq<char>,
    pub position: usize,
}

impl CDDL {
    pub open spec fn view(&self) -> CDDLView
        decreases self,
    {
        CDDLView {
            rules: Seq::new(
                self.rules.len() as nat,
                |i: int|
                    if 0 <= i < self.rules.len() {
                        self.rules[i]@
                    } else {
                        arbitrary()
                    },
            ),
        }
    }
}

impl Rule {
    pub open spec fn view(&self) -> RuleView
        decreases self,
    {
        match self {
            Rule::Type { rule } => RuleView::Type { rule: rule@ },
            Rule::Group { rule } => RuleView::Group { rule: rule@ },
        }
    }
}

impl TypeRule {
    pub open spec fn view(&self) -> TypeRuleView
        decreases self,
    {
        TypeRuleView {
            name: self.name@,
            generic_params: match self.generic_params {
                Some(x) => Some(x@),
                None => None,
            },
            assign: self.assign,
            value: self.value@,
        }
    }
}

impl GroupRule {
    pub open spec fn view(&self) -> GroupRuleView
        decreases self,
    {
        GroupRuleView {
            name: self.name@,
            generic_params: match self.generic_params {
                Some(x) => Some(x@),
                None => None,
            },
            assign: self.assign,
            entry: self.entry@,
        }
    }
}

impl GenericParams {
    pub open spec fn view(&self) -> GenericParamsView
        decreases self,
    {
        GenericParamsView {
            params: Seq::new(
                self.params.len() as nat,
                |i: int|
                    if 0 <= i < self.params.len() {
                        self.params[i]@
                    } else {
                        arbitrary()
                    },
            ),
        }
    }
}

impl GenericParam {
    pub open spec fn view(&self) -> GenericParamView
        decreases self,
    {
        GenericParamView {
            param: self.param@,
        }
    }
}

impl GenericArgs {
    pub open spec fn view(&self) -> GenericArgsView
        decreases self,
    {
        GenericArgsView {
            args: Seq::new(
                self.args.len() as nat,
                |i: int|
                    if 0 <= i < self.args.len() {
                        self.args[i]@
                    } else {
                        arbitrary()
                    },
            ),
        }
    }
}

impl GenericArg {
    pub open spec fn view(&self) -> GenericArgView
        decreases self,
    {
        GenericArgView {
            arg: self.arg@,
        }
    }
}

impl Type {
    pub open spec fn view(&self) -> TypeView
        decreases self,
    {
        TypeView {
            type_choices: Seq::new(
                self.type_choices.len() as nat,
                |i: int|
                    if 0 <= i < self.type_choices.len() {
                        self.type_choices[i]@
                    } else {
                        arbitrary()
                    },
            ),
        }
    }
}

impl TypeChoice {
    pub open spec fn view(&self) -> TypeChoiceView
        decreases self,
    {
        TypeChoiceView {
            type1: self.type1@,
        }
    }
}

impl Type1 {
    pub open spec fn view(&self) -> Type1View
        decreases self,
    {
        Type1View {
            type2: self.type2@,
            operator: match self.operator {
                Some(x) => Some(x@),
                None => None,
            },
        }
    }
}

impl Operator {
    pub open spec fn view(&self) -> OperatorView
        decreases self,
    {
        OperatorView {
            operator: self.operator@,
            type2: self.type2@,
        }
    }
}

impl RangeCtlOp {
    pub open spec fn view(&self) -> RangeCtlOpView
        decreases self,
    {
        match self {
            RangeCtlOp::RangeOp { is_inclusive } => {
                RangeCtlOpView::RangeOp { is_inclusive: *is_inclusive }
            },
            RangeCtlOp::CtlOp { ctrl } => RangeCtlOpView::CtlOp { ctrl: ctrl@ },
        }
    }
}

impl Type2 {
    pub open spec fn view(&self) -> Type2View
        decreases self,
    {
        match self {
            Type2::IntValue { value } => Type2View::IntValue { value: *value },
            Type2::UintValue { value } => Type2View::UintValue { value: *value },
            Type2::FloatValue { value } => Type2View::FloatValue { value: value@ },
            Type2::TextValue { value } => Type2View::TextValue { value: value@ },
            Type2::UTF8ByteString { value } => Type2View::UTF8ByteString { value: value@ },
            Type2::B16ByteString { value } => Type2View::B16ByteString { value: value@ },
            Type2::B64ByteString { value } => Type2View::B64ByteString { value: value@ },
            Type2::Typename { ident, generic_args } => Type2View::Typename {
                ident: ident@,
                generic_args: match generic_args {
                    Some(x) => Some(x@),
                    None => None,
                },
            },
            Type2::ParenthesizedType { pt } => Type2View::ParenthesizedType { pt: pt@ },
            Type2::MapType { group } => Type2View::MapType { group: group@ },
            Type2::Array { group } => Type2View::Array { group: group@ },
            Type2::Unwrap { ident, generic_args } => Type2View::Unwrap {
                ident: ident@,
                generic_args: match generic_args {
                    Some(x) => Some(x@),
                    None => None,
                },
            },
            Type2::ChoiceFromInlineGroup { group } => {
                Type2View::ChoiceFromInlineGroup { group: group@ }
            },
            Type2::ChoiceFromGroup { ident, generic_args } => Type2View::ChoiceFromGroup {
                ident: ident@,
                generic_args: match generic_args {
                    Some(x) => Some(x@),
                    None => None,
                },
            },
            Type2::TaggedData { tag, t } => Type2View::TaggedData { tag: *tag, t: t@ },
        }
    }
}

impl Group {
    pub open spec fn view(&self) -> GroupView
        decreases self,
    {
        GroupView {
            group_choices: Seq::new(
                self.group_choices.len() as nat,
                |i: int|
                    if 0 <= i < self.group_choices.len() {
                        self.group_choices[i]@
                    } else {
                        arbitrary()
                    },
            ),
        }
    }
}

impl GroupChoice {
    pub open spec fn view(&self) -> GroupChoiceView
        decreases self,
    {
        GroupChoiceView {
            group_entries: Seq::new(
                self.group_entries.len() as nat,
                |i: int|
                    if 0 <= i < self.group_entries.len() {
                        (self.group_entries[i].0@, self.group_entries[i].1)
                    } else {
                        arbitrary()
                    },
            ),
        }
    }
}

impl GroupEntry {
    pub open spec fn view(&self) -> GroupEntryView
        decreases self,
    {
        match self {
            GroupEntry::ValueMemberKey { ge } => GroupEntryView::ValueMemberKey { ge: ge@ },
            GroupEntry::TypeGroupname { ge } => GroupEntryView::TypeGroupname { ge: ge@ },
            GroupEntry::InlineGroup { occur, group } => GroupEntryView::InlineGroup {
                occur: match occur {
                    Some(x) => Some(x@),
                    None => None,
                },
                group: group@,
            },
        }
    }
}

impl ValueMemberKeyEntry {
    pub open spec fn view(&self) -> ValueMemberKeyEntryView
        decreases self,
    {
        ValueMemberKeyEntryView {
            occur: match self.occur {
                Some(x) => Some(x@),
                None => None,
            },
            member_key: match self.member_key {
                Some(x) => Some(x@),
                None => None,
            },
            entry_type: self.entry_type@,
        }
    }
}

impl TypeGroupnameEntry {
    pub open spec fn view(&self) -> TypeGroupnameEntryView
        decreases self,
    {
        TypeGroupnameEntryView {
            occur: match self.occur {
                Some(x) => Some(x@),
                None => None,
            },
            name: self.name@,
            generic_args: match self.generic_args {
                Some(x) => Some(x@),
                None => None,
            },
        }
    }
}

impl Occurrence {
    pub open spec fn view(&self) -> OccurrenceView
        decreases self,
    {
        OccurrenceView {
            occur: self.occur,
        }
    }
}

impl MemberKey {
    pub open spec fn view(&self) -> MemberKeyView
        decreases self,
    {
        match self {
            MemberKey::Type1 { t1, is_cut } => MemberKeyView::Type1 { t1: t1@, is_cut: *is_cut },
            MemberKey::Bareword { ident } => MemberKeyView::Bareword { ident: ident@ },
            MemberKey::Value { value } => MemberKeyView::Value { value: value@ },
            MemberKey::NonMemberKey { non_member_key } => {
                MemberKeyView::NonMemberKey { non_member_key: non_member_key@ }
            },
        }
    }
}

impl NonMemberKey {
    pub open spec fn view(&self) -> NonMemberKeyView
        decreases self,
    {
        match self {
            NonMemberKey::Group(x) => NonMemberKeyView::Group(x@),
            NonMemberKey::Type(x) => NonMemberKeyView::Type(x@),
        }
    }
}

impl Identifier {
    pub open spec fn view(&self) -> IdentifierView
        decreases self,
    {
        IdentifierView {
            ident: self.ident@,
            position: self.position,
        }
    }
}

} // verus!
