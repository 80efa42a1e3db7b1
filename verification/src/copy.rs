//! Copies of syntax trees.
//!
//! A copy of a node is equal to the node: `a.clone() == a`, and both have the
//! same value `a@`.
use crate::ast::{
    GenericArg, GenericArgs, GenericParam, GenericParams, Group, GroupChoice, GroupEntry,
    GroupRule, Identifier, MemberKey, NonMemberKey, Occurrence, Operator, RangeCtlOp, Rule, Type,
    Type1, Type2, TypeChoice, TypeGroupnameEntry, TypeRule, ValueMemberKeyEntry, CDDL,
};
use crate::token::bytes_clone;
use vstd::prelude::*;

verus! {

impl CDDL {
    /// A copy of the node and of all that is below it.
    pub fn duplicate(&self) -> (r: CDDL)
        ensures
            r@ == self@,
        decreases self,
    {
        let mut rules: Vec<Rule> = Vec::new();
        let mut i: usize = 0;
        while i < self.rules.len()
            invariant
                i <= self.rules.len(),
                rules.len() == i,
                forall|j: int| 0 <= j < i ==> rules[j]@ == self.rules[j]@,
            decreases self.rules.len() - i,
        {
            rules.push(self.rules[i].duplicate());
            i += 1;
        }
        let r = CDDL {
            rules,
        };
        assert(r@.rules =~= self@.rules);
        r
    }
}

impl Clone for CDDL {
    fn clone(&self) -> (r: CDDL)
        ensures
            r@ == self@,
    {
        self.duplicate()
    }
}

impl Rule {
    /// A copy of the node and of all that is below it.
    pub fn duplicate(&self) -> (r: Rule)
        ensures
            r@ == self@,
        decreases self,
    {
        match self {
            Rule::Type { rule } => Rule::Type { rule: rule.duplicate() },
            Rule::Group { rule } => Rule::Group { rule: rule.duplicate() },
        }
    }
}

impl Clone for Rule {
    fn clone(&self) -> (r: Rule)
        ensures
            r@ == self@,
    {
        self.duplicate()
    }
}

impl TypeRule {
    /// A copy of the node and of all that is below it.
    pub fn duplicate(&self) -> (r: TypeRule)
        ensures
            r@ == self@,
        decreases self,
    {
        let generic_params = match &self.generic_params {
            Some(x) => Some(x.duplicate()),
            None => None,
        };
        let r = TypeRule {
            name: self.name.duplicate(),
            generic_params,
            assign: self.assign,
            value: self.value.duplicate(),
        };
        r
    }
}

impl Clone for TypeRule {
    fn clone(&self) -> (r: TypeRule)
        ensures
            r@ == self@,
    {
        self.duplicate()
    }
}

impl GroupRule {
    /// A copy of the node and of all that is below it.
    pub fn duplicate(&self) -> (r: GroupRule)
        ensures
            r@ == self@,
        decreases self,
    {
        let generic_params = match &self.generic_params {
            Some(x) => Some(x.duplicate()),
            None => None,
        };
        let r = GroupRule {
            name: self.name.duplicate(),
            generic_params,
            assign: self.assign,
            entry: self.entry.duplicate(),
        };
        r
    }
}

impl Clone for GroupRule {
    fn clone(&self) -> (r: GroupRule)
        ensures
            r@ == self@,
    {
        self.duplicate()
    }
}

impl GenericParams {
    /// A copy of the node and of all that is below it.
    pub fn duplicate(&self) -> (r: GenericParams)
        ensures
            r@ == self@,
        decreases self,
    {
        let mut params: Vec<GenericParam> = Vec::new();
        let mut i: usize = 0;
        while i < self.params.len()
            invariant
                i <= self.params.len(),
                params.len() == i,
                forall|j: int| 0 <= j < i ==> params[j]@ == self.params[j]@,
            decreases self.params.len() - i,
        {
            params.push(self.params[i].duplicate());
            i += 1;
        }
        let r = GenericParams {
            params,
        };
        assert(r@.params =~= self@.params);
        r
    }
}

impl Clone for GenericParams {
    fn clone(&self) -> (r: GenericParams)
        ensures
            r@ == self@,
    {
        self.duplicate()
    }
}

impl GenericParam {
    /// A copy of the node and of all that is below it.
    pub fn duplicate(&self) -> (r: GenericParam)
        ensures
            r@ == self@,
        decreases self,
    {
        let r = GenericParam {
            param: self.param.duplicate(),
        };
        r
    }
}

impl Clone for GenericParam {
    fn clone(&self) -> (r: GenericParam)
        ensures
            r@ == self@,
    {
        self.duplicate()
    }
}

impl GenericArgs {
    /// A copy of the node and of all that is below it.
    pub fn duplicate(&self) -> (r: GenericArgs)
        ensures
            r@ == self@,
        decreases self,
    {
        let mut args: Vec<GenericArg> = Vec::new();
        let mut i: usize = 0;
        while i < self.args.len()
            invariant
                i <= self.args.len(),
                args.len() == i,
                forall|j: int| 0 <= j < i ==> args[j]@ == self.args[j]@,
            decreases self.args.len() - i,
        {
            args.push(self.args[i].duplicate());
            i += 1;
        }
        let r = GenericArgs {
            args,
        };
        assert(r@.args =~= self@.args);
        r
    }
}

impl Clone for GenericArgs {
    fn clone(&self) -> (r: GenericArgs)
        ensures
            r@ == self@,
    {
        self.duplicate()
    }
}

impl GenericArg {
    /// A copy of the node and of all that is below it.
    pub fn duplicate(&self) -> (r: GenericArg)
        ensures
            r@ == self@,
        decreases self,
    {
        let r = GenericArg {
            arg: self.arg.duplicate(),
        };
        r
    }
}

impl Clone for GenericArg {
    fn clone(&self) -> (r: GenericArg)
        ensures
            r@ == self@,
    {
        self.duplicate()
    }
}

impl Type {
    /// A copy of the node and of all that is below it.
    pub fn duplicate(&self) -> (r: Type)
        ensures
            r@ == self@,
        decreases self,
    {
        let mut type_choices: Vec<TypeChoice> = Vec::new();
        let mut i: usize = 0;
        while i < self.type_choices.len()
            invariant
                i <= self.type_choices.len(),
                type_choices.len() == i,
                forall|j: int| 0 <= j < i ==> type_choices[j]@ == self.type_choices[j]@,
            decreases self.type_choices.len() - i,
        {
            type_choices.push(self.type_choices[i].duplicate());
            i += 1;
        }
        let r = Type {
            type_choices,
        };
        assert(r@.type_choices =~= self@.type_choices);
        r
    }
}

impl Clone for Type {
    fn clone(&self) -> (r: Type)
        ensures
            r@ == self@,
    {
        self.duplicate()
    }
}

impl TypeChoice {
    /// A copy of the node and of all that is below it.
    pub fn duplicate(&self) -> (r: TypeChoice)
        ensures
            r@ == self@,
        decreases self,
    {
        let r = TypeChoice {
            type1: self.type1.duplicate(),
        };
        r
    }
}

impl Clone for TypeChoice {
    fn clone(&self) -> (r: TypeChoice)
        ensures
            r@ == self@,
    {
        self.duplicate()
    }
}

impl Type1 {
    /// A copy of the node and of all that is below it.
    pub fn duplicate(&self) -> (r: Type1)
        ensures
            r@ == self@,
        decreases self,
    {
        let operator = match &self.operator {
            Some(x) => Some(x.duplicate()),
            None => None,
        };
        let r = Type1 {
            type2: self.type2.duplicate(),
            operator,
        };
        r
    }
}

impl Clone for Type1 {
    fn clone(&self) -> (r: Type1)
        ensures
            r@ == self@,
    {
        self.duplicate()
    }
}

impl Operator {
    /// A copy of the node and of all that is below it.
    pub fn duplicate(&self) -> (r: Operator)
        ensures
            r@ == self@,
        decreases self,
    {
        let r = Operator {
            operator: self.operator.duplicate(),
            type2: self.type2.duplicate(),
        };
        r
    }
}

impl Clone for Operator {
    fn clone(&self) -> (r: Operator)
        ensures
            r@ == self@,
    {
        self.duplicate()
    }
}

impl RangeCtlOp {
    /// A copy of the node and of all that is below it.
    pub fn duplicate(&self) -> (r: RangeCtlOp)
        ensures
            r@ == self@,
        decreases self,
    {
        match self {
            RangeCtlOp::RangeOp { is_inclusive } => {
                RangeCtlOp::RangeOp { is_inclusive: *is_inclusive }
            },
            RangeCtlOp::CtlOp { ctrl } => RangeCtlOp::CtlOp { ctrl: ctrl.clone() },
        }
    }
}

impl Clone for RangeCtlOp {
    fn clone(&self) -> (r: RangeCtlOp)
        ensures
            r@ == self@,
    {
        self.duplicate()
    }
}

impl Type2 {
    /// A copy of the node and of all that is below it.
    pub fn duplicate(&self) -> (r: Type2)
        ensures
            r@ == self@,
        decreases self,
    {
        match self {
            Type2::IntValue { value } => Type2::IntValue { value: *value },
            Type2::UintValue { value } => Type2::UintValue { value: *value },
            Type2::FloatValue { value } => Type2::FloatValue { value: value.clone() },
            Type2::TextValue { value } => Type2::TextValue { value: value.clone() },
            Type2::UTF8ByteString { value } => Type2::UTF8ByteString { value: bytes_clone(value) },
            Type2::B16ByteString { value } => Type2::B16ByteString { value: bytes_clone(value) },
            Type2::B64ByteString { value } => Type2::B64ByteString { value: bytes_clone(value) },
            Type2::Typename { ident, generic_args } => {
                let generic_args = match generic_args {
                    Some(x) => Some(x.duplicate()),
                    None => None,
                };
                Type2::Typename { ident: ident.duplicate(), generic_args }
            },
            Type2::ParenthesizedType { pt } => Type2::ParenthesizedType { pt: pt.duplicate() },
            Type2::MapType { group } => Type2::MapType { group: group.duplicate() },
            Type2::Array { group } => Type2::Array { group: group.duplicate() },
            Type2::Unwrap { ident, generic_args } => {
                let generic_args = match generic_args {
                    Some(x) => Some(x.duplicate()),
                    None => None,
                };
                Type2::Unwrap { ident: ident.duplicate(), generic_args }
            },
            Type2::ChoiceFromInlineGroup { group } => {
                Type2::ChoiceFromInlineGroup { group: group.duplicate() }
            },
            Type2::ChoiceFromGroup { ident, generic_args } => {
                let generic_args = match generic_args {
                    Some(x) => Some(x.duplicate()),
                    None => None,
                };
                Type2::ChoiceFromGroup { ident: ident.duplicate(), generic_args }
            },
            Type2::TaggedData { tag, t } => Type2::TaggedData { tag: *tag, t: t.duplicate() },
        }
    }
}

impl Clone for Type2 {
    fn clone(&self) -> (r: Type2)
        ensures
            r@ == self@,
    {
        self.duplicate()
    }
}

impl Group {
    /// A copy of the node and of all that is below it.
    pub fn duplicate(&self) -> (r: Group)
        ensures
            r@ == self@,
        decreases self,
    {
        let mut group_choices: Vec<GroupChoice> = Vec::new();
        let mut i: usize = 0;
        while i < self.group_choices.len()
            invariant
                i <= self.group_choices.len(),
                group_choices.len() == i,
                forall|j: int| 0 <= j < i ==> group_choices[j]@ == self.group_choices[j]@,
            decreases self.group_choices.len() - i,
        {
            group_choices.push(self.group_choices[i].duplicate());
            i += 1;
        }
        let r = Group {
            group_choices,
        };
        assert(r@.group_choices =~= self@.group_choices);
        r
    }
}

impl Clone for Group {
    fn clone(&self) -> (r: Group)
        ensures
            r@ == self@,
    {
        self.duplicate()
    }
}

impl GroupChoice {
    /// A copy of the node and of all that is below it.
    pub fn duplicate(&self) -> (r: GroupChoice)
        ensures
            r@ == self@,
        decreases self,
    {
        let mut group_entries: Vec<(GroupEntry, bool)> = Vec::new();
        let mut i: usize = 0;
        while i < self.group_entries.len()
            invariant
                i <= self.group_entries.len(),
                group_entries.len() == i,
                forall|j: int| 0 <= j < i
                    ==> (group_entries[j].0@, group_entries[j].1)
                        == (self.group_entries[j].0@, self.group_entries[j].1),
            decreases self.group_entries.len() - i,
        {
            group_entries.push((self.group_entries[i].0.duplicate(), self.group_entries[i].1));
            i += 1;
        }
        let r = GroupChoice {
            group_entries,
        };
        assert(r@.group_entries =~= self@.group_entries);
        r
    }
}

impl Clone for GroupChoice {
    fn clone(&self) -> (r: GroupChoice)
        ensures
            r@ == self@,
    {
        self.duplicate()
    }
}

impl GroupEntry {
    /// A copy of the node and of all that is below it.
    pub fn duplicate(&self) -> (r: GroupEntry)
        ensures
            r@ == self@,
        decreases self,
    {
        match self {
            GroupEntry::ValueMemberKey { ge } => GroupEntry::ValueMemberKey { ge: ge.duplicate() },
            GroupEntry::TypeGroupname { ge } => GroupEntry::TypeGroupname { ge: ge.duplicate() },
            GroupEntry::InlineGroup { occur, group } => {
                let occur = match occur {
                    Some(x) => Some(x.duplicate()),
                    None => None,
                };
                GroupEntry::InlineGroup { occur, group: group.duplicate() }
            },
        }
    }
}

impl Clone for GroupEntry {
    fn clone(&self) -> (r: GroupEntry)
        ensures
            r@ == self@,
    {
        self.duplicate()
    }
}

impl ValueMemberKeyEntry {
    /// A copy of the node and of all that is below it.
    pub fn duplicate(&self) -> (r: ValueMemberKeyEntry)
        ensures
            r@ == self@,
        decreases self,
    {
        let occur = match &self.occur {
            Some(x) => Some(x.duplicate()),
            None => None,
        };
        let member_key = match &self.member_key {
            Some(x) => Some(x.duplicate()),
            None => None,
        };
        let r = ValueMemberKeyEntry {
            occur,
            member_key,
            entry_type: self.entry_type.duplicate(),
        };
        r
    }
}

impl Clone for ValueMemberKeyEntry {
    fn clone(&self) -> (r: ValueMemberKeyEntry)
        ensures
            r@ == self@,
    {
        self.duplicate()
    }
}

impl TypeGroupnameEntry {
    /// A copy of the node and of all that is below it.
    pub fn duplicate(&self) -> (r: TypeGroupnameEntry)
        ensures
            r@ == self@,
        decreases self,
    {
        let occur = match &self.occur {
            Some(x) => Some(x.duplicate()),
            None => None,
        };
        let generic_args = match &self.generic_args {
            Some(x) => Some(x.duplicate()),
            None => None,
        };
        let r = TypeGroupnameEntry {
            occur,
            name: self.name.duplicate(),
            generic_args,
        };
        r
    }
}

impl Clone for TypeGroupnameEntry {
    fn clone(&self) -> (r: TypeGroupnameEntry)
        ensures
            r@ == self@,
    {
        self.duplicate()
    }
}

impl Occurrence {
    /// A copy of the node and of all that is below it.
    pub fn duplicate(&self) -> (r: Occurrence)
        ensures
            r@ == self@,
        decreases self,
    {
        let r = Occurrence {
            occur: self.occur,
        };
        r
    }
}

impl Clone for Occurrence {
    fn clone(&self) -> (r: Occurrence)
        ensures
            r@ == self@,
    {
        self.duplicate()
    }
}

impl MemberKey {
    /// A copy of the node and of all that is below it.
    pub fn duplicate(&self) -> (r: MemberKey)
        ensures
            r@ == self@,
        decreases self,
    {
        match self {
            MemberKey::Type1 { t1, is_cut } => {
                MemberKey::Type1 { t1: t1.duplicate(), is_cut: *is_cut }
            },
            MemberKey::Bareword { ident } => MemberKey::Bareword { ident: ident.duplicate() },
            MemberKey::Value { value } => MemberKey::Value { value: value.clone() },
            MemberKey::NonMemberKey { non_member_key } => {
                MemberKey::NonMemberKey { non_member_key: non_member_key.duplicate() }
            },
        }
    }
}

impl Clone for MemberKey {
    fn clone(&self) -> (r: MemberKey)
        ensures
            r@ == self@,
    {
        self.duplicate()
    }
}

impl NonMemberKey {
    /// A copy of the node and of all that is below it.
    pub fn duplicate(&self) -> (r: NonMemberKey)
        ensures
            r@ == self@,
        decreases self,
    {
        match self {
            NonMemberKey::Group(x) => NonMemberKey::Group(x.duplicate()),
            NonMemberKey::Type(x) => NonMemberKey::Type(x.duplicate()),
        }
    }
}

impl Clone for NonMemberKey {
    fn clone(&self) -> (r: NonMemberKey)
        ensures
            r@ == self@,
    {
        self.duplicate()
    }
}

impl Identifier {
    /// A copy of the node and of all that is below it.
    pub fn duplicate(&self) -> (r: Identifier)
        ensures
            r@ == self@,
        decreases self,
    {
        let r = Identifier {
            ident: self.ident.clone(),
            position: self.position,
        };
        r
    }
}

impl Clone for Identifier {
    fn clone(&self) -> (r: Identifier)
        ensures
            r@ == self@,
    {
        self.duplicate()
    }
}

} // verus!
