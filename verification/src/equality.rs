//! Structural equality of syntax trees.
//!
//! Two nodes are equal when they have the same shape and content, wherever
//! they stand in a schema: `a == b` holds exactly when `a@ == b@`.
use crate::ast::{
    GenericArg, GenericArgs, GenericParam, GenericParams, Group, GroupChoice, GroupEntry,
    GroupRule, Identifier, MemberKey, NonMemberKey, Occurrence, Operator, RangeCtlOp, Rule, Type,
    Type1, Type2, TypeChoice, TypeGroupnameEntry, TypeRule, ValueMemberKeyEntry, CDDL,
};
use crate::token::bytes_equal;
use vstd::prelude::*;
use vstd::std_specs::cmp::PartialEqSpecImpl;

verus! {

impl CDDL {
    /// Whether the two nodes have the same shape and content.
    pub fn equals(&self, other: &CDDL) -> (r: bool)
        ensures
            r == (self@ == other@),
        decreases self,
    {
        if !(self.rules.len() == other.rules.len()) {
            assert(self@.rules.len() == self.rules.len());
            assert(other@.rules.len() == other.rules.len());
            return false;
        }
        let mut i: usize = 0;
        while i < self.rules.len()
            invariant
                i <= self.rules.len(),
                self.rules.len() == other.rules.len(),
                forall|j: int| 0 <= j < i ==> self@.rules[j] == other@.rules[j],
            decreases self.rules.len() - i,
        {
            let same = self.rules[i].equals(&other.rules[i]);
            if !same {
                assert(self@.rules[i as int] != other@.rules[i as int]);
                return false;
            }
            i += 1;
        }
        assert(self@.rules =~= other@.rules);
        true
    }
}

impl PartialEq for CDDL {
    fn eq(&self, other: &CDDL) -> (r: bool) {
        self.equals(other)
    }
}

impl PartialEqSpecImpl for CDDL {
    open spec fn obeys_eq_spec() -> bool {
        true
    }

    open spec fn eq_spec(&self, other: &CDDL) -> bool {
        self@ == other@
    }
}

impl Rule {
    /// Whether the two nodes have the same shape and content.
    pub fn equals(&self, other: &Rule) -> (r: bool)
        ensures
            r == (self@ == other@),
        decreases self,
    {
        match self {
            Rule::Type { rule } => match other {
                Rule::Type { rule: other_rule } => rule.equals(other_rule),
                _ => false,
            },
            Rule::Group { rule } => match other {
                Rule::Group { rule: other_rule } => rule.equals(other_rule),
                _ => false,
            },
        }
    }
}

impl PartialEq for Rule {
    fn eq(&self, other: &Rule) -> (r: bool) {
        self.equals(other)
    }
}

impl PartialEqSpecImpl for Rule {
    open spec fn obeys_eq_spec() -> bool {
        true
    }

    open spec fn eq_spec(&self, other: &Rule) -> bool {
        self@ == other@
    }
}

impl TypeRule {
    /// Whether the two nodes have the same shape and content.
    pub fn equals(&self, other: &TypeRule) -> (r: bool)
        ensures
            r == (self@ == other@),
        decreases self,
    {
        let same_generic_params = match &self.generic_params {
            Some(x) => match &other.generic_params {
                Some(y) => x.equals(y),
                None => false,
            },
            None => other.generic_params.is_none(),
        };
        self.name.equals(&other.name)
            && same_generic_params
            && self.assign == other.assign
            && self.value.equals(&other.value)
    }
}

impl PartialEq for TypeRule {
    fn eq(&self, other: &TypeRule) -> (r: bool) {
        self.equals(other)
    }
}

impl PartialEqSpecImpl for TypeRule {
    open spec fn obeys_eq_spec() -> bool {
        true
    }

    open spec fn eq_spec(&self, other: &TypeRule) -> bool {
        self@ == other@
    }
}

impl GroupRule {
    /// Whether the two nodes have the same shape and content.
    pub fn equals(&self, other: &GroupRule) -> (r: bool)
        ensures
            r == (self@ == other@),
        decreases self,
    {
        let same_generic_params = match &self.generic_params {
            Some(x) => match &other.generic_params {
                Some(y) => x.equals(y),
                None => false,
            },
            None => other.generic_params.is_none(),
        };
        self.name.equals(&other.name)
            && same_generic_params
            && self.assign == other.assign
            && self.entry.equals(&other.entry)
    }
}

impl PartialEq for GroupRule {
    fn eq(&self, other: &GroupRule) -> (r: bool) {
        self.equals(other)
    }
}

impl PartialEqSpecImpl for GroupRule {
    open spec fn obeys_eq_spec() -> bool {
        true
    }

    open spec fn eq_spec(&self, other: &GroupRule) -> bool {
        self@ == other@
    }
}

impl GenericParams {
    /// Whether the two nodes have the same shape and content.
    pub fn equals(&self, other: &GenericParams) -> (r: bool)
        ensures
            r == (self@ == other@),
        decreases self,
    {
        if !(self.params.len() == other.params.len()) {
            assert(self@.params.len() == self.params.len());
            assert(other@.params.len() == other.params.len());
            return false;
        }
        let mut i: usize = 0;
        while i < self.params.len()
            invariant
                i <= self.params.len(),
                self.params.len() == other.params.len(),
                forall|j: int| 0 <= j < i ==> self@.params[j] == other@.params[j],
            decreases self.params.len() - i,
        {
            let same = self.params[i].equals(&other.params[i]);
            if !same {
                assert(self@.params[i as int] != other@.params[i as int]);
                return false;
            }
            i += 1;
        }
        assert(self@.params =~= other@.params);
        true
    }
}

impl PartialEq for GenericParams {
    fn eq(&self, other: &GenericParams) -> (r: bool) {
        self.equals(other)
    }
}

impl PartialEqSpecImpl for GenericParams {
    open spec fn obeys_eq_spec() -> bool {
        true
    }

    open spec fn eq_spec(&self, other: &GenericParams) -> bool {
        self@ == other@
    }
}

impl GenericParam {
    /// Whether the two nodes have the same shape and content.
    pub fn equals(&self, other: &GenericParam) -> (r: bool)
        ensures
            r == (self@ == other@),
        decreases self,
    {
        self.param.equals(&other.param)
    }
}

impl PartialEq for GenericParam {
    fn eq(&self, other: &GenericParam) -> (r: bool) {
        self.equals(other)
    }
}

impl PartialEqSpecImpl for GenericParam {
    open spec fn obeys_eq_spec() -> bool {
        true
    }

    open spec fn eq_spec(&self, other: &GenericParam) -> bool {
        self@ == other@
    }
}

impl GenericArgs {
    /// Whether the two nodes have the same shape and content.
    pub fn equals(&self, other: &GenericArgs) -> (r: bool)
        ensures
            r == (self@ == other@),
        decreases self,
    {
        if !(self.args.len() == other.args.len()) {
            assert(self@.args.len() == self.args.len());
            assert(other@.args.len() == other.args.len());
            return false;
        }
        let mut i: usize = 0;
        while i < self.args.len()
            invariant
                i <= self.args.len(),
                self.args.len() == other.args.len(),
                forall|j: int| 0 <= j < i ==> self@.args[j] == other@.args[j],
            decreases self.args.len() - i,
        {
            let same = self.args[i].equals(&other.args[i]);
            if !same {
                assert(self@.args[i as int] != other@.args[i as int]);
                return false;
            }
            i += 1;
        }
        assert(self@.args =~= other@.args);
        true
    }
}

impl PartialEq for GenericArgs {
    fn eq(&self, other: &GenericArgs) -> (r: bool) {
        self.equals(other)
    }
}

impl PartialEqSpecImpl for GenericArgs {
    open spec fn obeys_eq_spec() -> bool {
        true
    }

    open spec fn eq_spec(&self, other: &GenericArgs) -> bool {
        self@ == other@
    }
}

impl GenericArg {
    /// Whether the two nodes have the same shape and content.
    pub fn equals(&self, other: &GenericArg) -> (r: bool)
        ensures
            r == (self@ == other@),
        decreases self,
    {
        self.arg.equals(&other.arg)
    }
}

impl PartialEq for GenericArg {
    fn eq(&self, other: &GenericArg) -> (r: bool) {
        self.equals(other)
    }
}

impl PartialEqSpecImpl for GenericArg {
    open spec fn obeys_eq_spec() -> bool {
        true
    }

    open spec fn eq_spec(&self, other: &GenericArg) -> bool {
        self@ == other@
    }
}

impl Type {
    /// Whether the two nodes have the same shape and content.
    pub fn equals(&self, other: &Type) -> (r: bool)
        ensures
            r == (self@ == other@),
        decreases self,
    {
        if !(self.type_choices.len() == other.type_choices.len()) {
            assert(self@.type_choices.len() == self.type_choices.len());
            assert(other@.type_choices.len() == other.type_choices.len());
            return false;
        }
        let mut i: usize = 0;
        while i < self.type_choices.len()
            invariant
                i <= self.type_choices.len(),
                self.type_choices.len() == other.type_choices.len(),
                forall|j: int| 0 <= j < i ==> self@.type_choices[j] == other@.type_choices[j],
            decreases self.type_choices.len() - i,
        {
            let same = self.type_choices[i].equals(&other.type_choices[i]);
            if !same {
                assert(self@.type_choices[i as int] != other@.type_choices[i as int]);
                return false;
            }
            i += 1;
        }
        assert(self@.type_choices =~= other@.type_choices);
        true
    }
}

impl PartialEq for Type {
    fn eq(&self, other: &Type) -> (r: bool) {
        self.equals(other)
    }
}

impl PartialEqSpecImpl for Type {
    open spec fn obeys_eq_spec() -> bool {
        true
    }

    open spec fn eq_spec(&self, other: &Type) -> bool {
        self@ == other@
    }
}

impl TypeChoice {
    /// Whether the two nodes have the same shape and content.
    pub fn equals(&self, other: &TypeChoice) -> (r: bool)
        ensures
            r == (self@ == other@),
        decreases self,
    {
        self.type1.equals(&other.type1)
    }
}

impl PartialEq for TypeChoice {
    fn eq(&self, other: &TypeChoice) -> (r: bool) {
        self.equals(other)
    }
}

impl PartialEqSpecImpl for TypeChoice {
    open spec fn obeys_eq_spec() -> bool {
        true
    }

    open spec fn eq_spec(&self, other: &TypeChoice) -> bool {
        self@ == other@
    }
}

impl Type1 {
    /// Whether the two nodes have the same shape and content.
    pub fn equals(&self, other: &Type1) -> (r: bool)
        ensures
            r == (self@ == other@),
        decreases self,
    {
        let same_operator = match &self.operator {
            Some(x) => match &other.operator {
                Some(y) => x.equals(y),
                None => false,
            },
            None => other.operator.is_none(),
        };
        self.type2.equals(&other.type2)
            && same_operator
    }
}

impl PartialEq for Type1 {
    fn eq(&self, other: &Type1) -> (r: bool) {
        self.equals(other)
    }
}

impl PartialEqSpecImpl for Type1 {
    open spec fn obeys_eq_spec() -> bool {
        true
    }

    open spec fn eq_spec(&self, other: &Type1) -> bool {
        self@ == other@
    }
}

impl Operator {
    /// Whether the two nodes have the same shape and content.
    pub fn equals(&self, other: &Operator) -> (r: bool)
        ensures
            r == (self@ == other@),
        decreases self,
    {
        self.operator.equals(&other.operator)
            && self.type2.equals(&other.type2)
    }
}

impl PartialEq for Operator {
    fn eq(&self, other: &Operator) -> (r: bool) {
        self.equals(other)
    }
}

impl PartialEqSpecImpl for Operator {
    open spec fn obeys_eq_spec() -> bool {
        true
    }

    open spec fn eq_spec(&self, other: &Operator) -> bool {
        self@ == other@
    }
}

impl RangeCtlOp {
    /// Whether the two nodes have the same shape and content.
    pub fn equals(&self, other: &RangeCtlOp) -> (r: bool)
        ensures
            r == (self@ == other@),
        decreases self,
    {
        match self {
            RangeCtlOp::RangeOp { is_inclusive } => match other {
                RangeCtlOp::RangeOp { is_inclusive: other_is_inclusive } => {
                    *is_inclusive == *other_is_inclusive
                },
                _ => false,
            },
            RangeCtlOp::CtlOp { ctrl } => match other {
                RangeCtlOp::CtlOp { ctrl: other_ctrl } => *ctrl == *other_ctrl,
                _ => false,
            },
        }
    }
}

impl PartialEq for RangeCtlOp {
    fn eq(&self, other: &RangeCtlOp) -> (r: bool) {
        self.equals(other)
    }
}

impl PartialEqSpecImpl for RangeCtlOp {
    open spec fn obeys_eq_spec() -> bool {
        true
    }

    open spec fn eq_spec(&self, other: &RangeCtlOp) -> bool {
        self@ == other@
    }
}

impl Type2 {
    /// Whether the two nodes have the same shape and content.
    pub fn equals(&self, other: &Type2) -> (r: bool)
        ensures
            r == (self@ == other@),
        decreases self,
    {
        match self {
            Type2::IntValue { value } => match other {
                Type2::IntValue { value: other_value } => *value == *other_value,
                _ => false,
            },
            Type2::UintValue { value } => match other {
                Type2::UintValue { value: other_value } => *value == *other_value,
                _ => false,
            },
            Type2::FloatValue { value } => match other {
                Type2::FloatValue { value: other_value } => *value == *other_value,
                _ => false,
            },
            Type2::TextValue { value } => match other {
                Type2::TextValue { value: other_value } => *value == *other_value,
                _ => false,
            },
            Type2::UTF8ByteString { value } => match other {
                Type2::UTF8ByteString { value: other_value } => bytes_equal(value, other_value),
                _ => false,
            },
            Type2::B16ByteString { value } => match other {
                Type2::B16ByteString { value: other_value } => bytes_equal(value, other_value),
                _ => false,
            },
            Type2::B64ByteString { value } => match other {
                Type2::B64ByteString { value: other_value } => bytes_equal(value, other_value),
                _ => false,
            },
            Type2::Typename { ident, generic_args } => match other {
                Type2::Typename { ident: other_ident, generic_args: other_generic_args } => {
                    let same_generic_args = match generic_args {
                        Some(x) => match other_generic_args {
                            Some(y) => x.equals(y),
                            None => false,
                        },
                        None => other_generic_args.is_none(),
                    };
                    ident.equals(other_ident) && same_generic_args
                },
                _ => false,
            },
            Type2::ParenthesizedType { pt } => match other {
                Type2::ParenthesizedType { pt: other_pt } => pt.equals(other_pt),
                _ => false,
            },
            Type2::MapType { group } => match other {
                Type2::MapType { group: other_group } => group.equals(other_group),
                _ => false,
            },
            Type2::Array { group } => match other {
                Type2::Array { group: other_group } => group.equals(other_group),
                _ => false,
            },
            Type2::Unwrap { ident, generic_args } => match other {
                Type2::Unwrap { ident: other_ident, generic_args: other_generic_args } => {
                    let same_generic_args = match generic_args {
                        Some(x) => match other_generic_args {
                            Some(y) => x.equals(y),
                            None => false,
                        },
                        None => other_generic_args.is_none(),
                    };
                    ident.equals(other_ident) && same_generic_args
                },
                _ => false,
            },
            Type2::ChoiceFromInlineGroup { group } => match other {
                Type2::ChoiceFromInlineGroup { group: other_group } => group.equals(other_group),
                _ => false,
            },
            Type2::ChoiceFromGroup { ident, generic_args } => match other {
                Type2::ChoiceFromGroup { ident: other_ident, generic_args: other_generic_args } => {
                    let same_generic_args = match generic_args {
                        Some(x) => match other_generic_args {
                            Some(y) => x.equals(y),
                            None => false,
                        },
                        None => other_generic_args.is_none(),
                    };
                    ident.equals(other_ident) && same_generic_args
                },
                _ => false,
            },
            Type2::TaggedData { tag, t } => match other {
                Type2::TaggedData { tag: other_tag, t: other_t } => *tag == *other_tag && t.equals(
                    other_t,
                ),
                _ => false,
            },
        }
    }
}

impl PartialEq for Type2 {
    fn eq(&self, other: &Type2) -> (r: bool) {
        self.equals(other)
    }
}

impl PartialEqSpecImpl for Type2 {
    open spec fn obeys_eq_spec() -> bool {
        true
    }

    open spec fn eq_spec(&self, other: &Type2) -> bool {
        self@ == other@
    }
}

impl Group {
    /// Whether the two nodes have the same shape and content.
    pub fn equals(&self, other: &Group) -> (r: bool)
        ensures
            r == (self@ == other@),
        decreases self,
    {
        if !(self.group_choices.len() == other.group_choices.len()) {
            assert(self@.group_choices.len() == self.group_choices.len());
            assert(other@.group_choices.len() == other.group_choices.len());
            return false;
        }
        let mut i: usize = 0;
        while i < self.group_choices.len()
            invariant
                i <= self.group_choices.len(),
                self.group_choices.len() == other.group_choices.len(),
                forall|j: int| 0 <= j < i ==> self@.group_choices[j] == other@.group_choices[j],
            decreases self.group_choices.len() - i,
        {
            let same = self.group_choices[i].equals(&other.group_choices[i]);
            if !same {
                assert(self@.group_choices[i as int] != other@.group_choices[i as int]);
                return false;
            }
            i += 1;
        }
        assert(self@.group_choices =~= other@.group_choices);
        true
    }
}

impl PartialEq for Group {
    fn eq(&self, other: &Group) -> (r: bool) {
        self.equals(other)
    }
}

impl PartialEqSpecImpl for Group {
    open spec fn obeys_eq_spec() -> bool {
        true
    }

    open spec fn eq_spec(&self, other: &Group) -> bool {
        self@ == other@
    }
}

impl GroupChoice {
    /// Whether the two nodes have the same shape and content.
    pub fn equals(&self, other: &GroupChoice) -> (r: bool)
        ensures
            r == (self@ == other@),
        decreases self,
    {
        if !(self.group_entries.len() == other.group_entries.len()) {
            assert(self@.group_entries.len() == self.group_entries.len());
            assert(other@.group_entries.len() == other.group_entries.len());
            return false;
        }
        let mut i: usize = 0;
        while i < self.group_entries.len()
            invariant
                i <= self.group_entries.len(),
                self.group_entries.len() == other.group_entries.len(),
                forall|j: int| 0 <= j < i ==> self@.group_entries[j] == other@.group_entries[j],
            decreases self.group_entries.len() - i,
        {
            let same = self.group_entries[i].0.equals(&other.group_entries[i].0)
                && self.group_entries[i].1 == other.group_entries[i].1;
            if !same {
                assert(self@.group_entries[i as int] != other@.group_entries[i as int]);
                return false;
            }
            i += 1;
        }
        assert(self@.group_entries =~= other@.group_entries);
        true
    }
}

impl PartialEq for GroupChoice {
    fn eq(&self, other: &GroupChoice) -> (r: bool) {
        self.equals(other)
    }
}

impl PartialEqSpecImpl for GroupChoice {
    open spec fn obeys_eq_spec() -> bool {
        true
    }

    open spec fn eq_spec(&self, other: &GroupChoice) -> bool {
        self@ == other@
    }
}

impl GroupEntry {
    /// Whether the two nodes have the same shape and content.
    pub fn equals(&self, other: &GroupEntry) -> (r: bool)
        ensures
            r == (self@ == other@),
        decreases self,
    {
        match self {
            GroupEntry::ValueMemberKey { ge } => match other {
                GroupEntry::ValueMemberKey { ge: other_ge } => ge.equals(other_ge),
                _ => false,
            },
            GroupEntry::TypeGroupname { ge } => match other {
                GroupEntry::TypeGroupname { ge: other_ge } => ge.equals(other_ge),
                _ => false,
            },
            GroupEntry::InlineGroup { occur, group } => match other {
                GroupEntry::InlineGroup { occur: other_occur, group: other_group } => {
                    let same_occur = match occur {
                        Some(x) => match other_occur {
                            Some(y) => x.equals(y),
                            None => false,
                        },
                        None => other_occur.is_none(),
                    };
                    same_occur && group.equals(other_group)
                },
                _ => false,
            },
        }
    }
}

impl PartialEq for GroupEntry {
    fn eq(&self, other: &GroupEntry) -> (r: bool) {
        self.equals(other)
    }
}

impl PartialEqSpecImpl for GroupEntry {
    open spec fn obeys_eq_spec() -> bool {
        true
    }

    open spec fn eq_spec(&self, other: &GroupEntry) -> bool {
        self@ == other@
    }
}

impl ValueMemberKeyEntry {
    /// Whether the two nodes have the same shape and content.
    pub fn equals(&self, other: &ValueMemberKeyEntry) -> (r: bool)
        ensures
            r == (self@ == other@),
        decreases self,
    {
        let same_occur = match &self.occur {
            Some(x) => match &other.occur {
                Some(y) => x.equals(y),
                None => false,
            },
            None => other.occur.is_none(),
        };
        let same_member_key = match &self.member_key {
            Some(x) => match &other.member_key {
                Some(y) => x.equals(y),
                None => false,
            },
            None => other.member_key.is_none(),
        };
        same_occur
            && same_member_key
            && self.entry_type.equals(&other.entry_type)
    }
}

impl PartialEq for ValueMemberKeyEntry {
    fn eq(&self, other: &ValueMemberKeyEntry) -> (r: bool) {
        self.equals(other)
    }
}

impl PartialEqSpecImpl for ValueMemberKeyEntry {
    open spec fn obeys_eq_spec() -> bool {
        true
    }

    open spec fn eq_spec(&self, other: &ValueMemberKeyEntry) -> bool {
        self@ == other@
    }
}

impl TypeGroupnameEntry {
    /// Whether the two nodes have the same shape and content.
    pub fn equals(&self, other: &TypeGroupnameEntry) -> (r: bool)
        ensures
            r == (self@ == other@),
        decreases self,
    {
        let same_occur = match &self.occur {
            Some(x) => match &other.occur {
                Some(y) => x.equals(y),
                None => false,
            },
            None => other.occur.is_none(),
        };
        let same_generic_args = match &self.generic_args {
            Some(x) => match &other.generic_args {
                Some(y) => x.equals(y),
                None => false,
            },
            None => other.generic_args.is_none(),
        };
        same_occur
            && self.name.equals(&other.name)
            && same_generic_args
    }
}

impl PartialEq for TypeGroupnameEntry {
    fn eq(&self, other: &TypeGroupnameEntry) -> (r: bool) {
        self.equals(other)
    }
}

impl PartialEqSpecImpl for TypeGroupnameEntry {
    open spec fn obeys_eq_spec() -> bool {
        true
    }

    open spec fn eq_spec(&self, other: &TypeGroupnameEntry) -> bool {
        self@ == other@
    }
}

impl Occurrence {
    /// Whether the two nodes have the same shape and content.
    pub fn equals(&self, other: &Occurrence) -> (r: bool)
        ensures
            r == (self@ == other@),
        decreases self,
    {
        self.occur == other.occur
    }
}

impl PartialEq for Occurrence {
    fn eq(&self, other: &Occurrence) -> (r: bool) {
        self.equals(other)
    }
}

impl PartialEqSpecImpl for Occurrence {
    open spec fn obeys_eq_spec() -> bool {
        true
    }

    open spec fn eq_spec(&self, other: &Occurrence) -> bool {
        self@ == other@
    }
}

impl MemberKey {
    /// Whether the two nodes have the same shape and content.
    pub fn equals(&self, other: &MemberKey) -> (r: bool)
        ensures
            r == (self@ == other@),
        decreases self,
    {
        match self {
            MemberKey::Type1 { t1, is_cut } => match other {
                MemberKey::Type1 { t1: other_t1, is_cut: other_is_cut } => {
                    t1.equals(other_t1) && *is_cut == *other_is_cut
                },
                _ => false,
            },
            MemberKey::Bareword { ident } => match other {
                MemberKey::Bareword { ident: other_ident } => ident.equals(other_ident),
                _ => false,
            },
            MemberKey::Value { value } => match other {
                MemberKey::Value { value: other_value } => value.equals(other_value),
                _ => false,
            },
            MemberKey::NonMemberKey { non_member_key } => match other {
                MemberKey::NonMemberKey { non_member_key: other_non_member_key } => {
                    non_member_key.equals(other_non_member_key)
                },
                _ => false,
            },
        }
    }
}

impl PartialEq for MemberKey {
    fn eq(&self, other: &MemberKey) -> (r: bool) {
        self.equals(other)
    }
}

impl PartialEqSpecImpl for MemberKey {
    open spec fn obeys_eq_spec() -> bool {
        true
    }

    open spec fn eq_spec(&self, other: &MemberKey) -> bool {
        self@ == other@
    }
}

impl NonMemberKey {
    /// Whether the two nodes have the same shape and content.
    pub fn equals(&self, other: &NonMemberKey) -> (r: bool)
        ensures
            r == (self@ == other@),
        decreases self,
    {
        match self {
            NonMemberKey::Group(x) => match other {
                NonMemberKey::Group(other_x) => x.equals(other_x),
                _ => false,
            },
            NonMemberKey::Type(x) => match other {
                NonMemberKey::Type(other_x) => x.equals(other_x),
                _ => false,
            },
        }
    }
}

impl PartialEq for NonMemberKey {
    fn eq(&self, other: &NonMemberKey) -> (r: bool) {
        self.equals(other)
    }
}

impl PartialEqSpecImpl for NonMemberKey {
    open spec fn obeys_eq_spec() -> bool {
        true
    }

    open spec fn eq_spec(&self, other: &NonMemberKey) -> bool {
        self@ == other@
    }
}

impl Identifier {
    /// Whether the two nodes have the same shape and content.
    pub fn equals(&self, other: &Identifier) -> (r: bool)
        ensures
            r == (self@ == other@),
        decreases self,
    {
        self.ident == other.ident
            && self.position == other.position
    }
}

impl PartialEq for Identifier {
    fn eq(&self, other: &Identifier) -> (r: bool) {
        self.equals(other)
    }
}

impl PartialEqSpecImpl for Identifier {
    open spec fn obeys_eq_spec() -> bool {
        true
    }

    open spec fn eq_spec(&self, other: &Identifier) -> bool {
        self@ == other@
    }
}

} // verus!
