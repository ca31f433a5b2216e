use vstd::prelude::*;

use crate::discrete::DiscreteRule;
use crate::float::Float;
use crate::rule::{ContinuousRule, RuleError, RuleType};
use crate::table::Table;

verus! {

/// One value to check, in one of the domains that rules speak of.
pub enum Scalar {
    Str(String),
    Int(i32),
    Float(Float),
}

/// A rule of either kind, a discrete one in one of its domains.
pub enum Rule {
    Continuous(ContinuousRule),
    DiscreteStr(DiscreteRule<String>),
    DiscreteInt(DiscreteRule<i32>),
    DiscreteFloat(DiscreteRule<Float>),
}

impl Rule {
    pub open spec fn spec_name(&self) -> Seq<char> {
        match self {
            Rule::Continuous(r) => r.name@,
            Rule::DiscreteStr(r) => r.name@,
            Rule::DiscreteInt(r) => r.name@,
            Rule::DiscreteFloat(r) => r.name@,
        }
    }

    /// What `check` returns: the rule's own verdict where the value is of
    /// the rule's domain, else a type mismatch.
    pub open spec fn spec_check(&self, v: &Scalar) -> Result<bool, RuleError> {
        match (self, v) {
            (Rule::Continuous(r), Scalar::Float(x)) => Ok(r.spec_check(*x)),
            (Rule::DiscreteStr(r), Scalar::Str(x)) => Ok(r.spec_check(x)),
            (Rule::DiscreteInt(r), Scalar::Int(x)) => Ok(r.spec_check(x)),
            (Rule::DiscreteFloat(r), Scalar::Float(x)) => Ok(r.spec_check(x)),
            _ => Err(RuleError::TypeMismatch),
        }
    }

    /// What `predict` returns: the variant's own.
    pub open spec fn spec_predict(&self, table: Table) -> Result<Seq<bool>, RuleError> {
        match self {
            Rule::Continuous(r) => r.spec_predict(table),
            Rule::DiscreteStr(r) => r.spec_predict(table),
            Rule::DiscreteInt(r) => r.spec_predict(table),
            Rule::DiscreteFloat(r) => r.spec_predict(table),
        }
    }

    /// The name of the column the rule targets.
    pub fn name(&self) -> (r: &String)
        ensures
            r@ == self.spec_name(),
    {
        match self {
            Rule::Continuous(r) => &r.name,
            Rule::DiscreteStr(r) => &r.name,
            Rule::DiscreteInt(r) => &r.name,
            Rule::DiscreteFloat(r) => &r.name,
        }
    }

    pub fn rule_type(&self) -> (r: RuleType)
        ensures
            r == (if self is Continuous {
                RuleType::Continuous
            } else {
                RuleType::Discrete
            }),
    {
        match self {
            Rule::Continuous(_) => RuleType::Continuous,
            _ => RuleType::Discrete,
        }
    }

    /// Checks one value against the rule.
    pub fn check(&self, v: &Scalar) -> (r: Result<bool, RuleError>)
        ensures
            r == self.spec_check(v),
    {
        match (self, v) {
            (Rule::Continuous(r), Scalar::Float(x)) => Ok(r.check(*x)),
            (Rule::DiscreteStr(r), Scalar::Str(x)) => Ok(r.check(x)),
            (Rule::DiscreteInt(r), Scalar::Int(x)) => Ok(r.check(x)),
            (Rule::DiscreteFloat(r), Scalar::Float(x)) => Ok(r.check(x)),
            _ => Err(RuleError::TypeMismatch),
        }
    }

    /// The mask of the rule over its column of `table`.
    pub fn predict(&self, table: &Table) -> (r: Result<Vec<bool>, RuleError>)
        ensures
            match (r, self.spec_predict(*table)) {
                (Ok(mask), Ok(m)) => mask@ == m,
                (Err(e), Err(f)) => e == f,
                _ => false,
            },
    {
        match self {
            Rule::Continuous(r) => r.predict(table),
            Rule::DiscreteStr(r) => r.predict(table),
            Rule::DiscreteInt(r) => r.predict(table),
            Rule::DiscreteFloat(r) => r.predict(table),
        }
    }
}

} // verus!
