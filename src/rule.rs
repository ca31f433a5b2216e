use vstd::prelude::*;
use vstd::string::*;

use crate::float::Float;
use crate::table::{ColumnValues, Table};

verus! {

/// The kind of a rule.
#[derive(Clone, Copy, Debug, PartialEq, Eq, Structural)]
pub enum RuleType {
    Continuous,
    Discrete,
}

/// Why a rule could not be built or evaluated.
#[derive(Clone, Copy, Debug, PartialEq, Eq, Structural)]
pub enum RuleError {
    /// The rule's name, which names its target column, is empty.
    EmptyName,
    /// The rule type text is neither `Continuous` nor `Discrete`.
    UnknownRuleType,
    /// The rule type names the other kind of rule.
    KindMismatch,
    /// A continuous rule was given no range.
    NoRanges,
    /// The table has no column of the rule's name.
    MissingColumn,
    /// The column's element type does not fit the rule's domain.
    TypeMismatch,
}

/// Whether two strings hold the same characters.
pub fn text_equals(s: &str, t: &str) -> (r: bool)
    ensures
        r == (s@ == t@),
{
    let n = s.unicode_len();
    if n != t.unicode_len() {
        return false;
    }
    let mut i: usize = 0;
    while i < n
        invariant
            n == s@.len(),
            n == t@.len(),
            i <= n,
            forall|k: int| 0 <= k < i ==> s@[k] == t@[k],
        decreases n - i,
    {
        if s.get_char(i) != t.get_char(i) {
            return false;
        }
        i = i + 1;
    }
    assert(s@ =~= t@);
    true
}

impl RuleType {
    /// The kind that a configuration names by `text`.
    pub open spec fn spec_parse(text: Seq<char>) -> Option<RuleType> {
        if text == "Continuous"@ {
            Some(RuleType::Continuous)
        } else if text == "Discrete"@ {
            Some(RuleType::Discrete)
        } else {
            None
        }
    }

    pub fn parse(text: &str) -> (r: Option<RuleType>)
        ensures
            r == RuleType::spec_parse(text@),
    {
        if text_equals(text, "Continuous") {
            Some(RuleType::Continuous)
        } else if text_equals(text, "Discrete") {
            Some(RuleType::Discrete)
        } else {
            None
        }
    }

    /// The outcome of building a rule of kind `kind` from a configured name
    /// and rule type text, before its own fields are looked at.
    pub open spec fn spec_header(name: Seq<char>, text: Seq<char>, kind: RuleType) -> Result<
        (),
        RuleError,
    > {
        if name.len() == 0 {
            Err(RuleError::EmptyName)
        } else if RuleType::spec_parse(text) is None {
            Err(RuleError::UnknownRuleType)
        } else if RuleType::spec_parse(text) != Some(kind) {
            Err(RuleError::KindMismatch)
        } else {
            Ok(())
        }
    }

    pub fn check_header(name: &String, text: &str, kind: RuleType) -> (r: Result<(), RuleError>)
        ensures
            r == RuleType::spec_header(name@, text@, kind),
    {
        if name.as_str().unicode_len() == 0 {
            return Err(RuleError::EmptyName);
        }
        match RuleType::parse(text) {
            None => Err(RuleError::UnknownRuleType),
            Some(t) => {
                if t == kind {
                    Ok(())
                } else {
                    Err(RuleError::KindMismatch)
                }
            },
        }
    }
}

/// An interval of values; `check` reads it as `(min, max]`, `predict` as `[min, max]`.
#[derive(Clone, Copy, Debug)]
pub struct Range {
    pub min: Float,
    pub max: Float,
}

impl Range {
    pub fn new(min: Float, max: Float) -> (r: Range)
        ensures
            r.min == min,
            r.max == max,
    {
        Range { min, max }
    }

    /// `min < v <= max`.
    pub open spec fn holds(self, v: Float) -> bool {
        self.min.spec_lt(v) && v.spec_le(self.max)
    }

    /// `min <= v <= max`.
    pub open spec fn holds_inclusive(self, v: Float) -> bool {
        self.min.spec_le(v) && v.spec_le(self.max)
    }
}

/// A rule over a floating-point column: a value passes when some range covers it.
pub struct ContinuousRule {
    pub name: String,
    pub rule_type: RuleType,
    pub ranges: Vec<Range>,
}

impl ContinuousRule {
    /// What construction guarantees: a named column, the right kind, at least one range.
    pub open spec fn wf(&self) -> bool {
        &&& self.name@.len() > 0
        &&& self.rule_type == RuleType::Continuous
        &&& self.ranges@.len() > 0
    }

    /// Some range has `min < v <= max`.
    pub open spec fn spec_check(&self, v: Float) -> bool {
        exists|i: int| 0 <= i < self.ranges@.len() && self.ranges@[i].holds(v)
    }

    /// Some range has `min <= v <= max`.
    pub open spec fn selects(&self, v: Float) -> bool {
        exists|i: int| 0 <= i < self.ranges@.len() && self.ranges@[i].holds_inclusive(v)
    }

    /// The mask that `predict` gives for the rows of a column.
    pub open spec fn spec_mask(&self, rows: Seq<Float>) -> Seq<bool> {
        rows.map_values(|v: Float| self.selects(v))
    }

    /// What `predict` returns on `table`.
    pub open spec fn spec_predict(&self, table: Table) -> Result<Seq<bool>, RuleError> {
        match table.spec_column(self.name@) {
            None => Err(RuleError::MissingColumn),
            Some(c) => match c.values.float_rows() {
                None => Err(RuleError::TypeMismatch),
                Some(rows) => Ok(self.spec_mask(rows)),
            },
        }
    }

    /// Builds a continuous rule from its configured name, rule type text and ranges.
    pub fn new(name: String, rule_type: &str, ranges: Vec<Range>) -> (r: Result<
        ContinuousRule,
        RuleError,
    >)
        ensures
            match RuleType::spec_header(name@, rule_type@, RuleType::Continuous) {
                Err(e) => r == Err::<ContinuousRule, RuleError>(e),
                Ok(_) => if ranges@.len() == 0 {
                    r == Err::<ContinuousRule, RuleError>(RuleError::NoRanges)
                } else {
                    r matches Ok(rule) && rule.wf() && rule.name@ == name@ && rule.ranges@
                        == ranges@
                },
            },
    {
        match RuleType::check_header(&name, rule_type, RuleType::Continuous) {
            Err(e) => Err(e),
            Ok(()) => {
                if ranges.len() == 0 {
                    Err(RuleError::NoRanges)
                } else {
                    Ok(ContinuousRule { name, rule_type: RuleType::Continuous, ranges })
                }
            },
        }
    }

    /// Whether some range has `min < value <= max`.
    pub fn check(&self, value: Float) -> (r: bool)
        ensures
            r == self.spec_check(value),
    {
        let mut i: usize = 0;
        while i < self.ranges.len()
            invariant
                i <= self.ranges@.len(),
                forall|k: int| 0 <= k < i ==> !self.ranges@[k].holds(value),
            decreases self.ranges@.len() - i,
        {
            let range = self.ranges[i];
            if range.min.lt(&value) && value.le(&range.max) {
                return true;
            }
            i = i + 1;
        }
        false
    }

    /// Whether some range has `min <= value <= max`, as `predict` reads a row.
    fn selects_exec(&self, value: Float) -> (r: bool)
        ensures
            r == self.selects(value),
    {
        let mut i: usize = 0;
        while i < self.ranges.len()
            invariant
                i <= self.ranges@.len(),
                forall|k: int| 0 <= k < i ==> !self.ranges@[k].holds_inclusive(value),
            decreases self.ranges@.len() - i,
        {
            let range = self.ranges[i];
            if range.min.le(&value) && value.le(&range.max) {
                return true;
            }
            i = i + 1;
        }
        false
    }

    /// The mask of the rows of the rule's column that some range covers,
    /// bounds included on both ends.
    pub fn predict(&self, table: &Table) -> (r: Result<Vec<bool>, RuleError>)
        ensures
            match (r, self.spec_predict(*table)) {
                (Ok(mask), Ok(m)) => mask@ == m,
                (Err(e), Err(f)) => e == f,
                _ => false,
            },
    {
        let column = match table.column(&self.name) {
            None => return Err(RuleError::MissingColumn),
            Some(c) => c,
        };
        let values = &column.values;
        match values {
            ColumnValues::Float32(_) | ColumnValues::Float64(_) => {},
            _ => return Err(RuleError::TypeMismatch),
        }
        let ghost rows = values.float_rows()->0;
        let n = values.len();
        let mut mask: Vec<bool> = Vec::new();
        let mut j: usize = 0;
        while j < n
            invariant
                values.float_rows() == Some(rows),
                n == rows.len(),
                n == values.spec_len(),
                j <= n,
                mask@ == self.spec_mask(rows).take(j as int),
            decreases n - j,
        {
            let v = values.float_at(j);
            let b = self.selects_exec(v);
            proof {
                assert(self.spec_mask(rows).take(j + 1) =~= self.spec_mask(rows).take(j as int).push(b));
            }
            mask.push(b);
            j = j + 1;
        }
        assert(mask@ =~= self.spec_mask(rows));
        Ok(mask)
    }
}

/// A value that no range covers fails `check`.
pub proof fn lemma_uncovered_fails(rule: ContinuousRule, v: Float)
    requires
        forall|i: int| 0 <= i < rule.ranges@.len() ==> !rule.ranges@[i].holds(v),
    ensures
        !rule.spec_check(v),
{
}

/// A value with `r.min < v <= r.max` for some range `r` passes `check`.
pub proof fn lemma_covered_passes(rule: ContinuousRule, v: Float, i: int)
    requires
        0 <= i < rule.ranges@.len(),
        rule.ranges@[i].holds(v),
    ensures
        rule.spec_check(v),
{
}

/// `check` and the row test of `predict` differ only on a value that equals
/// the minimum of some range.
pub proof fn lemma_check_selects_off_minimums(rule: ContinuousRule, v: Float)
    requires
        forall|i: int| 0 <= i < rule.ranges@.len() ==> !rule.ranges@[i].min.spec_eq(v),
    ensures
        rule.selects(v) == rule.spec_check(v),
{
    if rule.selects(v) {
        let i = choose|i: int| 0 <= i < rule.ranges@.len() && rule.ranges@[i].holds_inclusive(v);
        assert(rule.ranges@[i].holds(v));
    }
    if rule.spec_check(v) {
        let i = choose|i: int| 0 <= i < rule.ranges@.len() && rule.ranges@[i].holds(v);
        assert(rule.ranges@[i].holds_inclusive(v));
    }
}

/// `predict` of a continuous rule fails with a type mismatch exactly when the
/// rule's column is present and not of a floating-point type.
pub proof fn lemma_continuous_type_mismatch(rule: ContinuousRule, table: Table)
    ensures
        rule.spec_predict(table) == Err::<Seq<bool>, RuleError>(RuleError::TypeMismatch) <==> (
        table.spec_column(rule.name@) matches Some(c) && c.values.float_rows() is None),
{
}

} // verus!
