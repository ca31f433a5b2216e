use vstd::prelude::*;

use crate::float::Float;
use crate::rule::{RuleError, RuleType};
use crate::table::{ColumnValues, Table};

verus! {

/// A value domain of discrete rules: how two values compare, and how a value
/// compares with a row of a column of this domain.
pub trait Domain: Sized {
    /// `a == b`, as `check` compares a value with the valid ones.
    spec fn same(a: &Self, b: &Self) -> bool;

    /// The column is of a type that this domain accepts.
    spec fn accepts(values: &ColumnValues) -> bool;

    /// Row `i` of the column equals `v`, as the column engine compares.
    spec fn matches_row(v: &Self, values: &ColumnValues, i: int) -> bool;

    /// Row `i` of the column holds exactly `v`.
    spec fn holds(v: &Self, values: &ColumnValues, i: int) -> bool;

    fn equals(&self, o: &Self) -> (r: bool)
        ensures
            r == Self::same(self, o),
    ;

    fn accepts_exec(values: &ColumnValues) -> (r: bool)
        ensures
            r == Self::accepts(values),
    ;

    fn equals_row(&self, values: &ColumnValues, i: usize) -> (r: bool)
        requires
            Self::accepts(values),
            i < values.spec_len(),
        ensures
            r == Self::matches_row(self, values, i as int),
    ;

    /// Comparing with a row that holds `v` is comparing with `v`.
    proof fn lemma_row_is_value(w: &Self, v: &Self, values: &ColumnValues, i: int)
        requires
            Self::accepts(values),
            0 <= i < values.spec_len(),
            Self::holds(v, values, i),
        ensures
            Self::matches_row(w, values, i) == Self::same(w, v),
    ;
}

impl Domain for String {
    open spec fn same(a: &Self, b: &Self) -> bool {
        a@ == b@
    }

    open spec fn accepts(values: &ColumnValues) -> bool {
        values.str_rows() is Some
    }

    open spec fn matches_row(v: &Self, values: &ColumnValues, i: int) -> bool {
        values.str_rows()->0[i] == v@
    }

    open spec fn holds(v: &Self, values: &ColumnValues, i: int) -> bool {
        values.str_rows()->0[i] == v@
    }

    fn equals(&self, o: &Self) -> (r: bool) {
        *self == *o
    }

    fn accepts_exec(values: &ColumnValues) -> (r: bool) {
        match values {
            ColumnValues::Str(_) => true,
            _ => false,
        }
    }

    fn equals_row(&self, values: &ColumnValues, i: usize) -> (r: bool) {
        match values {
            ColumnValues::Str(v) => v[i] == *self,
            _ => false,
        }
    }

    proof fn lemma_row_is_value(w: &Self, v: &Self, values: &ColumnValues, i: int) {
    }
}

impl Domain for i32 {
    open spec fn same(a: &Self, b: &Self) -> bool {
        *a == *b
    }

    open spec fn accepts(values: &ColumnValues) -> bool {
        values.int_rows() is Some
    }

    open spec fn matches_row(v: &Self, values: &ColumnValues, i: int) -> bool {
        values.int_rows()->0[i] == *v as int
    }

    open spec fn holds(v: &Self, values: &ColumnValues, i: int) -> bool {
        values.int_rows()->0[i] == *v as int
    }

    fn equals(&self, o: &Self) -> (r: bool) {
        *self == *o
    }

    fn accepts_exec(values: &ColumnValues) -> (r: bool) {
        match values {
            ColumnValues::Int8(_) | ColumnValues::Int16(_) | ColumnValues::Int32(_)
            | ColumnValues::Int64(_) => true,
            _ => false,
        }
    }

    fn equals_row(&self, values: &ColumnValues, i: usize) -> (r: bool) {
        values.int_at(i) == *self as i64
    }

    proof fn lemma_row_is_value(w: &Self, v: &Self, values: &ColumnValues, i: int) {
    }
}

impl Domain for Float {
    open spec fn same(a: &Self, b: &Self) -> bool {
        a.spec_eq(*b)
    }

    open spec fn accepts(values: &ColumnValues) -> bool {
        values is Float32
    }

    open spec fn matches_row(v: &Self, values: &ColumnValues, i: int) -> bool {
        v.spec_eq(values.float_rows()->0[i])
    }

    open spec fn holds(v: &Self, values: &ColumnValues, i: int) -> bool {
        values.float_rows()->0[i] == *v
    }

    fn equals(&self, o: &Self) -> (r: bool) {
        self.eq_value(o)
    }

    fn accepts_exec(values: &ColumnValues) -> (r: bool) {
        match values {
            ColumnValues::Float32(_) => true,
            _ => false,
        }
    }

    fn equals_row(&self, values: &ColumnValues, i: usize) -> (r: bool) {
        self.eq_value(&values.float_at(i))
    }

    proof fn lemma_row_is_value(w: &Self, v: &Self, values: &ColumnValues, i: int) {
    }
}

/// A rule over a column of domain `T`: `valid`, `invalid` and `space` are
/// sets of values; `space` only describes the domain.
pub struct DiscreteRule<T> {
    pub name: String,
    pub rule_type: RuleType,
    pub valid: Vec<T>,
    pub invalid: Vec<T>,
    pub space: Vec<T>,
}

impl<T: Domain> DiscreteRule<T> {
    /// What construction guarantees: a named column and the right kind.
    pub open spec fn wf(&self) -> bool {
        &&& self.name@.len() > 0
        &&& self.rule_type == RuleType::Discrete
    }

    /// `v` is one of the valid values.
    pub open spec fn spec_check(&self, v: &T) -> bool {
        exists|i: int| 0 <= i < self.valid@.len() && T::same(&self.valid@[i], v)
    }

    /// Row `j` equals some valid value and differs from every invalid one.
    pub open spec fn selects_row(&self, values: &ColumnValues, j: int) -> bool {
        &&& exists|i: int| 0 <= i < self.valid@.len() && T::matches_row(&self.valid@[i], values, j)
        &&& forall|i: int| 0 <= i < self.invalid@.len() ==> !T::matches_row(&self.invalid@[i], values, j)
    }

    /// The mask that `predict` gives for a column.
    pub open spec fn spec_mask(&self, values: &ColumnValues) -> Seq<bool> {
        Seq::new(values.spec_len(), |j: int| self.selects_row(values, j))
    }

    /// What `predict` returns on `table`.
    pub open spec fn spec_predict(&self, table: Table) -> Result<Seq<bool>, RuleError> {
        match table.spec_column(self.name@) {
            None => Err(RuleError::MissingColumn),
            Some(c) => if T::accepts(&c.values) {
                Ok(self.spec_mask(&c.values))
            } else {
                Err(RuleError::TypeMismatch)
            },
        }
    }

    /// Builds a discrete rule from its configured name, rule type text and value sets.
    pub fn new(name: String, rule_type: &str, valid: Vec<T>, invalid: Vec<T>, space: Vec<T>) -> (r:
        Result<DiscreteRule<T>, RuleError>)
        ensures
            match RuleType::spec_header(name@, rule_type@, RuleType::Discrete) {
                Err(e) => r matches Err(f) && f == e,
                Ok(_) => r matches Ok(rule) && rule.wf() && rule.name@ == name@ && rule.valid@ == valid@ && rule.invalid@ == invalid@
                    && rule.space@ == space@,
            },
    {
        match RuleType::check_header(&name, rule_type, RuleType::Discrete) {
            Err(e) => Err(e),
            Ok(()) => Ok(DiscreteRule { name, rule_type: RuleType::Discrete, valid, invalid, space }),
        }
    }

    /// Whether `value` is one of the valid values; `invalid` and `space` play no part.
    pub fn check(&self, value: &T) -> (r: bool)
        ensures
            r == self.spec_check(value),
    {
        let mut i: usize = 0;
        while i < self.valid.len()
            invariant
                i <= self.valid@.len(),
                forall|k: int| 0 <= k < i ==> !T::same(&self.valid@[k], value),
            decreases self.valid@.len() - i,
        {
            if self.valid[i].equals(value) {
                return true;
            }
            i = i + 1;
        }
        false
    }

    fn selects_row_exec(&self, values: &ColumnValues, j: usize) -> (r: bool)
        requires
            T::accepts(values),
            j < values.spec_len(),
        ensures
            r == self.selects_row(values, j as int),
    {
        let mut found = false;
        let mut i: usize = 0;
        while i < self.valid.len()
            invariant
                T::accepts(values),
                j < values.spec_len(),
                i <= self.valid@.len(),
                found == exists|k: int| 0 <= k < i && T::matches_row(&self.valid@[k], values, j as int),
            decreases self.valid@.len() - i,
        {
            if self.valid[i].equals_row(values, j) {
                found = true;
            }
            i = i + 1;
        }
        if !found {
            return false;
        }
        let mut k: usize = 0;
        while k < self.invalid.len()
            invariant
                T::accepts(values),
                j < values.spec_len(),
                k <= self.invalid@.len(),
                forall|m: int| 0 <= m < k ==> !T::matches_row(&self.invalid@[m], values, j as int),
            decreases self.invalid@.len() - k,
        {
            if self.invalid[k].equals_row(values, j) {
                return false;
            }
            k = k + 1;
        }
        true
    }

    /// The mask of the rows of the rule's column that equal some valid value
    /// and differ from every invalid one.
    pub fn predict(&self, table: &Table) -> (r: Result<Vec<bool>, RuleError>)
        ensures
            match (r, self.spec_predict(*table)) {
                (Ok(mask), Ok(m)) => mask@ == m,
                (Err(e), Err(f)) => e == f,
                _ => false,
            },
    {
        let column = match table.column(&self.name) {
            None => return Err(RuleError::MissingColumn),
            Some(c) => c,
        };
        let values = &column.values;
        if !T::accepts_exec(values) {
            return Err(RuleError::TypeMismatch);
        }
        let n = values.len();
        let mut mask: Vec<bool> = Vec::new();
        let mut j: usize = 0;
        while j < n
            invariant
                T::accepts(values),
                n == values.spec_len(),
                j <= n,
                mask@ == self.spec_mask(values).take(j as int),
            decreases n - j,
        {
            let b = self.selects_row_exec(values, j);
            proof {
                assert(self.spec_mask(values).take(j + 1) =~= self.spec_mask(values).take(j as int).push(b));
            }
            mask.push(b);
            j = j + 1;
        }
        assert(mask@ =~= self.spec_mask(values));
        Ok(mask)
    }
}

/// With no invalid values, the mask that `predict` gives a row that holds `v`
/// is what `check` says of `v`.
pub proof fn lemma_check_agrees_with_predict<T: Domain>(
    rule: DiscreteRule<T>,
    values: ColumnValues,
    v: T,
    j: int,
)
    requires
        rule.invalid@.len() == 0,
        T::accepts(&values),
        0 <= j < values.spec_len(),
        T::holds(&v, &values, j),
    ensures
        rule.spec_mask(&values)[j] == rule.spec_check(&v),
{
    assert forall|i: int| 0 <= i < rule.valid@.len() implies T::matches_row(
        &rule.valid@[i],
        &values,
        j,
    ) == T::same(&rule.valid@[i], &v) by {
        T::lemma_row_is_value(&rule.valid@[i], &v, &values, j);
    }
}

/// `predict` of a discrete rule fails with a type mismatch exactly when the
/// rule's column is present and of a type that the rule's domain does not accept.
pub proof fn lemma_discrete_type_mismatch<T: Domain>(rule: DiscreteRule<T>, table: Table)
    ensures
        rule.spec_predict(table) == Err::<Seq<bool>, RuleError>(RuleError::TypeMismatch) <==> (
        table.spec_column(rule.name@) matches Some(c) && !T::accepts(&c.values)),
{
}

} // verus!
