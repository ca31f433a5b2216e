use vstd::prelude::*;

use crate::float::Float;

verus! {

/// The values of one column, tagged with the column's element type.
///
/// A `Float32` column holds its values widened to binary64, which is exact.
pub enum ColumnValues {
    Boolean(Vec<bool>),
    Int8(Vec<i8>),
    Int16(Vec<i16>),
    Int32(Vec<i32>),
    Int64(Vec<i64>),
    Float32(Vec<Float>),
    Float64(Vec<Float>),
    Str(Vec<String>),
}

/// A named, typed column.
pub struct Column {
    pub name: String,
    pub values: ColumnValues,
}

/// A columnar table: its columns, in order. Lookup by name finds the first
/// column of that name.
pub struct Table {
    pub columns: Vec<Column>,
}

impl ColumnValues {
    /// The rows of a floating-point column (either width); `None` for any other type.
    pub open spec fn float_rows(&self) -> Option<Seq<Float>> {
        match self {
            ColumnValues::Float32(v) => Some(v@),
            ColumnValues::Float64(v) => Some(v@),
            _ => None,
        }
    }

    /// The rows of an integer column (any width), as mathematical integers;
    /// `None` for any other type.
    pub open spec fn int_rows(&self) -> Option<Seq<int>> {
        match self {
            ColumnValues::Int8(v) => Some(v@.map_values(|x: i8| x as int)),
            ColumnValues::Int16(v) => Some(v@.map_values(|x: i16| x as int)),
            ColumnValues::Int32(v) => Some(v@.map_values(|x: i32| x as int)),
            ColumnValues::Int64(v) => Some(v@.map_values(|x: i64| x as int)),
            _ => None,
        }
    }

    /// The rows of a string column; `None` for any other type.
    pub open spec fn str_rows(&self) -> Option<Seq<Seq<char>>> {
        match self {
            ColumnValues::Str(v) => Some(v@.map_values(|s: String| s@)),
            _ => None,
        }
    }

    /// The number of rows.
    pub open spec fn spec_len(&self) -> nat {
        match self {
            ColumnValues::Boolean(v) => v@.len(),
            ColumnValues::Int8(v) => v@.len(),
            ColumnValues::Int16(v) => v@.len(),
            ColumnValues::Int32(v) => v@.len(),
            ColumnValues::Int64(v) => v@.len(),
            ColumnValues::Float32(v) => v@.len(),
            ColumnValues::Float64(v) => v@.len(),
            ColumnValues::Str(v) => v@.len(),
        }
    }

    pub fn len(&self) -> (r: usize)
        ensures
            r == self.spec_len(),
    {
        match self {
            ColumnValues::Boolean(v) => v.len(),
            ColumnValues::Int8(v) => v.len(),
            ColumnValues::Int16(v) => v.len(),
            ColumnValues::Int32(v) => v.len(),
            ColumnValues::Int64(v) => v.len(),
            ColumnValues::Float32(v) => v.len(),
            ColumnValues::Float64(v) => v.len(),
            ColumnValues::Str(v) => v.len(),
        }
    }

    /// Row `i` of an integer column, widened to `i64`.
    pub fn int_at(&self, i: usize) -> (r: i64)
        requires
            self.int_rows() is Some,
            i < self.spec_len(),
        ensures
            r as int == self.int_rows()->0[i as int],
    {
        match self {
            ColumnValues::Int8(v) => v[i] as i64,
            ColumnValues::Int16(v) => v[i] as i64,
            ColumnValues::Int32(v) => v[i] as i64,
            ColumnValues::Int64(v) => v[i],
            _ => 0,
        }
    }

    /// Row `i` of a floating-point column.
    pub fn float_at(&self, i: usize) -> (r: Float)
        requires
            self.float_rows() is Some,
            i < self.spec_len(),
        ensures
            r == self.float_rows()->0[i as int],
    {
        match self {
            ColumnValues::Float32(v) => v[i],
            ColumnValues::Float64(v) => v[i],
            _ => Float::from_bits(0),
        }
    }
}

impl Table {
    /// `i` is the position of the first column named `name`.
    pub open spec fn is_first_named(self, name: Seq<char>, i: int) -> bool {
        &&& 0 <= i < self.columns@.len()
        &&& self.columns@[i].name@ == name
        &&& forall|k: int| 0 <= k < i ==> self.columns@[k].name@ != name
    }

    /// The column that a lookup by `name` finds.
    pub open spec fn spec_column(self, name: Seq<char>) -> Option<Column> {
        if exists|i: int| self.is_first_named(name, i) {
            Some(self.columns@[choose|i: int| self.is_first_named(name, i)])
        } else {
            None
        }
    }

    pub fn new(columns: Vec<Column>) -> (r: Table)
        ensures
            r.columns@ == columns@,
    {
        Table { columns }
    }

    /// The column named `name`, the first one where several share it.
    pub fn column(&self, name: &String) -> (r: Option<&Column>)
        ensures
            match r {
                Some(c) => self.spec_column(name@) == Some(*c),
                None => self.spec_column(name@) is None,
            },
    {
        let mut i: usize = 0;
        while i < self.columns.len()
            invariant
                i <= self.columns@.len(),
                forall|k: int| 0 <= k < i ==> self.columns@[k].name@ != name@,
            decreases self.columns@.len() - i,
        {
            if self.columns[i].name == *name {
                assert(self.is_first_named(name@, i as int));
                let ghost j = choose|j: int| self.is_first_named(name@, j);
                assert(j == i as int) by {
                    if j < i as int {
                    } else if j > i as int {
                        assert(self.columns@[i as int].name@ != name@);
                    }
                }
                return Some(&self.columns[i]);
            }
            i = i + 1;
        }
        assert(!exists|j: int| self.is_first_named(name@, j));
        None
    }
}

} // verus!
