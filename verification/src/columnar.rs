//! Columnar batches: the form in which rows travel to and from a
//! driver-managed engine.

use vstd::prelude::*;
use crate::error::{ErrorKind, StorageError};

verus! {

/// The type of the values of a column.
#[derive(Clone, Copy, Debug, PartialEq, Eq, Structural)]
pub enum ColumnKind {
    /// Text.
    Utf8,
    /// Signed 64-bit integers.
    Int64,
    /// 64-bit IEEE 754 numbers, each carried as its 64 bits.
    Float64,
    /// Anything else; this library does not read such a column.
    Other,
}

/// The values of one column, none of them null.
#[derive(Clone, Debug, PartialEq, Eq)]
pub enum Column {
    Utf8(Vec<String>),
    Int64(Vec<i64>),
    Float64(Vec<u64>),
    /// A column of another type, of which only the number of values is kept.
    Other(usize),
}

/// What a column holds, as plain values.
pub ghost enum ColumnData {
    Utf8(Seq<Seq<char>>),
    Int64(Seq<i64>),
    Float64(Seq<u64>),
    Other(nat),
}

impl ColumnData {
    /// The type of the values.
    pub open spec fn kind(self) -> ColumnKind {
        match self {
            ColumnData::Utf8(_) => ColumnKind::Utf8,
            ColumnData::Int64(_) => ColumnKind::Int64,
            ColumnData::Float64(_) => ColumnKind::Float64,
            ColumnData::Other(_) => ColumnKind::Other,
        }
    }

    /// The number of values.
    pub open spec fn len(self) -> nat {
        match self {
            ColumnData::Utf8(v) => v.len(),
            ColumnData::Int64(v) => v.len(),
            ColumnData::Float64(v) => v.len(),
            ColumnData::Other(n) => n,
        }
    }

    /// The texts of a text column; of another column, none.
    pub open spec fn texts(self) -> Seq<Seq<char>> {
        match self {
            ColumnData::Utf8(v) => v,
            _ => Seq::empty(),
        }
    }

    /// The integers of an integer column; of another column, none.
    pub open spec fn integers(self) -> Seq<i64> {
        match self {
            ColumnData::Int64(v) => v,
            _ => Seq::empty(),
        }
    }

    /// The bit patterns of a column of IEEE 754 numbers; of another column,
    /// none.
    pub open spec fn bit_patterns(self) -> Seq<u64> {
        match self {
            ColumnData::Float64(v) => v,
            _ => Seq::empty(),
        }
    }
}

/// The texts that a vector of strings holds.
pub open spec fn texts_of(v: Seq<String>) -> Seq<Seq<char>> {
    Seq::new(v.len(), |i: int| v[i]@)
}

impl View for Column {
    type V = ColumnData;

    open spec fn view(&self) -> ColumnData {
        match self {
            Column::Utf8(v) => ColumnData::Utf8(texts_of(v@)),
            Column::Int64(v) => ColumnData::Int64(v@),
            Column::Float64(v) => ColumnData::Float64(v@),
            Column::Other(n) => ColumnData::Other(*n as nat),
        }
    }
}

impl Column {
    /// The type of the values.
    pub fn kind(&self) -> (k: ColumnKind)
        ensures
            k == self@.kind(),
    {
        match self {
            Column::Utf8(_) => ColumnKind::Utf8,
            Column::Int64(_) => ColumnKind::Int64,
            Column::Float64(_) => ColumnKind::Float64,
            Column::Other(_) => ColumnKind::Other,
        }
    }

    /// The number of values.
    pub fn len(&self) -> (n: usize)
        ensures
            n == self@.len(),
    {
        match self {
            Column::Utf8(v) => v.len(),
            Column::Int64(v) => v.len(),
            Column::Float64(v) => v.len(),
            Column::Other(n) => *n,
        }
    }
}

/// A column under its name.
#[derive(Clone, Debug, PartialEq, Eq)]
pub struct NamedColumn {
    pub name: String,
    pub values: Column,
}

/// A named column, as plain values.
pub ghost struct ColumnView {
    pub name: Seq<char>,
    pub data: ColumnData,
}

impl View for NamedColumn {
    type V = ColumnView;

    open spec fn view(&self) -> ColumnView {
        ColumnView { name: self.name@, data: self.values@ }
    }
}

/// The named columns that a vector holds, in order.
pub open spec fn columns_of(columns: Seq<NamedColumn>) -> Seq<ColumnView> {
    Seq::new(columns.len(), |i: int| columns[i]@)
}

/// True when there is a column and all columns are equally long.
pub open spec fn rectangular(columns: Seq<ColumnView>) -> bool {
    &&& columns.len() > 0
    &&& forall|i: int|
        0 <= i < columns.len() ==> (#[trigger] columns[i]).data.len() == columns[0].data.len()
}

/// A set of equally long columns: each row has one value in each of them.
#[derive(Clone, Debug, PartialEq, Eq)]
pub struct ColumnBatch {
    columns: Vec<NamedColumn>,
}

impl View for ColumnBatch {
    type V = Seq<ColumnView>;

    closed spec fn view(&self) -> Seq<ColumnView> {
        columns_of(self.columns@)
    }
}

impl ColumnBatch {
    /// A batch always has a column, and its columns are equally long.
    pub open spec fn wf(&self) -> bool {
        rectangular(self@)
    }

    /// The number of rows.
    pub open spec fn rows(&self) -> nat {
        self@[0].data.len()
    }

    /// Makes a batch of the given columns. It fails, with an internal
    /// failure, where there is no column or where two columns differ in
    /// length.
    pub fn from_columns(columns: Vec<NamedColumn>) -> (r: Result<ColumnBatch, StorageError>)
        ensures
            match r {
                Ok(batch) => rectangular(columns_of(columns@)) && batch.wf() && batch@
                    == columns_of(columns@),
                Err(e) => !rectangular(columns_of(columns@)) && e.says(
                    ErrorKind::Internal,
                    if columns@.len() == 0 {
                        "a batch needs at least one column"@
                    } else {
                        "all columns of a batch must have the same length"@
                    },
                ),
            },
    {
        if columns.len() == 0 {
            return Err(StorageError::internal("a batch needs at least one column"));
        }
        let rows = columns[0].values.len();
        let mut i: usize = 1;
        while i < columns.len()
            invariant
                1 <= i <= columns@.len(),
                rows == columns@[0]@.data.len(),
                forall|j: int| 0 <= j < i ==> (#[trigger] columns@[j])@.data.len() == rows,
            decreases columns@.len() - i,
        {
            if columns[i].values.len() != rows {
                assert(columns_of(columns@)[i as int].data.len() != columns_of(
                    columns@,
                )[0].data.len());
                return Err(
                    StorageError::internal("all columns of a batch must have the same length"),
                );
            }
            i = i + 1;
        }
        Ok(ColumnBatch { columns })
    }

    /// The number of columns.
    pub fn num_columns(&self) -> (n: usize)
        ensures
            n == self@.len(),
    {
        self.columns.len()
    }

    /// The number of rows.
    pub fn num_rows(&self) -> (n: usize)
        requires
            self.wf(),
        ensures
            n == self.rows(),
    {
        self.columns[0].values.len()
    }

    /// The columns, in order.
    pub fn columns(&self) -> (r: &Vec<NamedColumn>)
        ensures
            columns_of(r@) == self@,
    {
        &self.columns
    }

    /// Gives the columns up.
    pub fn into_columns(self) -> (r: Vec<NamedColumn>)
        ensures
            columns_of(r@) == self@,
    {
        self.columns
    }
}

} // verus!
