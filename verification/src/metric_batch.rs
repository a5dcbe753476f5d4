//! The layout of metric records in a columnar batch: five columns, read and
//! written by position.

use vstd::prelude::*;
use vstd::string::*;
use crate::columnar::{
    columns_of, rectangular, texts_of, Column, ColumnBatch, ColumnData, ColumnKind, ColumnView,
    NamedColumn,
};
use crate::error::{ErrorKind, StorageError};
use crate::record::{rows_of, MetricRecord, MetricRow};

verus! {

/// The name of the column at position `k` of a metric batch.
pub open spec fn metric_column_name(k: int) -> Seq<char> {
    if k == 0 {
        "metric_id"@
    } else if k == 1 {
        "timestamp"@
    } else if k == 2 {
        "value_running_window_sum"@
    } else if k == 3 {
        "value_running_window_avg"@
    } else {
        "value_running_window_count"@
    }
}

/// The type of the column at position `k` of a metric batch.
pub open spec fn metric_column_kind(k: int) -> ColumnKind {
    if k == 0 {
        ColumnKind::Utf8
    } else if k == 1 || k == 4 {
        ColumnKind::Int64
    } else {
        ColumnKind::Float64
    }
}

/// The five columns that hold `rows`.
pub open spec fn metric_columns(rows: Seq<MetricRow>) -> Seq<ColumnView> {
    seq![
        ColumnView {
            name: metric_column_name(0),
            data: ColumnData::Utf8(Seq::new(rows.len(), |i: int| rows[i].metric_id)),
        },
        ColumnView {
            name: metric_column_name(1),
            data: ColumnData::Int64(Seq::new(rows.len(), |i: int| rows[i].timestamp)),
        },
        ColumnView {
            name: metric_column_name(2),
            data: ColumnData::Float64(Seq::new(rows.len(), |i: int| rows[i].sum_bits)),
        },
        ColumnView {
            name: metric_column_name(3),
            data: ColumnData::Float64(Seq::new(rows.len(), |i: int| rows[i].avg_bits)),
        },
        ColumnView {
            name: metric_column_name(4),
            data: ColumnData::Int64(Seq::new(rows.len(), |i: int| rows[i].count)),
        },
    ]
}

/// True when `columns` has a column at position `k` and it is of the type
/// that a metric batch has there.
pub open spec fn column_fits(columns: Seq<ColumnView>, k: int) -> bool {
    k < columns.len() && columns[k].data.kind() == metric_column_kind(k)
}

/// The first of the five positions at which `columns` has no column of the
/// right type, if there is one.
pub open spec fn first_misfit(columns: Seq<ColumnView>) -> Option<int> {
    if !column_fits(columns, 0) {
        Some(0)
    } else if !column_fits(columns, 1) {
        Some(1)
    } else if !column_fits(columns, 2) {
        Some(2)
    } else if !column_fits(columns, 3) {
        Some(3)
    } else if !column_fits(columns, 4) {
        Some(4)
    } else {
        None
    }
}

/// The rows that the first five columns hold, read by position.
pub open spec fn decoded_rows(columns: Seq<ColumnView>) -> Seq<MetricRow> {
    Seq::new(
        columns[0].data.len(),
        |i: int|
            MetricRow {
                metric_id: columns[0].data.texts()[i],
                timestamp: columns[1].data.integers()[i],
                sum_bits: columns[2].data.bit_patterns()[i],
                avg_bits: columns[3].data.bit_patterns()[i],
                count: columns[4].data.integers()[i],
            },
    )
}

/// What a failure says of the column at position `k`.
pub open spec fn misfit_text(k: int) -> Seq<char> {
    "Invalid "@ + metric_column_name(k) + " column"@
}

fn column_name(k: usize) -> (r: &'static str)
    requires
        k < 5,
    ensures
        r@ == metric_column_name(k as int),
{
    if k == 0 {
        "metric_id"
    } else if k == 1 {
        "timestamp"
    } else if k == 2 {
        "value_running_window_sum"
    } else if k == 3 {
        "value_running_window_avg"
    } else {
        "value_running_window_count"
    }
}

fn misfit(k: usize) -> (e: StorageError)
    requires
        k < 5,
    ensures
        e.says(ErrorKind::Internal, misfit_text(k as int)),
{
    let mut message = String::from_str("Invalid ");
    message.append(column_name(k));
    message.append(" column");
    StorageError::Internal(message)
}

fn named(k: usize, values: Column) -> (r: NamedColumn)
    requires
        k < 5,
    ensures
        r@ == (ColumnView { name: metric_column_name(k as int), data: values@ }),
{
    NamedColumn { name: String::from_str(column_name(k)), values }
}

/// Lays `metrics` out in five columns, one value of each record in each.
/// This cannot fail: the columns are equally long by construction.
pub fn metrics_to_record_batch(metrics: &Vec<MetricRecord>) -> (r: Result<
    ColumnBatch,
    StorageError,
>)
    ensures
        r is Ok,
        r.unwrap().wf(),
        r.unwrap()@ == metric_columns(rows_of(metrics@)),
{
    let mut ids: Vec<String> = Vec::new();
    let mut timestamps: Vec<i64> = Vec::new();
    let mut sums: Vec<u64> = Vec::new();
    let mut avgs: Vec<u64> = Vec::new();
    let mut counts: Vec<i64> = Vec::new();
    let mut i: usize = 0;
    while i < metrics.len()
        invariant
            i <= metrics@.len(),
            ids@.len() == i,
            timestamps@.len() == i,
            sums@.len() == i,
            avgs@.len() == i,
            counts@.len() == i,
            forall|j: int| 0 <= j < i ==> (#[trigger] ids@[j])@ == metrics@[j]@.metric_id,
            forall|j: int| 0 <= j < i ==> #[trigger] timestamps@[j] == metrics@[j]@.timestamp,
            forall|j: int| 0 <= j < i ==> #[trigger] sums@[j] == metrics@[j]@.sum_bits,
            forall|j: int| 0 <= j < i ==> #[trigger] avgs@[j] == metrics@[j]@.avg_bits,
            forall|j: int| 0 <= j < i ==> #[trigger] counts@[j] == metrics@[j]@.count,
        decreases metrics@.len() - i,
    {
        let metric = &metrics[i];
        ids.push(metric.metric_id.clone());
        timestamps.push(metric.timestamp);
        sums.push(metric.value_running_window_sum);
        avgs.push(metric.value_running_window_avg);
        counts.push(metric.value_running_window_count);
        i = i + 1;
    }
    let ghost rows = rows_of(metrics@);
    let mut columns: Vec<NamedColumn> = Vec::new();
    columns.push(named(0, Column::Utf8(ids)));
    columns.push(named(1, Column::Int64(timestamps)));
    columns.push(named(2, Column::Float64(sums)));
    columns.push(named(3, Column::Float64(avgs)));
    columns.push(named(4, Column::Int64(counts)));
    proof {
        let made = columns_of(columns@);
        let want = metric_columns(rows);
        assert(made[0].data.texts() =~= want[0].data.texts());
        assert(made[1].data.integers() =~= want[1].data.integers());
        assert(made[2].data.bit_patterns() =~= want[2].data.bit_patterns());
        assert(made[3].data.bit_patterns() =~= want[3].data.bit_patterns());
        assert(made[4].data.integers() =~= want[4].data.integers());
        assert(made =~= want);
        assert(rectangular(made));
    }
    ColumnBatch::from_columns(columns)
}

/// The one-column batch that carries the lower bound of a query: a column
/// of integers named `timestamp`, with `from_timestamp` as its only value.
pub open spec fn timestamp_parameter_columns(from_timestamp: i64) -> Seq<ColumnView> {
    seq![
        ColumnView { name: "timestamp"@, data: ColumnData::Int64(seq![from_timestamp]) },
    ]
}

/// Makes the batch that binds `from_timestamp` to the parameter of a query.
/// This cannot fail: there is one column.
pub fn timestamp_parameter(from_timestamp: i64) -> (r: Result<ColumnBatch, StorageError>)
    ensures
        r is Ok,
        r.unwrap().wf(),
        r.unwrap()@ == timestamp_parameter_columns(from_timestamp),
{
    let mut values: Vec<i64> = Vec::new();
    values.push(from_timestamp);
    let mut columns: Vec<NamedColumn> = Vec::new();
    columns.push(NamedColumn { name: String::from_str("timestamp"), values: Column::Int64(values) });
    proof {
        let made = columns_of(columns@);
        assert(made[0].data.integers() =~= seq![from_timestamp]);
        assert(made =~= timestamp_parameter_columns(from_timestamp));
        assert(rectangular(made));
    }
    ColumnBatch::from_columns(columns)
}

fn texts_at(columns: &Vec<NamedColumn>, k: usize) -> (r: Option<&Vec<String>>)
    ensures
        r is Some <==> k < columns@.len() && columns@[k as int]@.data.kind() == ColumnKind::Utf8,
        r is Some ==> texts_of(r.unwrap()@) == columns@[k as int]@.data.texts(),
{
    if k >= columns.len() {
        return None;
    }
    match &columns[k].values {
        Column::Utf8(v) => Some(v),
        _ => None,
    }
}

fn integers_at(columns: &Vec<NamedColumn>, k: usize) -> (r: Option<&Vec<i64>>)
    ensures
        r is Some <==> k < columns@.len() && columns@[k as int]@.data.kind()
            == ColumnKind::Int64,
        r is Some ==> r.unwrap()@ == columns@[k as int]@.data.integers(),
{
    if k >= columns.len() {
        return None;
    }
    match &columns[k].values {
        Column::Int64(v) => Some(v),
        _ => None,
    }
}

fn bit_patterns_at(columns: &Vec<NamedColumn>, k: usize) -> (r: Option<&Vec<u64>>)
    ensures
        r is Some <==> k < columns@.len() && columns@[k as int]@.data.kind()
            == ColumnKind::Float64,
        r is Some ==> r.unwrap()@ == columns@[k as int]@.data.bit_patterns(),
{
    if k >= columns.len() {
        return None;
    }
    match &columns[k].values {
        Column::Float64(v) => Some(v),
        _ => None,
    }
}

/// Reads the rows of `batch` by column position: text, integer, two columns
/// of IEEE 754 numbers, integer. Columns after the fifth are ignored.
///
/// It fails, with an internal failure that names the column, at the first
/// position where the batch has no column or one of another type.
pub fn record_batch_to_metrics(batch: &ColumnBatch) -> (r: Result<Vec<MetricRecord>, StorageError>)
    requires
        batch.wf(),
    ensures
        match r {
            Ok(metrics) => first_misfit(batch@) is None && rows_of(metrics@) == decoded_rows(
                batch@,
            ),
            Err(e) => first_misfit(batch@) is Some && e.says(
                ErrorKind::Internal,
                misfit_text(first_misfit(batch@).unwrap()),
            ),
        },
{
    let columns = batch.columns();
    assert(forall|k: int| 0 <= k < columns@.len() ==> columns@[k]@ == columns_of(columns@)[k]);
    let ids = match texts_at(columns, 0) {
        Some(v) => v,
        None => {
            return Err(misfit(0));
        },
    };
    let timestamps = match integers_at(columns, 1) {
        Some(v) => v,
        None => {
            return Err(misfit(1));
        },
    };
    let sums = match bit_patterns_at(columns, 2) {
        Some(v) => v,
        None => {
            return Err(misfit(2));
        },
    };
    let avgs = match bit_patterns_at(columns, 3) {
        Some(v) => v,
        None => {
            return Err(misfit(3));
        },
    };
    let counts = match integers_at(columns, 4) {
        Some(v) => v,
        None => {
            return Err(misfit(4));
        },
    };
    let rows = batch.num_rows();
    proof {
        let c = batch@;
        assert(c[0].data.len() == rows);
        assert(c[1].data.len() == rows);
        assert(c[2].data.len() == rows);
        assert(c[3].data.len() == rows);
        assert(c[4].data.len() == rows);
    }
    let mut metrics: Vec<MetricRecord> = Vec::new();
    let mut i: usize = 0;
    while i < rows
        invariant
            i <= rows,
            ids@.len() == rows,
            timestamps@.len() == rows,
            sums@.len() == rows,
            avgs@.len() == rows,
            counts@.len() == rows,
            rows == batch@[0].data.len(),
            texts_of(ids@) == batch@[0].data.texts(),
            timestamps@ == batch@[1].data.integers(),
            sums@ == batch@[2].data.bit_patterns(),
            avgs@ == batch@[3].data.bit_patterns(),
            counts@ == batch@[4].data.integers(),
            metrics@.len() == i,
            forall|j: int| 0 <= j < i ==> (#[trigger] metrics@[j])@ == decoded_rows(batch@)[j],
        decreases rows - i,
    {
        assert(texts_of(ids@)[i as int] == ids@[i as int]@);
        metrics.push(
            MetricRecord::new(ids[i].clone(), timestamps[i], sums[i], avgs[i], counts[i]),
        );
        i = i + 1;
    }
    assert(rows_of(metrics@) =~= decoded_rows(batch@));
    Ok(metrics)
}

/// Writing rows into columns and reading them back gives the same rows.
pub proof fn lemma_columns_round_trip(rows: Seq<MetricRow>)
    ensures
        rectangular(metric_columns(rows)),
        first_misfit(metric_columns(rows)) is None,
        decoded_rows(metric_columns(rows)) == rows,
{
    assert(decoded_rows(metric_columns(rows)) =~= rows);
}

} // verus!
