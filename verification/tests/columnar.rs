use metric_storage::columnar::{Column, ColumnBatch, ColumnKind, NamedColumn};
use metric_storage::error::{ErrorKind, StorageError};
use metric_storage::metric_batch::{
    metrics_to_record_batch, record_batch_to_metrics, timestamp_parameter,
};
use metric_storage::record::MetricRecord;

fn record(id: &str, timestamp: i64, sum: f64, avg: f64, count: i64) -> MetricRecord {
    MetricRecord::new(id.to_string(), timestamp, sum.to_bits(), avg.to_bits(), count)
}

fn column(name: &str, values: Column) -> NamedColumn {
    NamedColumn { name: name.to_string(), values }
}

fn two_records() -> Vec<MetricRecord> {
    vec![record("cpu", 100, 10.0, 5.0, 2), record("cpu", 200, 30.0, 10.0, 3)]
}

#[test]
fn a_record_keeps_what_it_was_made_of() {
    let r = record("cpu", 100, 10.0, 5.0, 2);
    assert_eq!(r.metric_id, "cpu");
    assert_eq!(r.timestamp, 100);
    assert_eq!(f64::from_bits(r.value_running_window_sum), 10.0);
    assert_eq!(f64::from_bits(r.value_running_window_avg), 5.0);
    assert_eq!(r.value_running_window_count, 2);
    assert!(r.is_valid());
    assert!(!record("cpu", 100, 0.0, 0.0, -1).is_valid());
    assert_eq!(r.duplicate(), r);
}

#[test]
fn records_are_laid_out_in_five_columns() {
    let batch = metrics_to_record_batch(&two_records()).unwrap();
    assert_eq!(batch.num_columns(), 5);
    assert_eq!(batch.num_rows(), 2);
    let columns = batch.into_columns();
    assert_eq!(
        columns,
        vec![
            column("metric_id", Column::Utf8(vec!["cpu".to_string(), "cpu".to_string()])),
            column("timestamp", Column::Int64(vec![100, 200])),
            column(
                "value_running_window_sum",
                Column::Float64(vec![10.0f64.to_bits(), 30.0f64.to_bits()])
            ),
            column(
                "value_running_window_avg",
                Column::Float64(vec![5.0f64.to_bits(), 10.0f64.to_bits()])
            ),
            column("value_running_window_count", Column::Int64(vec![2, 3])),
        ]
    );
    let kinds: Vec<ColumnKind> = columns.iter().map(|c| c.values.kind()).collect();
    assert_eq!(
        kinds,
        vec![
            ColumnKind::Utf8,
            ColumnKind::Int64,
            ColumnKind::Float64,
            ColumnKind::Float64,
            ColumnKind::Int64
        ]
    );
}

#[test]
fn no_records_make_five_empty_columns() {
    let batch = metrics_to_record_batch(&Vec::new()).unwrap();
    assert_eq!(batch.num_columns(), 5);
    assert_eq!(batch.num_rows(), 0);
    assert_eq!(record_batch_to_metrics(&batch), Ok(Vec::new()));
}

#[test]
fn columns_read_back_give_the_records() {
    let records = vec![
        record("cpu", 100, 10.0, 5.0, 2),
        record("mem", -7, -0.0, f64::INFINITY, 0),
        record("", i64::MAX, f64::MIN_POSITIVE, 1e300, i64::MAX),
        record("cpu", 100, 10.0, 5.0, 2),
        record("it's", i64::MIN, 0.1, 0.2, 1),
    ];
    let batch = metrics_to_record_batch(&records).unwrap();
    assert_eq!(record_batch_to_metrics(&batch), Ok(records));
}

#[test]
fn a_column_that_is_not_a_number_keeps_its_bits() {
    let nan = f64::NAN.to_bits() | 1;
    let records = vec![MetricRecord::new("cpu".to_string(), 1, nan, nan, 1)];
    let batch = metrics_to_record_batch(&records).unwrap();
    let back = record_batch_to_metrics(&batch).unwrap();
    assert_eq!(back[0].value_running_window_sum, nan);
    assert_eq!(back[0].value_running_window_avg, nan);
}

#[test]
fn columns_after_the_fifth_are_ignored() {
    let mut columns = metrics_to_record_batch(&two_records()).unwrap().into_columns();
    columns.push(column("extra", Column::Other(2)));
    let batch = ColumnBatch::from_columns(columns).unwrap();
    assert_eq!(record_batch_to_metrics(&batch), Ok(two_records()));
}

#[test]
fn columns_are_read_by_position_not_by_name() {
    let columns = vec![
        column("a", Column::Utf8(vec!["cpu".to_string()])),
        column("b", Column::Int64(vec![200])),
        column("c", Column::Float64(vec![30.0f64.to_bits()])),
        column("d", Column::Float64(vec![10.0f64.to_bits()])),
        column("e", Column::Int64(vec![3])),
    ];
    let batch = ColumnBatch::from_columns(columns).unwrap();
    assert_eq!(record_batch_to_metrics(&batch), Ok(vec![record("cpu", 200, 30.0, 10.0, 3)]));
}

#[test]
fn a_column_of_the_wrong_type_is_an_internal_failure() {
    let names = [
        "metric_id",
        "timestamp",
        "value_running_window_sum",
        "value_running_window_avg",
        "value_running_window_count",
    ];
    for k in 0..5 {
        let mut columns = metrics_to_record_batch(&two_records()).unwrap().into_columns();
        columns[k].values = Column::Other(2);
        let batch = ColumnBatch::from_columns(columns).unwrap();
        assert_eq!(
            record_batch_to_metrics(&batch),
            Err(StorageError::Internal(format!("Invalid {} column", names[k])))
        );
    }
    let mut columns = metrics_to_record_batch(&two_records()).unwrap().into_columns();
    columns.swap(1, 2);
    let batch = ColumnBatch::from_columns(columns).unwrap();
    assert_eq!(
        record_batch_to_metrics(&batch),
        Err(StorageError::Internal("Invalid timestamp column".to_string()))
    );
}

#[test]
fn a_missing_column_is_an_internal_failure() {
    let mut columns = metrics_to_record_batch(&two_records()).unwrap().into_columns();
    columns.truncate(3);
    let batch = ColumnBatch::from_columns(columns).unwrap();
    let e = record_batch_to_metrics(&batch).unwrap_err();
    assert_eq!(e.kind(), ErrorKind::Internal);
    assert_eq!(e.message(), "Invalid value_running_window_avg column");
}

#[test]
fn a_batch_needs_equally_long_columns() {
    let columns = vec![
        column("a", Column::Int64(vec![1, 2])),
        column("b", Column::Int64(vec![1])),
    ];
    assert_eq!(
        ColumnBatch::from_columns(columns),
        Err(StorageError::Internal(
            "all columns of a batch must have the same length".to_string()
        ))
    );
    assert_eq!(
        ColumnBatch::from_columns(Vec::new()),
        Err(StorageError::Internal("a batch needs at least one column".to_string()))
    );
    let columns = vec![
        column("a", Column::Int64(vec![1, 2])),
        column("b", Column::Other(2)),
        column("c", Column::Utf8(vec!["x".to_string(), "y".to_string()])),
    ];
    let batch = ColumnBatch::from_columns(columns.clone()).unwrap();
    assert_eq!(batch.num_rows(), 2);
    assert_eq!(batch.columns(), &columns);
}

#[test]
fn the_parameter_of_a_query_is_one_timestamp() {
    let batch = timestamp_parameter(150).unwrap();
    assert_eq!(batch.num_rows(), 1);
    assert_eq!(batch.into_columns(), vec![column("timestamp", Column::Int64(vec![150]))]);
    let batch = timestamp_parameter(i64::MIN).unwrap();
    assert_eq!(batch.into_columns(), vec![column("timestamp", Column::Int64(vec![i64::MIN]))]);
}
