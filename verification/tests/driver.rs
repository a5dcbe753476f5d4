use metric_storage::columnar::{Column, ColumnBatch, NamedColumn};
use metric_storage::config::{AdbcConfig, PoolConfig};
use metric_storage::driver::{
    append_batch, finish_query_metrics, finish_query_sql, step_failure, AdbcBackend,
    DatabaseOption, DriverAction, DriverPlan, DriverStep, OptionKey, CREATE_TABLE_SQL, INSERT_SQL,
    SELECT_SQL,
};
use metric_storage::error::{ErrorKind, StorageError};
use metric_storage::metric_batch::metrics_to_record_batch;
use metric_storage::record::MetricRecord;

fn config() -> AdbcConfig {
    AdbcConfig {
        driver_path: "/usr/lib/libadbc_driver_postgresql.so".to_string(),
        url: "postgresql://localhost:5432".to_string(),
        username: "metrics".to_string(),
        password: "secret".to_string(),
        database: "telemetry".to_string(),
        pool: PoolConfig { max_connections: 10, min_connections: 1, acquire_timeout_secs: 30 },
        ttl: None,
    }
}

fn config_with_ttl(ttl: u64) -> AdbcConfig {
    let mut c = config();
    c.ttl = Some(ttl);
    c
}

fn record(id: &str, timestamp: i64, sum: f64, avg: f64, count: i64) -> MetricRecord {
    MetricRecord::new(id.to_string(), timestamp, sum.to_bits(), avg.to_bits(), count)
}

fn option(key: OptionKey, value: &str) -> DatabaseOption {
    DatabaseOption { key, value: value.to_string() }
}

#[test]
fn the_database_is_opened_with_seven_options() {
    let backend = AdbcBackend::new(&config());
    assert_eq!(backend.driver_path(), "/usr/lib/libadbc_driver_postgresql.so");
    assert_eq!(
        backend.options(),
        &vec![
            option(OptionKey::Uri, "postgresql://localhost:5432"),
            option(OptionKey::Username, "metrics"),
            option(OptionKey::Password, "secret"),
            option(OptionKey::Other("database".to_string()), "telemetry"),
            option(OptionKey::Other("pool.max_connections".to_string()), "10"),
            option(OptionKey::Other("pool.min_connections".to_string()), "1"),
            option(OptionKey::Other("pool.acquire_timeout".to_string()), "30"),
        ]
    );
}

#[test]
fn pool_parameters_are_written_in_decimal() {
    let mut c = config();
    c.pool = PoolConfig {
        max_connections: u32::MAX,
        min_connections: 0,
        acquire_timeout_secs: u64::MAX,
    };
    let backend = AdbcBackend::new(&c);
    let options = backend.options();
    assert_eq!(options[4].value, "4294967295");
    assert_eq!(options[5].value, "0");
    assert_eq!(options[6].value, "18446744073709551615");
}

#[test]
fn initialisation_creates_the_table_with_its_key() {
    let backend = AdbcBackend::new(&config());
    let plan = backend.init();
    assert_eq!(
        plan,
        vec![
            DriverAction::SetSqlQuery(CREATE_TABLE_SQL.to_string()),
            DriverAction::ExecuteCreateTable
        ]
    );
    assert!(CREATE_TABLE_SQL.starts_with("CREATE TABLE IF NOT EXISTS metrics ("));
    assert!(CREATE_TABLE_SQL.contains("metric_id TEXT NOT NULL"));
    assert!(CREATE_TABLE_SQL.contains("timestamp BIGINT NOT NULL"));
    assert!(CREATE_TABLE_SQL.contains("value_running_window_count BIGINT NOT NULL"));
    assert!(CREATE_TABLE_SQL.ends_with("PRIMARY KEY (metric_id, timestamp))"));
}

#[test]
fn an_insert_binds_one_batch_of_five_columns() {
    let backend = AdbcBackend::new(&config());
    let records = vec![record("cpu", 100, 10.0, 5.0, 2), record("cpu", 200, 30.0, 10.0, 3)];
    let plan = backend.insert_metrics(1000, &records).unwrap();
    assert_eq!(
        plan,
        DriverPlan {
            eviction: Vec::new(),
            actions: vec![
                DriverAction::SetSqlQuery(INSERT_SQL.to_string()),
                DriverAction::Bind(metrics_to_record_batch(&records).unwrap()),
                DriverAction::ExecuteInsert,
            ],
        }
    );
    assert!(INSERT_SQL.ends_with("VALUES (?, ?, ?, ?, ?)"));
}

#[test]
fn two_records_with_one_key_are_both_bound() {
    let backend = AdbcBackend::new(&config());
    let records = vec![record("cpu", 100, 10.0, 5.0, 2), record("cpu", 100, 11.0, 5.5, 2)];
    let plan = backend.insert_metrics(1000, &records).unwrap();
    match &plan.actions[1] {
        DriverAction::Bind(batch) => {
            assert_eq!(batch.num_rows(), 2);
            assert_eq!(batch.columns()[1].values, Column::Int64(vec![100, 100]));
        },
        other => panic!("unexpected action {:?}", other),
    }
}

#[test]
fn a_query_binds_its_timestamp() {
    let backend = AdbcBackend::new(&config());
    let plan = backend.query_metrics(1000, 150).unwrap();
    let parameter = ColumnBatch::from_columns(vec![NamedColumn {
        name: "timestamp".to_string(),
        values: Column::Int64(vec![150]),
    }])
    .unwrap();
    assert_eq!(
        plan,
        DriverPlan {
            eviction: Vec::new(),
            actions: vec![
                DriverAction::SetSqlQuery(SELECT_SQL.to_string()),
                DriverAction::Bind(parameter),
                DriverAction::ExecuteQuery,
            ],
        }
    );
    assert!(SELECT_SQL.ends_with("FROM metrics WHERE timestamp >= ?"));
}

#[test]
fn prepare_sql_issues_distinct_handles() {
    let mut backend = AdbcBackend::new(&config());
    let mut handles: Vec<Vec<u8>> = Vec::new();
    for i in 0..50u64 {
        let handle = backend.prepare_sql("SELECT * FROM metrics").unwrap();
        assert_eq!(handle, i.to_le_bytes().to_vec());
        assert!(!handles.contains(&handle));
        handles.push(handle);
    }
}

#[test]
fn query_sql_executes_the_registered_text() {
    let mut backend = AdbcBackend::new(&config());
    let all = backend.prepare_sql("SELECT * FROM metrics").unwrap();
    let some = backend.prepare_sql("SELECT * FROM metrics WHERE timestamp >= 150").unwrap();
    assert_eq!(
        backend.query_sql(&some),
        Ok(vec![
            DriverAction::SetSqlQuery("SELECT * FROM metrics WHERE timestamp >= 150".to_string()),
            DriverAction::ExecuteQuery,
        ])
    );
    assert_eq!(
        backend.query_sql(&all),
        Ok(vec![
            DriverAction::SetSqlQuery("SELECT * FROM metrics".to_string()),
            DriverAction::ExecuteQuery,
        ])
    );
}

#[test]
fn query_sql_refuses_a_handle_that_was_not_issued() {
    let mut backend = AdbcBackend::new(&config());
    assert_eq!(
        backend.query_sql(&0u64.to_le_bytes()),
        Err(StorageError::InvalidArgument("Statement handle not found".to_string()))
    );
    backend.prepare_sql("SELECT 1").unwrap();
    assert_eq!(
        backend.query_sql(&1u64.to_le_bytes()),
        Err(StorageError::InvalidArgument("Statement handle not found".to_string()))
    );
    assert_eq!(
        backend.query_sql(&7777u64.to_le_bytes()),
        Err(StorageError::InvalidArgument("Statement handle not found".to_string()))
    );
}

#[test]
fn query_sql_refuses_a_handle_of_the_wrong_length() {
    let mut backend = AdbcBackend::new(&config());
    backend.prepare_sql("SELECT 1").unwrap();
    assert_eq!(
        backend.query_sql(b"SELECT 1"[..7].as_ref()),
        Err(StorageError::InvalidArgument("Invalid statement handle".to_string()))
    );
    assert_eq!(
        backend.query_sql(&[]),
        Err(StorageError::InvalidArgument("Invalid statement handle".to_string()))
    );
    assert_eq!(
        backend.query_sql(&[0u8; 9]),
        Err(StorageError::InvalidArgument("Invalid statement handle".to_string()))
    );
}

#[test]
fn batches_of_an_answer_are_read_in_order() {
    let first = vec![record("cpu", 100, 10.0, 5.0, 2)];
    let second = vec![record("cpu", 200, 30.0, 10.0, 3), record("mem", 300, 1.0, 1.0, 1)];
    let mut metrics: Vec<MetricRecord> = Vec::new();
    assert_eq!(append_batch(&mut metrics, &metrics_to_record_batch(&first).unwrap()), Ok(()));
    assert_eq!(append_batch(&mut metrics, &metrics_to_record_batch(&second).unwrap()), Ok(()));
    assert_eq!(
        metrics,
        vec![
            record("cpu", 100, 10.0, 5.0, 2),
            record("cpu", 200, 30.0, 10.0, 3),
            record("mem", 300, 1.0, 1.0, 1)
        ]
    );
    let unreadable = ColumnBatch::from_columns(vec![NamedColumn {
        name: "metric_id".to_string(),
        values: Column::Int64(vec![1]),
    }])
    .unwrap();
    assert_eq!(
        append_batch(&mut metrics, &unreadable),
        Err(StorageError::Internal("Invalid metric_id column".to_string()))
    );
    assert_eq!(metrics.len(), 3);
}

#[test]
fn an_answer_holding_only_the_later_record_gives_only_that_record() {
    let answer = vec![record("cpu", 200, 30.0, 10.0, 3)];
    let mut metrics: Vec<MetricRecord> = Vec::new();
    append_batch(&mut metrics, &metrics_to_record_batch(&answer).unwrap()).unwrap();
    assert_eq!(finish_query_metrics(metrics), Ok(vec![record("cpu", 200, 30.0, 10.0, 3)]));
}

#[test]
fn a_query_without_rows_finds_nothing() {
    let e = finish_query_metrics(Vec::new()).unwrap_err();
    assert_eq!(e.kind(), ErrorKind::NotFound);
    assert_eq!(e.message(), "No metrics found for the given timestamp");
    let rows = vec![record("cpu", 200, 30.0, 10.0, 3)];
    assert_eq!(finish_query_metrics(rows.clone()), Ok(rows));
}

#[test]
fn a_registered_statement_without_rows_answers_with_none() {
    assert_eq!(finish_query_sql(Vec::new()), Ok(Vec::new()));
    let rows = vec![record("cpu", 200, 30.0, 10.0, 3)];
    assert_eq!(finish_query_sql(rows.clone()), Ok(rows));
}

#[test]
fn a_failed_step_keeps_what_the_driver_said() {
    let cases = [
        (DriverStep::LoadDriver, "Failed to load ADBC driver: boom"),
        (DriverStep::CreateDatabase, "Failed to create database: boom"),
        (DriverStep::CreateConnection, "Failed to create connection: boom"),
        (DriverStep::CreateStatement, "Failed to create statement: boom"),
        (DriverStep::SetQuery, "Failed to set query: boom"),
        (DriverStep::BindValues, "Failed to bind values: boom"),
        (DriverStep::ExecuteCreateTable, "Failed to execute create table: boom"),
        (DriverStep::ExecuteInsert, "Failed to execute insert: boom"),
        (DriverStep::ExecuteQuery, "Failed to execute query: boom"),
        (DriverStep::ExecuteEviction, "Failed to execute eviction: boom"),
        (DriverStep::ReadBatch, "Failed to get record batch: boom"),
    ];
    for (step, message) in cases {
        assert_eq!(step_failure(step, "boom"), StorageError::Internal(message.to_string()));
    }
}

#[test]
fn an_action_fails_at_its_own_step() {
    let backend = AdbcBackend::new(&config());
    let steps: Vec<DriverStep> = backend.init().iter().map(|a| a.step()).collect();
    assert_eq!(steps, vec![DriverStep::SetQuery, DriverStep::ExecuteCreateTable]);
    let plan = backend.insert_metrics(0, &Vec::new()).unwrap();
    let steps: Vec<DriverStep> = plan.actions.iter().map(|a| a.step()).collect();
    assert_eq!(
        steps,
        vec![DriverStep::SetQuery, DriverStep::BindValues, DriverStep::ExecuteInsert]
    );
    let plan = backend.query_metrics(0, 0).unwrap();
    let steps: Vec<DriverStep> = plan.actions.iter().map(|a| a.step()).collect();
    assert_eq!(
        steps,
        vec![DriverStep::SetQuery, DriverStep::BindValues, DriverStep::ExecuteQuery]
    );
    let evicting = AdbcBackend::new(&config_with_ttl(60));
    let steps: Vec<DriverStep> = evicting.eviction(1000).iter().map(|a| a.step()).collect();
    assert_eq!(steps, vec![DriverStep::SetQuery, DriverStep::ExecuteEviction]);
}

#[test]
fn without_a_time_to_live_no_operation_evicts() {
    for c in [config(), config_with_ttl(0)] {
        let backend = AdbcBackend::new(&c);
        assert_eq!(backend.cache_manager().time_to_live(), c.ttl);
        assert_eq!(backend.eviction(1000), Vec::new());
        assert_eq!(backend.insert_metrics(1000, &Vec::new()).unwrap().eviction, Vec::new());
        assert_eq!(backend.query_metrics(1000, 150).unwrap().eviction, Vec::new());
    }
}

#[test]
fn insert_and_query_run_the_eviction_that_is_due() {
    let backend = AdbcBackend::new(&config_with_ttl(100));
    let eviction = vec![
        DriverAction::SetSqlQuery("DELETE FROM metrics WHERE timestamp < 900".to_string()),
        DriverAction::ExecuteEviction,
    ];
    assert_eq!(backend.eviction(1000), eviction);
    assert_eq!(backend.insert_metrics(1000, &Vec::new()).unwrap().eviction, eviction);
    assert_eq!(backend.query_metrics(1000, 150).unwrap().eviction, eviction);
    assert_eq!(
        backend.query_metrics(50, 150).unwrap().eviction,
        vec![
            DriverAction::SetSqlQuery("DELETE FROM metrics WHERE timestamp < -50".to_string()),
            DriverAction::ExecuteEviction,
        ]
    );
}

#[test]
fn failures_are_made_of_a_kind_and_a_message() {
    assert_eq!(StorageError::internal("a"), StorageError::Internal("a".to_string()));
    assert_eq!(
        StorageError::invalid_argument("b"),
        StorageError::InvalidArgument("b".to_string())
    );
    assert_eq!(StorageError::not_found("c"), StorageError::NotFound("c".to_string()));
    assert_eq!(StorageError::internal("a").kind(), ErrorKind::Internal);
    assert_eq!(StorageError::invalid_argument("b").kind(), ErrorKind::InvalidArgument);
    assert_eq!(StorageError::not_found("c").kind(), ErrorKind::NotFound);
    assert_eq!(StorageError::not_found("c").message(), "c");
}
