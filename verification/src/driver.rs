//! The driver-managed backend: a networked engine reached through a
//! connectivity driver.
//!
//! The backend decides what is sent over the connection and what becomes of
//! the answers. The caller owns the connection, reads the clock, performs
//! each action in turn, and reports a failure of a step with the text that
//! the driver gave.

use vstd::prelude::*;
use vstd::string::*;
use crate::cache::{eviction_due, CacheManager};
use crate::columnar::{ColumnBatch, ColumnView};
use crate::config::AdbcConfig;
use crate::error::{ErrorKind, StorageError};
use crate::metric_batch::{
    decoded_rows, first_misfit, metric_columns, metrics_to_record_batch, misfit_text,
    record_batch_to_metrics, timestamp_parameter, timestamp_parameter_columns,
};
use crate::record::{rows_of, MetricRecord};
use crate::statement::{issued_handles, lookup, StatementCache};
use crate::handle::handle_bytes;
use crate::text::{nat_text, u64_to_text};

verus! {

/// The statement that creates the table of metrics, with its primary key.
pub const CREATE_TABLE_SQL: &'static str =
    "CREATE TABLE IF NOT EXISTS metrics (metric_id TEXT NOT NULL, timestamp BIGINT NOT NULL, value_running_window_sum DOUBLE PRECISION NOT NULL, value_running_window_avg DOUBLE PRECISION NOT NULL, value_running_window_count BIGINT NOT NULL, PRIMARY KEY (metric_id, timestamp))";

/// The statement that inserts the rows of a bound batch.
pub const INSERT_SQL: &'static str =
    "INSERT INTO metrics (metric_id, timestamp, value_running_window_sum, value_running_window_avg, value_running_window_count) VALUES (?, ?, ?, ?, ?)";

/// The statement that selects the rows from a bound timestamp on.
pub const SELECT_SQL: &'static str =
    "SELECT metric_id, timestamp, value_running_window_sum, value_running_window_avg, value_running_window_count FROM metrics WHERE timestamp >= ?";

/// The key of a database option.
#[derive(Clone, Debug, PartialEq, Eq)]
pub enum OptionKey {
    Uri,
    Username,
    Password,
    /// An option that the engine defines, under its name.
    Other(String),
}

/// The key of a database option, as plain values.
pub ghost enum OptionKeyView {
    Uri,
    Username,
    Password,
    Other(Seq<char>),
}

impl View for OptionKey {
    type V = OptionKeyView;

    open spec fn view(&self) -> OptionKeyView {
        match self {
            OptionKey::Uri => OptionKeyView::Uri,
            OptionKey::Username => OptionKeyView::Username,
            OptionKey::Password => OptionKeyView::Password,
            OptionKey::Other(name) => OptionKeyView::Other(name@),
        }
    }
}

/// An option that a database is opened with.
#[derive(Clone, Debug, PartialEq, Eq)]
pub struct DatabaseOption {
    pub key: OptionKey,
    pub value: String,
}

impl View for DatabaseOption {
    type V = (OptionKeyView, Seq<char>);

    open spec fn view(&self) -> (OptionKeyView, Seq<char>) {
        (self.key@, self.value@)
    }
}

/// The options that a vector holds, in order.
pub open spec fn options_of(options: Seq<DatabaseOption>) -> Seq<(OptionKeyView, Seq<char>)> {
    Seq::new(options.len(), |i: int| options[i]@)
}

/// The options that a database is opened with under `config`: where it is,
/// who asks, which database, and the pooling parameters in decimal.
pub open spec fn database_options(config: AdbcConfig) -> Seq<(OptionKeyView, Seq<char>)> {
    seq![
        (OptionKeyView::Uri, config.url@),
        (OptionKeyView::Username, config.username@),
        (OptionKeyView::Password, config.password@),
        (OptionKeyView::Other("database"@), config.database@),
        (
            OptionKeyView::Other("pool.max_connections"@),
            nat_text(config.pool.max_connections as nat),
        ),
        (
            OptionKeyView::Other("pool.min_connections"@),
            nat_text(config.pool.min_connections as nat),
        ),
        (
            OptionKeyView::Other("pool.acquire_timeout"@),
            nat_text(config.pool.acquire_timeout_secs as nat),
        ),
    ]
}

/// A point at which the engine or its driver can fail.
#[derive(Clone, Copy, Debug, PartialEq, Eq, Structural)]
pub enum DriverStep {
    LoadDriver,
    CreateDatabase,
    CreateConnection,
    CreateStatement,
    SetQuery,
    BindValues,
    ExecuteCreateTable,
    ExecuteInsert,
    ExecuteQuery,
    ExecuteEviction,
    ReadBatch,
}

/// What a failure says of the step at which it happened.
pub open spec fn step_text(step: DriverStep) -> Seq<char> {
    match step {
        DriverStep::LoadDriver => "Failed to load ADBC driver: "@,
        DriverStep::CreateDatabase => "Failed to create database: "@,
        DriverStep::CreateConnection => "Failed to create connection: "@,
        DriverStep::CreateStatement => "Failed to create statement: "@,
        DriverStep::SetQuery => "Failed to set query: "@,
        DriverStep::BindValues => "Failed to bind values: "@,
        DriverStep::ExecuteCreateTable => "Failed to execute create table: "@,
        DriverStep::ExecuteInsert => "Failed to execute insert: "@,
        DriverStep::ExecuteQuery => "Failed to execute query: "@,
        DriverStep::ExecuteEviction => "Failed to execute eviction: "@,
        DriverStep::ReadBatch => "Failed to get record batch: "@,
    }
}

/// One thing to do on a fresh statement of the connection.
#[derive(Clone, Debug, PartialEq, Eq)]
pub enum DriverAction {
    /// Set the text of the statement.
    SetSqlQuery(String),
    /// Bind the batch to the parameters of the statement.
    Bind(ColumnBatch),
    /// Execute the statement that creates the table.
    ExecuteCreateTable,
    /// Execute the statement that inserts the bound rows.
    ExecuteInsert,
    /// Execute the query and read its batches.
    ExecuteQuery,
    /// Execute the statement that evicts old rows.
    ExecuteEviction,
}

/// An action, as plain values.
pub ghost enum ActionView {
    SetSqlQuery(Seq<char>),
    Bind(Seq<ColumnView>),
    ExecuteCreateTable,
    ExecuteInsert,
    ExecuteQuery,
    ExecuteEviction,
}

impl View for DriverAction {
    type V = ActionView;

    open spec fn view(&self) -> ActionView {
        match self {
            DriverAction::SetSqlQuery(sql) => ActionView::SetSqlQuery(sql@),
            DriverAction::Bind(batch) => ActionView::Bind(batch@),
            DriverAction::ExecuteCreateTable => ActionView::ExecuteCreateTable,
            DriverAction::ExecuteInsert => ActionView::ExecuteInsert,
            DriverAction::ExecuteQuery => ActionView::ExecuteQuery,
            DriverAction::ExecuteEviction => ActionView::ExecuteEviction,
        }
    }
}

impl ActionView {
    /// The step at which this action fails, if it does.
    pub open spec fn step(self) -> DriverStep {
        match self {
            ActionView::SetSqlQuery(_) => DriverStep::SetQuery,
            ActionView::Bind(_) => DriverStep::BindValues,
            ActionView::ExecuteCreateTable => DriverStep::ExecuteCreateTable,
            ActionView::ExecuteInsert => DriverStep::ExecuteInsert,
            ActionView::ExecuteQuery => DriverStep::ExecuteQuery,
            ActionView::ExecuteEviction => DriverStep::ExecuteEviction,
        }
    }
}

impl DriverAction {
    /// The step at which this action fails, if it does.
    pub fn step(&self) -> (s: DriverStep)
        ensures
            s == self@.step(),
    {
        match self {
            DriverAction::SetSqlQuery(_) => DriverStep::SetQuery,
            DriverAction::Bind(_) => DriverStep::BindValues,
            DriverAction::ExecuteCreateTable => DriverStep::ExecuteCreateTable,
            DriverAction::ExecuteInsert => DriverStep::ExecuteInsert,
            DriverAction::ExecuteQuery => DriverStep::ExecuteQuery,
            DriverAction::ExecuteEviction => DriverStep::ExecuteEviction,
        }
    }

    /// True when every batch of the plan is well formed.
    pub open spec fn all_wf(plan: Seq<DriverAction>) -> bool {
        forall|i: int|
            0 <= i < plan.len() ==> match #[trigger] plan[i] {
                DriverAction::Bind(batch) => batch.wf(),
                _ => true,
            }
    }
}

/// The actions that a vector holds, in order.
pub open spec fn actions_of(plan: Seq<DriverAction>) -> Seq<ActionView> {
    Seq::new(plan.len(), |i: int| plan[i]@)
}

/// What the eviction that is due at time `now` does on a statement of its
/// own: nothing where none is due.
pub open spec fn eviction_actions(ttl: Option<u64>, now: i64) -> Seq<ActionView> {
    match eviction_due(ttl, now) {
        Some(text) => seq![ActionView::SetSqlQuery(text), ActionView::ExecuteEviction],
        None => Seq::empty(),
    }
}

/// What the connection is to do for one operation: first the eviction, if
/// one is due, in the background and without regard to its outcome; then
/// the actions, whose outcome is that of the operation. Actions are
/// performed in order on one fresh statement, and the first that fails ends
/// the operation with the failure of its step.
#[derive(Clone, Debug, PartialEq, Eq)]
pub struct DriverPlan {
    pub eviction: Vec<DriverAction>,
    pub actions: Vec<DriverAction>,
}

impl DriverPlan {
    /// True when the plan holds these actions, every batch well formed.
    pub open spec fn holds(&self, eviction: Seq<ActionView>, actions: Seq<ActionView>) -> bool {
        &&& actions_of(self.eviction@) == eviction
        &&& actions_of(self.actions@) == actions
        &&& DriverAction::all_wf(self.eviction@)
        &&& DriverAction::all_wf(self.actions@)
    }
}

/// The internal failure that reports what the driver said at `step`.
pub fn step_failure(step: DriverStep, detail: &str) -> (e: StorageError)
    ensures
        e.says(ErrorKind::Internal, step_text(step) + detail@),
{
    let prefix = match step {
        DriverStep::LoadDriver => "Failed to load ADBC driver: ",
        DriverStep::CreateDatabase => "Failed to create database: ",
        DriverStep::CreateConnection => "Failed to create connection: ",
        DriverStep::CreateStatement => "Failed to create statement: ",
        DriverStep::SetQuery => "Failed to set query: ",
        DriverStep::BindValues => "Failed to bind values: ",
        DriverStep::ExecuteCreateTable => "Failed to execute create table: ",
        DriverStep::ExecuteInsert => "Failed to execute insert: ",
        DriverStep::ExecuteQuery => "Failed to execute query: ",
        DriverStep::ExecuteEviction => "Failed to execute eviction: ",
        DriverStep::ReadBatch => "Failed to get record batch: ",
    };
    let mut message = String::from_str(prefix);
    message.append(detail);
    StorageError::Internal(message)
}

/// The state of a driver-managed backend, but for its connection.
#[derive(Debug)]
pub struct AdbcBackend {
    driver_path: String,
    options: Vec<DatabaseOption>,
    prepared_statements: StatementCache,
    cache_manager: CacheManager,
}

fn other_option(name: &str, value: String) -> (r: DatabaseOption)
    ensures
        r@ == (OptionKeyView::Other(name@), value@),
{
    DatabaseOption { key: OptionKey::Other(String::from_str(name)), value }
}

impl AdbcBackend {
    /// The statement cache is well formed.
    pub closed spec fn wf(&self) -> bool {
        self.prepared_statements.wf()
    }

    /// The path of the driver to load.
    pub closed spec fn spec_driver_path(&self) -> Seq<char> {
        self.driver_path@
    }

    /// The options to open the database with.
    pub closed spec fn spec_options(&self) -> Seq<(OptionKeyView, Seq<char>)> {
        options_of(self.options@)
    }

    /// The texts registered so far, in the order of their registration.
    pub closed spec fn statements(&self) -> Seq<Seq<char>> {
        self.prepared_statements@
    }

    /// The time-to-live that the backend was made with.
    pub closed spec fn ttl(&self) -> Option<u64> {
        self.cache_manager.ttl()
    }

    /// A backend never holds more statements than there are numbers for
    /// handles.
    pub proof fn lemma_count_bounded(&self)
        requires
            self.wf(),
        ensures
            self.statements().len() <= u64::MAX,
    {
        self.prepared_statements.lemma_count_bounded();
    }

    /// A handle resolves exactly if it is one of those that this backend
    /// has issued; any other is refused.
    pub proof fn lemma_resolves_iff_issued(&self, handle: Seq<u8>)
        requires
            self.wf(),
        ensures
            lookup(self.statements(), handle) is Some <==> issued_handles(
                self.statements().len(),
            ).contains(handle),
    {
        self.prepared_statements.lemma_resolves_iff_issued(handle);
    }

    /// A backend for `config`, with no statement registered.
    pub fn new(config: &AdbcConfig) -> (r: AdbcBackend)
        ensures
            r.wf(),
            r.spec_driver_path() == config.driver_path@,
            r.spec_options() == database_options(*config),
            r.statements() == Seq::<Seq<char>>::empty(),
            r.ttl() == config.ttl,
    {
        let mut options: Vec<DatabaseOption> = Vec::new();
        options.push(DatabaseOption { key: OptionKey::Uri, value: config.url.clone() });
        options.push(DatabaseOption { key: OptionKey::Username, value: config.username.clone() });
        options.push(DatabaseOption { key: OptionKey::Password, value: config.password.clone() });
        options.push(other_option("database", config.database.clone()));
        options.push(
            other_option("pool.max_connections", u64_to_text(config.pool.max_connections as u64)),
        );
        options.push(
            other_option("pool.min_connections", u64_to_text(config.pool.min_connections as u64)),
        );
        options.push(
            other_option("pool.acquire_timeout", u64_to_text(config.pool.acquire_timeout_secs)),
        );
        assert(options_of(options@) =~= database_options(*config));
        AdbcBackend {
            driver_path: config.driver_path.clone(),
            options,
            prepared_statements: StatementCache::new(),
            cache_manager: CacheManager::new(config.ttl),
        }
    }

    /// The path of the driver to load.
    pub fn driver_path(&self) -> (r: &String)
        ensures
            r@ == self.spec_driver_path(),
    {
        &self.driver_path
    }

    /// The options to open the database with.
    pub fn options(&self) -> (r: &Vec<DatabaseOption>)
        ensures
            options_of(r@) == self.spec_options(),
    {
        &self.options
    }

    /// The retention policy.
    pub fn cache_manager(&self) -> (r: CacheManager)
        ensures
            r.ttl() == self.ttl(),
    {
        self.cache_manager
    }

    /// What the eviction that is due at time `now` does: it sets the
    /// statement that deletes the rows below the cutoff and executes it.
    /// Where none is due, it does nothing.
    pub fn eviction(&self, now: i64) -> (plan: Vec<DriverAction>)
        ensures
            actions_of(plan@) == eviction_actions(self.ttl(), now),
            DriverAction::all_wf(plan@),
    {
        let mut plan: Vec<DriverAction> = Vec::new();
        match self.cache_manager.eviction(now) {
            Some(text) => {
                plan.push(DriverAction::SetSqlQuery(text));
                plan.push(DriverAction::ExecuteEviction);
            },
            None => {},
        }
        assert(actions_of(plan@) =~= eviction_actions(self.ttl(), now));
        plan
    }

    /// What initialisation does: it creates the table unless it exists.
    pub fn init(&self) -> (plan: Vec<DriverAction>)
        ensures
            actions_of(plan@) == seq![
                ActionView::SetSqlQuery(CREATE_TABLE_SQL@),
                ActionView::ExecuteCreateTable,
            ],
            DriverAction::all_wf(plan@),
    {
        let mut plan: Vec<DriverAction> = Vec::new();
        plan.push(DriverAction::SetSqlQuery(String::from_str(CREATE_TABLE_SQL)));
        plan.push(DriverAction::ExecuteCreateTable);
        assert(actions_of(plan@) =~= seq![
            ActionView::SetSqlQuery(CREATE_TABLE_SQL@),
            ActionView::ExecuteCreateTable,
        ]);
        plan
    }

    /// What an insert of `metrics` at time `now` does: the eviction that is
    /// due; then it binds the records, as one batch of five columns, to the
    /// insert statement and executes it. No choice of records makes this
    /// fail.
    pub fn insert_metrics(&self, now: i64, metrics: &Vec<MetricRecord>) -> (r: Result<
        DriverPlan,
        StorageError,
    >)
        ensures
            r is Ok,
            r.unwrap().holds(
                eviction_actions(self.ttl(), now),
                seq![
                    ActionView::SetSqlQuery(INSERT_SQL@),
                    ActionView::Bind(metric_columns(rows_of(metrics@))),
                    ActionView::ExecuteInsert,
                ],
            ),
    {
        let batch = match metrics_to_record_batch(metrics) {
            Ok(batch) => batch,
            Err(e) => {
                return Err(e);
            },
        };
        let mut plan: Vec<DriverAction> = Vec::new();
        plan.push(DriverAction::SetSqlQuery(String::from_str(INSERT_SQL)));
        plan.push(DriverAction::Bind(batch));
        plan.push(DriverAction::ExecuteInsert);
        assert(actions_of(plan@) =~= seq![
            ActionView::SetSqlQuery(INSERT_SQL@),
            ActionView::Bind(metric_columns(rows_of(metrics@))),
            ActionView::ExecuteInsert,
        ]);
        Ok(DriverPlan { eviction: self.eviction(now), actions: plan })
    }

    /// What a query from `from_timestamp` on at time `now` does: the
    /// eviction that is due; then it binds the timestamp, as a batch of one
    /// value, to the select statement and executes it. No timestamp makes
    /// this fail.
    pub fn query_metrics(&self, now: i64, from_timestamp: i64) -> (r: Result<
        DriverPlan,
        StorageError,
    >)
        ensures
            r is Ok,
            r.unwrap().holds(
                eviction_actions(self.ttl(), now),
                seq![
                    ActionView::SetSqlQuery(SELECT_SQL@),
                    ActionView::Bind(timestamp_parameter_columns(from_timestamp)),
                    ActionView::ExecuteQuery,
                ],
            ),
    {
        let batch = match timestamp_parameter(from_timestamp) {
            Ok(batch) => batch,
            Err(e) => {
                return Err(e);
            },
        };
        let mut plan: Vec<DriverAction> = Vec::new();
        plan.push(DriverAction::SetSqlQuery(String::from_str(SELECT_SQL)));
        plan.push(DriverAction::Bind(batch));
        plan.push(DriverAction::ExecuteQuery);
        assert(actions_of(plan@) =~= seq![
            ActionView::SetSqlQuery(SELECT_SQL@),
            ActionView::Bind(timestamp_parameter_columns(from_timestamp)),
            ActionView::ExecuteQuery,
        ]);
        Ok(DriverPlan { eviction: self.eviction(now), actions: plan })
    }

    /// Registers `query` for later execution and issues its handle: the
    /// number of statements registered before, in eight bytes, least
    /// significant first. The handle differs from every handle issued
    /// before, and from now on resolves to `query`. This never fails.
    pub fn prepare_sql(&mut self, query: &str) -> (r: Result<Vec<u8>, StorageError>)
        requires
            old(self).wf(),
        ensures
            final(self).wf(),
            final(self).spec_driver_path() == old(self).spec_driver_path(),
            final(self).spec_options() == old(self).spec_options(),
            final(self).statements() == old(self).statements().push(query@),
            final(self).ttl() == old(self).ttl(),
            r is Ok,
            r.unwrap()@ == handle_bytes(old(self).statements().len() as u64),
            lookup(final(self).statements(), r.unwrap()@) == Some(query@),
            !issued_handles(old(self).statements().len()).contains(r.unwrap()@),
    {
        Ok(self.prepared_statements.prepare(query))
    }

    /// What the execution of a registered statement does: it sets the text
    /// that `statement_handle` was issued for and executes it.
    ///
    /// A handle that has not eight bytes, or whose number was never issued,
    /// is an invalid argument.
    pub fn query_sql(&self, statement_handle: &[u8]) -> (r: Result<
        Vec<DriverAction>,
        StorageError,
    >)
        requires
            self.wf(),
        ensures
            match r {
                Ok(plan) => lookup(self.statements(), statement_handle@) is Some && actions_of(
                    plan@,
                ) == seq![
                    ActionView::SetSqlQuery(lookup(self.statements(), statement_handle@).unwrap()),
                    ActionView::ExecuteQuery,
                ] && DriverAction::all_wf(plan@),
                Err(e) => lookup(self.statements(), statement_handle@) is None && e.says(
                    ErrorKind::InvalidArgument,
                    if statement_handle@.len() != 8 {
                        "Invalid statement handle"@
                    } else {
                        "Statement handle not found"@
                    },
                ),
            },
    {
        let sql = match self.prepared_statements.resolve(statement_handle) {
            Ok(sql) => sql,
            Err(e) => {
                return Err(e);
            },
        };
        let mut plan: Vec<DriverAction> = Vec::new();
        plan.push(DriverAction::SetSqlQuery(sql));
        plan.push(DriverAction::ExecuteQuery);
        assert(actions_of(plan@) =~= seq![
            ActionView::SetSqlQuery(lookup(self.statements(), statement_handle@).unwrap()),
            ActionView::ExecuteQuery,
        ]);
        Ok(plan)
    }
}

/// Reads the rows of one more batch of an answer and puts them behind those
/// read so far. Where the batch cannot be read, nothing is added.
pub fn append_batch(metrics: &mut Vec<MetricRecord>, batch: &ColumnBatch) -> (r: Result<
    (),
    StorageError,
>)
    requires
        batch.wf(),
    ensures
        match r {
            Ok(_) => first_misfit(batch@) is None && rows_of(final(metrics)@) == rows_of(
                old(metrics)@,
            ) + decoded_rows(batch@),
            Err(e) => first_misfit(batch@) is Some && e.says(
                ErrorKind::Internal,
                misfit_text(first_misfit(batch@).unwrap()),
            ) && rows_of(final(metrics)@) == rows_of(old(metrics)@),
        },
{
    let mut rows = match record_batch_to_metrics(batch) {
        Ok(rows) => rows,
        Err(e) => {
            return Err(e);
        },
    };
    let ghost before = metrics@;
    let ghost added = rows@;
    metrics.append(&mut rows);
    assert(rows_of(metrics@) =~= rows_of(before) + rows_of(added));
    Ok(())
}

/// Ends a query by timestamp: on this backend an answer without rows is a
/// failure, of the kind that says that nothing was found.
pub fn finish_query_metrics(metrics: Vec<MetricRecord>) -> (r: Result<
    Vec<MetricRecord>,
    StorageError,
>)
    ensures
        match r {
            Ok(found) => metrics@.len() > 0 && found == metrics,
            Err(e) => metrics@.len() == 0 && e.says(
                ErrorKind::NotFound,
                "No metrics found for the given timestamp"@,
            ),
        },
{
    if metrics.len() == 0 {
        return Err(StorageError::not_found("No metrics found for the given timestamp"));
    }
    Ok(metrics)
}

/// Ends the execution of a registered statement: the rows are the answer,
/// also where there are none.
pub fn finish_query_sql(metrics: Vec<MetricRecord>) -> (r: Result<Vec<MetricRecord>, StorageError>)
    ensures
        r == Ok::<Vec<MetricRecord>, StorageError>(metrics),
{
    Ok(metrics)
}

} // verus!
