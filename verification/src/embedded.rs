//! The embedded backend: an analytical engine that runs in the process.
//!
//! The backend decides which statements the engine is given. The caller owns
//! the engine, reads the clock, runs the statements, and writes real numbers
//! as text.

use vstd::prelude::*;
use vstd::string::*;
use vstd::utf8::*;
use crate::cache::{eviction_due, same_text, CacheManager};
use crate::config::Credentials;
use crate::error::{ErrorKind, StorageError};
use crate::options::OptionMap;
use crate::record::{MetricRecord, MetricRow};
use crate::text::{
    i64_to_text, int_text, lemma_int_text_bytes, lemma_number_is_text, lemma_parse_int_text,
    lemma_parse_nat_text, nat_text, parse_i64, parse_i64_text, parse_u64, parse_u64_text,
};

verus! {

/// The statement that creates the table of metrics.
pub const CREATE_TABLE_SQL: &'static str =
    "CREATE TABLE IF NOT EXISTS metrics (timestamp BIGINT NOT NULL, metric_id VARCHAR NOT NULL, value_running_window_sum DOUBLE NOT NULL, value_running_window_avg DOUBLE NOT NULL, value_running_window_count BIGINT NOT NULL)";

/// The statement that creates the index that eviction by age uses.
pub const CREATE_INDEX_SQL: &'static str =
    "CREATE INDEX IF NOT EXISTS metrics_timestamp_idx ON metrics(timestamp) WITH (prefetch_blocks = 8)";

/// What every insert statement begins with.
pub const INSERT_PREFIX: &'static str =
    "INSERT INTO metrics (timestamp, metric_id, value_running_window_sum, value_running_window_avg, value_running_window_count) VALUES ";

/// What every select statement begins with.
pub const SELECT_PREFIX: &'static str =
    "SELECT timestamp, metric_id, value_running_window_sum, value_running_window_avg, value_running_window_count FROM metrics WHERE timestamp >= ";

/// The connection string of an engine that keeps its data in memory.
pub const IN_MEMORY: &'static str = ":memory:";

/// A record together with the text of its sum and of its average, as the
/// caller writes real numbers.
#[derive(Clone, Debug, PartialEq, Eq)]
pub struct RenderedRecord {
    pub record: MetricRecord,
    pub sum_text: String,
    pub avg_text: String,
}

/// A rendered record, as plain values.
pub ghost struct RenderedRow {
    pub row: MetricRow,
    pub sum_text: Seq<char>,
    pub avg_text: Seq<char>,
}

impl View for RenderedRecord {
    type V = RenderedRow;

    open spec fn view(&self) -> RenderedRow {
        RenderedRow { row: self.record@, sum_text: self.sum_text@, avg_text: self.avg_text@ }
    }
}

/// The rendered rows that a vector holds, in order.
pub open spec fn rendered_of(records: Seq<RenderedRecord>) -> Seq<RenderedRow> {
    Seq::new(records.len(), |i: int| records[i]@)
}

/// The values of one row as they stand in an insert statement. The
/// identifier stands between quotes as it is: nothing in it is escaped.
pub open spec fn row_text(r: RenderedRow) -> Seq<char> {
    "("@ + int_text(r.row.timestamp as int) + ", '"@ + r.row.metric_id + "', "@ + r.sum_text
        + ", "@ + r.avg_text + ", "@ + int_text(r.row.count as int) + ")"@
}

/// The rows of an insert statement, with a comma and a space between two.
pub open spec fn rows_text(rows: Seq<RenderedRow>) -> Seq<char>
    decreases rows.len(),
{
    if rows.len() == 0 {
        Seq::empty()
    } else if rows.len() == 1 {
        row_text(rows[0])
    } else {
        rows_text(rows.drop_last()) + ", "@ + row_text(rows.last())
    }
}

/// The one statement that inserts all of `rows`.
pub open spec fn insert_text(rows: Seq<RenderedRow>) -> Seq<char> {
    INSERT_PREFIX@ + rows_text(rows)
}

/// The statement that an insert of `rows` sends: none where there are no
/// rows, for then there is nothing to append.
pub open spec fn insert_due(rows: Seq<RenderedRow>) -> Option<Seq<char>> {
    if rows.len() == 0 {
        None
    } else {
        Some(insert_text(rows))
    }
}

/// The statement that selects the rows from `from_timestamp` on.
pub open spec fn select_text(from_timestamp: i64) -> Seq<char> {
    SELECT_PREFIX@ + int_text(from_timestamp as int)
}

/// The timestamp that a handle stands for: the number that its bytes write
/// in decimal. A handle whose bytes write none stands for nothing.
pub open spec fn handle_timestamp(handle: Seq<u8>) -> Option<i64> {
    parse_i64_text(handle)
}

/// What a failure says of a handle that is text but writes no timestamp.
pub open spec fn malformed_handle_text() -> Seq<char> {
    "Invalid statement handle"@
}

/// The time-to-live that the options set: the number under `ttl`, unless it
/// is missing, is no number, or is zero.
pub open spec fn ttl_setting(options: Map<Seq<char>, Seq<char>>) -> Option<u64> {
    if options.contains_key("ttl"@) {
        match parse_u64_text(encode_utf8(options["ttl"@])) {
            Some(t) => if t == 0 {
                None
            } else {
                Some(t)
            },
            None => None,
        }
    } else {
        None
    }
}

/// The options with the credentials among them, where there are any.
pub open spec fn with_credentials(
    options: Map<Seq<char>, Seq<char>>,
    credentials: Option<&Credentials>,
) -> Map<Seq<char>, Seq<char>> {
    match credentials {
        Some(c) => options.insert("username"@, c.username@).insert("password"@, c.password@),
        None => options,
    }
}

/// What std says of bytes that are not UTF-8.
pub uninterp spec fn utf8_error_text(bytes: Seq<u8>) -> Seq<char>;

/// Calls `std::str::from_utf8` and gives the text of its error, if it
/// reports one. It reports none exactly if the bytes are UTF-8; the text is
/// std's own and depends on the bytes alone.
#[verifier::external_body]
fn utf8_failure(bytes: &[u8]) -> (r: Option<String>)
    ensures
        r is None <==> valid_utf8(bytes@),
        r is Some ==> r.unwrap()@ == utf8_error_text(bytes@),
{
    match std::str::from_utf8(bytes) {
        Ok(_) => None,
        Err(e) => Some(e.to_string()),
    }
}

/// What the engine is to run for one operation: first the eviction, if one
/// is due, in the background and without regard to its outcome; then the
/// statement, if there is one, whose outcome is that of the operation.
/// Without a statement the operation has succeeded with nothing sent.
#[derive(Clone, Debug, PartialEq, Eq)]
pub struct EmbeddedPlan {
    pub eviction: Option<String>,
    pub statement: Option<String>,
}

impl EmbeddedPlan {
    /// True when the plan holds these texts, and no others.
    pub open spec fn holds(
        &self,
        eviction: Option<Seq<char>>,
        statement: Option<Seq<char>>,
    ) -> bool {
        same_text(self.statement, statement) && same_text(self.eviction, eviction)
    }
}

/// The state of an embedded backend, but for its engine.
#[derive(Clone, Debug)]
pub struct DuckDbBackend {
    connection_string: String,
    options: OptionMap,
    cache_manager: CacheManager,
}

fn row_sql(row: &RenderedRecord) -> (r: String)
    ensures
        r@ == row_text(row@),
{
    let mut s = String::from_str("(");
    s.append(i64_to_text(row.record.timestamp).as_str());
    s.append(", '");
    s.append(row.record.metric_id.as_str());
    s.append("', ");
    s.append(row.sum_text.as_str());
    s.append(", ");
    s.append(row.avg_text.as_str());
    s.append(", ");
    s.append(i64_to_text(row.record.value_running_window_count).as_str());
    s.append(")");
    s
}

/// The statement that inserts all of `rows` at once. Without rows there is
/// none: nothing is to be appended, and nothing is sent.
pub fn insert_statement(rows: &Vec<RenderedRecord>) -> (r: Option<String>)
    ensures
        same_text(r, insert_due(rendered_of(rows@))),
{
    if rows.len() == 0 {
        return None;
    }
    let ghost all = rendered_of(rows@);
    let mut query = String::from_str(INSERT_PREFIX);
    let mut i: usize = 0;
    assert(all.take(0) =~= Seq::<RenderedRow>::empty());
    while i < rows.len()
        invariant
            i <= rows@.len(),
            all == rendered_of(rows@),
            query@ == INSERT_PREFIX@ + rows_text(all.take(i as int)),
        decreases rows@.len() - i,
    {
        let ghost before = query@;
        if i > 0 {
            query.append(", ");
        }
        query.append(row_sql(&rows[i]).as_str());
        proof {
            let next = all.take(i + 1);
            assert(next.drop_last() =~= all.take(i as int));
            assert(next.last() == rows@[i as int]@);
            if i == 0 {
                assert(rows_text(all.take(0)) =~= Seq::<char>::empty());
                assert(query@ =~= INSERT_PREFIX@ + rows_text(next));
            } else {
                assert(query@ =~= INSERT_PREFIX@ + rows_text(next));
            }
        }
        i = i + 1;
    }
    assert(all.take(i as int) =~= all);
    Some(query)
}

/// The statement that selects the rows from `from_timestamp` on.
pub fn select_statement(from_timestamp: i64) -> (r: String)
    ensures
        r@ == select_text(from_timestamp),
{
    let mut query = String::from_str(SELECT_PREFIX);
    query.append(i64_to_text(from_timestamp).as_str());
    query
}

impl DuckDbBackend {
    /// The options are well formed.
    pub closed spec fn wf(&self) -> bool {
        self.options.wf()
    }

    /// Where the engine keeps its data.
    pub closed spec fn spec_connection_string(&self) -> Seq<char> {
        self.connection_string@
    }

    /// The options that the backend was made with.
    pub closed spec fn spec_options(&self) -> Map<Seq<char>, Seq<char>> {
        self.options@
    }

    /// The time-to-live that the backend was made with.
    pub closed spec fn ttl(&self) -> Option<u64> {
        self.cache_manager.ttl()
    }

    /// The eviction statement that is due at time `now`, if any is.
    pub open spec fn eviction_due(&self, now: i64) -> Option<Seq<char>> {
        eviction_due(self.ttl(), now)
    }

    /// A backend for the engine at `connection_string`, with a time-to-live
    /// of `ttl` seconds.
    pub fn new(connection_string: String, options: OptionMap, ttl: Option<u64>) -> (r:
        DuckDbBackend)
        requires
            options.wf(),
        ensures
            r.wf(),
            r.spec_connection_string() == connection_string@,
            r.spec_options() == options@,
            r.ttl() == ttl,
    {
        DuckDbBackend { connection_string, options, cache_manager: CacheManager::new(ttl) }
    }

    /// A backend for an engine that keeps its data in memory, without
    /// options and without eviction.
    pub fn new_in_memory() -> (r: DuckDbBackend)
        ensures
            r.wf(),
            r.spec_connection_string() == IN_MEMORY@,
            r.spec_options() == Map::<Seq<char>, Seq<char>>::empty(),
            r.ttl() == Some(0u64),
            forall|now: i64| r.eviction_due(now) is None,
    {
        DuckDbBackend::new(String::from_str(IN_MEMORY), OptionMap::new(), Some(0))
    }

    /// A backend made from free-form options: the credentials, where there
    /// are any, go among the options as `username` and `password`, and the
    /// option `ttl` sets the time-to-live.
    pub fn new_with_options(
        connection_string: &str,
        options: &OptionMap,
        credentials: Option<&Credentials>,
    ) -> (r: DuckDbBackend)
        requires
            options.wf(),
        ensures
            r.wf(),
            r.spec_connection_string() == connection_string@,
            r.spec_options() == with_credentials(options@, credentials),
            r.ttl() == ttl_setting(with_credentials(options@, credentials)),
    {
        let mut all_options = options.duplicate();
        match credentials {
            Some(c) => {
                all_options.insert(String::from_str("username"), c.username.clone());
                all_options.insert(String::from_str("password"), c.password.clone());
            },
            None => {},
        }
        let ttl = match all_options.get("ttl") {
            Some(text) => match parse_u64(text.as_str().as_bytes()) {
                Some(t) => if t == 0 {
                    None
                } else {
                    Some(t)
                },
                None => None,
            },
            None => None,
        };
        DuckDbBackend::new(String::from_str(connection_string), all_options, ttl)
    }

    /// Where the engine keeps its data.
    pub fn connection_string(&self) -> (r: &String)
        ensures
            r@ == self.spec_connection_string(),
    {
        &self.connection_string
    }

    /// The options that the backend was made with.
    pub fn options(&self) -> (r: &OptionMap)
        ensures
            r@ == self.spec_options(),
            self.wf() ==> r.wf(),
    {
        &self.options
    }

    /// The retention policy.
    pub fn cache_manager(&self) -> (r: CacheManager)
        ensures
            r.ttl() == self.ttl(),
    {
        self.cache_manager
    }

    /// What initialisation does: it creates the table, then the index,
    /// unless they exist.
    pub fn init(&self) -> (statements: Vec<String>)
        ensures
            statements@.len() == 2,
            statements@[0]@ == CREATE_TABLE_SQL@,
            statements@[1]@ == CREATE_INDEX_SQL@,
    {
        let mut statements: Vec<String> = Vec::new();
        statements.push(String::from_str(CREATE_TABLE_SQL));
        statements.push(String::from_str(CREATE_INDEX_SQL));
        statements
    }

    /// The eviction statement to run at time `now`, if one is due.
    pub fn eviction(&self, now: i64) -> (r: Option<String>)
        ensures
            same_text(r, self.eviction_due(now)),
    {
        self.cache_manager.eviction(now)
    }

    /// What an insert of `rows` at time `now` does: the eviction that is
    /// due, then one statement that inserts all rows. Without rows there is
    /// no statement, and the insert has succeeded.
    pub fn insert_metrics(&self, now: i64, rows: &Vec<RenderedRecord>) -> (plan: EmbeddedPlan)
        ensures
            plan.holds(self.eviction_due(now), insert_due(rendered_of(rows@))),
    {
        EmbeddedPlan { eviction: self.eviction(now), statement: insert_statement(rows) }
    }

    /// What a query from `from_timestamp` on at time `now` does: the
    /// eviction that is due, then the select statement.
    pub fn query_metrics(&self, now: i64, from_timestamp: i64) -> (plan: EmbeddedPlan)
        ensures
            plan.holds(self.eviction_due(now), Some(select_text(from_timestamp))),
    {
        EmbeddedPlan {
            eviction: self.eviction(now),
            statement: Some(select_statement(from_timestamp)),
        }
    }

    /// The handle of a statement on this backend: the bytes of its text.
    /// This never fails.
    pub fn prepare_sql(&self, query: &str) -> (r: Result<Vec<u8>, StorageError>)
        ensures
            r is Ok,
            r.unwrap()@ == encode_utf8(query@),
    {
        Ok(query.as_bytes_vec())
    }

    /// What the execution of `statement_handle` does once it is known
    /// whether the handle is text: `failure` is what was found wrong with
    /// its bytes, if anything was.
    ///
    /// A handle is the text of a timestamp in decimal, and is executed as
    /// the query from that timestamp on. A handle that is no text is an
    /// invalid argument, with the finding as its message; so is a handle
    /// that is text but writes no timestamp. For neither is anything run.
    pub fn query_sql_checked(
        &self,
        now: i64,
        statement_handle: &[u8],
        failure: Option<String>,
    ) -> (r: Result<EmbeddedPlan, StorageError>)
        ensures
            match failure {
                Some(message) => r is Err && r.unwrap_err().says(
                    ErrorKind::InvalidArgument,
                    message@,
                ),
                None => match handle_timestamp(statement_handle@) {
                    Some(from_timestamp) => r is Ok && r.unwrap().holds(
                        self.eviction_due(now),
                        Some(select_text(from_timestamp)),
                    ),
                    None => r is Err && r.unwrap_err().says(
                        ErrorKind::InvalidArgument,
                        malformed_handle_text(),
                    ),
                },
            },
    {
        match failure {
            Some(message) => Err(StorageError::InvalidArgument(message)),
            None => match parse_i64(statement_handle) {
                Some(from_timestamp) => Ok(self.query_metrics(now, from_timestamp)),
                None => Err(StorageError::invalid_argument("Invalid statement handle")),
            },
        }
    }

    /// What the execution of `statement_handle` at time `now` does.
    ///
    /// It succeeds exactly for a handle that writes a timestamp in decimal,
    /// and is then the query from that timestamp on. Any other handle is an
    /// invalid argument: one whose bytes are not UTF-8 with what std says of
    /// them as its message, one that is text but no timestamp with a fixed
    /// message.
    pub fn query_sql(&self, now: i64, statement_handle: &[u8]) -> (r: Result<
        EmbeddedPlan,
        StorageError,
    >)
        ensures
            match r {
                Ok(plan) => handle_timestamp(statement_handle@) is Some && plan.holds(
                    self.eviction_due(now),
                    Some(select_text(handle_timestamp(statement_handle@).unwrap())),
                ),
                Err(e) => handle_timestamp(statement_handle@) is None && e.says(
                    ErrorKind::InvalidArgument,
                    if valid_utf8(statement_handle@) {
                        malformed_handle_text()
                    } else {
                        utf8_error_text(statement_handle@)
                    },
                ),
            },
    {
        let failure = utf8_failure(statement_handle);
        proof {
            if handle_timestamp(statement_handle@) is Some {
                lemma_number_is_text(statement_handle@);
            }
        }
        self.query_sql_checked(now, statement_handle, failure)
    }
}

/// Ends a query: on this backend the rows are the answer, also where there
/// are none.
pub fn finish_query_metrics(metrics: Vec<MetricRecord>) -> (r: Result<
    Vec<MetricRecord>,
    StorageError,
>)
    ensures
        r == Ok::<Vec<MetricRecord>, StorageError>(metrics),
{
    Ok(metrics)
}

/// A handle prepared from the decimal text of a timestamp is text, and
/// executes as the query from that timestamp on.
pub proof fn lemma_prepared_timestamp(from_timestamp: i64)
    ensures
        valid_utf8(encode_utf8(int_text(from_timestamp as int))),
        handle_timestamp(encode_utf8(int_text(from_timestamp as int))) == Some(from_timestamp),
{
    lemma_int_text_bytes(from_timestamp as int);
    lemma_parse_int_text(from_timestamp);
}

/// A time-to-live written in decimal under `ttl` is the one that is set,
/// unless it is zero, which sets none.
pub proof fn lemma_ttl_setting(options: Map<Seq<char>, Seq<char>>, ttl: u64)
    requires
        options.contains_key("ttl"@),
        options["ttl"@] == nat_text(ttl as nat),
    ensures
        ttl_setting(options) == (if ttl == 0 {
            None
        } else {
            Some(ttl)
        }),
{
    lemma_parse_nat_text(ttl);
}

} // verus!
