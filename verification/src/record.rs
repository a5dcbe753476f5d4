//! The unit of data exchanged with every backend.

use vstd::prelude::*;

verus! {

/// One aggregate of a metric over a running window.
///
/// The sum and the average are real numbers in the stores. This library
/// never computes with them: it carries each as the 64 bits of its IEEE 754
/// binary64 encoding, and the caller converts at the edge.
#[derive(Clone, Debug, PartialEq, Eq)]
pub struct MetricRecord {
    pub metric_id: String,
    pub timestamp: i64,
    pub value_running_window_sum: u64,
    pub value_running_window_avg: u64,
    pub value_running_window_count: i64,
}

/// What a record says, as plain values.
pub ghost struct MetricRow {
    pub metric_id: Seq<char>,
    pub timestamp: i64,
    pub sum_bits: u64,
    pub avg_bits: u64,
    pub count: i64,
}

impl View for MetricRecord {
    type V = MetricRow;

    open spec fn view(&self) -> MetricRow {
        MetricRow {
            metric_id: self.metric_id@,
            timestamp: self.timestamp,
            sum_bits: self.value_running_window_sum,
            avg_bits: self.value_running_window_avg,
            count: self.value_running_window_count,
        }
    }
}

/// The rows that a sequence of records holds, in order.
pub open spec fn rows_of(records: Seq<MetricRecord>) -> Seq<MetricRow> {
    Seq::new(records.len(), |i: int| records[i]@)
}

impl MetricRow {
    /// A window cannot have counted fewer than no events.
    pub open spec fn valid(self) -> bool {
        self.count >= 0
    }
}

impl MetricRecord {
    /// Makes a record of the given values.
    pub fn new(
        metric_id: String,
        timestamp: i64,
        value_running_window_sum: u64,
        value_running_window_avg: u64,
        value_running_window_count: i64,
    ) -> (r: MetricRecord)
        ensures
            r@ == (MetricRow {
                metric_id: metric_id@,
                timestamp,
                sum_bits: value_running_window_sum,
                avg_bits: value_running_window_avg,
                count: value_running_window_count,
            }),
    {
        MetricRecord {
            metric_id,
            timestamp,
            value_running_window_sum,
            value_running_window_avg,
            value_running_window_count,
        }
    }

    /// Tells whether the count is one that a window can have.
    pub fn is_valid(&self) -> (r: bool)
        ensures
            r == self@.valid(),
    {
        self.value_running_window_count >= 0
    }

    /// A second record that says the same.
    pub fn duplicate(&self) -> (r: MetricRecord)
        ensures
            r@ == self@,
    {
        MetricRecord {
            metric_id: self.metric_id.clone(),
            timestamp: self.timestamp,
            value_running_window_sum: self.value_running_window_sum,
            value_running_window_avg: self.value_running_window_avg,
            value_running_window_count: self.value_running_window_count,
        }
    }
}

} // verus!
