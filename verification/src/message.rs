//! Metric records and their wire form.
//!
//! A record is an immutable (path, value, timestamp) triple. Its wire form is
//! the line `path value timestamp\n`; a batch is the concatenation of the
//! lines of its records, in order, with nothing between them.

use vstd::prelude::*;
use vstd::string::StringExecFns;

use crate::digits::dec_seq;
use crate::digits::u64_to_dec;

verus! {

/// A metric record: one (path, value, timestamp) data point to be delivered.
#[derive(Debug, Clone, PartialEq)]
pub struct GraphiteMessage {
    /// The hierarchical dotted path identifying this metric.
    metric_path: String,
    /// The metric value, kept exactly as the caller supplied it.
    value: String,
    /// Seconds since the Unix epoch at which the value was captured.
    timestamp: u64,
}

/// Mathematical model of a record: its path and value texts and its
/// timestamp.
pub struct MessageModel {
    pub path: Seq<char>,
    pub value: Seq<char>,
    pub timestamp: nat,
}

impl View for GraphiteMessage {
    type V = MessageModel;

    closed spec fn view(&self) -> MessageModel {
        MessageModel {
            path: self.metric_path@,
            value: self.value@,
            timestamp: self.timestamp as nat,
        }
    }
}

/// The wire form of a record: `path value timestamp\n`, with single spaces
/// and nothing more.
pub open spec fn spec_serialize(m: MessageModel) -> Seq<char> {
    m.path + " "@ + m.value + " "@ + dec_seq(m.timestamp) + "\n"@
}

/// The wire form of a batch: the records' lines concatenated in order, with
/// no extra delimiter between them.
pub open spec fn spec_serialize_batch(msgs: Seq<GraphiteMessage>) -> Seq<char>
    decreases msgs.len(),
{
    if msgs.len() == 0 {
        Seq::<char>::empty()
    } else {
        spec_serialize_batch(msgs.drop_last()) + spec_serialize(msgs.last()@)
    }
}

/// Relies on `std::time::SystemTime::now` and its distance from the Unix
/// epoch: the wall-clock reading in whole seconds, or zero if the clock reads
/// earlier than the epoch. Nothing is promised of the value.
#[verifier::external_body]
fn unix_time_secs() -> u64 {
    std::time::SystemTime::now()
        .duration_since(std::time::UNIX_EPOCH)
        .unwrap_or_default()
        .as_secs()
}

impl GraphiteMessage {
    /// Creates a record capturing the wall-clock time at the moment of the
    /// call as its timestamp.
    pub fn new(metric_path: &str, value: &str) -> (r: GraphiteMessage)
        ensures
            r@.path == metric_path@,
            r@.value == value@,
    {
        GraphiteMessage {
            metric_path: String::from_str(metric_path),
            value: String::from_str(value),
            timestamp: unix_time_secs(),
        }
    }

    /// Creates a record with a caller-chosen capture timestamp.
    pub fn with_timestamp(metric_path: &str, value: &str, timestamp: u64) -> (r: GraphiteMessage)
        ensures
            r@.path == metric_path@,
            r@.value == value@,
            r@.timestamp == timestamp as nat,
    {
        GraphiteMessage {
            metric_path: String::from_str(metric_path),
            value: String::from_str(value),
            timestamp,
        }
    }

    /// Renders the record's wire form, exactly as `spec_serialize` describes:
    /// `path value timestamp\n`, with no extra whitespace.
    pub fn serialize(&self) -> (r: String)
        ensures
            r@ == spec_serialize(self@),
    {
        let mut s = String::new();
        s.append(self.metric_path.as_str());
        s.append(" ");
        s.append(self.value.as_str());
        s.append(" ");
        let ts = u64_to_dec(self.timestamp);
        s.append(ts.as_str());
        s.append("\n");
        proof {
            assert(s@ =~= spec_serialize(self@));
        }
        s
    }

    /// The record's metric path.
    pub fn metric_path(&self) -> (r: &str)
        ensures
            r@ == self@.path,
    {
        self.metric_path.as_str()
    }

    /// The record's value.
    pub fn value(&self) -> (r: &str)
        ensures
            r@ == self@.value,
    {
        self.value.as_str()
    }

    /// The record's capture timestamp, in seconds since the Unix epoch.
    pub fn timestamp(&self) -> (r: u64)
        ensures
            r as nat == self@.timestamp,
    {
        self.timestamp
    }
}

/// Serialization depends on the record alone: any two serializations of the
/// same record are byte-identical, so serializing twice is idempotent.
pub proof fn lemma_serialize_idempotent(m: MessageModel, first: Seq<char>, second: Seq<char>)
    requires
        first == spec_serialize(m),
        second == spec_serialize(m),
    ensures
        first == second,
{
}

} // verus!
