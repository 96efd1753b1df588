//! The record of how metrics were misused.
//!
//! A misuse never reaches the caller: it is appended to the error log of the
//! `Glean` object, where diagnostics can count it.

use vstd::prelude::*;
use vstd::string::*;
use crate::common_metric_data::CommonMetricData;
use crate::glean::Glean;

verus! {

/// The kinds of error that a metric can report.
#[derive(Clone, Copy, Debug, PartialEq, Eq, Structural)]
pub enum ErrorType {
    /// A value that the metric cannot take.
    InvalidValue,
    /// A label that the metric does not know.
    InvalidLabel,
    /// A call in a state that does not allow it.
    InvalidState,
    /// A value beyond what the metric can hold.
    InvalidOverflow,
}

/// One reported error: the metric, the kind and the message.
#[derive(Debug)]
pub struct RecordedError {
    pub identifier: String,
    pub kind: ErrorType,
    pub message: String,
}

/// The mathematical content of a `RecordedError`.
pub struct ErrorRecord {
    pub identifier: Seq<char>,
    pub kind: ErrorType,
    pub message: Seq<char>,
}

impl View for RecordedError {
    type V = ErrorRecord;

    open spec fn view(&self) -> ErrorRecord {
        ErrorRecord { identifier: self.identifier@, kind: self.kind, message: self.message@ }
    }
}

/// How many records in `log` report an error of `kind` for the metric
/// `identifier`.
pub open spec fn count_errors(log: Seq<ErrorRecord>, identifier: Seq<char>, kind: ErrorType) -> nat
    decreases log.len(),
{
    if log.len() == 0 {
        0
    } else {
        let earlier = count_errors(log.drop_last(), identifier, kind);
        if log.last().identifier == identifier && log.last().kind == kind {
            earlier + 1
        } else {
            earlier
        }
    }
}

/// One more record raises the count of its own metric and kind by one and
/// leaves every other count as it was.
pub proof fn count_errors_after_push(
    log: Seq<ErrorRecord>,
    record: ErrorRecord,
    identifier: Seq<char>,
    kind: ErrorType,
)
    ensures
        count_errors(log.push(record), identifier, kind) == if record.identifier == identifier
            && record.kind == kind {
            count_errors(log, identifier, kind) + 1
        } else {
            count_errors(log, identifier, kind)
        },
{
    assert(log.push(record).drop_last() =~= log);
}

/// The errors reported so far, oldest first.
pub struct ErrorLog {
    entries: Vec<RecordedError>,
}

impl View for ErrorLog {
    type V = Seq<ErrorRecord>;

    closed spec fn view(&self) -> Seq<ErrorRecord> {
        self.entries@.map_values(|entry: RecordedError| entry@)
    }
}

impl ErrorLog {
    /// A log without a record.
    pub fn new() -> (log: ErrorLog)
        ensures
            log@ == Seq::<ErrorRecord>::empty(),
    {
        ErrorLog { entries: Vec::new() }
    }

    /// Appends one record.
    pub fn record(&mut self, identifier: String, kind: ErrorType, message: &str)
        ensures
            final(self)@ == old(self)@.push(
                ErrorRecord { identifier: identifier@, kind, message: message@ },
            ),
    {
        self.entries.push(RecordedError { identifier, kind, message: message.to_owned() });
    }

    /// The number of records.
    pub fn len(&self) -> (n: usize)
        ensures
            n == self@.len(),
    {
        self.entries.len()
    }

    /// The record at position `index`, counted from the oldest.
    pub fn get(&self, index: usize) -> (entry: Option<&RecordedError>)
        ensures
            index < self@.len() ==> entry is Some && entry->0@ == self@[index as int],
            index >= self@.len() ==> entry is None,
    {
        if index < self.entries.len() {
            Some(&self.entries[index])
        } else {
            None
        }
    }

    /// How many errors of `kind` were reported for the metric `identifier`.
    pub fn count(&self, identifier: &str, kind: ErrorType) -> (n: usize)
        ensures
            n == count_errors(self@, identifier@, kind),
    {
        let wanted = identifier.to_owned();
        let mut n: usize = 0;
        let mut i: usize = 0;
        while i < self.entries.len()
            invariant
                i <= self.entries.len(),
                n <= i,
                wanted@ == identifier@,
                n == count_errors(self@.take(i as int), identifier@, kind),
            decreases self.entries.len() - i,
        {
            proof {
                assert(self@.take(i as int + 1) =~= self@.take(i as int).push(self@[i as int]));
                count_errors_after_push(self@.take(i as int), self@[i as int], identifier@, kind);
            }
            if self.entries[i].identifier == wanted && self.entries[i].kind == kind {
                n += 1;
            }
            i += 1;
        }
        assert(self@.take(i as int) =~= self@);
        n
    }
}

/// Reports that the metric `meta` was misused: appends one record of `kind`
/// with `message` to the error log and touches nothing else.
pub fn record_error(glean: &mut Glean, meta: &CommonMetricData, kind: ErrorType, message: &str)
    ensures
        final(glean)@ == old(glean)@.with_error(meta@.identifier(), kind, message@),
{
    let identifier = meta.identifier();
    glean.errors.record(identifier, kind, message);
}

/// How many errors of `kind` were reported for the metric `meta`.
pub fn test_get_num_recorded_errors(glean: &Glean, meta: &CommonMetricData, kind: ErrorType) -> (n:
    usize)
    ensures
        n == count_errors(glean@.errors, meta@.identifier(), kind),
{
    let identifier = meta.identifier();
    glean.errors.count(identifier.as_str(), kind)
}

} // verus!
