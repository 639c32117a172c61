use vstd::prelude::*;

use crate::time::Timestamp;

verus! {

/// The mathematical value of one log record.
pub struct LogEventModel {
    pub message: Seq<char>,
    pub timestamp_millis: int,
    pub stream_name: Option<Seq<char>>,
}

/// One normalized log record: its message, its instant in UTC, and the
/// stream that emitted it when the backend can identify one.
#[derive(Debug, Clone)]
pub struct LogEvent {
    pub message: String,
    pub timestamp: Timestamp,
    pub stream_name: Option<String>,
}

pub open spec fn spec_opt_text(o: Option<String>) -> Option<Seq<char>> {
    match o {
        Option::Some(s) => Option::Some(s@),
        Option::None => Option::None,
    }
}

pub open spec fn spec_opt_millis(o: Option<Timestamp>) -> Option<int> {
    match o {
        Option::Some(t) => Option::Some(t@),
        Option::None => Option::None,
    }
}

pub open spec fn spec_opt_i64(o: Option<i64>) -> Option<int> {
    match o {
        Option::Some(v) => Option::Some(v as int),
        Option::None => Option::None,
    }
}

impl View for LogEvent {
    type V = LogEventModel;

    open spec fn view(&self) -> LogEventModel {
        LogEventModel {
            message: self.message@,
            timestamp_millis: self.timestamp@,
            stream_name: spec_opt_text(self.stream_name),
        }
    }
}

/// The caller's time bounds for one retrieval, shared by both query modes.
/// Both bounds are inclusive and in UTC; an absent bound leaves that side
/// unbounded.
#[derive(Debug, Clone, Copy)]
pub struct LogEventsRequest {
    pub start_time: Option<Timestamp>,
    pub end_time: Option<Timestamp>,
}

impl LogEventsRequest {
    /// The lower bound as epoch milliseconds, as the wire requests carry it.
    pub fn start_time_value(&self) -> (r: Option<i64>)
        ensures
            spec_opt_i64(r) == spec_opt_millis(self.start_time),
    {
        match self.start_time {
            Option::Some(t) => Option::Some(t.epoch_millis()),
            Option::None => Option::None,
        }
    }

    /// The upper bound as epoch milliseconds, as the wire requests carry it.
    pub fn end_time_value(&self) -> (r: Option<i64>)
        ensures
            spec_opt_i64(r) == spec_opt_millis(self.end_time),
    {
        match self.end_time {
            Option::Some(t) => Option::Some(t.epoch_millis()),
            Option::None => Option::None,
        }
    }
}

/// The mathematical value of one page of the stream.
pub struct PageModel {
    pub events: Seq<LogEventModel>,
    pub next_token: Option<Seq<char>>,
}

/// One normalized page: the events of one response, in the backend's order,
/// and the continuation token it returned, if any.
#[derive(Debug)]
pub struct LogEventsResponse {
    pub events: Vec<LogEvent>,
    pub next_token: Option<String>,
}

impl View for LogEventsResponse {
    type V = PageModel;

    open spec fn view(&self) -> PageModel {
        PageModel {
            events: self.events@.map_values(|e: LogEvent| e@),
            next_token: spec_opt_text(self.next_token),
        }
    }
}

} // verus!
