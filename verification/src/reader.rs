use vstd::prelude::*;

use crate::errors::{Error, ErrorKind};
use crate::event::{
    spec_opt_i64, spec_opt_millis, spec_opt_text, LogEvent, LogEventModel, LogEventsRequest,
    LogEventsResponse, PageModel,
};
use crate::options::GetOptions;
use crate::time::Timestamp;

verus! {

/// The capability to fetch one page from the remote service.
///
/// An implementation issues the remote call for one page request and hands
/// back either a normalized page or the failure of the call. Nothing is
/// assumed about what a call returns: the pagination stream states what
/// holds of every outcome.
pub trait LogEventsReader {
    fn read_log_events(&mut self, next_token: Option<String>) -> Result<LogEventsResponse, Error>;
}

/// One raw record of the sequential query mode, as the wire carries it:
/// either required field may be absent, which makes the record malformed.
#[derive(Debug)]
pub struct RawSequentialEvent {
    pub message: Option<String>,
    pub timestamp: Option<i64>,
}

/// One raw record of the filtered query mode. The backend of this mode may
/// also name the stream that emitted the record.
#[derive(Debug)]
pub struct RawFilteredEvent {
    pub message: Option<String>,
    pub timestamp: Option<i64>,
    pub log_stream_name: Option<String>,
}

/// One raw response of the sequential mode; the wire calls its continuation
/// token the "forward token". An absent event list means an empty page.
#[derive(Debug)]
pub struct RawSequentialPage {
    pub events: Option<Vec<RawSequentialEvent>>,
    pub next_forward_token: Option<String>,
}

/// One raw response of the filtered mode.
#[derive(Debug)]
pub struct RawFilteredPage {
    pub events: Option<Vec<RawFilteredEvent>>,
    pub next_token: Option<String>,
}

pub open spec fn spec_sequential_event_ok(e: RawSequentialEvent) -> bool {
    e.message is Some && e.timestamp is Some
}

pub open spec fn spec_sequential_event(e: RawSequentialEvent, stream: Seq<char>) -> LogEventModel {
    LogEventModel {
        message: (e.message->0)@,
        timestamp_millis: e.timestamp->0 as int,
        stream_name: Option::Some(stream),
    }
}

pub open spec fn spec_filtered_event_ok(e: RawFilteredEvent) -> bool {
    e.message is Some && e.timestamp is Some
}

pub open spec fn spec_filtered_event(e: RawFilteredEvent) -> LogEventModel {
    LogEventModel {
        message: (e.message->0)@,
        timestamp_millis: e.timestamp->0 as int,
        stream_name: spec_opt_text(e.log_stream_name),
    }
}

impl LogEvent {
    /// Normalizes one sequential-mode record. The backend of this mode does
    /// not echo the stream name per record, so the event is tagged with the
    /// stream the reader was configured with.
    pub fn from_sequential(ev: &RawSequentialEvent, stream_name: &String) -> (r: Result<
        LogEvent,
        Error,
    >)
        ensures
            match r {
                Result::Ok(e) => spec_sequential_event_ok(*ev) && e@ == spec_sequential_event(
                    *ev,
                    stream_name@,
                ),
                Result::Err(e) => !spec_sequential_event_ok(*ev) && e.spec_kind()
                    == ErrorKind::MalformedRecord,
            },
    {
        match (&ev.message, &ev.timestamp) {
            (Option::Some(message), Option::Some(ts)) => Result::Ok(
                LogEvent {
                    message: message.clone(),
                    timestamp: Timestamp::from_epoch_millis(*ts),
                    stream_name: Option::Some(stream_name.clone()),
                },
            ),
            _ => Result::Err(Error::from_kind(ErrorKind::MalformedRecord)),
        }
    }

    /// Normalizes one filtered-mode record; the stream name is taken from
    /// the record itself and may be absent.
    pub fn from_filtered(ev: &RawFilteredEvent) -> (r: Result<LogEvent, Error>)
        ensures
            match r {
                Result::Ok(e) => spec_filtered_event_ok(*ev) && e@ == spec_filtered_event(*ev),
                Result::Err(e) => !spec_filtered_event_ok(*ev) && e.spec_kind()
                    == ErrorKind::MalformedRecord,
            },
    {
        match (&ev.message, &ev.timestamp) {
            (Option::Some(message), Option::Some(ts)) => Result::Ok(
                LogEvent {
                    message: message.clone(),
                    timestamp: Timestamp::from_epoch_millis(*ts),
                    stream_name: clone_opt_string(&ev.log_stream_name),
                },
            ),
            _ => Result::Err(Error::from_kind(ErrorKind::MalformedRecord)),
        }
    }
}

/// Normalization is a function of the raw record alone: converting the same
/// sequential-mode record twice, with the same configured stream, yields
/// identical event values — message, timestamp and source stream all equal.
pub proof fn lemma_sequential_normalization_idempotent(
    ev: RawSequentialEvent,
    stream: Seq<char>,
    a: LogEventModel,
    b: LogEventModel,
)
    requires
        a == spec_sequential_event(ev, stream),
        b == spec_sequential_event(ev, stream),
    ensures
        a.message == b.message,
        a.timestamp_millis == b.timestamp_millis,
        a.stream_name == b.stream_name,
{
}

/// Normalization is a function of the raw record alone: converting the same
/// filtered-mode record twice yields identical event values — message,
/// timestamp and source stream all equal.
pub proof fn lemma_filtered_normalization_idempotent(
    ev: RawFilteredEvent,
    a: LogEventModel,
    b: LogEventModel,
)
    requires
        a == spec_filtered_event(ev),
        b == spec_filtered_event(ev),
    ensures
        a.message == b.message,
        a.timestamp_millis == b.timestamp_millis,
        a.stream_name == b.stream_name,
{
}

fn clone_opt_string(o: &Option<String>) -> (r: Option<String>)
    ensures
        spec_opt_text(r) == spec_opt_text(*o),
{
    match o {
        Option::Some(s) => Option::Some(s.clone()),
        Option::None => Option::None,
    }
}

pub open spec fn spec_raw_sequential_events(page: RawSequentialPage) -> Seq<RawSequentialEvent> {
    match page.events {
        Option::Some(v) => v@,
        Option::None => Seq::empty(),
    }
}

pub open spec fn spec_sequential_page_ok(page: RawSequentialPage) -> bool {
    forall|i: int|
        0 <= i < spec_raw_sequential_events(page).len() ==> spec_sequential_event_ok(
            #[trigger] spec_raw_sequential_events(page)[i],
        )
}

pub open spec fn spec_sequential_page(page: RawSequentialPage, stream: Seq<char>) -> PageModel {
    PageModel {
        events: spec_raw_sequential_events(page).map_values(
            |e: RawSequentialEvent| spec_sequential_event(e, stream),
        ),
        next_token: spec_opt_text(page.next_forward_token),
    }
}

pub open spec fn spec_raw_filtered_events(page: RawFilteredPage) -> Seq<RawFilteredEvent> {
    match page.events {
        Option::Some(v) => v@,
        Option::None => Seq::empty(),
    }
}

pub open spec fn spec_filtered_page_ok(page: RawFilteredPage) -> bool {
    forall|i: int|
        0 <= i < spec_raw_filtered_events(page).len() ==> spec_filtered_event_ok(
            #[trigger] spec_raw_filtered_events(page)[i],
        )
}

pub open spec fn spec_filtered_page(page: RawFilteredPage) -> PageModel {
    PageModel {
        events: spec_raw_filtered_events(page).map_values(
            |e: RawFilteredEvent| spec_filtered_event(e),
        ),
        next_token: spec_opt_text(page.next_token),
    }
}

impl LogEventsResponse {
    /// Normalizes one raw sequential-mode page, or rejects the whole page as
    /// malformed if any record lacks a required field.
    pub fn from_sequential_page(page: RawSequentialPage, stream_name: &String) -> (r: Result<
        LogEventsResponse,
        Error,
    >)
        ensures
            match r {
                Result::Ok(resp) => spec_sequential_page_ok(page) && resp@ == spec_sequential_page(
                    page,
                    stream_name@,
                ),
                Result::Err(e) => !spec_sequential_page_ok(page) && e.spec_kind()
                    == ErrorKind::MalformedRecord,
            },
    {
        let empty: Vec<RawSequentialEvent> = Vec::new();
        let evs: &Vec<RawSequentialEvent> = match &page.events {
            Option::Some(v) => v,
            Option::None => &empty,
        };
        proof {
            assert(evs@ =~= spec_raw_sequential_events(page));
        }
        let mut out: Vec<LogEvent> = Vec::new();
        let mut i: usize = 0;
        while i < evs.len()
            invariant
                i <= evs.len(),
                evs@ == spec_raw_sequential_events(page),
                out@.len() == i,
                forall|j: int|
                    0 <= j < i ==> spec_sequential_event_ok(#[trigger] evs@[j]) && out@[j]@
                        == spec_sequential_event(evs@[j], stream_name@),
            decreases evs.len() - i,
        {
            match LogEvent::from_sequential(&evs[i], stream_name) {
                Result::Ok(e) => {
                    out.push(e);
                },
                Result::Err(err) => {
                    proof {
                        assert(!spec_sequential_event_ok(spec_raw_sequential_events(page)[
                        i as int]));
                        assert(!spec_sequential_page_ok(page));
                    }
                    return Result::Err(err);
                },
            }
            i = i + 1;
        }
        let resp = LogEventsResponse { events: out, next_token: clone_opt_string(&page.next_forward_token) };
        proof {
            assert(resp@.events =~= spec_sequential_page(page, stream_name@).events);
            assert(resp@ == spec_sequential_page(page, stream_name@));
        }
        Result::Ok(resp)
    }

    /// Normalizes one raw filtered-mode page, or rejects the whole page as
    /// malformed if any record lacks a required field.
    pub fn from_filtered_page(page: RawFilteredPage) -> (r: Result<LogEventsResponse, Error>)
        ensures
            match r {
                Result::Ok(resp) => spec_filtered_page_ok(page) && resp@ == spec_filtered_page(
                    page,
                ),
                Result::Err(e) => !spec_filtered_page_ok(page) && e.spec_kind()
                    == ErrorKind::MalformedRecord,
            },
    {
        let empty: Vec<RawFilteredEvent> = Vec::new();
        let evs: &Vec<RawFilteredEvent> = match &page.events {
            Option::Some(v) => v,
            Option::None => &empty,
        };
        proof {
            assert(evs@ =~= spec_raw_filtered_events(page));
        }
        let mut out: Vec<LogEvent> = Vec::new();
        let mut i: usize = 0;
        while i < evs.len()
            invariant
                i <= evs.len(),
                evs@ == spec_raw_filtered_events(page),
                out@.len() == i,
                forall|j: int|
                    0 <= j < i ==> spec_filtered_event_ok(#[trigger] evs@[j]) && out@[j]@
                        == spec_filtered_event(evs@[j]),
            decreases evs.len() - i,
        {
            match LogEvent::from_filtered(&evs[i]) {
                Result::Ok(e) => {
                    out.push(e);
                },
                Result::Err(err) => {
                    proof {
                        assert(!spec_filtered_event_ok(spec_raw_filtered_events(page)[i as int]));
                        assert(!spec_filtered_page_ok(page));
                    }
                    return Result::Err(err);
                },
            }
            i = i + 1;
        }
        let resp = LogEventsResponse { events: out, next_token: clone_opt_string(&page.next_token) };
        proof {
            assert(resp@.events =~= spec_filtered_page(page).events);
            assert(resp@ == spec_filtered_page(page));
        }
        Result::Ok(resp)
    }
}

/// Configuration of the sequential query mode: each page request reads the
/// one named stream forward from the continuation token.
#[derive(Debug)]
pub struct GetLogEventsReader {
    pub group_name: String,
    pub stream_name: String,
    pub request: LogEventsRequest,
}

/// The wire parameters of one sequential-mode page request.
#[derive(Debug)]
pub struct SequentialPageRequest {
    pub log_group_name: String,
    pub log_stream_name: String,
    pub start_time: Option<i64>,
    pub end_time: Option<i64>,
    pub next_token: Option<String>,
}

impl GetLogEventsReader {
    /// The wire request for one page of the sequential mode.
    pub fn build_request(&self, next_token: Option<String>) -> (r: SequentialPageRequest)
        ensures
            r.log_group_name@ == self.group_name@,
            r.log_stream_name@ == self.stream_name@,
            spec_opt_i64(r.start_time) == spec_opt_millis(self.request.start_time),
            spec_opt_i64(r.end_time) == spec_opt_millis(self.request.end_time),
            spec_opt_text(r.next_token) == spec_opt_text(next_token),
    {
        SequentialPageRequest {
            log_group_name: self.group_name.clone(),
            log_stream_name: self.stream_name.clone(),
            start_time: self.request.start_time_value(),
            end_time: self.request.end_time_value(),
            next_token,
        }
    }
}

/// Configuration of the filtered query mode: each page request searches the
/// group, optionally narrowed to named streams, for records matching the
/// filter expression the backend evaluates server-side.
#[derive(Debug)]
pub struct FilterLogEventsReader {
    pub group_name: String,
    pub stream_names: Option<Vec<String>>,
    pub filter_expression: String,
    pub request: LogEventsRequest,
}

/// The wire parameters of one filtered-mode page request.
#[derive(Debug)]
pub struct FilteredPageRequest {
    pub log_group_name: String,
    pub log_stream_names: Option<Vec<String>>,
    pub filter_pattern: Option<String>,
    pub start_time: Option<i64>,
    pub end_time: Option<i64>,
    pub next_token: Option<String>,
}

pub open spec fn spec_opt_names(o: Option<Vec<String>>) -> Option<Seq<Seq<char>>> {
    match o {
        Option::Some(v) => Option::Some(v@.map_values(|s: String| s@)),
        Option::None => Option::None,
    }
}

fn clone_opt_names(o: &Option<Vec<String>>) -> (r: Option<Vec<String>>)
    ensures
        spec_opt_names(r) == spec_opt_names(*o),
{
    match o {
        Option::None => Option::None,
        Option::Some(v) => {
            let mut out: Vec<String> = Vec::new();
            let mut i: usize = 0;
            while i < v.len()
                invariant
                    i <= v.len(),
                    out@.len() == i,
                    forall|j: int| 0 <= j < i ==> (#[trigger] out@[j])@ == v@[j]@,
                decreases v.len() - i,
            {
                out.push(v[i].clone());
                i = i + 1;
            }
            proof {
                assert(out@.map_values(|s: String| s@) =~= v@.map_values(|s: String| s@));
            }
            Option::Some(out)
        },
    }
}

impl FilterLogEventsReader {
    /// The wire request for one page of the filtered mode.
    pub fn build_request(&self, next_token: Option<String>) -> (r: FilteredPageRequest)
        ensures
            r.log_group_name@ == self.group_name@,
            spec_opt_names(r.log_stream_names) == spec_opt_names(self.stream_names),
            r.filter_pattern is Some && (r.filter_pattern->0)@ == self.filter_expression@,
            spec_opt_i64(r.start_time) == spec_opt_millis(self.request.start_time),
            spec_opt_i64(r.end_time) == spec_opt_millis(self.request.end_time),
            spec_opt_text(r.next_token) == spec_opt_text(next_token),
    {
        FilteredPageRequest {
            log_group_name: self.group_name.clone(),
            log_stream_names: clone_opt_names(&self.stream_names),
            filter_pattern: Option::Some(self.filter_expression.clone()),
            start_time: self.request.start_time_value(),
            end_time: self.request.end_time_value(),
            next_token,
        }
    }
}

/// The query mode chosen for one run: a closed pair of variants rather than
/// open-ended dispatch, since exactly these two modes exist.
#[derive(Debug)]
pub enum ReaderChoice {
    Sequential(GetLogEventsReader),
    Filtered(FilterLogEventsReader),
}

/// Chooses the query mode from the options. A filter expression selects the
/// filtered search even when a stream name is also supplied; without one the
/// sequential read needs its mandatory stream name, whose absence is a
/// configuration error raised before any remote call.
pub fn select_reader(options: &GetOptions) -> (r: Result<ReaderChoice, Error>)
    ensures
        match r {
            Result::Ok(choice) => match choice {
                ReaderChoice::Filtered(f) => {
                    &&& options.filter_expression is Some
                    &&& f.group_name@ == options.group_name@
                    &&& f.stream_names is None
                    &&& f.filter_expression@ == (options.filter_expression->0)@
                    &&& f.request.start_time == options.start_time
                    &&& f.request.end_time == options.end_time
                },
                ReaderChoice::Sequential(g) => {
                    &&& options.filter_expression is None
                    &&& options.stream_name is Some
                    &&& g.group_name@ == options.group_name@
                    &&& g.stream_name@ == (options.stream_name->0)@
                    &&& g.request.start_time == options.start_time
                    &&& g.request.end_time == options.end_time
                },
            },
            Result::Err(e) => {
                &&& options.filter_expression is None
                &&& options.stream_name is None
                &&& e.spec_kind() == ErrorKind::InsufficientArguments
                &&& e.spec_message() == "Need to specify '--stream' when omit '--filter-expression'"@
            },
        },
{
    let request = LogEventsRequest { start_time: options.start_time, end_time: options.end_time };
    match &options.filter_expression {
        Option::Some(filter) => Result::Ok(
            ReaderChoice::Filtered(
                FilterLogEventsReader {
                    group_name: options.group_name.clone(),
                    stream_names: Option::None,
                    filter_expression: filter.clone(),
                    request,
                },
            ),
        ),
        Option::None => match &options.stream_name {
            Option::Some(stream) => Result::Ok(
                ReaderChoice::Sequential(
                    GetLogEventsReader {
                        group_name: options.group_name.clone(),
                        stream_name: stream.clone(),
                        request,
                    },
                ),
            ),
            Option::None => Result::Err(
                Error::new(
                    ErrorKind::InsufficientArguments,
                    "Need to specify '--stream' when omit '--filter-expression'".to_owned(),
                ),
            ),
        },
    }
}

} // verus!
