use vstd::prelude::*;

use crate::errors::Error;
use crate::printer::Printer;
use crate::reader::LogEventsReader;
use crate::stream::{spec_request_token, LogEventsStream, StateModel};

verus! {

/// Drives one run to completion: drains the stream strictly in order,
/// forwarding each page's events to the sink before requesting the next
/// page, so at most one page is ever in flight and nothing is buffered
/// beyond the current page.
pub struct OneShotRunner {}

impl Default for OneShotRunner {
    fn default() -> (r: Self)
        ensures
            r == (OneShotRunner {  }),
    {
        OneShotRunner {  }
    }
}

impl OneShotRunner {
    /// Consumes the stream page by page, handing each page's events to the
    /// sink. Stops at the first page-retrieval error and returns it — the
    /// very failure the stream records, kind and message unchanged;
    /// otherwise returns success once the stream reports exhaustion, so a
    /// stream with nothing left to ask always yields success. Either way the
    /// stream is exhausted afterwards and will issue no further request.
    pub fn run<R: LogEventsReader, P: Printer>(
        &self,
        log_events: &mut LogEventsStream<R>,
        printer: P,
    ) -> (r: Result<(), Error>)
        requires
            old(log_events).wf(),
        ensures
            final(log_events).wf(),
            final(log_events)@ == StateModel::Exhausted,
            spec_request_token(old(log_events)@) is None ==> r is Ok,
            match r {
                Result::Ok(_) => final(log_events).spec_failure() == old(
                    log_events,
                ).spec_failure(),
                Result::Err(e) => {
                    &&& old(log_events).spec_failure() is None
                    &&& final(log_events).spec_failure() == Option::Some(
                        (e.spec_kind(), e.spec_message()),
                    )
                },
            },
    {
        loop
            invariant
                log_events.wf(),
                log_events.spec_failure() == old(log_events).spec_failure(),
                spec_request_token(old(log_events)@) is None ==> spec_request_token(
                    log_events@,
                ) is None,
            decreases u64::MAX - log_events.spec_pages_yielded(),
        {
            match log_events.next_page() {
                Option::None => {
                    return Result::Ok(());
                },
                Option::Some(Result::Ok(page)) => {
                    printer.print_events(&page.events);
                },
                Option::Some(Result::Err(e)) => {
                    return Result::Err(e);
                },
            }
        }
    }
}

} // verus!
