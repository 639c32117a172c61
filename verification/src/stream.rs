use vstd::prelude::*;

use crate::errors::{Error, ErrorKind};
use crate::event::{spec_opt_text, LogEventsResponse};
use crate::reader::LogEventsReader;

verus! {

/// The mathematical value of the pagination state.
pub enum StateModel {
    Initial,
    Active(Option<Seq<char>>),
    Exhausted,
}

/// The state of the pagination state machine: no request issued yet, a page
/// returned carrying this token, or no further requests will be issued. Once
/// `Exhausted` the state never transitions again: a stream is a one-shot,
/// non-restartable sequence, and a fresh run needs a fresh stream.
#[derive(Debug)]
pub enum PaginationState {
    Initial,
    Active(Option<String>),
    Exhausted,
}

impl View for PaginationState {
    type V = StateModel;

    open spec fn view(&self) -> StateModel {
        match self {
            PaginationState::Initial => StateModel::Initial,
            PaginationState::Active(t) => StateModel::Active(spec_opt_text(*t)),
            PaginationState::Exhausted => StateModel::Exhausted,
        }
    }
}

/// Whether a response carrying token `next`, answering a request that sent
/// `sent`, continues the stream. An absent token ends it, and so does an
/// echo of the token just sent: these backends disambiguate "end of
/// available data" by echoing the request's own token rather than by an
/// explicit marker. A present token can never echo the absent token of the
/// first request, so the first response continues whenever it carries one —
/// even an empty one.
pub open spec fn spec_continues(sent: Option<Seq<char>>, next: Option<Seq<char>>) -> bool {
    match next {
        Option::Some(n) => match sent {
            Option::Some(s) => n != s,
            Option::None => true,
        },
        Option::None => false,
    }
}

/// The state after a page carrying token `next` answered a request that sent
/// `sent`.
pub open spec fn spec_step(sent: Option<Seq<char>>, next: Option<Seq<char>>) -> StateModel {
    if spec_continues(sent, next) {
        StateModel::Active(next)
    } else {
        StateModel::Exhausted
    }
}

/// What a state asks for next: `Some(t)` means one request carrying the
/// optional token `t`; `None` means the stream is over and no request is
/// issued.
pub open spec fn spec_request_token(s: StateModel) -> Option<Option<Seq<char>>> {
    match s {
        StateModel::Initial => Option::Some(Option::None),
        StateModel::Active(t) => if t is Some {
            Option::Some(t)
        } else {
            Option::None
        },
        StateModel::Exhausted => Option::None,
    }
}

/// The token sent in request number `i` (counting from zero) of a run whose
/// first request sent `sent0` and whose responses carried the tokens of
/// `toks`: every later request carries the token of the response before it.
pub open spec fn spec_sent_at(
    sent0: Option<Seq<char>>,
    toks: Seq<Option<Seq<char>>>,
    i: int,
) -> Option<Seq<char>> {
    if i == 0 {
        sent0
    } else {
        toks[i - 1]
    }
}

/// The number of pages the stream yields when its first request sends
/// `sent0` and the successive responses carry the tokens of `toks`, one
/// entry per request issued, in order.
pub open spec fn spec_pages_from(sent0: Option<Seq<char>>, toks: Seq<Option<Seq<char>>>) -> nat
    decreases toks.len(),
{
    if toks.len() == 0 {
        0
    } else if spec_continues(sent0, toks[0]) {
        (1 + spec_pages_from(toks[0], toks.drop_first())) as nat
    } else {
        1
    }
}

/// As long as each response carries a fresh token, the stream keeps going;
/// the first response that does not continue — by echoing the token just
/// sent or by carrying none — ends it, so exactly `n` pages come out.
pub proof fn lemma_stream_yields_exactly(
    sent0: Option<Seq<char>>,
    toks: Seq<Option<Seq<char>>>,
    n: int,
)
    requires
        1 <= n <= toks.len(),
        forall|i: int|
            0 <= i < n - 1 ==> spec_continues(spec_sent_at(sent0, toks, i), #[trigger] toks[i]),
        !spec_continues(spec_sent_at(sent0, toks, n - 1), toks[n - 1]),
    ensures
        spec_pages_from(sent0, toks) == n,
    decreases n,
{
    if n == 1 {
        assert(spec_pages_from(sent0, toks) == 1);
    } else {
        assert(spec_continues(spec_sent_at(sent0, toks, 0), toks[0]));
        let toks2 = toks.drop_first();
        assert forall|i: int| 0 <= i < n - 2 implies spec_continues(
            spec_sent_at(toks[0], toks2, i),
            #[trigger] toks2[i],
        ) by {
            assert(toks2[i] == toks[i + 1]);
            assert(spec_sent_at(toks[0], toks2, i) == spec_sent_at(sent0, toks, i + 1));
            assert(spec_continues(spec_sent_at(sent0, toks, i + 1), toks[i + 1]));
        }
        assert(toks2[n - 2] == toks[n - 1]);
        assert(spec_sent_at(toks[0], toks2, n - 2) == spec_sent_at(sent0, toks, n - 1));
        lemma_stream_yields_exactly(toks[0], toks2, n - 1);
    }
}

/// Termination on echo: when the `n`th request sent a token and the `n`th
/// response's token equals it (and every earlier response carried a fresh
/// token), the stream yields exactly `n` pages, the state after the `n`th
/// page is `Exhausted`, and an exhausted state issues no request.
pub proof fn lemma_termination_on_echo(
    sent0: Option<Seq<char>>,
    toks: Seq<Option<Seq<char>>>,
    n: int,
)
    requires
        1 <= n <= toks.len(),
        forall|i: int|
            0 <= i < n - 1 ==> spec_continues(spec_sent_at(sent0, toks, i), #[trigger] toks[i]),
        spec_sent_at(sent0, toks, n - 1) is Some,
        toks[n - 1] == spec_sent_at(sent0, toks, n - 1),
    ensures
        spec_pages_from(sent0, toks) == n,
        spec_step(spec_sent_at(sent0, toks, n - 1), toks[n - 1]) == StateModel::Exhausted,
        spec_request_token(StateModel::Exhausted) is None,
{
    lemma_stream_yields_exactly(sent0, toks, n);
}

/// Termination on absence: a response with no continuation token always
/// ends the stream after its own page, whatever the token history was.
pub proof fn lemma_termination_on_absent_token(
    sent0: Option<Seq<char>>,
    toks: Seq<Option<Seq<char>>>,
    n: int,
)
    requires
        1 <= n <= toks.len(),
        forall|i: int|
            0 <= i < n - 1 ==> spec_continues(spec_sent_at(sent0, toks, i), #[trigger] toks[i]),
        toks[n - 1] is None,
    ensures
        spec_pages_from(sent0, toks) == n,
        spec_step(spec_sent_at(sent0, toks, n - 1), toks[n - 1]) == StateModel::Exhausted,
        spec_request_token(StateModel::Exhausted) is None,
{
    lemma_stream_yields_exactly(sent0, toks, n);
}

/// The state a fresh stream reaches after its responses carried the tokens
/// of `toks`, in order: each response steps the machine by the token its
/// own request sent.
pub open spec fn spec_state_after(toks: Seq<Option<Seq<char>>>) -> StateModel
    decreases toks.len(),
{
    if toks.len() == 0 {
        StateModel::Initial
    } else {
        match spec_request_token(spec_state_after(toks.drop_last())) {
            Option::Some(sent) => spec_step(sent, toks.last()),
            Option::None => StateModel::Exhausted,
        }
    }
}

/// While every response continues the stream, the state after `k` pages is
/// `Active` with the `k`th response's token (or `Initial` before any page),
/// so the next request carries exactly the token of the response before it.
pub proof fn lemma_state_after_continuing(toks: Seq<Option<Seq<char>>>, k: int)
    requires
        0 <= k <= toks.len(),
        forall|i: int|
            0 <= i < k ==> spec_continues(spec_sent_at(Option::None, toks, i), #[trigger] toks[i]),
    ensures
        spec_state_after(toks.subrange(0, k)) == (if k == 0 {
            StateModel::Initial
        } else {
            StateModel::Active(toks[k - 1])
        }),
    decreases k,
{
    if k > 0 {
        lemma_state_after_continuing(toks, k - 1);
        let pre = toks.subrange(0, k);
        assert(pre.drop_last() =~= toks.subrange(0, k - 1));
        assert(pre.last() == toks[k - 1]);
        if k == 1 {
            assert(spec_continues(spec_sent_at(Option::None, toks, 0), toks[0]));
        } else {
            assert(spec_continues(spec_sent_at(Option::None, toks, k - 2), toks[k - 2]));
            assert(spec_continues(spec_sent_at(Option::None, toks, k - 1), toks[k - 1]));
            assert(toks[k - 2] is Some);
        }
    }
}

/// The full-run law at the level of the machine itself: when the responses
/// are a terminated script — every one before the last carried a fresh
/// token, the last did not — the machine ends `Exhausted`, exactly as many
/// pages come out as `spec_pages_from` counts, and no further request is
/// issued.
pub proof fn lemma_terminal_history_exhausts(toks: Seq<Option<Seq<char>>>, n: int)
    requires
        toks.len() == n,
        1 <= n,
        forall|i: int|
            0 <= i < n - 1 ==> spec_continues(
                spec_sent_at(Option::None, toks, i),
                #[trigger] toks[i],
            ),
        !spec_continues(spec_sent_at(Option::None, toks, n - 1), toks[n - 1]),
    ensures
        spec_state_after(toks) == StateModel::Exhausted,
        spec_pages_from(Option::None, toks) == n,
        spec_request_token(spec_state_after(toks)) is None,
{
    lemma_state_after_continuing(toks, n - 1);
    assert(toks.drop_last() =~= toks.subrange(0, n - 1));
    if n > 1 {
        assert(spec_continues(spec_sent_at(Option::None, toks, n - 2), toks[n - 2]));
        assert(toks[n - 2] is Some);
    }
    lemma_stream_yields_exactly(Option::None, toks, n);
}

/// The pagination stream: wraps a backend reader and hands out one page per
/// demand, driving the state machine above. Alongside the state it keeps the
/// count of yielded pages and, as ghost bookkeeping, the tokens their
/// responses carried, so that its contracts tie the concrete state to
/// `spec_state_after` over that history. A count of `u64::MAX` is treated
/// as exhaustion, so that every drain loop has a finite bound; no service
/// answers that many requests in one run.
pub struct LogEventsStream<R: LogEventsReader> {
    reader: R,
    state: PaginationState,
    pages_yielded: u64,
    history: Ghost<Seq<Option<Seq<char>>>>,
    failure: Ghost<Option<(ErrorKind, Seq<char>)>>,
}

/// Wraps a reader into a fresh stream, positioned before its first request.
pub fn create_log_events_stream<R: LogEventsReader>(reader: R) -> (s: LogEventsStream<R>)
    ensures
        s.wf(),
        s@ == StateModel::Initial,
        s.spec_pages_yielded() == 0,
        s.spec_history() == Seq::<Option<Seq<char>>>::empty(),
        s.spec_failure() is None,
{
    LogEventsStream {
        reader,
        state: PaginationState::Initial,
        pages_yielded: 0,
        history: Ghost(Seq::empty()),
        failure: Ghost(Option::None),
    }
}

impl<R: LogEventsReader> View for LogEventsStream<R> {
    type V = StateModel;

    closed spec fn view(&self) -> StateModel {
        self.state@
    }
}

impl<R: LogEventsReader> LogEventsStream<R> {
    pub closed spec fn spec_pages_yielded(&self) -> u64 {
        self.pages_yielded
    }

    /// The tokens carried by the responses of the pages yielded so far, in
    /// order.
    pub closed spec fn spec_history(&self) -> Seq<Option<Seq<char>>> {
        self.history@
    }

    /// The terminal failure of the stream: the kind and message of the one
    /// request error that ended it, if one did.
    pub closed spec fn spec_failure(&self) -> Option<(ErrorKind, Seq<char>)> {
        self.failure@
    }

    /// Validity of a stream: the page count matches its history; its state
    /// is the one that history leads to — or `Exhausted`, which a failed
    /// request and the page-count bound also force; and a recorded failure
    /// means the stream has been exhausted by it.
    pub closed spec fn wf(&self) -> bool {
        &&& self.pages_yielded as int == self.history@.len()
        &&& (self.state@ == spec_state_after(self.history@) || self.state@
            == StateModel::Exhausted)
        &&& (self.failure@ is Some ==> self.state@ == StateModel::Exhausted)
    }

    /// One step of the stream: issue the request the current state asks for
    /// and yield its outcome, or report exhaustion. Nothing is assumed of
    /// what the reader returns; whatever comes back, the state advances by
    /// `spec_step`, an error exhausts the stream and is recorded as its
    /// terminal failure, and after `None` no request was issued and none
    /// ever will be.
    pub fn next_page(&mut self) -> (r: Option<Result<LogEventsResponse, Error>>)
        requires
            old(self).wf(),
        ensures
            final(self).wf(),
            match r {
                Option::None => {
                    &&& spec_request_token(old(self)@) is None || old(self).spec_pages_yielded()
                        == u64::MAX
                    &&& final(self)@ == StateModel::Exhausted
                    &&& final(self).spec_pages_yielded() == old(self).spec_pages_yielded()
                    &&& final(self).spec_history() == old(self).spec_history()
                    &&& final(self).spec_failure() == old(self).spec_failure()
                },
                Option::Some(res) => {
                    &&& old(self).spec_pages_yielded() < u64::MAX
                    &&& spec_request_token(old(self)@) is Some
                    &&& old(self).spec_failure() is None
                    &&& match res {
                        Result::Ok(page) => {
                            &&& final(self)@ == spec_step(
                                spec_request_token(old(self)@)->0,
                                page@.next_token,
                            )
                            &&& final(self).spec_pages_yielded() == old(self).spec_pages_yielded()
                                + 1
                            &&& final(self).spec_history() == old(self).spec_history().push(
                                page@.next_token,
                            )
                            &&& final(self).spec_failure() is None
                        },
                        Result::Err(e) => {
                            &&& final(self)@ == StateModel::Exhausted
                            &&& final(self).spec_pages_yielded() == old(
                                self,
                            ).spec_pages_yielded()
                            &&& final(self).spec_history() == old(self).spec_history()
                            &&& final(self).spec_failure() == Option::Some(
                                (e.spec_kind(), e.spec_message()),
                            )
                        },
                    }
                },
            },
    {
        if self.pages_yielded == u64::MAX {
            self.state = PaginationState::Exhausted;
            return Option::None;
        }
        let issue: bool = match &self.state {
            PaginationState::Initial => true,
            PaginationState::Active(t) => t.is_some(),
            PaginationState::Exhausted => false,
        };
        if !issue {
            self.state = PaginationState::Exhausted;
            return Option::None;
        }
        let sent: Option<String> = match &self.state {
            PaginationState::Initial => Option::None,
            PaginationState::Active(t) => match t {
                Option::Some(s) => Option::Some(s.clone()),
                Option::None => Option::None,
            },
            PaginationState::Exhausted => Option::None,
        };
        let ghost sent_model = spec_opt_text(sent);
        proof {
            assert(spec_request_token(old(self)@) == Option::Some(sent_model));
        }
        let sent_again: Option<String> = match &sent {
            Option::Some(s) => Option::Some(s.clone()),
            Option::None => Option::None,
        };
        match self.reader.read_log_events(sent_again) {
            Result::Ok(page) => {
                let echoed: bool = match &page.next_token {
                    Option::Some(n) => match &sent {
                        Option::Some(s) => s.eq(n),
                        Option::None => false,
                    },
                    Option::None => false,
                };
                proof {
                    assert(page.next_token is Some ==> echoed == !spec_continues(
                        sent_model,
                        spec_opt_text(page.next_token),
                    ));
                    assert(old(self).spec_failure() is None);
                }
                let next_state = match &page.next_token {
                    Option::None => PaginationState::Exhausted,
                    Option::Some(n) => if echoed {
                        PaginationState::Exhausted
                    } else {
                        PaginationState::Active(Option::Some(n.clone()))
                    },
                };
                self.state = next_state;
                self.pages_yielded = self.pages_yielded + 1;
                self.history = Ghost(self.history@.push(spec_opt_text(page.next_token)));
                proof {
                    assert(self.state@ == spec_step(sent_model, spec_opt_text(page.next_token)));
                    assert(self.history@.drop_last() =~= old(self).spec_history());
                    assert(old(self).state@ == spec_state_after(old(self).spec_history()));
                    assert(spec_state_after(self.history@) == spec_step(
                        sent_model,
                        spec_opt_text(page.next_token),
                    ));
                }
                Option::Some(Result::Ok(page))
            },
            Result::Err(e) => {
                self.state = PaginationState::Exhausted;
                self.failure = Ghost(Option::Some((e.spec_kind(), e.spec_message())));
                Option::Some(Result::Err(e))
            },
        }
    }
}

} // verus!
