//! The streaming session: one reply, retrieved fragment by fragment, raced
//! against the two ways of calling it off.
//!
//! Three things can end a session, and the first to happen decides: the
//! exchange with the provider ends, the abort signal is found set, or the
//! process is interrupted. What comes after the end changes nothing.

use crate::client::common::{
    answer_context, answer_failure, TransportFailure, TransportFailureView,
};
use crate::render::{events_of, ReplyEvent, ReplyEventView};
use crate::utils::abort_signal::{state_after, AbortRequest, AbortSignal, AbortState};
use crate::utils::text::{concat_all, views_of};
use crate::utils::tokens::{lemma_tokens_of, token_count, tokenize, tokens_of};
use vstd::prelude::*;

verus! {

/// Milliseconds between two looks at the abort signal.
pub const ABORT_POLL_MILLIS: u64 = 100;

/// Milliseconds before each fragment of a dry run.
pub const DRY_RUN_DELAY_MILLIS: u64 = 25;

/// What happens to a session.
#[derive(Debug, PartialEq, Eq)]
pub enum SessionInput {
    /// The provider sent a fragment of the reply.
    Fragment(String),
    /// The exchange with the provider ended, well or with what went wrong.
    Retrieved(Result<(), String>),
    /// The abort signal was looked at.
    AbortPolled,
    /// The process was interrupted.
    Interrupted,
}

/// What happens to a session, with texts as sequences of characters.
pub enum SessionInputView {
    Fragment(Seq<char>),
    Retrieved(Result<(), Seq<char>>),
    AbortPolled,
    Interrupted,
}

impl View for SessionInput {
    type V = SessionInputView;

    open spec fn view(&self) -> SessionInputView {
        match self {
            SessionInput::Fragment(text) => SessionInputView::Fragment(text@),
            SessionInput::Retrieved(Ok(())) => SessionInputView::Retrieved(Ok(())),
            SessionInput::Retrieved(Err(cause)) => SessionInputView::Retrieved(Err(cause@)),
            SessionInput::AbortPolled => SessionInputView::AbortPolled,
            SessionInput::Interrupted => SessionInputView::Interrupted,
        }
    }
}

/// What a session does about one input.
#[derive(Debug, PartialEq, Eq)]
pub struct SessionStep {
    /// The event to hand to the renderer, if any. `Done` is the renderer's
    /// completion notice.
    pub event: Option<ReplyEvent>,
    /// How the session ended, if this input ended it.
    pub outcome: Option<Result<(), TransportFailure>>,
}

/// One step of a session as plain values.
pub struct Transition {
    /// The event for the renderer.
    pub event: Option<ReplyEventView>,
    /// The session's result where the step ends it.
    pub outcome: Option<Result<(), TransportFailureView>>,
    /// Whether the session is over after the step.
    pub finished: bool,
    /// The abort signal after the step.
    pub abort: AbortState,
}

/// What a session does about an input, given whether it is over already and
/// what the abort signal reports.
///
/// A fragment is passed on as text. The end of the exchange notifies the
/// renderer and ends the session with the exchange's result, a failure under
/// the context of a request for an answer. An abort signal
/// found set notifies the renderer too and ends the session well; found
/// running, it changes nothing. An interrupt sets the signal and ends the
/// session well without notifying the renderer. A session that is over does
/// nothing.
pub open spec fn transition(finished: bool, input: SessionInputView, abort: AbortState) -> Transition {
    if finished {
        Transition { event: None, outcome: None, finished: true, abort }
    } else {
        match input {
            SessionInputView::Fragment(text) => Transition {
                event: Some(ReplyEventView::Text(text)),
                outcome: None,
                finished: false,
                abort,
            },
            SessionInputView::Retrieved(result) => Transition {
                event: Some(ReplyEventView::Done),
                outcome: Some(
                    match result {
                        Ok(()) => Ok(()),
                        Err(cause) => Err(
                            TransportFailureView { context: answer_context(), cause },
                        ),
                    },
                ),
                finished: true,
                abort,
            },
            SessionInputView::AbortPolled => if abort != AbortState::Running {
                Transition {
                    event: Some(ReplyEventView::Done),
                    outcome: Some(Ok(())),
                    finished: true,
                    abort,
                }
            } else {
                Transition { event: None, outcome: None, finished: false, abort }
            },
            SessionInputView::Interrupted => Transition {
                event: None,
                outcome: Some(Ok(())),
                finished: true,
                abort: state_after(abort, AbortRequest::CtrlC),
            },
        }
    }
}

/// The view of an optional event.
pub open spec fn event_of(event: Option<ReplyEvent>) -> Option<ReplyEventView> {
    match event {
        Some(e) => Some(e@),
        None => None,
    }
}

/// The view of an optional outcome.
pub open spec fn outcome_of(outcome: Option<Result<(), TransportFailure>>) -> Option<
    Result<(), TransportFailureView>,
> {
    match outcome {
        Some(Ok(())) => Some(Ok(())),
        Some(Err(failure)) => Some(Err(failure@)),
        None => None,
    }
}

/// A streaming session.
#[derive(Debug, PartialEq, Eq)]
pub struct Session {
    finished: bool,
}

impl View for Session {
    type V = bool;

    /// Whether the session is over.
    closed spec fn view(&self) -> bool {
        self.finished
    }
}

impl Session {
    /// A session that has not ended.
    pub fn new() -> (session: Self)
        ensures
            !session@,
    {
        Session { finished: false }
    }

    /// Whether the session is over.
    pub fn is_finished(&self) -> (finished: bool)
        ensures
            finished == self@,
    {
        self.finished
    }

    /// Takes one input and says what to do about it.
    pub fn step(&mut self, input: SessionInput, abort: &mut AbortSignal) -> (step: SessionStep)
        ensures
            event_of(step.event) == transition(old(self)@, input@, old(abort)@).event,
            outcome_of(step.outcome) == transition(old(self)@, input@, old(abort)@).outcome,
            final(self)@ == transition(old(self)@, input@, old(abort)@).finished,
            final(abort)@ == transition(old(self)@, input@, old(abort)@).abort,
    {
        if self.finished {
            return SessionStep { event: None, outcome: None };
        }
        match input {
            SessionInput::Fragment(text) => SessionStep {
                event: Some(ReplyEvent::Text(text)),
                outcome: None,
            },
            SessionInput::Retrieved(result) => {
                self.finished = true;
                let outcome = match result {
                    Ok(()) => Ok(()),
                    Err(cause) => Err(answer_failure(cause)),
                };
                SessionStep { event: Some(ReplyEvent::Done), outcome: Some(outcome) }
            },
            SessionInput::AbortPolled => {
                if abort.aborted() {
                    self.finished = true;
                    SessionStep { event: Some(ReplyEvent::Done), outcome: Some(Ok(())) }
                } else {
                    SessionStep { event: None, outcome: None }
                }
            },
            SessionInput::Interrupted => {
                self.finished = true;
                abort.set_ctrlc();
                SessionStep { event: None, outcome: Some(Ok(())) }
            },
        }
    }
}

/// An input together with what the abort signal reported when it came.
pub type Observation = (SessionInputView, AbortState);

/// Whether a session that started fresh is over after the observations.
pub open spec fn finished_after(observations: Seq<Observation>) -> bool
    decreases observations.len(),
{
    if observations.len() == 0 {
        false
    } else {
        transition(
            finished_after(observations.drop_last()),
            observations.last().0,
            observations.last().1,
        ).finished
    }
}

/// The events that a session that started fresh has handed to the renderer
/// after the observations, in order.
pub open spec fn events_after(observations: Seq<Observation>) -> Seq<ReplyEventView>
    decreases observations.len(),
{
    if observations.len() == 0 {
        Seq::empty()
    } else {
        let before = events_after(observations.drop_last());
        match transition(
            finished_after(observations.drop_last()),
            observations.last().0,
            observations.last().1,
        ).event {
            Some(event) => before.push(event),
            None => before,
        }
    }
}

/// Whatever happens to a session, and whatever the abort signal reports along
/// the way, the renderer is handed texts and then at most one completion
/// notice, with nothing after it; and a session still going has handed out
/// texts only.
pub proof fn lemma_event_protocol(observations: Seq<Observation>)
    ensures
        forall|i: int|
            0 <= i < events_after(observations).len() && events_after(observations)[i]
                is Done ==> i == events_after(observations).len() - 1,
        !finished_after(observations) ==> forall|i: int|
            0 <= i < events_after(observations).len() ==> events_after(observations)[i] is Text,
    decreases observations.len(),
{
    if observations.len() > 0 {
        lemma_event_protocol(observations.drop_last());
    }
}

/// A session that finds the abort signal set ends well and notifies the
/// renderer; one that is interrupted ends well, leaves the signal set, and
/// does not notify the renderer.
pub proof fn lemma_abort_paths(abort: AbortState)
    ensures
        abort != AbortState::Running ==> {
            let found = transition(false, SessionInputView::AbortPolled, abort);
            &&& found.event == Some(ReplyEventView::Done)
            &&& found.outcome == Some(Ok::<(), TransportFailureView>(()))
            &&& found.finished
            &&& found.abort == abort
        },
        ({
            let interrupted = transition(false, SessionInputView::Interrupted, abort);
            &&& interrupted.event is None
            &&& interrupted.outcome == Some(Ok::<(), TransportFailureView>(()))
            &&& interrupted.finished
            &&& interrupted.abort != AbortState::Running
        }),
{
}

/// The texts as events, in order.
pub open spec fn text_events(texts: Seq<Seq<char>>) -> Seq<ReplyEventView> {
    texts.map_values(|text: Seq<char>| ReplyEventView::Text(text))
}

/// The events of a dry run that nothing calls off: the echoed content comes
/// back token by token, in order, and one completion notice follows. The
/// texts of the events put together are the echoed content.
pub fn dry_run_events(echoed: &str) -> (events: Vec<ReplyEvent>)
    ensures
        events_of(events@) == text_events(tokens_of(echoed@)).push(ReplyEventView::Done),
        concat_all(tokens_of(echoed@)) == echoed@,
        events.len() == token_count(echoed@) + 1,
{
    let tokens = tokenize(echoed);
    let mut session = Session::new();
    let mut abort = AbortSignal::new();
    let mut events: Vec<ReplyEvent> = Vec::new();
    let mut i: usize = 0;
    while i < tokens.len()
        invariant
            i <= tokens.len(),
            views_of(tokens@) == tokens_of(echoed@),
            !session@,
            events_of(events@) == text_events(tokens_of(echoed@).take(i as int)),
        decreases tokens.len() - i,
    {
        let ghost before = events_of(events@);
        let step = session.step(SessionInput::Fragment(tokens[i].clone()), &mut abort);
        match step.event {
            Some(event) => {
                events.push(event);
            },
            None => {},
        }
        proof {
            let token = tokens@[i as int]@;
            assert(views_of(tokens@)[i as int] == token);
            assert(events_of(events@) =~= before.push(ReplyEventView::Text(token)));
            assert(tokens_of(echoed@).take(i + 1) =~= tokens_of(echoed@).take(i as int).push(
                token,
            ));
            assert(events_of(events@) =~= text_events(tokens_of(echoed@).take(i + 1)));
        }
        i = i + 1;
    }
    let ghost texts = events_of(events@);
    let step = session.step(SessionInput::Retrieved(Ok(())), &mut abort);
    match step.event {
        Some(event) => {
            events.push(event);
        },
        None => {},
    }
    proof {
        assert(tokens_of(echoed@).take(tokens.len() as int) =~= tokens_of(echoed@));
        assert(events_of(events@) =~= texts.push(ReplyEventView::Done));
        lemma_tokens_of(echoed@);
    }
    events
}

} // verus!
