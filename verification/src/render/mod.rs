//! Live rendering of a streamed reply.

pub mod repl;

use vstd::prelude::*;

verus! {

/// What the reply session hands to the renderer: a fragment of text, or the
/// notice that the reply is complete.
#[derive(Debug, Clone, PartialEq, Eq)]
pub enum ReplyEvent {
    Text(String),
    Done,
}

/// A reply event with its text as a sequence of characters.
pub enum ReplyEventView {
    Text(Seq<char>),
    Done,
}

impl View for ReplyEvent {
    type V = ReplyEventView;

    open spec fn view(&self) -> ReplyEventView {
        match self {
            ReplyEvent::Text(text) => ReplyEventView::Text(text@),
            ReplyEvent::Done => ReplyEventView::Done,
        }
    }
}

/// The views of a sequence of reply events, in order.
pub open spec fn events_of(events: Seq<ReplyEvent>) -> Seq<ReplyEventView> {
    events.map_values(|e: ReplyEvent| e@)
}

} // verus!
