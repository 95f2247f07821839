use vstd::prelude::*;

use crate::address::RouterInfo;
use crate::message::Message;

verus! {

/// Receives every inbound message, from whichever transport it came.
pub trait InboundMessageHandler {
    fn handle(&self, from: RouterInfo, msg: Message);
}

/// What one poll of the merged inbound streams gave.
pub enum Polled {
    /// A message from a peer.
    Item(RouterInfo, Message),
    /// Every stream has ended.
    Ended,
    /// Nothing is available now.
    NotReady,
    /// A stream failed.
    Failed,
}

/// What the task that drives the engine does next.
#[derive(Clone, Copy, Debug, PartialEq, Eq, Structural)]
pub enum Step {
    /// Poll the merged streams again.
    Drain,
    /// Nothing more now: yield until woken.
    Yield,
    /// Stop, reporting failure.
    Fail,
}

/// Hands each inbound message to the handler, in the order the merged
/// streams give them.
pub struct Engine<H: InboundMessageHandler> {
    handler: H,
    delivered: Ghost<Seq<(RouterInfo, Message)>>,
}

/// What `on_poll` does with one poll's outcome: the step it returns and the
/// messages delivered after it, given those before.
pub open spec fn poll_post(
    before: Seq<(RouterInfo, Message)>,
    polled: Polled,
    after: Seq<(RouterInfo, Message)>,
    step: Step,
) -> bool {
    match polled {
        Polled::Item(from, msg) => after == before.push((from, msg)) && step == Step::Drain,
        Polled::Ended => after == before && step == Step::Yield,
        Polled::NotReady => after == before && step == Step::Yield,
        Polled::Failed => after == before && step == Step::Fail,
    }
}

/// The messages handed to the handler over a run of polls are the items among
/// them, each once, in the order polled.
pub open spec fn items_of(polls: Seq<Polled>) -> Seq<(RouterInfo, Message)>
    decreases polls.len(),
{
    if polls.len() == 0 {
        Seq::empty()
    } else {
        let rest = items_of(polls.drop_last());
        match polls.last() {
            Polled::Item(from, msg) => rest.push((from, msg)),
            _ => rest,
        }
    }
}

/// Over any run of polls, the engine delivers exactly the items polled, each
/// once and in order: nothing is lost and nothing is repeated.
pub proof fn lemma_delivers_each_once(
    polls: Seq<Polled>,
    logs: Seq<Seq<(RouterInfo, Message)>>,
    steps: Seq<Step>,
)
    requires
        logs.len() == polls.len() + 1,
        steps.len() == polls.len(),
        logs[0] == Seq::<(RouterInfo, Message)>::empty(),
        forall|i: int| 0 <= i < polls.len() ==> poll_post(logs[i], polls[i], logs[i + 1], steps[i]),
    ensures
        logs.last() == items_of(polls),
    decreases polls.len(),
{
    if polls.len() > 0 {
        let n = polls.len() - 1;
        lemma_delivers_each_once(polls.drop_last(), logs.drop_last(), steps.drop_last());
        assert(poll_post(logs[n], polls[n], logs[n + 1], steps[n]));
    }
}

impl<H: InboundMessageHandler> Engine<H> {
    pub closed spec fn delivered(self) -> Seq<(RouterInfo, Message)> {
        self.delivered@
    }

    pub fn new(handler: H) -> (r: Engine<H>)
        ensures
            r.delivered() == Seq::<(RouterInfo, Message)>::empty(),
    {
        Engine { handler, delivered: Ghost(Seq::empty()) }
    }

    /// Acts on one poll of the merged streams: an item goes to the handler
    /// and draining goes on; with nothing ready, or every stream ended, the
    /// task yields; a failed stream stops the engine.
    pub fn on_poll(&mut self, polled: Polled) -> (r: Step)
        ensures
            poll_post(old(self).delivered(), polled, final(self).delivered(), r),
    {
        match polled {
            Polled::Item(from, msg) => {
                proof {
                    self.delivered@ = self.delivered@.push((from, msg));
                }
                self.handler.handle(from, msg);
                Step::Drain
            },
            Polled::Ended => Step::Yield,
            Polled::NotReady => Step::Yield,
            Polled::Failed => Step::Fail,
        }
    }
}

} // verus!
