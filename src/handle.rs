use vstd::prelude::*;

use futures::sync::mpsc::UnboundedSender;

use crate::address::RouterInfo;
use crate::channel::{clone_sender, unbounded_send};
use crate::message::Message;

verus! {

/// A non-blocking conduit into one transport: one queue for messages to
/// send, and an independent one for clock-offset observations.
pub struct Handle {
    message: UnboundedSender<(RouterInfo, Message)>,
    timestamp: UnboundedSender<(RouterInfo, u32)>,
}

impl Clone for Handle {
    /// A handle onto the same two queues.
    fn clone(&self) -> (r: Handle) {
        Handle { message: clone_sender(&self.message), timestamp: clone_sender(&self.timestamp) }
    }
}

impl Handle {
    pub fn new(
        message: UnboundedSender<(RouterInfo, Message)>,
        timestamp: UnboundedSender<(RouterInfo, u32)>,
    ) -> (r: Handle)
        ensures
            r.message_tx() == message,
            r.timestamp_tx() == timestamp,
    {
        Handle { message, timestamp }
    }

    pub closed spec fn message_tx(self) -> UnboundedSender<(RouterInfo, Message)> {
        self.message
    }

    pub closed spec fn timestamp_tx(self) -> UnboundedSender<(RouterInfo, u32)> {
        self.timestamp
    }

    /// Enqueues `(peer, msg)` on the message queue. Where the transport's
    /// receiving end is gone the pair is handed back unchanged.
    pub fn send(&self, peer: RouterInfo, msg: Message) -> (r: Result<(), (RouterInfo, Message)>)
        ensures
            r matches Err(back) ==> back == (peer, msg),
    {
        unbounded_send(&self.message, (peer, msg))
    }

    /// Enqueues a timestamp observation for `peer` on the timestamp queue.
    /// Where the receiving end is gone the pair is handed back unchanged.
    pub fn timestamp(&self, peer: RouterInfo, ts: u32) -> (r: Result<(), (RouterInfo, u32)>)
        ensures
            r matches Err(back) ==> back == (peer, ts),
    {
        unbounded_send(&self.timestamp, (peer, ts))
    }
}

} // verus!
