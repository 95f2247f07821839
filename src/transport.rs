use vstd::prelude::*;

use futures::sync::mpsc::UnboundedReceiver;

use crate::address::{RouterAddress, RouterInfo, SocketAddress, Style};
use crate::channel::unbounded;
use crate::handle::Handle;
use crate::message::Message;

verus! {

/// The largest message NTCP carries, in bytes with the standard header.
pub const NTCP_MTU: usize = 16384;

/// The largest message NTCP2 carries, in bytes with the short header.
pub const NTCP2_MTU: usize = 65535;

/// The consuming ends of a transport's handle: what the transport's session
/// layer drains once it has been started.
pub struct Queues {
    pub messages: UnboundedReceiver<(RouterInfo, Message)>,
    pub timestamps: UnboundedReceiver<(RouterInfo, u32)>,
}

/// A transport's quote for carrying one message, and where to hand it.
pub struct Bid {
    pub cost: u32,
    pub handle: Handle,
}

impl Bid {
    /// Hands `(peer, msg)` to the transport that made the bid. Where its
    /// receiving end is gone the pair is handed back unchanged.
    pub fn send(self, peer: RouterInfo, msg: Message) -> (r: Result<(), (RouterInfo, Message)>)
        ensures
            r matches Err(back) ==> back == (peer, msg),
    {
        self.handle.send(peer, msg)
    }
}

/// One configured transport: its style, where it listens, the cost it quotes,
/// the largest message it carries, and the handle into its queues.
pub struct Transport {
    pub style: Style,
    pub listen: SocketAddress,
    pub cost: u32,
    pub mtu: usize,
    pub handle: Handle,
}

/// How many bytes a message takes on a transport of style `s`.
pub open spec fn wire_size(s: Style, msg: Message) -> nat {
    match s {
        Style::Ntcp => msg.spec_size(),
        Style::Ntcp2 => msg.spec_ntcp2_size(),
    }
}

impl Transport {
    /// The cost this transport quotes for `msg_size` bytes to `peer`: none
    /// where the peer publishes no address of this style or the message is
    /// too large.
    pub open spec fn spec_bid(self, peer: RouterInfo, msg_size: nat) -> Option<u32> {
        if peer.spec_address(self.style) is Some && msg_size <= self.mtu {
            Some(self.cost)
        } else {
            None
        }
    }

    pub open spec fn spec_address(self) -> RouterAddress {
        RouterAddress { style: self.style, addr: Some(self.listen) }
    }

    pub fn new(style: Style, listen: SocketAddress, cost: u32, mtu: usize, handle: Handle) -> (r:
        Transport)
        ensures
            r.style == style,
            r.listen == listen,
            r.cost == cost,
            r.mtu == mtu,
            r.handle == handle,
    {
        Transport { style, listen, cost, mtu, handle }
    }

    /// A transport with fresh queues, and the consuming ends of those queues.
    pub fn open(style: Style, listen: SocketAddress, cost: u32, mtu: usize) -> (r: (
        Transport,
        Queues,
    ))
        ensures
            r.0.style == style,
            r.0.listen == listen,
            r.0.cost == cost,
            r.0.mtu == mtu,
    {
        let (message, messages) = unbounded();
        let (timestamp, timestamps) = unbounded();
        let handle = Handle::new(message, timestamp);
        (Transport::new(style, listen, cost, mtu, handle), Queues { messages, timestamps })
    }

    /// The contact entry this transport publishes.
    pub fn address(&self) -> (r: RouterAddress)
        ensures
            r == self.spec_address(),
    {
        RouterAddress::new(self.style, self.listen)
    }

    /// The size of `msg` as this transport frames it.
    pub fn size_of(&self, msg: &Message) -> (r: usize)
        requires
            msg.wf(),
        ensures
            r == wire_size(self.style, *msg),
    {
        match self.style {
            Style::Ntcp => msg.size(),
            Style::Ntcp2 => msg.ntcp2_size(),
        }
    }

    /// This transport's bid for `msg_size` bytes to `peer`, if it makes one.
    pub fn bid(&self, peer: &RouterInfo, msg_size: usize) -> (r: Option<Bid>)
        ensures
            r is Some <==> self.spec_bid(*peer, msg_size as nat) is Some,
            r matches Some(b) ==> Some(b.cost) == self.spec_bid(*peer, msg_size as nat),
    {
        if peer.address(self.style).is_some() && msg_size <= self.mtu {
            Some(Bid { cost: self.cost, handle: self.handle.clone() })
        } else {
            None
        }
    }
}

} // verus!
