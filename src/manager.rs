use vstd::prelude::*;

use crate::address::{RouterAddress, RouterInfo, SocketAddress, Style};
use crate::message::Message;
use crate::select::{cheapest, has_bid, is_cheapest, select_cheapest};
use crate::transport::{wire_size, Bid, Queues, Transport, NTCP2_MTU, NTCP_MTU};

verus! {

/// The cost NTCP quotes for any message it accepts.
pub const NTCP_COST: u32 = 70;

/// The cost NTCP2 quotes for any message it accepts.
pub const NTCP2_COST: u32 = 40;

/// Where the router's transports listen.
#[derive(Clone, Copy, Debug, PartialEq, Eq, Structural)]
pub struct Config {
    pub ntcp_listen: Option<SocketAddress>,
    pub ntcp2_listen: Option<SocketAddress>,
}

/// A configuration that cannot start the router.
#[derive(Clone, Copy, Debug, PartialEq, Eq, Structural)]
pub enum ConfigError {
    MissingNtcpAddress,
    MissingNtcp2Address,
}

/// The transports' start was asked for a second time.
#[derive(Clone, Copy, Debug, PartialEq, Eq, Structural)]
pub struct AlreadyStarted;

/// Whether the transports' queues are still waiting to be taken by `start`.
pub enum Lifecycle {
    Configured(Vec<Queues>),
    Listening,
}

/// An outbound message accepted for sending: the transport chosen, in
/// registration order, and whether its queue took the message.
#[derive(Clone, Copy, Debug, PartialEq, Eq, Structural)]
pub struct Pending {
    pub transport: usize,
    pub accepted: bool,
}

/// Owns the configured transports, in registration order.
pub struct Manager {
    transports: Vec<Transport>,
    lifecycle: Lifecycle,
}

/// What `start` did, from the manager before (`m0`) to after (`m1`).
pub open spec fn start_post(m0: Manager, m1: Manager, r: Result<Vec<Queues>, AlreadyStarted>) -> bool {
    &&& m1.spec_transports() == m0.spec_transports()
    &&& m1.spec_lifecycle() is Listening
    &&& match m0.spec_lifecycle() {
        Lifecycle::Configured(q) => r == Ok::<Vec<Queues>, AlreadyStarted>(q),
        Lifecycle::Listening => r == Err::<Vec<Queues>, AlreadyStarted>(AlreadyStarted) && m1 == m0,
    }
}

/// `m` is what `from_config` builds from `config`: an NTCP and an NTCP2
/// transport, in that order, listening where `config` says, with their
/// queues not yet taken.
pub open spec fn configured_from(config: Config, m: Manager) -> bool {
    let ts = m.spec_transports();
    &&& ts.len() == 2
    &&& ts[0].style == Style::Ntcp && Some(ts[0].listen) == config.ntcp_listen
    &&& ts[0].cost == NTCP_COST && ts[0].mtu == NTCP_MTU
    &&& ts[1].style == Style::Ntcp2 && Some(ts[1].listen) == config.ntcp2_listen
    &&& ts[1].cost == NTCP2_COST && ts[1].mtu == NTCP2_MTU
    &&& m.spec_lifecycle() matches Lifecycle::Configured(q) && q@.len() == 2
}

/// A manager built from a configuration publishes one contact entry per
/// transport, in registration order, each at the listen address configured
/// for that transport.
pub proof fn lemma_addresses_match_config(config: Config, m: Manager)
    requires
        configured_from(config, m),
    ensures
        m.spec_addresses().len() == 2,
        m.spec_addresses()[0] == (RouterAddress { style: Style::Ntcp, addr: config.ntcp_listen }),
        m.spec_addresses()[1] == (RouterAddress { style: Style::Ntcp2, addr: config.ntcp2_listen }),
{
}

/// A second start reports `AlreadyStarted` and leaves the manager that the
/// first start left exactly as it was; a first start on a configured manager
/// hands out its queues.
pub proof fn lemma_start_twice(
    m0: Manager,
    m1: Manager,
    m2: Manager,
    r1: Result<Vec<Queues>, AlreadyStarted>,
    r2: Result<Vec<Queues>, AlreadyStarted>,
)
    requires
        start_post(m0, m1, r1),
        start_post(m1, m2, r2),
    ensures
        r2 == Err::<Vec<Queues>, AlreadyStarted>(AlreadyStarted),
        m2 == m1,
        m0.spec_lifecycle() is Configured ==> r1 is Ok,
{
}

impl Manager {
    pub closed spec fn spec_transports(self) -> Seq<Transport> {
        self.transports@
    }

    pub closed spec fn spec_lifecycle(self) -> Lifecycle {
        self.lifecycle
    }

    /// The cost each transport quotes for carrying `msg` to `peer`, each
    /// sizing the message its own way.
    pub open spec fn bid_costs(self, peer: RouterInfo, msg: Message) -> Seq<Option<u32>> {
        Seq::new(
            self.spec_transports().len(),
            |i: int|
                self.spec_transports()[i].spec_bid(
                    peer,
                    wire_size(self.spec_transports()[i].style, msg),
                ),
        )
    }

    /// One contact entry per transport, in registration order.
    pub open spec fn spec_addresses(self) -> Seq<RouterAddress> {
        Seq::new(self.spec_transports().len(), |i: int| self.spec_transports()[i].spec_address())
    }

    /// A manager over `transports`, whose queues `start` will hand out.
    pub fn new(transports: Vec<Transport>, queues: Vec<Queues>) -> (r: Manager)
        ensures
            r.spec_transports() == transports@,
            r.spec_lifecycle() == Lifecycle::Configured(queues),
    {
        Manager { transports, lifecycle: Lifecycle::Configured(queues) }
    }

    /// An NTCP and an NTCP2 transport, in that order, listening where
    /// `config` says, each with fresh queues.
    pub fn from_config(config: &Config) -> (r: Result<Manager, ConfigError>)
        ensures
            config.ntcp_listen is None ==> r == Err::<Manager, ConfigError>(
                ConfigError::MissingNtcpAddress,
            ),
            config.ntcp_listen is Some && config.ntcp2_listen is None ==> r == Err::<
                Manager,
                ConfigError,
            >(ConfigError::MissingNtcp2Address),
            r is Ok <==> config.ntcp_listen is Some && config.ntcp2_listen is Some,
            r matches Ok(m) ==> configured_from(*config, m),
    {
        let ntcp_addr = match config.ntcp_listen {
            Some(a) => a,
            None => {
                return Err(ConfigError::MissingNtcpAddress);
            },
        };
        let ntcp2_addr = match config.ntcp2_listen {
            Some(a) => a,
            None => {
                return Err(ConfigError::MissingNtcp2Address);
            },
        };
        let (ntcp, ntcp_queues) = Transport::open(Style::Ntcp, ntcp_addr, NTCP_COST, NTCP_MTU);
        let (ntcp2, ntcp2_queues) = Transport::open(
            Style::Ntcp2,
            ntcp2_addr,
            NTCP2_COST,
            NTCP2_MTU,
        );
        let mut transports: Vec<Transport> = Vec::new();
        transports.push(ntcp);
        transports.push(ntcp2);
        let mut queues: Vec<Queues> = Vec::new();
        queues.push(ntcp_queues);
        queues.push(ntcp2_queues);
        Ok(Manager::new(transports, queues))
    }

    /// One contact entry per transport, in registration order.
    pub fn addresses(&self) -> (r: Vec<RouterAddress>)
        ensures
            r@ == self.spec_addresses(),
    {
        let mut out: Vec<RouterAddress> = Vec::new();
        let mut i: usize = 0;
        while i < self.transports.len()
            invariant
                i <= self.transports@.len(),
                out@.len() == i,
                forall|j: int| 0 <= j < i ==> out@[j] == self.transports@[j].spec_address(),
            decreases self.transports@.len() - i,
        {
            out.push(self.transports[i].address());
            i = i + 1;
        }
        assert(out@ =~= self.spec_addresses());
        out
    }

    /// Sends `msg` to `peer` over the transport with the cheapest bid, the
    /// first registered of equal ones. Where no transport bids, the pair is
    /// handed back unchanged.
    pub fn send(&self, peer: RouterInfo, msg: Message) -> (r: Result<Pending, (RouterInfo, Message)>)
        requires
            msg.wf(),
        ensures
            r is Err <==> !has_bid(self.bid_costs(peer, msg)),
            r matches Err(back) ==> back == (peer, msg),
            r matches Ok(p) ==> is_cheapest(self.bid_costs(peer, msg), p.transport as int),
            r matches Ok(p) ==> cheapest(self.bid_costs(peer, msg)) == Some(p.transport as int),
    {
        let ghost costs_spec = self.bid_costs(peer, msg);
        let mut bids: Vec<Option<Bid>> = Vec::new();
        let mut costs: Vec<Option<u32>> = Vec::new();
        let mut i: usize = 0;
        while i < self.transports.len()
            invariant
                i <= self.transports@.len(),
                costs_spec == self.bid_costs(peer, msg),
                msg.wf(),
                bids@.len() == i,
                costs@.len() == i,
                forall|j: int| 0 <= j < i ==> costs@[j] == costs_spec[j],
                forall|j: int|
                    0 <= j < i ==> (bids@[j] is Some <==> costs@[j] is Some),
            decreases self.transports@.len() - i,
        {
            let t = &self.transports[i];
            let size = t.size_of(&msg);
            let b = t.bid(&peer, size);
            let c = match &b {
                Some(bid) => Some(bid.cost),
                None => None,
            };
            bids.push(b);
            costs.push(c);
            i = i + 1;
        }
        assert(costs@ =~= costs_spec);
        match select_cheapest(&costs) {
            None => Err((peer, msg)),
            Some(k) => {
                let winner = bids.remove(k);
                match winner {
                    Some(bid) => {
                        let sent = bid.send(peer, msg);
                        Ok(Pending { transport: k, accepted: sent.is_ok() })
                    },
                    None => Err((peer, msg)),
                }
            },
        }
    }

    /// Hands out the transports' queues, once. A second call reports
    /// `AlreadyStarted` and changes nothing.
    pub fn start(&mut self) -> (r: Result<Vec<Queues>, AlreadyStarted>)
        ensures
            start_post(*old(self), *final(self), r),
    {
        let mut lifecycle = Lifecycle::Listening;
        core::mem::swap(&mut self.lifecycle, &mut lifecycle);
        match lifecycle {
            Lifecycle::Configured(q) => Ok(q),
            Lifecycle::Listening => Err(AlreadyStarted),
        }
    }
}

} // verus!
