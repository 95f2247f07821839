use vstd::prelude::*;

verus! {

/// An IPv4 socket address: the address as a big-endian `u32` and a port.
#[derive(Clone, Copy, Debug, PartialEq, Eq, Structural)]
pub struct SocketAddress {
    pub ip: u32,
    pub port: u16,
}

/// The kinds of transport this router speaks.
#[derive(Clone, Copy, Debug, PartialEq, Eq, Structural)]
pub enum Style {
    Ntcp,
    Ntcp2,
}

/// One entry of a router's published contact information.
#[derive(Clone, Copy, Debug, PartialEq, Eq, Structural)]
pub struct RouterAddress {
    pub style: Style,
    pub addr: Option<SocketAddress>,
}

impl RouterAddress {
    pub fn new(style: Style, addr: SocketAddress) -> (r: RouterAddress)
        ensures
            r == (RouterAddress { style, addr: Some(addr) }),
    {
        RouterAddress { style, addr: Some(addr) }
    }

    /// The socket address this entry publishes, if any.
    pub fn addr(&self) -> (r: Option<SocketAddress>)
        ensures
            r == self.addr,
    {
        self.addr
    }
}

/// What this layer knows of a peer: its identity hash and the address it
/// publishes for each transport style, if it publishes one.
#[derive(Clone, Copy, Debug, PartialEq, Eq)]
pub struct RouterInfo {
    pub hash: u64,
    pub ntcp: Option<SocketAddress>,
    pub ntcp2: Option<SocketAddress>,
}

impl RouterInfo {
    /// The address the peer publishes for transports of style `s`.
    pub open spec fn spec_address(self, s: Style) -> Option<SocketAddress> {
        match s {
            Style::Ntcp => self.ntcp,
            Style::Ntcp2 => self.ntcp2,
        }
    }

    pub fn address(&self, s: Style) -> (r: Option<SocketAddress>)
        ensures
            r == self.spec_address(s),
    {
        match s {
            Style::Ntcp => self.ntcp,
            Style::Ntcp2 => self.ntcp2,
        }
    }
}

} // verus!
