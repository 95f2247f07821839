//! Transport selection and message dispatch for a peer-to-peer router.
//!
//! The library picks, for each outbound message, the transport that quotes the
//! lowest cost, hands inbound traffic from every transport to one handler, and
//! guards the one-shot start of the transports' inbound engines.

mod address;
mod channel;
mod engine;
mod handle;
mod manager;
mod message;
mod select;
mod transport;

pub use address::{RouterAddress, RouterInfo, SocketAddress, Style};
pub use engine::{
    items_of, lemma_delivers_each_once, poll_post, Engine, InboundMessageHandler, Polled, Step,
};
pub use handle::Handle;
pub use manager::{
    configured_from, lemma_addresses_match_config, lemma_start_twice, start_post, AlreadyStarted,
    Config, ConfigError, Lifecycle, Manager, Pending, NTCP2_COST, NTCP_COST,
};
pub use message::{Message, MAX_PAYLOAD};
pub use select::{
    cheapest, has_bid, is_cheapest, lemma_cheapest_spec, lemma_cheapest_unique, select_cheapest,
};
pub use transport::{wire_size, Bid, Queues, Transport, NTCP2_MTU, NTCP_MTU};
