use futures::future::lazy;
use futures::{Async, Future, Stream};

use ire_transport::{
    AlreadyStarted, Config, ConfigError, Manager, Message, Pending, Queues,
    RouterAddress, RouterInfo, SocketAddress, Style, Transport, NTCP2_COST, NTCP2_MTU, NTCP_COST,
    NTCP_MTU,
};

fn addr(a: u8, b: u8, c: u8, d: u8, port: u16) -> SocketAddress {
    SocketAddress { ip: u32::from_be_bytes([a, b, c, d]), port }
}

fn two_transports(cost_a: u32, cost_b: u32) -> Manager {
    let (a, qa) = Transport::open(Style::Ntcp, addr(10, 0, 0, 1, 7000), cost_a, NTCP_MTU);
    let (b, qb) = Transport::open(Style::Ntcp2, addr(10, 0, 0, 2, 7001), cost_b, NTCP2_MTU);
    Manager::new(vec![a, b], vec![qa, qb])
}

fn peer_on(ntcp: bool, ntcp2: bool) -> RouterInfo {
    RouterInfo {
        hash: 99,
        ntcp: if ntcp { Some(addr(192, 168, 0, 1, 1)) } else { None },
        ntcp2: if ntcp2 { Some(addr(192, 168, 0, 1, 2)) } else { None },
    }
}

fn msg() -> Message {
    Message::new(3, 77, vec![0xaa; 20]).unwrap()
}

/// Polls the message queue of each transport once, in order.
fn drain_once(queues: &mut Vec<Queues>) -> Vec<Option<(RouterInfo, Message)>> {
    let mut out = Vec::new();
    for q in queues.iter_mut() {
        match q.messages.poll() {
            Ok(Async::Ready(Some(item))) => out.push(Some(item)),
            _ => out.push(None),
        }
    }
    out
}

#[test]
fn manager_addresses() {
    let ntcp_addr = addr(127, 0, 0, 1, 0);
    let ntcp2_addr = addr(127, 0, 0, 2, 0);
    let config = Config { ntcp_listen: Some(ntcp_addr), ntcp2_listen: Some(ntcp2_addr) };

    let manager = Manager::from_config(&config).unwrap();
    let addrs = manager.addresses();

    assert_eq!(addrs[0].addr(), Some(ntcp_addr));
    assert_eq!(addrs[1].addr(), Some(ntcp2_addr));
}

#[test]
fn addresses_in_registration_order() {
    let manager = two_transports(1, 2);
    assert_eq!(
        manager.addresses(),
        vec![
            RouterAddress { style: Style::Ntcp, addr: Some(addr(10, 0, 0, 1, 7000)) },
            RouterAddress { style: Style::Ntcp2, addr: Some(addr(10, 0, 0, 2, 7001)) },
        ]
    );
    assert!(Manager::new(vec![], vec![]).addresses().is_empty());
}

#[test]
fn from_config_missing_addresses() {
    let a = addr(127, 0, 0, 1, 1);
    assert_eq!(
        Manager::from_config(&Config { ntcp_listen: None, ntcp2_listen: Some(a) }).err(),
        Some(ConfigError::MissingNtcpAddress)
    );
    assert_eq!(
        Manager::from_config(&Config { ntcp_listen: Some(a), ntcp2_listen: None }).err(),
        Some(ConfigError::MissingNtcp2Address)
    );
    assert_eq!(
        Manager::from_config(&Config { ntcp_listen: None, ntcp2_listen: None }).err(),
        Some(ConfigError::MissingNtcpAddress)
    );
}

#[test]
fn send_routes_to_cheapest_then_falls_back() {
    let mut manager = two_transports(10, 5);
    let mut queues = manager.start().ok().unwrap();
    lazy(move || {
        // Both bid: B is cheaper.
        let r = manager.send(peer_on(true, true), msg());
        assert_eq!(r, Ok(Pending { transport: 1, accepted: true }));
        assert_eq!(drain_once(&mut queues), vec![None, Some((peer_on(true, true), msg()))]);

        // B makes no bid: A carries it.
        let r = manager.send(peer_on(true, false), msg());
        assert_eq!(r, Ok(Pending { transport: 0, accepted: true }));
        assert_eq!(drain_once(&mut queues), vec![Some((peer_on(true, false), msg())), None]);

        // Nobody bids: the message comes back.
        let r = manager.send(peer_on(false, false), msg());
        assert_eq!(r, Err((peer_on(false, false), msg())));
        assert_eq!(drain_once(&mut queues), vec![None, None]);
        Ok::<(), ()>(())
    })
    .wait()
    .unwrap();
}

#[test]
fn send_tie_goes_to_first_registered() {
    let manager = two_transports(8, 8);
    assert_eq!(
        manager.send(peer_on(true, true), msg()),
        Ok(Pending { transport: 0, accepted: true })
    );
}

#[test]
fn send_respects_each_transport_size_limit() {
    // 16384 - 16 payload bytes fill NTCP exactly; one more is too large for it.
    let manager = two_transports(1, 2);
    let fits = Message::new(1, 1, vec![0; NTCP_MTU - 16]).unwrap();
    assert_eq!(
        manager.send(peer_on(true, true), fits),
        Ok(Pending { transport: 0, accepted: true })
    );
    let over = Message::new(1, 1, vec![0; NTCP_MTU - 15]).unwrap();
    assert_eq!(
        manager.send(peer_on(true, true), over),
        Ok(Pending { transport: 1, accepted: true })
    );
    let over_only_a = Message::new(1, 1, vec![0; NTCP_MTU - 15]).unwrap();
    assert_eq!(
        manager.send(peer_on(true, false), over_only_a.clone()),
        Err((peer_on(true, false), over_only_a))
    );
}

#[test]
fn send_with_no_transports_hands_back() {
    let manager = Manager::new(vec![], vec![]);
    assert_eq!(manager.send(peer_on(true, true), msg()), Err((peer_on(true, true), msg())));
}

#[test]
fn send_into_closed_queue_is_reported() {
    let mut manager = two_transports(10, 5);
    drop(manager.start().ok().unwrap());
    assert_eq!(
        manager.send(peer_on(true, true), msg()),
        Ok(Pending { transport: 1, accepted: false })
    );
}

#[test]
fn from_config_uses_default_costs() {
    let config = Config {
        ntcp_listen: Some(addr(127, 0, 0, 1, 1)),
        ntcp2_listen: Some(addr(127, 0, 0, 1, 2)),
    };
    let manager = Manager::from_config(&config).unwrap();
    let expected = if NTCP2_COST < NTCP_COST { 1 } else { 0 };
    assert_eq!(
        manager.send(peer_on(true, true), msg()),
        Ok(Pending { transport: expected, accepted: true })
    );
    assert_eq!(NTCP2_MTU, 65535);
}

#[test]
fn start_twice_reports_double_start() {
    let mut manager = two_transports(10, 5);
    let queues = manager.start();
    assert_eq!(queues.as_ref().map(|q| q.len()).ok(), Some(2));
    assert_eq!(manager.start().err(), Some(AlreadyStarted));
    // The first start's queues still work.
    let mut queues = queues.ok().unwrap();
    lazy(move || {
        assert_eq!(
            manager.send(peer_on(true, true), msg()),
            Ok(Pending { transport: 1, accepted: true })
        );
        assert_eq!(drain_once(&mut queues), vec![None, Some((peer_on(true, true), msg()))]);
        Ok::<(), ()>(())
    })
    .wait()
    .unwrap();
}
