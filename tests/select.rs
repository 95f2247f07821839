use ire_transport::{select_cheapest, Message, MAX_PAYLOAD};

#[test]
fn select_cheapest_picks_lowest() {
    assert_eq!(select_cheapest(&vec![Some(10), Some(5)]), Some(1));
    assert_eq!(select_cheapest(&vec![Some(10), None]), Some(0));
    assert_eq!(select_cheapest(&vec![None, None]), None);
    assert_eq!(select_cheapest(&vec![]), None);
    assert_eq!(select_cheapest(&vec![None, Some(7), Some(3), Some(3), Some(9)]), Some(2));
    assert_eq!(select_cheapest(&vec![Some(u32::MAX), Some(u32::MAX)]), Some(0));
}

#[test]
fn message_sizes() {
    let m = Message::new(1, 2, vec![0; 100]).unwrap();
    assert_eq!(m.size(), 116);
    assert_eq!(m.ntcp2_size(), 109);
    let empty = Message::new(1, 2, vec![]).unwrap();
    assert_eq!(empty.size(), 16);
    assert_eq!(empty.ntcp2_size(), 9);
    assert!(Message::new(1, 2, vec![0; MAX_PAYLOAD]).is_some());
    assert!(Message::new(1, 2, vec![0; MAX_PAYLOAD + 1]).is_none());
}
