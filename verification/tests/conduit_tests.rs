use pegasus::conduit::{ChannelClosed, Conduit, SendError};

#[test]
fn conduit_hands_items_out_in_the_order_sent() {
    let mut c: Conduit<u32> = Conduit::new(3);
    assert!(c.send(10).is_ok());
    assert!(c.send(20).is_ok());
    assert!(c.send(30).is_ok());
    assert_eq!(c.len(), 3);
    assert_eq!(c.recv(), Ok(Some(10)));
    assert_eq!(c.recv(), Ok(Some(20)));
    assert_eq!(c.recv(), Ok(Some(30)));
    assert_eq!(c.len(), 0);
}

#[test]
fn conduit_empty_and_open_asks_the_caller_to_wait() {
    let mut c: Conduit<u32> = Conduit::new(2);
    assert_eq!(c.recv(), Ok(None));
    assert!(c.sender_open());
    assert!(c.receiver_open());
    assert_eq!(c.capacity(), 2);
}

#[test]
fn conduit_recv_fails_once_sender_is_gone_and_nothing_waits() {
    let mut c: Conduit<u32> = Conduit::new(2);
    c.close_sender();
    assert_eq!(c.recv(), Err(ChannelClosed));
    assert!(!c.sender_open());
}

#[test]
fn conduit_drains_what_waits_before_reporting_closure() {
    let mut c: Conduit<u32> = Conduit::new(2);
    assert!(c.send(7).is_ok());
    c.close_sender();
    assert_eq!(c.recv(), Ok(Some(7)));
    assert_eq!(c.recv(), Err(ChannelClosed));
}

#[test]
fn conduit_send_hands_the_item_back_when_receiver_is_gone() {
    let mut c: Conduit<u32> = Conduit::new(2);
    c.close_receiver();
    match c.send(5) {
        Err(SendError::Closed(item)) => assert_eq!(item, 5),
        _ => panic!("a closed conduit took an item"),
    }
    assert_eq!(c.len(), 0);
}

#[test]
fn conduit_send_hands_the_item_back_when_full() {
    let mut c: Conduit<u32> = Conduit::new(1);
    assert!(c.send(1).is_ok());
    match c.send(2) {
        Err(SendError::Full(item)) => assert_eq!(item, 2),
        _ => panic!("a full conduit took an item"),
    }
    assert_eq!(c.len(), 1);
    assert_eq!(c.recv(), Ok(Some(1)));
}
