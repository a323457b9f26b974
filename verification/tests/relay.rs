use detect_pipeline::relay::{ChannelClosed, Poll, Relay};

#[test]
fn empty_poll_returns_at_once() {
    let mut r: Relay<u32> = Relay::new();
    assert_eq!(r.try_receive(), Poll::Empty);
    assert_eq!(r.try_receive(), Poll::Empty);
}

#[test]
fn send_then_receive() {
    let mut r: Relay<u32> = Relay::new();
    r.send(7).unwrap();
    assert_eq!(r.try_receive(), Poll::Item(7));
    assert_eq!(r.try_receive(), Poll::Empty);
}

#[test]
fn send_overwrites_unconsumed_item() {
    let mut r: Relay<u32> = Relay::new();
    r.send(7).unwrap();
    r.send(8).unwrap();
    assert_eq!(r.try_receive(), Poll::Item(8));
    assert_eq!(r.try_receive(), Poll::Empty);
}

#[test]
fn pending_item_drains_after_close() {
    let mut r: Relay<u32> = Relay::new();
    r.send(9).unwrap();
    r.close();
    assert_eq!(r.try_receive(), Poll::Item(9));
    assert_eq!(r.try_receive(), Poll::Closed);
}

#[test]
fn send_to_closed_relay_fails() {
    let mut r: Relay<u32> = Relay::new();
    r.close();
    assert_eq!(r.send(1), Err(ChannelClosed));
    assert_eq!(r.try_receive(), Poll::Closed);
}
