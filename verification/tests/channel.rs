use portscan::{ChannelError, Received, ResultChannel};

#[test]
fn a_new_channel_has_one_producer_and_nothing_pending() {
    let channel = ResultChannel::new();
    assert_eq!(channel.producers(), 1);
    assert!(channel.has_receiver());
    assert_eq!(channel.pending(), 0);
    assert!(!channel.is_drained());
}

#[test]
fn an_empty_channel_with_a_producer_makes_the_receiver_wait() {
    let mut channel = ResultChannel::new();
    assert_eq!(channel.recv(), Received::Empty);
    assert_eq!(channel.recv(), Received::Empty);
    assert_eq!(channel.producers(), 1);
}

#[test]
fn an_empty_channel_without_producers_is_disconnected() {
    let mut channel = ResultChannel::new();
    assert_eq!(channel.release_producer(), Ok(()));
    assert_eq!(channel.producers(), 0);
    assert!(channel.is_drained());
    assert_eq!(channel.recv(), Received::Disconnected);
}

#[test]
fn ports_arrive_in_the_order_of_sending() {
    let mut channel = ResultChannel::new();
    assert_eq!(channel.send(5000), Ok(()));
    assert_eq!(channel.send(22), Ok(()));
    assert_eq!(channel.send(443), Ok(()));
    assert_eq!(channel.pending(), 3);
    assert_eq!(channel.recv(), Received::Port(5000));
    assert_eq!(channel.recv(), Received::Port(22));
    assert_eq!(channel.pending(), 1);
    assert_eq!(channel.recv(), Received::Port(443));
    assert_eq!(channel.recv(), Received::Empty);
}

#[test]
fn every_port_sent_arrives_exactly_once() {
    let mut channel = ResultChannel::new();
    assert_eq!(channel.send(80), Ok(()));
    assert_eq!(channel.send(80), Ok(()));
    assert_eq!(channel.recv(), Received::Port(80));
    assert_eq!(channel.recv(), Received::Port(80));
    assert_eq!(channel.recv(), Received::Empty);
}

#[test]
fn pending_ports_outlive_their_producers() {
    let mut channel = ResultChannel::new();
    assert_eq!(channel.clone_producer(), Ok(()));
    assert_eq!(channel.send(8080), Ok(()));
    assert_eq!(channel.release_producer(), Ok(()));
    assert_eq!(channel.release_producer(), Ok(()));
    assert_eq!(channel.producers(), 0);
    assert!(!channel.is_drained());
    assert_eq!(channel.recv(), Received::Port(8080));
    assert!(channel.is_drained());
    assert_eq!(channel.recv(), Received::Disconnected);
}

#[test]
fn the_drain_ends_only_after_the_last_producer_is_released() {
    let mut channel = ResultChannel::new();
    assert_eq!(channel.clone_producer(), Ok(()));
    assert_eq!(channel.clone_producer(), Ok(()));
    assert_eq!(channel.producers(), 3);
    assert_eq!(channel.release_producer(), Ok(()));
    assert_eq!(channel.recv(), Received::Empty);
    assert_eq!(channel.release_producer(), Ok(()));
    assert_eq!(channel.recv(), Received::Empty);
    assert_eq!(channel.release_producer(), Ok(()));
    assert_eq!(channel.recv(), Received::Disconnected);
}

#[test]
fn no_producer_can_be_cloned_from_none() {
    let mut channel = ResultChannel::new();
    assert_eq!(channel.release_producer(), Ok(()));
    assert_eq!(channel.clone_producer(), Err(ChannelError::NoProducer));
    assert_eq!(channel.producers(), 0);
}

#[test]
fn no_producer_can_be_released_twice() {
    let mut channel = ResultChannel::new();
    assert_eq!(channel.release_producer(), Ok(()));
    assert_eq!(channel.release_producer(), Err(ChannelError::NoProducer));
    assert_eq!(channel.producers(), 0);
}

#[test]
fn sending_takes_a_producer() {
    let mut channel = ResultChannel::new();
    assert_eq!(channel.release_producer(), Ok(()));
    assert_eq!(channel.send(1), Err(ChannelError::NoProducer));
    assert_eq!(channel.pending(), 0);
}

#[test]
fn sending_fails_once_the_receiver_is_gone() {
    let mut channel = ResultChannel::new();
    assert_eq!(channel.send(1), Ok(()));
    channel.drop_receiver();
    assert!(!channel.has_receiver());
    assert_eq!(channel.send(2), Err(ChannelError::ReceiverGone));
    assert_eq!(channel.pending(), 1);
    assert_eq!(channel.producers(), 1);
}

#[test]
fn a_receiver_that_is_gone_receives_nothing() {
    let mut channel = ResultChannel::new();
    assert_eq!(channel.send(1), Ok(()));
    channel.drop_receiver();
    assert_eq!(channel.recv(), Received::Disconnected);
    assert_eq!(channel.pending(), 1);
}
