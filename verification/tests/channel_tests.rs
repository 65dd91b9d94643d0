use channels::basic_channel::BasicChannel;
use channels::oneshot::Channel;
use std::cell::Cell;
use std::rc::Rc;

/// A payload that counts, through a shared tally, how many times it has been
/// destroyed.
struct DropTally {
    hits: Rc<Cell<u32>>,
}

impl Drop for DropTally {
    fn drop(&mut self) {
        self.hits.set(self.hits.get() + 1);
    }
}

#[test]
fn send_receive_round_trip() {
    let mut channel: Channel<String> = Channel::new();
    channel.send(String::from("payload"));
    let received = channel.receive();
    assert_eq!(received, "payload");
}

#[test]
fn round_trip_preserves_every_byte() {
    let mut bytes: Vec<u8> = Vec::new();
    let mut i: u32 = 0;
    while i < 256 {
        bytes.push(i as u8);
        i += 1;
    }
    let expected = bytes.clone();
    let mut channel: Channel<Vec<u8>> = Channel::new();
    channel.send(bytes);
    let received = channel.receive();
    assert_eq!(received, expected);
}

#[test]
fn ready_tracks_lifecycle() {
    let mut channel: Channel<u64> = Channel::new();
    assert!(!channel.is_ready());
    channel.send(42);
    assert!(channel.is_ready());
    let received = channel.receive();
    assert_eq!(received, 42);
    assert!(!channel.is_ready());
}

#[test]
fn poll_then_receive_hello() {
    let mut channel: Channel<&str> = Channel::new();
    channel.send("hello");
    loop {
        if channel.is_ready() {
            break;
        }
    }
    let received = channel.receive();
    assert_eq!(received, "hello");
    assert!(!channel.is_ready());
}

#[test]
fn drop_of_fresh_channel_destroys_nothing() {
    let hits: Rc<Cell<u32>> = Rc::new(Cell::new(0));
    let channel: Channel<DropTally> = Channel::new();
    drop(channel);
    assert_eq!(hits.get(), 0);
}

#[test]
fn drop_after_send_destroys_the_value_once() {
    let hits: Rc<Cell<u32>> = Rc::new(Cell::new(0));
    let mut channel: Channel<DropTally> = Channel::new();
    channel.send(DropTally { hits: Rc::clone(&hits) });
    assert_eq!(hits.get(), 0);
    drop(channel);
    assert_eq!(hits.get(), 1);
}

#[test]
fn drop_after_receive_destroys_nothing_in_the_channel() {
    let hits: Rc<Cell<u32>> = Rc::new(Cell::new(0));
    let mut channel: Channel<DropTally> = Channel::new();
    channel.send(DropTally { hits: Rc::clone(&hits) });
    let received = channel.receive();
    drop(channel);
    assert_eq!(hits.get(), 0);
    drop(received);
    assert_eq!(hits.get(), 1);
}

#[test]
fn basic_channel_is_first_in_first_out() {
    let mut channel: BasicChannel<u64> = BasicChannel::new();
    channel.send(1);
    channel.send(2);
    channel.send(3);
    assert_eq!(channel.receive(), 1);
    assert_eq!(channel.receive(), 2);
    assert_eq!(channel.receive(), 3);
}

#[test]
fn basic_channel_carries_one_message() {
    let mut channel: BasicChannel<String> = BasicChannel::new();
    channel.send(String::from("hello"));
    assert_eq!(channel.receive(), "hello");
}
