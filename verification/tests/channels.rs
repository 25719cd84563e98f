use std::cell::Cell;
use std::rc::Rc;
use sync_primitives::arc_type_safe_oneshot_channel;
use sync_primitives::basic_blocking_channel;
use sync_primitives::basic_one_shot_channel;
use sync_primitives::message_cell::MessageCell;
use sync_primitives::type_safe_oneshot_channel_ref;
use sync_primitives::{BasicChannel, Memory};

struct DetectDrop {
    drops: Rc<Cell<usize>>,
}

impl Drop for DetectDrop {
    fn drop(&mut self) {
        self.drops.set(self.drops.get() + 1);
    }
}

fn detector() -> (Rc<Cell<usize>>, DetectDrop) {
    let drops = Rc::new(Cell::new(0));
    let detect = DetectDrop { drops: Rc::clone(&drops) };
    (drops, detect)
}

#[test]
fn basic_channel_test() {
    let mut memory = Memory::new();
    let channel: basic_one_shot_channel::Channel<String> =
        basic_one_shot_channel::Channel::new(&mut memory);
    // The receiver looks between any two steps of the sender.
    assert!(!channel.is_ready(&memory));
    assert!(!channel.claim(&mut memory));
    assert!(!channel.is_ready(&memory));
    channel.write(&mut memory, String::from("hello world"));
    assert!(!channel.is_ready(&memory));
    channel.publish(&mut memory);
    assert!(channel.is_ready(&memory));
    assert_eq!(channel.recv(&mut memory), String::from("hello world"))
}

#[test]
fn arc_oneshot_channel() {
    let mut memory = Memory::new();
    let (sender, receiver) = arc_type_safe_oneshot_channel::channel(&mut memory);
    assert!(!receiver.is_ready(&memory));
    sender.send(&mut memory, 1);
    assert!(receiver.is_ready(&memory));
    assert_eq!(receiver.recv(&mut memory), 1);
}

#[test]
fn ends_of_a_shared_channel_take_their_steps_by_turns() {
    let mut memory = Memory::new();
    let (sender, receiver) = arc_type_safe_oneshot_channel::channel(&mut memory);
    assert!(!receiver.take_ready(&mut memory));
    sender.write(&mut memory, 'x');
    assert!(!receiver.is_ready(&memory));
    assert!(!receiver.take_ready(&mut memory));
    sender.publish(&mut memory);
    // The receiver is done before the sender has given its end up.
    assert!(receiver.take_ready(&mut memory));
    assert!(!receiver.is_ready(&memory));
    assert_eq!(receiver.read(&mut memory), 'x');
    receiver.drop(&mut memory);
    sender.drop(&mut memory);
}

#[test]
fn receiver_goes_in_the_midst_of_a_send() {
    let (drops, detect) = detector();
    let mut memory = Memory::new();
    let (sender, receiver) = arc_type_safe_oneshot_channel::channel(&mut memory);
    sender.write(&mut memory, detect);
    receiver.drop(&mut memory);
    sender.publish(&mut memory);
    assert_eq!(drops.get(), 0);
    sender.drop(&mut memory);
    assert_eq!(drops.get(), 1);
}

#[test]
fn sender_goes_in_the_midst_of_a_receive() {
    let (drops, detect) = detector();
    let mut memory = Memory::new();
    let (sender, receiver) = arc_type_safe_oneshot_channel::channel(&mut memory);
    sender.write(&mut memory, detect);
    sender.publish(&mut memory);
    assert!(receiver.take_ready(&mut memory));
    sender.drop(&mut memory);
    let message = receiver.read(&mut memory);
    receiver.drop(&mut memory);
    assert_eq!(drops.get(), 0);
    drop(message);
    assert_eq!(drops.get(), 1);
}

#[test]
fn test_ref_oneshot_channel() {
    let mut memory = Memory::new();
    let mut channel = type_safe_oneshot_channel_ref::Channel::new(&mut memory);
    let (sender, receiver) = channel.split(&mut memory);
    assert!(!receiver.is_ready(&memory));
    sender.send(&mut memory, 1);
    assert!(receiver.is_ready(&memory));
    assert_eq!(receiver.recv(&mut memory), 1);
}

#[test]
fn blocking_oneshot_sender() {
    let mut memory = Memory::new();
    let mut channel = basic_blocking_channel::Channel::new(&mut memory);
    let (sender, receiver) = channel.split(&mut memory, "main thread");
    // The receiver comes first and would park.
    assert_eq!(receiver.recv_turn(&mut memory), None);
    assert_eq!(*sender.send(&mut memory, 1), "main thread");
    assert_eq!(receiver.recv(&mut memory), 1);
}

#[test]
fn turn_between_write_and_publish_finds_nothing() {
    let mut memory = Memory::new();
    let mut channel = basic_blocking_channel::Channel::new(&mut memory);
    let (sender, receiver) = channel.split(&mut memory, ());
    sender.write(&mut memory, 1);
    assert_eq!(receiver.recv_turn(&mut memory), None);
    sender.publish(&mut memory);
    assert_eq!(receiver.recv_turn(&mut memory), Some(1));
    sender.write(&mut memory, 2);
    sender.publish(&mut memory);
    assert!(receiver.take_ready(&mut memory));
    assert!(!sender.is_ready(&memory));
    assert_eq!(receiver.read(&mut memory), 2);
}

#[test]
fn ends_of_a_ref_channel_take_their_steps_by_turns() {
    let mut memory = Memory::new();
    let mut channel = type_safe_oneshot_channel_ref::Channel::new(&mut memory);
    let (sender, receiver) = channel.split(&mut memory);
    sender.write(&mut memory, 1);
    assert!(!receiver.is_ready(&memory));
    assert!(!receiver.take_ready(&mut memory));
    sender.publish(&mut memory);
    assert!(receiver.is_ready(&memory));
    assert!(receiver.take_ready(&mut memory));
    assert_eq!(receiver.read(&mut memory), 1);
    assert!(!sender.is_ready(&memory));
}

fn is_shared<S: Send + Sync>(_: &S) {}

fn is_sent<S: Send>(_: &S) {}

#[test]
fn channel_is_shared_if_its_messages_can_be_sent() {
    // A `Cell` is `Send` and not `Sync`.
    let mut memory = Memory::new();
    let queue = BasicChannel::<Cell<u8>>::new(&mut memory);
    is_sent(&memory);
    is_shared(&queue);
    let mut memory = Memory::new();
    let one_shot = basic_one_shot_channel::Channel::<Cell<u8>>::new(&mut memory);
    is_sent(&memory);
    is_shared(&one_shot);
    let mut memory = Memory::new();
    let (sender, reciever) = arc_type_safe_oneshot_channel::channel::<Cell<u8>>(&mut memory);
    is_sent(&memory);
    is_shared(&sender);
    is_shared(&reciever);
    let mut memory = Memory::new();
    let mut by_ref = type_safe_oneshot_channel_ref::Channel::<Cell<u8>>::new(&mut memory);
    let blocking = basic_blocking_channel::Channel::<Cell<u8>>::new(&mut memory);
    is_sent(&memory);
    is_shared(&blocking);
    is_shared(&by_ref);
    let (sender, receiver) = by_ref.split(&mut memory);
    is_shared(&sender);
    is_shared(&receiver);
}

#[test]
fn one_shot_channel_is_used_once() {
    let mut memory = Memory::new();
    let channel = basic_one_shot_channel::Channel::new(&mut memory);
    assert!(!channel.in_use(&memory));
    channel.send(&mut memory, 5u8);
    assert!(channel.in_use(&memory));
    assert!(channel.claim(&mut memory));
    assert!(channel.is_ready(&memory));
    assert_eq!(channel.recv(&mut memory), 5);
    assert!(!channel.is_ready(&memory));
    assert!(channel.in_use(&memory));
    assert!(!channel.take_ready(&mut memory));
}

#[test]
fn of_two_receivers_one_gets_the_message() {
    let mut memory = Memory::new();
    let channel = basic_one_shot_channel::Channel::new(&mut memory);
    channel.send(&mut memory, 5u8);
    assert!(channel.take_ready(&mut memory));
    assert!(!channel.take_ready(&mut memory));
    assert_eq!(channel.read(&mut memory), 5);
}

#[test]
fn unread_message_is_dropped_with_the_channel() {
    let (drops, detect) = detector();
    let mut memory = Memory::new();
    let channel = basic_one_shot_channel::Channel::new(&mut memory);
    channel.send(&mut memory, detect);
    assert_eq!(drops.get(), 0);
    channel.drop(&mut memory);
    assert_eq!(drops.get(), 1);
}

#[test]
fn read_message_is_not_dropped_with_the_channel() {
    let (drops, detect) = detector();
    let mut memory = Memory::new();
    let channel = basic_one_shot_channel::Channel::new(&mut memory);
    channel.send(&mut memory, detect);
    let message = channel.recv(&mut memory);
    channel.drop(&mut memory);
    assert_eq!(drops.get(), 0);
    drop(message);
    assert_eq!(drops.get(), 1);
}

#[test]
fn second_end_drops_the_message() {
    let (drops, detect) = detector();
    let mut memory = Memory::new();
    let (sender, receiver) = arc_type_safe_oneshot_channel::channel(&mut memory);
    sender.send(&mut memory, detect);
    assert_eq!(drops.get(), 0);
    receiver.drop(&mut memory);
    assert_eq!(drops.get(), 1);

    let (drops, detect) = detector();
    let (sender, receiver) = arc_type_safe_oneshot_channel::channel(&mut memory);
    receiver.drop(&mut memory);
    sender.send(&mut memory, detect);
    assert_eq!(drops.get(), 1);
}

#[test]
fn received_message_is_not_dropped_by_the_ends() {
    let (drops, detect) = detector();
    let mut memory = Memory::new();
    let (sender, receiver) = arc_type_safe_oneshot_channel::channel(&mut memory);
    sender.send(&mut memory, detect);
    let message = receiver.recv(&mut memory);
    assert_eq!(drops.get(), 0);
    drop(message);
    assert_eq!(drops.get(), 1);
}

#[test]
fn sender_may_go_without_a_message() {
    let mut memory = Memory::new();
    let (sender, receiver) = arc_type_safe_oneshot_channel::channel::<u8>(&mut memory);
    sender.drop(&mut memory);
    assert!(!receiver.is_ready(&memory));
    receiver.drop(&mut memory);
}

#[test]
fn split_drops_what_was_left() {
    let (drops, detect) = detector();
    let mut memory = Memory::new();
    let mut channel = type_safe_oneshot_channel_ref::Channel::new(&mut memory);
    let (sender, _receiver) = channel.split(&mut memory);
    sender.send(&mut memory, detect);
    assert_eq!(drops.get(), 0);
    let (_sender, receiver) = channel.split(&mut memory);
    assert_eq!(drops.get(), 1);
    assert!(!receiver.is_ready(&memory));
}

#[test]
fn split_of_blocking_channel_drops_what_was_left() {
    let (drops, detect) = detector();
    let mut memory = Memory::new();
    let mut channel = basic_blocking_channel::Channel::new(&mut memory);
    let (sender, _receiver) = channel.split(&mut memory, 1u8);
    assert_eq!(*sender.send(&mut memory, detect), 1);
    let (_sender, receiver) = channel.split(&mut memory, 2u8);
    assert_eq!(drops.get(), 1);
    assert!(receiver.recv_turn(&mut memory).is_none());
}

#[test]
fn sender_of_ref_channel_sends_again_after_a_receive() {
    let mut memory = Memory::new();
    let mut channel = type_safe_oneshot_channel_ref::Channel::new(&mut memory);
    let (sender, receiver) = channel.split(&mut memory);
    sender.send(&mut memory, 1);
    assert!(sender.is_ready(&memory));
    assert_eq!(receiver.recv(&mut memory), 1);
    assert!(!sender.is_ready(&memory));
    sender.send(&mut memory, 2);
    assert!(sender.is_ready(&memory));
    channel.drop(&mut memory);
}

#[test]
fn blocking_receiver_gets_one_message_after_the_other() {
    let mut memory = Memory::new();
    let mut channel = basic_blocking_channel::Channel::new(&mut memory);
    let (sender, receiver) = channel.split(&mut memory, ());
    sender.send(&mut memory, 1);
    assert_eq!(receiver.recv_turn(&mut memory), Some(1));
    assert_eq!(receiver.recv_turn(&mut memory), None);
    sender.send(&mut memory, 2);
    assert!(sender.is_ready(&memory));
    assert_eq!(receiver.recv(&mut memory), 2);
    assert!(!sender.is_ready(&memory));
    channel.drop(&mut memory);
}

#[test]
fn cell_steps_one_by_one() {
    let mut cell = MessageCell::new();
    assert!(!cell.is_ready());
    assert!(!cell.take_ready());
    cell.write('x');
    assert!(!cell.is_ready());
    assert!(!cell.take_ready());
    cell.publish();
    assert!(cell.is_ready());
    assert!(cell.take_ready());
    assert!(!cell.is_ready());
    assert_eq!(cell.read(), 'x');
    cell.write_message('y');
    assert_eq!(cell.read_message(), 'y');
    cell.drop_unread();
    assert!(!cell.is_ready());
}

#[test]
fn queue_is_first_in_first_out() {
    let mut memory = Memory::new();
    let channel = BasicChannel::new(&mut memory);
    assert_eq!(channel.recv_non_blocking(&mut memory), None);
    channel.send(&mut memory, 1);
    channel.send(&mut memory, 2);
    channel.send(&mut memory, 3);
    assert_eq!(channel.recv_blocking(&mut memory), 1);
    assert_eq!(channel.recv_non_blocking(&mut memory), Some(2));
    assert_eq!(channel.recv_turn(&mut memory), Some(3));
    assert_eq!(channel.recv_non_blocking(&mut memory), None);
}

#[test]
fn sleeping_receiver_is_notified() {
    let mut memory = Memory::new();
    let channel = BasicChannel::new(&mut memory);
    assert_eq!(channel.recv_turn(&mut memory), None);
    channel.send(&mut memory, 1);
    assert_eq!(channel.wake_turn(&mut memory), Some(1));
    channel.send(&mut memory, 2);
    assert_eq!(channel.recv_blocking(&mut memory), 2);
}

#[test]
fn notified_receiver_sleeps_again_if_the_message_is_gone() {
    let mut memory = Memory::new();
    let channel = BasicChannel::new(&mut memory);
    assert_eq!(channel.recv_turn(&mut memory), None);
    channel.push(&mut memory, 1);
    channel.notify_one(&mut memory);
    assert_eq!(channel.recv_non_blocking(&mut memory), Some(1));
    assert_eq!(channel.wake_turn(&mut memory), None);
    // For no reason.
    assert_eq!(channel.wake_turn(&mut memory), None);
    channel.send(&mut memory, 2);
    assert_eq!(channel.wake_turn(&mut memory), Some(2));
}

#[test]
fn as_many_receivers_are_notified_as_messages_come() {
    let mut memory = Memory::new();
    let channel = BasicChannel::new(&mut memory);
    assert_eq!(channel.recv_turn(&mut memory), None);
    assert_eq!(channel.recv_turn(&mut memory), None);
    channel.send(&mut memory, 1);
    channel.send(&mut memory, 2);
    channel.send(&mut memory, 3);
    assert_eq!(channel.wake_turn(&mut memory), Some(1));
    assert_eq!(channel.wake_turn(&mut memory), Some(2));
    assert_eq!(channel.recv_blocking(&mut memory), 3);
}

#[test]
fn ends_are_of_their_own_channel() {
    let mut memory = Memory::new();
    let (sender_one, receiver_one) = arc_type_safe_oneshot_channel::channel(&mut memory);
    let (sender_two, receiver_two) = arc_type_safe_oneshot_channel::channel(&mut memory);
    sender_two.send(&mut memory, 2);
    assert!(!receiver_one.is_ready(&memory));
    sender_one.send(&mut memory, 1);
    assert_eq!(receiver_two.recv(&mut memory), 2);
    assert_eq!(receiver_one.recv(&mut memory), 1);

    let mut memory = Memory::new();
    let mut one = type_safe_oneshot_channel_ref::Channel::new(&mut memory);
    let mut two = type_safe_oneshot_channel_ref::Channel::new(&mut memory);
    let (sender_one, receiver_one) = one.split(&mut memory);
    let (sender_two, receiver_two) = two.split(&mut memory);
    sender_two.send(&mut memory, 2);
    assert!(!receiver_one.is_ready(&memory));
    sender_one.send(&mut memory, 1);
    assert_eq!(receiver_one.recv(&mut memory), 1);
    assert_eq!(receiver_two.recv(&mut memory), 2);
}

#[test]
fn unread_message_is_dropped_with_the_ref_channel() {
    let (drops, detect) = detector();
    let mut memory = Memory::new();
    let mut channel = type_safe_oneshot_channel_ref::Channel::new(&mut memory);
    let (sender, _receiver) = channel.split(&mut memory);
    sender.send(&mut memory, detect);
    assert_eq!(drops.get(), 0);
    channel.drop(&mut memory);
    assert_eq!(drops.get(), 1);
}

#[test]
fn unread_message_is_dropped_with_the_blocking_channel() {
    let (drops, detect) = detector();
    let mut memory = Memory::new();
    let mut channel = basic_blocking_channel::Channel::new(&mut memory);
    let (sender, _receiver) = channel.split(&mut memory, ());
    sender.send(&mut memory, detect);
    assert_eq!(drops.get(), 0);
    channel.drop(&mut memory);
    assert_eq!(drops.get(), 1);
}

#[test]
fn flag_is_down_before_the_message_is_moved_out() {
    let mut cell = MessageCell::new();
    cell.write_message(1);
    assert!(cell.take_ready());
    assert!(!cell.is_ready());
    assert_eq!(cell.read(), 1);
    cell.write_message(2);
    assert_eq!(cell.read_message(), 2);
}

#[test]
fn messages_left_are_dropped_with_the_queue() {
    let (drops, detect) = detector();
    let mut memory = Memory::new();
    let channel = BasicChannel::new(&mut memory);
    let other = BasicChannel::new(&mut memory);
    channel.send(&mut memory, detect);
    assert!(other.recv_non_blocking(&mut memory).is_none());
    assert_eq!(drops.get(), 0);
    channel.drop(&mut memory);
    assert_eq!(drops.get(), 1);
}
