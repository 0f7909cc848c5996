use connect_proxy::relay::{Direction, PendingQueue, Relay, RelayEnd, PENDING_LIMIT};

/// Drain one direction completely, writing at most `step` bytes per flush,
/// and return the bytes the destination saw, in order.
fn drain(relay: &mut Relay, dir: Direction, step: usize) -> Vec<u8> {
    let mut seen = Vec::new();
    loop {
        let chunk = match relay.front_chunk(dir) {
            Some(c) => c.clone(),
            None => break,
        };
        let n = step.min(chunk.len());
        seen.extend_from_slice(&chunk[..n]);
        relay.on_written(dir, n);
    }
    seen
}

#[test]
fn bytes_are_relayed_in_order_whatever_the_chunking() {
    let mut relay = Relay::new();
    let dir = Direction::ClientToTarget;
    relay.on_data(dir, b"he".to_vec());
    relay.on_data(dir, b"llo wor".to_vec());
    relay.on_data(dir, b"ld".to_vec());

    // Write in slices of three bytes, forcing short writes mid-chunk.
    let seen = drain(&mut relay, dir, 3);
    assert_eq!(seen, b"hello world".to_vec());
    assert_eq!(relay.pending_len(dir), 0);
}

#[test]
fn both_directions_relay_independently() {
    let mut relay = Relay::new();
    relay.on_data(Direction::ClientToTarget, b"ping".to_vec());
    relay.on_data(Direction::TargetToClient, b"pong!".to_vec());

    assert_eq!(relay.pending_len(Direction::ClientToTarget), 4);
    assert_eq!(relay.pending_len(Direction::TargetToClient), 5);

    let to_target = drain(&mut relay, Direction::ClientToTarget, 64);
    let to_client = drain(&mut relay, Direction::TargetToClient, 64);
    assert_eq!(to_target, b"ping".to_vec());
    assert_eq!(to_client, b"pong!".to_vec());
}

#[test]
fn short_write_delivers_the_remainder_later() {
    let mut relay = Relay::new();
    let dir = Direction::TargetToClient;
    relay.on_data(dir, b"abcdef".to_vec());

    let chunk = relay.front_chunk(dir).unwrap().clone();
    assert_eq!(chunk, b"abcdef".to_vec());
    // The destination accepted only three bytes.
    relay.on_written(dir, 3);

    // The unwritten suffix is owed at the front, exactly once.
    let chunk = relay.front_chunk(dir).unwrap().clone();
    assert_eq!(chunk, b"def".to_vec());
    relay.on_written(dir, 3);
    assert!(relay.front_chunk(dir).is_none());
}

#[test]
fn zero_length_read_ends_the_relay() {
    let mut relay = Relay::new();
    relay.on_data(Direction::ClientToTarget, b"tail".to_vec());
    assert!(relay.is_active());

    relay.on_eof();
    assert!(!relay.is_active());
    assert_eq!(relay.end(), Some(RelayEnd::EndOfStream));

    // Later events leave the finished relay untouched.
    relay.on_data(Direction::ClientToTarget, b"late".to_vec());
    assert_eq!(relay.pending_len(Direction::ClientToTarget), 4);
    relay.on_io_error();
    assert_eq!(relay.end(), Some(RelayEnd::EndOfStream));
}

#[test]
fn io_error_ends_the_relay() {
    let mut relay = Relay::new();
    relay.on_io_error();
    assert!(!relay.is_active());
    assert_eq!(relay.end(), Some(RelayEnd::IoError));
    relay.on_eof();
    assert_eq!(relay.end(), Some(RelayEnd::IoError));
}

#[test]
fn backpressure_suspends_reading_at_the_bound() {
    let mut relay = Relay::new();
    let dir = Direction::ClientToTarget;
    assert!(relay.wants_read(dir));

    relay.on_data(dir, vec![0u8; PENDING_LIMIT]);
    assert!(!relay.wants_read(dir));
    // The other direction is unaffected.
    assert!(relay.wants_read(Direction::TargetToClient));

    // Draining below the bound resumes reading.
    relay.on_written(dir, PENDING_LIMIT);
    assert!(relay.wants_read(dir));
}

#[test]
fn finished_relay_wants_no_reads() {
    let mut relay = Relay::new();
    relay.on_eof();
    assert!(!relay.wants_read(Direction::ClientToTarget));
    assert!(!relay.wants_read(Direction::TargetToClient));
}

#[test]
fn sessions_do_not_observe_each_other() {
    // Two engines, as two concurrent sessions: events on one leave the other
    // exactly as it was.
    let mut first = Relay::new();
    let mut second = Relay::new();

    first.on_data(Direction::ClientToTarget, b"first only".to_vec());
    assert_eq!(second.pending_len(Direction::ClientToTarget), 0);
    assert!(second.front_chunk(Direction::ClientToTarget).is_none());

    second.on_eof();
    assert!(first.is_active());
    assert_eq!(first.pending_len(Direction::ClientToTarget), 10);

    let seen = drain(&mut first, Direction::ClientToTarget, 4);
    assert_eq!(seen, b"first only".to_vec());
    assert!(second.front_chunk(Direction::ClientToTarget).is_none());
}

#[test]
fn pending_queue_preserves_order_and_count() {
    let mut queue = PendingQueue::new();
    assert!(queue.is_empty());
    assert_eq!(queue.byte_len(), 0);
    assert!(queue.front_chunk().is_none());

    queue.push_chunk(b"abc".to_vec());
    queue.push_chunk(b"de".to_vec());
    assert_eq!(queue.byte_len(), 5);
    assert_eq!(queue.front_chunk().unwrap(), &b"abc".to_vec());

    // A short write of one byte leaves the suffix of the front chunk.
    queue.consume_front(1);
    assert_eq!(queue.front_chunk().unwrap(), &b"bc".to_vec());
    assert_eq!(queue.byte_len(), 4);

    // A full write of the front chunk uncovers the next one.
    queue.consume_front(2);
    assert_eq!(queue.front_chunk().unwrap(), &b"de".to_vec());
    queue.consume_front(2);
    assert!(queue.is_empty());
}

#[test]
fn consume_of_zero_bytes_changes_nothing_but_the_front() {
    let mut queue = PendingQueue::new();
    queue.push_chunk(b"xy".to_vec());
    // A write that accepted nothing requeues the whole chunk.
    queue.consume_front(0);
    assert_eq!(queue.byte_len(), 2);
    assert_eq!(queue.front_chunk().unwrap(), &b"xy".to_vec());
}
