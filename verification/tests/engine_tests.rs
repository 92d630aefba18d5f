use endless_ssh_rs::randline;
use endless_ssh_rs::sendline_outcome;
use endless_ssh_rs::ClientQueue;
use endless_ssh_rs::Config;
use endless_ssh_rs::Timeout;
use endless_ssh_rs::WriteErrorKind;

fn config(delay_ms: u64, max_line_length: usize, max_clients: u64) -> Config {
    let mut config = Config::new();
    config.set_delay(delay_ms);
    config.set_max_line_length(max_line_length);
    config.set_max_clients(max_clients);
    config
}

/// One client on a fast schedule receives a steady stream of valid lines.
#[test]
fn single_slow_client_receives_lines() {
    let mut queue = ClientQueue::new(config(500, 10, 1));
    queue.note_connect();
    assert!(queue.try_admit("peer-a".to_string(), 0).is_some());

    let mut lines = 0u64;
    let mut now = 0u64;
    while now <= 5000 {
        match queue.next_wait(now) {
            Timeout::Infinite => panic!("the client vanished"),
            Timeout::Duration(wait) => now += wait,
        }
        let client = queue.pop_due(now).expect("the front client is due");
        let line = randline(10);
        assert!(line.len() >= 3 && line.len() <= 10);
        assert!(line.ends_with(b"\r\n"));
        assert!(!line.starts_with(b"SSH-"));
        lines += 1;
        queue.finish_tick(client, now, Ok(line.len() as u64));
    }

    // one line per 500 ms tick over five seconds
    assert!(lines >= 9);
    assert_eq!(queue.active_clients(), 1);
    assert_eq!(queue.stats().processed_clients, lines);
    assert_eq!(queue.stats().lost_clients, 0);
}

/// With one slot, a second concurrent connection is refused, while the
/// first keeps its place.
#[test]
fn admission_rejects_when_full() {
    let mut queue = ClientQueue::new(config(500, 10, 1));

    queue.note_connect();
    let a = queue.try_admit("peer-a".to_string(), 0);
    assert!(a.is_some());

    queue.note_connect();
    let b = queue.try_admit("peer-b".to_string(), 1);
    assert!(b.is_none());

    assert_eq!(queue.stats().connects, 2);
    assert_eq!(queue.active_clients(), 1);
    assert_eq!(queue.available_slots(), 0);
}

/// A client whose write fails is lost exactly once and frees its slot for a
/// new connection; the others are untouched.
#[test]
fn lost_client_frees_its_slot() {
    let mut queue = ClientQueue::new(config(100, 32, 4));
    for (i, peer) in ["a", "b", "c", "d"].iter().enumerate() {
        queue.note_connect();
        assert!(queue.try_admit(peer.to_string(), i as u64).is_some());
    }
    assert_eq!(queue.available_slots(), 0);

    // the first client comes due, and its write breaks
    let client = queue.pop_due(200).expect("client a is due");
    queue.finish_tick(client, 200, Err(()));

    assert_eq!(queue.stats().lost_clients, 1);
    assert_eq!(queue.active_clients(), 3);
    assert_eq!(queue.available_slots(), 1);

    // the freed slot admits a new connection
    queue.note_connect();
    assert!(queue.try_admit("e".to_string(), 201).is_some());
    assert_eq!(queue.available_slots(), 0);
}

/// Available slots and active clients always partition the capacity.
#[test]
fn slots_and_clients_partition_capacity() {
    let max_clients = 5u64;
    let mut queue = ClientQueue::new(config(100, 32, max_clients));
    let balance =
        |queue: &ClientQueue| queue.available_slots() + queue.active_clients() as u64;

    assert_eq!(balance(&queue), max_clients);
    for i in 0..7u64 {
        queue.note_connect();
        queue.try_admit(format!("peer-{}", i), i);
        assert_eq!(balance(&queue), max_clients);
    }
    let client = queue.pop_due(150).expect("a client is due");
    queue.finish_tick(client, 150, Ok(4));
    assert_eq!(balance(&queue), max_clients);

    let client = queue.pop_due(151).expect("a client is due");
    queue.finish_tick(client, 151, Err(()));
    assert_eq!(balance(&queue), max_clients);

    queue.destroy_clients();
    assert_eq!(balance(&queue), max_clients);
}

/// A client's byte counter is the sum of the lines written to it; a
/// would-block tick adds nothing.
#[test]
fn bytes_sent_sums_written_lines() {
    let mut queue = ClientQueue::new(config(100, 32, 1));
    queue.note_connect();
    queue.try_admit("peer-a".to_string(), 0).unwrap();

    let outcomes = [Ok(5u64), Ok(0), Ok(7)];
    let mut now = 0u64;
    for outcome in outcomes {
        now += 100;
        let client = queue.pop_due(now).expect("due");
        queue.finish_tick(client, now, outcome);
    }

    let client = queue.pop_due(10000).expect("due");
    assert_eq!(client.bytes_sent(), 12);
    assert_eq!(client.time_spent(), 300);
    queue.finish_tick(client, 10000, Ok(0));

    assert_eq!(queue.stats().bytes_sent, 12);
    assert_eq!(queue.stats().time_spent_ms, 400);
}

/// The schedule of one client never regresses, and two sends are at least
/// one delay apart even at the smallest delay.
#[test]
fn send_next_is_monotone_at_minimum_delay() {
    let mut queue = ClientQueue::new(config(1, 32, 1));
    queue.note_connect();
    queue.try_admit("peer-a".to_string(), 0).unwrap();

    let mut previous = 0u64;
    let mut now = 0u64;
    for _ in 0..100 {
        now += 1;
        let client = queue.pop_due(now).expect("due every millisecond");
        let send_next = client.send_next();
        assert!(send_next >= previous);
        assert!(send_next <= now);
        queue.finish_tick(client, now, Ok(3));
        previous = send_next;
    }
    assert_eq!(queue.stats().processed_clients, 100);
}

/// Clients not yet due are not served, and the reported wait is exact.
#[test]
fn waits_are_exact() {
    let mut queue = ClientQueue::new(config(500, 32, 2));
    assert_eq!(queue.next_wait(0), Timeout::Infinite);

    queue.note_connect();
    queue.try_admit("peer-a".to_string(), 1000).unwrap();

    assert_eq!(queue.next_wait(1000), Timeout::Duration(500));
    assert_eq!(queue.next_wait(1499), Timeout::Duration(1));
    assert!(queue.pop_due(1499).is_none());
    assert_eq!(queue.next_wait(1500), Timeout::Duration(0));
    let client = queue.pop_due(1500).expect("due at its send time");
    assert_eq!(client.send_next(), 1500);
    queue.finish_tick(client, 1500, Ok(3));
    assert_eq!(queue.next_wait(1500), Timeout::Duration(500));
}

/// Shutdown drops every client, returns every slot, and leaves the
/// counters alone; doing it twice is the same as doing it once.
#[test]
fn shutdown_is_clean_and_idempotent() {
    let mut queue = ClientQueue::new(config(250, 32, 10));
    for i in 0..10u64 {
        queue.note_connect();
        queue.try_admit(format!("peer-{}", i), i).unwrap();
    }
    let client = queue.pop_due(300).expect("due");
    queue.finish_tick(client, 300, Ok(6));
    let stats_before = queue.stats();

    let time_credited = queue.destroy_clients();
    assert_eq!(time_credited, 250);
    assert_eq!(queue.active_clients(), 0);
    assert_eq!(queue.available_slots(), 10);
    assert_eq!(queue.stats(), stats_before);

    let second = queue.destroy_clients();
    assert_eq!(second, 0);
    assert_eq!(queue.active_clients(), 0);
    assert_eq!(queue.available_slots(), 10);
    assert_eq!(queue.stats(), stats_before);
}

#[test]
fn write_outcomes_follow_the_error_class() {
    assert_eq!(sendline_outcome(100, None), Ok(100));
    assert_eq!(sendline_outcome(100, Some(WriteErrorKind::WouldBlock)), Ok(0));
    assert_eq!(
        sendline_outcome(100, Some(WriteErrorKind::NotConnected)),
        Err(())
    );
    assert_eq!(
        sendline_outcome(100, Some(WriteErrorKind::ConnectionReset)),
        Err(())
    );
    assert_eq!(sendline_outcome(100, Some(WriteErrorKind::TimedOut)), Err(()));
    assert_eq!(
        sendline_outcome(100, Some(WriteErrorKind::BrokenPipe)),
        Err(())
    );
    assert_eq!(sendline_outcome(100, Some(WriteErrorKind::Other)), Err(()));
}
