use imu_fsr::rx_buffer::{read_bytes_begin, read_bytes_next, ReadStep};
use imu_fsr::uart_rx::{RxAction, RxPoll, RxSession, MAX_POLLS};

/// Runs one receive interrupt as the firmware does, with the port giving
/// `polls` in turn (an empty FIFO after them).
fn run_interrupt(polls: &[RxPoll], app_present: bool) -> (Vec<u8>, bool, usize) {
    let mut session = RxSession::new();
    let mut action = RxAction::Poll;
    let mut next = 0;
    let mut queue = Vec::new();
    let mut poll_count = 0;
    loop {
        match action {
            RxAction::Poll => {
                let p = if next < polls.len() { polls[next] } else { RxPoll::FifoEmpty };
                next += 1;
                poll_count += 1;
                action = session.on_poll(p);
            }
            RxAction::Enqueue(b) => {
                if app_present {
                    queue.push(b);
                }
                action = session.on_enqueue(app_present);
            }
            RxAction::Parse => return (queue, app_present, poll_count),
            RxAction::Return => return (queue, false, poll_count),
        }
    }
}

#[test]
fn empty_fifo_returns_without_parse() {
    assert_eq!(run_interrupt(&[], true), (vec![], false, 1));
    assert_eq!(run_interrupt(&[RxPoll::NoPeripheral], true), (vec![], false, 1));
}

#[test]
fn bytes_are_queued_then_parsed() {
    let polls = [RxPoll::Byte(1), RxPoll::Byte(2), RxPoll::Byte(3)];
    assert_eq!(run_interrupt(&polls, true), (vec![1, 2, 3], true, 4));
}

#[test]
fn at_most_ten_bytes_per_interrupt() {
    let polls: Vec<RxPoll> = (0..20).map(RxPoll::Byte).collect();
    let (queue, parsed, count) = run_interrupt(&polls, true);
    assert_eq!(queue, (0..MAX_POLLS).collect::<Vec<u8>>());
    assert!(parsed);
    assert_eq!(count, 10);
}

#[test]
fn missing_peripheral_after_a_byte_still_parses() {
    let polls = [RxPoll::Byte(9), RxPoll::NoPeripheral, RxPoll::Byte(4)];
    assert_eq!(run_interrupt(&polls, true), (vec![9], true, 2));
}

#[test]
fn missing_application_drops_byte_and_returns() {
    let polls = [RxPoll::Byte(1), RxPoll::Byte(2)];
    assert_eq!(run_interrupt(&polls, false), (vec![], false, 1));
}

#[test]
fn session_refuses_events_out_of_turn() {
    let mut s = RxSession::new();
    assert_eq!(s.on_enqueue(true), RxAction::Return);
    assert_eq!(s.on_poll(RxPoll::Byte(1)), RxAction::Return);
}

/// Reads into `buf` from a queue holding `queue`.
fn read_bytes(queue: &mut std::collections::VecDeque<u8>, buf: &mut [u8]) -> Option<usize> {
    let mut step = read_bytes_begin(queue.is_empty(), buf.len());
    loop {
        match step {
            ReadStep::Done(r) => return r,
            ReadStep::Pull(i) => {
                let taken = queue.pop_front();
                step = read_bytes_next(buf, i, taken);
            }
        }
    }
}

#[test]
fn read_from_empty_queue_is_none() {
    let mut q = std::collections::VecDeque::new();
    let mut buf = [0u8; 4];
    assert_eq!(read_bytes(&mut q, &mut buf), None);
    assert_eq!(buf, [0; 4]);
}

#[test]
fn read_stops_when_queue_runs_dry() {
    let mut q: std::collections::VecDeque<u8> = vec![5, 6].into();
    let mut buf = [0u8; 4];
    assert_eq!(read_bytes(&mut q, &mut buf), Some(2));
    assert_eq!(buf, [5, 6, 0, 0]);
}

#[test]
fn read_fills_the_buffer() {
    let mut q: std::collections::VecDeque<u8> = vec![1, 2, 3, 4, 5].into();
    let mut buf = [0u8; 3];
    assert_eq!(read_bytes(&mut q, &mut buf), Some(3));
    assert_eq!(buf, [1, 2, 3]);
    assert_eq!(q.len(), 2);
}

#[test]
fn read_into_empty_buffer_is_zero() {
    let mut q: std::collections::VecDeque<u8> = vec![1].into();
    let mut buf = [0u8; 0];
    assert_eq!(read_bytes(&mut q, &mut buf), Some(0));
    assert_eq!(q.len(), 1);
}
