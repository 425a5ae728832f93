use utp::stream::outcome;
use utp::{Op, Outcome, Readiness, Slot, UtpStreamFutures};

fn idle() -> UtpStreamFutures {
    UtpStreamFutures { read: Slot::Empty, write: Slot::Empty, flush: Slot::Empty, close: Slot::Empty }
}

#[test]
fn new_stream_has_nothing_in_flight() {
    assert_eq!(UtpStreamFutures::new(), idle());
    assert_eq!(UtpStreamFutures::default(), idle());
    for op in [Op::Read, Op::Write, Op::Flush, Op::Close] {
        assert_eq!(UtpStreamFutures::new().slot(op), Slot::Empty);
    }
}

#[test]
fn start_reports_new_operation_only_on_empty_slot() {
    let mut f = UtpStreamFutures::new();
    assert!(f.start(Op::Flush));
    assert_eq!(f.flush, Slot::Pending);
    assert!(!f.start(Op::Flush));
    assert_eq!(f.flush, Slot::Pending);
    assert_eq!(f.read, Slot::Empty);
    assert_eq!(f.write, Slot::Empty);
    assert_eq!(f.close, Slot::Empty);
}

#[test]
fn prepare_read_copies_buffer_once() {
    let mut f = UtpStreamFutures::new();
    let buf = [4u8, 5, 6, 7];
    assert_eq!(f.prepare_read(&buf), Some(vec![4, 5, 6, 7]));
    assert_eq!(f.read, Slot::Pending);
    assert_eq!(f.prepare_read(&buf), None);
    assert_eq!(f.read, Slot::Pending);
}

#[test]
fn pending_read_leaves_buffer_and_future() {
    let mut f = UtpStreamFutures::new();
    let mut buf = [1u8, 2, 3];
    f.prepare_read(&buf);
    let r = f.complete_read::<String>(&mut buf, Readiness::Pending);
    assert_eq!(r, Readiness::Pending);
    assert_eq!(buf, [1, 2, 3]);
    assert_eq!(f.read, Slot::Pending);
}

#[test]
fn finished_read_fills_buffer_and_returns_count() {
    let mut f = UtpStreamFutures::new();
    let mut buf = [0u8; 5];
    let request = f.prepare_read(&buf).unwrap();
    assert_eq!(request, vec![0; 5]);
    let r = f.complete_read::<String>(&mut buf, Readiness::Ready(Ok((vec![9, 8, 7, 0, 0], 3))));
    assert_eq!(r, Readiness::Ready(Ok(3)));
    assert_eq!(buf, [9, 8, 7, 0, 0]);
    assert_eq!(f, idle());
}

#[test]
fn failed_read_passes_error_and_spends_future() {
    let mut f = UtpStreamFutures::new();
    let mut buf = [1u8, 1];
    f.prepare_read(&buf);
    let r = f.complete_read(&mut buf, Readiness::Ready(Err("reset".to_string())));
    assert_eq!(r, Readiness::Ready(Err("reset".to_string())));
    assert_eq!(buf, [1, 1]);
    assert_eq!(f.read, Slot::Spent);
    assert_eq!(f.slot(Op::Read), Slot::Spent);
}

#[test]
fn write_sends_copy_and_returns_count() {
    let mut f = UtpStreamFutures::new();
    let data = [0u8, 1, 2];
    assert_eq!(f.prepare_write(&data), Some(vec![0, 1, 2]));
    assert_eq!(f.prepare_write(&[3, 4, 5]), None);
    let r = f.complete(Op::Write, Readiness::<Result<usize, String>>::Pending);
    assert_eq!(r, Readiness::Pending);
    assert_eq!(f.write, Slot::Pending);
    let r = f.complete(Op::Write, Readiness::<Result<usize, String>>::Ready(Ok(3)));
    assert_eq!(r, Readiness::Ready(Ok(3)));
    assert_eq!(f, idle());
}

#[test]
fn failed_write_spends_future() {
    let mut f = UtpStreamFutures::new();
    f.prepare_write(&[1]);
    let r = f.complete(Op::Write, Readiness::<Result<usize, u32>>::Ready(Err(32)));
    assert_eq!(r, Readiness::Ready(Err(32)));
    assert_eq!(f.write, Slot::Spent);
}

#[test]
fn flush_is_dropped_whatever_its_outcome() {
    let mut f = UtpStreamFutures::new();
    assert!(f.start(Op::Flush));
    let r = f.complete(Op::Flush, Readiness::<Result<(), u32>>::Ready(Err(1)));
    assert_eq!(r, Readiness::Ready(Err(1)));
    assert_eq!(f, idle());
    assert!(f.start(Op::Flush));
    let r = f.complete(Op::Flush, Readiness::<Result<(), u32>>::Ready(Ok(())));
    assert_eq!(r, Readiness::Ready(Ok(())));
    assert_eq!(f, idle());
}

#[test]
fn finished_close_is_kept_spent_and_drops_write() {
    let mut f = UtpStreamFutures::new();
    f.prepare_write(&[1, 2]);
    f.prepare_read(&[0]);
    assert!(f.start(Op::Close));
    let r = f.complete(Op::Close, Readiness::<Result<(), u32>>::Pending);
    assert_eq!(r, Readiness::Pending);
    assert_eq!(f.close, Slot::Pending);
    assert_eq!(f.write, Slot::Pending);
    let r = f.complete(Op::Close, Readiness::<Result<(), u32>>::Ready(Ok(())));
    assert_eq!(r, Readiness::Ready(Ok(())));
    assert_eq!(f.close, Slot::Spent);
    assert_eq!(f.write, Slot::Empty);
    assert_eq!(f.read, Slot::Pending);
    assert_eq!(f.flush, Slot::Empty);
}

#[test]
fn failed_close_is_kept_spent_too() {
    let mut f = UtpStreamFutures::new();
    f.start(Op::Close);
    f.record(Op::Close, Outcome::Failed);
    assert_eq!(f.close, Slot::Spent);
    assert_eq!(f.write, Slot::Empty);
}

#[test]
fn many_pending_polls_start_one_operation() {
    for op in [Op::Read, Op::Write, Op::Flush] {
        let mut f = UtpStreamFutures::new();
        let mut started = 0;
        for _ in 0..5 {
            if f.start(op) {
                started += 1;
            }
            f.record(op, Outcome::Pending);
        }
        assert_eq!(started, 1);
        assert!(!f.start(op));
        f.record(op, Outcome::Succeeded);
        assert_eq!(f, idle());
    }
}

#[test]
fn polls_of_one_kind_leave_others_alone() {
    let mut f = UtpStreamFutures { read: Slot::Pending, write: Slot::Spent, flush: Slot::Empty, close: Slot::Empty };
    f.start(Op::Flush);
    f.record(Op::Flush, Outcome::Succeeded);
    assert_eq!(f, UtpStreamFutures { read: Slot::Pending, write: Slot::Spent, flush: Slot::Empty, close: Slot::Empty });
    f.record(Op::Read, Outcome::Failed);
    assert_eq!(f, UtpStreamFutures { read: Slot::Spent, write: Slot::Spent, flush: Slot::Empty, close: Slot::Empty });
}

#[test]
fn outcome_classifies_polls() {
    assert_eq!(outcome(&Readiness::<Result<u8, u8>>::Pending), Outcome::Pending);
    assert_eq!(outcome(&Readiness::<Result<u8, u8>>::Ready(Ok(1))), Outcome::Succeeded);
    assert_eq!(outcome(&Readiness::<Result<u8, u8>>::Ready(Err(1))), Outcome::Failed);
}

#[test]
fn stream_from_socket_starts_idle() {
    let s = utp::UtpStream::from(42u32);
    assert_eq!(s.socket, 42);
    assert_eq!(s.futures, idle());
    let t: utp::UtpStream<&str> = "sock".into();
    assert_eq!(t.socket, "sock");
    assert_eq!(t.futures, UtpStreamFutures::new());
}
