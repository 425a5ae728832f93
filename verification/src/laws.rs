use vstd::prelude::*;

use crate::stream::{outcome, Op, Outcome, Readiness, Slot, UtpStream, UtpStreamFutures};

verus! {

/// A poll that finds its operation unfinished keeps the future in flight, so the
/// next poll of the same kind resumes that operation and starts no second one.
pub proof fn pending_poll_resumes(s: UtpStreamFutures, op: Op)
    requires
        s.slot_of(op) != Slot::Spent,
    ensures
        s.after_start(op).after_poll(op, Outcome::Pending).slot_of(op) == Slot::Pending,
{
}

/// The state after `k` polls of kind `op` that each found the operation unfinished.
pub open spec fn after_pending_polls(s: UtpStreamFutures, op: Op, k: nat) -> UtpStreamFutures
    decreases k,
{
    if k == 0 {
        s
    } else {
        after_pending_polls(s.after_start(op).after_poll(op, Outcome::Pending), op, (k - 1) as nat)
    }
}

/// How many of those `k` polls started a new operation.
pub open spec fn starts_in_pending_polls(s: UtpStreamFutures, op: Op, k: nat) -> nat
    decreases k,
{
    if k == 0 {
        0
    } else {
        (if s.slot_of(op) == Slot::Empty { 1nat } else { 0nat }) + starts_in_pending_polls(
            s.after_start(op).after_poll(op, Outcome::Pending),
            op,
            (k - 1) as nat,
        )
    }
}

/// However many polls an operation takes before it finishes, only the first of
/// them starts it: polls of a kind whose slot was empty start exactly one
/// operation, and once a read, write or flush then succeeds the stream is back
/// where it stood before the first poll.
pub proof fn one_operation_per_call(s: UtpStreamFutures, op: Op, k: nat)
    requires
        s.slot_of(op) == Slot::Empty,
    ensures
        k > 0 ==> starts_in_pending_polls(s, op, k) == 1,
        k > 0 ==> after_pending_polls(s, op, k) == s.after_start(op),
        op != Op::Close ==> after_pending_polls(s, op, k).after_start(op).after_poll(op, Outcome::Succeeded) == s,
    decreases k,
{
    if k > 0 {
        let t = s.after_start(op).after_poll(op, Outcome::Pending);
        assert(t == s.after_start(op));
        resumed_polls_start_nothing(t, op, (k - 1) as nat);
    }
    if op != Op::Close {
        finished_operation_restores(s, op);
    }
}

/// Polls of a kind whose operation is in flight start nothing and keep it in flight.
pub proof fn resumed_polls_start_nothing(s: UtpStreamFutures, op: Op, k: nat)
    requires
        s.slot_of(op) == Slot::Pending,
    ensures
        starts_in_pending_polls(s, op, k) == 0,
        after_pending_polls(s, op, k) == s,
    decreases k,
{
    if k > 0 {
        assert(s.after_start(op).after_poll(op, Outcome::Pending) =~= s);
        resumed_polls_start_nothing(s, op, (k - 1) as nat);
    }
}

/// A read, write or flush that was started on an empty slot and then succeeded
/// leaves the stream exactly as it was before the call; a flush does so also when
/// it failed.
pub proof fn finished_operation_restores(s: UtpStreamFutures, op: Op)
    requires
        s.slot_of(op) == Slot::Empty,
        op != Op::Close,
    ensures
        s.after_start(op).after_poll(op, Outcome::Succeeded) == s,
        op == Op::Flush ==> s.after_start(op).after_poll(op, Outcome::Failed) == s,
{
    assert(s.after_start(op).after_poll(op, Outcome::Succeeded) =~= s);
}

/// A poll of one kind leaves the future of every other kind where it stood, with
/// one exception: a close that finished drops the write future.
pub proof fn other_kinds_untouched(s: UtpStreamFutures, op: Op, other: Op, o: Outcome)
    requires
        op != other,
        !(op == Op::Close && other == Op::Write && o != Outcome::Pending),
    ensures
        s.after_start(op).slot_of(other) == s.slot_of(other),
        s.after_poll(op, o).slot_of(other) == s.slot_of(other),
{
}

/// A close that finished, with either outcome, stays stored as a spent future,
/// so the stream can not be closed through a second poll, and the write future
/// is gone.
pub proof fn finished_close_is_spent(s: UtpStreamFutures, o: Outcome)
    requires
        o != Outcome::Pending,
    ensures
        s.after_poll(Op::Close, o).slot_of(Op::Close) == Slot::Spent,
        s.after_poll(Op::Close, o).slot_of(Op::Write) == Slot::Empty,
{
}

/// A read or write that failed stays stored as a spent future, so no further
/// operation of that kind can be started on the stream.
pub proof fn failed_transfer_is_spent(s: UtpStreamFutures, op: Op)
    requires
        op == Op::Read || op == Op::Write,
    ensures
        s.after_poll(op, Outcome::Failed).slot_of(op) == Slot::Spent,
{
}

/// A stream made from a socket keeps that socket and has no operation in flight,
/// whatever the socket's type: its first poll of any kind starts a new operation.
pub proof fn stream_from_socket_is_idle<S>(socket: S, stream: UtpStream<S>)
    requires
        call_ensures(<UtpStream<S> as From<S>>::from, (socket,), stream),
    ensures
        stream.socket == socket,
        stream.futures.read == Slot::Empty,
        stream.futures.write == Slot::Empty,
        stream.futures.flush == Slot::Empty,
        stream.futures.close == Slot::Empty,
{
}

/// A new futures state, made either way, has no operation in flight.
pub proof fn new_state_is_idle(a: UtpStreamFutures, b: UtpStreamFutures)
    requires
        call_ensures(UtpStreamFutures::new, (), a),
        call_ensures(<UtpStreamFutures as Default>::default, (), b),
    ensures
        a.read == Slot::Empty && a.write == Slot::Empty && a.flush == Slot::Empty && a.close == Slot::Empty,
        a == b,
{
}

/// Classifying a poll: it is pending exactly when the future has not finished,
/// succeeded exactly when it finished with `Ok` and failed exactly when it
/// finished with `Err`, for every value and error type.
pub proof fn outcome_classifies<T, E>(r: Readiness<Result<T, E>>, o: Outcome)
    requires
        call_ensures(outcome::<T, E>, (&r,), o),
    ensures
        r is Pending ==> o == Outcome::Pending,
        r matches Readiness::Ready(Ok(_)) ==> o == Outcome::Succeeded,
        r matches Readiness::Ready(Err(_)) ==> o == Outcome::Failed,
{
}

/// A read poll, for every error type: when the receive has not finished nothing
/// changes and the poll is pending; when it finished with the received buffer and
/// a count, the buffer lands in `buf`, the count is returned and the read slot is
/// emptied, so the next read starts a new receive; when it failed, the error is
/// returned, `buf` is untouched and the finished future stays. The other slots
/// never change.
pub proof fn read_poll_result<E>(
    f: &mut UtpStreamFutures,
    buf: &mut [u8],
    polled: Readiness<Result<(Vec<u8>, usize), E>>,
    r: Readiness<Result<usize, E>>,
)
    requires
        old(f).read == Slot::Pending,
        call_ensures(UtpStreamFutures::complete_read::<E>, (f, buf, polled), r),
    ensures
        final(f).write == old(f).write,
        final(f).flush == old(f).flush,
        final(f).close == old(f).close,
        polled is Pending ==> r is Pending && final(f).read == Slot::Pending && final(buf)@ == old(buf)@,
        polled matches Readiness::Ready(Ok((bytes, n))) ==> r == Readiness::<Result<usize, E>>::Ready(Ok(n))
            && final(f).read == Slot::Empty && final(buf)@ == bytes@,
        polled matches Readiness::Ready(Err(e)) ==> r == Readiness::<Result<usize, E>>::Ready(Err(e))
            && final(f).read == Slot::Spent && final(buf)@ == old(buf)@,
{
}

/// A poll of any kind that finds its future unfinished changes no slot at all
/// and is pending itself, for every value and error type.
pub proof fn pending_poll_changes_nothing<T, E>(
    f: &mut UtpStreamFutures,
    op: Op,
    polled: Readiness<Result<T, E>>,
    r: Readiness<Result<T, E>>,
)
    requires
        old(f).slot_of(op) == Slot::Pending,
        polled is Pending,
        call_ensures(UtpStreamFutures::complete::<T, E>, (f, op, polled), r),
    ensures
        r is Pending,
        final(f).read == old(f).read,
        final(f).write == old(f).write,
        final(f).flush == old(f).flush,
        final(f).close == old(f).close,
{
}

/// A write poll, for every value and error type, returns what the send gave; a
/// send that succeeded empties the write slot, so the next write starts a new
/// send; one that failed stays; the other slots never change.
pub proof fn write_poll_result<T, E>(
    f: &mut UtpStreamFutures,
    polled: Readiness<Result<T, E>>,
    r: Readiness<Result<T, E>>,
)
    requires
        old(f).write == Slot::Pending,
        call_ensures(UtpStreamFutures::complete::<T, E>, (f, Op::Write, polled), r),
    ensures
        r == polled,
        final(f).read == old(f).read,
        final(f).flush == old(f).flush,
        final(f).close == old(f).close,
        polled is Pending ==> final(f).write == Slot::Pending,
        polled matches Readiness::Ready(Ok(_)) ==> final(f).write == Slot::Empty,
        polled matches Readiness::Ready(Err(_)) ==> final(f).write == Slot::Spent,
{
}

/// A flush poll, for every value and error type, returns what the flush gave;
/// once the flush finished, with either result, its slot is empty, so it is never
/// polled again; the other slots never change.
pub proof fn flush_poll_result<T, E>(
    f: &mut UtpStreamFutures,
    polled: Readiness<Result<T, E>>,
    r: Readiness<Result<T, E>>,
)
    requires
        old(f).flush == Slot::Pending,
        call_ensures(UtpStreamFutures::complete::<T, E>, (f, Op::Flush, polled), r),
    ensures
        r == polled,
        final(f).read == old(f).read,
        final(f).write == old(f).write,
        final(f).close == old(f).close,
        polled is Pending ==> final(f).flush == Slot::Pending,
        polled is Ready ==> final(f).flush == Slot::Empty,
{
}

/// A close poll, for every value and error type, returns what the flush of the
/// socket gave; while it is unfinished nothing changes; once it finished, the
/// close future is kept (spent) and the write future is dropped; the read and
/// flush slots never change.
pub proof fn close_poll_result<T, E>(
    f: &mut UtpStreamFutures,
    polled: Readiness<Result<T, E>>,
    r: Readiness<Result<T, E>>,
)
    requires
        old(f).close == Slot::Pending,
        call_ensures(UtpStreamFutures::complete::<T, E>, (f, Op::Close, polled), r),
    ensures
        r == polled,
        final(f).read == old(f).read,
        final(f).flush == old(f).flush,
        polled is Pending ==> final(f).close == Slot::Pending && final(f).write == old(f).write,
        polled is Ready ==> final(f).close == Slot::Spent && final(f).write == Slot::Empty,
{
}

/// Beginning a read or write poll: a new operation, handed a copy of the caller's
/// buffer, starts exactly when none of that kind is in flight; afterwards one is
/// in flight and the other slots are as they were.
pub proof fn transfer_begins_once(
    f: &mut UtpStreamFutures,
    g: &mut UtpStreamFutures,
    buf: &[u8],
    read_request: Option<Vec<u8>>,
    write_request: Option<Vec<u8>>,
)
    requires
        old(f).read != Slot::Spent,
        old(g).write != Slot::Spent,
        call_ensures(UtpStreamFutures::prepare_read, (f, buf), read_request),
        call_ensures(UtpStreamFutures::prepare_write, (g, buf), write_request),
    ensures
        read_request is Some <==> old(f).read == Slot::Empty,
        read_request matches Some(v) ==> v@ == buf@,
        final(f).read == Slot::Pending,
        final(f).write == old(f).write && final(f).flush == old(f).flush && final(f).close == old(f).close,
        write_request is Some <==> old(g).write == Slot::Empty,
        write_request matches Some(v) ==> v@ == buf@,
        final(g).write == Slot::Pending,
        final(g).read == old(g).read && final(g).flush == old(g).flush && final(g).close == old(g).close,
{
}

} // verus!
