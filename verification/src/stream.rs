use vstd::prelude::*;

verus! {

/// The kinds of operation for which a stream keeps a future in flight.
#[derive(Clone, Copy, Debug, PartialEq, Eq, Structural)]
pub enum Op {
    Read,
    Write,
    Flush,
    Close,
}

/// Where the future of one kind of operation stands.
#[derive(Clone, Copy, Debug, PartialEq, Eq, Structural)]
pub enum Slot {
    /// No future of this kind is stored: the next poll starts a new operation.
    Empty,
    /// A future is stored and has not finished: the next poll resumes it.
    Pending,
    /// A future is stored that has already finished; it can not be polled again.
    Spent,
}

/// What one poll of an in-flight future gave: not finished yet, or finished with a value.
#[derive(Debug, PartialEq, Eq)]
pub enum Readiness<T> {
    Pending,
    Ready(T),
}

/// How a poll of an in-flight future ended, without its value.
#[derive(Clone, Copy, Debug, PartialEq, Eq, Structural)]
pub enum Outcome {
    /// The future has not finished.
    Pending,
    /// The future finished with `Ok`.
    Succeeded,
    /// The future finished with `Err`.
    Failed,
}

/// How the poll that gave `r` ended.
pub open spec fn outcome_of<T, E>(r: Readiness<Result<T, E>>) -> Outcome {
    match r {
        Readiness::Pending => Outcome::Pending,
        Readiness::Ready(Ok(_)) => Outcome::Succeeded,
        Readiness::Ready(Err(_)) => Outcome::Failed,
    }
}

/// How the poll that gave `r` ended.
pub fn outcome<T, E>(r: &Readiness<Result<T, E>>) -> (o: Outcome)
    ensures
        o == outcome_of(*r),
        (o == Outcome::Pending) <==> (r is Pending),
        (o == Outcome::Succeeded) <==> (r matches Readiness::Ready(Ok(_))),
        (o == Outcome::Failed) <==> (r matches Readiness::Ready(Err(_))),
{
    match r {
        Readiness::Pending => Outcome::Pending,
        Readiness::Ready(Ok(_)) => Outcome::Succeeded,
        Readiness::Ready(Err(_)) => Outcome::Failed,
    }
}

/// A vector that holds the bytes of `buf`.
fn copy_of(buf: &[u8]) -> (v: Vec<u8>)
    ensures
        v@ == buf@,
{
    let mut v: Vec<u8> = Vec::new();
    let mut i: usize = 0;
    while i < buf.len()
        invariant
            i <= buf@.len(),
            v@ == buf@.subrange(0, i as int),
        decreases buf@.len() - i,
    {
        v.push(buf[i]);
        i = i + 1;
    }
    v
}

/// Overwrites all of `buf` with `bytes`, which is as long.
fn fill(buf: &mut [u8], bytes: &Vec<u8>)
    requires
        bytes@.len() == old(buf)@.len(),
    ensures
        final(buf)@ == bytes@,
{
    let mut i: usize = 0;
    while i < buf.len()
        invariant
            i <= buf@.len(),
            buf@.len() == bytes@.len(),
            forall|j: int| 0 <= j < i ==> buf@[j] == bytes@[j],
        decreases buf@.len() - i,
    {
        buf[i] = bytes[i];
        i = i + 1;
    }
    assert(buf@ =~= bytes@);
}

/// The futures a stream holds, one slot per kind of operation.
#[derive(Clone, Copy, Debug, PartialEq, Eq, Structural)]
pub struct UtpStreamFutures {
    pub read: Slot,
    pub write: Slot,
    pub flush: Slot,
    pub close: Slot,
}

impl Default for UtpStreamFutures {
    /// A stream with no future in flight.
    fn default() -> (s: Self)
        ensures
            s == UtpStreamFutures::idle(),
            s.read == Slot::Empty && s.write == Slot::Empty,
            s.flush == Slot::Empty && s.close == Slot::Empty,
    {
        UtpStreamFutures::new()
    }
}

impl UtpStreamFutures {
    /// The state of a stream that has no future in flight.
    pub open spec fn idle() -> Self {
        UtpStreamFutures { read: Slot::Empty, write: Slot::Empty, flush: Slot::Empty, close: Slot::Empty }
    }

    /// The slot that holds the future of kind `op`.
    pub open spec fn slot_of(self, op: Op) -> Slot {
        match op {
            Op::Read => self.read,
            Op::Write => self.write,
            Op::Flush => self.flush,
            Op::Close => self.close,
        }
    }

    /// The same state with the slot of kind `op` set to `s`.
    pub open spec fn with_slot(self, op: Op, s: Slot) -> Self {
        match op {
            Op::Read => UtpStreamFutures { read: s, ..self },
            Op::Write => UtpStreamFutures { write: s, ..self },
            Op::Flush => UtpStreamFutures { flush: s, ..self },
            Op::Close => UtpStreamFutures { close: s, ..self },
        }
    }

    /// The state once a poll of kind `op` has made sure that a future of that kind
    /// is in flight: a new one if the slot was empty, else the one stored.
    pub open spec fn after_start(self, op: Op) -> Self {
        self.with_slot(op, Slot::Pending)
    }

    /// The state once the in-flight future of kind `op` was polled and ended as `o`.
    ///
    /// A future that has not finished stays. A finished read or write is dropped
    /// when it succeeded and stays, spent, when it failed. A finished flush is
    /// dropped. A finished close stays, spent, and the write future is dropped.
    pub open spec fn after_poll(self, op: Op, o: Outcome) -> Self {
        match o {
            Outcome::Pending => self,
            Outcome::Succeeded => match op {
                Op::Close => self.with_slot(Op::Close, Slot::Spent).with_slot(Op::Write, Slot::Empty),
                _ => self.with_slot(op, Slot::Empty),
            },
            Outcome::Failed => match op {
                Op::Read => self.with_slot(op, Slot::Spent),
                Op::Write => self.with_slot(op, Slot::Spent),
                Op::Flush => self.with_slot(op, Slot::Empty),
                Op::Close => self.with_slot(Op::Close, Slot::Spent).with_slot(Op::Write, Slot::Empty),
            },
        }
    }

    /// A stream with no future in flight.
    pub fn new() -> (s: Self)
        ensures
            s == Self::idle(),
            s.read == Slot::Empty && s.write == Slot::Empty,
            s.flush == Slot::Empty && s.close == Slot::Empty,
    {
        UtpStreamFutures { read: Slot::Empty, write: Slot::Empty, flush: Slot::Empty, close: Slot::Empty }
    }

    /// Where the future of kind `op` stands.
    pub fn slot(&self, op: Op) -> (s: Slot)
        ensures
            s == self.slot_of(op),
    {
        match op {
            Op::Read => self.read,
            Op::Write => self.write,
            Op::Flush => self.flush,
            Op::Close => self.close,
        }
    }

    /// Makes sure a future of kind `op` is in flight. Returns `true` when the slot
    /// was empty, so that the caller must create the future of a new operation, and
    /// `false` when the stored future is to be resumed. A spent future can not be
    /// resumed: polling it again would panic, so `requires` leaves that state out.
    pub fn start(&mut self, op: Op) -> (new_op: bool)
        requires
            old(self).slot_of(op) != Slot::Spent,
        ensures
            new_op == (old(self).slot_of(op) == Slot::Empty),
            *final(self) == old(self).after_start(op),
            op == Op::Read ==> *final(self) == (UtpStreamFutures { read: Slot::Pending, ..*old(self) }),
            op == Op::Write ==> *final(self) == (UtpStreamFutures { write: Slot::Pending, ..*old(self) }),
            op == Op::Flush ==> *final(self) == (UtpStreamFutures { flush: Slot::Pending, ..*old(self) }),
            op == Op::Close ==> *final(self) == (UtpStreamFutures { close: Slot::Pending, ..*old(self) }),
    {
        let new_op = match self.slot(op) {
            Slot::Empty => true,
            _ => false,
        };
        match op {
            Op::Read => self.read = Slot::Pending,
            Op::Write => self.write = Slot::Pending,
            Op::Flush => self.flush = Slot::Pending,
            Op::Close => self.close = Slot::Pending,
        }
        new_op
    }

    /// Records how the poll of the in-flight future of kind `op` ended.
    pub fn record(&mut self, op: Op, o: Outcome)
        requires
            old(self).slot_of(op) == Slot::Pending,
        ensures
            *final(self) == old(self).after_poll(op, o),
            o == Outcome::Pending ==> *final(self) == *old(self),
            o != Outcome::Pending && op == Op::Read ==> *final(self) == (UtpStreamFutures {
                read: if o == Outcome::Succeeded { Slot::Empty } else { Slot::Spent },
                ..*old(self)
            }),
            o != Outcome::Pending && op == Op::Write ==> *final(self) == (UtpStreamFutures {
                write: if o == Outcome::Succeeded { Slot::Empty } else { Slot::Spent },
                ..*old(self)
            }),
            o != Outcome::Pending && op == Op::Flush ==> *final(self) == (UtpStreamFutures { flush: Slot::Empty, ..*old(self) }),
            o != Outcome::Pending && op == Op::Close ==> *final(self) == (UtpStreamFutures {
                close: Slot::Spent,
                write: Slot::Empty,
                ..*old(self)
            }),
    {
        match o {
            Outcome::Pending => {},
            Outcome::Succeeded => match op {
                Op::Read => self.read = Slot::Empty,
                Op::Write => self.write = Slot::Empty,
                Op::Flush => self.flush = Slot::Empty,
                Op::Close => {
                    self.close = Slot::Spent;
                    self.write = Slot::Empty;
                },
            },
            Outcome::Failed => match op {
                Op::Read => self.read = Slot::Spent,
                Op::Write => self.write = Slot::Spent,
                Op::Flush => self.flush = Slot::Empty,
                Op::Close => {
                    self.close = Slot::Spent;
                    self.write = Slot::Empty;
                },
            },
        }
    }

    /// Begins a poll for reading into `buf`. When no read is in flight, a new one
    /// starts and the buffer that the socket is to receive into is returned: a copy
    /// of `buf`. When one is in flight, `None` is returned and it is resumed.
    pub fn prepare_read(&mut self, buf: &[u8]) -> (request: Option<Vec<u8>>)
        requires
            old(self).read != Slot::Spent,
        ensures
            *final(self) == old(self).after_start(Op::Read),
            *final(self) == (UtpStreamFutures { read: Slot::Pending, ..*old(self) }),
            request is Some <==> old(self).read == Slot::Empty,
            request matches Some(v) ==> v@ == buf@,
    {
        if self.start(Op::Read) {
            Some(copy_of(buf))
        } else {
            None
        }
    }

    /// Ends a poll of the in-flight read that gave `polled`. When the read
    /// finished with the received buffer and a count, the buffer is copied into
    /// `buf` and the count is the result; an error is the result as it came; a
    /// read that has not finished leaves `buf` as it was.
    pub fn complete_read<E>(&mut self, buf: &mut [u8], polled: Readiness<Result<(Vec<u8>, usize), E>>) -> (r: Readiness<Result<usize, E>>)
        requires
            old(self).read == Slot::Pending,
            polled matches Readiness::Ready(Ok((bytes, _))) ==> bytes@.len() == old(buf)@.len(),
        ensures
            *final(self) == old(self).after_poll(Op::Read, outcome_of(polled)),
            match polled {
                Readiness::Pending => r is Pending && final(buf)@ == old(buf)@ && *final(self) == *old(self),
                Readiness::Ready(Err(e)) => r == Readiness::<Result<usize, E>>::Ready(Err(e)) && final(buf)@ == old(buf)@
                    && *final(self) == (UtpStreamFutures { read: Slot::Spent, ..*old(self) }),
                Readiness::Ready(Ok((bytes, n))) => r == Readiness::<Result<usize, E>>::Ready(Ok(n)) && final(buf)@ == bytes@
                    && *final(self) == (UtpStreamFutures { read: Slot::Empty, ..*old(self) }),
            },
    {
        let o = outcome(&polled);
        self.record(Op::Read, o);
        match polled {
            Readiness::Pending => Readiness::Pending,
            Readiness::Ready(Err(e)) => Readiness::Ready(Err(e)),
            Readiness::Ready(Ok((bytes, n))) => {
                fill(buf, &bytes);
                Readiness::Ready(Ok(n))
            },
        }
    }

    /// Begins a poll for writing `buf`. When no write is in flight, a new one
    /// starts and the bytes that the socket is to send are returned: a copy of
    /// `buf`. When one is in flight, `None` is returned and it is resumed.
    pub fn prepare_write(&mut self, buf: &[u8]) -> (request: Option<Vec<u8>>)
        requires
            old(self).write != Slot::Spent,
        ensures
            *final(self) == old(self).after_start(Op::Write),
            *final(self) == (UtpStreamFutures { write: Slot::Pending, ..*old(self) }),
            request is Some <==> old(self).write == Slot::Empty,
            request matches Some(v) ==> v@ == buf@,
    {
        if self.start(Op::Write) {
            Some(copy_of(buf))
        } else {
            None
        }
    }

    /// Ends a poll of the in-flight write, flush or close (`op`) that gave
    /// `polled`; the result is what the poll gave.
    pub fn complete<T, E>(&mut self, op: Op, polled: Readiness<Result<T, E>>) -> (r: Readiness<Result<T, E>>)
        requires
            op != Op::Read,
            old(self).slot_of(op) == Slot::Pending,
        ensures
            *final(self) == old(self).after_poll(op, outcome_of(polled)),
            r == polled,
            polled is Pending ==> *final(self) == *old(self),
            polled matches Readiness::Ready(Ok(_)) && op == Op::Write ==> *final(self) == (UtpStreamFutures { write: Slot::Empty, ..*old(self) }),
            polled matches Readiness::Ready(Err(_)) && op == Op::Write ==> *final(self) == (UtpStreamFutures { write: Slot::Spent, ..*old(self) }),
            polled is Ready && op == Op::Flush ==> *final(self) == (UtpStreamFutures { flush: Slot::Empty, ..*old(self) }),
            polled is Ready && op == Op::Close ==> *final(self) == (UtpStreamFutures {
                close: Slot::Spent,
                write: Slot::Empty,
                ..*old(self)
            }),
    {
        let o = outcome(&polled);
        self.record(op, o);
        polled
    }
}

/// A uTP stream: the socket it runs on and the futures it has in flight.
pub struct UtpStream<S> {
    pub socket: S,
    pub futures: UtpStreamFutures,
}

impl<S> From<S> for UtpStream<S> {
    /// A stream over `socket` with no future in flight.
    fn from(socket: S) -> (stream: Self)
        ensures
            stream.socket == socket,
            stream.futures == (UtpStreamFutures {
                read: Slot::Empty,
                write: Slot::Empty,
                flush: Slot::Empty,
                close: Slot::Empty,
            }),
    {
        UtpStream { socket, futures: UtpStreamFutures::new() }
    }
}

impl<S> vstd::std_specs::convert::FromSpecImpl<S> for UtpStream<S> {
    open spec fn obeys_from_spec() -> bool {
        true
    }

    open spec fn from_spec(socket: S) -> Self {
        UtpStream { socket, futures: UtpStreamFutures::idle() }
    }
}

} // verus!
