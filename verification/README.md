# utp

The verified core of a uTP byte stream.

- `src/stream.rs`: the state machine that decides, for each poll of a stream,
  whether a read, write, flush or close starts a new operation or resumes the
  one in flight, and what happens to the stored future when the poll ends;
  the read and write buffers handed to and taken from the socket; and
  `UtpStream`, a socket together with that state.
- `src/laws.rs`: properties of the state machine over whole call sequences.
- `app/`: the async stream itself (`AsyncRead`/`AsyncWrite` over an
  `async-std` lock around a uTP socket), which drives the futures as the
  state machine directs.
