# loqui

The connection logic of Loqui, a framed request/response protocol, verified with Verus.

- `src/frames.rs`, `src/error.rs`: the frames of the protocol and what can go wrong.
- `src/client/`: how a client upgrades a stream, agrees on an encoding, and finds out who waits for
  an answer. `history.rs` states what holds from one step to the next.
- `src/server/`: what a connection task makes of each event, and how its users reach it.
  `history.rs` states what holds from one event to the next.
- `src/sequence.rs`, `src/waiter.rs`, `src/clock.rs`: sequence ids, whoever waits for an outcome,
  and points in time.
- `app/`: runs connections on TCP streams. The codecs that turn bytes into frames are the caller's.

The channels are those of `futures`, sizes are those of `bytesize`, and errors of any other kind are
carried as those of `failure`. What the proofs take on trust
of them, and of the standard library, stands beside each call, in the doc comment of the item that
makes it.
