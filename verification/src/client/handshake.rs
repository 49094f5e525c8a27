//! How a client agrees with a server on what the connection speaks: it sends a hello and awaits
//! the acknowledgement. Each step takes what the stream did and says what it means.

use crate::client::encoding::{find_encoding, supports};
use crate::clock::millis;
use crate::error::{Failure, LoquiError};
use crate::frames::{Hello, HelloAck, LoquiFrame, VERSION};
use std::time::Duration;
use vstd::prelude::*;

verus! {

/// What a completed handshake settled.
#[derive(Debug, PartialEq, Eq)]
pub struct Ready {
    pub ping_interval: Duration,
    pub encoding: &'static str,
}

/// The hello is on its way.
pub struct HelloSent {
    pub supported_encodings: &'static [&'static str],
}

/// The hello went out, and its answer is awaited.
pub struct AckAwaited {
    pub supported_encodings: &'static [&'static str],
}

/// `hello` offers just the `supported` encodings, in their order, and no compression.
pub open spec fn offers(hello: Hello, supported: Seq<&'static str>) -> bool {
    &&& hello.flags == 0
    &&& hello.version == VERSION
    &&& hello.encodings@.len() == supported.len()
    &&& forall|i: int|
        0 <= i < supported.len() ==> #[trigger] hello.encodings@[i]@ == supported[i]@
    &&& hello.compressions@.len() == 0
}

/// `r` is the answer to `ack` of a client that supports the `supported` encodings.
pub open spec fn acknowledges(
    ack: HelloAck,
    supported: Seq<&'static str>,
    r: Result<Ready, LoquiError>,
) -> bool {
    if !supports(supported, ack.encoding@) {
        r == Err::<Ready, LoquiError>(LoquiError::InvalidEncoding)
    } else if ack.compression is Some {
        r == Err::<Ready, LoquiError>(LoquiError::InvalidCompression)
    } else {
        &&& r matches Ok(ready)
        &&& ready.ping_interval == millis(ack.ping_interval_ms as u64)
        &&& supported.contains(ready.encoding)
        &&& ready.encoding@ == ack.encoding@
    }
}

/// `r` is the answer to the first frame after the hello of a client that supports the
/// `supported` encodings.
pub open spec fn concludes(
    frame: LoquiFrame,
    supported: Seq<&'static str>,
    r: Result<Ready, LoquiError>,
) -> bool {
    match frame {
        LoquiFrame::HelloAck(ack) => acknowledges(ack, supported, r),
        LoquiFrame::GoAway(go_away) => r == Err::<Ready, LoquiError>(
            LoquiError::ToldToGoAway { go_away },
        ),
        frame => r == Err::<Ready, LoquiError>(
            LoquiError::InvalidOpcode {
                actual: frame.spec_opcode(),
                expected: Some(HelloAck::OPCODE),
            },
        ),
    }
}

/// The hello of a client that supports the `supported` encodings.
pub fn make_hello(supported: &'static [&'static str]) -> (hello: Hello)
    ensures
        offers(hello, supported@),
{
    let mut encodings: Vec<String> = Vec::new();
    let mut i: usize = 0;
    while i < supported.len()
        invariant
            i <= supported@.len(),
            encodings@.len() == i,
            forall|j: int| 0 <= j < i ==> #[trigger] encodings@[j]@ == supported@[j]@,
        decreases supported@.len() - i,
    {
        encodings.push(supported[i].to_owned());
        i += 1;
    }
    Hello {
        flags: 0,
        version: VERSION,
        encodings,
        // compression not supported
        compressions: Vec::new(),
    }
}

/// Answers the server's choice.
pub fn handle_handshake_hello_ack(
    hello_ack: HelloAck,
    supported_encodings: &'static [&'static str],
) -> (r: Result<Ready, LoquiError>)
    ensures
        acknowledges(hello_ack, supported_encodings@, r),
{
    let encoding = match find_encoding(&hello_ack.encoding, supported_encodings) {
        Some(encoding) => encoding,
        None => return Err(LoquiError::InvalidEncoding),
    };
    // compression not supported
    if hello_ack.compression.is_some() {
        return Err(LoquiError::InvalidCompression);
    }
    let ping_interval = Duration::from_millis(hello_ack.ping_interval_ms as u64);
    Ok(Ready { ping_interval, encoding })
}

/// Answers the first frame after the hello.
pub fn handle_handshake_frame(
    frame: LoquiFrame,
    supported_encodings: &'static [&'static str],
) -> (r: Result<Ready, LoquiError>)
    ensures
        concludes(frame, supported_encodings@, r),
{
    match frame {
        LoquiFrame::HelloAck(hello_ack) => {
            handle_handshake_hello_ack(hello_ack, supported_encodings)
        },
        LoquiFrame::GoAway(go_away) => Err(LoquiError::ToldToGoAway { go_away }),
        frame => Err(
            LoquiError::InvalidOpcode {
                actual: frame.opcode(),
                expected: Some(HelloAck::OPCODE),
            },
        ),
    }
}

/// `r` is what the handshake comes to once the stream has been read for the answer to the hello
/// of a client that supports the `supported` encodings. The stream itself is handed on in every
/// case.
pub open spec fn handshake_result<S, E>(
    received: Option<Result<LoquiFrame, E>>,
    stream: S,
    supported: Seq<&'static str>,
    r: Result<(Ready, S), (Failure<E>, Option<S>)>,
) -> bool {
    match received {
        Some(Ok(frame)) => match r {
            Ok((ready, s)) => s == stream && concludes(frame, supported, Ok(ready)),
            Err((Failure::Loqui(e), s)) => s == Some(stream) && concludes(
                frame,
                supported,
                Err(e),
            ),
            Err((Failure::Other(_), _)) => false,
        },
        Some(Err(e)) => r == Err::<(Ready, S), (Failure<E>, Option<S>)>(
            (Failure::Other(e), Some(stream)),
        ),
        None => r == Err::<(Ready, S), (Failure<E>, Option<S>)>(
            (Failure::Loqui(LoquiError::TcpStreamClosed), Some(stream)),
        ),
    }
}

impl HelloSent {
    /// The stream was asked to write the hello. If it failed to, it is lost.
    pub fn written<S, E>(self, result: Result<S, E>) -> (r: Result<
        (AckAwaited, S),
        (Failure<E>, Option<S>),
    >)
        ensures
            match result {
                Ok(stream) => r == Ok::<(AckAwaited, S), (Failure<E>, Option<S>)>(
                    (AckAwaited { supported_encodings: self.supported_encodings }, stream),
                ),
                Err(e) => r == Err::<(AckAwaited, S), (Failure<E>, Option<S>)>(
                    (Failure::Other(e), None),
                ),
            },
    {
        match result {
            Ok(stream) => Ok(
                (AckAwaited { supported_encodings: self.supported_encodings }, stream),
            ),
            Err(e) => Err((Failure::Other(e), None)),
        }
    }
}

impl AckAwaited {
    /// The stream was read for the answer.
    pub fn received<S, E>(self, received: Option<Result<LoquiFrame, E>>, stream: S) -> (r: Result<
        (Ready, S),
        (Failure<E>, Option<S>),
    >)
        ensures
            handshake_result(received, stream, self.supported_encodings@, r),
    {
        match received {
            Some(Ok(frame)) => match handle_handshake_frame(frame, self.supported_encodings) {
                Ok(ready) => Ok((ready, stream)),
                Err(e) => Err((Failure::Loqui(e), Some(stream))),
            },
            Some(Err(e)) => Err((Failure::Other(e), Some(stream))),
            None => Err((Failure::Loqui(LoquiError::TcpStreamClosed), Some(stream))),
        }
    }
}

/// A client accepts whatever encoding a server picks from its hello, as long as the server asks
/// for no compression.
pub proof fn law_offered_encodings_are_accepted(
    hello: Hello,
    supported: Seq<&'static str>,
    picked: int,
    ack: HelloAck,
    r: Result<Ready, LoquiError>,
)
    requires
        offers(hello, supported),
        0 <= picked < hello.encodings@.len(),
        ack.encoding@ == hello.encodings@[picked]@,
        ack.compression is None,
        concludes(LoquiFrame::HelloAck(ack), supported, r),
    ensures
        r is Ok,
        r->Ok_0.encoding@ == hello.encodings@[picked]@,
        r->Ok_0.ping_interval == millis(ack.ping_interval_ms as u64),
{
    assert(hello.encodings@[picked]@ == supported[picked]@);
}

/// A handshake succeeds only on an acknowledgement that picks an encoding from the hello and no
/// compression.
pub proof fn law_only_offered_encodings_are_accepted(
    hello: Hello,
    supported: Seq<&'static str>,
    frame: LoquiFrame,
    ready: Ready,
)
    requires
        offers(hello, supported),
        concludes(frame, supported, Ok(ready)),
    ensures
        frame is HelloAck,
        frame->HelloAck_0.compression is None,
        exists|i: int|
            0 <= i < hello.encodings@.len() && #[trigger] hello.encodings@[i]@
                == frame->HelloAck_0.encoding@,
{
    let encoding = frame->HelloAck_0.encoding@;
    let i = choose|i: int| 0 <= i < supported.len() && #[trigger] supported[i]@ == encoding;
    assert(hello.encodings@[i]@ == encoding);
}

} // verus!
