use bytesize::ByteSize;
use loqui::client::config::Config;
use loqui::client::connection_handler::ConnectionHandler;
use loqui::client::encoding::find_encoding;
use loqui::client::handshake::{handle_handshake_frame, Ready};
use loqui::error::{Failure, LoquiError};
use loqui::frames::{
    ErrorFrame, GoAway, Hello, HelloAck, LoquiFrame, Ping, Pong, Push, Request, Response, UpgradeFrame,
    VERSION,
};
use std::time::Duration;

const ENCODINGS: &[&str] = &["msgpack", "json"];

fn make_handler() -> ConnectionHandler {
    ConnectionHandler::new(Config {
        max_payload_size: ByteSize::b(5000),
        request_timeout: Duration::from_secs(5),
        handshake_timeout: Duration::from_secs(10),
        supported_encodings: ENCODINGS,
    })
}

fn ack(encoding: &str, compression: Option<&str>) -> LoquiFrame {
    LoquiFrame::HelloAck(HelloAck {
        flags: 0,
        ping_interval_ms: 5000,
        encoding: encoding.to_string(),
        compression: compression.map(String::from),
    })
}

#[test]
fn an_upgrade_starts_with_a_request() {
    let (frame, _requested) = make_handler().upgrade();
    assert_eq!(frame, UpgradeFrame::Request);
}

#[test]
fn an_upgrade_that_cannot_be_written_finds_the_stream_closed() {
    let (_frame, requested) = make_handler().upgrade();
    assert_eq!(
        requested.written(Err("broken pipe")).err(),
        Some(LoquiError::TcpStreamClosed)
    );
}

#[test]
fn an_upgrade_ends_with_a_response() {
    let result = |received: Option<Result<UpgradeFrame, &'static str>>| {
        let (_frame, requested) = make_handler().upgrade();
        match requested.written::<()>(Ok(())) {
            Ok(awaited) => awaited.received(received),
            Err(e) => panic!("not written: {:?}", e),
        }
    };
    assert_eq!(result(Some(Ok(UpgradeFrame::Response))), Ok(()));
    assert_eq!(
        result(Some(Ok(UpgradeFrame::Request))),
        Err(Failure::Loqui(LoquiError::InvalidUpgradeFrame {
            frame: UpgradeFrame::Request
        }))
    );
    assert_eq!(
        result(Some(Err("reset"))),
        Err(Failure::Other("reset"))
    );
    assert_eq!(
        result(None),
        Err(Failure::Loqui(LoquiError::TcpStreamClosed))
    );
}

#[test]
fn a_hello_offers_every_encoding_and_no_compression() {
    let (hello, _sent) = make_handler().handshake();
    assert_eq!(
        hello,
        Hello {
            flags: 0,
            version: VERSION,
            encodings: vec!["msgpack".to_string(), "json".to_string()],
            compressions: vec![],
        }
    );
}

#[test]
fn a_hello_that_cannot_be_written_loses_the_stream() {
    let (_hello, sent) = make_handler().handshake();
    match sent.written::<u8, _>(Err("broken pipe")) {
        Err((e, stream)) => {
            assert_eq!(e, Failure::Other("broken pipe"));
            assert_eq!(stream, None);
        }
        Ok(_) => panic!("written"),
    }
}

#[test]
fn a_handshake_ends_with_what_the_server_chose() {
    let result = |received: Option<Result<LoquiFrame, &'static str>>| {
        let (_hello, sent) = make_handler().handshake();
        match sent.written::<&'static str, &'static str>(Ok("stream")) {
            Ok((awaited, stream)) => awaited.received(received, stream),
            Err(_) => panic!("not written"),
        }
    };
    assert_eq!(
        result(Some(Ok(ack("json", None)))),
        Ok((
            Ready {
                ping_interval: Duration::from_millis(5000),
                encoding: "json",
            },
            "stream"
        ))
    );
    assert_eq!(
        result(Some(Ok(ack("xml", None)))),
        Err((Failure::Loqui(LoquiError::InvalidEncoding), Some("stream")))
    );
    assert_eq!(
        result(Some(Err("reset"))),
        Err((Failure::Other("reset"), Some("stream")))
    );
    assert_eq!(
        result(None),
        Err((Failure::Loqui(LoquiError::TcpStreamClosed), Some("stream")))
    );
}

#[test]
fn every_offered_encoding_is_accepted() {
    let (hello, _sent) = make_handler().handshake();
    for encoding in hello.encodings {
        let ready = handle_handshake_frame(ack(&encoding, None), ENCODINGS).unwrap();
        assert_eq!(ready.encoding, encoding);
        assert_eq!(ready.ping_interval, Duration::from_secs(5));
    }
}

#[test]
fn no_compression_is_accepted() {
    assert_eq!(
        handle_handshake_frame(ack("json", Some("gzip")), ENCODINGS),
        Err(LoquiError::InvalidCompression)
    );
    // The encoding is looked at first.
    assert_eq!(
        handle_handshake_frame(ack("xml", Some("gzip")), ENCODINGS),
        Err(LoquiError::InvalidEncoding)
    );
}

#[test]
fn a_server_may_turn_a_client_away() {
    let go_away = || GoAway {
        flags: 0,
        code: 7,
        payload: b"full".to_vec(),
    };
    assert_eq!(
        handle_handshake_frame(LoquiFrame::GoAway(go_away()), ENCODINGS),
        Err(LoquiError::ToldToGoAway { go_away: go_away() })
    );
}

#[test]
fn no_other_frame_ends_a_handshake() {
    let frame = LoquiFrame::Pong(Pong {
        flags: 0,
        sequence_id: 1,
    });
    assert_eq!(
        handle_handshake_frame(frame, ENCODINGS),
        Err(LoquiError::InvalidOpcode {
            actual: Pong::OPCODE,
            expected: Some(HelloAck::OPCODE),
        })
    );
}

#[test]
fn an_encoding_is_found_by_its_name() {
    assert_eq!(
        find_encoding(&"json".to_string(), ENCODINGS),
        Some("json")
    );
    assert_eq!(find_encoding(&"jso".to_string(), ENCODINGS), None);
    assert_eq!(find_encoding(&"json".to_string(), &[]), None);
}

#[test]
fn every_kind_of_frame_has_its_own_opcode() {
    let frames = vec![
        LoquiFrame::Hello(Hello {
            flags: 0,
            version: 1,
            encodings: vec![],
            compressions: vec![],
        }),
        ack("json", None),
        LoquiFrame::Ping(Ping {
            flags: 0,
            sequence_id: 0,
        }),
        LoquiFrame::Pong(Pong {
            flags: 0,
            sequence_id: 0,
        }),
        LoquiFrame::Request(Request {
            flags: 0,
            sequence_id: 0,
            payload: vec![],
        }),
        LoquiFrame::Response(Response {
            flags: 0,
            sequence_id: 0,
            payload: vec![],
        }),
        LoquiFrame::Push(Push {
            flags: 0,
            payload: vec![],
        }),
        LoquiFrame::GoAway(GoAway {
            flags: 0,
            code: 0,
            payload: vec![],
        }),
        LoquiFrame::Error(ErrorFrame {
            flags: 0,
            sequence_id: 0,
            code: 0,
            payload: vec![],
        }),
    ];
    let opcodes: Vec<u8> = frames.iter().map(|frame| frame.opcode()).collect();
    assert_eq!(opcodes, vec![1, 2, 3, 4, 5, 6, 7, 8, 9]);
}
