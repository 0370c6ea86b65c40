use csp::Version;
use csp::errors::ParseErrorId;
use csp::packet::Packet;
use csp::parser::BufferSource;
use csp::parser::Parser;
use csp::wire::Header;
use csp::wire::Method;
use std::io::Write;

fn parse_bytes(bytes: &[u8]) -> Result<(Packet, usize), ParseErrorId> {
    let mut parser = Parser::new(BufferSource::from_bytes(bytes), Version::V10);
    let mut packet = Packet::new();
    match packet.parse(&mut parser) {
        Ok(n) => Ok((packet, n)),
        Err(e) => Err(e.id),
    }
}

fn parse_err(bytes: &[u8]) -> csp::errors::ParseError {
    let mut parser = Parser::new(BufferSource::from_bytes(bytes), Version::V10);
    let mut packet = Packet::new();
    packet.parse(&mut parser).unwrap_err()
}

#[test]
fn packet_headers() {
    let mut packet = Packet::new();
    assert_eq!(packet.version(), Header::get_version());
    assert_eq!(packet.version(), Method::get_version());

    assert_eq!(packet.method(), None);
    packet.set_header(Header::Length(31));
    packet.set_header(Header::Server(1001));
    packet.set_header(Header::Identity("abcde".to_string()));
    packet.set_header(Header::Compressed(true));
    packet.set_method(Method::Connect);

    assert_eq!(packet.get_header("length"), Some(Header::Length(31)));
    assert_eq!(packet.get_header("server"), Some(Header::Server(1001)));
    assert_eq!(
        packet.get_header("identity"),
        Some(Header::Identity("abcde".to_string()))
    );
    assert_eq!(packet.get_header("compressed"), Some(Header::Compressed(true)));
    assert_eq!(packet.method(), Some(Method::Connect));

    packet.set_headers(&vec![
        Header::Id(1),
        Header::Server(110),
        Header::Compressed(false),
    ]);

    packet.pop_header("length");

    for packet in packet.get_headers() {
        match packet {
            Header::Server(e) => assert_eq!(e, 110),
            Header::Identity(e) => assert_eq!(e, "abcde".to_string()),
            Header::Id(e) => assert_eq!(e, 1),
            Header::Compressed(e) => assert_eq!(e, false),
            _ => panic!("Wrong packet header {:?}", packet),
        }
    }
}

// The concrete scenario: Connect with Server(45), Update(true) and
// Identity("abcde") builds to the exact byte sequence, and parsing that
// buffer reproduces the same method and header set.
#[test]
fn concrete_frame() {
    let mut packet = Packet::new();
    packet.set_method(Method::Connect);
    packet.set_headers(&vec![
        Header::Server(45),
        Header::Update(true),
        Header::Identity("abcde".to_string()),
    ]);

    let buf = packet.prepare().unwrap();
    let expected: Vec<u8> = vec![
        32, 32, // Version 1.0, Method connect
        32, 45, 0, 0, 0, // Server 45
        34, 2, 97, 98, 99, 100, 101, 3, // Identity "abcde"
        36, // Update
        1,  // HeaderEnd
    ];
    assert_eq!(buf, expected);

    let (parsed, used) = parse_bytes(&expected).unwrap();
    assert_eq!(used, expected.len());
    assert_eq!(parsed.method(), Some(Method::Connect));
    assert_eq!(parsed.get_header("server"), Some(Header::Server(45)));
    assert_eq!(parsed.get_header("update"), Some(Header::Update(true)));
    assert_eq!(
        parsed.get_header("identity"),
        Some(Header::Identity("abcde".to_string()))
    );
    assert_eq!(parsed.get_header("length"), None);
    assert_eq!(parsed.data().len(), 0);
    assert_eq!(parsed, packet);
}

// Duplicate-kind overwrite: the second Server value wins and exactly one
// Server header reaches the wire.
#[test]
fn duplicate_kind_overwrites() {
    let mut packet = Packet::new();
    packet.set_method(Method::Connect);
    packet.set_header(Header::Server(1));
    packet.set_header(Header::Server(2));

    assert_eq!(packet.get_header("server"), Some(Header::Server(2)));
    assert_eq!(packet.get_headers(), vec![Header::Server(2)]);

    let buf = packet.prepare().unwrap();
    assert_eq!(buf, vec![32, 32, 32, 2, 0, 0, 0, 1]);
}

// Boolean omission: a false boolean leaves no bytes on the wire, and a wire
// buffer without the tag parses to an absent header, never to a false one.
#[test]
fn boolean_omission() {
    let mut packet = Packet::new();
    packet.set_method(Method::Connect);
    packet.set_header(Header::Update(false));

    let buf = packet.prepare().unwrap();
    assert_eq!(buf, vec![32, 32, 1]);

    let (parsed, _) = parse_bytes(&buf).unwrap();
    assert_eq!(parsed.get_header("update"), None);

    let (parsed2, _) = parse_bytes(&[32, 32, 36, 1]).unwrap();
    assert_eq!(parsed2.get_header("update"), Some(Header::Update(true)));
}

// A round trip through build and parse preserves method, headers and
// payload.
#[test]
fn round_trip_with_payload() {
    let mut packet = Packet::new();
    packet.set_method(Method::State);
    packet.set_header(Header::Id(65545));
    packet.set_header(Header::Client("1.0.3".to_string()));
    packet.set_header(Header::Reconnect(true));
    packet.set_data(vec![9, 8, 7, 6, 5]);

    let buf = packet.prepare().unwrap();
    let (parsed, used) = parse_bytes(&buf).unwrap();
    assert_eq!(used, buf.len());
    assert_eq!(parsed, packet);
    assert_eq!(parsed.data(), &vec![9, 8, 7, 6, 5]);
    assert_eq!(parsed.get_header("length"), Some(Header::Length(5)));
}

// Length mismatch: a Length of 10 followed by only 7 payload bytes before
// end-of-source is rejected.
#[test]
fn length_mismatch() {
    let mut frame: Vec<u8> = vec![32, 32];
    frame.append(&mut Header::Length(10).to_buffer());
    frame.push(1);
    frame.append(&mut vec![1, 2, 3, 4, 5, 6, 7]);

    let e = parse_err(&frame);
    assert_eq!(e.id, ParseErrorId::InvDataLen);
    // detected after consuming everything available: the 19 frame bytes
    assert_eq!(e.pos, 19);
}

// A compressed payload is decompressed on parse; bytes that are not gzip
// are rejected as InvDataComp.
#[test]
fn compressed_payload() {
    let payload: Vec<u8> = vec![10, 20, 30, 40, 50, 60];
    let mut encoder = flate2::write::GzEncoder::new(Vec::new(), flate2::Compression::fast());
    encoder.write_all(&payload).unwrap();
    let zipped = encoder.finish().unwrap();

    let mut frame: Vec<u8> = vec![32, 33];
    frame.append(&mut Header::Length(zipped.len() as u64).to_buffer());
    frame.append(&mut Header::Compressed(true).to_buffer());
    frame.push(1);
    frame.extend_from_slice(&zipped);

    let (parsed, used) = parse_bytes(&frame).unwrap();
    assert_eq!(used, frame.len());
    assert_eq!(parsed.data(), &payload);
    assert_eq!(parsed.get_header("compressed"), Some(Header::Compressed(true)));
}

#[test]
fn invalid_compression() {
    let mut frame: Vec<u8> = vec![32, 33];
    frame.append(&mut Header::Length(3).to_buffer());
    frame.append(&mut Header::Compressed(true).to_buffer());
    frame.push(1);
    frame.append(&mut vec![9, 9, 9]);

    assert_eq!(parse_bytes(&frame).unwrap_err(), ParseErrorId::InvDataComp);
}

// Build requires a method.
#[test]
fn prepare_needs_method() {
    let mut packet = Packet::new();
    packet.set_header(Header::Server(1));
    let e = packet.prepare().unwrap_err();
    assert_eq!(e.id, ParseErrorId::MissHeader);
    assert_eq!(e.description, "Missing header: method");
    assert_eq!(e.pos, 2);
}

// The built buffer is cached until a mutation invalidates it.
#[test]
fn prepare_caches() {
    let mut packet = Packet::new();
    packet.set_method(Method::Auth);
    let first = packet.prepare().unwrap();
    let again = packet.prepare().unwrap();
    assert_eq!(first, again);

    packet.set_header(Header::Id(7));
    let rebuilt = packet.prepare().unwrap();
    assert_ne!(first, rebuilt);
    assert_eq!(rebuilt, vec![32, 33, 37, 7, 0, 0, 0, 0, 0, 0, 0, 1]);
}

#[test]
fn parse_rejects_bad_version_and_method() {
    let e = parse_bytes(&[99, 32, 1]).unwrap_err();
    assert_eq!(e, ParseErrorId::UkwnHeaderVal);

    let e2 = parse_bytes(&[32, 99, 1]).unwrap_err();
    assert_eq!(e2, ParseErrorId::UkwnHeaderVal);

    let e3 = parse_bytes(&[]).unwrap_err();
    assert_eq!(e3, ParseErrorId::ConnectionClosed);
}

// Every parse error carries the byte offset at which it was detected and a
// description naming the offender.
#[test]
fn parse_error_diagnostics() {
    let e = parse_err(&[99, 32, 1]);
    assert_eq!(e.id, ParseErrorId::UkwnHeaderVal);
    assert_eq!(e.description, "Unknown value for [version]: 99.");
    assert_eq!(e.pos, 1);

    let e2 = parse_err(&[32, 99, 1]);
    assert_eq!(e2.id, ParseErrorId::UkwnHeaderVal);
    assert_eq!(e2.description, "Unknown value for [method]: 99.");
    assert_eq!(e2.pos, 2);

    let e3 = parse_err(&[32, 32, 2, 1]);
    assert_eq!(e3.id, ParseErrorId::UnxptCtrl);
    assert_eq!(e3.description, "Unexpected control: string_start.");
    assert_eq!(e3.pos, 3);

    let e4 = parse_err(&[32, 32, 9, 1]);
    assert_eq!(e4.id, ParseErrorId::UkwnCtrl);
    assert_eq!(e4.description, "Unknown control: 009.");
    assert_eq!(e4.pos, 3);

    let e5 = parse_err(&[32, 32, 36]);
    assert_eq!(e5.id, ParseErrorId::ConnectionClosed);
    assert_eq!(e5.pos, 3);
}

#[test]
fn parse_rejects_misplaced_controls() {
    // StringStart in header position is out of context
    assert_eq!(parse_bytes(&[32, 32, 2, 1]).unwrap_err(), ParseErrorId::UnxptCtrl);
    // an unassigned control code is unknown
    assert_eq!(parse_bytes(&[32, 32, 9, 1]).unwrap_err(), ParseErrorId::UkwnCtrl);
    // end of source before HeaderEnd means the connection closed
    assert_eq!(parse_bytes(&[32, 32, 36]).unwrap_err(), ParseErrorId::ConnectionClosed);
}

#[test]
fn clear_and_is_empty() {
    let mut packet = Packet::new();
    assert!(packet.is_empty());
    assert_eq!(packet.len(), 0);

    packet.set_method(Method::Action);
    packet.set_header(Header::Update(true));
    packet.set_data(vec![1, 2]);
    assert!(!packet.is_empty());
    assert_eq!(packet.len(), 2);

    packet.clear_data();
    assert_eq!(packet.len(), 0);
    // the stale Length header is still present until the next build
    assert_eq!(packet.get_header("length"), Some(Header::Length(2)));

    packet.clear();
    assert!(packet.is_empty());
    assert_eq!(packet.method(), None);
}

// One parser/packet pair decodes consecutive frames on one stream; the
// cursor is reset between frames.
#[test]
fn parser_reuse_across_frames() {
    let mut bytes: Vec<u8> = vec![32, 32, 36, 1];
    bytes.extend_from_slice(&[32, 34, 38, 1]);

    let mut parser = Parser::new(BufferSource::from_bytes(&bytes), Version::V10);
    let mut packet = Packet::new();

    let used1 = packet.parse(&mut parser).unwrap();
    assert_eq!(used1, 4);
    assert_eq!(packet.method(), Some(Method::Connect));
    assert_eq!(packet.get_header("update"), Some(Header::Update(true)));

    let used2 = packet.parse(&mut parser).unwrap();
    assert_eq!(used2, 4);
    assert_eq!(packet.method(), Some(Method::Disconnect));
    assert_eq!(packet.get_header("update"), None);
    assert_eq!(packet.get_header("reconnect"), Some(Header::Reconnect(true)));
}

#[test]
fn pop_header_removes() {
    let mut packet = Packet::new();
    packet.set_header(Header::Server(4));
    assert_eq!(packet.pop_header("server"), Some(Header::Server(4)));
    assert_eq!(packet.pop_header("server"), None);
    assert_eq!(packet.pop_header("no such header"), None);
}

// A frame carrying every header kind round-trips through build and parse.
#[test]
fn round_trip_all_kinds() {
    let mut packet = Packet::new();
    packet.set_method(Method::Admin);
    packet.set_headers(&vec![
        Header::Server(300),
        Header::Identity("a2c4e6".to_string()),
        Header::Client("1.0.3-bevy-linux".to_string()),
        Header::Update(true),
        Header::Id(255),
        Header::Reconnect(true),
    ]);
    packet.set_data(vec![1, 2, 3]);

    let buf = packet.prepare().unwrap();
    let (parsed, used) = parse_bytes(&buf).unwrap();
    assert_eq!(used, buf.len());
    assert_eq!(parsed, packet);
    assert_eq!(parsed.get_headers().len(), 7);
}

// A Length header of zero with no payload bytes parses to an empty payload.
#[test]
fn zero_length_payload() {
    let mut frame: Vec<u8> = vec![32, 32];
    frame.append(&mut Header::Length(0).to_buffer());
    frame.push(1);
    let (parsed, used) = parse_bytes(&frame).unwrap();
    assert_eq!(used, frame.len());
    assert_eq!(parsed.data().len(), 0);
    assert_eq!(parsed.get_header("length"), Some(Header::Length(0)));
}
