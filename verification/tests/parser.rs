use csp::Version;
use csp::errors::ParseErrorId;
use csp::parser::BufferSource;
use csp::parser::Parser;

fn over(bytes: &[u8]) -> Parser<BufferSource> {
    Parser::new(BufferSource::from_bytes(bytes), Version::V10)
}

#[test]
fn read() {
    let reader: &[u8] = &[1, 2, 3, 4, 5, 6, 7, 8, 9, 10];

    let mut parser = over(reader);

    assert_eq!(parser.read(2).unwrap(), vec![1, 2]);
    assert_eq!(2, parser.pos());

    assert_eq!(parser.read(3).unwrap(), vec![3, 4, 5]);
    assert_eq!(5, parser.pos());

    assert_eq!(5, parser.reset());

    assert_eq!(parser.read(20).unwrap(), vec![6, 7, 8, 9, 10]);
    assert_eq!(5, parser.pos());

    assert_eq!(parser.read(2).unwrap(), vec![]);
    assert_eq!(5, parser.pos());
}

#[test]
fn parse_byte() {
    let reader: &[u8] = &[32];

    let mut parser = over(reader);
    assert_eq!(parser.read_byte(), Ok(32));
    assert_eq!(parser.read_byte().unwrap_err().id, ParseErrorId::ConnectionClosed);
}

#[test]
fn parse_string() {
    let reader1: &[u8] = &[2, 49, 46, 48, 46, 51, 3];
    let reader2: &[u8] = &[2, 195, 169, 3];
    let reader3: &[u8] = &[49, 46, 48, 46, 51, 3];
    let reader4: &[u8] = &[2, 49, 46, 48, 46, 51];
    let reader5: &[u8] = &[2, 0, 195, 3];

    let mut parser1 = over(reader1);
    let mut parser2 = over(reader2);
    let mut parser3 = over(reader3);
    let mut parser4 = over(reader4);
    let mut parser5 = over(reader5);

    assert_eq!(parser1.read_string(), Ok("1.0.3".to_string()));
    assert_eq!(parser2.read_string(), Ok("é".to_string()));
    assert_eq!(parser3.read_string().unwrap_err().id, ParseErrorId::MissCtrl);
    assert_eq!(parser4.read_string().unwrap_err().id, ParseErrorId::MissCtrl);
    assert_eq!(parser5.read_string().unwrap_err().id, ParseErrorId::InvStr);
}

#[test]
fn parse_u32() {
    let reader1: &[u8] = &[11, 0, 45, 05];
    let reader2: &[u8] = &[22, 05, 0];

    let mut parser1 = over(reader1);
    let mut parser2 = over(reader2);

    assert_eq!(parser1.read_u32(), Ok(86835211));
    assert_eq!(parser2.read_u32().unwrap_err().id, ParseErrorId::InvNum);
}

#[test]
fn parse_u64() {
    let reader1: &[u8] = &[11, 0, 45, 05, 0, 3, 0, 0];
    let reader2: &[u8] = &[22, 05, 0, 0, 5, 33];

    let mut parser1 = over(reader1);
    let mut parser2 = over(reader2);

    assert_eq!(parser1.read_u64(), Ok(3298621718539));
    assert_eq!(parser2.read_u64().unwrap_err().id, ParseErrorId::InvNum);
}

// A truncated integer names the expected and the actual byte counts.
#[test]
fn truncated_u32_counts() {
    let reader: &[u8] = &[1, 2, 3];
    let mut parser = over(reader);
    let e = parser.read_u32().unwrap_err();
    assert_eq!(e.id, ParseErrorId::InvNum);
    assert_eq!(e.description, "Invalid number: expected 4 bytes, found 3.");
    assert_eq!(e.pos, 3);
}

#[test]
fn truncated_u64_counts() {
    let reader: &[u8] = &[1, 2, 3, 4, 5];
    let mut parser = over(reader);
    let e = parser.read_u64().unwrap_err();
    assert_eq!(e.id, ParseErrorId::InvNum);
    assert_eq!(e.description, "Invalid number: expected 8 bytes, found 5.");
    assert_eq!(e.pos, 5);
}

// An unterminated string names the delimiter that was expected.
#[test]
fn unterminated_string_names_delimiter() {
    let reader: &[u8] = &[2, 97, 98, 99];
    let mut parser = over(reader);
    let e = parser.read_string().unwrap_err();
    assert_eq!(e.id, ParseErrorId::MissCtrl);
    assert_eq!(e.description, "Missing control: string_end.");
    assert_eq!(e.pos, 4);

    let reader2: &[u8] = &[97];
    let mut parser2 = over(reader2);
    let e2 = parser2.read_string().unwrap_err();
    assert_eq!(e2.id, ParseErrorId::MissCtrl);
    assert_eq!(e2.description, "Missing control: string_start.");
    assert_eq!(e2.pos, 1);
}

// Every error carries the byte offset at which it was detected.
#[test]
fn string_error_positions() {
    let mut parser = over(&[2, 49, 46, 48, 46, 51]);
    let e = parser.read_string().unwrap_err();
    assert_eq!(e.id, ParseErrorId::MissCtrl);
    assert_eq!(e.description, "Missing control: string_end.");
    assert_eq!(e.pos, 6);

    let mut parser2 = over(&[2, 0, 195, 3]);
    let e2 = parser2.read_string().unwrap_err();
    assert_eq!(e2.id, ParseErrorId::InvStr);
    assert_eq!(e2.description, "Invalid utf-8 string.");
    assert_eq!(e2.pos, 4);

    let mut parser3 = over(&[32]);
    assert_eq!(parser3.read_byte(), Ok(32));
    let e3 = parser3.read_byte().unwrap_err();
    assert_eq!(e3.id, ParseErrorId::ConnectionClosed);
    assert_eq!(e3.pos, 1);
}

#[test]
fn peek_does_not_consume() {
    let reader: &[u8] = &[1, 2, 3];
    let mut parser = over(reader);

    assert_eq!(parser.peek(), Some(1));
    assert_eq!(parser.pos(), 0);
    assert_eq!(parser.read(3).unwrap(), vec![1, 2, 3]);
    assert_eq!(parser.peek(), None);
}

#[test]
fn version_accessors() {
    let reader: &[u8] = &[];
    let mut parser = over(reader);
    assert_eq!(parser.version(), Version::V10);
    parser.set_version(Version::V10);
    assert_eq!(parser.version(), Version::V10);
}

#[test]
fn empty_string_round() {
    let reader: &[u8] = &[2, 3];
    let mut parser = over(reader);
    assert_eq!(parser.read_string(), Ok(String::new()));
    assert_eq!(parser.pos(), 2);
}
