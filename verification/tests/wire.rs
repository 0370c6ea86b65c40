use csp::Version;
use csp::errors::ParseError;
use csp::errors::ParseErrorId;
use csp::parser::BufferSource;
use csp::parser::Parser;
use csp::wire::Control;
use csp::wire::Header;
use csp::wire::Method;

#[test]
fn header() {
    assert_eq!(Version::V10, Header::get_version());
    assert_eq!(Version::V10, Header::Reconnect(false).version());

    for byte in 32..=39 {
        let header: Header = Header::from_u8(byte).expect("at byte {byte}, failed to serialize from byte");
        let header_str = header.to_str();
        let header_value = match header {
            Header::Server(_) => Header::Server(500),
            Header::Length(_) => Header::Length(1024),
            Header::Identity(_) => Header::Identity("a2c4e6".to_string()),
            Header::Client(_) => Header::Client("1.0.3-bevy-linux".to_string()),
            Header::Update(_) => Header::Update(true),
            Header::Id(_) => Header::Id(255),
            Header::Reconnect(_) => Header::Reconnect(true),
            Header::Compressed(_) => Header::Compressed(false),
        };

        assert!(header.matches(&header_value), "at byte {byte}");
        assert_eq!(byte, header.to_u8(), "at byte {byte}");
        assert_eq!(
            header,
            Header::from_str(header_str).expect(
                format!("at byte {byte}, failed to serialize {header_str} from string").as_str()
            ),
            "at byte {byte}"
        );

        match header_value {
            Header::Server(_) => {
                assert_eq!(vec![032, 244, 001, 000, 000], header_value.to_buffer())
            }
            Header::Length(_) => {
                assert_eq!(
                    vec![033, 000, 004, 000, 000, 000, 000, 000, 000],
                    header_value.to_buffer()
                )
            }
            Header::Identity(_) => {
                assert_eq!(
                    vec![034, 002, 097, 050, 099, 052, 101, 054, 003],
                    header_value.to_buffer()
                )
            }
            Header::Client(_) => {
                assert_eq!(
                    vec![
                        035, 002, 049, 046, 048, 046, 051, 045, 098, 101, 118, 121, 045, 108,
                        105, 110, 117, 120, 003
                    ],
                    header_value.to_buffer()
                )
            }
            Header::Update(_) => {
                assert_eq!(vec![036], header_value.to_buffer())
            }
            Header::Id(_) => {
                assert_eq!(
                    vec![037, 255, 000, 000, 000, 000, 000, 000, 000],
                    header_value.to_buffer()
                )
            }
            Header::Reconnect(_) => {
                assert_eq!(vec![038], header_value.to_buffer())
            }
            Header::Compressed(_) => {
                assert_eq!(header_value.to_buffer(), vec![])
            }
        }
    }
}

#[test]
fn header_parse() {
    let reader: &[u8] = &[
        32, 44, 01, 00, 00, // Server 300
        33, 00, 04, 00, 00, 00, 00, 00, 00, // Length 1024
        34, 02, 97, 50, 99, 52, 101, 54, 03, // Identity a2c4e6
        // Client 1.0.3-bevy-linux
        35, 02, 49, 46, 48, 046, 51, 45, 98, 101, 118, 121, 45, 108, 105, 110, 117, 120, 03,
        36, // Update
        37, 255, 00, 00, 00, 00, 00, 00, 00, // Id 255
        38, // Reconnect
        39, // Compressed
        40, // ERR
    ];

    let mut parser = Parser::new(BufferSource::from_bytes(reader), Header::get_version());

    assert_eq!(Header::from_buffer(&mut parser), Ok(Header::Server(300)));
    assert_eq!(Header::from_buffer(&mut parser), Ok(Header::Length(1024)));
    assert_eq!(
        Header::from_buffer(&mut parser),
        Ok(Header::Identity("a2c4e6".to_string()))
    );
    assert_eq!(
        Header::from_buffer(&mut parser),
        Ok(Header::Client("1.0.3-bevy-linux".to_string()))
    );
    assert_eq!(Header::from_buffer(&mut parser), Ok(Header::Update(true)));
    assert_eq!(Header::from_buffer(&mut parser), Ok(Header::Id(255)));
    assert_eq!(Header::from_buffer(&mut parser), Ok(Header::Reconnect(true)));
    assert_eq!(Header::from_buffer(&mut parser), Ok(Header::Compressed(true)));
    assert_eq!(
        Header::from_buffer(&mut parser).err().unwrap().id,
        ParseErrorId::UkwnHeader
    );
}

#[test]
fn method() {
    assert_eq!(Version::V10, Method::get_version());
    assert_eq!(Version::V10, Method::Connect.version());

    for byte in 32..=39 {
        let method: Method = Method::from_u8(byte).expect("at byte {byte}, failed to serialize from byte");
        let method_str = method.to_str();

        assert_eq!(byte, method.to_u8(), "at byte {byte}");
        assert_eq!(
            method,
            Method::from_str(method_str).expect(
                format!("at byte {byte}, failed to serialize {method_str} from string").as_str()
            ),
            "at byte {byte}"
        );
    }
}

#[test]
fn control() {
    assert_eq!(Version::V10, Control::get_version());
    assert_eq!(Version::V10, Control::HeaderEnd.version());

    for byte in 1..=3 {
        let control: Control = Control::from_u8(byte).expect("at byte {byte}, failed to serialize from byte");
        let control_str = control.to_str();

        assert_eq!(byte, control.to_u8(), "at byte {byte}");
        assert_eq!(
            control,
            Control::from_str(control_str).expect(
                format!("at byte {byte}, failed to serialize {control_str} from string").as_str()
            ),
            "at byte {byte}"
        );
    }
}

#[test]
fn version_codec() {
    assert_eq!(Version::from_u8(32), Some(Version::V10));
    assert_eq!(Version::from_u8(3), None);
    assert_eq!(Version::V10.to_u8(), 32);
    assert_eq!(Version::V10.to_str(), "1.0");
    assert_eq!(Version::default(), Version::V10);
}

// Names are matched case-insensitively, as to_lowercase folds them.
#[test]
fn names_fold_case() {
    assert!(Header::Server(0).matches(&Header::from_str("ServEr").unwrap()));
    assert!(Header::Reconnect(true).matches(&Header::from_str("reconnect").unwrap()));
    assert!(Header::Identity("".to_string()).matches(&Header::from_str("IDENTITY").unwrap()));
    assert_eq!(Method::from_str("Connect"), Some(Method::Connect));
    assert_eq!(Method::from_str("ERROR"), Some(Method::Error));
    assert_eq!(Method::from_str("bklblb"), None);
    assert_eq!(Control::from_str("header_END"), Some(Control::HeaderEnd));
    assert_eq!(Control::from_str("string_start"), Some(Control::StringStart));
    assert_eq!(Control::from_str(":)"), None);
}

#[test]
fn header_buffers() {
    let header1 = Header::Id(65545);
    let header2 = Header::Compressed(true);
    let header3 = Header::Identity("hello".to_string());

    assert_eq!(header1.to_buffer(), vec![37, 9, 0, 1, 0, 0, 0, 0, 0]);
    assert_eq!(header2.to_buffer(), vec![39]);
    assert_eq!(header3.to_buffer(), vec![34, 2, 104, 101, 108, 108, 111, 3]);
}

// An unrecognized header tag is reported with the offending byte,
// zero-padded to three digits.
#[test]
fn unknown_header_names_byte() {
    let reader: &[u8] = &[40];
    let mut parser = Parser::new(BufferSource::from_bytes(reader), Version::V10);
    let e = Header::from_buffer(&mut parser).unwrap_err();
    assert_eq!(e.id, ParseErrorId::UkwnHeader);
    assert_eq!(e.description, "Unknown header: 040.");
    assert_eq!(e.pos, 1);
}

#[test]
fn error_id_codec() {
    assert_eq!(ParseErrorId::from_str("inv_num"), Some(ParseErrorId::InvNum));
    assert_eq!(ParseErrorId::from_str("UKWN_HEADER"), Some(ParseErrorId::UkwnHeader));
    assert_eq!(ParseErrorId::from_str("nothing"), None);
    assert_eq!(ParseErrorId::InvNum.to_str(), "INV_NUM");
    assert_eq!(
        ParseErrorId::InvDataLen.description(),
        "Invalid length header, data length mismatch it."
    );
}

// set_desc fills the first occurrence of a placeholder and leaves a
// description without the placeholder unchanged.
#[test]
fn set_desc_replaces_first() {
    let mut e = ParseError::new(ParseErrorId::UkwnHeaderVal, 7);
    assert_eq!(e.description, "Unknown value for [{1}]: {2}.");
    e.set_desc("{1}", "version");
    e.set_desc("{2}", "99");
    assert_eq!(e.description, "Unknown value for [version]: 99.");
    assert_eq!(e.pos, 7);

    let mut plain = ParseError::new(ParseErrorId::InvStr, 0);
    plain.set_desc("{1}", "anything");
    assert_eq!(plain.description, "Invalid utf-8 string.");
}
