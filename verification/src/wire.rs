//! The wire type system: the closed sets of Method, Control and Header
//! values, each with byte-code and textual-name codecs, and the per-kind
//! binary encode and decode rules for headers.
//!
//! Byte-code ranges: Control codes occupy 1-31; Method and Header tag codes
//! occupy 32-255, in separate namespaces disambiguated by parsing context (a
//! decoder always knows from the framing state whether it expects a Method
//! byte or a Header tag byte).
use vstd::prelude::*;
use vstd::bytes::*;
use vstd::string::*;
use vstd::utf8::encode_utf8;
use vstd::utf8::decode_utf8;
use vstd::utf8::valid_utf8;
use crate::Version;
use crate::errors::ParseErrorId;
use crate::errors::ParseResult;
use crate::errors::error_with;
use crate::parser::ByteSource;
use crate::parser::Parser;
use crate::parser::StrScan;
use crate::parser::lemma_scan_string_used;
use crate::parser::spec_scan_string;
use crate::errors::spec_rendered;
use crate::text::byte_to_dec3;
use crate::text::lower_of;
use crate::text::spec_dec;
use crate::text::spec_dec3;
use crate::text::str_eq;
use crate::text::to_lowercase;

verus! {

// ======================= Method =======================

/// A message intent; exactly one Method is carried per packet. Each has a
/// one-byte wire code in the range 32-39 and a lowercase textual name.
#[derive(Debug, Clone, Copy, PartialEq, Eq, Structural)]
pub enum Method {
    /// Connect to the server; always sent by a client.
    Connect,
    /// Request or attempt an authentication.
    Auth,
    /// Disconnect the client or server, or reset a corrupted connection.
    Disconnect,
    /// Perform an administrative action.
    Admin,
    /// Sent by the server to provide new information about the game.
    Update,
    /// The client performs an action.
    Action,
    /// An error report, usually in response to a packet.
    Error,
    /// The initial state of something, or large data sent in chunks.
    State,
}

impl Method {
    /// The wire code of a Method.
    pub open spec fn spec_code(self) -> u8 {
        match self {
            Method::Connect => 32,
            Method::Auth => 33,
            Method::Disconnect => 34,
            Method::Admin => 35,
            Method::Update => 36,
            Method::Action => 37,
            Method::Error => 38,
            Method::State => 39,
        }
    }

    /// The Method encoded by a wire byte, if the byte is a defined code.
    pub open spec fn spec_from_u8(byte: u8) -> Option<Method> {
        if byte == 32 {
            Some(Method::Connect)
        } else if byte == 33 {
            Some(Method::Auth)
        } else if byte == 34 {
            Some(Method::Disconnect)
        } else if byte == 35 {
            Some(Method::Admin)
        } else if byte == 36 {
            Some(Method::Update)
        } else if byte == 37 {
            Some(Method::Action)
        } else if byte == 38 {
            Some(Method::Error)
        } else if byte == 39 {
            Some(Method::State)
        } else {
            None
        }
    }

    /// The lowercase textual name of a Method.
    pub open spec fn spec_name(self) -> Seq<char> {
        match self {
            Method::Connect => "connect"@,
            Method::Auth => "auth"@,
            Method::Disconnect => "disconnect"@,
            Method::Admin => "admin"@,
            Method::Update => "update"@,
            Method::Action => "action"@,
            Method::Error => "error"@,
            Method::State => "state"@,
        }
    }

    /// The Method with the given (already lowercased) name.
    pub open spec fn spec_from_name(n: Seq<char>) -> Option<Method> {
        if n == "connect"@ {
            Some(Method::Connect)
        } else if n == "auth"@ {
            Some(Method::Auth)
        } else if n == "disconnect"@ {
            Some(Method::Disconnect)
        } else if n == "admin"@ {
            Some(Method::Admin)
        } else if n == "update"@ {
            Some(Method::Update)
        } else if n == "action"@ {
            Some(Method::Action)
        } else if n == "error"@ {
            Some(Method::Error)
        } else if n == "state"@ {
            Some(Method::State)
        } else {
            None
        }
    }

    /// The protocol revision this set of Methods belongs to.
    pub fn get_version() -> (r: Version)
        ensures
            r == Version::V10,
    {
        Version::V10
    }

    /// The protocol revision this Method belongs to.
    pub fn version(&self) -> (r: Version)
        ensures
            r == Version::V10,
    {
        Version::V10
    }

    /// Decode a Method from its wire byte; unknown bytes fail.
    pub fn from_u8(byte: u8) -> (r: Option<Method>)
        ensures
            r == Method::spec_from_u8(byte),
    {
        match byte {
            32 => Some(Method::Connect),
            33 => Some(Method::Auth),
            34 => Some(Method::Disconnect),
            35 => Some(Method::Admin),
            36 => Some(Method::Update),
            37 => Some(Method::Action),
            38 => Some(Method::Error),
            39 => Some(Method::State),
            _ => None,
        }
    }

    /// The wire byte of a Method.
    pub fn to_u8(&self) -> (r: u8)
        ensures
            r == self.spec_code(),
    {
        match self {
            Method::Connect => 32,
            Method::Auth => 33,
            Method::Disconnect => 34,
            Method::Admin => 35,
            Method::Update => 36,
            Method::Action => 37,
            Method::Error => 38,
            Method::State => 39,
        }
    }

    /// The textual name of a Method.
    pub fn to_str(&self) -> (r: &'static str)
        ensures
            r@ == self.spec_name(),
    {
        match self {
            Method::Connect => "connect",
            Method::Auth => "auth",
            Method::Disconnect => "disconnect",
            Method::Admin => "admin",
            Method::Update => "update",
            Method::Action => "action",
            Method::Error => "error",
            Method::State => "state",
        }
    }

    /// Decode a Method from its textual name, case-insensitively; unknown
    /// names fail.
    pub fn from_str(s: &str) -> (r: Option<Method>)
        ensures
            r == Method::spec_from_name(lower_of(s@)),
    {
        let l = to_lowercase(s);
        let n = l.as_str();
        if str_eq(n, "connect") {
            Some(Method::Connect)
        } else if str_eq(n, "auth") {
            Some(Method::Auth)
        } else if str_eq(n, "disconnect") {
            Some(Method::Disconnect)
        } else if str_eq(n, "admin") {
            Some(Method::Admin)
        } else if str_eq(n, "update") {
            Some(Method::Update)
        } else if str_eq(n, "action") {
            Some(Method::Action)
        } else if str_eq(n, "error") {
            Some(Method::Error)
        } else if str_eq(n, "state") {
            Some(Method::State)
        } else {
            None
        }
    }
}

/// The byte codec of Method is a bijection between variants and their codes,
/// and every code lies in the Method range 32-39, disjoint from the Control
/// range 1-31.
pub proof fn lemma_method_codec_bijective(m: Method, byte: u8)
    ensures
        Method::spec_from_u8(m.spec_code()) == Some(m),
        Method::spec_from_u8(byte) matches Some(w) ==> w.spec_code() == byte,
        32 <= m.spec_code() <= 39,
{
}

/// The name codec of Method is a bijection between variants and their names.
pub proof fn lemma_method_names_bijective(m: Method, n: Seq<char>)
    ensures
        Method::spec_from_name(m.spec_name()) == Some(m),
        Method::spec_from_name(n) matches Some(w) ==> w.spec_name() == n,
{
    reveal_strlit("connect");
    reveal_strlit("auth");
    reveal_strlit("disconnect");
    reveal_strlit("admin");
    reveal_strlit("update");
    reveal_strlit("action");
    reveal_strlit("error");
    reveal_strlit("state");
    assert("connect"@.len() == 7);
    assert("auth"@.len() == 4);
    assert("disconnect"@.len() == 10);
    assert("admin"@.len() == 5);
    assert("update"@.len() == 6);
    assert("action"@.len() == 6);
    assert("error"@.len() == 5);
    assert("state"@.len() == 5);
    assert("update"@[0] == 'u' && "action"@[0] == 'a');
    assert("admin"@[0] == 'a' && "error"@[0] == 'e' && "state"@[0] == 's');
}

// ======================= Control =======================

/// An out-of-band framing marker, disjoint from Method and Header byte codes:
/// Control codes occupy 1-31, strictly below the Method and Header range.
#[derive(Debug, Clone, Copy, PartialEq, Eq, Structural)]
pub enum Control {
    /// Ends the header section. If no Length header was found the packet
    /// ends here; otherwise the payload follows, its size given by Length.
    HeaderEnd,
    /// Starts a variable-length string value.
    StringStart,
    /// Ends a variable-length string value.
    StringEnd,
}

impl Control {
    /// The wire code of a Control.
    pub open spec fn spec_code(self) -> u8 {
        match self {
            Control::HeaderEnd => 1,
            Control::StringStart => 2,
            Control::StringEnd => 3,
        }
    }

    /// The Control encoded by a wire byte, if the byte is a defined code.
    pub open spec fn spec_from_u8(byte: u8) -> Option<Control> {
        if byte == 1 {
            Some(Control::HeaderEnd)
        } else if byte == 2 {
            Some(Control::StringStart)
        } else if byte == 3 {
            Some(Control::StringEnd)
        } else {
            None
        }
    }

    /// The textual name of a Control.
    pub open spec fn spec_name(self) -> Seq<char> {
        match self {
            Control::HeaderEnd => "header_end"@,
            Control::StringStart => "string_start"@,
            Control::StringEnd => "string_end"@,
        }
    }

    /// The Control with the given (already lowercased) name.
    pub open spec fn spec_from_name(n: Seq<char>) -> Option<Control> {
        if n == "header_end"@ {
            Some(Control::HeaderEnd)
        } else if n == "string_start"@ {
            Some(Control::StringStart)
        } else if n == "string_end"@ {
            Some(Control::StringEnd)
        } else {
            None
        }
    }

    /// The protocol revision this set of Controls belongs to.
    pub fn get_version() -> (r: Version)
        ensures
            r == Version::V10,
    {
        Version::V10
    }

    /// The protocol revision this Control belongs to.
    pub fn version(&self) -> (r: Version)
        ensures
            r == Version::V10,
    {
        Version::V10
    }

    /// Decode a Control from its wire byte; unknown bytes fail.
    pub fn from_u8(byte: u8) -> (r: Option<Control>)
        ensures
            r == Control::spec_from_u8(byte),
    {
        match byte {
            1 => Some(Control::HeaderEnd),
            2 => Some(Control::StringStart),
            3 => Some(Control::StringEnd),
            _ => None,
        }
    }

    /// The wire byte of a Control.
    pub fn to_u8(&self) -> (r: u8)
        ensures
            r == self.spec_code(),
    {
        match self {
            Control::HeaderEnd => 1,
            Control::StringStart => 2,
            Control::StringEnd => 3,
        }
    }

    /// The textual name of a Control.
    pub fn to_str(&self) -> (r: &'static str)
        ensures
            r@ == self.spec_name(),
    {
        match self {
            Control::HeaderEnd => "header_end",
            Control::StringStart => "string_start",
            Control::StringEnd => "string_end",
        }
    }

    /// Decode a Control from its textual name, case-insensitively; unknown
    /// names fail.
    pub fn from_str(s: &str) -> (r: Option<Control>)
        ensures
            r == Control::spec_from_name(lower_of(s@)),
    {
        let l = to_lowercase(s);
        let n = l.as_str();
        if str_eq(n, "header_end") {
            Some(Control::HeaderEnd)
        } else if str_eq(n, "string_start") {
            Some(Control::StringStart)
        } else if str_eq(n, "string_end") {
            Some(Control::StringEnd)
        } else {
            None
        }
    }
}

/// The byte codec of Control is a bijection between variants and their codes,
/// and every code lies in the Control range 1-31, strictly below the Method
/// and Header range.
pub proof fn lemma_control_codec_bijective(c: Control, byte: u8)
    ensures
        Control::spec_from_u8(c.spec_code()) == Some(c),
        Control::spec_from_u8(byte) matches Some(w) ==> w.spec_code() == byte,
        1 <= c.spec_code() <= 31,
{
}

// ======================= Header =======================

/// A typed header field; a packet holds at most one header per kind.
#[derive(Debug)]
pub enum Header {
    /// The server the packet is heading to, or the one it comes from.
    Server(u32),
    /// The byte count of the payload. Derived from the payload by the
    /// packet's build operation, never set independently.
    Length(u64),
    /// A credential identifying a client, or quickly re-authenticating it.
    Identity(String),
    /// The client's version or build tag; a server may reject a client
    /// based on it.
    Client(String),
    /// Asks for an update of the server's configuration, mostly on a first
    /// connection.
    Update(bool),
    /// A correlation id for request/response matching.
    Id(u64),
    /// Keeps the TCP connection open while resetting all connection state.
    Reconnect(bool),
    /// Marks the payload as gzip-compressed.
    Compressed(bool),
}

/// The mathematical value of a header: the same kinds, with strings as
/// character sequences.
pub ghost enum HeaderV {
    Server(u32),
    Length(u64),
    Identity(Seq<char>),
    Client(Seq<char>),
    Update(bool),
    Id(u64),
    Reconnect(bool),
    Compressed(bool),
}

impl View for Header {
    type V = HeaderV;

    open spec fn view(&self) -> HeaderV {
        match self {
            Header::Server(v) => HeaderV::Server(*v),
            Header::Length(v) => HeaderV::Length(*v),
            Header::Identity(s) => HeaderV::Identity(s@),
            Header::Client(s) => HeaderV::Client(s@),
            Header::Update(b) => HeaderV::Update(*b),
            Header::Id(v) => HeaderV::Id(*v),
            Header::Reconnect(b) => HeaderV::Reconnect(*b),
            Header::Compressed(b) => HeaderV::Compressed(*b),
        }
    }
}

impl HeaderV {
    /// The tag byte of a header's kind, in the range 32-39.
    pub open spec fn spec_code(self) -> u8 {
        match self {
            HeaderV::Server(_) => 32,
            HeaderV::Length(_) => 33,
            HeaderV::Identity(_) => 34,
            HeaderV::Client(_) => 35,
            HeaderV::Update(_) => 36,
            HeaderV::Id(_) => 37,
            HeaderV::Reconnect(_) => 38,
            HeaderV::Compressed(_) => 39,
        }
    }

    /// The slot a header's kind occupies in a packet's fixed header storage.
    pub open spec fn spec_slot(self) -> int {
        self.spec_code() - 32
    }

    /// The lowercase textual name of a header's kind.
    pub open spec fn spec_name(self) -> Seq<char> {
        match self {
            HeaderV::Server(_) => "server"@,
            HeaderV::Length(_) => "length"@,
            HeaderV::Identity(_) => "identity"@,
            HeaderV::Client(_) => "client"@,
            HeaderV::Update(_) => "update"@,
            HeaderV::Id(_) => "id"@,
            HeaderV::Reconnect(_) => "reconnect"@,
            HeaderV::Compressed(_) => "compressed"@,
        }
    }

    /// The buffer encoding of a header: the tag byte, then the kind-specific
    /// value bytes. String kinds are delimited by StringStart and StringEnd;
    /// integer kinds are little-endian; boolean kinds use presence encoding —
    /// the tag byte alone when true, nothing at all when false.
    pub open spec fn spec_bytes(self) -> Seq<u8> {
        match self {
            HeaderV::Server(v) => seq![32u8] + spec_u32_to_le_bytes(v),
            HeaderV::Length(v) => seq![33u8] + spec_u64_to_le_bytes(v),
            HeaderV::Identity(s) => seq![34u8, 2u8] + encode_utf8(s) + seq![3u8],
            HeaderV::Client(s) => seq![35u8, 2u8] + encode_utf8(s) + seq![3u8],
            HeaderV::Update(b) => if b {
                seq![36u8]
            } else {
                Seq::empty()
            },
            HeaderV::Id(v) => seq![37u8] + spec_u64_to_le_bytes(v),
            HeaderV::Reconnect(b) => if b {
                seq![38u8]
            } else {
                Seq::empty()
            },
            HeaderV::Compressed(b) => if b {
                seq![39u8]
            } else {
                Seq::empty()
            },
        }
    }
}

/// The header (with a default value) whose tag is the given wire byte.
pub open spec fn spec_header_from_u8(byte: u8) -> Option<HeaderV> {
    if byte == 32 {
        Some(HeaderV::Server(0))
    } else if byte == 33 {
        Some(HeaderV::Length(0))
    } else if byte == 34 {
        Some(HeaderV::Identity(Seq::empty()))
    } else if byte == 35 {
        Some(HeaderV::Client(Seq::empty()))
    } else if byte == 36 {
        Some(HeaderV::Update(false))
    } else if byte == 37 {
        Some(HeaderV::Id(0))
    } else if byte == 38 {
        Some(HeaderV::Reconnect(false))
    } else {
        if byte == 39 {
            Some(HeaderV::Compressed(false))
        } else {
            None
        }
    }
}

/// The header (with a default value) of the given (already lowercased) name.
pub open spec fn spec_header_from_name(n: Seq<char>) -> Option<HeaderV> {
    if n == "server"@ {
        Some(HeaderV::Server(0))
    } else if n == "length"@ {
        Some(HeaderV::Length(0))
    } else if n == "identity"@ {
        Some(HeaderV::Identity(Seq::empty()))
    } else if n == "update"@ {
        Some(HeaderV::Update(false))
    } else if n == "client"@ {
        Some(HeaderV::Client(Seq::empty()))
    } else if n == "id"@ {
        Some(HeaderV::Id(0))
    } else if n == "reconnect"@ {
        Some(HeaderV::Reconnect(false))
    } else {
        if n == "compressed"@ {
            Some(HeaderV::Compressed(false))
        } else {
            None
        }
    }
}

/// What scanning one header from the head of a byte sequence gives.
pub ghost enum HdrScan {
    /// A well-formed header: its value and the bytes consumed.
    Found { h: HeaderV, used: int },
    /// The scan failed with this error kind; `args` fill the description's
    /// placeholders and `used` counts the bytes consumed when the failure
    /// was detected.
    Failed { id: ParseErrorId, args: Seq<Seq<char>>, used: int },
}

/// Scanning one header from the head of a byte sequence: the tag byte
/// dispatches to the kind-specific reader. Integer kinds read a fixed number
/// of little-endian bytes, string kinds a delimited string, boolean kinds
/// nothing (a present tag means true). A byte that tags no defined kind
/// fails with UkwnHeader.
pub open spec fn spec_scan_header(bytes: Seq<u8>) -> HdrScan {
    if bytes.len() == 0 {
        HdrScan::Failed { id: ParseErrorId::ConnectionClosed, args: seq![], used: 0 }
    } else {
        let tag = bytes[0];
        if tag == 32 {
            if bytes.len() >= 5 {
                HdrScan::Found {
                    h: HeaderV::Server(spec_u32_from_le_bytes(bytes.subrange(1, 5))),
                    used: 5,
                }
            } else {
                HdrScan::Failed {
                    id: ParseErrorId::InvNum,
                    args: seq!["4"@, spec_dec(bytes.len() - 1)],
                    used: bytes.len() as int,
                }
            }
        } else if tag == 33 || tag == 37 {
            if bytes.len() >= 9 {
                let v = spec_u64_from_le_bytes(bytes.subrange(1, 9));
                HdrScan::Found {
                    h: if tag == 33 {
                        HeaderV::Length(v)
                    } else {
                        HeaderV::Id(v)
                    },
                    used: 9,
                }
            } else {
                HdrScan::Failed {
                    id: ParseErrorId::InvNum,
                    args: seq!["8"@, spec_dec(bytes.len() - 1)],
                    used: bytes.len() as int,
                }
            }
        } else if tag == 34 || tag == 35 {
            match spec_scan_string(bytes.skip(1)) {
                StrScan::Found { chars, used } => HdrScan::Found {
                    h: if tag == 34 {
                        HeaderV::Identity(chars)
                    } else {
                        HeaderV::Client(chars)
                    },
                    used: 1 + used,
                },
                StrScan::Failed { id, arg, used } => HdrScan::Failed {
                    id,
                    args: seq![arg],
                    used: 1 + used,
                },
            }
        } else if tag == 36 {
            HdrScan::Found { h: HeaderV::Update(true), used: 1 }
        } else if tag == 38 {
            HdrScan::Found { h: HeaderV::Reconnect(true), used: 1 }
        } else if tag == 39 {
            HdrScan::Found { h: HeaderV::Compressed(true), used: 1 }
        } else {
            HdrScan::Failed {
                id: ParseErrorId::UkwnHeader,
                args: seq![spec_dec3(tag as int)],
                used: 1,
            }
        }
    }
}

/// The UTF-8 encoding of a character sequence that is free of the scalar
/// value 3 (the StringEnd code) is free of the byte 3: ASCII codes appear in
/// UTF-8 only as the encodings of their own characters, and every byte of a
/// multi-byte encoding has its high bit set.
pub proof fn lemma_encode_utf8_no_string_end(s: Seq<char>)
    requires
        forall|i: int| 0 <= i < s.len() ==> (#[trigger] s[i]) as u32 != 3,
    ensures
        forall|k: int|
            0 <= k < encode_utf8(s).len() ==> #[trigger] encode_utf8(s)[k] != 3,
    decreases s.len(),
{
    if s.len() > 0 {
        let c = s[0] as u32;
        vstd::utf8::char_is_scalar(s[0]);
        assert forall|k: int|
            0 <= k < vstd::utf8::encode_scalar(c).len() implies #[trigger] vstd::utf8::encode_scalar(
            c,
        )[k] != 3 by {
            if vstd::utf8::has_width_1_encoding(c) {
                assert(c <= 0x7F && c != 3 ==> ((c & 0x7F) as u8) != 3) by (bit_vector);
            } else {
                assert(forall|y: u8| (0x80u8 | y) >= 4 && (0xC0u8 | y) >= 4 && (0xE0u8 | y) >= 4 && (
                0xF0u8 | y) >= 4) by (bit_vector);
            }
        }
        lemma_encode_utf8_no_string_end(s.drop_first());
        assert forall|k: int|
            0 <= k < encode_utf8(s).len() implies #[trigger] encode_utf8(s)[k] != 3 by {
            let head = vstd::utf8::encode_scalar(c);
            if k < head.len() {
                assert(encode_utf8(s)[k] == head[k]);
            } else {
                assert(encode_utf8(s)[k] == encode_utf8(s.drop_first())[k - head.len()]);
            }
        }
    }
}

impl HeaderV {
    /// True when the header leaves an unambiguous trace on the wire: a
    /// boolean header is true (false is encoded by omission), and a string
    /// header contains no character with the StringEnd scalar value, which
    /// would end the string early.
    pub open spec fn scannable(self) -> bool {
        match self {
            HeaderV::Update(b) => b,
            HeaderV::Reconnect(b) => b,
            HeaderV::Compressed(b) => b,
            HeaderV::Identity(s) => forall|i: int|
                0 <= i < s.len() ==> (#[trigger] s[i]) as u32 != 3,
            HeaderV::Client(s) => forall|i: int|
                0 <= i < s.len() ==> (#[trigger] s[i]) as u32 != 3,
            _ => true,
        }
    }
}

/// A scannable header's encoding starts with its tag byte.
pub proof fn lemma_header_bytes_shape(h: HeaderV)
    requires
        h.scannable(),
    ensures
        h.spec_bytes().len() >= 1,
        h.spec_bytes()[0] == h.spec_code(),
{
    match h {
        HeaderV::Server(v) => {
            lemma_auto_spec_u32_to_from_le_bytes();
        },
        HeaderV::Length(v) => {
            lemma_auto_spec_u64_to_from_le_bytes();
        },
        HeaderV::Id(v) => {
            lemma_auto_spec_u64_to_from_le_bytes();
        },
        _ => {},
    }
}

/// Scanning the encoding of a scannable header, whatever follows it, finds
/// exactly that header and consumes exactly its encoding.
pub proof fn lemma_scan_encoded_header(h: HeaderV, rest: Seq<u8>)
    requires
        h.scannable(),
    ensures
        spec_scan_header(h.spec_bytes() + rest) == (HdrScan::Found {
            h,
            used: h.spec_bytes().len() as int,
        }),
{
    let bytes = h.spec_bytes() + rest;
    match h {
        HeaderV::Server(v) => {
            lemma_auto_spec_u32_to_from_le_bytes();
            assert(bytes.subrange(1, 5) =~= spec_u32_to_le_bytes(v));
        },
        HeaderV::Length(v) => {
            lemma_auto_spec_u64_to_from_le_bytes();
            assert(bytes.subrange(1, 9) =~= spec_u64_to_le_bytes(v));
        },
        HeaderV::Id(v) => {
            lemma_auto_spec_u64_to_from_le_bytes();
            assert(bytes.subrange(1, 9) =~= spec_u64_to_le_bytes(v));
        },
        HeaderV::Identity(cs) => {
            lemma_scan_encoded_string(cs, rest, bytes.skip(1));
        },
        HeaderV::Client(cs) => {
            lemma_scan_encoded_string(cs, rest, bytes.skip(1));
        },
        HeaderV::Update(b) => {},
        HeaderV::Reconnect(b) => {},
        HeaderV::Compressed(b) => {},
    }
}

/// Scanning the delimited encoding of a StringEnd-free character sequence,
/// whatever follows it, finds exactly those characters.
proof fn lemma_scan_encoded_string(cs: Seq<char>, rest: Seq<u8>, sk: Seq<u8>)
    requires
        forall|i: int| 0 <= i < cs.len() ==> (#[trigger] cs[i]) as u32 != 3,
        sk =~= seq![2u8] + encode_utf8(cs) + seq![3u8] + rest,
    ensures
        spec_scan_string(sk) == (StrScan::Found {
            chars: cs,
            used: encode_utf8(cs).len() + 2int,
        }),
{
    broadcast use vstd::utf8::encode_utf8_valid_utf8;
    broadcast use vstd::utf8::encode_utf8_decode_utf8;

    let enc = encode_utf8(cs);
    lemma_encode_utf8_no_string_end(cs);
    assert(sk[0] == 2);
    assert(sk[1 + enc.len() as int] == 3);
    assert forall|k: int| 1 <= k < 1 + enc.len() implies sk[k] != 3 by {
        assert(sk[k] == enc[k - 1]);
    }
    crate::parser::lemma_find_byte_at(sk, 3, 1, 1 + enc.len() as int);
    assert(sk.subrange(1, 1 + enc.len() as int) =~= enc);
}

/// A scanned header consumed between one byte and the whole sequence, its
/// tag is the first byte, and its slot lies in the packet's header storage.
pub proof fn lemma_scan_header_used(bytes: Seq<u8>)
    ensures
        spec_scan_header(bytes) matches HdrScan::Found { h, used } ==> {
            &&& 1 <= used <= bytes.len()
            &&& h.spec_code() == bytes[0]
            &&& 0 <= h.spec_slot() < 8
            &&& (h matches HeaderV::Update(b) ==> b)
            &&& (h matches HeaderV::Reconnect(b) ==> b)
            &&& (h matches HeaderV::Compressed(b) ==> b)
        },
        spec_scan_header(bytes) matches HdrScan::Failed { id, args, used } ==> 0 <= used
            <= bytes.len(),
{
    if bytes.len() > 0 && (bytes[0] == 34 || bytes[0] == 35) {
        lemma_scan_string_used(bytes.skip(1));
    }
}

impl PartialEq for Header {
    /// Headers compare by kind and value.
    fn eq(&self, other: &Self) -> (r: bool) {
        match (self, other) {
            (Header::Server(x), Header::Server(y)) => x == y,
            (Header::Length(x), Header::Length(y)) => x == y,
            (Header::Identity(x), Header::Identity(y)) => str_eq(x.as_str(), y.as_str()),
            (Header::Client(x), Header::Client(y)) => str_eq(x.as_str(), y.as_str()),
            (Header::Update(x), Header::Update(y)) => x == y,
            (Header::Id(x), Header::Id(y)) => x == y,
            (Header::Reconnect(x), Header::Reconnect(y)) => x == y,
            (Header::Compressed(x), Header::Compressed(y)) => x == y,
            _ => false,
        }
    }
}

impl vstd::std_specs::cmp::PartialEqSpecImpl for Header {
    open spec fn obeys_eq_spec() -> bool {
        true
    }

    open spec fn eq_spec(&self, other: &Self) -> bool {
        self@ == other@
    }
}

impl Clone for Header {
    /// A clone carries the same kind and value.
    fn clone(&self) -> (r: Self)
        ensures
            r@ == self@,
    {
        match self {
            Header::Server(v) => Header::Server(*v),
            Header::Length(v) => Header::Length(*v),
            Header::Identity(s) => Header::Identity(s.clone()),
            Header::Client(s) => Header::Client(s.clone()),
            Header::Update(b) => Header::Update(*b),
            Header::Id(v) => Header::Id(*v),
            Header::Reconnect(b) => Header::Reconnect(*b),
            Header::Compressed(b) => Header::Compressed(*b),
        }
    }
}

impl Header {
    /// The protocol revision this set of headers belongs to.
    pub fn get_version() -> (r: Version)
        ensures
            r == Version::V10,
    {
        Version::V10
    }

    /// The protocol revision this header belongs to.
    pub fn version(&self) -> (r: Version)
        ensures
            r == Version::V10,
    {
        Version::V10
    }

    /// True when the other header is of the same kind, whatever the values.
    pub fn matches(&self, b: &Self) -> (r: bool)
        ensures
            r == (self@.spec_code() == b@.spec_code()),
    {
        self.to_u8() == b.to_u8()
    }

    /// Decode a header kind (with a default value) from its textual name,
    /// case-insensitively; unknown names fail.
    pub fn from_str(s: &str) -> (r: Option<Header>)
        ensures
            match r {
                Some(h) => spec_header_from_name(lower_of(s@)) == Some(h@),
                None => spec_header_from_name(lower_of(s@)) is None,
            },
    {
        let l = to_lowercase(s);
        let n = l.as_str();
        if str_eq(n, "server") {
            Some(Header::Server(0))
        } else if str_eq(n, "length") {
            Some(Header::Length(0))
        } else if str_eq(n, "identity") {
            Some(Header::Identity(String::new()))
        } else if str_eq(n, "update") {
            Some(Header::Update(false))
        } else if str_eq(n, "client") {
            Some(Header::Client(String::new()))
        } else if str_eq(n, "id") {
            Some(Header::Id(0))
        } else if str_eq(n, "reconnect") {
            Some(Header::Reconnect(false))
        } else if str_eq(n, "compressed") {
            Some(Header::Compressed(false))
        } else {
            None
        }
    }

    /// The textual name of a header's kind.
    pub fn to_str(&self) -> (r: &'static str)
        ensures
            r@ == self@.spec_name(),
    {
        match self {
            Header::Server(_) => "server",
            Header::Length(_) => "length",
            Header::Identity(_) => "identity",
            Header::Client(_) => "client",
            Header::Update(_) => "update",
            Header::Id(_) => "id",
            Header::Reconnect(_) => "reconnect",
            Header::Compressed(_) => "compressed",
        }
    }

    /// Decode a header kind (with a default value) from its tag byte;
    /// unknown bytes fail.
    pub fn from_u8(byte: u8) -> (r: Option<Header>)
        ensures
            match r {
                Some(h) => spec_header_from_u8(byte) == Some(h@),
                None => spec_header_from_u8(byte) is None,
            },
    {
        match byte {
            32 => Some(Header::Server(0)),
            33 => Some(Header::Length(0)),
            34 => Some(Header::Identity(String::new())),
            35 => Some(Header::Client(String::new())),
            36 => Some(Header::Update(false)),
            37 => Some(Header::Id(0)),
            38 => Some(Header::Reconnect(false)),
            39 => Some(Header::Compressed(false)),
            _ => None,
        }
    }

    /// The tag byte of a header's kind.
    pub fn to_u8(&self) -> (r: u8)
        ensures
            r == self@.spec_code(),
    {
        match self {
            Header::Server(_) => 32,
            Header::Length(_) => 33,
            Header::Identity(_) => 34,
            Header::Client(_) => 35,
            Header::Update(_) => 36,
            Header::Id(_) => 37,
            Header::Reconnect(_) => 38,
            Header::Compressed(_) => 39,
        }
    }

    /// Decode one header from the parser: the tag byte, then the
    /// kind-specific value bytes (boolean kinds carry no value bytes and
    /// decode to true — false is only representable by omission). An
    /// unrecognized tag byte fails with UkwnHeader carrying the offending
    /// byte.
    pub fn from_buffer<S: ByteSource>(parser: &mut Parser<S>) -> (r: ParseResult<Header>)
        requires
            old(parser).wf(),
        ensures
            final(parser).wf(),
            final(parser).spec_version() == old(parser).spec_version(),
            final(parser).reliable() == old(parser).reliable(),
            match r {
                Ok(h) => spec_scan_header(old(parser).remaining()) matches HdrScan::Found {
                    h: hv,
                    used,
                } && {
                    &&& h@ == hv
                    &&& final(parser).remaining() == old(parser).remaining().skip(used)
                    &&& final(parser).spec_cursor() == old(parser).spec_cursor() + used
                },
                Err(e) => (spec_scan_header(old(parser).remaining()) matches HdrScan::Failed {
                    id,
                    args,
                    used,
                } && {
                    &&& e.id == id
                    &&& e.description@ == spec_rendered(id, args)
                    &&& e.pos == old(parser).spec_cursor() + used
                    &&& final(parser).spec_cursor() == old(parser).spec_cursor() + used
                }) || (!old(parser).reliable() && (e.id == ParseErrorId::TimedOut || e.id
                    == ParseErrorId::ConnectionClosed) && e.pos == final(parser).spec_cursor()),
            },
    {
        let ghost rem0 = parser.remaining();
        let byte = match parser.read_byte() {
            Ok(b) => b,
            Err(e) => {
                return Err(e);
            },
        };
        let header = match Header::from_u8(byte) {
            Some(h) => h,
            None => {
                let tag = byte_to_dec3(byte);
                return Err(error_with(ParseErrorId::UkwnHeader, parser.pos(), tag.as_str()));
            },
        };
        match header {
            Header::Server(_) => match parser.read_u32() {
                Ok(v) => {
                    proof {
                        assert(rem0.skip(1).take(4) =~= rem0.subrange(1, 5));
                        assert(rem0.skip(1).skip(4) =~= rem0.skip(5));
                    }
                    Ok(Header::Server(v))
                },
                Err(e) => Err(e),
            },
            Header::Length(_) => match parser.read_u64() {
                Ok(v) => {
                    proof {
                        assert(rem0.skip(1).take(8) =~= rem0.subrange(1, 9));
                        assert(rem0.skip(1).skip(8) =~= rem0.skip(9));
                    }
                    Ok(Header::Length(v))
                },
                Err(e) => Err(e),
            },
            Header::Id(_) => match parser.read_u64() {
                Ok(v) => {
                    proof {
                        assert(rem0.skip(1).take(8) =~= rem0.subrange(1, 9));
                        assert(rem0.skip(1).skip(8) =~= rem0.skip(9));
                    }
                    Ok(Header::Id(v))
                },
                Err(e) => Err(e),
            },
            Header::Identity(_) => match parser.read_string() {
                Ok(s) => {
                    proof {
                        lemma_scan_string_used(rem0.skip(1));
                        match spec_scan_string(rem0.skip(1)) {
                            StrScan::Found { chars, used } => {
                                assert(rem0.skip(1).skip(used) =~= rem0.skip(1 + used));
                            },
                            _ => {},
                        }
                    }
                    Ok(Header::Identity(s))
                },
                Err(e) => Err(e),
            },
            Header::Client(_) => match parser.read_string() {
                Ok(s) => {
                    proof {
                        lemma_scan_string_used(rem0.skip(1));
                        match spec_scan_string(rem0.skip(1)) {
                            StrScan::Found { chars, used } => {
                                assert(rem0.skip(1).skip(used) =~= rem0.skip(1 + used));
                            },
                            _ => {},
                        }
                    }
                    Ok(Header::Client(s))
                },
                Err(e) => Err(e),
            },
            Header::Update(_) => Ok(Header::Update(true)),
            Header::Reconnect(_) => Ok(Header::Reconnect(true)),
            Header::Compressed(_) => Ok(Header::Compressed(true)),
        }
    }

    /// The buffer encoding of this header: tag byte plus value bytes, with
    /// presence encoding for boolean kinds.
    pub fn to_buffer(&self) -> (r: Vec<u8>)
        ensures
            r@ == self@.spec_bytes(),
    {
        match self {
            Header::Identity(v) | Header::Client(v) => {
                let mut vector: Vec<u8> = Vec::new();
                vector.push(self.to_u8());
                vector.push(2);
                let mut bytes = v.as_str().as_bytes_vec();
                vector.append(&mut bytes);
                vector.push(3);
                proof {
                    assert(vector@ =~= self@.spec_bytes());
                }
                vector
            },
            Header::Server(v) => {
                let mut vector: Vec<u8> = Vec::new();
                vector.push(32);
                let mut bytes = u32_to_le_bytes(*v);
                vector.append(&mut bytes);
                proof {
                    assert(vector@ =~= self@.spec_bytes());
                }
                vector
            },
            Header::Length(v) | Header::Id(v) => {
                let mut vector: Vec<u8> = Vec::new();
                vector.push(self.to_u8());
                let mut bytes = u64_to_le_bytes(*v);
                vector.append(&mut bytes);
                proof {
                    assert(vector@ =~= self@.spec_bytes());
                }
                vector
            },
            Header::Update(v) | Header::Reconnect(v) | Header::Compressed(v) => {
                let mut vector: Vec<u8> = Vec::new();
                if *v {
                    vector.push(self.to_u8());
                }
                proof {
                    assert(vector@ =~= self@.spec_bytes());
                }
                vector
            },
        }
    }
}

} // verus!
