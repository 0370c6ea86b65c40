//! The Packet: one Method, a fixed set of at-most-one-per-kind headers and
//! an opaque payload, with a build (serialize) operation producing a cached
//! byte buffer and a parse (deserialize) operation driving the streaming
//! Parser through the framing state machine.
use vstd::prelude::*;
use crate::Version;
use crate::errors::ParseError;
use crate::errors::ParseErrorId;
use crate::errors::ParseResult;
use crate::errors::error_with;
use crate::errors::spec_description;
use crate::errors::spec_rendered;
use crate::parser::ByteSource;
use crate::parser::Parser;
use crate::text::lower_of;
use crate::text::spec_dec;
use crate::text::spec_dec3;
use crate::text::spec_replace_first;
use crate::text::u64_to_dec;
use crate::wire::Control;
use crate::wire::HdrScan;
use crate::wire::Header;
use crate::wire::HeaderV;
use crate::wire::Method;
use crate::wire::lemma_scan_header_used;
use crate::wire::spec_header_from_name;
use crate::wire::spec_scan_header;
use vstd::slice::slice_to_vec;

verus! {

// ======================= The packet's model =======================

/// The mathematical value of a packet: its version, its method if one is
/// set, its eight header slots (slot i holds the header of kind 32 + i, or
/// nothing), and its payload bytes.
pub ghost struct PacketV {
    pub version: Version,
    pub method: Option<Method>,
    pub headers: Seq<Option<HeaderV>>,
    pub data: Seq<u8>,
}

/// Eight empty header slots.
pub open spec fn spec_empty_slots() -> Seq<Option<HeaderV>> {
    Seq::new(8, |i: int| None)
}

/// An empty packet: current version, no method, no headers, no payload.
pub open spec fn spec_empty_packet() -> PacketV {
    PacketV {
        version: Version::V10,
        method: None,
        headers: spec_empty_slots(),
        data: Seq::empty(),
    }
}

/// The buffer encoding of a header slot: the header's encoding, or nothing
/// for an empty slot.
pub open spec fn spec_opt_bytes(o: Option<HeaderV>) -> Seq<u8> {
    match o {
        Some(h) => h.spec_bytes(),
        None => Seq::empty(),
    }
}

/// The concatenated buffer encodings of the header slots below `i`, in slot
/// order.
pub open spec fn spec_slots_bytes(hs: Seq<Option<HeaderV>>, i: int) -> Seq<u8>
    decreases i,
{
    if i <= 0 {
        Seq::empty()
    } else {
        spec_slots_bytes(hs, i - 1) + spec_opt_bytes(hs[i - 1])
    }
}

/// The header slots present below `i`, in slot order.
pub open spec fn spec_present(hs: Seq<Option<HeaderV>>, i: int) -> Seq<HeaderV>
    decreases i,
{
    if i <= 0 {
        Seq::empty()
    } else {
        spec_present(hs, i - 1) + (match hs[i - 1] {
            Some(h) => seq![h],
            None => Seq::empty(),
        })
    }
}

/// Header slots after setting each of `items` in turn: each lands in its
/// kind's slot, a later one of the same kind overwriting an earlier one.
pub open spec fn spec_apply(hs: Seq<Option<HeaderV>>, items: Seq<HeaderV>) -> Seq<
    Option<HeaderV>,
>
    decreases items.len(),
{
    if items.len() == 0 {
        hs
    } else {
        spec_apply(hs.update(items[0].spec_slot(), Some(items[0])), items.skip(1))
    }
}

impl PacketV {
    /// Well-formed: eight header slots, each holding a header of its slot's
    /// kind.
    pub open spec fn wf(self) -> bool {
        &&& self.headers.len() == 8
        &&& forall|i: int|
            0 <= i < 8 ==> ((#[trigger] self.headers[i]) matches Some(h) ==> h.spec_slot() == i)
    }

    /// Empty: no method, no headers, no payload.
    pub open spec fn is_empty(self) -> bool {
        &&& self.method is None
        &&& self.data.len() == 0
        &&& forall|i: int| 0 <= i < self.headers.len() ==> (#[trigger] self.headers[i]) is None
    }

    /// The packet after the build operation re-derived the Length header:
    /// when the payload is non-empty, Length is set from its size.
    pub open spec fn built(self) -> PacketV {
        if self.data.len() > 0 {
            PacketV {
                headers: self.headers.update(1, Some(HeaderV::Length(self.data.len() as u64))),
                ..self
            }
        } else {
            self
        }
    }

    /// The complete frame: version byte, method byte, the present headers'
    /// buffers in slot order, the HeaderEnd control byte, then the raw
    /// payload.
    pub open spec fn frame(self) -> Seq<u8>
        recommends
            self.method is Some,
    {
        seq![
            self.version.spec_to_u8(),
            match self.method {
                Some(m) => m.spec_code(),
                None => 0,
            },
        ] + spec_slots_bytes(self.headers, 8) + seq![1u8] + self.data
    }
}

// ======================= The frame's parse model =======================

/// What parsing the header section gives: the filled slots and the bytes
/// after the HeaderEnd byte, or an error kind with the arguments that fill
/// its description's placeholders and the count of bytes consumed when the
/// failure was detected.
pub ghost enum HdrsParse {
    Done { headers: Seq<Option<HeaderV>>, rest: Seq<u8> },
    Failed { id: ParseErrorId, args: Seq<Seq<char>>, used: int },
}

/// The same header-section outcome with `k` more bytes counted as consumed
/// before the failure, for composing the loop's steps.
pub open spec fn spec_shift_hdrs(r: HdrsParse, k: int) -> HdrsParse {
    match r {
        HdrsParse::Done { headers, rest } => HdrsParse::Done { headers, rest },
        HdrsParse::Failed { id, args, used } => HdrsParse::Failed { id, args, used: used + k },
    }
}

/// Shifting a header-section outcome composes additively.
proof fn lemma_shift_hdrs_add(r: HdrsParse, a: int, b: int)
    ensures
        spec_shift_hdrs(spec_shift_hdrs(r, a), b) == spec_shift_hdrs(r, a + b),
        spec_shift_hdrs(r, 0) == r,
{
}

/// The header-section loop, starting from the given slots: a HeaderEnd byte
/// ends the section; any other recognized Control byte here is out of
/// context; an unrecognized byte below 32 is an unknown control; any byte of
/// 32 or above starts one header, which is stored in its kind's slot,
/// overwriting an earlier header of the same kind. End of the sequence
/// before HeaderEnd means the connection closed.
pub open spec fn spec_parse_headers(bytes: Seq<u8>, acc: Seq<Option<HeaderV>>) -> HdrsParse
    decreases bytes.len(),
{
    if bytes.len() == 0 {
        HdrsParse::Failed { id: ParseErrorId::ConnectionClosed, args: seq![], used: 0 }
    } else {
        let b = bytes[0];
        if b == 1 {
            HdrsParse::Done { headers: acc, rest: bytes.skip(1) }
        } else if b < 32 {
            if b == 2 || b == 3 {
                HdrsParse::Failed {
                    id: ParseErrorId::UnxptCtrl,
                    args: seq![
                        if b == 2 {
                            "string_start"@
                        } else {
                            "string_end"@
                        },
                    ],
                    used: 1,
                }
            } else {
                HdrsParse::Failed {
                    id: ParseErrorId::UkwnCtrl,
                    args: seq![spec_dec3(b as int)],
                    used: 1,
                }
            }
        } else {
            match spec_scan_header(bytes) {
                HdrScan::Found { h, used } => if 1 <= used <= bytes.len() {
                    spec_shift_hdrs(
                        spec_parse_headers(bytes.skip(used), acc.update(h.spec_slot(), Some(h))),
                        used,
                    )
                } else {
                    // a scanned header always consumes within these bounds
                    HdrsParse::Failed { id: ParseErrorId::Unknown, args: seq![], used: 0 }
                },
                HdrScan::Failed { id, args, used } => HdrsParse::Failed { id, args, used },
            }
        }
    }
}

/// What flate2's gzip decoder returns for a byte sequence: the decompressed
/// bytes, or nothing when the bytes are not a well-formed gzip stream; a
/// function of the bytes alone.
pub uninterp spec fn gunzip(b: Seq<u8>) -> Option<Seq<u8>>;

/// Relies on flate2's GzDecoder, drained with read_to_end: gzip-decompresses
/// the bytes, failing exactly on input the decoder rejects; the failure
/// carries the decoder's error message.
#[verifier::external_body]
fn gunzip_bytes(b: &[u8]) -> (r: Result<Vec<u8>, String>)
    ensures
        match r {
            Ok(v) => gunzip(b@) == Some(v@),
            Err(m) => gunzip(b@) is None,
        },
{
    let mut decoder = flate2::read::GzDecoder::new(b);
    let mut out: Vec<u8> = Vec::new();
    match std::io::Read::read_to_end(&mut decoder, &mut out) {
        Ok(_) => Ok(out),
        Err(e) => Err(e.to_string()),
    }
}

/// True when the slots carry a Compressed(true) header.
pub open spec fn spec_compressed(hs: Seq<Option<HeaderV>>) -> bool {
    hs.len() == 8 && hs[7] == Some(HeaderV::Compressed(true))
}

/// What parsing a complete frame from the head of a byte sequence gives: the
/// packet and the bytes consumed, or an error kind with the arguments that
/// fill its description's placeholders and the count of bytes consumed when
/// the failure was detected.
pub ghost enum FrameParse {
    Done { p: PacketV, used: int },
    Failed { id: ParseErrorId, args: Seq<Seq<char>>, used: int },
}

/// The framing state machine, terminal on the first error: a version byte,
/// a method byte, the header section, then — exactly when a Length header is
/// present — that many payload bytes, gzip-decompressed when a
/// Compressed(true) header is present. `used` counts the consumed bytes.
pub open spec fn spec_parse_frame(bytes: Seq<u8>) -> FrameParse {
    if bytes.len() < 1 {
        FrameParse::Failed { id: ParseErrorId::ConnectionClosed, args: seq![], used: 0 }
    } else if Version::spec_from_u8(bytes[0]) is None {
        FrameParse::Failed {
            id: ParseErrorId::UkwnHeaderVal,
            args: seq!["version"@, spec_dec(bytes[0] as int)],
            used: 1,
        }
    } else if bytes.len() < 2 {
        FrameParse::Failed { id: ParseErrorId::ConnectionClosed, args: seq![], used: 1 }
    } else if Method::spec_from_u8(bytes[1]) is None {
        FrameParse::Failed {
            id: ParseErrorId::UkwnHeaderVal,
            args: seq!["method"@, spec_dec(bytes[1] as int)],
            used: 2,
        }
    } else {
        let version = match Version::spec_from_u8(bytes[0]) {
            Some(v) => v,
            None => Version::V10,
        };
        let method = match Method::spec_from_u8(bytes[1]) {
            Some(m) => m,
            None => Method::Connect,
        };
        match spec_parse_headers(bytes.skip(2), spec_empty_slots()) {
            HdrsParse::Failed { id, args, used } => FrameParse::Failed {
                id,
                args,
                used: 2 + used,
            },
            HdrsParse::Done { headers, rest } => match headers[1] {
                Some(HeaderV::Length(len)) => if rest.len() < len {
                    // everything available is consumed before the shortfall
                    // is detected
                    FrameParse::Failed {
                        id: ParseErrorId::InvDataLen,
                        args: seq![],
                        used: bytes.len() as int,
                    }
                } else {
                    let raw = rest.take(len as int);
                    let used = bytes.len() - rest.len() + len;
                    if spec_compressed(headers) {
                        match gunzip(raw) {
                            Some(d) => FrameParse::Done {
                                p: PacketV { version, method: Some(method), headers, data: d },
                                used,
                            },
                            None => FrameParse::Failed {
                                id: ParseErrorId::InvDataComp,
                                args: seq![],
                                used,
                            },
                        }
                    } else {
                        FrameParse::Done {
                            p: PacketV { version, method: Some(method), headers, data: raw },
                            used,
                        }
                    }
                },
                _ => FrameParse::Done {
                    p: PacketV {
                        version,
                        method: Some(method),
                        headers,
                        data: Seq::empty(),
                    },
                    used: bytes.len() - rest.len(),
                },
            },
        }
    }
}

// ======================= Packet =======================

/// The aggregate message: one Method, at most one header per kind, and an
/// opaque payload. Packets are value-like: created empty, populated by the
/// sender or by parse, serialized or consumed, then discarded.
#[derive(Debug)]
pub struct Packet {
    headers: Vec<Option<Header>>,
    method: Option<Method>,
    version: Version,
    data: Vec<u8>,
    cache: Vec<u8>,
    dirty: bool,
}

impl View for Packet {
    type V = PacketV;

    closed spec fn view(&self) -> PacketV {
        PacketV {
            version: self.version,
            method: self.method,
            headers: self.headers@.map_values(
                |o: Option<Header>|
                    match o {
                        Some(h) => Some(h@),
                        None => None,
                    },
            ),
            data: self.data@,
        }
    }
}

/// True exactly when two byte vectors hold the same bytes.
fn bytes_eq(a: &Vec<u8>, b: &Vec<u8>) -> (r: bool)
    ensures
        r == (a@ == b@),
{
    if a.len() != b.len() {
        return false;
    }
    let mut i: usize = 0;
    while i < a.len()
        invariant
            a@.len() == b@.len(),
            i <= a@.len(),
            forall|k: int| 0 <= k < i ==> a@[k] == b@[k],
        decreases a@.len() - i,
    {
        if a[i] != b[i] {
            return false;
        }
        i += 1;
    }
    proof {
        assert(a@ =~= b@);
    }
    true
}

impl PartialEq for Packet {
    /// Packets compare by value — the method, the version, the headers by
    /// kind and value, the payload by bytes; the build cache is invisible.
    fn eq(&self, other: &Self) -> (r: bool) {
        let methods_eq = match (self.method, other.method) {
            (Some(a), Some(b)) => a == b,
            (None, None) => true,
            _ => false,
        };
        if !methods_eq {
            return false;
        }
        if !(self.version == other.version) {
            return false;
        }
        if !bytes_eq(&self.data, &other.data) {
            return false;
        }
        if self.headers.len() != other.headers.len() {
            proof {
                assert(self@.headers.len() != other@.headers.len());
            }
            return false;
        }
        let mut i: usize = 0;
        while i < self.headers.len()
            invariant
                self@.headers.len() == self.headers@.len(),
                other@.headers.len() == other.headers@.len(),
                self.headers@.len() == other.headers@.len(),
                i <= self.headers@.len(),
                forall|k: int| 0 <= k < i ==> self@.headers[k] == other@.headers[k],
                self@.method == other@.method,
                self@.version == other@.version,
                self@.data == other@.data,
            decreases self.headers@.len() - i,
        {
            let slots_eq = match (&self.headers[i], &other.headers[i]) {
                (Some(a), Some(b)) => a == b,
                (None, None) => true,
                _ => false,
            };
            if !slots_eq {
                proof {
                    assert(self@.headers[i as int] != other@.headers[i as int]);
                }
                return false;
            }
            proof {
                assert(self@.headers[i as int] == other@.headers[i as int]);
            }
            i += 1;
        }
        proof {
            assert(self@.headers =~= other@.headers);
        }
        true
    }
}

impl vstd::std_specs::cmp::PartialEqSpecImpl for Packet {
    open spec fn obeys_eq_spec() -> bool {
        true
    }

    open spec fn eq_spec(&self, other: &Self) -> bool {
        self@ == other@
    }
}

impl Packet {
    /// Well-formed: eight slots, each holding a header of its kind, and a
    /// clean build cache only when it really is the current frame.
    pub closed spec fn inv(&self) -> bool {
        &&& self.headers@.len() == 8
        &&& self@.wf()
        &&& (!self.dirty ==> {
            &&& self.method is Some
            &&& self@.built() == self@
            &&& self.cache@ == self@.frame()
        })
    }

    /// A well-formed packet's model has eight slots, each holding a header
    /// of its slot's kind, so proofs over an arbitrary packet may use the
    /// slot structure.
    pub proof fn lemma_inv_wf(&self)
        requires
            self.inv(),
        ensures
            self@.wf(),
    {
    }

    /// An empty packet for the current protocol revision.
    pub fn new() -> (r: Packet)
        ensures
            r.inv(),
            r@ == spec_empty_packet(),
    {
        let mut headers: Vec<Option<Header>> = Vec::new();
        let mut i: usize = 0;
        while i < 8
            invariant
                i <= 8,
                headers@.len() == i,
                forall|k: int| 0 <= k < i ==> (#[trigger] headers@[k]) is None,
            decreases 8 - i,
        {
            headers.push(None);
            i += 1;
        }
        let p = Packet {
            headers,
            method: None,
            version: Version::V10,
            data: Vec::new(),
            cache: Vec::new(),
            dirty: true,
        };
        proof {
            assert(p@.headers =~= spec_empty_slots());
        }
        p
    }

    /// The payload's size in bytes.
    pub fn len(&self) -> (r: usize)
        ensures
            r == self@.data.len(),
    {
        self.data.len()
    }

    /// The packet's protocol revision.
    pub fn version(&self) -> (r: Version)
        ensures
            r == self@.version,
    {
        self.version
    }

    /// The packet's method, if one is set.
    pub fn method(&self) -> (r: Option<Method>)
        ensures
            r == self@.method,
    {
        self.method
    }

    /// Set the packet's method.
    pub fn set_method(&mut self, method: Method)
        requires
            old(self).inv(),
        ensures
            final(self).inv(),
            final(self)@ == (PacketV { method: Some(method), ..old(self)@ }),
    {
        self.method = Some(method);
        self.dirty = true;
    }

    /// The packet's raw payload bytes.
    pub fn data(&self) -> (r: &Vec<u8>)
        ensures
            r@ == self@.data,
    {
        &self.data
    }

    /// Set the packet's payload and re-derive the Length header from its
    /// size.
    pub fn set_data(&mut self, data: Vec<u8>)
        requires
            old(self).inv(),
        ensures
            final(self).inv(),
            final(self)@.data == data@,
            final(self)@.headers == old(self)@.headers.update(
                1,
                Some(HeaderV::Length(data@.len() as u64)),
            ),
            final(self)@.method == old(self)@.method,
            final(self)@.version == old(self)@.version,
    {
        let n = data.len() as u64;
        self.data = data;
        self.dirty = true;
        self.set_header(Header::Length(n));
    }

    /// The stored header of the named kind, if the name is defined and the
    /// kind is present.
    pub fn get_header(&self, header: &str) -> (r: Option<Header>)
        requires
            self.inv(),
        ensures
            match spec_header_from_name(lower_of(header@)) {
                Some(hv) => match r {
                    Some(h) => self@.headers[hv.spec_slot()] == Some(h@),
                    None => self@.headers[hv.spec_slot()] is None,
                },
                None => r is None,
            },
    {
        let h = match Header::from_str(header) {
            Some(h) => h,
            None => {
                return None;
            },
        };
        let at = (h.to_u8() - 32) as usize;
        match &self.headers[at] {
            Some(stored) => Some(stored.clone()),
            None => None,
        }
    }

    /// All present headers, in slot order.
    pub fn get_headers(&self) -> (r: Vec<Header>)
        requires
            self.inv(),
        ensures
            r@.map_values(|h: Header| h@) == spec_present(self@.headers, 8),
    {
        let mut out: Vec<Header> = Vec::new();
        let mut i: usize = 0;
        while i < 8
            invariant
                self.inv(),
                i <= 8,
                out@.map_values(|h: Header| h@) == spec_present(self@.headers, i as int),
            decreases 8 - i,
        {
            match &self.headers[i] {
                Some(h) => {
                    out.push(h.clone());
                },
                None => {},
            }
            proof {
                assert(out@.map_values(|h: Header| h@) =~= spec_present(self@.headers, i + 1));
            }
            i += 1;
        }
        out
    }

    /// Store a header in its kind's slot, overwriting any header of the same
    /// kind (last write wins).
    pub fn set_header(&mut self, header: Header)
        requires
            old(self).inv(),
        ensures
            final(self).inv(),
            final(self)@.headers == old(self)@.headers.update(
                header@.spec_slot(),
                Some(header@),
            ),
            final(self)@.method == old(self)@.method,
            final(self)@.version == old(self)@.version,
            final(self)@.data == old(self)@.data,
    {
        let at = (header.to_u8() - 32) as usize;
        let slot = vstd::std_specs::vec::vec_index_mut(&mut self.headers, at);
        *slot = Some(header);
        self.dirty = true;
        proof {
            assert(self@.headers =~= old(self)@.headers.update(
                header@.spec_slot(),
                Some(header@),
            ));
        }
    }

    /// Store each of the headers in turn; a later one of a kind overwrites
    /// an earlier one.
    pub fn set_headers(&mut self, headers: &Vec<Header>)
        requires
            old(self).inv(),
        ensures
            final(self).inv(),
            final(self)@.headers == spec_apply(
                old(self)@.headers,
                headers@.map_values(|h: Header| h@),
            ),
            final(self)@.method == old(self)@.method,
            final(self)@.version == old(self)@.version,
            final(self)@.data == old(self)@.data,
    {
        let ghost items = headers@.map_values(|h: Header| h@);
        proof {
            assert(items.skip(0) =~= items);
        }
        let mut i: usize = 0;
        while i < headers.len()
            invariant
                self.inv(),
                i <= headers@.len(),
                items == headers@.map_values(|h: Header| h@),
                spec_apply(old(self)@.headers, items) == spec_apply(
                    self@.headers,
                    items.skip(i as int),
                ),
                self@.method == old(self)@.method,
                self@.version == old(self)@.version,
                self@.data == old(self)@.data,
            decreases headers@.len() - i,
        {
            let h = headers[i].clone();
            proof {
                assert(items.skip(i as int)[0] == h@);
            }
            self.set_header(h);
            proof {
                assert(items.skip(i as int).skip(1) =~= items.skip(i + 1));
            }
            i += 1;
        }
        proof {
            assert(items.skip(i as int) =~= Seq::<HeaderV>::empty());
            assert(spec_apply(self@.headers, items.skip(i as int)) == self@.headers);
        }
    }

    /// Remove and return the stored header of the named kind, if the name is
    /// defined and the kind is present.
    pub fn pop_header(&mut self, header: &str) -> (r: Option<Header>)
        requires
            old(self).inv(),
        ensures
            final(self).inv(),
            final(self)@.method == old(self)@.method,
            final(self)@.version == old(self)@.version,
            final(self)@.data == old(self)@.data,
            match spec_header_from_name(lower_of(header@)) {
                Some(hv) => {
                    &&& final(self)@.headers == old(self)@.headers.update(hv.spec_slot(), None)
                    &&& match r {
                        Some(h) => old(self)@.headers[hv.spec_slot()] == Some(h@),
                        None => old(self)@.headers[hv.spec_slot()] is None,
                    }
                },
                None => r is None && final(self)@.headers == old(self)@.headers,
            },
    {
        let h = match Header::from_str(header) {
            Some(h) => h,
            None => {
                proof {
                    assert(self@.headers =~= old(self)@.headers);
                }
                return None;
            },
        };
        let at = (h.to_u8() - 32) as usize;
        let slot = vstd::std_specs::vec::vec_index_mut(&mut self.headers, at);
        let pop = match slot {
            Some(stored) => Some(stored.clone()),
            None => None,
        };
        *slot = None;
        self.dirty = true;
        proof {
            assert(self@.headers =~= old(self)@.headers.update(h@.spec_slot(), None));
        }
        pop
    }

    /// True when the packet has no method, no headers and no payload.
    pub fn is_empty(&self) -> (r: bool)
        requires
            self.inv(),
        ensures
            r == self@.is_empty(),
    {
        if !(self.data.len() == 0 && self.method.is_none()) {
            return false;
        }
        let mut i: usize = 0;
        while i < 8
            invariant
                self.inv(),
                i <= 8,
                forall|k: int| 0 <= k < i ==> (#[trigger] self@.headers[k]) is None,
            decreases 8 - i,
        {
            match &self.headers[i] {
                Some(_) => {
                    proof {
                        assert(self@.headers[i as int] is Some);
                    }
                    return false;
                },
                None => {
                    proof {
                        assert(self@.headers[i as int] is None);
                    }
                },
            }
            i += 1;
        }
        true
    }

    /// Clear the header slots and the method.
    pub fn clear_headers(&mut self)
        requires
            old(self).inv(),
        ensures
            final(self).inv(),
            final(self)@.headers == spec_empty_slots(),
            final(self)@.method is None,
            final(self)@.version == old(self)@.version,
            final(self)@.data == old(self)@.data,
    {
        let mut i: usize = 0;
        while i < 8
            invariant
                self.inv(),
                i <= 8,
                forall|k: int| 0 <= k < i ==> (#[trigger] self@.headers[k]) is None,
                self@.method == old(self)@.method,
                self@.version == old(self)@.version,
                self@.data == old(self)@.data,
            decreases 8 - i,
        {
            let ghost prev = self@.headers;
            let slot = vstd::std_specs::vec::vec_index_mut(&mut self.headers, i);
            *slot = None;
            self.dirty = true;
            proof {
                assert(self@.headers =~= prev.update(i as int, None));
            }
            i += 1;
        }
        self.method = None;
        self.dirty = true;
        proof {
            assert(self@.headers =~= spec_empty_slots());
        }
    }

    /// Clear the payload. The Length header, if present, is left as it is:
    /// the next build re-derives it.
    pub fn clear_data(&mut self)
        requires
            old(self).inv(),
        ensures
            final(self).inv(),
            final(self)@.data == Seq::<u8>::empty(),
            final(self)@.headers == old(self)@.headers,
            final(self)@.method == old(self)@.method,
            final(self)@.version == old(self)@.version,
    {
        self.data.clear();
        self.dirty = true;
    }

    /// Clear the payload, the header slots and the method.
    pub fn clear(&mut self)
        requires
            old(self).inv(),
        ensures
            final(self).inv(),
            final(self)@.headers == spec_empty_slots(),
            final(self)@.method is None,
            final(self)@.data == Seq::<u8>::empty(),
            final(self)@.version == old(self)@.version,
    {
        self.clear_data();
        self.clear_headers();
    }

    /// Build (serialize) the packet: require a method, re-derive Length from
    /// a non-empty payload, and emit the version byte, the method byte, the
    /// present headers' buffers in slot order, the HeaderEnd byte, and the
    /// raw payload. The buffer is cached: building again without a mutation
    /// in between returns the cached bytes. A build-time failure has no
    /// cursor behind it; its offset field points at the method byte.
    pub fn prepare(&mut self) -> (r: Result<Vec<u8>, ParseError>)
        requires
            old(self).inv(),
        ensures
            final(self).inv(),
            match r {
                Ok(buf) => {
                    &&& old(self)@.method is Some
                    &&& final(self)@ == old(self)@.built()
                    &&& buf@ == final(self)@.frame()
                },
                Err(e) => {
                    &&& old(self)@.method is None
                    &&& *final(self) == *old(self)
                    &&& e.id == ParseErrorId::MissHeader
                    &&& e.description@ == spec_replace_first(
                        spec_description(ParseErrorId::MissHeader),
                        "{1}"@,
                        "method"@,
                    )
                    &&& e.pos == 2
                },
            },
    {
        let method = match self.method {
            Some(m) => m,
            None => {
                return Err(error_with(ParseErrorId::MissHeader, 2, "method"));
            },
        };
        if !self.dirty {
            return Ok(slice_to_vec(self.cache.as_slice()));
        }
        if self.data.len() > 0 {
            let n = self.data.len() as u64;
            self.set_header(Header::Length(n));
        }
        let mut buf: Vec<u8> = Vec::new();
        buf.push(self.version.to_u8());
        buf.push(method.to_u8());
        proof {
            assert(buf@ =~= seq![self@.version.spec_to_u8(), method.spec_code()]
                + spec_slots_bytes(self@.headers, 0));
        }
        let mut i: usize = 0;
        while i < 8
            invariant
                self.inv(),
                i <= 8,
                buf@ == seq![
                    self@.version.spec_to_u8(),
                    method.spec_code(),
                ] + spec_slots_bytes(self@.headers, i as int),
            decreases 8 - i,
        {
            match &self.headers[i] {
                Some(h) => {
                    let mut hb = h.to_buffer();
                    buf.append(&mut hb);
                },
                None => {},
            }
            proof {
                assert(buf@ =~= seq![
                    self@.version.spec_to_u8(),
                    method.spec_code(),
                ] + spec_slots_bytes(self@.headers, i + 1));
            }
            i += 1;
        }
        buf.push(1);
        if self.data.len() > 0 {
            buf.extend_from_slice(self.data.as_slice());
        }
        self.cache = slice_to_vec(buf.as_slice());
        self.dirty = false;
        proof {
            assert(buf@ =~= self@.frame());
            if self@.data.len() > 0 {
                assert(self@.headers.update(
                    1,
                    Some(HeaderV::Length(self@.data.len() as u64)),
                ) =~= self@.headers);
            }
            assert(self@.built() == self@);
            assert(self@ == old(self)@.built());
        }
        Ok(buf)
    }

    /// Set the packet's version, leaving everything else as it is.
    fn put_version(&mut self, version: Version)
        requires
            old(self).inv(),
        ensures
            final(self).inv(),
            final(self)@ == (PacketV { version, ..old(self)@ }),
    {
        self.version = version;
        self.dirty = true;
    }

    /// Set the packet's payload bytes, leaving the headers as they are.
    fn put_data(&mut self, data: Vec<u8>)
        requires
            old(self).inv(),
        ensures
            final(self).inv(),
            final(self)@ == (PacketV { data: data@, ..old(self)@ }),
    {
        self.data = data;
        self.dirty = true;
    }

    /// The stored Length header's value, if one is present.
    fn stored_length(&self) -> (r: Option<u64>)
        requires
            self.inv(),
        ensures
            match r {
                Some(l) => self@.headers[1] == Some(HeaderV::Length(l)),
                None => !(self@.headers[1] matches Some(HeaderV::Length(_))),
            },
    {
        match &self.headers[1] {
            Some(Header::Length(l)) => Some(*l),
            _ => None,
        }
    }

    /// True when a Compressed(true) header is stored.
    fn stored_compressed(&self) -> (r: bool)
        requires
            self.inv(),
        ensures
            r == spec_compressed(self@.headers),
    {
        match &self.headers[7] {
            Some(Header::Compressed(true)) => true,
            _ => false,
        }
    }

    /// Parse (deserialize) one frame from the parser into this packet,
    /// returning the count of bytes consumed. The parser's cursor is reset
    /// and the packet cleared first, so one parser/packet pair can be reused
    /// across consecutive frames on a persistent connection. Terminal on the
    /// first error: the error's kind is the one the framing state machine
    /// assigns to the bytes, or — on a source that can time out or reset —
    /// TimedOut or ConnectionClosed.
    pub fn parse<S: ByteSource>(&mut self, parser: &mut Parser<S>) -> (r: ParseResult<usize>)
        requires
            old(self).inv(),
            old(parser).wf(),
        ensures
            final(self).inv(),
            final(parser).wf(),
            final(parser).spec_version() == old(parser).spec_version(),
            final(parser).reliable() == old(parser).reliable(),
            match r {
                Ok(n) => spec_parse_frame(old(parser).remaining()) matches FrameParse::Done {
                    p,
                    used,
                } && {
                    &&& final(self)@ == p
                    &&& n == used
                    &&& final(parser).remaining() == old(parser).remaining().skip(used)
                    &&& final(parser).spec_cursor() == used
                },
                Err(e) => (spec_parse_frame(old(parser).remaining())
                    matches FrameParse::Failed { id, args, used } && {
                    &&& e.id == id
                    &&& (id != ParseErrorId::InvDataComp ==> e.description@ == spec_rendered(
                        id,
                        args,
                    ))
                    &&& e.pos == used
                    &&& final(parser).spec_cursor() == used
                }) || (!old(parser).reliable() && (e.id == ParseErrorId::TimedOut || e.id
                    == ParseErrorId::ConnectionClosed) && e.pos == final(parser).spec_cursor()),
            },
    {
        let ghost bytes = parser.remaining();
        parser.reset();
        self.clear();
        let vbyte = match parser.read_byte() {
            Ok(b) => b,
            Err(e) => {
                return Err(e);
            },
        };
        let version = match Version::from_u8(vbyte) {
            Some(v) => v,
            None => {
                let mut e = error_with(ParseErrorId::UkwnHeaderVal, parser.pos(), "version");
                let d = u64_to_dec(vbyte as u64);
                e.set_desc("{2}", d.as_str());
                return Err(e);
            },
        };
        self.put_version(version);
        let mbyte = match parser.read_byte() {
            Ok(b) => b,
            Err(e) => {
                return Err(e);
            },
        };
        let method = match Method::from_u8(mbyte) {
            Some(m) => m,
            None => {
                let mut e = error_with(ParseErrorId::UkwnHeaderVal, parser.pos(), "method");
                let d = u64_to_dec(mbyte as u64);
                e.set_desc("{2}", d.as_str());
                return Err(e);
            },
        };
        self.set_method(method);
        proof {
            assert(bytes.skip(1).skip(1) =~= bytes.skip(2));
            lemma_shift_hdrs_add(spec_parse_headers(bytes.skip(2), spec_empty_slots()), 0, 0);
        }
        loop
            invariant_except_break
                spec_parse_headers(bytes.skip(2), spec_empty_slots()) == spec_shift_hdrs(
                    spec_parse_headers(parser.remaining(), self@.headers),
                    parser.spec_cursor() - 2,
                ),
            invariant
                self.inv(),
                parser.wf(),
                parser.spec_version() == old(parser).spec_version(),
                parser.reliable() == old(parser).reliable(),
                bytes == old(parser).remaining(),
                bytes.len() >= 2,
                Version::spec_from_u8(bytes[0]) == Some(version),
                Method::spec_from_u8(bytes[1]) == Some(method),
                self@.version == version,
                self@.method == Some(method),
                self@.data == Seq::<u8>::empty(),
                2 <= parser.spec_cursor() <= bytes.len(),
                parser.remaining() == bytes.skip(parser.spec_cursor()),
            ensures
                self.inv(),
                parser.wf(),
                parser.spec_version() == old(parser).spec_version(),
                parser.reliable() == old(parser).reliable(),
                self@.version == version,
                self@.method == Some(method),
                self@.data == Seq::<u8>::empty(),
                2 <= parser.spec_cursor() <= bytes.len(),
                parser.remaining() == bytes.skip(parser.spec_cursor()),
                spec_parse_headers(bytes.skip(2), spec_empty_slots())
                    == (HdrsParse::Done { headers: self@.headers, rest: parser.remaining() }),
            decreases parser.remaining().len(),
        {
            let ghost rem_cur = parser.remaining();
            let b = match parser.peek() {
                Some(b) => b,
                None => {
                    return Err(ParseError::new(ParseErrorId::ConnectionClosed, parser.pos()));
                },
            };
            if b < 32 {
                let cb = match parser.read_byte() {
                    Ok(x) => x,
                    Err(e) => {
                        return Err(e);
                    },
                };
                proof {
                    assert(rem_cur.skip(1) =~= bytes.skip(parser.spec_cursor()));
                }
                match Control::from_u8(cb) {
                    Some(Control::HeaderEnd) => {
                        break ;
                    },
                    Some(c) => {
                        return Err(
                            error_with(ParseErrorId::UnxptCtrl, parser.pos(), c.to_str()),
                        );
                    },
                    None => {
                        let tag = crate::text::byte_to_dec3(cb);
                        return Err(
                            error_with(ParseErrorId::UkwnCtrl, parser.pos(), tag.as_str()),
                        );
                    },
                }
            } else {
                let h = match Header::from_buffer(parser) {
                    Ok(h) => h,
                    Err(e) => {
                        return Err(e);
                    },
                };
                proof {
                    lemma_scan_header_used(rem_cur);
                    match spec_scan_header(rem_cur) {
                        HdrScan::Found { h: hv, used } => {
                            assert(rem_cur.skip(used) =~= bytes.skip(
                                parser.spec_cursor(),
                            ));
                            lemma_shift_hdrs_add(
                                spec_parse_headers(
                                    rem_cur.skip(used),
                                    self@.headers.update(hv.spec_slot(), Some(hv)),
                                ),
                                used,
                                parser.spec_cursor() - used - 2,
                            );
                        },
                        _ => {},
                    }
                }
                self.set_header(h);
            }
        }
        let length = self.stored_length();
        let compressed = self.stored_compressed();
        let ghost rest = parser.remaining();
        match length {
            None => Ok(parser.pos()),
            Some(len) => {
                // a Length beyond the cursor's type cannot be satisfied;
                // reading as much as the type allows exhausts the source and
                // the shortfall is detected below
                let want = if len > (usize::MAX as u64) {
                    proof {
                        parser.lemma_wf_bound();
                    }
                    usize::MAX
                } else {
                    len as usize
                };
                let data = match parser.read(want) {
                    Ok(d) => d,
                    Err(e) => {
                        return Err(e);
                    },
                };
                if (data.len() as u64) != len {
                    proof {
                        parser.lemma_wf_bound();
                    }
                    return Err(ParseError::new(ParseErrorId::InvDataLen, parser.pos()));
                }
                proof {
                    assert(rest.skip(len as int) =~= bytes.skip(
                        parser.spec_cursor(),
                    ));
                }
                if compressed {
                    match gunzip_bytes(data.as_slice()) {
                        Ok(d) => {
                            self.put_data(d);
                        },
                        Err(msg) => {
                            return Err(
                                error_with(
                                    ParseErrorId::InvDataComp,
                                    parser.pos(),
                                    msg.as_str(),
                                ),
                            );
                        },
                    }
                } else {
                    self.put_data(data);
                }
                Ok(parser.pos())
            },
        }
    }
}

// ======================= Laws =======================

/// The concatenated buffer encodings of the header slots from `i` up.
pub open spec fn spec_slots_bytes_from(hs: Seq<Option<HeaderV>>, i: int) -> Seq<u8>
    decreases 8 - i,
{
    if !(0 <= i < 8) {
        Seq::empty()
    } else {
        spec_opt_bytes(hs[i]) + spec_slots_bytes_from(hs, i + 1)
    }
}

/// The full header section splits at any slot into the encodings below it
/// and the encodings from it up.
pub proof fn lemma_slots_bytes_split(hs: Seq<Option<HeaderV>>, i: int)
    requires
        0 <= i <= 8,
    ensures
        spec_slots_bytes(hs, 8) == spec_slots_bytes(hs, i) + spec_slots_bytes_from(hs, i),
    decreases 8 - i,
{
    if i == 8 {
        assert(spec_slots_bytes(hs, 8) =~= spec_slots_bytes(hs, 8) + spec_slots_bytes_from(
            hs,
            8,
        ));
    } else {
        lemma_slots_bytes_split(hs, i + 1);
        assert(spec_slots_bytes(hs, i) + spec_slots_bytes_from(hs, i) =~= spec_slots_bytes(
            hs,
            i + 1,
        ) + spec_slots_bytes_from(hs, i + 1));
    }
}

/// The slots with each present header of `hs` from slot `i` up written over
/// `acc`.
pub open spec fn spec_overlay(
    acc: Seq<Option<HeaderV>>,
    hs: Seq<Option<HeaderV>>,
    i: int,
) -> Seq<Option<HeaderV>>
    decreases 8 - i,
{
    if !(0 <= i < 8) {
        acc
    } else {
        match hs[i] {
            Some(h) => spec_overlay(acc.update(i, Some(h)), hs, i + 1),
            None => spec_overlay(acc, hs, i + 1),
        }
    }
}

/// Overlaying takes each slot from `hs` where present, and from `acc`
/// otherwise.
pub proof fn lemma_overlay_pointwise(
    acc: Seq<Option<HeaderV>>,
    hs: Seq<Option<HeaderV>>,
    i: int,
)
    requires
        0 <= i <= 8,
        acc.len() == 8,
        hs.len() == 8,
    ensures
        spec_overlay(acc, hs, i) == Seq::new(
            8,
            |j: int|
                if i <= j < 8 && hs[j] is Some {
                    hs[j]
                } else {
                    acc[j]
                },
        ),
    decreases 8 - i,
{
    if i == 8 {
        assert(spec_overlay(acc, hs, i) =~= Seq::new(
            8,
            |j: int|
                if i <= j < 8 && hs[j] is Some {
                    hs[j]
                } else {
                    acc[j]
                },
        ));
    } else {
        match hs[i] {
            Some(h) => {
                lemma_overlay_pointwise(acc.update(i, Some(h)), hs, i + 1);
            },
            None => {
                lemma_overlay_pointwise(acc, hs, i + 1);
            },
        }
        assert(spec_overlay(acc, hs, i) =~= Seq::new(
            8,
            |j: int|
                if i <= j < 8 && hs[j] is Some {
                    hs[j]
                } else {
                    acc[j]
                },
        ));
    }
}

/// Parsing a header section built from well-formed, scannable slots, with a
/// HeaderEnd byte after it, yields exactly those slots written over the
/// starting ones and leaves the bytes after the HeaderEnd byte.
proof fn lemma_parse_header_section(
    hs: Seq<Option<HeaderV>>,
    acc: Seq<Option<HeaderV>>,
    i: int,
    tail: Seq<u8>,
)
    requires
        0 <= i <= 8,
        hs.len() == 8,
        forall|j: int|
            0 <= j < 8 ==> ((#[trigger] hs[j]) matches Some(h) ==> h.spec_slot() == j
                && h.scannable()),
        tail.len() >= 1,
        tail[0] == 1,
    ensures
        spec_parse_headers(spec_slots_bytes_from(hs, i) + tail, acc) == (HdrsParse::Done {
            headers: spec_overlay(acc, hs, i),
            rest: tail.skip(1),
        }),
    decreases 8 - i,
{
    if i >= 8 {
        assert(spec_slots_bytes_from(hs, i) + tail =~= tail);
    } else {
        match hs[i] {
            None => {
                assert(spec_slots_bytes_from(hs, i) + tail =~= spec_slots_bytes_from(hs, i + 1)
                    + tail);
                lemma_parse_header_section(hs, acc, i + 1, tail);
            },
            Some(h) => {
                let hb = h.spec_bytes();
                let rest2 = spec_slots_bytes_from(hs, i + 1) + tail;
                let bytes = spec_slots_bytes_from(hs, i) + tail;
                crate::wire::lemma_header_bytes_shape(h);
                crate::wire::lemma_scan_encoded_header(h, rest2);
                assert(bytes =~= hb + rest2);
                assert(bytes[0] == hb[0]);
                assert(32 <= h.spec_code() <= 39);
                assert(bytes.skip(hb.len() as int) =~= rest2);
                lemma_parse_header_section(hs, acc.update(i, Some(h)), i + 1, tail);
            },
        }
    }
}

impl PacketV {
    /// The packets whose frame parses back to the packet itself: every
    /// present header leaves its exact trace on the wire (boolean headers
    /// true, strings free of the StringEnd scalar value), the payload fits a
    /// Length header, a Length header without a payload carries zero, and no
    /// Compressed header accompanies a payload or a Length header (the build
    /// operation does not compress, so a decoder must not be told to
    /// decompress).
    pub open spec fn round_trippable(self) -> bool {
        &&& forall|j: int|
            0 <= j < 8 ==> ((#[trigger] self.headers[j]) matches Some(h) ==> h.scannable())
        &&& self.data.len() <= u64::MAX
        &&& (self.data.len() == 0 ==> (self.headers[1] is None || self.headers[1] == Some(
            HeaderV::Length(0),
        )))
        &&& (self.headers[7] is Some ==> self.data.len() == 0 && self.headers[1] is None)
    }
}

/// Round trip: for a packet with a method, headers that leave their exact
/// trace on the wire, and a payload consistent with its headers, parsing the
/// frame that the build operation produces reconstructs exactly the built
/// packet (headers compared by kind and value, payload by bytes) and
/// consumes the whole frame.
pub proof fn lemma_build_parse_round_trip(p: PacketV)
    requires
        p.wf(),
        p.method is Some,
        p.round_trippable(),
    ensures
        spec_parse_frame(p.built().frame()) == (FrameParse::Done {
            p: p.built(),
            used: p.built().frame().len() as int,
        }),
{
    let q = p.built();
    let bytes = q.frame();
    let hb = spec_slots_bytes(q.headers, 8);
    let m = match q.method {
        Some(m) => m,
        None => Method::Connect,
    };
    assert(q.wf());
    assert(forall|j: int|
        0 <= j < 8 ==> ((#[trigger] q.headers[j]) matches Some(h) ==> h.scannable()));
    assert(bytes[0] == q.version.spec_to_u8());
    assert(bytes[1] == m.spec_code());
    crate::wire::lemma_method_codec_bijective(m, 0);
    crate::lemma_version_codec_bijective(q.version, 0);
    let tail = seq![1u8] + q.data;
    lemma_slots_bytes_split(q.headers, 0);
    assert(bytes.skip(2) =~= spec_slots_bytes_from(q.headers, 0) + tail);
    lemma_parse_header_section(q.headers, spec_empty_slots(), 0, tail);
    lemma_overlay_pointwise(spec_empty_slots(), q.headers, 0);
    assert(spec_overlay(spec_empty_slots(), q.headers, 0) =~= q.headers);
    assert(tail.skip(1) =~= q.data);
    assert(spec_parse_headers(bytes.skip(2), spec_empty_slots()) == (HdrsParse::Done {
        headers: q.headers,
        rest: q.data,
    }));
    if p.data.len() > 0 {
        let len = p.data.len() as u64;
        assert(q.headers[1] == Some(HeaderV::Length(len)));
        assert(p.headers[7] is None);
        assert(q.headers[7] is None);
        assert(!spec_compressed(q.headers));
        assert(len as int == q.data.len());
        assert(q.data.take(len as int) =~= q.data);
        match spec_parse_frame(bytes) {
            FrameParse::Done { p: r, used } => {
                assert(r.version == q.version);
                assert(r.method == q.method);
                assert(r.headers == q.headers);
                assert(r.data == q.data);
                assert(r == q);
                assert(used == bytes.len());
            },
            _ => {
                assert(false);
            },
        }
    } else {
        assert(q.data =~= Seq::<u8>::empty());
        if q.headers[1] is Some {
            assert(q.headers[1] == Some(HeaderV::Length(0)));
            assert(q.headers[7] is None);
            assert(!spec_compressed(q.headers));
            assert(q.data.take(0) =~= q.data);
        }
        match spec_parse_frame(bytes) {
            FrameParse::Done { p: r, used } => {
                assert(r.version == q.version);
                assert(r.method == q.method);
                assert(r.headers == q.headers);
                assert(r.data == q.data);
                assert(r == q);
                assert(used == bytes.len());
            },
            _ => {
                assert(false);
            },
        }
    }
}

/// The encodings of two slot sequences agree when each slot's encoding
/// agrees.
proof fn lemma_slots_bytes_pointwise(
    hs1: Seq<Option<HeaderV>>,
    hs2: Seq<Option<HeaderV>>,
    i: int,
)
    requires
        forall|j: int| 0 <= j < i ==> spec_opt_bytes(#[trigger] hs1[j]) == spec_opt_bytes(hs2[j]),
    ensures
        spec_slots_bytes(hs1, i) == spec_slots_bytes(hs2, i),
    decreases i,
{
    if i > 0 {
        lemma_slots_bytes_pointwise(hs1, hs2, i - 1);
    }
}

/// Boolean omission, build side: a false-valued boolean header leaves no
/// bytes on the wire — the packet builds to exactly the frame of the packet
/// without that header.
pub proof fn lemma_false_bool_header_omitted(p: PacketV, j: int)
    requires
        p.wf(),
        0 <= j < 8,
        p.headers[j] == Some(HeaderV::Update(false)) || p.headers[j] == Some(
            HeaderV::Reconnect(false),
        ) || p.headers[j] == Some(HeaderV::Compressed(false)),
    ensures
        (PacketV { headers: p.headers.update(j, None), ..p }).frame() == p.frame(),
        (PacketV { headers: p.headers.update(j, None), ..p }).built().frame()
            == p.built().frame(),
{
    let dropped = PacketV { headers: p.headers.update(j, None), ..p };
    lemma_slots_bytes_pointwise(dropped.headers, p.headers, 8);
    assert(j != 1);
    lemma_slots_bytes_pointwise(dropped.built().headers, p.built().headers, 8);
}

/// The boolean headers of parsed slots are only ever present-true or absent.
pub open spec fn spec_bools_present_true(hs: Seq<Option<HeaderV>>) -> bool {
    &&& (hs[4] is None || hs[4] == Some(HeaderV::Update(true)))
    &&& (hs[6] is None || hs[6] == Some(HeaderV::Reconnect(true)))
    &&& (hs[7] is None || hs[7] == Some(HeaderV::Compressed(true)))
}

/// The header-section loop keeps boolean slots present-true or absent.
proof fn lemma_parse_headers_bools(bytes: Seq<u8>, acc: Seq<Option<HeaderV>>)
    requires
        acc.len() == 8,
        spec_bools_present_true(acc),
    ensures
        spec_parse_headers(bytes, acc) matches HdrsParse::Done { headers, rest }
            ==> spec_bools_present_true(headers) && headers.len() == 8,
    decreases bytes.len(),
{
    if bytes.len() > 0 {
        let b = bytes[0];
        if b >= 32 {
            crate::wire::lemma_scan_header_used(bytes);
            match spec_scan_header(bytes) {
                HdrScan::Found { h, used } => {
                    lemma_parse_headers_bools(bytes.skip(used), acc.update(h.spec_slot(), Some(h)));
                },
                _ => {},
            }
        }
    }
}

/// Boolean omission, parse side: a parsed packet never carries a
/// false-valued boolean header — absence, not false, is the decoded state.
pub proof fn lemma_parse_no_false_bools(bytes: Seq<u8>)
    ensures
        spec_parse_frame(bytes) matches FrameParse::Done { p, used }
            ==> spec_bools_present_true(p.headers),
{
    if bytes.len() >= 2 && Version::spec_from_u8(bytes[0]) is Some && Method::spec_from_u8(
        bytes[1],
    ) is Some {
        lemma_parse_headers_bools(bytes.skip(2), spec_empty_slots());
    }
}

} // verus!
