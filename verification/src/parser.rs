//! The streaming parser: an abstract byte source capability, an in-memory
//! source, and the primitive reads (exact-size, single byte, delimited
//! string, fixed-width little-endian integers, non-consuming peek) with a
//! diagnostic cursor and reset.
use vstd::prelude::*;
use vstd::bytes::*;
use vstd::slice::*;
use vstd::utf8::valid_utf8;
use vstd::utf8::decode_utf8;
use crate::Version;
use crate::errors::ParseError;
use crate::errors::ParseErrorId;
use crate::errors::ParseResult;
use crate::errors::error_with;
use crate::errors::spec_description;
use crate::text::spec_replace_first;
use crate::text::spec_dec;
use crate::text::string_from_utf8;
use crate::text::u64_to_dec;

verus! {

// ======================= ByteSource =======================

/// One attempt of a byte source to deliver data.
pub enum ReadOutcome {
    /// At least one byte arrived.
    Data(Vec<u8>),
    /// The source is exhausted: the peer closed the connection, or the end
    /// of a buffer or file was reached. Nothing will arrive any more.
    Eof,
    /// No data is available now and waiting longer is pointless for the
    /// current packet (a read timeout elapsed on a non-blocking source).
    WouldBlock,
    /// The connection was torn down by the peer.
    Reset,
}

/// An ordered, reliable byte stream that a Parser drains: an abstraction of
/// a TCP connection, a file, or an in-memory buffer. `remaining()` models
/// the bytes the source will deliver before it is exhausted. Adapters around
/// real sockets retry transient conditions (an interrupted system call)
/// internally, so one attempt here always ends in one of the four outcomes.
pub trait ByteSource: Sized {
    /// The bytes this source will deliver, in order.
    spec fn remaining(&self) -> Seq<u8>;

    /// True for sources, such as in-memory buffers, whose every read attempt
    /// either delivers bytes or reports exhaustion.
    spec fn reliable(&self) -> bool;

    /// Attempt to deliver between 1 and `max` bytes.
    fn read_chunk(&mut self, max: usize) -> (r: ReadOutcome)
        requires
            max >= 1,
        ensures
            final(self).reliable() == old(self).reliable(),
            match r {
                ReadOutcome::Data(v) => {
                    &&& 1 <= v@.len() <= max
                    &&& v@.len() <= old(self).remaining().len()
                    &&& v@ == old(self).remaining().take(v@.len() as int)
                    &&& final(self).remaining() == old(self).remaining().skip(v@.len() as int)
                },
                ReadOutcome::Eof => {
                    &&& final(self).remaining() == old(self).remaining()
                    &&& final(self).remaining().len() == 0
                },
                _ => {
                    &&& final(self).remaining() == old(self).remaining()
                    &&& !old(self).reliable()
                },
            },
    ;
}

// ======================= BufferSource =======================

/// An in-memory byte source: a buffer and a position; reading delivers the
/// bytes after the position and never blocks.
pub struct BufferSource {
    data: Vec<u8>,
    at: usize,
}

impl BufferSource {
    /// A source that will deliver the given bytes.
    pub fn from_bytes(data: &[u8]) -> (r: BufferSource)
        ensures
            r.remaining() == data@,
            r.reliable(),
    {
        BufferSource { data: slice_to_vec(data), at: 0 }
    }

    /// A source that will deliver the given bytes.
    pub fn from_vec(data: Vec<u8>) -> (r: BufferSource)
        ensures
            r.remaining() == data@,
            r.reliable(),
    {
        BufferSource { data, at: 0 }
    }
}

impl ByteSource for BufferSource {
    closed spec fn remaining(&self) -> Seq<u8> {
        if self.at <= self.data@.len() {
            self.data@.skip(self.at as int)
        } else {
            Seq::empty()
        }
    }

    closed spec fn reliable(&self) -> bool {
        true
    }

    fn read_chunk(&mut self, max: usize) -> (r: ReadOutcome) {
        if self.at >= self.data.len() {
            return ReadOutcome::Eof;
        }
        let avail = self.data.len() - self.at;
        let n = if max < avail {
            max
        } else {
            avail
        };
        let mut v: Vec<u8> = Vec::new();
        let mut k: usize = 0;
        while k < n
            invariant
                n <= avail,
                avail == self.data@.len() - self.at,
                self.at + n <= usize::MAX,
                self.at + n <= self.data@.len(),
                k <= n,
                v@ == self.data@.subrange(self.at as int, self.at + k),
            decreases n - k,
        {
            let b = *slice_index_get(self.data.as_slice(), self.at + k);
            v.push(b);
            proof {
                assert(v@ =~= self.data@.subrange(self.at as int, self.at + k + 1));
            }
            k += 1;
        }
        proof {
            assert(v@ =~= self.remaining().take(n as int));
            assert(self.data@.skip(self.at + n) =~= self.remaining().skip(n as int));
        }
        self.at = self.at + n;
        ReadOutcome::Data(v)
    }
}

// ======================= Delimited strings =======================

/// The first position of byte `b` in `bytes` at or after `from`.
pub open spec fn spec_find_byte(bytes: Seq<u8>, b: u8, from: int) -> Option<int>
    decreases bytes.len() - from,
{
    if from < 0 || from >= bytes.len() {
        None
    } else if bytes[from] == b {
        Some(from)
    } else {
        spec_find_byte(bytes, b, from + 1)
    }
}

/// A found position lies between `from` and the end of `bytes`, holds `b`,
/// and no earlier position at or after `from` holds it.
pub proof fn lemma_find_byte_bounds(bytes: Seq<u8>, b: u8, from: int)
    ensures
        spec_find_byte(bytes, b, from) matches Some(i) ==> from <= i < bytes.len() && bytes[i] == b
            && forall|k: int| from <= k < i ==> bytes[k] != b,
    decreases bytes.len() - from,
{
    if !(from < 0 || from >= bytes.len()) && bytes[from] != b {
        lemma_find_byte_bounds(bytes, b, from + 1);
    }
}

/// A position that holds `b`, with no earlier position at or after `from`
/// holding it, is the one the search finds.
pub proof fn lemma_find_byte_at(bytes: Seq<u8>, b: u8, from: int, t: int)
    requires
        0 <= from <= t < bytes.len(),
        bytes[t] == b,
        forall|k: int| from <= k < t ==> bytes[k] != b,
    ensures
        spec_find_byte(bytes, b, from) == Some(t),
    decreases t - from,
{
    if from < t {
        lemma_find_byte_at(bytes, b, from + 1, t);
    }
}

/// What scanning a delimited string from the head of a byte sequence gives.
pub ghost enum StrScan {
    /// A well-formed string: its characters and the bytes consumed,
    /// delimiters included.
    Found { chars: Seq<char>, used: int },
    /// The scan failed with this error kind; `arg` fills the description's
    /// placeholder and `used` counts the bytes consumed when the failure was
    /// detected.
    Failed { id: ParseErrorId, arg: Seq<char>, used: int },
}

/// Scanning a delimited string from the head of a byte sequence: the first
/// byte must be StringStart (2); the bytes up to the first StringEnd (3) are
/// the string's UTF-8 encoding. A missing delimiter before the end of the
/// sequence fails with MissCtrl, bytes that are not valid UTF-8 with InvStr.
pub open spec fn spec_scan_string(bytes: Seq<u8>) -> StrScan {
    if bytes.len() == 0 {
        StrScan::Failed { id: ParseErrorId::MissCtrl, arg: "string_start"@, used: 0 }
    } else if bytes[0] != 2 {
        StrScan::Failed { id: ParseErrorId::MissCtrl, arg: "string_start"@, used: 1 }
    } else {
        match spec_find_byte(bytes, 3, 1) {
            None => StrScan::Failed {
                id: ParseErrorId::MissCtrl,
                arg: if bytes.len() == 1 {
                    "string_start"@
                } else {
                    "string_end"@
                },
                used: bytes.len() as int,
            },
            Some(j) => {
                let body = bytes.subrange(1, j);
                if valid_utf8(body) {
                    StrScan::Found { chars: decode_utf8(body), used: j + 1 }
                } else {
                    StrScan::Failed { id: ParseErrorId::InvStr, arg: ""@, used: j + 1 }
                }
            },
        }
    }
}

/// A string scan consumed at least its two delimiters and at most the whole
/// sequence; a failed scan consumed at most the whole sequence.
pub proof fn lemma_scan_string_used(bytes: Seq<u8>)
    ensures
        spec_scan_string(bytes) matches StrScan::Found { chars, used } ==> 2 <= used
            <= bytes.len(),
        spec_scan_string(bytes) matches StrScan::Failed { id, arg, used } ==> 0 <= used
            <= bytes.len(),
{
    if bytes.len() > 0 && bytes[0] == 2 {
        lemma_find_byte_bounds(bytes, 3, 1);
    }
}

// ======================= Parser =======================

/// A streaming parser over a byte source, offering primitive reads with a
/// monotonically increasing cursor (bytes consumed so far, for diagnostics)
/// and a one-byte lookahead that serves `peek`.
pub struct Parser<T: ByteSource> {
    version: Version,
    cursor: usize,
    peeked: Option<u8>,
    src: T,
}

impl<T: ByteSource> Parser<T> {
    /// The bytes still to be consumed, a peeked byte first.
    pub closed spec fn remaining(&self) -> Seq<u8> {
        match self.peeked {
            Some(b) => seq![b] + self.src.remaining(),
            None => self.src.remaining(),
        }
    }

    /// True when the underlying source never times out or resets.
    pub closed spec fn reliable(&self) -> bool {
        self.src.reliable()
    }

    /// The protocol version the parser decodes for.
    pub closed spec fn spec_version(&self) -> Version {
        self.version
    }

    /// The cursor: bytes consumed since creation or the last reset.
    pub closed spec fn spec_cursor(&self) -> int {
        self.cursor as int
    }

    /// Well-formed: the cursor plus what can still be consumed fits the
    /// cursor's type, so consuming never overflows the cursor.
    pub closed spec fn wf(&self) -> bool {
        self.cursor + self.remaining().len() <= usize::MAX
    }

    /// A well-formed parser's cursor and remaining bytes together fit the
    /// cursor's type.
    pub proof fn lemma_wf_bound(&self)
        requires
            self.wf(),
        ensures
            0 <= self.spec_cursor(),
            self.spec_cursor() + self.remaining().len() <= usize::MAX,
    {
    }

    /// A parser over the given source, with the cursor at zero.
    pub fn new(src: T, version: Version) -> (r: Parser<T>)
        requires
            src.remaining().len() <= usize::MAX,
        ensures
            r.wf(),
            r.remaining() == src.remaining(),
            r.reliable() == src.reliable(),
            r.spec_version() == version,
            r.spec_cursor() == 0,
    {
        Parser { version, cursor: 0, peeked: None, src }
    }

    /// Read exactly `size` bytes; fewer come back only when the source is
    /// exhausted first (zero bytes at an attempt means the peer closed the
    /// connection). A timeout surfaces as TimedOut — the packet is not
    /// ready, abandon it and retry later — and a torn-down connection as
    /// ConnectionClosed.
    pub fn read(&mut self, size: usize) -> (r: ParseResult<Vec<u8>>)
        requires
            old(self).wf(),
        ensures
            final(self).wf(),
            final(self).spec_version() == old(self).spec_version(),
            final(self).reliable() == old(self).reliable(),
            match r {
                Ok(v) => {
                    &&& v@.len() <= size
                    &&& v@.len() <= old(self).remaining().len()
                    &&& v@ == old(self).remaining().take(v@.len() as int)
                    &&& final(self).remaining() == old(self).remaining().skip(v@.len() as int)
                    &&& final(self).spec_cursor() == old(self).spec_cursor() + v@.len()
                    &&& (v@.len() == size || final(self).remaining().len() == 0)
                },
                Err(e) => {
                    &&& !old(self).reliable()
                    &&& (e.id == ParseErrorId::TimedOut || e.id == ParseErrorId::ConnectionClosed)
                    &&& e.pos == final(self).spec_cursor()
                    &&& e.description@ == spec_description(e.id)
                },
            },
    {
        let ghost rem0 = self.remaining();
        let mut out: Vec<u8> = Vec::new();
        if size == 0 {
            proof {
                assert(out@ =~= rem0.take(0));
                assert(self.remaining() =~= rem0.skip(0));
            }
            return Ok(out);
        }
        if let Some(b) = self.peeked {
            out.push(b);
            self.peeked = None;
            self.cursor = self.cursor + 1;
            proof {
                assert(out@ =~= rem0.take(1));
                assert(self.remaining() =~= rem0.skip(1));
            }
        }
        while out.len() < size
            invariant
                out@.len() <= size,
                out@.len() <= rem0.len(),
                out@ == rem0.take(out@.len() as int),
                self.remaining() == rem0.skip(out@.len() as int),
                self.cursor == old(self).cursor + out@.len(),
                self.peeked is None,
                self.wf(),
                self.version == old(self).version,
                self.reliable() == old(self).reliable(),
                rem0 == old(self).remaining(),
            ensures
                out@.len() <= size,
                out@.len() <= rem0.len(),
                out@ == rem0.take(out@.len() as int),
                self.remaining() == rem0.skip(out@.len() as int),
                self.cursor == old(self).cursor + out@.len(),
                self.wf(),
                self.version == old(self).version,
                self.reliable() == old(self).reliable(),
                out@.len() == size || self.remaining().len() == 0,
            decreases size - out.len(),
        {
            let want = size - out.len();
            // the peeked slot is empty here, so the source's remaining bytes
            // are the parser's
            proof {
                assert(self.src.remaining() == self.remaining());
            }
            match self.src.read_chunk(want) {
                ReadOutcome::Data(mut v) => {
                    let ghost k = out@.len() as int;
                    let ghost n = v@.len() as int;
                    self.cursor = self.cursor + v.len();
                    out.append(&mut v);
                    proof {
                        assert(out@ =~= rem0.take(k + n));
                        assert(self.remaining() =~= rem0.skip(k + n));
                    }
                },
                ReadOutcome::Eof => {
                    break ;
                },
                ReadOutcome::WouldBlock => {
                    return Err(ParseError::new(ParseErrorId::TimedOut, self.cursor));
                },
                ReadOutcome::Reset => {
                    return Err(ParseError::new(ParseErrorId::ConnectionClosed, self.cursor));
                },
            }
        }
        Ok(out)
    }

    /// The next byte without consuming it, or none when the source is
    /// exhausted (or, on an unreliable source, when nothing is available).
    pub fn peek(&mut self) -> (r: Option<u8>)
        requires
            old(self).wf(),
        ensures
            final(self).wf(),
            final(self).remaining() == old(self).remaining(),
            final(self).spec_cursor() == old(self).spec_cursor(),
            final(self).spec_version() == old(self).spec_version(),
            final(self).reliable() == old(self).reliable(),
            match r {
                Some(b) => old(self).remaining().len() > 0 && b == old(self).remaining()[0],
                None => !old(self).reliable() || old(self).remaining().len() == 0,
            },
    {
        if let Some(b) = self.peeked {
            return Some(b);
        }
        match self.src.read_chunk(1) {
            ReadOutcome::Data(v) => {
                let b = v[0];
                self.peeked = Some(b);
                proof {
                    assert(self.remaining() =~= old(self).remaining());
                }
                Some(b)
            },
            _ => None,
        }
    }

    /// Read exactly one byte; exhaustion of the source means the connection
    /// was closed.
    pub fn read_byte(&mut self) -> (r: ParseResult<u8>)
        requires
            old(self).wf(),
        ensures
            final(self).wf(),
            final(self).spec_version() == old(self).spec_version(),
            final(self).reliable() == old(self).reliable(),
            match r {
                Ok(b) => {
                    &&& old(self).remaining().len() > 0
                    &&& b == old(self).remaining()[0]
                    &&& final(self).remaining() == old(self).remaining().skip(1)
                    &&& final(self).spec_cursor() == old(self).spec_cursor() + 1
                },
                Err(e) => {
                    &&& (e.id == ParseErrorId::ConnectionClosed || e.id == ParseErrorId::TimedOut)
                    &&& e.pos == final(self).spec_cursor()
                    &&& e.description@ == spec_description(e.id)
                    &&& (old(self).reliable() ==> e.id == ParseErrorId::ConnectionClosed
                        && old(self).remaining().len() == 0
                        && final(self).remaining() == old(self).remaining()
                        && final(self).spec_cursor() == old(self).spec_cursor())
                },
            },
    {
        let buf = match self.read(1) {
            Ok(b) => b,
            Err(e) => {
                return Err(e);
            },
        };
        if buf.len() == 0 {
            return Err(ParseError::new(ParseErrorId::ConnectionClosed, self.cursor));
        }
        Ok(buf[0])
    }

    /// Read a delimited string: a StringStart byte, the string's UTF-8
    /// bytes, then a StringEnd byte. A missing delimiter before the source
    /// is exhausted raises MissCtrl naming the expected delimiter; bytes
    /// that are not valid UTF-8 raise InvStr.
    pub fn read_string(&mut self) -> (r: ParseResult<String>)
        requires
            old(self).wf(),
        ensures
            final(self).wf(),
            final(self).spec_version() == old(self).spec_version(),
            final(self).reliable() == old(self).reliable(),
            match r {
                Ok(s) => spec_scan_string(old(self).remaining()) matches StrScan::Found {
                    chars,
                    used,
                } && {
                    &&& s@ == chars
                    &&& final(self).remaining() == old(self).remaining().skip(used)
                    &&& final(self).spec_cursor() == old(self).spec_cursor() + used
                },
                Err(e) => (spec_scan_string(old(self).remaining()) matches StrScan::Failed {
                    id,
                    arg,
                    used,
                } && {
                    &&& e.id == id
                    &&& e.description@ == spec_replace_first(spec_description(id), "{1}"@, arg)
                    &&& e.pos == old(self).spec_cursor() + used
                    &&& final(self).spec_cursor() == old(self).spec_cursor() + used
                }) || (!old(self).reliable() && (e.id == ParseErrorId::TimedOut || e.id
                    == ParseErrorId::ConnectionClosed) && e.pos == final(self).spec_cursor()),
            },
    {
        let ghost rem0 = self.remaining();
        let first = match self.read(1) {
            Ok(v) => v,
            Err(e) => {
                return Err(e);
            },
        };
        if first.len() == 0 {
            // end of source before the opening delimiter
            return Err(error_with(ParseErrorId::MissCtrl, self.cursor, "string_start"));
        }
        if first[0] != 2 {
            return Err(error_with(ParseErrorId::MissCtrl, self.cursor, "string_start"));
        }
        let mut s: Vec<u8> = Vec::new();
        loop
            invariant_except_break
                self.remaining() == rem0.skip(1 + s@.len() as int),
                self.spec_cursor() == old(self).spec_cursor() + 1 + s@.len(),
            invariant
                self.wf(),
                self.spec_version() == old(self).spec_version(),
                self.reliable() == old(self).reliable(),
                rem0 == old(self).remaining(),
                rem0.len() >= 1,
                rem0[0] == 2,
                1 + s@.len() <= rem0.len(),
                s@ == rem0.subrange(1, 1 + s@.len() as int),
                spec_find_byte(rem0, 3, 1) == spec_find_byte(rem0, 3, 1 + s@.len() as int),
            ensures
                self.wf(),
                self.spec_version() == old(self).spec_version(),
                self.reliable() == old(self).reliable(),
                rem0 == old(self).remaining(),
                rem0.len() >= 1,
                rem0[0] == 2,
                2 + s@.len() <= rem0.len(),
                s@ == rem0.subrange(1, 1 + s@.len() as int),
                spec_find_byte(rem0, 3, 1) == Some(1 + s@.len() as int),
                self.remaining() == rem0.skip(2 + s@.len() as int),
                self.spec_cursor() == old(self).spec_cursor() + 2 + s@.len(),
            decreases self.remaining().len(),
        {
            let b = match self.read(1) {
                Ok(v) => v,
                Err(e) => {
                    return Err(e);
                },
            };
            if b.len() == 0 {
                // end of source before the closing delimiter
                let mut e = ParseError::new(ParseErrorId::MissCtrl, self.cursor);
                if s.len() == 0 {
                    e.set_desc("{1}", "string_start");
                } else {
                    e.set_desc("{1}", "string_end");
                }
                return Err(e);
            }
            if b[0] == 3 {
                break ;
            }
            let ghost slen = s@.len() as int;
            s.push(b[0]);
            proof {
                assert(s@ =~= rem0.subrange(1, 1 + slen + 1));
                assert(self.remaining() =~= rem0.skip(1 + slen + 1));
            }
        }
        let ghost body = s@;
        match string_from_utf8(s) {
            Some(st) => Ok(st),
            None => {
                let mut e = ParseError::new(ParseErrorId::InvStr, self.cursor);
                e.set_desc("{1}", "");
                Err(e)
            },
        }
    }

    /// Read four bytes and interpret them as a little-endian u32; fewer
    /// bytes before exhaustion raise InvNum with the expected and actual
    /// counts.
    pub fn read_u32(&mut self) -> (r: ParseResult<u32>)
        requires
            old(self).wf(),
        ensures
            final(self).wf(),
            final(self).spec_version() == old(self).spec_version(),
            final(self).reliable() == old(self).reliable(),
            match r {
                Ok(x) => {
                    &&& old(self).remaining().len() >= 4
                    &&& x == spec_u32_from_le_bytes(old(self).remaining().take(4))
                    &&& final(self).remaining() == old(self).remaining().skip(4)
                    &&& final(self).spec_cursor() == old(self).spec_cursor() + 4
                },
                Err(e) => {
                    &&& (e.id == ParseErrorId::InvNum || !old(self).reliable())
                    &&& (e.id == ParseErrorId::InvNum ==> old(self).remaining().len() < 4
                        && e.description@ == spec_replace_first(
                        spec_replace_first(
                            spec_description(ParseErrorId::InvNum),
                            "{1}"@,
                            "4"@,
                        ),
                        "{2}"@,
                        spec_dec(old(self).remaining().len() as int),
                    ) && e.pos == old(self).spec_cursor() + old(self).remaining().len()
                        && final(self).spec_cursor() == old(self).spec_cursor() + old(
                        self,
                    ).remaining().len())
                    &&& (e.id == ParseErrorId::InvNum || e.id == ParseErrorId::TimedOut || e.id
                        == ParseErrorId::ConnectionClosed)
                    &&& e.pos == final(self).spec_cursor()
                },
            },
    {
        let buf = match self.read(4) {
            Ok(b) => b,
            Err(e) => {
                return Err(e);
            },
        };
        if buf.len() < 4 {
            let mut e = ParseError::new(ParseErrorId::InvNum, self.cursor);
            e.set_desc("{1}", "4");
            let actual = u64_to_dec(buf.len() as u64);
            e.set_desc("{2}", actual.as_str());
            return Err(e);
        }
        Ok(u32_from_le_bytes(buf.as_slice()))
    }

    /// Read eight bytes and interpret them as a little-endian u64; fewer
    /// bytes before exhaustion raise InvNum with the expected and actual
    /// counts.
    pub fn read_u64(&mut self) -> (r: ParseResult<u64>)
        requires
            old(self).wf(),
        ensures
            final(self).wf(),
            final(self).spec_version() == old(self).spec_version(),
            final(self).reliable() == old(self).reliable(),
            match r {
                Ok(x) => {
                    &&& old(self).remaining().len() >= 8
                    &&& x == spec_u64_from_le_bytes(old(self).remaining().take(8))
                    &&& final(self).remaining() == old(self).remaining().skip(8)
                    &&& final(self).spec_cursor() == old(self).spec_cursor() + 8
                },
                Err(e) => {
                    &&& (e.id == ParseErrorId::InvNum || !old(self).reliable())
                    &&& (e.id == ParseErrorId::InvNum ==> old(self).remaining().len() < 8
                        && e.description@ == spec_replace_first(
                        spec_replace_first(
                            spec_description(ParseErrorId::InvNum),
                            "{1}"@,
                            "8"@,
                        ),
                        "{2}"@,
                        spec_dec(old(self).remaining().len() as int),
                    ) && e.pos == old(self).spec_cursor() + old(self).remaining().len()
                        && final(self).spec_cursor() == old(self).spec_cursor() + old(
                        self,
                    ).remaining().len())
                    &&& (e.id == ParseErrorId::InvNum || e.id == ParseErrorId::TimedOut || e.id
                        == ParseErrorId::ConnectionClosed)
                    &&& e.pos == final(self).spec_cursor()
                },
            },
    {
        let buf = match self.read(8) {
            Ok(b) => b,
            Err(e) => {
                return Err(e);
            },
        };
        if buf.len() < 8 {
            let mut e = ParseError::new(ParseErrorId::InvNum, self.cursor);
            e.set_desc("{1}", "8");
            let actual = u64_to_dec(buf.len() as u64);
            e.set_desc("{2}", actual.as_str());
            return Err(e);
        }
        Ok(u64_from_le_bytes(buf.as_slice()))
    }

    /// The cursor: how many bytes have been consumed since creation or the
    /// last reset.
    pub fn pos(&self) -> (r: usize)
        ensures
            r == self.spec_cursor(),
    {
        self.cursor
    }

    /// Zero the cursor and return its prior value, so one parser can be
    /// reused across consecutive packets on a persistent connection.
    pub fn reset(&mut self) -> (r: usize)
        requires
            old(self).wf(),
        ensures
            final(self).wf(),
            r == old(self).spec_cursor(),
            final(self).spec_cursor() == 0,
            final(self).remaining() == old(self).remaining(),
            final(self).reliable() == old(self).reliable(),
            final(self).spec_version() == old(self).spec_version(),
    {
        let s = self.cursor;
        self.cursor = 0;
        s
    }

    /// The version the parser decodes for.
    pub fn version(&self) -> (r: Version)
        ensures
            r == self.spec_version(),
    {
        self.version
    }

    /// Set the version the parser will decode for.
    pub fn set_version(&mut self, version: Version)
        requires
            old(self).wf(),
        ensures
            final(self).wf(),
            final(self).spec_version() == version,
            final(self).spec_cursor() == old(self).spec_cursor(),
            final(self).remaining() == old(self).remaining(),
            final(self).reliable() == old(self).reliable(),
    {
        self.version = version
    }
}

} // verus!
