//! The error taxonomy of the protocol: a closed set of error kinds, each with
//! a short machine-readable tag and a templated human-readable description,
//! and the error record carrying the byte offset at which it was detected.
use vstd::prelude::*;
use vstd::string::*;
use crate::text::spec_replace_first;
use crate::text::replace_first;
use crate::text::str_eq;
use crate::text::to_uppercase;
use crate::text::upper_of;

verus! {

// ======================= ParseErrorId =======================

/// A decode-time error kind. `ConnectionClosed` and `TimedOut` signal a
/// transport condition and are used internally to unwind a stalled or
/// terminated read; the other kinds describe malformed content.
#[derive(Debug, Clone, Copy, PartialEq, Eq, Structural)]
pub enum ParseErrorId {
    /// duplicated headers are forbidden
    DupHeader,
    /// headers have static values between 32 and 255; only a few are valid
    /// depending on the protocol version
    UkwnHeader,
    /// single byte header values between 32 and 255 that no variant of the
    /// named set defines
    UkwnHeaderVal,
    /// controls have static values between 1 and 31; only a few are valid
    /// depending on the protocol version
    UkwnCtrl,
    /// a control was expected, such as inside a string, and was not found
    MissCtrl,
    /// a specific header is missing
    MissHeader,
    /// a control that is not expected here
    UnxptCtrl,
    /// invalid number, mostly caused by end-of-source before an n-byte number
    /// was fully read
    InvNum,
    /// the Length header and the data length do not agree
    InvDataLen,
    /// invalid data compression
    InvDataComp,
    /// mostly caused by an invalid utf-8 string
    InvStr,
    /// the packet took too long to be gathered
    TimedOut,
    /// any error that has no id of its own to report
    Unknown,
    /// never sent to a peer, only used internally
    ConnectionClosed,
}

/// The templated description of an error kind; `{1}` and `{2}` are the
/// placeholders that callers fill with context.
pub open spec fn spec_description(id: ParseErrorId) -> Seq<char> {
    match id {
        ParseErrorId::DupHeader => "Duplicated header: {1}."@,
        ParseErrorId::UkwnHeader => "Unknown header: {1}."@,
        ParseErrorId::UkwnHeaderVal => "Unknown value for [{1}]: {2}."@,
        ParseErrorId::UkwnCtrl => "Unknown control: {1}."@,
        ParseErrorId::MissCtrl => "Missing control: {1}."@,
        ParseErrorId::MissHeader => "Missing header: {1}"@,
        ParseErrorId::UnxptCtrl => "Unexpected control: {1}."@,
        ParseErrorId::InvNum => "Invalid number: expected {1} bytes, found {2}."@,
        ParseErrorId::InvDataLen => "Invalid length header, data length mismatch it."@,
        ParseErrorId::InvDataComp => "Invalid data compression: {1}"@,
        ParseErrorId::InvStr => "Invalid utf-8 string."@,
        ParseErrorId::TimedOut => "Took to long to gather the rest of the packet, usually means that it's corrupted"@,
        ParseErrorId::ConnectionClosed => "Connection closed"@,
        ParseErrorId::Unknown => "{1}"@,
    }
}

/// The machine-readable tag of an error kind.
pub open spec fn spec_tag(id: ParseErrorId) -> Seq<char> {
    match id {
        ParseErrorId::DupHeader => "DUP_HEADER"@,
        ParseErrorId::UkwnHeader => "UKWN_HEADER"@,
        ParseErrorId::UkwnHeaderVal => "UKWN_HEADER_VAL"@,
        ParseErrorId::UkwnCtrl => "UKWN_CTRL"@,
        ParseErrorId::MissCtrl => "MISS_CTRL"@,
        ParseErrorId::MissHeader => "MISS_HEADER"@,
        ParseErrorId::UnxptCtrl => "UNXPT_CTRL"@,
        ParseErrorId::InvNum => "INV_NUM"@,
        ParseErrorId::InvDataLen => "INV_DATA_LEN"@,
        ParseErrorId::InvDataComp => "INV_DATA_COMP"@,
        ParseErrorId::InvStr => "INV_STR"@,
        ParseErrorId::TimedOut => "TIMEDOUT"@,
        ParseErrorId::ConnectionClosed => "CON_CLOSED"@,
        ParseErrorId::Unknown => "UNKNOWN"@,
    }
}

/// The error kind whose tag is the given (already uppercased) name.
pub open spec fn spec_id_from_tag(n: Seq<char>) -> Option<ParseErrorId> {
    if n == "DUP_HEADER"@ {
        Some(ParseErrorId::DupHeader)
    } else if n == "UKWN_HEADER"@ {
        Some(ParseErrorId::UkwnHeader)
    } else if n == "UKWN_HEADER_VAL"@ {
        Some(ParseErrorId::UkwnHeaderVal)
    } else if n == "UKWN_CTRL"@ {
        Some(ParseErrorId::UkwnCtrl)
    } else if n == "MISS_CTRL"@ {
        Some(ParseErrorId::MissCtrl)
    } else if n == "MISS_HEADER"@ {
        Some(ParseErrorId::MissHeader)
    } else if n == "UNXPT_CTRL"@ {
        Some(ParseErrorId::UnxptCtrl)
    } else if n == "INV_NUM"@ {
        Some(ParseErrorId::InvNum)
    } else if n == "INV_DATA_LEN"@ {
        Some(ParseErrorId::InvDataLen)
    } else if n == "INV_DATA_COMP"@ {
        Some(ParseErrorId::InvDataComp)
    } else if n == "INV_STR"@ {
        Some(ParseErrorId::InvStr)
    } else if n == "TIMEDOUT"@ {
        Some(ParseErrorId::TimedOut)
    } else if n == "CON_CLOSED"@ {
        Some(ParseErrorId::ConnectionClosed)
    } else if n == "UNKNOWN"@ {
        Some(ParseErrorId::Unknown)
    } else {
        None
    }
}

impl ParseErrorId {
    /// The templated human-readable description of this error kind.
    pub fn description(&self) -> (r: &'static str)
        ensures
            r@ == spec_description(*self),
    {
        match self {
            ParseErrorId::DupHeader => "Duplicated header: {1}.",
            ParseErrorId::UkwnHeader => "Unknown header: {1}.",
            ParseErrorId::UkwnHeaderVal => "Unknown value for [{1}]: {2}.",
            ParseErrorId::UkwnCtrl => "Unknown control: {1}.",
            ParseErrorId::MissCtrl => "Missing control: {1}.",
            ParseErrorId::MissHeader => "Missing header: {1}",
            ParseErrorId::UnxptCtrl => "Unexpected control: {1}.",
            ParseErrorId::InvNum => "Invalid number: expected {1} bytes, found {2}.",
            ParseErrorId::InvDataLen => "Invalid length header, data length mismatch it.",
            ParseErrorId::InvDataComp => "Invalid data compression: {1}",
            ParseErrorId::InvStr => "Invalid utf-8 string.",
            ParseErrorId::TimedOut => "Took to long to gather the rest of the packet, usually means that it's corrupted",
            ParseErrorId::ConnectionClosed => "Connection closed",
            ParseErrorId::Unknown => "{1}",
        }
    }

    /// The error kind named by a tag, compared case-insensitively; unknown
    /// tags fail.
    pub fn from_str(id: &str) -> (r: Option<ParseErrorId>)
        ensures
            r == spec_id_from_tag(upper_of(id@)),
    {
        let u = to_uppercase(id);
        let n = u.as_str();
        if str_eq(n, "DUP_HEADER") {
            Some(ParseErrorId::DupHeader)
        } else if str_eq(n, "UKWN_HEADER") {
            Some(ParseErrorId::UkwnHeader)
        } else if str_eq(n, "UKWN_HEADER_VAL") {
            Some(ParseErrorId::UkwnHeaderVal)
        } else if str_eq(n, "UKWN_CTRL") {
            Some(ParseErrorId::UkwnCtrl)
        } else if str_eq(n, "MISS_CTRL") {
            Some(ParseErrorId::MissCtrl)
        } else if str_eq(n, "MISS_HEADER") {
            Some(ParseErrorId::MissHeader)
        } else if str_eq(n, "UNXPT_CTRL") {
            Some(ParseErrorId::UnxptCtrl)
        } else if str_eq(n, "INV_NUM") {
            Some(ParseErrorId::InvNum)
        } else if str_eq(n, "INV_DATA_LEN") {
            Some(ParseErrorId::InvDataLen)
        } else if str_eq(n, "INV_DATA_COMP") {
            Some(ParseErrorId::InvDataComp)
        } else if str_eq(n, "INV_STR") {
            Some(ParseErrorId::InvStr)
        } else if str_eq(n, "TIMEDOUT") {
            Some(ParseErrorId::TimedOut)
        } else if str_eq(n, "CON_CLOSED") {
            Some(ParseErrorId::ConnectionClosed)
        } else if str_eq(n, "UNKNOWN") {
            Some(ParseErrorId::Unknown)
        } else {
            None
        }
    }

    /// The machine-readable tag of this error kind.
    pub fn to_str(&self) -> (r: &'static str)
        ensures
            r@ == spec_tag(*self),
    {
        match self {
            ParseErrorId::DupHeader => "DUP_HEADER",
            ParseErrorId::UkwnHeader => "UKWN_HEADER",
            ParseErrorId::UkwnHeaderVal => "UKWN_HEADER_VAL",
            ParseErrorId::UkwnCtrl => "UKWN_CTRL",
            ParseErrorId::MissCtrl => "MISS_CTRL",
            ParseErrorId::MissHeader => "MISS_HEADER",
            ParseErrorId::UnxptCtrl => "UNXPT_CTRL",
            ParseErrorId::InvNum => "INV_NUM",
            ParseErrorId::InvDataLen => "INV_DATA_LEN",
            ParseErrorId::InvDataComp => "INV_DATA_COMP",
            ParseErrorId::InvStr => "INV_STR",
            ParseErrorId::TimedOut => "TIMEDOUT",
            ParseErrorId::ConnectionClosed => "CON_CLOSED",
            ParseErrorId::Unknown => "UNKNOWN",
        }
    }
}

// ======================= ParseError =======================

/// A decode-time error: its kind, a human-readable description derived from
/// the kind's template, and the byte offset at which it was detected.
#[derive(Debug, Clone, PartialEq, Eq)]
pub struct ParseError {
    /// id of the error, mostly used by software to handle a specific error
    pub id: ParseErrorId,
    /// description, used for debugging or reporting the error to a user
    pub description: String,
    /// where in the byte stream the error occurred
    pub pos: usize,
}

impl ParseError {
    /// A fresh error of the given kind at the given offset, carrying the
    /// kind's description template.
    pub fn new(id: ParseErrorId, pos: usize) -> (r: Self)
        ensures
            r.id == id,
            r.pos == pos,
            r.description@ == spec_description(id),
    {
        Self { description: String::from_str(id.description()), id, pos }
    }

    /// Fill a placeholder: replace the first occurrence of `p` in the
    /// description with `s`; the description is unchanged when `p` does not
    /// occur in it.
    pub fn set_desc(&mut self, p: &str, s: &str)
        ensures
            final(self).id == old(self).id,
            final(self).pos == old(self).pos,
            final(self).description@ == spec_replace_first(old(self).description@, p@, s@),
    {
        self.description = replace_first(self.description.as_str(), p, s);
    }
}

/// The description template of an error kind with its placeholders filled in
/// order: `{1}` by the first argument, `{2}` by the second.
pub open spec fn spec_rendered(id: ParseErrorId, args: Seq<Seq<char>>) -> Seq<char> {
    let d0 = spec_description(id);
    let d1 = if args.len() >= 1 {
        spec_replace_first(d0, "{1}"@, args[0])
    } else {
        d0
    };
    if args.len() >= 2 {
        spec_replace_first(d1, "{2}"@, args[1])
    } else {
        d1
    }
}

/// The result of a decode-time operation.
pub type ParseResult<R> = Result<R, ParseError>;

/// A fresh error with its first placeholder already filled.
pub fn error_with(id: ParseErrorId, pos: usize, arg: &str) -> (r: ParseError)
    ensures
        r.id == id,
        r.pos == pos,
        r.description@ == spec_replace_first(spec_description(id), "{1}"@, arg@),
{
    let mut e = ParseError::new(id, pos);
    e.set_desc("{1}", arg);
    e
}

} // verus!
