//! A binary wire protocol for a game server: typed packets made of a
//! version byte, a method byte, a set of at-most-one-per-kind headers and an
//! opaque payload, together with the streaming parser that decodes them.
use vstd::prelude::*;

pub mod auth;
pub mod errors;
pub mod logs;
pub mod packet;
pub mod parser;
pub mod resources;
pub mod text;
pub mod weapons;
pub mod wire;

verus! {

// ======================= Version =======================

/// A protocol revision. Each revision has a one-byte wire code and a
/// human-readable name.
#[derive(Copy, Clone, Debug, PartialEq, Eq, Structural)]
pub enum Version {
    /// current version
    V10,
}

impl Version {
    /// The Version encoded by a wire byte, if the byte is a defined code.
    pub open spec fn spec_from_u8(byte: u8) -> Option<Version> {
        if byte == 32 {
            Some(Version::V10)
        } else {
            None
        }
    }

    /// The wire byte of a Version.
    pub open spec fn spec_to_u8(self) -> u8 {
        match self {
            Version::V10 => 32,
        }
    }

    /// Decode a Version from its byte representation; unknown bytes fail.
    pub fn from_u8(byte: u8) -> (r: Option<Version>)
        ensures
            r == Version::spec_from_u8(byte),
    {
        match byte {
            32 => Some(Version::V10),
            _ => None,
        }
    }

    /// The byte representation of a Version.
    pub fn to_u8(&self) -> (r: u8)
        ensures
            r == self.spec_to_u8(),
    {
        match self {
            Version::V10 => 32,
        }
    }

    /// A human readable name of a Version.
    pub fn to_str(&self) -> (r: &'static str)
        ensures
            r@ == self.spec_name(),
    {
        match self {
            Version::V10 => "1.0",
        }
    }

    /// The display name of a Version.
    pub open spec fn spec_name(self) -> Seq<char> {
        match self {
            Version::V10 => "1.0"@,
        }
    }
}

impl Default for Version {
    /// The current revision.
    fn default() -> (r: Self)
        ensures
            r == Version::V10,
    {
        Self::V10
    }
}

/// The byte code of every Version is outside the Control range (1-31), so a
/// decoder can classify any byte by numeric range alone.
pub proof fn lemma_version_code_range(v: Version)
    ensures
        v.spec_to_u8() >= 32,
{
}

/// The byte codec of Version is a bijection between defined variants and
/// their codes: decoding inverts encoding, and any byte that decodes at all
/// decodes to the variant that encodes back to it.
pub proof fn lemma_version_codec_bijective(v: Version, byte: u8)
    ensures
        Version::spec_from_u8(v.spec_to_u8()) == Some(v),
        Version::spec_from_u8(byte) matches Some(w) ==> w.spec_to_u8() == byte,
{
}

} // verus!
