//! RTSP protocol versions.

use vstd::prelude::*;
use vstd::string::StringSliceAdditionalSpecFns;

use crate::syntax::{bytes_eq, lemma_ascii_literal};

verus! {

/// A possible error value when converting to a `Version` from bytes.
///
/// This error indicates that the bytes name no version of RTSP.
#[derive(Clone, Copy, Debug, PartialEq, Eq, Hash)]
pub struct InvalidVersion;

impl InvalidVersion {
    /// A short description of the error.
    pub fn description(&self) -> (res: &'static str)
        ensures
            res@ == "invalid RTSP version"@,
    {
        "invalid RTSP version"
    }
}

/// A version of the RTSP protocol. Only RTSP 2.0 is supported; RTSP 1.0 is
/// recognized so that it can be told apart from bytes that name no version.
#[derive(Clone, Copy, Debug, PartialEq, Eq, Structural, Hash)]
pub enum Version {
    /// RTSP/1.0
    RTSP10,
    /// RTSP/2.0
    RTSP20,
}

impl View for Version {
    type V = Seq<u8>;

    /// The version as it is written on the wire.
    open spec fn view(&self) -> Seq<u8> {
        match self {
            Version::RTSP10 => "RTSP/1.0".spec_bytes(),
            Version::RTSP20 => "RTSP/2.0".spec_bytes(),
        }
    }
}

impl Version {
    /// What `try_from` returns on `bytes`.
    pub open spec fn spec_try_from(bytes: Seq<u8>) -> Result<Version, InvalidVersion> {
        if bytes == Version::RTSP20@ {
            Ok(Version::RTSP20)
        } else if bytes == Version::RTSP10@ {
            Ok(Version::RTSP10)
        } else {
            Err(InvalidVersion)
        }
    }

    /// Returns the version as it is written on the wire.
    pub fn as_bytes(&self) -> (res: &'static [u8])
        ensures
            res@ == self@,
    {
        match self {
            Version::RTSP10 => "RTSP/1.0".as_bytes(),
            Version::RTSP20 => "RTSP/2.0".as_bytes(),
        }
    }

    /// Converts bytes to a version: `RTSP/1.0` or `RTSP/2.0`, in exactly this
    /// spelling.
    pub fn try_from(value: &[u8]) -> (res: Result<Version, InvalidVersion>)
        ensures
            res == Version::spec_try_from(value@),
    {
        if bytes_eq(value, "RTSP/2.0".as_bytes()) {
            Ok(Version::RTSP20)
        } else if bytes_eq(value, "RTSP/1.0".as_bytes()) {
            Ok(Version::RTSP10)
        } else {
            Err(InvalidVersion)
        }
    }
}

impl Default for Version {
    /// The default version is RTSP 2.0.
    fn default() -> (res: Version)
        ensures
            res == Version::RTSP20,
    {
        Version::RTSP20
    }
}

/// The bytes of the two versions: eight bytes that differ in the major
/// version number.
pub proof fn lemma_version_bytes(version: Version)
    ensures
        version@.len() == 8,
        version@[0] == 0x52,
        version@[1] == 0x54,
        version@[2] == 0x53,
        version@[3] == 0x50,
        version@[4] == 0x2f,
        version@[5] == (if version == Version::RTSP20 {
            0x32u8
        } else {
            0x31u8
        }),
        version@[6] == 0x2e,
        version@[7] == 0x30,
        Version::spec_try_from(version@) == Ok::<Version, InvalidVersion>(version),
{
    reveal_strlit("RTSP/1.0");
    reveal_strlit("RTSP/2.0");
    lemma_ascii_literal("RTSP/1.0");
    lemma_ascii_literal("RTSP/2.0");
    assert(Version::RTSP10@[5] != Version::RTSP20@[5]);
}

} // verus!
