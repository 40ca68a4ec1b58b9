//! Named entry points (operation modes) of a codec profile, and the total
//! mapping from the raw codes a capability query returns.

use vstd::prelude::*;
use vstd::string::*;

verus! {

/// An operation mode supported for a codec profile: decode variants, encode
/// variants, post-processing, statistics, protected-content modes.  `Unknown`
/// stands for every raw code with no defined entry.
#[derive(Clone, Copy, PartialEq, Eq, Structural, Debug)]
pub enum Entrypoint {
    Unknown,
    VLD,
    IZZ,
    IDCT,
    MoComp,
    Deblocking,
    EncSlice,
    EncPicture,
    EncSliceLP,
    VideoProc,
    FEI,
    Stats,
    ProtectedTEEComm,
    ProtectedContent,
}

/// The named entry point for a raw code: a total mapping with `Unknown` as the
/// fallback for every code outside the defined table, including the unused
/// code 9 inside the numeric range.
pub open spec fn entrypoint_of_code(c: int) -> Entrypoint {
    if c == 0 {
        Entrypoint::Unknown
    } else if c == 1 {
        Entrypoint::VLD
    } else if c == 2 {
        Entrypoint::IZZ
    } else if c == 3 {
        Entrypoint::IDCT
    } else if c == 4 {
        Entrypoint::MoComp
    } else if c == 5 {
        Entrypoint::Deblocking
    } else if c == 6 {
        Entrypoint::EncSlice
    } else if c == 7 {
        Entrypoint::EncPicture
    } else if c == 8 {
        Entrypoint::EncSliceLP
    } else if c == 10 {
        Entrypoint::VideoProc
    } else if c == 11 {
        Entrypoint::FEI
    } else if c == 12 {
        Entrypoint::Stats
    } else if c == 13 {
        Entrypoint::ProtectedTEEComm
    } else if c == 14 {
        Entrypoint::ProtectedContent
    } else {
        Entrypoint::Unknown
    }
}

impl Entrypoint {
    /// The raw code of a named entry point; `Unknown` carries the sentinel 0.
    pub open spec fn spec_code(self) -> int {
        match self {
            Entrypoint::Unknown => 0,
            Entrypoint::VLD => 1,
            Entrypoint::IZZ => 2,
            Entrypoint::IDCT => 3,
            Entrypoint::MoComp => 4,
            Entrypoint::Deblocking => 5,
            Entrypoint::EncSlice => 6,
            Entrypoint::EncPicture => 7,
            Entrypoint::EncSliceLP => 8,
            Entrypoint::VideoProc => 10,
            Entrypoint::FEI => 11,
            Entrypoint::Stats => 12,
            Entrypoint::ProtectedTEEComm => 13,
            Entrypoint::ProtectedContent => 14,
        }
    }

    /// The display name of a named entry point.
    pub open spec fn spec_name(self) -> Seq<char> {
        match self {
            Entrypoint::Unknown => "Unknown"@,
            Entrypoint::VLD => "VLD"@,
            Entrypoint::IZZ => "IZZ"@,
            Entrypoint::IDCT => "IDCT"@,
            Entrypoint::MoComp => "MoComp"@,
            Entrypoint::Deblocking => "Deblocking"@,
            Entrypoint::EncSlice => "EncSlice"@,
            Entrypoint::EncPicture => "EncPicture"@,
            Entrypoint::EncSliceLP => "EncSliceLP"@,
            Entrypoint::VideoProc => "VideoProc"@,
            Entrypoint::FEI => "FEI"@,
            Entrypoint::Stats => "Stats"@,
            Entrypoint::ProtectedTEEComm => "ProtectedTEEComm"@,
            Entrypoint::ProtectedContent => "ProtectedContent"@,
        }
    }

    /// Decodes a raw entry-point code; every code without a defined entry,
    /// above the table's maximum or in a gap inside it, yields `Unknown`.
    pub fn from_code(code: u32) -> (ep: Entrypoint)
        ensures
            ep == entrypoint_of_code(code as int),
    {
        match code {
            0 => Entrypoint::Unknown,
            1 => Entrypoint::VLD,
            2 => Entrypoint::IZZ,
            3 => Entrypoint::IDCT,
            4 => Entrypoint::MoComp,
            5 => Entrypoint::Deblocking,
            6 => Entrypoint::EncSlice,
            7 => Entrypoint::EncPicture,
            8 => Entrypoint::EncSliceLP,
            10 => Entrypoint::VideoProc,
            11 => Entrypoint::FEI,
            12 => Entrypoint::Stats,
            13 => Entrypoint::ProtectedTEEComm,
            14 => Entrypoint::ProtectedContent,
            _ => Entrypoint::Unknown,
        }
    }

    /// The raw code of this named entry point.
    pub fn to_code(self) -> (code: u32)
        ensures
            code as int == self.spec_code(),
    {
        match self {
            Entrypoint::Unknown => 0,
            Entrypoint::VLD => 1,
            Entrypoint::IZZ => 2,
            Entrypoint::IDCT => 3,
            Entrypoint::MoComp => 4,
            Entrypoint::Deblocking => 5,
            Entrypoint::EncSlice => 6,
            Entrypoint::EncPicture => 7,
            Entrypoint::EncSliceLP => 8,
            Entrypoint::VideoProc => 10,
            Entrypoint::FEI => 11,
            Entrypoint::Stats => 12,
            Entrypoint::ProtectedTEEComm => 13,
            Entrypoint::ProtectedContent => 14,
        }
    }

    /// The display name of this entry point.
    pub fn name(self) -> (r: String)
        ensures
            r@ == self.spec_name(),
    {
        match self {
            Entrypoint::Unknown => String::from_str("Unknown"),
            Entrypoint::VLD => String::from_str("VLD"),
            Entrypoint::IZZ => String::from_str("IZZ"),
            Entrypoint::IDCT => String::from_str("IDCT"),
            Entrypoint::MoComp => String::from_str("MoComp"),
            Entrypoint::Deblocking => String::from_str("Deblocking"),
            Entrypoint::EncSlice => String::from_str("EncSlice"),
            Entrypoint::EncPicture => String::from_str("EncPicture"),
            Entrypoint::EncSliceLP => String::from_str("EncSliceLP"),
            Entrypoint::VideoProc => String::from_str("VideoProc"),
            Entrypoint::FEI => String::from_str("FEI"),
            Entrypoint::Stats => String::from_str("Stats"),
            Entrypoint::ProtectedTEEComm => String::from_str("ProtectedTEEComm"),
            Entrypoint::ProtectedContent => String::from_str("ProtectedContent"),
        }
    }
}

/// A raw entry-point code with no defined table entry decodes to `Unknown`:
/// every code above the table's maximum of 14, and the unused code 9 inside
/// the range.
pub proof fn lemma_entrypoint_undefined_is_unknown(c: int)
    requires
        c > 14 || c < 0 || c == 9,
    ensures
        entrypoint_of_code(c) == Entrypoint::Unknown,
{
}

/// Decoding is the inverse of the raw code on every defined table entry:
/// re-encoding the named entry point gives the code back.
pub proof fn lemma_entrypoint_round_trip(c: int)
    requires
        0 <= c <= 14,
        c != 9,
    ensures
        entrypoint_of_code(c).spec_code() == c,
{
}

} // verus!
