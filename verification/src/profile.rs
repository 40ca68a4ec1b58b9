//! Named codec profiles and the total mapping from the raw codes a
//! capability query returns.

use vstd::prelude::*;
use vstd::string::*;

verus! {

/// A codec-and-conformance-level combination.  `NoProfile` is the table's
/// "none" sentinel at the bottom of the valid range; `Unknown` stands for
/// every raw code outside the defined table.
#[derive(Clone, Copy, PartialEq, Eq, Structural, Debug)]
pub enum Profile {
    Unknown,
    NoProfile,
    MPEG2Simple,
    MPEG2Main,
    MPEG4Simple,
    MPEG4AdvancedSimple,
    MPEG4Main,
    H264Baseline,
    H264Main,
    H264High,
    VC1Simple,
    VC1Main,
    VC1Advanced,
    H263Baseline,
    JPEGBaseline,
    H264ConstrainedBaseline,
    VP8Version0_3,
    H264MultiviewHigh,
    H264StereoHigh,
    HEVCMain,
    HEVCMain10,
    VP9Profile0,
    VP9Profile1,
    VP9Profile2,
    VP9Profile3,
    HEVCMain12,
    HEVCMain422_10,
    HEVCMain422_12,
    HEVCMain444,
    HEVCMain444_10,
    HEVCMain444_12,
    HEVCSccMain,
    HEVCSccMain10,
    HEVCSccMain444,
    AV1Profile0,
    AV1Profile1,
    HEVCSccMain444_10,
    Protected,
    H264High10,
    VVCMain10,
    VVCMultilayerMain10,
}

/// The named profile for a raw code: a total mapping whose defined entries
/// occupy the contiguous range -1 ..= 38, with `Unknown` as the fallback for
/// every code outside it.
pub open spec fn profile_of_code(c: int) -> Profile {
    if c == -1 {
        Profile::NoProfile
    } else if c == 0 {
        Profile::MPEG2Simple
    } else if c == 1 {
        Profile::MPEG2Main
    } else if c == 2 {
        Profile::MPEG4Simple
    } else if c == 3 {
        Profile::MPEG4AdvancedSimple
    } else if c == 4 {
        Profile::MPEG4Main
    } else if c == 5 {
        Profile::H264Baseline
    } else if c == 6 {
        Profile::H264Main
    } else if c == 7 {
        Profile::H264High
    } else if c == 8 {
        Profile::VC1Simple
    } else if c == 9 {
        Profile::VC1Main
    } else if c == 10 {
        Profile::VC1Advanced
    } else if c == 11 {
        Profile::H263Baseline
    } else if c == 12 {
        Profile::JPEGBaseline
    } else if c == 13 {
        Profile::H264ConstrainedBaseline
    } else if c == 14 {
        Profile::VP8Version0_3
    } else if c == 15 {
        Profile::H264MultiviewHigh
    } else if c == 16 {
        Profile::H264StereoHigh
    } else if c == 17 {
        Profile::HEVCMain
    } else if c == 18 {
        Profile::HEVCMain10
    } else if c == 19 {
        Profile::VP9Profile0
    } else if c == 20 {
        Profile::VP9Profile1
    } else if c == 21 {
        Profile::VP9Profile2
    } else if c == 22 {
        Profile::VP9Profile3
    } else if c == 23 {
        Profile::HEVCMain12
    } else if c == 24 {
        Profile::HEVCMain422_10
    } else if c == 25 {
        Profile::HEVCMain422_12
    } else if c == 26 {
        Profile::HEVCMain444
    } else if c == 27 {
        Profile::HEVCMain444_10
    } else if c == 28 {
        Profile::HEVCMain444_12
    } else if c == 29 {
        Profile::HEVCSccMain
    } else if c == 30 {
        Profile::HEVCSccMain10
    } else if c == 31 {
        Profile::HEVCSccMain444
    } else if c == 32 {
        Profile::AV1Profile0
    } else if c == 33 {
        Profile::AV1Profile1
    } else if c == 34 {
        Profile::HEVCSccMain444_10
    } else if c == 35 {
        Profile::Protected
    } else if c == 36 {
        Profile::H264High10
    } else if c == 37 {
        Profile::VVCMain10
    } else if c == 38 {
        Profile::VVCMultilayerMain10
    } else {
        Profile::Unknown
    }
}

impl Profile {
    /// The raw code of a named profile; `Unknown` carries the sentinel -2,
    /// just below the valid range.
    pub open spec fn spec_code(self) -> int {
        match self {
            Profile::Unknown => -2,
            Profile::NoProfile => -1,
            Profile::MPEG2Simple => 0,
            Profile::MPEG2Main => 1,
            Profile::MPEG4Simple => 2,
            Profile::MPEG4AdvancedSimple => 3,
            Profile::MPEG4Main => 4,
            Profile::H264Baseline => 5,
            Profile::H264Main => 6,
            Profile::H264High => 7,
            Profile::VC1Simple => 8,
            Profile::VC1Main => 9,
            Profile::VC1Advanced => 10,
            Profile::H263Baseline => 11,
            Profile::JPEGBaseline => 12,
            Profile::H264ConstrainedBaseline => 13,
            Profile::VP8Version0_3 => 14,
            Profile::H264MultiviewHigh => 15,
            Profile::H264StereoHigh => 16,
            Profile::HEVCMain => 17,
            Profile::HEVCMain10 => 18,
            Profile::VP9Profile0 => 19,
            Profile::VP9Profile1 => 20,
            Profile::VP9Profile2 => 21,
            Profile::VP9Profile3 => 22,
            Profile::HEVCMain12 => 23,
            Profile::HEVCMain422_10 => 24,
            Profile::HEVCMain422_12 => 25,
            Profile::HEVCMain444 => 26,
            Profile::HEVCMain444_10 => 27,
            Profile::HEVCMain444_12 => 28,
            Profile::HEVCSccMain => 29,
            Profile::HEVCSccMain10 => 30,
            Profile::HEVCSccMain444 => 31,
            Profile::AV1Profile0 => 32,
            Profile::AV1Profile1 => 33,
            Profile::HEVCSccMain444_10 => 34,
            Profile::Protected => 35,
            Profile::H264High10 => 36,
            Profile::VVCMain10 => 37,
            Profile::VVCMultilayerMain10 => 38,
        }
    }

    /// The display name of a named profile.
    pub open spec fn spec_name(self) -> Seq<char> {
        match self {
            Profile::Unknown => "Unknown"@,
            Profile::NoProfile => "NoProfile"@,
            Profile::MPEG2Simple => "MPEG2Simple"@,
            Profile::MPEG2Main => "MPEG2Main"@,
            Profile::MPEG4Simple => "MPEG4Simple"@,
            Profile::MPEG4AdvancedSimple => "MPEG4AdvancedSimple"@,
            Profile::MPEG4Main => "MPEG4Main"@,
            Profile::H264Baseline => "H264Baseline"@,
            Profile::H264Main => "H264Main"@,
            Profile::H264High => "H264High"@,
            Profile::VC1Simple => "VC1Simple"@,
            Profile::VC1Main => "VC1Main"@,
            Profile::VC1Advanced => "VC1Advanced"@,
            Profile::H263Baseline => "H263Baseline"@,
            Profile::JPEGBaseline => "JPEGBaseline"@,
            Profile::H264ConstrainedBaseline => "H264ConstrainedBaseline"@,
            Profile::VP8Version0_3 => "VP8Version0_3"@,
            Profile::H264MultiviewHigh => "H264MultiviewHigh"@,
            Profile::H264StereoHigh => "H264StereoHigh"@,
            Profile::HEVCMain => "HEVCMain"@,
            Profile::HEVCMain10 => "HEVCMain10"@,
            Profile::VP9Profile0 => "VP9Profile0"@,
            Profile::VP9Profile1 => "VP9Profile1"@,
            Profile::VP9Profile2 => "VP9Profile2"@,
            Profile::VP9Profile3 => "VP9Profile3"@,
            Profile::HEVCMain12 => "HEVCMain12"@,
            Profile::HEVCMain422_10 => "HEVCMain422_10"@,
            Profile::HEVCMain422_12 => "HEVCMain422_12"@,
            Profile::HEVCMain444 => "HEVCMain444"@,
            Profile::HEVCMain444_10 => "HEVCMain444_10"@,
            Profile::HEVCMain444_12 => "HEVCMain444_12"@,
            Profile::HEVCSccMain => "HEVCSccMain"@,
            Profile::HEVCSccMain10 => "HEVCSccMain10"@,
            Profile::HEVCSccMain444 => "HEVCSccMain444"@,
            Profile::AV1Profile0 => "AV1Profile0"@,
            Profile::AV1Profile1 => "AV1Profile1"@,
            Profile::HEVCSccMain444_10 => "HEVCSccMain444_10"@,
            Profile::Protected => "Protected"@,
            Profile::H264High10 => "H264High10"@,
            Profile::VVCMain10 => "VVCMain10"@,
            Profile::VVCMultilayerMain10 => "VVCMultilayerMain10"@,
        }
    }

    /// Decodes a raw profile code; every code outside the defined range
    /// -1 ..= 38 yields `Unknown`.
    pub fn from_code(code: i32) -> (p: Profile)
        ensures
            p == profile_of_code(code as int),
    {
        match code {
            -1 => Profile::NoProfile,
            0 => Profile::MPEG2Simple,
            1 => Profile::MPEG2Main,
            2 => Profile::MPEG4Simple,
            3 => Profile::MPEG4AdvancedSimple,
            4 => Profile::MPEG4Main,
            5 => Profile::H264Baseline,
            6 => Profile::H264Main,
            7 => Profile::H264High,
            8 => Profile::VC1Simple,
            9 => Profile::VC1Main,
            10 => Profile::VC1Advanced,
            11 => Profile::H263Baseline,
            12 => Profile::JPEGBaseline,
            13 => Profile::H264ConstrainedBaseline,
            14 => Profile::VP8Version0_3,
            15 => Profile::H264MultiviewHigh,
            16 => Profile::H264StereoHigh,
            17 => Profile::HEVCMain,
            18 => Profile::HEVCMain10,
            19 => Profile::VP9Profile0,
            20 => Profile::VP9Profile1,
            21 => Profile::VP9Profile2,
            22 => Profile::VP9Profile3,
            23 => Profile::HEVCMain12,
            24 => Profile::HEVCMain422_10,
            25 => Profile::HEVCMain422_12,
            26 => Profile::HEVCMain444,
            27 => Profile::HEVCMain444_10,
            28 => Profile::HEVCMain444_12,
            29 => Profile::HEVCSccMain,
            30 => Profile::HEVCSccMain10,
            31 => Profile::HEVCSccMain444,
            32 => Profile::AV1Profile0,
            33 => Profile::AV1Profile1,
            34 => Profile::HEVCSccMain444_10,
            35 => Profile::Protected,
            36 => Profile::H264High10,
            37 => Profile::VVCMain10,
            38 => Profile::VVCMultilayerMain10,
            _ => Profile::Unknown,
        }
    }

    /// The raw code of this named profile.
    pub fn to_code(self) -> (code: i32)
        ensures
            code as int == self.spec_code(),
    {
        match self {
            Profile::Unknown => -2,
            Profile::NoProfile => -1,
            Profile::MPEG2Simple => 0,
            Profile::MPEG2Main => 1,
            Profile::MPEG4Simple => 2,
            Profile::MPEG4AdvancedSimple => 3,
            Profile::MPEG4Main => 4,
            Profile::H264Baseline => 5,
            Profile::H264Main => 6,
            Profile::H264High => 7,
            Profile::VC1Simple => 8,
            Profile::VC1Main => 9,
            Profile::VC1Advanced => 10,
            Profile::H263Baseline => 11,
            Profile::JPEGBaseline => 12,
            Profile::H264ConstrainedBaseline => 13,
            Profile::VP8Version0_3 => 14,
            Profile::H264MultiviewHigh => 15,
            Profile::H264StereoHigh => 16,
            Profile::HEVCMain => 17,
            Profile::HEVCMain10 => 18,
            Profile::VP9Profile0 => 19,
            Profile::VP9Profile1 => 20,
            Profile::VP9Profile2 => 21,
            Profile::VP9Profile3 => 22,
            Profile::HEVCMain12 => 23,
            Profile::HEVCMain422_10 => 24,
            Profile::HEVCMain422_12 => 25,
            Profile::HEVCMain444 => 26,
            Profile::HEVCMain444_10 => 27,
            Profile::HEVCMain444_12 => 28,
            Profile::HEVCSccMain => 29,
            Profile::HEVCSccMain10 => 30,
            Profile::HEVCSccMain444 => 31,
            Profile::AV1Profile0 => 32,
            Profile::AV1Profile1 => 33,
            Profile::HEVCSccMain444_10 => 34,
            Profile::Protected => 35,
            Profile::H264High10 => 36,
            Profile::VVCMain10 => 37,
            Profile::VVCMultilayerMain10 => 38,
        }
    }

    /// The display name of this profile.
    pub fn name(self) -> (r: String)
        ensures
            r@ == self.spec_name(),
    {
        match self {
            Profile::Unknown => String::from_str("Unknown"),
            Profile::NoProfile => String::from_str("NoProfile"),
            Profile::MPEG2Simple => String::from_str("MPEG2Simple"),
            Profile::MPEG2Main => String::from_str("MPEG2Main"),
            Profile::MPEG4Simple => String::from_str("MPEG4Simple"),
            Profile::MPEG4AdvancedSimple => String::from_str("MPEG4AdvancedSimple"),
            Profile::MPEG4Main => String::from_str("MPEG4Main"),
            Profile::H264Baseline => String::from_str("H264Baseline"),
            Profile::H264Main => String::from_str("H264Main"),
            Profile::H264High => String::from_str("H264High"),
            Profile::VC1Simple => String::from_str("VC1Simple"),
            Profile::VC1Main => String::from_str("VC1Main"),
            Profile::VC1Advanced => String::from_str("VC1Advanced"),
            Profile::H263Baseline => String::from_str("H263Baseline"),
            Profile::JPEGBaseline => String::from_str("JPEGBaseline"),
            Profile::H264ConstrainedBaseline => String::from_str("H264ConstrainedBaseline"),
            Profile::VP8Version0_3 => String::from_str("VP8Version0_3"),
            Profile::H264MultiviewHigh => String::from_str("H264MultiviewHigh"),
            Profile::H264StereoHigh => String::from_str("H264StereoHigh"),
            Profile::HEVCMain => String::from_str("HEVCMain"),
            Profile::HEVCMain10 => String::from_str("HEVCMain10"),
            Profile::VP9Profile0 => String::from_str("VP9Profile0"),
            Profile::VP9Profile1 => String::from_str("VP9Profile1"),
            Profile::VP9Profile2 => String::from_str("VP9Profile2"),
            Profile::VP9Profile3 => String::from_str("VP9Profile3"),
            Profile::HEVCMain12 => String::from_str("HEVCMain12"),
            Profile::HEVCMain422_10 => String::from_str("HEVCMain422_10"),
            Profile::HEVCMain422_12 => String::from_str("HEVCMain422_12"),
            Profile::HEVCMain444 => String::from_str("HEVCMain444"),
            Profile::HEVCMain444_10 => String::from_str("HEVCMain444_10"),
            Profile::HEVCMain444_12 => String::from_str("HEVCMain444_12"),
            Profile::HEVCSccMain => String::from_str("HEVCSccMain"),
            Profile::HEVCSccMain10 => String::from_str("HEVCSccMain10"),
            Profile::HEVCSccMain444 => String::from_str("HEVCSccMain444"),
            Profile::AV1Profile0 => String::from_str("AV1Profile0"),
            Profile::AV1Profile1 => String::from_str("AV1Profile1"),
            Profile::HEVCSccMain444_10 => String::from_str("HEVCSccMain444_10"),
            Profile::Protected => String::from_str("Protected"),
            Profile::H264High10 => String::from_str("H264High10"),
            Profile::VVCMain10 => String::from_str("VVCMain10"),
            Profile::VVCMultilayerMain10 => String::from_str("VVCMultilayerMain10"),
        }
    }
}

/// A raw profile code outside the defined range -1 ..= 38 decodes to
/// `Unknown`.
pub proof fn lemma_profile_out_of_range_is_unknown(c: int)
    requires
        c < -1 || c > 38,
    ensures
        profile_of_code(c) == Profile::Unknown,
{
}

/// Decoding is the inverse of the raw code on every defined table entry:
/// re-encoding the named profile gives the code back.
pub proof fn lemma_profile_round_trip(c: int)
    requires
        -1 <= c <= 38,
    ensures
        profile_of_code(c).spec_code() == c,
{
}

} // verus!
