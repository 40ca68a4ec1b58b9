use vacaps::entrypoint::Entrypoint;
use vacaps::profile::Profile;

#[test]
fn profile_hevc_main() {
    assert_eq!(Profile::from_code(17), Profile::HEVCMain);
    assert_eq!(Profile::from_code(17).name(), "HEVCMain");
}

#[test]
fn profile_out_of_range_is_unknown() {
    assert_eq!(Profile::from_code(100), Profile::Unknown);
    assert_eq!(Profile::from_code(39), Profile::Unknown);
    assert_eq!(Profile::from_code(-2), Profile::Unknown);
    assert_eq!(Profile::from_code(-5), Profile::Unknown);
    assert_eq!(Profile::from_code(i32::MAX), Profile::Unknown);
    assert_eq!(Profile::from_code(i32::MIN), Profile::Unknown);
}

#[test]
fn profile_range_bounds() {
    assert_eq!(Profile::from_code(-1), Profile::NoProfile);
    assert_eq!(Profile::from_code(0), Profile::MPEG2Simple);
    assert_eq!(Profile::from_code(38), Profile::VVCMultilayerMain10);
}

#[test]
fn profile_round_trip_defined_codes() {
    for c in -1..=38 {
        assert_eq!(Profile::from_code(c).to_code(), c);
    }
}

#[test]
fn profile_unknown_code() {
    assert_eq!(Profile::Unknown.to_code(), -2);
    assert_eq!(Profile::from_code(-2), Profile::Unknown);
}

#[test]
fn profile_names() {
    assert_eq!(Profile::from_code(5).name(), "H264Baseline");
    assert_eq!(Profile::from_code(14).name(), "VP8Version0_3");
    assert_eq!(Profile::from_code(24).name(), "HEVCMain422_10");
    assert_eq!(Profile::from_code(200).name(), "Unknown");
}

#[test]
fn entrypoint_vld() {
    assert_eq!(Entrypoint::from_code(1), Entrypoint::VLD);
    assert_eq!(Entrypoint::from_code(1).name(), "VLD");
}

#[test]
fn entrypoint_out_of_range_is_unknown() {
    assert_eq!(Entrypoint::from_code(20), Entrypoint::Unknown);
    assert_eq!(Entrypoint::from_code(15), Entrypoint::Unknown);
    assert_eq!(Entrypoint::from_code(u32::MAX), Entrypoint::Unknown);
}

#[test]
fn entrypoint_gap_code_is_unknown() {
    assert_eq!(Entrypoint::from_code(9), Entrypoint::Unknown);
}

#[test]
fn entrypoint_round_trip_defined_codes() {
    for c in 0..=14u32 {
        if c == 9 {
            continue;
        }
        assert_eq!(Entrypoint::from_code(c).to_code(), c);
    }
}

#[test]
fn entrypoint_names() {
    assert_eq!(Entrypoint::from_code(0).name(), "Unknown");
    assert_eq!(Entrypoint::from_code(8).name(), "EncSliceLP");
    assert_eq!(Entrypoint::from_code(14).name(), "ProtectedContent");
}
