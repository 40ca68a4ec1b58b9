use vacaps::report::AttribPair;
use vacaps::report::DeviceData;
use vacaps::report::DeviceProbe;
use vacaps::report::EntrypointProbe;
use vacaps::report::FormatInfo;
use vacaps::report::ProfileProbe;
use vacaps::report::QueryStep;
use vacaps::report::report_all;

fn ep(code: u32, w: u32, h: u32) -> EntrypointProbe {
    EntrypointProbe { code, attrs: Some(AttribPair { max_width: w, max_height: h }) }
}

fn full_device() -> DeviceProbe {
    DeviceProbe::Opened(DeviceData {
        vendor: Some("Intel iHD driver".to_string()),
        formats: Some(vec![FormatInfo { fourcc: 0x3231_564E, detail: "depth 12".to_string() }]),
        profiles: Some(vec![ProfileProbe { code: 17, entrypoints: Some(vec![ep(1, 4096, 2160)]) }]),
    })
}

#[test]
fn zero_devices_report_nothing_and_succeed() {
    let (lines, r) = report_all(&Vec::new());
    assert!(lines.is_empty());
    assert_eq!(r, Ok(()));
}

#[test]
fn full_report_lines() {
    let (lines, r) = report_all(&vec![full_device()]);
    assert_eq!(r, Ok(()));
    assert_eq!(
        lines,
        vec![
            "Vendor: Intel iHD driver",
            "  Image Profiles:",
            "    NV12: depth 12",
            "  Config Profiles:",
            "    HEVCMain:",
            "      VLD: 4096x2160",
        ]
    );
}

#[test]
fn profile_with_no_entrypoints_prints_header_then_next_profile() {
    let d = DeviceProbe::Opened(DeviceData {
        vendor: Some("v".to_string()),
        formats: Some(Vec::new()),
        profiles: Some(vec![
            ProfileProbe { code: 17, entrypoints: Some(Vec::new()) },
            ProfileProbe { code: 6, entrypoints: Some(vec![ep(1, 100, 50)]) },
        ]),
    });
    let (lines, r) = report_all(&vec![d]);
    assert_eq!(r, Ok(()));
    assert_eq!(
        lines,
        vec![
            "Vendor: v",
            "  Image Profiles:",
            "  Config Profiles:",
            "    HEVCMain:",
            "    H264Main:",
            "      VLD: 100x50",
        ]
    );
}

#[test]
fn vendor_failure_prints_nothing_and_aborts_run() {
    let failing = DeviceProbe::Opened(DeviceData { vendor: None, formats: None, profiles: None });
    let (lines, r) = report_all(&vec![failing, full_device()]);
    assert!(lines.is_empty());
    assert_eq!(r, Err(QueryStep::Vendor));
}

#[test]
fn vendor_failure_keeps_earlier_devices() {
    let failing = DeviceProbe::Opened(DeviceData { vendor: None, formats: None, profiles: None });
    let (lines, r) = report_all(&vec![full_device(), failing, full_device()]);
    assert_eq!(r, Err(QueryStep::Vendor));
    assert_eq!(lines.len(), 6);
    assert_eq!(lines[0], "Vendor: Intel iHD driver");
    assert_eq!(lines[5], "      VLD: 4096x2160");
}

#[test]
fn open_failure_aborts_with_no_lines() {
    let (lines, r) = report_all(&vec![DeviceProbe::OpenFailed, full_device()]);
    assert!(lines.is_empty());
    assert_eq!(r, Err(QueryStep::OpenDisplay));
}

#[test]
fn format_query_failure_stops_after_header() {
    let d = DeviceProbe::Opened(DeviceData {
        vendor: Some("v".to_string()),
        formats: None,
        profiles: None,
    });
    let (lines, r) = report_all(&vec![d]);
    assert_eq!(lines, vec!["Vendor: v", "  Image Profiles:"]);
    assert_eq!(r, Err(QueryStep::ImageFormats));
}

#[test]
fn profile_query_failure_stops_after_header() {
    let d = DeviceProbe::Opened(DeviceData {
        vendor: Some("v".to_string()),
        formats: Some(Vec::new()),
        profiles: None,
    });
    let (lines, r) = report_all(&vec![d]);
    assert_eq!(lines, vec!["Vendor: v", "  Image Profiles:", "  Config Profiles:"]);
    assert_eq!(r, Err(QueryStep::ConfigProfiles));
}

#[test]
fn entrypoint_query_failure_stops_after_profile_header() {
    let d = DeviceProbe::Opened(DeviceData {
        vendor: Some("v".to_string()),
        formats: Some(Vec::new()),
        profiles: Some(vec![ProfileProbe { code: 7, entrypoints: None }]),
    });
    let (lines, r) = report_all(&vec![d]);
    assert_eq!(
        lines,
        vec!["Vendor: v", "  Image Profiles:", "  Config Profiles:", "    H264High:"]
    );
    assert_eq!(r, Err(QueryStep::Entrypoints));
}

#[test]
fn attribute_query_failure_stops_inside_profile() {
    let d = DeviceProbe::Opened(DeviceData {
        vendor: Some("v".to_string()),
        formats: Some(Vec::new()),
        profiles: Some(vec![ProfileProbe {
            code: 17,
            entrypoints: Some(vec![
                ep(1, 640, 480),
                EntrypointProbe { code: 6, attrs: None },
                ep(7, 320, 200),
            ]),
        }]),
    });
    let (lines, r) = report_all(&vec![d]);
    assert_eq!(
        lines,
        vec![
            "Vendor: v",
            "  Image Profiles:",
            "  Config Profiles:",
            "    HEVCMain:",
            "      VLD: 640x480",
        ]
    );
    assert_eq!(r, Err(QueryStep::Attributes));
}

#[test]
fn unknown_codes_render_as_unknown() {
    let d = DeviceProbe::Opened(DeviceData {
        vendor: Some("v".to_string()),
        formats: Some(Vec::new()),
        profiles: Some(vec![ProfileProbe { code: 99, entrypoints: Some(vec![ep(9, 1, 2)]) }]),
    });
    let (lines, r) = report_all(&vec![d]);
    assert_eq!(r, Ok(()));
    assert_eq!(lines[3], "    Unknown:");
    assert_eq!(lines[4], "      Unknown: 1x2");
}
