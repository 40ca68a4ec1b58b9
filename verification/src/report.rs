//! Rendering of the capability report.
//!
//! The caller performs the queries against a device and records what each
//! returned in a probe value: `None` in a field stands for a failed query,
//! recorded at the first failure with nothing queried after it.  The
//! functions here turn probes into the exact report lines and surface the
//! first failed step, which is fatal to the whole run.

use vstd::prelude::*;
use vstd::string::*;
use crate::decfmt::spec_decimal;
use crate::decfmt::u32_to_decimal;
use crate::entrypoint::Entrypoint;
use crate::entrypoint::entrypoint_of_code;
use crate::fourcc::fourcc_to_string;
use crate::fourcc::spec_fourcc_string;
use crate::profile::Profile;
use crate::profile::profile_of_code;

verus! {

/// A supported pixel layout: its packed four-character code and the
/// remaining descriptor fields, already rendered as text by the caller.
pub struct FormatInfo {
    pub fourcc: u32,
    pub detail: String,
}

/// The two resolution limits queried per (profile, entry point).
#[derive(Clone, Copy, PartialEq, Eq, Structural, Debug)]
pub struct AttribPair {
    pub max_width: u32,
    pub max_height: u32,
}

/// One supported entry point of a profile: its raw code and the result of
/// the attribute query, `None` where that query failed.
#[derive(Clone, Copy, PartialEq, Eq, Structural, Debug)]
pub struct EntrypointProbe {
    pub code: u32,
    pub attrs: Option<AttribPair>,
}

/// One supported profile of a device: its raw code and the entry points the
/// device reported for it, `None` where that query failed.
pub struct ProfileProbe {
    pub code: i32,
    pub entrypoints: Option<Vec<EntrypointProbe>>,
}

/// Everything queried from one opened device, each field `None` where the
/// query failed; nothing after the first failure was queried.
pub struct DeviceData {
    pub vendor: Option<String>,
    pub formats: Option<Vec<FormatInfo>>,
    pub profiles: Option<Vec<ProfileProbe>>,
}

/// One discovered device: either its session could not be opened, or the
/// data the opened session returned.
pub enum DeviceProbe {
    OpenFailed,
    Opened(DeviceData),
}

/// The query step at which a run failed.
#[derive(Clone, Copy, PartialEq, Eq, Structural, Debug)]
pub enum QueryStep {
    OpenDisplay,
    Vendor,
    ImageFormats,
    ConfigProfiles,
    Entrypoints,
    Attributes,
}

/// The report line for one pixel format.
pub open spec fn format_line(f: FormatInfo) -> Seq<char> {
    "    "@ + spec_fourcc_string(f.fourcc) + ": "@ + f.detail@
}

/// The header line for one profile.
pub open spec fn profile_header(code: i32) -> Seq<char> {
    "    "@ + profile_of_code(code as int).spec_name() + ":"@
}

/// The report line for one entry point with its resolution limits.
pub open spec fn entrypoint_line(code: u32, a: AttribPair) -> Seq<char> {
    "      "@ + entrypoint_of_code(code as int).spec_name() + ": "@ + spec_decimal(
        a.max_width as nat,
    ) + "x"@ + spec_decimal(a.max_height as nat)
}

/// The lines for a profile's entry points, up to the first failed attribute
/// query, which ends the report.
pub open spec fn entrypoints_lines(eps: Seq<EntrypointProbe>) -> Seq<Seq<char>>
    decreases eps.len(),
{
    if eps.len() == 0 {
        Seq::empty()
    } else {
        match eps[0].attrs {
            Some(a) => seq![entrypoint_line(eps[0].code, a)] + entrypoints_lines(eps.skip(1)),
            None => Seq::empty(),
        }
    }
}

/// Whether every attribute query of a profile's entry points succeeded.
pub open spec fn entrypoints_ok(eps: Seq<EntrypointProbe>) -> bool
    decreases eps.len(),
{
    eps.len() == 0 || (eps[0].attrs is Some && entrypoints_ok(eps.skip(1)))
}

/// The outcome over a profile's entry points: the attribute query is the
/// only one that can fail here.
pub open spec fn entrypoints_result(eps: Seq<EntrypointProbe>) -> Result<(), QueryStep> {
    if entrypoints_ok(eps) {
        Ok(())
    } else {
        Err(QueryStep::Attributes)
    }
}

/// The lines for one profile: its header, then its entry points as far as
/// their queries succeeded.
pub open spec fn profile_lines(p: ProfileProbe) -> Seq<Seq<char>> {
    match p.entrypoints {
        Some(eps) => seq![profile_header(p.code)] + entrypoints_lines(eps@),
        None => seq![profile_header(p.code)],
    }
}

/// The outcome of one profile's queries: the first failed step, if any.
pub open spec fn profile_result(p: ProfileProbe) -> Result<(), QueryStep> {
    match p.entrypoints {
        Some(eps) => entrypoints_result(eps@),
        None => Err(QueryStep::Entrypoints),
    }
}

/// The lines for a device's profiles, up to and including the partial lines
/// of the first failing profile.
pub open spec fn profiles_lines(ps: Seq<ProfileProbe>) -> Seq<Seq<char>>
    decreases ps.len(),
{
    if ps.len() == 0 {
        Seq::empty()
    } else if profile_result(ps[0]) is Ok {
        profile_lines(ps[0]) + profiles_lines(ps.skip(1))
    } else {
        profile_lines(ps[0])
    }
}

/// The outcome over a sequence of profiles: the first failed step, if any.
pub open spec fn profiles_result(ps: Seq<ProfileProbe>) -> Result<(), QueryStep>
    decreases ps.len(),
{
    if ps.len() == 0 {
        Ok(())
    } else if profile_result(ps[0]) is Ok {
        profiles_result(ps.skip(1))
    } else {
        profile_result(ps[0])
    }
}

/// The report lines for a list of pixel formats, one per format.
pub open spec fn formats_lines(fs: Seq<FormatInfo>) -> Seq<Seq<char>> {
    fs.map_values(|f: FormatInfo| format_line(f))
}

/// The vendor line of a device block.
pub open spec fn vendor_line(v: Seq<char>) -> Seq<char> {
    "Vendor: "@ + v
}

/// The whole block of lines for one opened device, in query order, cut off
/// at the first failed query.  Headers precede the query whose results they
/// announce, so a failed list query still leaves its header printed.
pub open spec fn device_lines(d: DeviceData) -> Seq<Seq<char>> {
    match d.vendor {
        None => Seq::empty(),
        Some(v) => {
            let head = seq![vendor_line(v@), "  Image Profiles:"@];
            match d.formats {
                None => head,
                Some(fs) => {
                    let mid = head + formats_lines(fs@) + seq!["  Config Profiles:"@];
                    match d.profiles {
                        None => mid,
                        Some(ps) => mid + profiles_lines(ps@),
                    }
                },
            }
        },
    }
}

/// The outcome of one opened device's queries: the first failed step, if
/// any.
pub open spec fn device_result(d: DeviceData) -> Result<(), QueryStep> {
    if d.vendor is None {
        Err(QueryStep::Vendor)
    } else if d.formats is None {
        Err(QueryStep::ImageFormats)
    } else if d.profiles is None {
        Err(QueryStep::ConfigProfiles)
    } else {
        profiles_result(d.profiles->0@)
    }
}

/// The lines one discovered device contributes: none where its session
/// could not be opened.
pub open spec fn probe_lines(p: DeviceProbe) -> Seq<Seq<char>> {
    match p {
        DeviceProbe::OpenFailed => Seq::empty(),
        DeviceProbe::Opened(d) => device_lines(d),
    }
}

/// The outcome of one discovered device.
pub open spec fn probe_result(p: DeviceProbe) -> Result<(), QueryStep> {
    match p {
        DeviceProbe::OpenFailed => Err(QueryStep::OpenDisplay),
        DeviceProbe::Opened(d) => device_result(d),
    }
}

/// The lines of the whole run: each device's block in order, ending with
/// the partial block of the first failing device; devices after a failure
/// contribute nothing.
pub open spec fn run_lines(ds: Seq<DeviceProbe>) -> Seq<Seq<char>>
    decreases ds.len(),
{
    if ds.len() == 0 {
        Seq::empty()
    } else if probe_result(ds[0]) is Ok {
        probe_lines(ds[0]) + run_lines(ds.skip(1))
    } else {
        probe_lines(ds[0])
    }
}

/// The outcome of the whole run: `Ok` only when every query of every device
/// succeeded; otherwise the step of the first failure.
pub open spec fn run_result(ds: Seq<DeviceProbe>) -> Result<(), QueryStep>
    decreases ds.len(),
{
    if ds.len() == 0 {
        Ok(())
    } else if probe_result(ds[0]) is Ok {
        run_result(ds.skip(1))
    } else {
        probe_result(ds[0])
    }
}

/// A profile whose entry-point list came back empty contributes its header
/// line and nothing else, counts as fully reported, and the run goes on
/// with the profiles after it.
pub proof fn lemma_profile_without_entrypoints(ps: Seq<ProfileProbe>)
    requires
        ps.len() > 0,
        ps[0].entrypoints matches Some(eps) && eps@.len() == 0,
    ensures
        profile_lines(ps[0]) == seq![profile_header(ps[0].code)],
        profile_result(ps[0]) is Ok,
        profiles_lines(ps) == seq![profile_header(ps[0].code)] + profiles_lines(ps.skip(1)),
{
    assert(profile_lines(ps[0]) =~~= seq![profile_header(ps[0].code)]);
}

/// A device whose vendor query failed contributes no lines at all, and the
/// run aborts there: devices before it are reported in full, devices after
/// it contribute nothing, and the whole run fails at the vendor step.
pub proof fn lemma_vendor_failure_aborts(ds: Seq<DeviceProbe>, i: int)
    requires
        0 <= i < ds.len(),
        forall|j: int| 0 <= j < i ==> (#[trigger] probe_result(ds[j])) is Ok,
        ds[i] matches DeviceProbe::Opened(dd) && dd.vendor is None,
    ensures
        run_result(ds) == Err::<(), QueryStep>(QueryStep::Vendor),
        probe_lines(ds[i]) == Seq::<Seq<char>>::empty(),
        run_lines(ds) == run_lines(ds.take(i)),
    decreases i,
{
    if i == 0 {
        assert(run_lines(ds.take(0)).len() == 0);
        assert(run_lines(ds) =~~= run_lines(ds.take(0)));
    } else {
        let tail = ds.skip(1);
        assert(tail[i - 1] == ds[i]);
        assert(forall|j: int| 0 <= j < i - 1 ==> (#[trigger] probe_result(tail[j])) is Ok);
        lemma_vendor_failure_aborts(tail, i - 1);
        assert(ds.take(i)[0] == ds[0]);
        assert(ds.take(i).skip(1) =~= tail.take(i - 1));
        assert(run_lines(ds) =~~= run_lines(ds.take(i)));
    }
}

/// Renders the entry points of one profile from position `i` on, appending
/// one line per entry point until the first failed attribute query.
fn render_entrypoints(eps: &Vec<EntrypointProbe>, i: usize, out: &mut Vec<String>) -> (r: Result<
    (),
    QueryStep,
>)
    requires
        i <= eps@.len(),
    ensures
        final(out).deep_view() == old(out).deep_view() + entrypoints_lines(eps@.skip(i as int)),
        r == entrypoints_result(eps@.skip(i as int)),
    decreases eps@.len() - i,
{
    if i == eps.len() {
        proof {
            assert(final(out).deep_view() =~~= old(out).deep_view() + entrypoints_lines(
                eps@.skip(i as int),
            ));
        }
        Ok(())
    } else {
        let ep = eps[i];
        match ep.attrs {
            None => {
                proof {
                    assert(eps@.skip(i as int)[0] == eps@[i as int]);
                    assert(final(out).deep_view() =~~= old(out).deep_view() + entrypoints_lines(
                        eps@.skip(i as int),
                    ));
                }
                Err(QueryStep::Attributes)
            },
            Some(a) => {
                let mut line = String::from_str("      ");
                line.append(Entrypoint::from_code(ep.code).name().as_str());
                line.append(": ");
                line.append(u32_to_decimal(a.max_width).as_str());
                line.append("x");
                line.append(u32_to_decimal(a.max_height).as_str());
                proof {
                    assert(line@ =~= entrypoint_line(ep.code, a));
                }
                out.push(line);
                let ghost mid = out.deep_view();
                proof {
                    assert(mid =~~= old(out).deep_view().push(entrypoint_line(ep.code, a)));
                }
                let r = render_entrypoints(eps, i + 1, out);
                proof {
                    assert(eps@.skip(i as int).skip(1) =~= eps@.skip(i + 1));
                    assert(final(out).deep_view() =~~= old(out).deep_view() + entrypoints_lines(
                        eps@.skip(i as int),
                    ));
                }
                r
            },
        }
    }
}

/// Renders one profile: its header line, then its entry points.
fn render_profile(p: &ProfileProbe, out: &mut Vec<String>) -> (r: Result<(), QueryStep>)
    ensures
        final(out).deep_view() == old(out).deep_view() + profile_lines(*p),
        r == profile_result(*p),
{
    let mut header = String::from_str("    ");
    header.append(Profile::from_code(p.code).name().as_str());
    header.append(":");
    proof {
        assert(header@ =~= profile_header(p.code));
    }
    out.push(header);
    let ghost mid = out.deep_view();
    proof {
        assert(mid =~~= old(out).deep_view().push(profile_header(p.code)));
    }
    match &p.entrypoints {
        None => {
            proof {
                assert(final(out).deep_view() =~~= old(out).deep_view() + profile_lines(*p));
            }
            Err(QueryStep::Entrypoints)
        },
        Some(eps) => {
            let r = render_entrypoints(eps, 0, out);
            proof {
                assert(eps@.skip(0) =~= eps@);
                assert(final(out).deep_view() =~~= old(out).deep_view() + profile_lines(*p));
            }
            r
        },
    }
}

/// Renders a device's profiles from position `i` on, stopping after the
/// first failing profile.
fn render_profiles(ps: &Vec<ProfileProbe>, i: usize, out: &mut Vec<String>) -> (r: Result<
    (),
    QueryStep,
>)
    requires
        i <= ps@.len(),
    ensures
        final(out).deep_view() == old(out).deep_view() + profiles_lines(ps@.skip(i as int)),
        r == profiles_result(ps@.skip(i as int)),
    decreases ps@.len() - i,
{
    if i == ps.len() {
        proof {
            assert(final(out).deep_view() =~~= old(out).deep_view() + profiles_lines(
                ps@.skip(i as int),
            ));
        }
        Ok(())
    } else {
        let r0 = render_profile(&ps[i], out);
        match r0 {
            Ok(()) => {
                let ghost mid = out.deep_view();
                let r = render_profiles(ps, i + 1, out);
                proof {
                    assert(ps@.skip(i as int).skip(1) =~= ps@.skip(i + 1));
                    assert(final(out).deep_view() =~~= old(out).deep_view() + profiles_lines(
                        ps@.skip(i as int),
                    ));
                }
                r
            },
            Err(step) => {
                proof {
                    assert(final(out).deep_view() =~~= old(out).deep_view() + profiles_lines(
                        ps@.skip(i as int),
                    ));
                }
                Err(step)
            },
        }
    }
}

/// Renders the pixel-format lines from position `i` on; the format-list
/// query either returned the whole list or nothing, so no line can fail
/// here.
fn render_formats(fs: &Vec<FormatInfo>, i: usize, out: &mut Vec<String>)
    requires
        i <= fs@.len(),
    ensures
        final(out).deep_view() == old(out).deep_view() + formats_lines(fs@.skip(i as int)),
    decreases fs@.len() - i,
{
    if i == fs.len() {
        proof {
            assert(final(out).deep_view() =~~= old(out).deep_view() + formats_lines(
                fs@.skip(i as int),
            ));
        }
    } else {
        let mut line = String::from_str("    ");
        line.append(fourcc_to_string(fs[i].fourcc).as_str());
        line.append(": ");
        line.append(fs[i].detail.as_str());
        proof {
            assert(line@ =~= format_line(fs@[i as int]));
        }
        out.push(line);
        render_formats(fs, i + 1, out);
        proof {
            assert(final(out).deep_view() =~~= old(out).deep_view() + formats_lines(
                fs@.skip(i as int),
            ));
        }
    }
}

/// Renders the whole block of one opened device, in query order, stopping
/// at the first failed query; nothing of a section is printed when the query
/// before it failed.
pub fn render_device(d: &DeviceData, out: &mut Vec<String>) -> (r: Result<(), QueryStep>)
    ensures
        final(out).deep_view() == old(out).deep_view() + device_lines(*d),
        r == device_result(*d),
{
    match &d.vendor {
        None => {
            proof {
                assert(final(out).deep_view() =~~= old(out).deep_view() + device_lines(*d));
            }
            Err(QueryStep::Vendor)
        },
        Some(v) => {
            let ghost head = seq![vendor_line(v@), "  Image Profiles:"@];
            let mut first = String::from_str("Vendor: ");
            first.append(v.as_str());
            proof {
                assert(first@ =~= vendor_line(v@));
            }
            out.push(first);
            out.push(String::from_str("  Image Profiles:"));
            proof {
                assert(out.deep_view() =~~= old(out).deep_view() + head);
            }
            match &d.formats {
                None => {
                    proof {
                        assert(device_lines(*d) == head);
                    }
                    Err(QueryStep::ImageFormats)
                },
                Some(fs) => {
                    let ghost before_formats = out.deep_view();
                    render_formats(fs, 0, out);
                    proof {
                        assert(fs@.skip(0) =~= fs@);
                        assert(out.deep_view() == before_formats + formats_lines(fs@));
                    }
                    out.push(String::from_str("  Config Profiles:"));
                    let ghost mid = out.deep_view();
                    proof {
                        assert(mid =~~= (before_formats + formats_lines(fs@)).push(
                            "  Config Profiles:"@,
                        ));
                        assert(mid =~~= old(out).deep_view() + (head + formats_lines(fs@) + seq![
                            "  Config Profiles:"@,
                        ]));
                    }
                    match &d.profiles {
                        None => {
                            proof {
                                assert(device_lines(*d) == head + formats_lines(fs@) + seq![
                                    "  Config Profiles:"@,
                                ]);
                            }
                            Err(QueryStep::ConfigProfiles)
                        },
                        Some(ps) => {
                            let r = render_profiles(ps, 0, out);
                            proof {
                                assert(ps@.skip(0) =~= ps@);
                                assert(out.deep_view() == mid + profiles_lines(ps@));
                                assert(out.deep_view() =~~= old(out).deep_view() + (head
                                    + formats_lines(fs@) + seq!["  Config Profiles:"@]
                                    + profiles_lines(ps@)));
                                assert(device_lines(*d) == head + formats_lines(fs@) + seq![
                                    "  Config Profiles:"@,
                                ] + profiles_lines(ps@));
                            }
                            r
                        },
                    }
                },
            }
        },
    }
}

/// Renders the block of one discovered device.
pub fn report_device(p: &DeviceProbe, out: &mut Vec<String>) -> (r: Result<(), QueryStep>)
    ensures
        final(out).deep_view() == old(out).deep_view() + probe_lines(*p),
        r == probe_result(*p),
{
    match p {
        DeviceProbe::OpenFailed => {
            proof {
                assert(final(out).deep_view() =~~= old(out).deep_view() + probe_lines(*p));
            }
            Err(QueryStep::OpenDisplay)
        },
        DeviceProbe::Opened(d) => render_device(d, out),
    }
}

/// Renders the run from device `i` on.
fn report_from(ds: &Vec<DeviceProbe>, i: usize, out: &mut Vec<String>) -> (r: Result<
    (),
    QueryStep,
>)
    requires
        i <= ds@.len(),
    ensures
        final(out).deep_view() == old(out).deep_view() + run_lines(ds@.skip(i as int)),
        r == run_result(ds@.skip(i as int)),
    decreases ds@.len() - i,
{
    if i == ds.len() {
        proof {
            assert(final(out).deep_view() =~~= old(out).deep_view() + run_lines(
                ds@.skip(i as int),
            ));
        }
        Ok(())
    } else {
        let r0 = report_device(&ds[i], out);
        match r0 {
            Ok(()) => {
                let r = report_from(ds, i + 1, out);
                proof {
                    assert(ds@.skip(i as int).skip(1) =~= ds@.skip(i + 1));
                    assert(final(out).deep_view() =~~= old(out).deep_view() + run_lines(
                        ds@.skip(i as int),
                    ));
                }
                r
            },
            Err(step) => {
                proof {
                    assert(final(out).deep_view() =~~= old(out).deep_view() + run_lines(
                        ds@.skip(i as int),
                    ));
                }
                Err(step)
            },
        }
    }
}

/// Renders the whole run: each device's lines in order, cut off at the
/// first failed query, whose step is the run's failure.  Zero devices yield
/// no lines and success.
pub fn report_all(ds: &Vec<DeviceProbe>) -> (r: (Vec<String>, Result<(), QueryStep>))
    ensures
        r.0.deep_view() == run_lines(ds@),
        r.1 == run_result(ds@),
        ds@.len() == 0 ==> r.0@.len() == 0 && r.1 is Ok,
{
    let mut out: Vec<String> = Vec::new();
    let res = report_from(ds, 0, &mut out);
    proof {
        assert(ds@.skip(0) =~= ds@);
    }
    (out, res)
}

} // verus!
