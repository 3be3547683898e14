//! Platform records and the queries over the host's report.

use ocl::platform::{Host, Platform, PlatformError, PlatformIdCore, PlatformInfo};

fn record(tag: &str) -> PlatformIdCore {
    PlatformIdCore {
        profile: "FULL_PROFILE".to_string(),
        version: format!("OpenCL 1.2 {}", tag),
        name: format!("{} platform", tag),
        vendor: format!("{} vendor", tag),
        extensions: "cl_khr_fp64 cl_khr_icd".to_string(),
    }
}

#[test]
fn info_returns_the_requested_field() {
    let p = Platform::new(record("alpha"));
    assert_eq!(p.info(PlatformInfo::Profile).value(), "FULL_PROFILE");
    assert_eq!(p.info(PlatformInfo::Version).value(), "OpenCL 1.2 alpha");
    assert_eq!(p.info(PlatformInfo::Name).value(), "alpha platform");
    assert_eq!(p.info(PlatformInfo::Vendor).value(), "alpha vendor");
    assert_eq!(p.info(PlatformInfo::Extensions).value(), "cl_khr_fp64 cl_khr_icd");
}

#[test]
fn string_getters_match_the_record() {
    let p = Platform::new(record("beta"));
    assert_eq!(p.profile(), "FULL_PROFILE");
    assert_eq!(p.version(), "OpenCL 1.2 beta");
    assert_eq!(p.name(), "beta platform");
    assert_eq!(p.vendor(), "beta vendor");
    assert_eq!(p.extensions(), "cl_khr_fp64 cl_khr_icd");
    assert_eq!(p.as_core().name, "beta platform");
}

#[test]
fn list_maps_every_reported_platform() {
    let host = Host::new(vec![record("a"), record("b")], 0);
    let list = Platform::list(&host);
    assert_eq!(list.len(), 2);
    assert_eq!(list[0].name(), "a platform");
    assert_eq!(list[1].name(), "b platform");
}

#[test]
fn list_from_core_wraps_each_record() {
    let list = Platform::list_from_core(vec![record("x"), record("y"), record("z")]);
    assert_eq!(list.len(), 3);
    assert_eq!(list[2].vendor(), "z vendor");
}

#[test]
fn first_respects_the_configured_default() {
    let host = Host::new(vec![record("a"), record("b")], 1);
    let by_default = Platform::first(&host, false).unwrap();
    assert_eq!(by_default.name(), "b platform");
    let ignoring = Platform::first(&host, true).unwrap();
    assert_eq!(ignoring.name(), "a platform");
}

#[test]
fn first_reports_an_empty_host() {
    let host = Host::new(Vec::new(), 0);
    assert_eq!(Platform::first(&host, true).unwrap_err(), PlatformError::NoPlatforms);
    assert_eq!(Platform::first(&host, false).unwrap_err(), PlatformError::NoPlatforms);
}

#[test]
fn first_reports_a_default_index_out_of_range() {
    let host = Host::new(vec![record("a")], 5);
    assert_eq!(
        Platform::first(&host, false).unwrap_err(),
        PlatformError::DefaultIndexOutOfRange
    );
    // Ignoring the configured index still succeeds.
    assert_eq!(Platform::first(&host, true).unwrap().name(), "a platform");
}

#[test]
fn fmt_info_renders_the_whole_record() {
    let p = Platform::new(PlatformIdCore {
        profile: "P".to_string(),
        version: "V".to_string(),
        name: "N".to_string(),
        vendor: "D".to_string(),
        extensions: "E".to_string(),
    });
    assert_eq!(
        p.fmt_info(),
        "Platform { Profile: P, Version: V, Name: N, Vendor: D, Extensions: E }"
    );
}

#[test]
fn clone_preserves_the_record() {
    let p = Platform::new(record("gamma"));
    let q = p.clone();
    assert_eq!(q.name(), p.name());
    let c = p.as_core().clone();
    assert_eq!(c.version, "OpenCL 1.2 gamma");
}
