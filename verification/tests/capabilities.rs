use vibe::dwm;
use vibe::dwm_win32::{is_win10_1809, is_win11, is_win11_22h2, is_win7};
use vibe::version::WindowsVersion;

fn build(build: u32) -> WindowsVersion {
    WindowsVersion::new(10, 0, build)
}

#[test]
fn win7_goes_by_major_and_minor() {
    assert!(is_win7(WindowsVersion::new(6, 1, 7601)));
    assert!(is_win7(WindowsVersion::new(10, 0, 19045)));
    assert!(is_win7(WindowsVersion::new(7, 0, 0)));
    assert!(!is_win7(WindowsVersion::new(6, 0, 6002)));
    assert!(!is_win7(WindowsVersion::new(5, 1, 2600)));
    assert!(!is_win7(WindowsVersion::new(0, 0, 0)));
}

#[test]
fn win7_holds_of_every_release_after_it() {
    assert!(is_win7(WindowsVersion::new(6, 2, 9200)));
    assert!(is_win7(WindowsVersion::new(6, 3, 9600)));
    assert!(is_win7(WindowsVersion::new(6, u32::MAX, 0)));
    assert!(is_win7(WindowsVersion::new(u32::MAX, 0, 0)));
}

#[test]
fn win7_stays_from_one_release_to_the_next() {
    let releases = [(5u32, 1u32), (6, 0), (6, 1), (6, 2), (6, 3), (10, 0), (11, 0)];
    for pair in releases.windows(2) {
        let now = WindowsVersion::new(pair[0].0, pair[0].1, 9600);
        let next = WindowsVersion::new(pair[1].0, pair[1].1, 9600);
        assert!(!is_win7(now) || is_win7(next));
    }
    assert!(!is_win7(WindowsVersion::new(6, 0, 9600)));
    assert!(is_win7(WindowsVersion::new(6, 1, 9600)));
}

#[test]
fn win7_does_not_look_at_the_build() {
    assert_eq!(
        is_win7(WindowsVersion::new(6, 1, 0)),
        is_win7(WindowsVersion::new(6, 1, u32::MAX))
    );
    assert_eq!(
        is_win7(WindowsVersion::new(6, 0, 0)),
        is_win7(WindowsVersion::new(6, 0, u32::MAX))
    );
}

#[test]
fn win10_1809_begins_at_17763() {
    assert!(!is_win10_1809(build(17762)));
    assert!(is_win10_1809(build(17763)));
    assert!(is_win10_1809(build(19045)));
}

#[test]
fn win10_1809_holds_on_windows_11_too() {
    assert!(is_win10_1809(build(21999)));
    assert!(is_win10_1809(build(22000)));
    assert!(is_win10_1809(build(22621)));
    assert!(is_win10_1809(build(u32::MAX)));
    assert!(is_win11(build(22000)));
}

#[test]
fn win11_begins_at_22000() {
    assert!(!is_win11(build(21999)));
    assert!(is_win11(build(22000)));
    assert!(is_win11(build(u32::MAX)));
}

#[test]
fn win11_22h2_begins_at_22621() {
    assert!(!is_win11_22h2(build(22620)));
    assert!(is_win11_22h2(build(22621)));
    assert!(is_win11_22h2(build(u32::MAX)));
}

#[test]
fn capabilities_stay_from_one_build_to_the_next() {
    let edges = [
        0u32, 17762, 17763, 21998, 21999, 22000, 22522, 22523, 22620, 22621, 30000,
    ];
    for n in edges {
        let now = build(n);
        let next = build(n + 1);
        assert!(!is_win7(now) || is_win7(next));
        assert!(!is_win11(now) || is_win11(next));
        assert!(!is_win11_22h2(now) || is_win11_22h2(next));
        assert!(!is_win10_1809(now) || is_win10_1809(next));
        assert!(!dwm::is_win11(now) || dwm::is_win11(next));
        assert!(!dwm::is_win11_dwmsbt(now) || dwm::is_win11_dwmsbt(next));
        assert!(!dwm::is_win10_swca(now) || dwm::is_win10_swca(next));
    }
}

#[test]
fn preview_capabilities_have_their_own_threshold() {
    assert!(!dwm::is_win11_dwmsbt(build(22522)));
    assert!(dwm::is_win11_dwmsbt(build(22523)));
    assert!(!dwm::is_win10_swca(build(17762)));
    assert!(dwm::is_win10_swca(build(17763)));
    assert!(dwm::is_win10_swca(build(21999)));
    assert!(dwm::is_win10_swca(build(22000)));
    assert!(dwm::is_win10_swca(build(u32::MAX)));
    assert!(!dwm::is_win11(build(21999)));
    assert!(dwm::is_win11(build(22000)));
}

#[test]
fn a_query_that_failed_reports_nothing() {
    assert_eq!(WindowsVersion::from_query(-1, 10, 0, 22621), None);
    assert_eq!(WindowsVersion::from_query(i32::MIN, 10, 0, 22621), None);
}

#[test]
fn a_query_that_succeeded_reports_its_numbers() {
    assert_eq!(
        WindowsVersion::from_query(0, 10, 0, 22621),
        Some(WindowsVersion { major: 10, minor: 0, build: 22621 })
    );
    assert_eq!(
        WindowsVersion::from_query(1, 6, 1, 7601),
        Some(WindowsVersion { major: 6, minor: 1, build: 7601 })
    );
}

#[test]
fn no_report_means_the_unknown_version() {
    assert_eq!(WindowsVersion::or_unknown(None), WindowsVersion { major: 0, minor: 0, build: 0 });
    assert_eq!(WindowsVersion::unknown(), WindowsVersion { major: 0, minor: 0, build: 0 });
    let reported = WindowsVersion::new(10, 0, 19045);
    assert_eq!(WindowsVersion::or_unknown(Some(reported)), reported);
}

#[test]
fn the_unknown_version_has_no_capability() {
    let unknown = WindowsVersion::unknown();
    assert!(!is_win7(unknown));
    assert!(!is_win10_1809(unknown));
    assert!(!is_win11(unknown));
    assert!(!is_win11_22h2(unknown));
    assert!(!dwm::is_win10_swca(unknown));
    assert!(!dwm::is_win11(unknown));
    assert!(!dwm::is_win11_dwmsbt(unknown));
}
