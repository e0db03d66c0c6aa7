use gta_tools::util::codeberg::get_latest_release;
use gta_tools::util::codeberg::Release;
use gta_tools::util::meta::is_newer;
use gta_tools::util::meta::Meta;
use std::cmp::Ordering;

fn release(version: &str) -> Release {
    Release { version: version.to_string(), download_url: "https://example.org/tool.exe".to_string() }
}

fn newer(current: &str, latest: &str) -> Option<bool> {
    Meta::checked(current.to_string(), release(latest)).map(|meta| meta.newer_version_available)
}

#[test]
fn default_release_is_version_zero() {
    let r = Release::default();
    assert_eq!(r.version, "0.0.0");
    assert_eq!(r.download_url, "");
}

#[test]
fn release_from_a_good_answer() {
    let urls = vec!["https://example.org/a.exe".to_string(), "https://example.org/b.zip".to_string()];
    let r = get_latest_release("1.4.2".to_string(), &urls).unwrap();
    assert_eq!(r.version, "1.4.2");
    assert_eq!(r.download_url, "https://example.org/a.exe");
}

#[test]
fn release_from_a_bad_tag() {
    let urls = vec!["https://example.org/a.exe".to_string()];
    assert!(get_latest_release("v1.4.2".to_string(), &urls).is_none());
    assert!(get_latest_release("1.4".to_string(), &urls).is_none());
    assert!(get_latest_release("".to_string(), &urls).is_none());
    assert!(get_latest_release("1.0.01".to_string(), &urls).is_none());
    assert!(get_latest_release("1.0.0-".to_string(), &urls).is_none());
    assert!(get_latest_release("23456789999999999999.0.0".to_string(), &urls).is_none());
}

#[test]
fn later_release_is_newer() {
    assert_eq!(newer("1.0.0", "1.0.1"), Some(true));
    assert_eq!(newer("1.0.9", "1.1.0"), Some(true));
    assert_eq!(newer("1.9.9", "2.0.0"), Some(true));
    assert_eq!(newer("1.9.0", "1.10.0"), Some(true));
}

#[test]
fn same_or_earlier_release_is_not_newer() {
    assert_eq!(newer("1.0.0", "1.0.0"), Some(false));
    assert_eq!(newer("1.0.1", "1.0.0"), Some(false));
    assert_eq!(newer("2.0.0", "1.99.99"), Some(false));
    assert_eq!(newer("1.0.0", "0.0.0"), Some(false));
}

#[test]
fn pre_release_comes_before_its_release() {
    assert_eq!(newer("1.0.0-alpha", "1.0.0"), Some(true));
    assert_eq!(newer("1.0.0", "1.0.0-alpha"), Some(false));
    assert_eq!(newer("1.0.0-alpha", "1.0.0-beta"), Some(true));
    assert_eq!(newer("1.0.0-alpha.2", "1.0.0-alpha.10"), Some(true));
    assert_eq!(newer("0.0.0-dev", "0.0.0"), Some(true));
}

#[test]
fn build_metadata_does_not_count() {
    assert_eq!(newer("1.20.0+c144a98", "1.20.0+bc17664"), Some(false));
    assert_eq!(newer("1.20.0+bc17664", "1.20.0+c144a98"), Some(false));
    assert_eq!(newer("1.20.0", "1.20.0+c144a98"), Some(false));
}

#[test]
fn text_that_spells_no_version_gives_nothing() {
    assert_eq!(newer("one", "1.0.0"), None);
    assert_eq!(newer("1.0.0", "latest"), None);
    assert_eq!(newer("", ""), None);
    assert_eq!(newer("1.0", "1.0.0"), None);
}

#[test]
fn meta_keeps_what_it_was_given() {
    let meta = Meta::checked("1.2.3".to_string(), release("2.0.0")).unwrap();
    assert_eq!(meta.current_version, "1.2.3");
    assert_eq!(meta.latest_release.version, "2.0.0");
    assert_eq!(meta.latest_release.download_url, "https://example.org/tool.exe");
    assert!(meta.newer_version_available);
    let meta = Meta::new("3.0.0".to_string(), release("2.0.0"));
    assert!(!meta.newer_version_available);
    let meta = Meta::new("1.0.0".to_string(), Release::default());
    assert!(!meta.newer_version_available);
    assert_eq!(meta.latest_release.version, "0.0.0");
}

#[test]
fn newer_means_the_running_version_comes_first() {
    assert!(is_newer(Ordering::Less));
    assert!(!is_newer(Ordering::Equal));
    assert!(!is_newer(Ordering::Greater));
}
