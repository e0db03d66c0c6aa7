//! Releases of the tool as its forge lists them. Asking the forge is left to
//! the caller; what it answered is checked here.

use semver::Version;
use vstd::prelude::*;
use vstd::string::StringExecFns;

verus! {

/// Whether `semver::Version::parse` accepts `text` as a version: three
/// numbers without leading zeros, then an optional pre-release and optional
/// build metadata. The rules are those of the `semver` crate and are not
/// written out here.
pub uninterp spec fn semver_parses(text: Seq<char>) -> bool;

/// Calls `semver::Version::parse` and says whether it accepted `text`. Taken
/// on trust: that the answer depends on the text alone, which is what gives
/// [`semver_parses`] its meaning.
#[verifier::external_body]
pub(crate) fn version_parses(text: &str) -> (ok: bool)
    ensures
        ok == semver_parses(text@),
{
    Version::parse(text).is_ok()
}

/// What a [`Release`] stands for.
pub struct ReleaseView {
    /// The release's version, as text.
    pub version: Seq<char>,
    /// Where to download the release.
    pub download_url: Seq<char>,
}

/// A release of the tool.
#[derive(Debug)]
pub struct Release {
    /// The release's version, as text.
    pub version: String,
    /// Where to download the release.
    pub download_url: String,
}

impl View for Release {
    type V = ReleaseView;

    open spec fn view(&self) -> ReleaseView {
        ReleaseView { version: self.version@, download_url: self.download_url@ }
    }
}

impl Default for Release {
    /// The release to assume where the forge gave no answer: version 0.0.0,
    /// to be had nowhere.
    fn default() -> (release: Release)
        ensures
            release@ == (ReleaseView { version: "0.0.0"@, download_url: Seq::empty() }),
    {
        Release { version: String::from_str("0.0.0"), download_url: String::new() }
    }
}

/// Makes a release of what the forge answered: the tag's name is the
/// version, and the first asset is the download. `None` where the tag's name
/// spells no version, and only there.
pub fn get_latest_release(tag_name: String, browser_download_urls: &Vec<String>) -> (release:
    Option<Release>)
    requires
        browser_download_urls@.len() > 0,
    ensures
        match release {
            Some(release) => semver_parses(tag_name@) && release@ == (ReleaseView {
                version: tag_name@,
                download_url: browser_download_urls@[0]@,
            }),
            None => !semver_parses(tag_name@),
        },
{
    if version_parses(tag_name.as_str()) {
        Some(Release { version: tag_name, download_url: browser_download_urls[0].clone() })
    } else {
        None
    }
}

} // verus!
