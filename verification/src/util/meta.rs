//! Whether a newer release of the tool is out.

use crate::util::codeberg::semver_parses;
use crate::util::codeberg::version_parses;
use crate::util::codeberg::Release;
use crate::util::codeberg::ReleaseView;
use semver::Version;
use std::cmp::Ordering;
use vstd::prelude::*;

verus! {

/// The order of precedence of the versions that `version` and `other` spell,
/// as `semver::Version::cmp_precedence` gives it: by the three numbers, then
/// by the pre-release, and never by the build metadata. The rules are those
/// of the `semver` crate and are not written out here.
pub uninterp spec fn semver_precedence(version: Seq<char>, other: Seq<char>) -> Ordering;

/// Calls `semver::Version::cmp_precedence` on the two versions that
/// `semver::Version::parse` makes of the texts. Taken on trust: that the
/// order depends on the two texts alone, which is what gives
/// [`semver_precedence`] its meaning. Both texts have to spell versions.
#[verifier::external_body]
fn precedence(version: &str, other: &str) -> (order: Ordering)
    requires
        semver_parses(version@),
        semver_parses(other@),
    ensures
        order == semver_precedence(version@, other@),
{
    Version::parse(version).unwrap().cmp_precedence(&Version::parse(other).unwrap())
}

/// What a [`Meta`] stands for.
pub struct MetaView {
    /// The version of the running tool, as text.
    pub current_version: Seq<char>,
    /// The latest release.
    pub latest_release: ReleaseView,
    /// Whether the latest release is newer than the running tool.
    pub newer_version_available: bool,
}

/// The running tool's version beside the latest release.
#[derive(Debug)]
pub struct Meta {
    /// The version of the running tool, as text.
    pub current_version: String,
    /// The latest release.
    pub latest_release: Release,
    /// Whether the latest release is newer than the running tool.
    pub newer_version_available: bool,
}

impl View for Meta {
    type V = MetaView;

    open spec fn view(&self) -> MetaView {
        MetaView {
            current_version: self.current_version@,
            latest_release: self.latest_release@,
            newer_version_available: self.newer_version_available,
        }
    }
}

/// Whether a release is newer, from how the running version compares with
/// it: newer where the running version comes first.
pub fn is_newer(order: Ordering) -> (newer: bool)
    ensures
        newer == (order is Less),
{
    match order {
        Ordering::Less => true,
        Ordering::Equal => false,
        Ordering::Greater => false,
    }
}

impl Meta {
    /// Sets the running version beside the latest release. Both have to
    /// spell versions; [`Meta::checked`] tests that first.
    pub fn new(current_version: String, latest_release: Release) -> (meta: Meta)
        requires
            semver_parses(current_version@),
            semver_parses(latest_release@.version),
        ensures
            meta@ == (MetaView {
                current_version: current_version@,
                latest_release: latest_release@,
                newer_version_available: semver_precedence(
                    current_version@,
                    latest_release@.version,
                ) is Less,
            }),
    {
        let order = precedence(current_version.as_str(), latest_release.version.as_str());
        Meta { current_version, latest_release, newer_version_available: is_newer(order) }
    }

    /// Sets the running version beside the latest release where both spell
    /// versions; `None` where either does not.
    pub fn checked(current_version: String, latest_release: Release) -> (meta: Option<Meta>)
        ensures
            meta is Some == (semver_parses(current_version@) && semver_parses(
                latest_release@.version,
            )),
            meta matches Some(meta) ==> meta@ == (MetaView {
                current_version: current_version@,
                latest_release: latest_release@,
                newer_version_available: semver_precedence(
                    current_version@,
                    latest_release@.version,
                ) is Less,
            }),
    {
        if version_parses(current_version.as_str()) && version_parses(
            latest_release.version.as_str(),
        ) {
            Some(Meta::new(current_version, latest_release))
        } else {
            None
        }
    }
}

} // verus!
