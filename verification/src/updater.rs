//! Deciding whether a published release is newer than the running program.

use std::cmp::Ordering;
use vstd::prelude::*;
use vstd::string::StringExecFns;
use crate::config::option_text;
use crate::text::{ends_with, has_suffix, strip_lead, without_lead};
use crate::version::{compare_parts, parse_version, version_order, version_parts, VersionOrder};

verus! {

/// A release that is newer than the running program.
#[derive(Debug, PartialEq, Eq)]
pub struct UpdateInfo {
    pub version: String,
    pub release_url: String,
    pub dmg_download_url: Option<String>,
}

/// The mathematical value of an `UpdateInfo`.
pub struct UpdateInfoView {
    pub version: Seq<char>,
    pub release_url: Seq<char>,
    pub dmg_download_url: Option<Seq<char>>,
}

impl View for UpdateInfo {
    type V = UpdateInfoView;

    open spec fn view(&self) -> UpdateInfoView {
        UpdateInfoView {
            version: self.version@,
            release_url: self.release_url@,
            dmg_download_url: option_text(self.dmg_download_url),
        }
    }
}

/// A file attached to a release.
#[derive(Debug, PartialEq, Eq)]
pub struct GitHubAsset {
    pub name: String,
    pub browser_download_url: String,
}

/// A release as the hosting service describes it.
#[derive(Debug, PartialEq, Eq)]
pub struct GitHubRelease {
    pub tag_name: String,
    pub html_url: String,
    pub assets: Vec<GitHubAsset>,
}

/// The mathematical value of a `GitHubRelease`; each asset is its name and
/// its download address.
pub struct GitHubReleaseView {
    pub tag_name: Seq<char>,
    pub html_url: Seq<char>,
    pub assets: Seq<(Seq<char>, Seq<char>)>,
}

impl View for GitHubRelease {
    type V = GitHubReleaseView;

    open spec fn view(&self) -> GitHubReleaseView {
        GitHubReleaseView {
            tag_name: self.tag_name@,
            html_url: self.html_url@,
            assets: Seq::new(
                self.assets@.len(),
                |i: int| (self.assets@[i].name@, self.assets@[i].browser_download_url@),
            ),
        }
    }
}

/// The standard ordering that says how the remote version stands to the
/// current one: greater when the remote one is newer.
pub open spec fn ordering_of(order: VersionOrder) -> Ordering {
    match order {
        VersionOrder::Older => Ordering::Less,
        VersionOrder::Same => Ordering::Equal,
        VersionOrder::Newer => Ordering::Greater,
    }
}

/// Compares two date-based versions such as `2026.6.0` and `2026.7.0`, number
/// by number. The result is `Greater` when `remote` is newer than `current`.
pub fn compare_versions(current: &str, remote: &str) -> (r: Ordering)
    ensures
        r == ordering_of(version_order(version_parts(current@), version_parts(remote@))),
{
    let current_parts = parse_version(current);
    let remote_parts = parse_version(remote);
    match compare_parts(&current_parts, &remote_parts) {
        VersionOrder::Older => Ordering::Less,
        VersionOrder::Same => Ordering::Equal,
        VersionOrder::Newer => Ordering::Greater,
    }
}

/// The download address of the first asset at or after position `from` whose
/// name ends in `.dmg`.
pub open spec fn first_dmg_from(assets: Seq<(Seq<char>, Seq<char>)>, from: int) -> Option<
    Seq<char>,
>
    decreases assets.len() - from,
{
    if from < 0 || from >= assets.len() {
        None
    } else if has_suffix(assets[from].0, ".dmg"@) {
        Some(assets[from].1)
    } else {
        first_dmg_from(assets, from + 1)
    }
}

/// The update that a release amounts to for a program of version `current`:
/// none unless the release's tag, without a leading `v`, is a newer version.
pub open spec fn update_for(current: Seq<char>, release: GitHubReleaseView) -> Option<
    UpdateInfoView,
> {
    let remote = without_lead(release.tag_name, 'v');
    if version_order(version_parts(current), version_parts(remote)) is Newer {
        Some(
            UpdateInfoView {
                version: remote,
                release_url: release.html_url,
                dmg_download_url: first_dmg_from(release.assets, 0),
            },
        )
    } else {
        None
    }
}

/// The value of an optional update.
pub open spec fn option_update(u: Option<UpdateInfo>) -> Option<UpdateInfoView> {
    match u {
        Some(info) => Some(info@),
        None => None,
    }
}

/// The download address of the first asset whose name ends in `.dmg`.
pub fn find_dmg(assets: &Vec<GitHubAsset>) -> (r: Option<String>)
    ensures
        option_text(r) == first_dmg_from(
            Seq::new(assets@.len(), |i: int| (assets@[i].name@, assets@[i].browser_download_url@)),
            0,
        ),
{
    let ghost all = Seq::new(
        assets@.len(),
        |i: int| (assets@[i].name@, assets@[i].browser_download_url@),
    );
    let mut i: usize = 0;
    while i < assets.len()
        invariant
            i <= assets@.len(),
            all == Seq::new(
                assets@.len(),
                |i: int| (assets@[i].name@, assets@[i].browser_download_url@),
            ),
            first_dmg_from(all, 0) == first_dmg_from(all, i as int),
        decreases assets@.len() - i,
    {
        if ends_with(assets[i].name.as_str(), ".dmg") {
            return Some(assets[i].browser_download_url.clone());
        }
        i += 1;
    }
    None
}

/// Decides whether `release`, the latest one published, is an update for a
/// program of version `current_version`. Without a release there is none.
pub fn check_for_update(current_version: &str, release: Option<&GitHubRelease>) -> (r: Option<
    UpdateInfo,
>)
    ensures
        option_update(r) == (match release {
            Some(found) => update_for(current_version@, found@),
            None => None,
        }),
{
    match release {
        Some(found) => {
            let remote = strip_lead(found.tag_name.as_str(), 'v');
            let current_parts = parse_version(current_version);
            let remote_parts = parse_version(remote.as_str());
            match compare_parts(&current_parts, &remote_parts) {
                VersionOrder::Newer => Some(
                    UpdateInfo {
                        version: remote,
                        release_url: found.html_url.clone(),
                        dmg_download_url: find_dmg(&found.assets),
                    },
                ),
                _ => None,
            }
        },
        None => None,
    }
}

} // verus!
