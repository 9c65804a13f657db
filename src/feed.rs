use vstd::prelude::*;

use crate::error::UpdateError;
use crate::version::{compare_semver, is_semver, semver_order, semver_valid};

verus! {

/// An individual release asset, on disk or in a remote package feed.
#[allow(non_snake_case)]
#[derive(Clone, Debug, Default, PartialEq, Eq)]
pub struct VelopackAsset {
    /// The name or id of the package holding this release.
    pub PackageId: String,
    /// The version of this release, as text.
    pub Version: String,
    /// The kind of asset ("Full" or "Delta").
    pub Type: String,
    /// The file name of the package holding this release.
    pub FileName: String,
    /// The SHA1 checksum of the package.
    pub SHA1: String,
    /// The size in bytes of the package.
    pub Size: u64,
    /// The release notes in markdown; may be empty.
    pub NotesMarkdown: String,
    /// The release notes in HTML; may be empty.
    pub NotesHtml: String,
}

/// A decoded release feed: its assets in feed order.
#[allow(non_snake_case)]
#[derive(Clone, Debug, Default, PartialEq, Eq)]
pub struct VelopackAssetFeed {
    /// The assets of the feed.
    pub Assets: Vec<VelopackAsset>,
}

/// The release chosen as the update target.
#[allow(non_snake_case)]
#[derive(Clone, Debug, Default, PartialEq, Eq)]
pub struct UpdateInfo {
    /// The full release to update to.
    pub TargetFullRelease: VelopackAsset,
    /// True for a version downgrade or a lateral move to another channel.
    pub IsDowngrade: bool,
}

impl UpdateInfo {
    /// The asset that this update targets.
    pub fn as_ref(&self) -> (r: &VelopackAsset)
        ensures
            *r == self.TargetFullRelease,
    {
        &self.TargetFullRelease
    }
}

/// The asset type names a full package: "Full", compared ignoring ASCII case.
pub open spec fn is_full_type(t: Seq<char>) -> bool {
    &&& t.len() == 4
    &&& (t[0] == 'F' || t[0] == 'f')
    &&& (t[1] == 'U' || t[1] == 'u')
    &&& (t[2] == 'L' || t[2] == 'l')
    &&& (t[3] == 'L' || t[3] == 'l')
}

/// Asset `i` takes part in the selection: a full asset whose version parses.
pub open spec fn is_candidate(assets: Seq<VelopackAsset>, i: int) -> bool {
    &&& 0 <= i < assets.len()
    &&& is_full_type(assets[i].Type@)
    &&& semver_valid(assets[i].Version@)
}

/// Asset `j` is a latest release: a candidate that no candidate outranks.
pub open spec fn is_latest(assets: Seq<VelopackAsset>, j: int) -> bool {
    &&& is_candidate(assets, j)
    &&& forall|k: int|
        #![trigger is_candidate(assets, k)]
        is_candidate(assets, k) ==> semver_order(assets[k].Version@, assets[j].Version@)
            != core::cmp::Ordering::Greater
}

/// Asset `j` is the one selected: the last latest release in feed order.
pub open spec fn is_selected(assets: Seq<VelopackAsset>, j: int) -> bool {
    &&& is_latest(assets, j)
    &&& forall|k: int| j < k < assets.len() ==> !#[trigger] is_latest(assets, k)
}

/// What the decision table gives for a remote release of version `remote`:
/// `Some(downgrade)` when an update is offered, `None` when not.
pub open spec fn update_decision(
    local: Seq<char>,
    remote: Seq<char>,
    allow_downgrade: bool,
    non_default_channel: bool,
) -> Option<bool> {
    let o = semver_order(remote, local);
    if o == core::cmp::Ordering::Greater {
        Some(false)
    } else if o == core::cmp::Ordering::Less && allow_downgrade {
        Some(true)
    } else if o == core::cmp::Ordering::Equal && allow_downgrade && non_default_channel {
        Some(true)
    } else {
        None
    }
}

/// The result of resolving the feed `assets` against the local version `local`
/// once asset `j` is selected.
pub open spec fn outcome_for(
    local: Seq<char>,
    assets: Seq<VelopackAsset>,
    j: int,
    allow_downgrade: bool,
    non_default_channel: bool,
) -> Option<UpdateInfo> {
    match update_decision(local, assets[j].Version@, allow_downgrade, non_default_channel) {
        Some(d) => Some(UpdateInfo { TargetFullRelease: assets[j], IsDowngrade: d }),
        None => None,
    }
}

/// `r` is what resolving the feed `assets` against the local version `local` gives.
pub open spec fn resolves_to(
    local: Seq<char>,
    assets: Seq<VelopackAsset>,
    allow_downgrade: bool,
    non_default_channel: bool,
    r: Result<Option<UpdateInfo>, UpdateError>,
) -> bool {
    &&& (r == Err::<Option<UpdateInfo>, UpdateError>(UpdateError::EmptyFeed) <==> assets.len() == 0)
    &&& (r == Err::<Option<UpdateInfo>, UpdateError>(UpdateError::NoValidRelease) <==> (
    assets.len() > 0 && forall|j: int| !#[trigger] is_latest(assets, j)))
    &&& (r is Err ==> r == Err::<Option<UpdateInfo>, UpdateError>(UpdateError::EmptyFeed) || r
        == Err::<Option<UpdateInfo>, UpdateError>(UpdateError::NoValidRelease))
    &&& (r is Ok ==> exists|j: int|
        #![trigger is_selected(assets, j)]
        is_selected(assets, j) && r == Ok::<Option<UpdateInfo>, UpdateError>(
            outcome_for(local, assets, j, allow_downgrade, non_default_channel),
        ))
}

/// Whether an asset type names a full package, ignoring ASCII case.
pub fn is_full_asset_type(t: &str) -> (r: bool)
    ensures
        r == is_full_type(t@),
{
    if t.unicode_len() != 4 {
        return false;
    }
    let c0 = t.get_char(0);
    let c1 = t.get_char(1);
    let c2 = t.get_char(2);
    let c3 = t.get_char(3);
    (c0 == 'F' || c0 == 'f') && (c1 == 'U' || c1 == 'u') && (c2 == 'L' || c2 == 'l') && (c3 == 'L'
        || c3 == 'l')
}

/// Whether each asset is a candidate for selection.
fn candidates(assets: &Vec<VelopackAsset>) -> (r: Vec<bool>)
    ensures
        r@.len() == assets@.len(),
        forall|i: int| 0 <= i < r@.len() ==> r@[i] == is_candidate(assets@, i),
{
    let mut r: Vec<bool> = Vec::new();
    let mut i: usize = 0;
    while i < assets.len()
        invariant
            i <= assets@.len(),
            r@.len() == i,
            forall|k: int| 0 <= k < i ==> r@[k] == is_candidate(assets@, k),
        decreases assets@.len() - i,
    {
        let a = &assets[i];
        let c = is_full_asset_type(a.Type.as_str()) && is_semver(a.Version.as_str());
        r.push(c);
        i = i + 1;
    }
    r
}

/// Whether no candidate outranks the candidate `j`.
fn outranks_none(assets: &Vec<VelopackAsset>, cand: &Vec<bool>, j: usize) -> (r: bool)
    requires
        cand@.len() == assets@.len(),
        forall|i: int| 0 <= i < cand@.len() ==> cand@[i] == is_candidate(assets@, i),
        is_candidate(assets@, j as int),
    ensures
        r == is_latest(assets@, j as int),
{
    let mut k: usize = 0;
    while k < assets.len()
        invariant
            k <= assets@.len(),
            cand@.len() == assets@.len(),
            forall|i: int| 0 <= i < cand@.len() ==> cand@[i] == is_candidate(assets@, i),
            is_candidate(assets@, j as int),
            forall|i: int|
                #![trigger is_candidate(assets@, i)]
                0 <= i < k && is_candidate(assets@, i) ==> semver_order(
                    assets@[i].Version@,
                    assets@[j as int].Version@,
                ) != core::cmp::Ordering::Greater,
        decreases assets@.len() - k,
    {
        if cand[k] {
            let o = compare_semver(assets[k].Version.as_str(), assets[j].Version.as_str());
            match o {
                core::cmp::Ordering::Greater => {
                    return false;
                },
                _ => {},
            }
        }
        k = k + 1;
    }
    true
}

/// Selects the latest full release of the feed: the last full asset, in feed
/// order, whose version parses and that no other such asset outranks. Assets
/// whose version does not parse are skipped.
pub fn select_latest_full(assets: &Vec<VelopackAsset>) -> (r: Option<usize>)
    ensures
        r matches Some(j) ==> is_selected(assets@, j as int),
        r is None ==> forall|j: int| !#[trigger] is_latest(assets@, j),
{
    let cand = candidates(assets);
    let mut j: usize = assets.len();
    while j > 0
        invariant
            j <= assets@.len(),
            cand@.len() == assets@.len(),
            forall|i: int| 0 <= i < cand@.len() ==> cand@[i] == is_candidate(assets@, i),
            forall|k: int| j <= k < assets@.len() ==> !#[trigger] is_latest(assets@, k),
        decreases j,
    {
        j = j - 1;
        if cand[j] && outranks_none(assets, &cand, j) {
            return Some(j);
        }
    }
    None
}

/// Applies the decision table to the selected release.
pub fn decide_update(
    local_version: &str,
    remote: VelopackAsset,
    allow_downgrade: bool,
    is_non_default_channel: bool,
) -> (r: Option<UpdateInfo>)
    requires
        semver_valid(local_version@),
        semver_valid(remote.Version@),
    ensures
        r == match update_decision(
            local_version@,
            remote.Version@,
            allow_downgrade,
            is_non_default_channel,
        ) {
            Some(d) => Some(UpdateInfo { TargetFullRelease: remote, IsDowngrade: d }),
            None => None,
        },
{
    let o = compare_semver(remote.Version.as_str(), local_version);
    match o {
        core::cmp::Ordering::Greater => Some(UpdateInfo { TargetFullRelease: remote, IsDowngrade: false }),
        core::cmp::Ordering::Less => {
            if allow_downgrade {
                Some(UpdateInfo { TargetFullRelease: remote, IsDowngrade: true })
            } else {
                None
            }
        },
        core::cmp::Ordering::Equal => {
            if allow_downgrade && is_non_default_channel {
                Some(UpdateInfo { TargetFullRelease: remote, IsDowngrade: true })
            } else {
                None
            }
        },
    }
}

/// Resolves a decoded feed against the installed version `local_version`:
/// fails on an empty feed or on one without a valid full release, else
/// offers the selected release as the decision table says.
pub fn process_feed(
    local_version: &str,
    feed: VelopackAssetFeed,
    allow_downgrade: bool,
    is_non_default_channel: bool,
) -> (r: Result<Option<UpdateInfo>, UpdateError>)
    requires
        semver_valid(local_version@),
    ensures
        resolves_to(local_version@, feed.Assets@, allow_downgrade, is_non_default_channel, r),
{
    let mut assets = feed.Assets;
    if assets.len() == 0 {
        return Err(UpdateError::EmptyFeed);
    }
    match select_latest_full(&assets) {
        None => Err(UpdateError::NoValidRelease),
        Some(j) => {
            let remote = assets.remove(j);
            let r = decide_update(local_version, remote, allow_downgrade, is_non_default_channel);
            Ok(r)
        },
    }
}

/// At most one asset of a feed is the selected one.
pub proof fn lemma_selection_unique(assets: Seq<VelopackAsset>, i: int, j: int)
    requires
        is_selected(assets, i),
        is_selected(assets, j),
    ensures
        i == j,
{
    if i < j {
        assert(!is_latest(assets, j));
    } else if j < i {
        assert(!is_latest(assets, i));
    }
}

/// An update offered by resolution targets a full asset whose version parses
/// and that no full asset of the feed with a valid version outranks.
pub proof fn lemma_offered_release_is_maximum(
    local: Seq<char>,
    assets: Seq<VelopackAsset>,
    allow_downgrade: bool,
    non_default_channel: bool,
    info: UpdateInfo,
)
    requires
        resolves_to(
            local,
            assets,
            allow_downgrade,
            non_default_channel,
            Ok::<Option<UpdateInfo>, UpdateError>(Some(info)),
        ),
    ensures
        exists|j: int|
            #![trigger assets[j]]
            is_candidate(assets, j) && info.TargetFullRelease == assets[j] && forall|k: int|
                #![trigger is_candidate(assets, k)]
                is_candidate(assets, k) ==> semver_order(assets[k].Version@, assets[j].Version@)
                    != core::cmp::Ordering::Greater,
{
    let j = choose|j: int|
        #![trigger is_selected(assets, j)]
        is_selected(assets, j) && Ok::<Option<UpdateInfo>, UpdateError>(Some(info)) == Ok::<
            Option<UpdateInfo>,
            UpdateError,
        >(outcome_for(local, assets, j, allow_downgrade, non_default_channel));
    assert(info.TargetFullRelease == assets[j]);
}

/// When no asset of the feed whose version parses is newer than the installed
/// version and downgrades are not allowed, resolution offers no update.
pub proof fn lemma_no_newer_release_no_update(
    local: Seq<char>,
    assets: Seq<VelopackAsset>,
    non_default_channel: bool,
    r: Result<Option<UpdateInfo>, UpdateError>,
)
    requires
        forall|k: int|
            0 <= k < assets.len() && semver_valid(#[trigger] assets[k].Version@) ==> semver_order(
                assets[k].Version@,
                local,
            ) != core::cmp::Ordering::Greater,
        resolves_to(local, assets, false, non_default_channel, r),
    ensures
        !(r matches Ok(Some(_))),
{
    if r is Ok {
        let j = choose|j: int|
            #![trigger is_selected(assets, j)]
            is_selected(assets, j) && r == Ok::<Option<UpdateInfo>, UpdateError>(
                outcome_for(local, assets, j, false, non_default_channel),
            );
        assert(semver_valid(assets[j].Version@));
    }
}

/// Resolving an empty feed fails with the empty-feed error.
pub proof fn lemma_empty_feed_fails(
    local: Seq<char>,
    allow_downgrade: bool,
    non_default_channel: bool,
    r: Result<Option<UpdateInfo>, UpdateError>,
)
    requires
        resolves_to(local, Seq::<VelopackAsset>::empty(), allow_downgrade, non_default_channel, r),
    ensures
        r == Err::<Option<UpdateInfo>, UpdateError>(UpdateError::EmptyFeed),
{
}

/// Resolving the same feed against the same installed version and policy
/// twice gives the same result.
pub proof fn lemma_resolution_deterministic(
    local: Seq<char>,
    assets: Seq<VelopackAsset>,
    allow_downgrade: bool,
    non_default_channel: bool,
    r1: Result<Option<UpdateInfo>, UpdateError>,
    r2: Result<Option<UpdateInfo>, UpdateError>,
)
    requires
        resolves_to(local, assets, allow_downgrade, non_default_channel, r1),
        resolves_to(local, assets, allow_downgrade, non_default_channel, r2),
    ensures
        r1 == r2,
{
    if r1 is Ok && r2 is Ok {
        let i = choose|j: int|
            #![trigger is_selected(assets, j)]
            is_selected(assets, j) && r1 == Ok::<Option<UpdateInfo>, UpdateError>(
                outcome_for(local, assets, j, allow_downgrade, non_default_channel),
            );
        let j = choose|j: int|
            #![trigger is_selected(assets, j)]
            is_selected(assets, j) && r2 == Ok::<Option<UpdateInfo>, UpdateError>(
                outcome_for(local, assets, j, allow_downgrade, non_default_channel),
            );
        lemma_selection_unique(assets, i, j);
    } else if r1 is Ok {
        let i = choose|j: int|
            #![trigger is_selected(assets, j)]
            is_selected(assets, j) && r1 == Ok::<Option<UpdateInfo>, UpdateError>(
                outcome_for(local, assets, j, allow_downgrade, non_default_channel),
            );
        assert(is_latest(assets, i));
    } else if r2 is Ok {
        let i = choose|j: int|
            #![trigger is_selected(assets, j)]
            is_selected(assets, j) && r2 == Ok::<Option<UpdateInfo>, UpdateError>(
                outcome_for(local, assets, j, allow_downgrade, non_default_channel),
            );
        assert(is_latest(assets, i));
    }
}

} // verus!
