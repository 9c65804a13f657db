use vstd::prelude::*;

use crate::error::UpdateError;
use crate::feed::VelopackAsset;
use crate::manager::{texts, UpdateManager};
use crate::platform::{join_path, joined};
use crate::source::{is_http, is_http_url};

verus! {

/// Where staging stands: which outside step it waits on.
#[derive(Clone, Copy, Debug, PartialEq, Eq, Structural)]
pub enum StagePhase {
    /// Waiting for the list of packages already staged.
    Listing,
    /// Waiting to learn whether the local source file exists.
    CheckingSource,
    /// Waiting for the mid-copy progress report.
    ReportingHalf,
    /// Waiting for the download or copy of the new package.
    Transferring,
    /// Waiting for the deletion of a stale package.
    Cleaning,
    /// Waiting for the final progress report.
    Reporting,
    /// Staging has ended.
    Done,
}

/// What the caller must do next for staging to go on.
#[derive(Debug, PartialEq, Eq)]
pub enum StageAction {
    /// List the files that match this pattern; answer `Listed`.
    ListPackages(String),
    /// Tell whether this file exists; answer `Found` or `Missing`.
    CheckSource(String),
    /// Report this percentage; answer `Reported`.
    Progress(i16),
    /// Download `url` into the file `target`; answer `Completed` or `Failed`.
    Download { url: String, target: String },
    /// Copy the file `source` to `target`; answer `Completed` or `Failed`.
    Copy { source: String, target: String },
    /// Delete this file; answer `Completed` or `Failed`.
    Delete(String),
    /// Staging has ended with this result.
    Finished(Result<(), UpdateError>),
}

/// What came of the last action.
#[derive(Clone, Debug, PartialEq, Eq)]
pub enum StageEvent {
    /// The files that matched the pattern.
    Listed(Vec<String>),
    /// The source file exists.
    Found,
    /// The source file does not exist.
    Missing,
    /// The progress was reported.
    Reported,
    /// The transfer or deletion succeeded.
    Completed,
    /// The transfer or deletion failed.
    Failed,
}

/// Places the selected package in the staging directory, then deletes the
/// packages staged before it; the caller performs each outside step.
#[derive(Clone, Debug)]
pub struct PackageStager {
    /// Which step staging waits on.
    pub phase: StagePhase,
    /// Whether the package is downloaded (else it is copied).
    pub remote: bool,
    /// The URL to download, or the file to copy.
    pub source: String,
    /// The path the package is placed at.
    pub target: String,
    /// The stale packages to delete once the new one is in place.
    pub stale: Vec<String>,
    /// How many stale packages are deleted so far.
    pub deleted: usize,
}

/// `paths` without the entries equal to `x`, in order.
pub open spec fn without(paths: Seq<Seq<char>>, x: Seq<char>) -> Seq<Seq<char>>
    decreases paths.len(),
{
    if paths.len() == 0 {
        Seq::empty()
    } else {
        let rest = without(paths.drop_last(), x);
        if paths.last() == x {
            rest
        } else {
            rest.push(paths.last())
        }
    }
}

/// The pattern that matches every package in the staging directory.
pub open spec fn package_pattern_of(packages_dir: Seq<char>) -> Seq<char> {
    packages_dir + "/*.nupkg"@
}

/// The action that comes once the new package is in place and `deleted`
/// stale packages are gone: the next deletion, or the final report.
pub open spec fn cleaning_action(stale: Seq<Seq<char>>, deleted: int, a: StageAction) -> bool {
    if deleted < stale.len() {
        a matches StageAction::Delete(p) && p@ == stale[deleted]
    } else {
        a == StageAction::Progress(100)
    }
}

impl PackageStager {
    /// The stager's fields are consistent.
    pub open spec fn wf(&self) -> bool {
        &&& self.deleted <= self.stale@.len()
        &&& (self.phase == StagePhase::Cleaning ==> self.deleted < self.stale@.len())
    }

    /// Begins staging the package of `asset` for `manager`: the first step
    /// lists the packages already staged. The package is downloaded from the
    /// source when it is an HTTP(S) URL, else copied from the source directory.
    pub fn start(manager: &UpdateManager, asset: &VelopackAsset) -> (r: (PackageStager, StageAction))
        ensures
            r.0.wf(),
            r.0.phase == StagePhase::Listing,
            r.0.remote == is_http(manager.source()),
            r.0.remote ==> r.0.source@ == manager.source(),
            !r.0.remote ==> r.0.source@ == joined(
                manager.platform_view(),
                manager.source(),
                asset.FileName@,
            ),
            r.0.target@ == joined(
                manager.platform_view(),
                manager.layout().packages_dir@,
                asset.FileName@,
            ),
            r.0.stale@.len() == 0,
            r.0.deleted == 0,
            r.1 matches StageAction::ListPackages(p) && p@ == package_pattern_of(
                manager.layout().packages_dir@,
            ),
    {
        let remote = is_http_url(manager.url_or_path().as_str());
        let source = if remote {
            String::from_str(manager.url_or_path().as_str())
        } else {
            join_path(manager.platform(), manager.url_or_path().as_str(), asset.FileName.as_str())
        };
        let target = manager.package_path(asset);
        let mut pattern = String::from_str(manager.locator().packages_dir.as_str());
        pattern.append("/*.nupkg");
        (
            PackageStager {
                phase: StagePhase::Listing,
                remote,
                source,
                target,
                stale: Vec::new(),
                deleted: 0,
            },
            StageAction::ListPackages(pattern),
        )
    }

    fn finish(&mut self, result: Result<(), UpdateError>) -> (a: StageAction)
        ensures
            final(self).phase == StagePhase::Done,
            final(self).remote == old(self).remote,
            final(self).source == old(self).source,
            final(self).target == old(self).target,
            final(self).stale == old(self).stale,
            final(self).deleted == old(self).deleted,
            a == StageAction::Finished(result),
    {
        self.phase = StagePhase::Done;
        StageAction::Finished(result)
    }

    fn next_cleaning(&mut self) -> (a: StageAction)
        requires
            old(self).deleted <= old(self).stale@.len(),
        ensures
            final(self).wf(),
            final(self).phase == if old(self).deleted < old(self).stale@.len() {
                StagePhase::Cleaning
            } else {
                StagePhase::Reporting
            },
            final(self).remote == old(self).remote,
            final(self).source == old(self).source,
            final(self).target == old(self).target,
            final(self).stale == old(self).stale,
            final(self).deleted == old(self).deleted,
            cleaning_action(texts(old(self).stale@), old(self).deleted as int, a),
    {
        if self.deleted < self.stale.len() {
            self.phase = StagePhase::Cleaning;
            StageAction::Delete(String::from_str(self.stale[self.deleted].as_str()))
        } else {
            self.phase = StagePhase::Reporting;
            StageAction::Progress(100)
        }
    }

    /// Takes the outcome of the last action and returns the next one. Stale
    /// packages are deleted only after the new package is in place, and the
    /// final 100% report comes only after every deletion; a failed transfer
    /// ends staging before any deletion. An event that does not answer the
    /// last action ends staging with `TransferFailed`.
    pub fn step(&mut self, event: StageEvent) -> (a: StageAction)
        requires
            old(self).wf(),
        ensures
            final(self).wf(),
            final(self).remote == old(self).remote,
            final(self).source == old(self).source,
            final(self).target == old(self).target,
            old(self).phase != StagePhase::Listing ==> final(self).stale == old(self).stale,
            match (old(self).phase, event) {
                (StagePhase::Listing, StageEvent::Listed(paths)) => {
                    &&& texts(final(self).stale@) == without(texts(paths@), old(self).target@)
                    &&& final(self).deleted == 0
                    &&& if old(self).remote {
                        &&& final(self).phase == StagePhase::Transferring
                        &&& a matches StageAction::Download { url, target } && url@
                            == old(self).source@ && target@ == old(self).target@
                    } else {
                        &&& final(self).phase == StagePhase::CheckingSource
                        &&& a matches StageAction::CheckSource(p) && p@ == old(self).source@
                    }
                },
                (StagePhase::CheckingSource, StageEvent::Found) => {
                    &&& final(self).phase == StagePhase::ReportingHalf
                    &&& final(self).deleted == old(self).deleted
                    &&& a == StageAction::Progress(50)
                },
                (StagePhase::CheckingSource, StageEvent::Missing) => {
                    &&& final(self).phase == StagePhase::Done
                    &&& final(self).deleted == old(self).deleted
                    &&& a == StageAction::Finished(Err(UpdateError::SourceNotFound))
                },
                (StagePhase::ReportingHalf, StageEvent::Reported) => {
                    &&& final(self).phase == StagePhase::Transferring
                    &&& final(self).deleted == old(self).deleted
                    &&& a matches StageAction::Copy { source, target } && source@
                        == old(self).source@ && target@ == old(self).target@
                },
                (StagePhase::Transferring, StageEvent::Completed) => {
                    &&& final(self).deleted == old(self).deleted
                    &&& final(self).phase == if old(self).deleted < old(self).stale@.len() {
                        StagePhase::Cleaning
                    } else {
                        StagePhase::Reporting
                    }
                    &&& cleaning_action(texts(old(self).stale@), old(self).deleted as int, a)
                },
                (StagePhase::Transferring, StageEvent::Failed) => {
                    &&& final(self).phase == StagePhase::Done
                    &&& final(self).deleted == old(self).deleted
                    &&& a == StageAction::Finished(Err(UpdateError::TransferFailed))
                },
                (StagePhase::Cleaning, StageEvent::Completed) => {
                    &&& final(self).deleted == old(self).deleted + 1
                    &&& final(self).phase == if old(self).deleted + 1 < old(self).stale@.len() {
                        StagePhase::Cleaning
                    } else {
                        StagePhase::Reporting
                    }
                    &&& cleaning_action(
                        texts(old(self).stale@),
                        old(self).deleted as int + 1,
                        a,
                    )
                },
                (StagePhase::Cleaning, StageEvent::Failed) => {
                    &&& final(self).phase == StagePhase::Done
                    &&& final(self).deleted == old(self).deleted
                    &&& a == StageAction::Finished(Err(UpdateError::CleanupFailed))
                },
                (StagePhase::Reporting, StageEvent::Reported) => {
                    &&& final(self).phase == StagePhase::Done
                    &&& final(self).deleted == old(self).deleted
                    &&& a == StageAction::Finished(Ok(()))
                },
                _ => {
                    &&& final(self).phase == StagePhase::Done
                    &&& final(self).deleted == old(self).deleted
                    &&& a == StageAction::Finished(Err(UpdateError::TransferFailed))
                },
            },
    {
        match (self.phase, event) {
            (StagePhase::Listing, StageEvent::Listed(paths)) => {
                let mut stale: Vec<String> = Vec::new();
                let mut i: usize = 0;
                while i < paths.len()
                    invariant
                        i <= paths@.len(),
                        texts(stale@) == without(
                            texts(paths@).subrange(0, i as int),
                            self.target@,
                        ),
                    decreases paths@.len() - i,
                {
                    let ghost before = stale@;
                    let ghost prefix = texts(paths@).subrange(0, i + 1);
                    assert(prefix.drop_last() =~= texts(paths@).subrange(0, i as int));
                    if !(paths[i] == self.target) {
                        stale.push(String::from_str(paths[i].as_str()));
                        assert(texts(stale@) =~= texts(before).push(paths@[i as int]@));
                    }
                    i = i + 1;
                }
                assert(texts(paths@).subrange(0, paths@.len() as int) =~= texts(paths@));
                self.stale = stale;
                self.deleted = 0;
                if self.remote {
                    self.phase = StagePhase::Transferring;
                    StageAction::Download {
                        url: String::from_str(self.source.as_str()),
                        target: String::from_str(self.target.as_str()),
                    }
                } else {
                    self.phase = StagePhase::CheckingSource;
                    StageAction::CheckSource(String::from_str(self.source.as_str()))
                }
            },
            (StagePhase::CheckingSource, StageEvent::Found) => {
                self.phase = StagePhase::ReportingHalf;
                StageAction::Progress(50)
            },
            (StagePhase::CheckingSource, StageEvent::Missing) => {
                self.finish(Err(UpdateError::SourceNotFound))
            },
            (StagePhase::ReportingHalf, StageEvent::Reported) => {
                self.phase = StagePhase::Transferring;
                StageAction::Copy {
                    source: String::from_str(self.source.as_str()),
                    target: String::from_str(self.target.as_str()),
                }
            },
            (StagePhase::Transferring, StageEvent::Completed) => self.next_cleaning(),
            (StagePhase::Transferring, StageEvent::Failed) => {
                self.finish(Err(UpdateError::TransferFailed))
            },
            (StagePhase::Cleaning, StageEvent::Completed) => {
                if self.deleted < self.stale.len() {
                    self.deleted = self.deleted + 1;
                }
                self.next_cleaning()
            },
            (StagePhase::Cleaning, StageEvent::Failed) => {
                self.finish(Err(UpdateError::CleanupFailed))
            },
            (StagePhase::Reporting, StageEvent::Reported) => self.finish(Ok(())),
            _ => self.finish(Err(UpdateError::TransferFailed)),
        }
    }
}

/// The percentage of a transfer of `total` bytes that `done` bytes make,
/// rounded down and capped at 100; 0 when the total is unknown (zero).
pub open spec fn percent_of(done: int, total: int) -> int {
    if total == 0 {
        0
    } else if done * 100 / total > 100 {
        100
    } else {
        done * 100 / total
    }
}

/// The percentage of a transfer of `total` bytes that `done` bytes make.
pub fn transfer_percent(done: u64, total: u64) -> (r: i16)
    ensures
        r as int == percent_of(done as int, total as int),
{
    if total == 0 {
        return 0;
    }
    let scaled: u128 = (done as u128) * 100;
    let p: u128 = scaled / (total as u128);
    if p > 100 {
        100
    } else {
        p as i16
    }
}

} // verus!
