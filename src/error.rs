use vstd::prelude::*;

verus! {

/// Every way in which an operation of this library can fail.
#[derive(Clone, Copy, Debug, PartialEq, Eq, Structural)]
pub enum UpdateError {
    /// The running executable is not inside a recognised installed layout.
    NotInstalled,
    /// The manifest file of the current release could not be read.
    ManifestUnreadable,
    /// The manifest file of the current release could not be parsed.
    ManifestInvalid,
    /// The feed source is neither an HTTP(S) URL nor an existing directory.
    InvalidFeedSource,
    /// The releases file was not found in the local feed directory.
    FeedNotFound,
    /// The release feed holds no assets at all.
    EmptyFeed,
    /// The release feed holds no full asset with a valid version.
    NoValidRelease,
    /// The package file to copy does not exist in the local feed directory.
    SourceNotFound,
    /// The transfer of the package failed.
    TransferFailed,
    /// A stale package could not be deleted.
    CleanupFailed,
    /// The updater process could not be started.
    SpawnFailed,
}

} // verus!
