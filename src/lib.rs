//! Client-side engine of a self-updating application: locating the install,
//! resolving the release feed, staging packages and handing off to the updater.
pub mod app;
pub mod error;
pub mod feed;
pub mod locator;
pub mod manager;
pub mod platform;
pub mod source;
pub mod stage;
pub mod text;
pub mod version;

pub use app::VelopackApp;
pub use error::UpdateError;
pub use feed::{process_feed, select_latest_full, UpdateInfo, VelopackAsset, VelopackAssetFeed};
pub use locator::{
    manifest_read_backoff, probe_install, read_manifest_from_string, InstallProbe, Manifest,
    VelopackLocator,
};
pub use manager::{FeedLocation, RestartArgs, UpdateManager, UpdateOptions, UpdaterCommand};
pub use platform::{get_default_channel, join_path, Platform};
pub use source::is_http_url;
pub use stage::{transfer_percent, PackageStager, StageAction, StageEvent, StagePhase};
