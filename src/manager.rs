use vstd::prelude::*;

use crate::error::UpdateError;
use crate::feed::{process_feed, resolves_to, VelopackAsset, VelopackAssetFeed, UpdateInfo};
use crate::locator::{Manifest, VelopackLocator};
use crate::platform::{default_channel_of, get_default_channel, join_path, joined, Platform};
use crate::source::{is_http, is_http_url, join_url, set_url_query, url_joined, url_with_query};
use crate::text::{trim_end_slashes, trim_trailing_slashes};
use crate::version::{is_semver, semver_valid};

verus! {

/// Options that customise an `UpdateManager`.
#[allow(non_snake_case)]
#[derive(Clone, Debug, Default)]
pub struct UpdateOptions {
    /// Allows updating to a version lower than the installed one.
    pub AllowVersionDowngrade: bool,
    /// Overrides the channel that updates are read from.
    pub ExplicitChannel: Option<String>,
}

/// Arguments handed to the application when the updater restarts it.
#[derive(Clone, Debug, PartialEq, Eq)]
pub enum RestartArgs {
    /// Restart with no arguments.
    NoArgs,
    /// Restart with these arguments, in order.
    Args(Vec<String>),
}

/// Where the release feed is read from.
#[derive(Clone, Debug, PartialEq, Eq)]
pub enum FeedLocation {
    /// Fetch the feed over HTTP from this URL.
    Remote(String),
    /// Read the feed from `releases_path`, a file of the local feed `directory`.
    Local { directory: String, releases_path: String },
}

/// The updater process to start: its program, arguments and working directory.
#[derive(Clone, Debug, PartialEq, Eq)]
pub struct UpdaterCommand {
    pub program: String,
    pub args: Vec<String>,
    pub working_dir: String,
}

/// Checks for, downloads and applies updates of the installed application.
#[derive(Debug)]
pub struct UpdateManager {
    allow_version_downgrade: bool,
    explicit_channel: Option<String>,
    url_or_path: String,
    paths: VelopackLocator,
    platform: Platform,
}

/// The channel whose feed is read: the explicit channel when it is given and
/// not empty, else the manifest's, else the platform default.
pub open spec fn effective_channel(
    platform: Platform,
    manifest_channel: Seq<char>,
    explicit: Option<Seq<char>>,
) -> Seq<char> {
    let c = match explicit {
        Some(e) => if e.len() > 0 {
            e
        } else {
            manifest_channel
        },
        None => manifest_channel,
    };
    if c.len() == 0 {
        default_channel_of(platform)
    } else {
        c
    }
}

/// The name of the releases file of a channel.
pub open spec fn releases_file_of(channel: Seq<char>) -> Seq<char> {
    "releases."@ + channel + ".json"@
}

/// The query that tells the feed server the installed version and app id.
pub open spec fn feed_query_of(version: Seq<char>, id: Seq<char>) -> Seq<char> {
    "localVersion="@ + version + "&id="@ + id
}

/// The arguments that the updater is started with.
pub open spec fn updater_args_of(
    package: Seq<char>,
    silent: bool,
    restart: bool,
    restart_args: Seq<Seq<char>>,
) -> Seq<Seq<char>> {
    seq!["apply"@, "--wait"@, "--package"@, package] + (if silent {
        seq!["--silent"@]
    } else {
        Seq::empty()
    }) + (if restart {
        seq!["--restart"@]
    } else {
        Seq::empty()
    }) + (if restart_args.len() > 0 {
        seq!["--"@] + restart_args
    } else {
        Seq::empty()
    })
}

/// The views of a list of strings.
pub open spec fn texts(v: Seq<String>) -> Seq<Seq<char>> {
    v.map_values(|s: String| s@)
}

/// The arguments held by a `RestartArgs`.
pub open spec fn restart_texts(a: RestartArgs) -> Seq<Seq<char>> {
    match a {
        RestartArgs::NoArgs => Seq::empty(),
        RestartArgs::Args(v) => texts(v@),
    }
}

impl Clone for UpdateManager {
    fn clone(&self) -> (r: UpdateManager)
        ensures
            r.allows_downgrade() == self.allows_downgrade(),
            r.explicit_channel_view() == self.explicit_channel_view(),
            r.source() == self.source(),
            r.layout() == self.layout(),
            r.platform_view() == self.platform_view(),
    {
        proof {
            use_type_invariant(self);
        }
        let explicit_channel = match &self.explicit_channel {
            Some(c) => Some(c.clone()),
            None => None,
        };
        let manifest = Manifest {
            id: self.paths.manifest.id.clone(),
            version: self.paths.manifest.version.clone(),
            channel: self.paths.manifest.channel.clone(),
        };
        UpdateManager {
            allow_version_downgrade: self.allow_version_downgrade,
            explicit_channel,
            url_or_path: self.url_or_path.clone(),
            paths: VelopackLocator {
                root_app_dir: self.paths.root_app_dir.clone(),
                update_exe_path: self.paths.update_exe_path.clone(),
                packages_dir: self.paths.packages_dir.clone(),
                manifest,
            },
            platform: self.platform,
        }
    }
}

impl UpdateManager {
    #[verifier::type_invariant]
    spec fn inv(&self) -> bool {
        semver_valid(self.paths.manifest.version@)
    }

    /// Whether downgrades are allowed.
    pub closed spec fn allows_downgrade(&self) -> bool {
        self.allow_version_downgrade
    }

    /// The explicit channel override, if any.
    pub closed spec fn explicit_channel_view(&self) -> Option<Seq<char>> {
        match self.explicit_channel {
            Some(c) => Some(c@),
            None => None,
        }
    }

    /// The feed source: an HTTP(S) URL or a local directory.
    pub closed spec fn source(&self) -> Seq<char> {
        self.url_or_path@
    }

    /// The layout of the install.
    pub closed spec fn layout(&self) -> VelopackLocator {
        self.paths
    }

    /// The platform whose conventions apply.
    pub closed spec fn platform_view(&self) -> Platform {
        self.platform
    }

    /// The channel whose feed this manager reads.
    pub open spec fn channel_view(&self) -> Seq<char> {
        effective_channel(
            self.platform_view(),
            self.layout().manifest.channel@,
            self.explicit_channel_view(),
        )
    }

    /// Makes a manager for the install described by `locator`, reading
    /// releases from `url_or_path`. Fails when the manifest's version is not
    /// a semantic version. Without options, downgrades are not allowed and no
    /// channel is forced.
    pub fn new(
        url_or_path: &str,
        options: Option<UpdateOptions>,
        locator: VelopackLocator,
        platform: Platform,
    ) -> (r: Result<UpdateManager, UpdateError>)
        ensures
            r is Err <==> !semver_valid(locator.manifest.version@),
            r is Err ==> r == Err::<UpdateManager, UpdateError>(UpdateError::ManifestInvalid),
            r matches Ok(m) ==> {
                &&& m.source() == url_or_path@
                &&& m.layout() == locator
                &&& m.platform_view() == platform
                &&& m.allows_downgrade() == match options {
                    Some(o) => o.AllowVersionDowngrade,
                    None => false,
                }
                &&& m.explicit_channel_view() == match options {
                    Some(o) => match o.ExplicitChannel {
                        Some(c) => Some(c@),
                        None => None,
                    },
                    None => None,
                }
            },
    {
        if !is_semver(locator.manifest.version.as_str()) {
            return Err(UpdateError::ManifestInvalid);
        }
        let (allow_version_downgrade, explicit_channel) = match options {
            Some(o) => (o.AllowVersionDowngrade, o.ExplicitChannel),
            None => (false, None),
        };
        Ok(UpdateManager {
            allow_version_downgrade,
            explicit_channel,
            url_or_path: String::from_str(url_or_path),
            paths: locator,
            platform,
        })
    }

    /// The installed version.
    pub fn current_version(&self) -> (r: Result<String, UpdateError>)
        ensures
            r matches Ok(v) && v@ == self.layout().manifest.version@,
    {
        Ok(self.paths.manifest.version.clone())
    }

    /// The layout of the install.
    pub fn locator(&self) -> (r: &VelopackLocator)
        ensures
            *r == self.layout(),
    {
        &self.paths
    }

    /// The channel whose feed this manager reads.
    pub fn channel(&self) -> (r: String)
        ensures
            r@ == self.channel_view(),
    {
        let manifest_channel = &self.paths.manifest.channel;
        let c: String = match &self.explicit_channel {
            Some(e) => if e.unicode_len() > 0 {
                e.clone()
            } else {
                manifest_channel.clone()
            },
            None => manifest_channel.clone(),
        };
        if c.unicode_len() == 0 {
            get_default_channel(self.platform)
        } else {
            c
        }
    }

    /// Where the releases file of this manager's channel is read from: over
    /// HTTP when the source is an HTTP(S) URL, with the installed version and
    /// app id as query; else from the source taken as a local directory.
    pub fn feed_location(&self) -> (r: Result<FeedLocation, UpdateError>)
        ensures
            is_http(self.source()) ==> match r {
                Ok(FeedLocation::Remote(u)) => {
                    let base = trim_trailing_slashes(self.source()) + "/"@;
                    let j = url_joined(base, releases_file_of(self.channel_view()));
                    &&& j is Some
                    &&& Some(u@) == url_with_query(
                        j->0,
                        feed_query_of(
                            self.layout().manifest.version@,
                            self.layout().manifest.id@,
                        ),
                    )
                },
                Err(e) => {
                    let base = trim_trailing_slashes(self.source()) + "/"@;
                    let j = url_joined(base, releases_file_of(self.channel_view()));
                    &&& e == UpdateError::InvalidFeedSource
                    &&& (j is None || url_with_query(
                        j->0,
                        feed_query_of(
                            self.layout().manifest.version@,
                            self.layout().manifest.id@,
                        ),
                    ) is None)
                },
                _ => false,
            },
            !is_http(self.source()) ==> match r {
                Ok(FeedLocation::Local { directory, releases_path }) => {
                    &&& directory@ == self.source()
                    &&& releases_path@ == joined(
                        self.platform_view(),
                        self.source(),
                        releases_file_of(self.channel_view()),
                    )
                },
                _ => false,
            },
    {
        let channel = self.channel();
        let mut name = String::from_str("releases.");
        name.append(channel.as_str());
        name.append(".json");
        if is_http_url(self.url_or_path.as_str()) {
            let mut base = String::from_str(trim_end_slashes(self.url_or_path.as_str()));
            base.append("/");
            let joined_url = match join_url(base.as_str(), name.as_str()) {
                Some(u) => u,
                None => {
                    return Err(UpdateError::InvalidFeedSource);
                },
            };
            let mut query = String::from_str("localVersion=");
            query.append(self.paths.manifest.version.as_str());
            query.append("&id=");
            query.append(self.paths.manifest.id.as_str());
            match set_url_query(joined_url.as_str(), query.as_str()) {
                Some(u) => Ok(FeedLocation::Remote(u)),
                None => Err(UpdateError::InvalidFeedSource),
            }
        } else {
            let releases_path = join_path(self.platform, self.url_or_path.as_str(), name.as_str());
            Ok(FeedLocation::Local { directory: self.url_or_path.clone(), releases_path })
        }
    }

    /// Resolves the feed read from `feed_location`: fails on an empty feed or
    /// on one without a valid full release, else offers the latest full
    /// release when it is newer than the installed version, or, with
    /// downgrades allowed, older, or equal on another channel than the
    /// manifest's.
    pub fn check_for_updates(&self, feed: VelopackAssetFeed) -> (r: Result<
        Option<UpdateInfo>,
        UpdateError,
    >)
        ensures
            resolves_to(
                self.layout().manifest.version@,
                feed.Assets@,
                self.allows_downgrade(),
                self.channel_view() != self.layout().manifest.channel@,
                r,
            ),
    {
        proof {
            use_type_invariant(self);
        }
        let channel = self.channel();
        let non_default_channel = !(channel == self.paths.manifest.channel);
        process_feed(
            self.paths.manifest.version.as_str(),
            feed,
            self.allow_version_downgrade,
            non_default_channel,
        )
    }

    /// The feed source: an HTTP(S) URL or a local directory.
    pub fn url_or_path(&self) -> (r: &String)
        ensures
            r@ == self.source(),
    {
        &self.url_or_path
    }

    /// The platform whose conventions apply.
    pub fn platform(&self) -> (r: Platform)
        ensures
            r == self.platform_view(),
    {
        self.platform
    }

    /// The path where the package of `asset` is staged.
    pub fn package_path(&self, asset: &VelopackAsset) -> (r: String)
        ensures
            r@ == joined(self.platform_view(), self.layout().packages_dir@, asset.FileName@),
    {
        join_path(self.platform, self.paths.packages_dir.as_str(), asset.FileName.as_str())
    }

    /// The updater invocation that applies the staged package of `to_apply`:
    /// `apply --wait --package <path>`, then `--silent` and `--restart` when
    /// asked, then `--` and the restart arguments when there are any; started
    /// from the install root.
    pub fn updater_command(
        &self,
        to_apply: &VelopackAsset,
        silent: bool,
        restart: bool,
        restart_args: RestartArgs,
    ) -> (r: UpdaterCommand)
        ensures
            r.program@ == self.layout().update_exe_path@,
            r.working_dir@ == self.layout().root_app_dir@,
            texts(r.args@) == updater_args_of(
                joined(self.platform_view(), self.layout().packages_dir@, to_apply.FileName@),
                silent,
                restart,
                restart_texts(restart_args),
            ),
    {
        let pkg = self.package_path(to_apply);
        let mut args: Vec<String> = Vec::new();
        args.push(String::from_str("apply"));
        args.push(String::from_str("--wait"));
        args.push(String::from_str("--package"));
        args.push(pkg);
        if silent {
            args.push(String::from_str("--silent"));
        }
        if restart {
            args.push(String::from_str("--restart"));
        }
        let ghost head = texts(args@);
        let extra: Vec<String> = match restart_args {
            RestartArgs::NoArgs => Vec::new(),
            RestartArgs::Args(v) => v,
        };
        let ghost extra_texts = texts(extra@);
        if extra.len() > 0 {
            args.push(String::from_str("--"));
            let ghost sep = texts(args@);
            let mut i: usize = 0;
            while i < extra.len()
                invariant
                    i <= extra@.len(),
                    extra_texts == texts(extra@),
                    texts(args@) == sep + extra_texts.subrange(0, i as int),
                decreases extra@.len() - i,
            {
                let ghost before = args@;
                args.push(extra[i].clone());
                assert(texts(args@) =~= texts(before).push(extra_texts[i as int]));
                assert(texts(args@) =~= sep + extra_texts.subrange(0, i + 1));
                i = i + 1;
            }
            assert(extra_texts.subrange(0, extra@.len() as int) =~= extra_texts);
        }
        proof {
            reveal_strlit("apply");
            reveal_strlit("--wait");
            reveal_strlit("--package");
            reveal_strlit("--silent");
            reveal_strlit("--restart");
            reveal_strlit("--");
        }
        assert(texts(args@) =~= updater_args_of(
            joined(self.platform, self.paths.packages_dir@, to_apply.FileName@),
            silent,
            restart,
            extra_texts,
        ));
        UpdaterCommand {
            program: self.paths.update_exe_path.clone(),
            args,
            working_dir: self.paths.root_app_dir.clone(),
        }
    }
}

} // verus!
