use vstd::prelude::*;

use crate::error::UpdateError;
use crate::platform::{join_path, joined, separator_of, Platform};
use crate::text::{find_first, first_occurrence, is_first_occurrence};
use crate::version::{is_semver, semver_valid};

verus! {

/// The identity of the installed release.
#[derive(Clone, Debug, Default, PartialEq, Eq)]
pub struct Manifest {
    /// The application id.
    pub id: String,
    /// The installed version, as semantic version text.
    pub version: String,
    /// The channel the release was packaged for; may be empty.
    pub channel: String,
}

/// The filesystem layout of the current install.
#[derive(Clone, Debug, PartialEq, Eq)]
pub struct VelopackLocator {
    /// The root directory of the installed app.
    pub root_app_dir: String,
    /// The path of the updater executable.
    pub update_exe_path: String,
    /// The directory where packages are staged.
    pub packages_dir: String,
    /// The manifest of the installed release.
    pub manifest: Manifest,
}

/// The paths derived from the running executable's own path, before the
/// updater's presence and the manifest are checked.
#[derive(Clone, Debug, PartialEq, Eq)]
pub struct InstallProbe {
    /// The root directory of the installed app.
    pub root_app_dir: String,
    /// The path of the updater executable.
    pub update_exe_path: String,
    /// The path of the manifest file of the current release.
    pub manifest_path: String,
}

/// The directory part of `s`: what comes before its last separator.
pub open spec fn parent_of(s: Seq<char>, sep: char) -> Option<Seq<char>>
    decreases s.len(),
{
    if s.len() == 0 {
        None
    } else if s.last() == sep {
        Some(s.drop_last())
    } else {
        parent_of(s.drop_last(), sep)
    }
}

/// The root of the install that holds the executable at `exe`: two levels
/// up on Windows; what precedes the first "/usr/bin/" on Linux; the path up
/// to and including the first ".app" bundle on macOS.
pub open spec fn install_root_of(p: Platform, exe: Seq<char>) -> Option<Seq<char>> {
    match p {
        Platform::Windows => match parent_of(exe, separator_of(p)[0]) {
            Some(d) => parent_of(d, separator_of(p)[0]),
            None => None,
        },
        Platform::Linux => match first_occurrence(exe, "/usr/bin/"@) {
            Some(i) => Some(exe.subrange(0, i)),
            None => None,
        },
        Platform::MacOs => match first_occurrence(exe, ".app/"@) {
            Some(i) => Some(exe.subrange(0, i + 4)),
            None => None,
        },
    }
}

/// The directory that holds the updater on each platform.
pub open spec fn contents_dir_of(p: Platform, root: Seq<char>) -> Seq<char> {
    match p {
        Platform::Windows => root,
        Platform::Linux => joined(p, joined(p, root, "usr"@), "bin"@),
        Platform::MacOs => joined(p, joined(p, root, "Contents"@), "MacOS"@),
    }
}

/// The updater executable of the install rooted at `root`.
pub open spec fn updater_path_of(p: Platform, root: Seq<char>) -> Seq<char> {
    joined(
        p,
        contents_dir_of(p, root),
        match p {
            Platform::Windows => "Update.exe"@,
            Platform::Linux => "UpdateNix"@,
            Platform::MacOs => "UpdateMac"@,
        },
    )
}

/// The manifest file of the install rooted at `root`.
pub open spec fn manifest_path_of(p: Platform, root: Seq<char>) -> Seq<char> {
    match p {
        Platform::Windows => joined(p, joined(p, root, "current"@), "sq.version"@),
        _ => joined(p, contents_dir_of(p, root), "sq.version"@),
    }
}

/// The staging directory of the app `id` installed at `root`: inside the
/// install on Windows, outside the read-only install elsewhere.
pub open spec fn packages_dir_of(p: Platform, root: Seq<char>, id: Seq<char>) -> Seq<char> {
    match p {
        Platform::Windows => joined(p, root, "packages"@),
        Platform::Linux => joined(p, joined(p, "/var/tmp/velopack"@, id), "packages"@),
        Platform::MacOs => joined(p, joined(p, "/tmp/velopack"@, id), "packages"@),
    }
}

/// Finds the directory part of `s`.
fn parent_dir(s: &str, sep: char) -> (r: Option<&str>)
    ensures
        match r {
            Some(d) => parent_of(s@, sep) == Some(d@),
            None => parent_of(s@, sep) is None,
        },
{
    let mut i: usize = s.unicode_len();
    assert(s@.subrange(0, i as int) =~= s@);
    while i > 0
        invariant
            i <= s@.len(),
            parent_of(s@.subrange(0, i as int), sep) == parent_of(s@, sep),
        decreases i,
    {
        assert(s@.subrange(0, i as int).drop_last() =~= s@.subrange(0, i - 1));
        if s.get_char(i - 1) == sep {
            return Some(s.substring_char(0, i - 1));
        }
        i = i - 1;
    }
    None
}

fn separator_char(p: Platform) -> (r: char)
    ensures
        r == separator_of(p)[0],
{
    proof {
        reveal_strlit("\\");
        reveal_strlit("/");
    }
    match p {
        Platform::Windows => '\\',
        _ => '/',
    }
}

/// Derives the install layout from the running executable's path `exe_path`,
/// or fails with `NotInstalled` when the path is not inside an install.
pub fn probe_install(platform: Platform, exe_path: &str) -> (r: Result<InstallProbe, UpdateError>)
    ensures
        match r {
            Ok(pr) => {
                &&& install_root_of(platform, exe_path@) == Some(pr.root_app_dir@)
                &&& pr.update_exe_path@ == updater_path_of(platform, pr.root_app_dir@)
                &&& pr.manifest_path@ == manifest_path_of(platform, pr.root_app_dir@)
            },
            Err(e) => e == UpdateError::NotInstalled && install_root_of(platform, exe_path@) is None,
        },
{
    proof {
        reveal_strlit("/usr/bin/");
        reveal_strlit(".app/");
    }
    let root: String = match platform {
        Platform::Windows => {
            let sep = separator_char(platform);
            match parent_dir(exe_path, sep) {
                Some(d) => match parent_dir(d, sep) {
                    Some(r) => String::from_str(r),
                    None => {
                        return Err(UpdateError::NotInstalled);
                    },
                },
                None => {
                    return Err(UpdateError::NotInstalled);
                },
            }
        },
        Platform::Linux => match find_first(exe_path, "/usr/bin/") {
            Some(i) => {
                assert(is_first_occurrence(exe_path@, "/usr/bin/"@, i as int));
                String::from_str(exe_path.substring_char(0, i))
            },
            None => {
                return Err(UpdateError::NotInstalled);
            },
        },
        Platform::MacOs => match find_first(exe_path, ".app/") {
            Some(i) => {
                assert(is_first_occurrence(exe_path@, ".app/"@, i as int));
                String::from_str(exe_path.substring_char(0, i + 4))
            },
            None => {
                return Err(UpdateError::NotInstalled);
            },
        },
    };
    let contents = match platform {
        Platform::Windows => String::from_str(root.as_str()),
        Platform::Linux => {
            let usr = join_path(platform, root.as_str(), "usr");
            join_path(platform, usr.as_str(), "bin")
        },
        Platform::MacOs => {
            let c = join_path(platform, root.as_str(), "Contents");
            join_path(platform, c.as_str(), "MacOS")
        },
    };
    let updater_name = match platform {
        Platform::Windows => "Update.exe",
        Platform::Linux => "UpdateNix",
        Platform::MacOs => "UpdateMac",
    };
    let update_exe_path = join_path(platform, contents.as_str(), updater_name);
    let manifest_path = match platform {
        Platform::Windows => {
            let current = join_path(platform, root.as_str(), "current");
            join_path(platform, current.as_str(), "sq.version")
        },
        _ => join_path(platform, contents.as_str(), "sq.version"),
    };
    Ok(InstallProbe { root_app_dir: root, update_exe_path, manifest_path })
}

impl VelopackLocator {
    /// Completes the layout found by `probe_install` with the manifest read
    /// from its manifest path; the staging directory follows the platform.
    pub fn from_probe(platform: Platform, probe: InstallProbe, manifest: Manifest) -> (r:
        VelopackLocator)
        ensures
            r.root_app_dir@ == probe.root_app_dir@,
            r.update_exe_path@ == probe.update_exe_path@,
            r.packages_dir@ == packages_dir_of(platform, probe.root_app_dir@, manifest.id@),
            r.manifest == manifest,
    {
        let packages_dir = match platform {
            Platform::Windows => join_path(platform, probe.root_app_dir.as_str(), "packages"),
            Platform::Linux => {
                let d = join_path(platform, "/var/tmp/velopack", manifest.id.as_str());
                join_path(platform, d.as_str(), "packages")
            },
            Platform::MacOs => {
                let d = join_path(platform, "/tmp/velopack", manifest.id.as_str());
                join_path(platform, d.as_str(), "packages")
            },
        };
        VelopackLocator {
            root_app_dir: probe.root_app_dir,
            update_exe_path: probe.update_exe_path,
            packages_dir,
            manifest,
        }
    }
}

/// The text between the first `open` tag of `s` and the first `close` tag
/// after it.
pub open spec fn element_text(s: Seq<char>, open: Seq<char>, close: Seq<char>) -> Option<
    Seq<char>,
> {
    match first_occurrence(s, open) {
        Some(i) => {
            let rest = s.subrange(i + open.len(), s.len() as int);
            match first_occurrence(rest, close) {
                Some(j) => Some(rest.subrange(0, j)),
                None => None,
            }
        },
        None => None,
    }
}

/// What reading a manifest from `text` gives: its id, version and channel
/// elements; the channel is empty when absent.
pub open spec fn manifest_of(text: Seq<char>) -> Option<(Seq<char>, Seq<char>, Seq<char>)> {
    let id = element_text(text, "<id>"@, "</id>"@);
    let version = element_text(text, "<version>"@, "</version>"@);
    let channel = element_text(text, "<channel>"@, "</channel>"@);
    if id is Some && version is Some && semver_valid(version->0) {
        Some(
            (
                id->0,
                version->0,
                match channel {
                    Some(c) => c,
                    None => Seq::empty(),
                },
            ),
        )
    } else {
        None
    }
}

fn element(s: &str, open: &str, close: &str) -> (r: Option<String>)
    ensures
        match r {
            Some(t) => element_text(s@, open@, close@) == Some(t@),
            None => element_text(s@, open@, close@) is None,
        },
{
    let n = s.unicode_len();
    match find_first(s, open) {
        Some(i) => {
            assert(is_first_occurrence(s@, open@, i as int));
            let rest = s.substring_char(i + open.unicode_len(), n);
            match find_first(rest, close) {
                Some(j) => {
                    assert(is_first_occurrence(rest@, close@, j as int));
                    Some(String::from_str(rest.substring_char(0, j)))
                },
                None => None,
            }
        },
        None => None,
    }
}

/// Reads the manifest of the installed release from the text of its file:
/// the `id`, `version` and `channel` elements. Fails with `ManifestInvalid`
/// when the id or the version is missing or the version is not a semantic
/// version.
pub fn read_manifest_from_string(text: &str) -> (r: Result<Manifest, UpdateError>)
    ensures
        match r {
            Ok(m) => manifest_of(text@) == Some((m.id@, m.version@, m.channel@)),
            Err(e) => e == UpdateError::ManifestInvalid && manifest_of(text@) is None,
        },
{
    let id = element(text, "<id>", "</id>");
    let version = element(text, "<version>", "</version>");
    let channel = element(text, "<channel>", "</channel>");
    match (id, version) {
        (Some(id), Some(version)) => {
            if !is_semver(version.as_str()) {
                return Err(UpdateError::ManifestInvalid);
            }
            let channel = match channel {
                Some(c) => c,
                None => String::new(),
            };
            Ok(Manifest { id, version, channel })
        },
        _ => Err(UpdateError::ManifestInvalid),
    }
}

/// How many times the manifest file is read before its reading fails.
pub const MANIFEST_READ_ATTEMPTS: u32 = 4;

/// The pause, in milliseconds, after each failed read of the manifest file.
pub const MANIFEST_READ_BACKOFF_MS: u64 = 333;

/// What follows the failure of read number `attempt` of the manifest file:
/// `Some(pause)` to pause that many milliseconds and read again, growing with
/// each attempt, or `None` once every attempt is spent.
pub fn manifest_read_backoff(attempt: u32) -> (r: Option<u64>)
    ensures
        r == if attempt < MANIFEST_READ_ATTEMPTS {
            Some((MANIFEST_READ_BACKOFF_MS * attempt) as u64)
        } else {
            None::<u64>
        },
{
    if attempt < MANIFEST_READ_ATTEMPTS {
        Some(MANIFEST_READ_BACKOFF_MS * (attempt as u64))
    } else {
        None
    }
}

} // verus!
