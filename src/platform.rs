use vstd::prelude::*;

verus! {

/// The operating system whose install layout and defaults apply.
#[derive(Clone, Copy, Debug, PartialEq, Eq, Structural)]
pub enum Platform {
    Windows,
    Linux,
    MacOs,
}

/// The channel used when neither the caller nor the manifest names one.
pub open spec fn default_channel_of(p: Platform) -> Seq<char> {
    match p {
        Platform::Windows => "win"@,
        Platform::Linux => "linux"@,
        Platform::MacOs => "osx"@,
    }
}

/// The separator between path components.
pub open spec fn separator_of(p: Platform) -> Seq<char> {
    match p {
        Platform::Windows => "\\"@,
        _ => "/"@,
    }
}

/// `dir` joined with the relative component `name`: a separator is put
/// between them unless `dir` is empty or already ends with one.
pub open spec fn joined(p: Platform, dir: Seq<char>, name: Seq<char>) -> Seq<char> {
    if dir.len() == 0 || dir.last() == separator_of(p)[0] {
        dir + name
    } else {
        dir + separator_of(p) + name
    }
}

/// The channel used when neither the caller nor the manifest names one.
pub fn get_default_channel(platform: Platform) -> (r: String)
    ensures
        r@ == default_channel_of(platform),
{
    match platform {
        Platform::Windows => String::from_str("win"),
        Platform::Linux => String::from_str("linux"),
        Platform::MacOs => String::from_str("osx"),
    }
}

fn separator(platform: Platform) -> (r: &'static str)
    ensures
        r@ == separator_of(platform),
        r@.len() == 1,
{
    proof {
        reveal_strlit("\\");
        reveal_strlit("/");
    }
    match platform {
        Platform::Windows => "\\",
        _ => "/",
    }
}

/// Joins the relative component `name` onto the directory `dir`.
pub fn join_path(platform: Platform, dir: &str, name: &str) -> (r: String)
    ensures
        r@ == joined(platform, dir@, name@),
{
    let sep = separator(platform);
    let mut r = String::from_str(dir);
    let n = dir.unicode_len();
    if n == 0 || dir.get_char(n - 1) == sep.get_char(0) {
        r.append(name);
    } else {
        r.append(sep);
        r.append(name);
    }
    r
}

} // verus!
