//! Paths of a project, relative to its root (`/`-separated).

use vstd::prelude::*;

verus! {

/// The name of the file which contains the ID of the project inside a staged pack.
pub fn fingerprint() -> (r: String)
    ensures
        r@ == ".allay-fingerprint"@,
{
    String::from_str(".allay-fingerprint")
}

/// The changed paths a watcher reacts to: all of them, as no path is ignored.
pub fn remove_ignored_files(paths: &Vec<String>) -> (r: Vec<String>)
    ensures
        r@ == paths@,
{
    let mut r: Vec<String> = Vec::new();
    let mut i: usize = 0;
    while i < paths.len()
        invariant
            i <= paths@.len(),
            r@ == paths@.subrange(0, i as int),
        decreases paths@.len() - i,
    {
        r.push(paths[i].clone());
        assert(r@ =~= paths@.subrange(0, i + 1));
        i = i + 1;
    }
    assert(paths@.subrange(0, i as int) =~= paths@);
    r
}

/// Joins two relative paths with a separator.
pub fn join(base: &str, rest: &str) -> (r: String)
    ensures
        r@ == base@ + "/"@ + rest@,
{
    let mut r = String::from_str(base);
    r.append("/");
    r.append(rest);
    r
}

/// The internal directory where things like UUIDs are stored.
pub fn internal() -> (r: String)
    ensures
        r@ == ".allay"@,
{
    String::from_str(".allay")
}

/// The directory of the log files, below the user's configuration directory
/// `global_internal`.
pub fn logs(global_internal: &str) -> (r: String)
    ensures
        r@ == global_internal@ + "/logs"@,
{
    let r = join(global_internal, "logs");
    proof {
        reveal_strlit("logs");
        reveal_strlit("/");
        reveal_strlit("/logs");
    }
    assert(r@ =~= global_internal@ + "/logs"@);
    r
}

pub fn project_id() -> (r: String)
    ensures
        r@ == ".allay/project_id.txt"@,
{
    let r = join(".allay", "project_id.txt");
    proof {
        reveal_strlit(".allay");
        reveal_strlit("project_id.txt");
        reveal_strlit("/");
        reveal_strlit(".allay/project_id.txt");
    }
    assert(r@ =~= ".allay/project_id.txt"@);
    r
}

pub fn version() -> (r: String)
    ensures
        r@ == ".allay/version.txt"@,
{
    let r = join(".allay", "version.txt");
    proof {
        reveal_strlit(".allay");
        reveal_strlit("version.txt");
        reveal_strlit("/");
        reveal_strlit(".allay/version.txt");
    }
    assert(r@ =~= ".allay/version.txt"@);
    r
}

/// The path of the built add-on.
pub fn build() -> (r: String)
    ensures
        r@ == "build.mcaddon"@,
{
    String::from_str("build.mcaddon")
}

pub fn uuids() -> (r: String)
    ensures
        r@ == ".allay/uuids.toml"@,
{
    let r = join(".allay", "uuids.toml");
    proof {
        reveal_strlit(".allay");
        reveal_strlit("uuids.toml");
        reveal_strlit("/");
        reveal_strlit(".allay/uuids.toml");
    }
    assert(r@ =~= ".allay/uuids.toml"@);
    r
}

pub fn src() -> (r: String)
    ensures
        r@ == "src"@,
{
    String::from_str("src")
}

pub fn src_bp() -> (r: String)
    ensures
        r@ == "src/BP"@,
{
    let r = join("src", "BP");
    proof {
        reveal_strlit("src");
        reveal_strlit("BP");
        reveal_strlit("/");
        reveal_strlit("src/BP");
    }
    assert(r@ =~= "src/BP"@);
    r
}

pub fn src_rp() -> (r: String)
    ensures
        r@ == "src/RP"@,
{
    let r = join("src", "RP");
    proof {
        reveal_strlit("src");
        reveal_strlit("RP");
        reveal_strlit("/");
        reveal_strlit("src/RP");
    }
    assert(r@ =~= "src/RP"@);
    r
}

pub fn src_sp() -> (r: String)
    ensures
        r@ == "src/SP"@,
{
    let r = join("src", "SP");
    proof {
        reveal_strlit("src");
        reveal_strlit("SP");
        reveal_strlit("/");
        reveal_strlit("src/SP");
    }
    assert(r@ =~= "src/SP"@);
    r
}

pub fn src_wt() -> (r: String)
    ensures
        r@ == "src/WT"@,
{
    let r = join("src", "WT");
    proof {
        reveal_strlit("src");
        reveal_strlit("WT");
        reveal_strlit("/");
        reveal_strlit("src/WT");
    }
    assert(r@ =~= "src/WT"@);
    r
}

pub fn config() -> (r: String)
    ensures
        r@ == "allay.toml"@,
{
    String::from_str("allay.toml")
}

pub fn pack_icon() -> (r: String)
    ensures
        r@ == "pack_icon.png"@,
{
    String::from_str("pack_icon.png")
}

pub fn gitignore() -> (r: String)
    ensures
        r@ == ".gitignore"@,
{
    String::from_str(".gitignore")
}

} // verus!
