//! The denylist configuration: exact process names and optional patterns.
use vstd::prelude::*;

verus! {

/// The denylist as configured: exact image names (case-sensitive) and
/// patterns that are compiled into one pattern set.
#[derive(Debug)]
pub struct Config {
    pub blacklist: Vec<String>,
    pub blacklist_regex: Vec<String>,
}

/// The views of a list of strings.
pub open spec fn views(v: Seq<String>) -> Seq<Seq<char>> {
    v.map_values(|s: String| s@)
}

/// The built-in denylist of heavyweight helper-tool executables, used when
/// no configuration file exists.
pub open spec fn default_blacklist() -> Seq<Seq<char>> {
    seq![
        "cls-magic2_x64.exe"@,
        "cls-magic2_x86.exe"@,
        "cls-magic2l_x64.exe"@,
        "cls-magic2l_x86.exe"@,
        "oo2reck.exe"@,
        "rz.exe"@,
        "xtool.exe"@,
    ]
}

impl Default for Config {
    /// The built-in denylist and no patterns.
    fn default() -> (r: Self)
        ensures
            views(r.blacklist@) == default_blacklist(),
            r.blacklist_regex@.len() == 0,
    {
        let mut blacklist: Vec<String> = Vec::new();
        blacklist.push(String::from_str("cls-magic2_x64.exe"));
        blacklist.push(String::from_str("cls-magic2_x86.exe"));
        blacklist.push(String::from_str("cls-magic2l_x64.exe"));
        blacklist.push(String::from_str("cls-magic2l_x86.exe"));
        blacklist.push(String::from_str("oo2reck.exe"));
        blacklist.push(String::from_str("rz.exe"));
        blacklist.push(String::from_str("xtool.exe"));
        assert(views(blacklist@) =~= default_blacklist());
        Config { blacklist, blacklist_regex: Vec::new() }
    }
}

} // verus!
