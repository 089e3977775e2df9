//! Where the programs keep their files: the configuration directory, the
//! profile cache and the control socket, chosen from the environment's
//! directories (the caller reads the environment).

use vstd::prelude::*;

verus! {

/// A relative path `name` appended to `dir` as `Path::join` does: with a
/// `/` between them unless `dir` is empty or already ends in one.
pub open spec fn path_join(dir: Seq<char>, name: Seq<char>) -> Seq<char> {
    if dir.len() == 0 {
        name
    } else if dir.last() == '/' {
        dir + name
    } else {
        dir + seq!['/'] + name
    }
}

/// Append the relative path `name` to `dir`.
pub fn join_path(dir: &str, name: &str) -> (res: String)
    ensures
        res@ == path_join(dir@, name@),
{
    let n = dir.unicode_len();
    if n == 0 {
        return String::from_str(name);
    }
    let mut p = String::from_str(dir);
    if dir.get_char(n - 1) != '/' {
        p.append("/");
        proof {
            reveal_strlit("/");
        }
    }
    p.append(name);
    p
}

/// The configuration directory: `xbelite2` in `$XDG_CONFIG_HOME`, else
/// `.config/xbelite2` in `$HOME`, else `fallback`.
pub fn config_dir_in(xdg_config_home: Option<&str>, home: Option<&str>, fallback: &str) -> (res: String)
    ensures
        xdg_config_home matches Some(d) ==> res@ == path_join(d@, "xbelite2"@),
        xdg_config_home is None ==> (home matches Some(h) ==> res@ == path_join(
            h@,
            ".config/xbelite2"@,
        )),
        xdg_config_home is None && home is None ==> res@ == fallback@,
{
    match xdg_config_home {
        Some(d) => join_path(d, "xbelite2"),
        None => match home {
            Some(h) => join_path(h, ".config/xbelite2"),
            None => String::from_str(fallback),
        },
    }
}

/// The file of the hardware profile cache: `xbelite2/hw_profiles.json` in
/// `$XDG_CACHE_HOME`, else `.cache/xbelite2/hw_profiles.json` in `$HOME`,
/// else none.
pub fn cache_path_in(xdg_cache_home: Option<&str>, home: Option<&str>) -> (res: Option<String>)
    ensures
        xdg_cache_home matches Some(d) ==> (res matches Some(p) && p@ == path_join(
            path_join(d@, "xbelite2"@),
            "hw_profiles.json"@,
        )),
        xdg_cache_home is None ==> (home matches Some(h) ==> (res matches Some(p) && p@
            == path_join(h@, ".cache/xbelite2/hw_profiles.json"@))),
        xdg_cache_home is None && home is None ==> res is None,
{
    match xdg_cache_home {
        Some(d) => {
            let dir = join_path(d, "xbelite2");
            Some(join_path(dir.as_str(), "hw_profiles.json"))
        },
        None => match home {
            Some(h) => Some(join_path(h, ".cache/xbelite2/hw_profiles.json")),
            None => None,
        },
    }
}

/// The file of a device's configuration: `<device_id>.json` in `dir`.
pub fn config_file_in(dir: &str, device_id: &str) -> (res: String)
    ensures
        res@ == path_join(dir@, device_id@ + ".json"@),
{
    let mut file = String::from_str(device_id);
    file.append(".json");
    join_path(dir, file.as_str())
}

} // verus!
