//! Where the launcher's files live, as path strings.
use vstd::prelude::*;
use crate::scene::is_sep;

verus! {

/// `part` under `base`: a `/` goes between them unless `base` is empty or
/// already ends in a separator.
pub open spec fn joined(base: Seq<char>, part: Seq<char>) -> Seq<char> {
    if base.len() == 0 {
        part
    } else if is_sep(base.last()) {
        base + part
    } else {
        base + "/"@ + part
    }
}

/// The given directory, or the current directory when there is none.
pub open spec fn dir_or_current(dir: Option<String>) -> Seq<char> {
    match dir {
        Some(d) => d@,
        None => "."@,
    }
}

/// `part` under `base`.
pub fn join(base: &str, part: &str) -> (r: String)
    ensures
        r@ == joined(base@, part@),
{
    let n = base.unicode_len();
    let mut r = String::from_str(base);
    if n > 0 {
        let c = base.get_char(n - 1);
        if c != '/' && c != '\\' {
            r.append("/");
        }
    }
    r.append(part);
    r
}

fn dir_text(dir: &Option<String>) -> (r: String)
    ensures
        r@ == dir_or_current(*dir),
{
    match dir {
        Some(d) => d.clone(),
        None => String::from_str("."),
    }
}

/// The settings file, `banter-mcp/launcher-config.json` under the user's
/// configuration directory (the current directory when it is unknown).
pub fn get_config_path(config_dir: &Option<String>) -> (r: String)
    ensures
        r@ == joined(joined(dir_or_current(*config_dir), "banter-mcp"@), "launcher-config.json"@),
{
    let base = dir_text(config_dir);
    let dir = join(base.as_str(), "banter-mcp");
    join(dir.as_str(), "launcher-config.json")
}

/// The directory that holds the settings file.
pub fn get_config_dir(config_dir: &Option<String>) -> (r: String)
    ensures
        r@ == joined(dir_or_current(*config_dir), "banter-mcp"@),
{
    let base = dir_text(config_dir);
    join(base.as_str(), "banter-mcp")
}

/// The Editor folder of a Unity project, `Assets/Editor`.
pub fn extension_dir(unity_project_path: &str) -> (r: String)
    ensures
        r@ == joined(joined(unity_project_path@, "Assets"@), "Editor"@),
{
    let assets = join(unity_project_path, "Assets");
    join(assets.as_str(), "Editor")
}

/// Where the Unity extension is installed in a project.
pub fn extension_path(unity_project_path: &str) -> (r: String)
    ensures
        r@ == joined(joined(joined(unity_project_path@, "Assets"@), "Editor"@), "BanterMCPBridge.cs"@),
{
    let dir = extension_dir(unity_project_path);
    join(dir.as_str(), "BanterMCPBridge.cs")
}

/// Where the Unity extension is shipped under the MCP server's root.
pub fn extension_source(mcp_root: &str) -> (r: String)
    ensures
        r@ == joined(
            joined(joined(mcp_root@, "unity-extension"@), "Editor"@),
            "BanterMCPBridge.cs"@,
        ),
{
    let ext = join(mcp_root, "unity-extension");
    let dir = join(ext.as_str(), "Editor");
    join(dir.as_str(), "BanterMCPBridge.cs")
}

/// The directory where the MCP server is installed.
pub fn get_mcp_root() -> (r: String)
    ensures
        r@ == "C:/tools/banter-mcp"@,
{
    String::from_str("C:/tools/banter-mcp")
}

} // verus!
