use banter_launcher::paths::{
    extension_dir, extension_path, extension_source, get_config_dir,
    get_config_path, get_mcp_root, join,
};

#[test]
fn join_inserts_one_separator() {
    assert_eq!(join("a", "b"), "a/b");
    assert_eq!(join("a/", "b"), "a/b");
    assert_eq!(join("a\\", "b"), "a\\b");
    assert_eq!(join("", "b"), "b");
}

#[test]
fn config_path_layout() {
    let dir = Some("/home/u/.config".to_string());
    assert_eq!(get_config_path(&dir), "/home/u/.config/banter-mcp/launcher-config.json");
    assert_eq!(get_config_dir(&dir), "/home/u/.config/banter-mcp");
    assert_eq!(get_config_path(&None), "./banter-mcp/launcher-config.json");
}

#[test]
fn extension_paths_layout() {
    assert_eq!(extension_dir("/proj"), "/proj/Assets/Editor");
    assert_eq!(extension_path("/proj"), "/proj/Assets/Editor/BanterMCPBridge.cs");
    assert_eq!(
        extension_source("C:/tools/banter-mcp"),
        "C:/tools/banter-mcp/unity-extension/Editor/BanterMCPBridge.cs"
    );
    assert_eq!(get_mcp_root(), "C:/tools/banter-mcp");
}
