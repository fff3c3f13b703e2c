use banter_launcher::channel::{add_channel, build_channel, ChannelError};
use banter_launcher::scene::{has_unity_ext, project_root, validate_unity_scene};

#[test]
fn add_channel_derives_project_root() {
    let c = add_channel("X".to_string(), "/proj/Assets/Scenes/Main.unity".to_string(), true)
        .unwrap();
    assert_eq!(c.name, "X");
    assert_eq!(c.unity_project_path, "/proj");
    assert_eq!(c.scene_path, Some("/proj/Assets/Scenes/Main.unity".to_string()));
    assert!(c.enabled);
    assert!(!c.id.is_empty());
    assert_eq!(c.id.len(), 36);
}

#[test]
fn add_channel_ids_are_unique() {
    let a = add_channel("A".to_string(), "/proj/Assets/Main.unity".to_string(), true).unwrap();
    let b = add_channel("B".to_string(), "/proj/Assets/Main.unity".to_string(), true).unwrap();
    assert_ne!(a.id, b.id);
}

#[test]
fn add_channel_rejects_other_extension() {
    let r = add_channel("X".to_string(), "/proj/Assets/Main.scene".to_string(), true);
    assert_eq!(r, Err(ChannelError::NotUnityScene));
}

#[test]
fn add_channel_rejects_missing_file() {
    let r = add_channel("X".to_string(), "/proj/Assets/Main.unity".to_string(), false);
    assert_eq!(r, Err(ChannelError::NotFound));
}

#[test]
fn add_channel_rejects_path_without_assets() {
    let r = add_channel("X".to_string(), "/proj/Scenes/Main.unity".to_string(), true);
    assert_eq!(r, Err(ChannelError::NoProjectRoot));
}

#[test]
fn build_channel_keeps_given_id() {
    let c = build_channel(
        "X".to_string(),
        "C:\\work\\game\\Assets\\Main.unity".to_string(),
        true,
        "abc".to_string(),
    )
    .unwrap();
    assert_eq!(c.id, "abc");
    assert_eq!(c.unity_project_path, "C:\\work\\game");
}

#[test]
fn project_root_takes_innermost_assets() {
    assert_eq!(project_root("/a/Assets/b/Assets/s.unity"), Some("/a/Assets/b".to_string()));
    assert_eq!(project_root("/Assets/s.unity"), Some("/".to_string()));
    assert_eq!(project_root("Assets/s.unity"), Some("".to_string()));
    assert_eq!(project_root("/a/MyAssets/s.unity"), None);
    assert_eq!(project_root("/a/Assets"), None);
}

#[test]
fn unity_extension_rule() {
    assert!(has_unity_ext("a/Main.unity"));
    assert!(has_unity_ext("a/..unity"));
    assert!(!has_unity_ext("a/.unity"));
    assert!(!has_unity_ext(".unity"));
    assert!(!has_unity_ext("a/Main.unity.bak"));
    assert!(!has_unity_ext("a/Main.scene"));
}

#[test]
fn validate_unity_scene_cases() {
    assert!(!validate_unity_scene("/proj/Assets/Main.unity", false));
    assert!(!validate_unity_scene("/proj/Scenes/Main.unity", true));
    assert!(validate_unity_scene("/proj/Assets/Main.unity", true));
    assert!(validate_unity_scene("C:\\proj\\Assets\\Main.unity", true));
    assert!(!validate_unity_scene("/proj/Assets/Main.scene", true));
    assert!(!validate_unity_scene("Assets/Main.unity", true));
}
