use banter_launcher::channel::ProjectChannel;
use banter_launcher::config::{
    channel_from_json, config_from_json, load_config, save_config, ConfigError, LauncherConfig,
};
use banter_launcher::json::Json;

fn text(s: &str) -> Json {
    Json::Str(s.to_string())
}

fn sample_channel(id: &str, scene: Option<&str>) -> ProjectChannel {
    ProjectChannel {
        id: id.to_string(),
        name: "Main".to_string(),
        unity_project_path: "/proj".to_string(),
        scene_path: scene.map(|s| s.to_string()),
        enabled: true,
    }
}

fn sample_config() -> LauncherConfig {
    LauncherConfig {
        channels: vec![
            sample_channel("one", Some("/proj/Assets/Main.unity")),
            sample_channel("two", None),
        ],
        active_channel_id: Some("one".to_string()),
        mcp_server_path: "/opt/mcp/index.js".to_string(),
        auto_start: true,
    }
}

#[test]
fn load_without_file_gives_defaults() {
    let c = load_config(None).unwrap();
    assert!(c.channels.is_empty());
    assert_eq!(c.active_channel_id, None);
    assert_eq!(c.mcp_server_path, "C:/tools/banter-mcp/dist/index.js");
    assert!(!c.auto_start);
}

#[test]
fn save_then_load_populated() {
    let c = sample_config();
    let back = load_config(Some(save_config(&c))).unwrap();
    assert_eq!(back, c);
}

#[test]
fn save_then_load_empty() {
    let c = LauncherConfig::default();
    let back = load_config(Some(save_config(&c))).unwrap();
    assert_eq!(back, c);
}

#[test]
fn save_writes_fields_in_order() {
    let j = save_config(&sample_config());
    match j {
        Json::Object(m) => {
            let keys: Vec<&str> = m.iter().map(|(k, _)| k.as_str()).collect();
            assert_eq!(keys, vec!["channels", "active_channel_id", "mcp_server_path", "auto_start"]);
            assert_eq!(m[3].1, Json::Bool(true));
        }
        _ => panic!("settings are stored as an object"),
    }
}

#[test]
fn load_rejects_wrong_shape() {
    assert_eq!(load_config(Some(Json::Array(vec![]))), Err(ConfigError::Malformed));
    let missing = Json::Object(vec![("channels".to_string(), Json::Array(vec![]))]);
    assert_eq!(load_config(Some(missing)), Err(ConfigError::Malformed));
}

#[test]
fn load_tolerates_missing_active_and_extra_members() {
    let j = Json::Object(vec![
        ("extra".to_string(), Json::Number("3".to_string())),
        ("auto_start".to_string(), Json::Bool(false)),
        ("mcp_server_path".to_string(), text("/x.js")),
        ("channels".to_string(), Json::Array(vec![])),
    ]);
    let c = config_from_json(&j).unwrap();
    assert_eq!(c.active_channel_id, None);
    assert_eq!(c.mcp_server_path, "/x.js");
    assert!(c.channels.is_empty());
}

#[test]
fn channel_with_null_scene_reads_back() {
    let j = Json::Object(vec![
        ("id".to_string(), text("i")),
        ("name".to_string(), text("n")),
        ("unity_project_path".to_string(), text("/p")),
        ("scene_path".to_string(), Json::Null),
        ("enabled".to_string(), Json::Bool(false)),
    ]);
    let c = channel_from_json(&j).unwrap();
    assert_eq!(c.scene_path, None);
    assert!(!c.enabled);
}
