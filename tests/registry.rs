use banter_launcher::channel::ProjectChannel;
use banter_launcher::json::Json;
use banter_launcher::registry::{
    get_mcp_config, remove_mcp_config, server_entry, update_mcp_config,
    RegistryError,
};

fn text(s: &str) -> Json {
    Json::Str(s.to_string())
}

fn obj(members: Vec<(&str, Json)>) -> Json {
    Json::Object(members.into_iter().map(|(k, v)| (k.to_string(), v)).collect())
}

fn channel(scene: Option<&str>) -> ProjectChannel {
    ProjectChannel {
        id: "id".to_string(),
        name: "Main".to_string(),
        unity_project_path: "/proj".to_string(),
        scene_path: scene.map(|s| s.to_string()),
        enabled: true,
    }
}

fn expected_entry(scene: Option<&str>) -> Json {
    let mut env = vec![("UNITY_PROJECT_PATH", text("/proj"))];
    if let Some(s) = scene {
        env.push(("UNITY_SCENE_PATH", text(s)));
    }
    obj(vec![
        ("command", text("node")),
        ("args", Json::Array(vec![text("/mcp/index.js")])),
        ("env", obj(env)),
    ])
}

fn other_tool() -> Json {
    obj(vec![("command", text("other")), ("args", Json::Array(vec![]))])
}

#[test]
fn server_entry_shape() {
    assert_eq!(server_entry(&channel(None), "/mcp/index.js"), expected_entry(None));
    assert_eq!(
        server_entry(&channel(Some("/proj/Assets/Main.unity")), "/mcp/index.js"),
        expected_entry(Some("/proj/Assets/Main.unity"))
    );
}

#[test]
fn upsert_keeps_unrelated_keys() {
    let doc = obj(vec![
        ("otherSetting", Json::Bool(true)),
        ("mcpServers", obj(vec![("other-tool", other_tool())])),
    ]);
    let scene = Some("/proj/Assets/Main.unity");
    let out = update_mcp_config(Some(doc), &channel(scene), "/mcp/index.js").unwrap();
    let want = obj(vec![
        ("otherSetting", Json::Bool(true)),
        ("mcpServers", obj(vec![("other-tool", other_tool()), ("banter", expected_entry(scene))])),
    ]);
    assert_eq!(out, want);
}

#[test]
fn upsert_replaces_existing_entry_in_place() {
    let doc = obj(vec![(
        "mcpServers",
        obj(vec![("banter", Json::Null), ("other-tool", other_tool())]),
    )]);
    let out = update_mcp_config(Some(doc), &channel(None), "/mcp/index.js").unwrap();
    let want = obj(vec![(
        "mcpServers",
        obj(vec![("banter", expected_entry(None)), ("other-tool", other_tool())]),
    )]);
    assert_eq!(out, want);
}

#[test]
fn upsert_without_document_creates_one() {
    let out = update_mcp_config(None, &channel(None), "/mcp/index.js").unwrap();
    let want = obj(vec![("mcpServers", obj(vec![("banter", expected_entry(None))]))]);
    assert_eq!(out, want);
}

#[test]
fn upsert_rejects_non_object_documents() {
    let r = update_mcp_config(Some(Json::Array(vec![])), &channel(None), "/m");
    assert_eq!(r, Err(RegistryError::NotAnObject));
    let doc = obj(vec![("mcpServers", Json::Bool(true))]);
    let r = update_mcp_config(Some(doc), &channel(None), "/m");
    assert_eq!(r, Err(RegistryError::ServersNotAnObject));
}

#[test]
fn remove_without_entry_is_no_op() {
    let doc = obj(vec![
        ("otherSetting", Json::Bool(true)),
        ("mcpServers", obj(vec![("other-tool", other_tool())])),
    ]);
    let copy = obj(vec![
        ("otherSetting", Json::Bool(true)),
        ("mcpServers", obj(vec![("other-tool", other_tool())])),
    ]);
    assert_eq!(remove_mcp_config(Some(doc)), Some(copy));
}

#[test]
fn remove_takes_entry_out() {
    let doc = obj(vec![
        ("a", Json::Number("1".to_string())),
        ("mcpServers", obj(vec![("banter", expected_entry(None)), ("other-tool", other_tool())])),
    ]);
    let want = obj(vec![
        ("a", Json::Number("1".to_string())),
        ("mcpServers", obj(vec![("other-tool", other_tool())])),
    ]);
    assert_eq!(remove_mcp_config(Some(doc)), Some(want));
}

#[test]
fn remove_without_file_writes_nothing() {
    assert_eq!(remove_mcp_config(None), None);
}

#[test]
fn read_without_file_is_empty_object() {
    assert_eq!(get_mcp_config(None), Json::Object(vec![]));
    assert_eq!(get_mcp_config(Some(Json::Bool(true))), Json::Bool(true));
}
