//! The launcher's own settings, and the JSON document they are stored as.
use vstd::prelude::*;
use crate::channel::ProjectChannel;
use crate::json::{find_member, key_at, lemma_member_at, member, Json};

verus! {

/// The launcher's settings.
#[derive(Debug, PartialEq)]
pub struct LauncherConfig {
    pub channels: Vec<ProjectChannel>,
    /// Advisory: the `id` of one of `channels`, when set.
    pub active_channel_id: Option<String>,
    pub mcp_server_path: String,
    pub auto_start: bool,
}

/// Why a stored settings document cannot be read.
#[derive(Debug, Clone, Copy, PartialEq, Eq, Structural)]
pub enum ConfigError {
    /// The document does not have the settings' shape.
    Malformed,
}

/// Where the MCP server is installed unless the settings say otherwise.
pub open spec fn default_server_path() -> Seq<char> {
    "C:/tools/banter-mcp/dist/index.js"@
}

/// `c` holds the settings of a fresh installation.
pub open spec fn is_default(c: LauncherConfig) -> bool {
    &&& c.channels@.len() == 0
    &&& c.active_channel_id is None
    &&& c.mcp_server_path@ == default_server_path()
    &&& !c.auto_start
}

/// `a` and `b` hold the same settings.
pub open spec fn same_config(a: LauncherConfig, b: LauncherConfig) -> bool {
    &&& a.channels@ == b.channels@
    &&& a.active_channel_id == b.active_channel_id
    &&& a.mcp_server_path == b.mcp_server_path
    &&& a.auto_start == b.auto_start
}

impl Default for LauncherConfig {
    fn default() -> (r: Self)
        ensures
            is_default(r),
    {
        LauncherConfig {
            channels: Vec::new(),
            active_channel_id: None,
            mcp_server_path: String::from_str("C:/tools/banter-mcp/dist/index.js"),
            auto_start: false,
        }
    }
}

/// `j` stores the optional text `o`: the text, or null.
pub open spec fn encodes_opt_text(o: Option<String>, j: Json) -> bool {
    match o {
        Some(s) => j == Json::Str(s),
        None => j == Json::Null,
    }
}

/// `j` stores the channel `c`, its members in field order.
pub open spec fn encodes_channel(c: ProjectChannel, j: Json) -> bool {
    match j {
        Json::Object(m) => {
            &&& m@.len() == 5
            &&& m@[0].0@ == "id"@ && m@[0].1 == Json::Str(c.id)
            &&& m@[1].0@ == "name"@ && m@[1].1 == Json::Str(c.name)
            &&& m@[2].0@ == "unity_project_path"@ && m@[2].1 == Json::Str(c.unity_project_path)
            &&& m@[3].0@ == "scene_path"@ && encodes_opt_text(c.scene_path, m@[3].1)
            &&& m@[4].0@ == "enabled"@ && m@[4].1 == Json::Bool(c.enabled)
        },
        _ => false,
    }
}

/// `j` stores the settings `c`, its members in field order.
pub open spec fn encodes_config(c: LauncherConfig, j: Json) -> bool {
    match j {
        Json::Object(m) => {
            &&& m@.len() == 4
            &&& m@[0].0@ == "channels"@
            &&& match m@[0].1 {
                Json::Array(a) => {
                    &&& a@.len() == c.channels@.len()
                    &&& forall|i: int|
                        0 <= i < a@.len() ==> encodes_channel(c.channels@[i], #[trigger] a@[i])
                },
                _ => false,
            }
            &&& m@[1].0@ == "active_channel_id"@
            &&& encodes_opt_text(c.active_channel_id, m@[1].1)
            &&& m@[2].0@ == "mcp_server_path"@ && m@[2].1 == Json::Str(c.mcp_server_path)
            &&& m@[3].0@ == "auto_start"@ && m@[3].1 == Json::Bool(c.auto_start)
        },
        _ => false,
    }
}

/// The text member `key`, if present and text.
pub open spec fn text_member(m: Seq<(String, Json)>, key: Seq<char>) -> Option<String> {
    match member(m, key) {
        Some(Json::Str(s)) => Some(s),
        _ => None,
    }
}

/// The boolean member `key`, if present and boolean.
pub open spec fn bool_member(m: Seq<(String, Json)>, key: Seq<char>) -> Option<bool> {
    match member(m, key) {
        Some(Json::Bool(b)) => Some(b),
        _ => None,
    }
}

/// The optional text member `key`: absent and null read as no text; `None`
/// when it holds anything else.
pub open spec fn opt_text_member(m: Seq<(String, Json)>, key: Seq<char>) -> Option<Option<String>> {
    match member(m, key) {
        None => Some(None),
        Some(Json::Null) => Some(None),
        Some(Json::Str(s)) => Some(Some(s)),
        _ => None,
    }
}

/// The channel that `j` stores, if it stores one. Members that are not fields
/// are ignored.
pub open spec fn decode_channel(j: Json) -> Option<ProjectChannel> {
    match j {
        Json::Object(m) => {
            if text_member(m@, "id"@) is Some && text_member(m@, "name"@) is Some && text_member(
                m@,
                "unity_project_path"@,
            ) is Some && opt_text_member(m@, "scene_path"@) is Some && bool_member(
                m@,
                "enabled"@,
            ) is Some {
                Some(
                    ProjectChannel {
                        id: text_member(m@, "id"@)->0,
                        name: text_member(m@, "name"@)->0,
                        unity_project_path: text_member(m@, "unity_project_path"@)->0,
                        scene_path: opt_text_member(m@, "scene_path"@)->0,
                        enabled: bool_member(m@, "enabled"@)->0,
                    },
                )
            } else {
                None
            }
        },
        _ => None,
    }
}

/// The channels that `items` store, if each stores one.
pub open spec fn decode_channels(items: Seq<Json>) -> Option<Seq<ProjectChannel>> {
    if forall|i: int| 0 <= i < items.len() ==> (#[trigger] decode_channel(items[i])) is Some {
        Some(Seq::new(items.len(), |i: int| decode_channel(items[i])->0))
    } else {
        None
    }
}

/// The channel list stored under `channels`, if it is a list of channels.
pub open spec fn channels_member(m: Seq<(String, Json)>) -> Option<Seq<ProjectChannel>> {
    match member(m, "channels"@) {
        Some(Json::Array(a)) => decode_channels(a@),
        _ => None,
    }
}

/// `j` stores settings.
pub open spec fn decodable(j: Json) -> bool {
    match j {
        Json::Object(m) => {
            &&& channels_member(m@) is Some
            &&& opt_text_member(m@, "active_channel_id"@) is Some
            &&& text_member(m@, "mcp_server_path"@) is Some
            &&& bool_member(m@, "auto_start"@) is Some
        },
        _ => false,
    }
}

/// `j` stores the settings `c`.
pub open spec fn decodes(j: Json, c: LauncherConfig) -> bool {
    match j {
        Json::Object(m) => {
            &&& channels_member(m@) == Some(c.channels@)
            &&& opt_text_member(m@, "active_channel_id"@) == Some(c.active_channel_id)
            &&& text_member(m@, "mcp_server_path"@) == Some(c.mcp_server_path)
            &&& bool_member(m@, "auto_start"@) == Some(c.auto_start)
        },
        _ => false,
    }
}

/// A stored channel reads back as the same channel.
pub proof fn lemma_channel_round_trip(c: ProjectChannel, j: Json)
    requires
        encodes_channel(c, j),
    ensures
        decode_channel(j) == Some(c),
{
    reveal_strlit("id");
    reveal_strlit("name");
    reveal_strlit("unity_project_path");
    reveal_strlit("scene_path");
    reveal_strlit("enabled");
    if let Json::Object(m) = j {
        assert(key_at(m@, "id"@, 0));
        assert(m@[0].0@.len() != "name"@.len());
        assert(key_at(m@, "name"@, 1));
        assert(m@[0].0@.len() != "unity_project_path"@.len());
        assert(m@[1].0@.len() != "unity_project_path"@.len());
        assert(key_at(m@, "unity_project_path"@, 2));
        assert(m@[0].0@.len() != "scene_path"@.len());
        assert(m@[1].0@.len() != "scene_path"@.len());
        assert(m@[2].0@.len() != "scene_path"@.len());
        assert(key_at(m@, "scene_path"@, 3));
        assert(m@[0].0@.len() != "enabled"@.len());
        assert(m@[1].0@.len() != "enabled"@.len());
        assert(m@[2].0@.len() != "enabled"@.len());
        assert(m@[3].0@.len() != "enabled"@.len());
        assert(key_at(m@, "enabled"@, 4));
        lemma_member_at(m@, "id"@, 0);
        lemma_member_at(m@, "name"@, 1);
        lemma_member_at(m@, "unity_project_path"@, 2);
        lemma_member_at(m@, "scene_path"@, 3);
        lemma_member_at(m@, "enabled"@, 4);
    }
}

/// Saving settings and loading what was saved gives back the same settings:
/// the stored document can be read, it reads as `c`, and whatever is read from
/// it equals `c`.
pub proof fn lemma_save_load(c: LauncherConfig, j: Json, loaded: LauncherConfig)
    requires
        encodes_config(c, j),
    ensures
        decodable(j),
        decodes(j, c),
        decodes(j, loaded) ==> same_config(loaded, c),
{
    reveal_strlit("channels");
    reveal_strlit("active_channel_id");
    reveal_strlit("mcp_server_path");
    reveal_strlit("auto_start");
    if let Json::Object(m) = j {
        assert(key_at(m@, "channels"@, 0));
        assert(m@[0].0@.len() != "active_channel_id"@.len());
        assert(key_at(m@, "active_channel_id"@, 1));
        assert(m@[0].0@.len() != "mcp_server_path"@.len());
        assert(m@[1].0@.len() != "mcp_server_path"@.len());
        assert(key_at(m@, "mcp_server_path"@, 2));
        assert(m@[0].0@.len() != "auto_start"@.len());
        assert(m@[1].0@.len() != "auto_start"@.len());
        assert(m@[2].0@.len() != "auto_start"@.len());
        assert(key_at(m@, "auto_start"@, 3));
        lemma_member_at(m@, "channels"@, 0);
        lemma_member_at(m@, "active_channel_id"@, 1);
        lemma_member_at(m@, "mcp_server_path"@, 2);
        lemma_member_at(m@, "auto_start"@, 3);
        if let Json::Array(a) = m@[0].1 {
            assert forall|i: int| 0 <= i < a@.len() implies decode_channel(a@[i]) == Some(
                c.channels@[i],
            ) by {
                lemma_channel_round_trip(c.channels@[i], a@[i]);
            }
            assert(Seq::new(a@.len(), |i: int| decode_channel(a@[i])->0) =~= c.channels@);
        }
    }
}

fn opt_text_json(o: &Option<String>) -> (r: Json)
    ensures
        encodes_opt_text(*o, r),
{
    match o {
        Some(s) => Json::Str(s.clone()),
        None => Json::Null,
    }
}

/// The document that stores a channel.
pub fn channel_to_json(c: &ProjectChannel) -> (r: Json)
    ensures
        encodes_channel(*c, r),
{
    let mut m: Vec<(String, Json)> = Vec::new();
    m.push((String::from_str("id"), Json::Str(c.id.clone())));
    m.push((String::from_str("name"), Json::Str(c.name.clone())));
    m.push((String::from_str("unity_project_path"), Json::Str(c.unity_project_path.clone())));
    m.push((String::from_str("scene_path"), opt_text_json(&c.scene_path)));
    m.push((String::from_str("enabled"), Json::Bool(c.enabled)));
    Json::Object(m)
}

/// The document that stores the settings, members in field order.
pub fn save_config(config: &LauncherConfig) -> (r: Json)
    ensures
        encodes_config(*config, r),
{
    let mut items: Vec<Json> = Vec::new();
    let mut i: usize = 0;
    while i < config.channels.len()
        invariant
            i <= config.channels@.len(),
            items@.len() == i,
            forall|k: int| 0 <= k < i ==> encodes_channel(config.channels@[k], #[trigger] items@[k]),
        decreases config.channels@.len() - i,
    {
        items.push(channel_to_json(&config.channels[i]));
        i = i + 1;
    }
    let mut m: Vec<(String, Json)> = Vec::new();
    m.push((String::from_str("channels"), Json::Array(items)));
    m.push((String::from_str("active_channel_id"), opt_text_json(&config.active_channel_id)));
    m.push((String::from_str("mcp_server_path"), Json::Str(config.mcp_server_path.clone())));
    m.push((String::from_str("auto_start"), Json::Bool(config.auto_start)));
    Json::Object(m)
}

fn text_field(m: &Vec<(String, Json)>, key: &str) -> (r: Option<String>)
    ensures
        r == text_member(m@, key@),
{
    match find_member(m, key) {
        Some(i) => match &m[i].1 {
            Json::Str(s) => Some(s.clone()),
            _ => None,
        },
        None => None,
    }
}

fn bool_field(m: &Vec<(String, Json)>, key: &str) -> (r: Option<bool>)
    ensures
        r == bool_member(m@, key@),
{
    match find_member(m, key) {
        Some(i) => match &m[i].1 {
            Json::Bool(b) => Some(*b),
            _ => None,
        },
        None => None,
    }
}

fn opt_text_field(m: &Vec<(String, Json)>, key: &str) -> (r: Option<Option<String>>)
    ensures
        r == opt_text_member(m@, key@),
{
    match find_member(m, key) {
        Some(i) => match &m[i].1 {
            Json::Null => Some(None),
            Json::Str(s) => Some(Some(s.clone())),
            _ => None,
        },
        None => Some(None),
    }
}

/// The channel that a document stores, if it stores one.
pub fn channel_from_json(j: &Json) -> (r: Option<ProjectChannel>)
    ensures
        r == decode_channel(*j),
{
    match j {
        Json::Object(m) => {
            let id = text_field(m, "id");
            let name = text_field(m, "name");
            let root = text_field(m, "unity_project_path");
            let scene = opt_text_field(m, "scene_path");
            let enabled = bool_field(m, "enabled");
            match (id, name, root, scene, enabled) {
                (Some(id), Some(name), Some(root), Some(scene), Some(enabled)) => Some(
                    ProjectChannel { id, name, unity_project_path: root, scene_path: scene, enabled },
                ),
                _ => None,
            }
        },
        _ => None,
    }
}

fn channels_from_json(items: &Vec<Json>) -> (r: Option<Vec<ProjectChannel>>)
    ensures
        match decode_channels(items@) {
            Some(cs) => r matches Some(v) && v@ == cs,
            None => r is None,
        },
{
    let mut out: Vec<ProjectChannel> = Vec::new();
    let mut i: usize = 0;
    while i < items.len()
        invariant
            i <= items@.len(),
            out@.len() == i,
            forall|k: int| 0 <= k < i ==> decode_channel(#[trigger] items@[k]) == Some(out@[k]),
        decreases items@.len() - i,
    {
        match channel_from_json(&items[i]) {
            Some(c) => out.push(c),
            None => {
                return None;
            },
        }
        i = i + 1;
    }
    assert(out@ =~= Seq::new(items@.len(), |k: int| decode_channel(items@[k])->0));
    Some(out)
}

/// The settings that a document stores, if it stores settings. Members that
/// are not fields are ignored; an absent or null `active_channel_id` reads as none.
pub fn config_from_json(j: &Json) -> (r: Option<LauncherConfig>)
    ensures
        r is Some <==> decodable(*j),
        r matches Some(c) ==> decodes(*j, c),
{
    match j {
        Json::Object(m) => {
            let channels = match find_member(m, "channels") {
                Some(i) => match &m[i].1 {
                    Json::Array(a) => channels_from_json(a),
                    _ => None,
                },
                None => None,
            };
            let active = opt_text_field(m, "active_channel_id");
            let server = text_field(m, "mcp_server_path");
            let auto_start = bool_field(m, "auto_start");
            match (channels, active, server, auto_start) {
                (Some(channels), Some(active), Some(server), Some(auto_start)) => Some(
                    LauncherConfig {
                        channels,
                        active_channel_id: active,
                        mcp_server_path: server,
                        auto_start,
                    },
                ),
                _ => None,
            }
        },
        _ => None,
    }
}

/// The settings to run with: those of the stored document, or the defaults
/// when nothing is stored.
pub fn load_config(stored: Option<Json>) -> (r: Result<LauncherConfig, ConfigError>)
    ensures
        match stored {
            None => r matches Ok(c) && is_default(c),
            Some(j) => if decodable(j) {
                r matches Ok(c) && decodes(j, c)
            } else {
                r == Err::<LauncherConfig, ConfigError>(ConfigError::Malformed)
            },
        },
{
    match stored {
        None => Ok(LauncherConfig::default()),
        Some(j) => match config_from_json(&j) {
            Some(c) => Ok(c),
            None => Err(ConfigError::Malformed),
        },
    }
}

} // verus!
