//! Editing the assistant's MCP server registry: a JSON document of which this
//! launcher owns only the `banter` entry under `mcpServers`.
use vstd::prelude::*;
use crate::channel::ProjectChannel;
use crate::json::{
    find_key, find_member, has_key, is_text, lemma_find_key, lemma_put_member, member,
    put_member, drop_member, remove_member, set_member, Json,
};

verus! {

/// The key of the registry's table of servers.
pub open spec fn servers_key() -> Seq<char> {
    "mcpServers"@
}

/// The key of this launcher's server in that table.
pub open spec fn entry_key() -> Seq<char> {
    "banter"@
}

/// Why a registry document cannot take the server entry.
#[derive(Debug, Clone, Copy, PartialEq, Eq, Structural)]
pub enum RegistryError {
    /// The document is neither an object nor null.
    NotAnObject,
    /// The document's `mcpServers` member is neither an object nor null.
    ServersNotAnObject,
}

/// The members of a registry document: none for null, those of an object.
pub open spec fn doc_members(doc: Json) -> Option<Seq<(String, Json)>> {
    match doc {
        Json::Null => Some(Seq::empty()),
        Json::Object(m) => Some(m@),
        _ => None,
    }
}

/// The members of a stored document; a missing or unreadable one counts as an
/// empty object.
pub open spec fn stored_members(stored: Option<Json>) -> Option<Seq<(String, Json)>> {
    match stored {
        None => Some(Seq::empty()),
        Some(doc) => doc_members(doc),
    }
}

/// The server table of a document's members: none when absent or null.
pub open spec fn servers_of(members: Seq<(String, Json)>) -> Seq<(String, Json)> {
    match member(members, servers_key()) {
        Some(Json::Object(s)) => s@,
        _ => Seq::empty(),
    }
}

/// The `mcpServers` member is there and is neither an object nor null.
pub open spec fn servers_malformed(members: Seq<(String, Json)>) -> bool {
    match member(members, servers_key()) {
        None => false,
        Some(Json::Null) => false,
        Some(Json::Object(_)) => false,
        _ => true,
    }
}

/// The environment handed to the server: the project path, then the scene
/// path when the channel has one.
pub open spec fn is_server_env(env: Seq<(String, Json)>, channel: ProjectChannel) -> bool {
    &&& env.len() >= 1
    &&& env[0].0@ == "UNITY_PROJECT_PATH"@
    &&& is_text(env[0].1, channel.unity_project_path@)
    &&& match channel.scene_path {
        Some(s) => env.len() == 2 && env[1].0@ == "UNITY_SCENE_PATH"@ && is_text(env[1].1, s@),
        None => env.len() == 1,
    }
}

/// `j` is the launch descriptor of the server for `channel`:
/// `{ "command": "node", "args": [server_path], "env": {...} }`.
pub open spec fn is_server_entry(j: Json, channel: ProjectChannel, server_path: Seq<char>) -> bool {
    match j {
        Json::Object(m) => {
            &&& m@.len() == 3
            &&& m@[0].0@ == "command"@
            &&& is_text(m@[0].1, "node"@)
            &&& m@[1].0@ == "args"@
            &&& match m@[1].1 {
                Json::Array(a) => a@.len() == 1 && is_text(a@[0], server_path),
                _ => false,
            }
            &&& m@[2].0@ == "env"@
            &&& match m@[2].1 {
                Json::Object(env) => is_server_env(env@, channel),
                _ => false,
            }
        },
        _ => false,
    }
}

/// `after` is `before` with the server entry set to `entry`: the server table
/// is created if absent, and nothing else changes.
pub open spec fn registered(
    before: Seq<(String, Json)>,
    entry: Json,
    after: Seq<(String, Json)>,
) -> bool {
    match member(after, servers_key()) {
        Some(Json::Object(s)) => {
            &&& put_member(servers_of(before), entry_key(), entry, s@)
            &&& put_member(before, servers_key(), Json::Object(s), after)
        },
        _ => false,
    }
}

/// `after` is `before` with the server entry for `channel` and `server_path` set.
pub open spec fn registers(
    before: Seq<(String, Json)>,
    channel: ProjectChannel,
    server_path: Seq<char>,
    after: Seq<(String, Json)>,
) -> bool {
    match member(after, servers_key()) {
        Some(Json::Object(s)) => match member(s@, entry_key()) {
            Some(e) => is_server_entry(e, channel, server_path) && registered(before, e, after),
            None => false,
        },
        _ => false,
    }
}

/// The document holds a server entry under `mcpServers`.
pub open spec fn has_registration(doc: Json) -> bool {
    match doc {
        Json::Object(m) => match member(m@, servers_key()) {
            Some(Json::Object(s)) => has_key(s@, entry_key()),
            _ => false,
        },
        _ => false,
    }
}

/// `out` is `doc` with the server entry taken out of `mcpServers`, every other
/// member kept in its place.
pub open spec fn unregistered(doc: Json, out: Json) -> bool {
    match (doc, out) {
        (Json::Object(m), Json::Object(m2)) => match find_key(m@, servers_key()) {
            Some(i) => match (m@[i].1, m2@[i].1) {
                (Json::Object(s), Json::Object(s2)) => {
                    &&& m2@ == m@.update(i, (m@[i].0, m2@[i].1))
                    &&& s2@ == drop_member(s@, entry_key())
                },
                _ => false,
            },
            None => false,
        },
        _ => false,
    }
}

/// The launch descriptor of the server for `channel`: it runs `node` on
/// `mcp_server_path` with the channel's project and scene in its environment.
pub fn server_entry(channel: &ProjectChannel, mcp_server_path: &str) -> (r: Json)
    ensures
        is_server_entry(r, *channel, mcp_server_path@),
{
    let mut env: Vec<(String, Json)> = Vec::new();
    env.push(
        (String::from_str("UNITY_PROJECT_PATH"), Json::Str(channel.unity_project_path.clone())),
    );
    match &channel.scene_path {
        Some(s) => {
            env.push((String::from_str("UNITY_SCENE_PATH"), Json::Str(s.clone())));
        },
        None => {},
    }
    let mut args: Vec<Json> = Vec::new();
    args.push(Json::Str(String::from_str(mcp_server_path)));
    let mut m: Vec<(String, Json)> = Vec::new();
    m.push((String::from_str("command"), Json::Str(String::from_str("node"))));
    m.push((String::from_str("args"), Json::Array(args)));
    m.push((String::from_str("env"), Json::Object(env)));
    Json::Object(m)
}

/// Sets the server entry of a registry document to `entry`, keeping every
/// other member and every other server.
pub fn register_entry(doc: Json, entry: Json) -> (r: Result<Json, RegistryError>)
    ensures
        match doc_members(doc) {
            None => r == Err::<Json, RegistryError>(RegistryError::NotAnObject),
            Some(before) => if servers_malformed(before) {
                r == Err::<Json, RegistryError>(RegistryError::ServersNotAnObject)
            } else {
                r matches Ok(Json::Object(after)) && registered(before, entry, after@)
            },
        },
{
    let ghost before = doc_members(doc)->0;
    let mut members: Vec<(String, Json)> = match doc {
        Json::Null => Vec::new(),
        Json::Object(m) => m,
        _ => {
            return Err(RegistryError::NotAnObject);
        },
    };
    assert(members@ == before);
    proof {
        lemma_find_key(before, servers_key());
        reveal_strlit("mcpServers");
    }
    match find_member(&members, "mcpServers") {
        None => {
            let mut servers: Vec<(String, Json)> = Vec::new();
            set_member(&mut servers, "banter", entry);
            let ghost s = servers;
            set_member(&mut members, "mcpServers", Json::Object(servers));
            proof {
                lemma_put_member(before, servers_key(), Json::Object(s), members@, servers_key());
            }
        },
        Some(i) => {
            let (k, v) = members.remove(i);
            let mut servers: Vec<(String, Json)> = match v {
                Json::Null => Vec::new(),
                Json::Object(s) => s,
                _ => {
                    return Err(RegistryError::ServersNotAnObject);
                },
            };
            assert(servers@ == servers_of(before));
            set_member(&mut servers, "banter", entry);
            let ghost s = servers;
            members.insert(i, (k, Json::Object(servers)));
            assert(members@ =~= before.update(i as int, (before[i as int].0, Json::Object(s))));
            proof {
                lemma_put_member(before, servers_key(), Json::Object(s), members@, servers_key());
            }
        },
    }
    Ok(Json::Object(members))
}

/// Registering the server changes the server entry alone: every other member
/// of the document, and every other server in its table, keeps its value.
pub proof fn lemma_register_keeps_others(
    before: Seq<(String, Json)>,
    channel: ProjectChannel,
    server_path: Seq<char>,
    after: Seq<(String, Json)>,
    key: Seq<char>,
    server: Seq<char>,
)
    requires
        registers(before, channel, server_path, after),
    ensures
        key != servers_key() ==> member(after, key) == member(before, key),
        member(after, servers_key()) matches Some(Json::Object(s)) && (server != entry_key()
            ==> member(s@, server) == member(servers_of(before), server)),
{
    if let Some(Json::Object(s)) = member(after, servers_key()) {
        let e = member(s@, entry_key())->0;
        lemma_put_member(before, servers_key(), Json::Object(s), after, key);
        lemma_put_member(servers_of(before), entry_key(), e, s@, server);
    }
}

/// The registry document as stored: an empty object when there is none.
pub fn get_mcp_config(stored: Option<Json>) -> (r: Json)
    ensures
        match stored {
            Some(doc) => r == doc,
            None => r matches Json::Object(m) && m@.len() == 0,
        },
{
    match stored {
        Some(doc) => doc,
        None => Json::Object(Vec::new()),
    }
}

/// The registry document with the server entry for `channel` set to run
/// `mcp_server_path`. `stored` is the current document, or `None` when there is
/// none or it could not be read as JSON: an empty object then stands for it.
pub fn update_mcp_config(
    stored: Option<Json>,
    channel: &ProjectChannel,
    mcp_server_path: &str,
) -> (r: Result<Json, RegistryError>)
    ensures
        match stored_members(stored) {
            None => r == Err::<Json, RegistryError>(RegistryError::NotAnObject),
            Some(before) => if servers_malformed(before) {
                r == Err::<Json, RegistryError>(RegistryError::ServersNotAnObject)
            } else {
                r matches Ok(Json::Object(after)) && registers(
                    before,
                    *channel,
                    mcp_server_path@,
                    after@,
                )
            },
        },
{
    let doc = get_mcp_config(stored);
    let ghost d = doc;
    proof {
        if let Json::Object(m) = d {
            if stored is None {
                assert(m@ =~= Seq::<(String, Json)>::empty());
            }
        }
    }
    let entry = server_entry(channel, mcp_server_path);
    let ghost e = entry;
    let r = register_entry(doc, entry);
    let ghost rr = r;
    proof {
        if let Ok(Json::Object(after)) = rr {
            let before = stored_members(stored)->0;
            if let Some(Json::Object(s)) = member(after@, servers_key()) {
                lemma_put_member(servers_of(before), entry_key(), e, s@, entry_key());
            }
        }
    }
    r
}

/// The registry document with the server entry taken out; a document without
/// one comes back as it was.
pub fn unregister_entry(doc: Json) -> (r: Json)
    ensures
        if has_registration(doc) {
            unregistered(doc, r)
        } else {
            r == doc
        },
{
    proof {
        reveal_strlit("mcpServers");
        reveal_strlit("banter");
    }
    let found: Option<usize> = match &doc {
        Json::Object(m) => match find_member(m, "mcpServers") {
            Some(i) => match &m[i].1 {
                Json::Object(s) => match find_member(s, "banter") {
                    Some(_) => Some(i),
                    None => None,
                },
                _ => None,
            },
            None => None,
        },
        _ => None,
    };
    match found {
        None => doc,
        Some(i) => match doc {
            Json::Object(mut m) => {
                let ghost m0 = m@;
                let (k, v) = m.remove(i);
                match v {
                    Json::Object(mut s) => {
                        remove_member(&mut s, "banter");
                        m.insert(i, (k, Json::Object(s)));
                        assert(m@ =~= m0.update(i as int, (m0[i as int].0, m@[i as int].1)));
                        Json::Object(m)
                    },
                    other => {
                        m.insert(i, (k, other));
                        Json::Object(m)
                    },
                }
            },
            other => other,
        },
    }
}

/// What to write back after taking the server entry out of the stored registry
/// document: nothing when there is no document.
pub fn remove_mcp_config(stored: Option<Json>) -> (r: Option<Json>)
    ensures
        match stored {
            None => r is None,
            Some(doc) => r matches Some(out) && if has_registration(doc) {
                unregistered(doc, out)
            } else {
                out == doc
            },
        },
{
    match stored {
        None => None,
        Some(doc) => Some(unregister_entry(doc)),
    }
}

} // verus!
