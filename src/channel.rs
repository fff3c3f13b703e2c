//! Channels: a named Unity project and scene, built from a scene file path.
use vstd::prelude::*;
use crate::scene::{has_unity_ext, has_unity_extension, project_root, project_root_of};

verus! {

/// A named association between a launcher entry and a Unity project and scene.
#[derive(Debug, PartialEq)]
pub struct ProjectChannel {
    pub id: String,
    pub name: String,
    pub unity_project_path: String,
    pub scene_path: Option<String>,
    pub enabled: bool,
}

/// Why a scene path cannot make a channel.
#[derive(Debug, Clone, Copy, PartialEq, Eq, Structural)]
pub enum ChannelError {
    /// The scene file does not exist.
    NotFound,
    /// The file does not have the `.unity` extension.
    NotUnityScene,
    /// No ancestor directory of the scene is named `Assets`.
    NoProjectRoot,
}

/// The error that a scene path gives, if any; `file_exists` tells whether the
/// file is there.
pub open spec fn scene_error(scene_path: Seq<char>, file_exists: bool) -> Option<ChannelError> {
    if !file_exists {
        Some(ChannelError::NotFound)
    } else if !has_unity_extension(scene_path) {
        Some(ChannelError::NotUnityScene)
    } else if project_root_of(scene_path) is None {
        Some(ChannelError::NoProjectRoot)
    } else {
        None
    }
}

/// `c` is the enabled channel named `name` for the scene at `scene_path`,
/// rooted at the scene's project root.
pub open spec fn is_channel_for(c: ProjectChannel, name: String, scene_path: String) -> bool {
    &&& c.name == name
    &&& Some(c.unity_project_path@) == project_root_of(scene_path@)
    &&& c.scene_path == Some(scene_path)
    &&& c.enabled
}

/// Relies on uuid's `Uuid::new_v4` for a fresh random identifier, written in
/// uuid's hyphenated form, which is always 36 characters long.
#[verifier::external_body]
fn fresh_id() -> (r: String)
    ensures
        r@.len() == 36,
{
    uuid::Uuid::new_v4().to_string()
}

/// Makes the channel named `name` for the scene at `scene_path`, with the
/// identifier `id`; `file_exists` tells whether the scene file is there.
pub fn build_channel(name: String, scene_path: String, file_exists: bool, id: String) -> (r: Result<
    ProjectChannel,
    ChannelError,
>)
    ensures
        match scene_error(scene_path@, file_exists) {
            Some(e) => r == Err::<ProjectChannel, ChannelError>(e),
            None => r matches Ok(c) && is_channel_for(c, name, scene_path) && c.id == id,
        },
{
    if !file_exists {
        return Err(ChannelError::NotFound);
    }
    if !has_unity_ext(scene_path.as_str()) {
        return Err(ChannelError::NotUnityScene);
    }
    match project_root(scene_path.as_str()) {
        None => Err(ChannelError::NoProjectRoot),
        Some(root) => Ok(
            ProjectChannel {
                id,
                name,
                unity_project_path: root,
                scene_path: Some(scene_path),
                enabled: true,
            },
        ),
    }
}

/// Makes a new channel named `name` for the scene at `scene_path`, with a
/// fresh random identifier; `file_exists` tells whether the scene file is there.
/// The channel is not stored anywhere.
pub fn add_channel(name: String, scene_path: String, file_exists: bool) -> (r: Result<
    ProjectChannel,
    ChannelError,
>)
    ensures
        match scene_error(scene_path@, file_exists) {
            Some(e) => r == Err::<ProjectChannel, ChannelError>(e),
            None => r matches Ok(c) && is_channel_for(c, name, scene_path) && c.id@.len() == 36,
        },
{
    let id = fresh_id();
    build_channel(name, scene_path, file_exists, id)
}

} // verus!
