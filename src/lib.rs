//! Backend logic of a desktop launcher that keeps a list of Unity scene
//! channels, validates scene paths, and registers this project's MCP server in
//! an assistant's JSON server registry.
pub mod channel;
pub mod config;
pub mod json;
pub mod paths;
pub mod registry;
pub mod scene;
