//! Discovery of running game-client instances, relaunch with an injected
//! agent, and routing of a relaunched instance's console output.

pub mod text;
pub mod classify;
pub mod launch;
pub mod console;
pub mod paths;
pub mod procs;
pub mod archive;
