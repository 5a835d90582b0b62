//! The orchestration core of a local daemon that lets a language model
//! choose among tools: the registry of running tools and the decisions of
//! their supervisor, the planning of tool calls, and the cycle that takes one
//! query through the model and the tools.

use vstd::prelude::*;
use vstd::string::StringExecFns;

pub mod cycle;
pub mod dispatch;
pub mod error;
pub mod handlers;
pub mod json;
pub mod manifest;
pub mod pipeline;
pub mod plugins;
pub mod process;
pub mod registry;
pub mod session;
pub mod settings;
pub mod supervisor;
pub mod text;
pub mod tokens;
pub mod tool;

pub use crate::cycle::ToolCall;
pub use crate::error::Error;
pub use crate::manifest::Manifest;
pub use crate::registry::Tools;
pub use crate::session::SessionLogger;
pub use crate::settings::{LMKind, Settings};
pub use crate::tool::Tool;

verus! {

/// The directory of the daemon's own files, below the user's home directory.
pub fn app_data(home: &str) -> (path: String)
    ensures
        path@ == home@ + "/.config/ovsy"@,
{
    let mut path = String::from_str(home);
    path.append("/.config/ovsy");
    path
}

} // verus!
