//! Process supervisor core for a locally spawned background server:
//! credential generation, log-path resolution, size-bounded log compaction,
//! child-event formatting, and the shared supervisor state with its
//! query and shutdown operations.

pub mod compact;
pub mod env;
pub mod events;
pub mod logpath;
pub mod secret;
pub mod state;
pub mod text;
pub mod window;
