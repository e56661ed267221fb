//! The engine side of the wire: sessions, live calls, and the frames that
//! travel between them and the core.

pub mod call;
pub mod call_laws;
pub mod jid;
pub mod laws;
pub mod neutral;
pub mod open;
pub mod open_laws;
pub mod opus;
pub mod project;
pub mod project_laws;
pub mod push;
pub mod relay;
pub mod session_laws;
pub mod spec;
pub mod state;
