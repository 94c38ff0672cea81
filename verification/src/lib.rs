//! A session-scoped input-event capture core: a record model with a text
//! encoding, shared session state drained exactly once per session, the
//! controller state machine around it, and the append-only store logic that
//! writes a header only on first creation.

pub mod controller;
pub mod record;
pub mod state;
pub mod store;
