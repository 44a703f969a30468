//! A line-oriented client core for a federated chat protocol.
//!
//! The crate verifies the session/state engine of the client: a persistent
//! key/value store with a reserved namespace, the session facts derived from
//! it together with their cascading invalidation rules, the lazily-resolved
//! pipeline that turns one outgoing chat line into a sequence of protocol
//! calls, and the versioned migration engine that evolves the store's schema.
//!
//! Everything that touches the outside world (files, the terminal, the wire)
//! lives outside this crate; the engine speaks in plain values and emits the
//! protocol calls it wants performed.

pub mod migrations;
pub mod pipeline;
pub mod session;
pub mod shell;
pub mod store;
pub mod system;
pub mod text;
