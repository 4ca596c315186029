//! An in-process registry that assigns and reclaims compact numeric
//! identifiers for rooms and user sessions.
//!
//! The crate is built bottom-up from two components:
//!
//! - [`collection::UniqueIdCollection`]: a slot table mapping small unsigned
//!   identifiers to stored values, with FIFO reuse of freed identifiers.
//! - [`server::Server`]: the registry, composing one slot table for rooms and
//!   one for user sessions.

pub mod collection;
pub mod server;

pub use collection::CapacityError;
pub use collection::UniqueIdCollection;
pub use server::Room;
pub use server::Server;
pub use server::SessionId;
pub use server::UserSession;
