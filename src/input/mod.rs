//! Input sources: canonical key identifiers and the backend interface.
pub mod backend;
pub mod key_mapping;

pub use backend::{InputBackend, MockBackend};
pub use key_mapping::KeyId;
