//! A small verified todo-list library.
//!
//! Tasks carry a title, a description, a lifespan category and a status.
//! The store keeps them in order, addresses them by 1-based position, and
//! persists them as a JSON array whose encoder and parser are verified to
//! round-trip.

pub mod codec;
pub mod dispatch;
pub mod render;
pub mod store;
pub mod task;
pub mod text;
