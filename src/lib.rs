//! A preview-hosting service's core: the upload gate, slug allocation and
//! host-based routing, with their contracts.
pub mod text;
pub mod router;
pub mod config;
pub mod upload;
pub mod slug;
pub mod laws;
