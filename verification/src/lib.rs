//! Core of a desktop shell for a local container engine.
//!
//! The crate owns the canonical in-memory view of engine resources
//! (containers, images, volumes) and the synchronization logic around it:
//! dispatching refresh and start/stop requests, and reconciling their
//! results back into the view. The engine itself is an external
//! collaborator; callers perform the engine calls this crate asks for and
//! hand the outcomes back.

pub mod engine;
pub mod resources;
pub mod sizes;
pub mod store;
