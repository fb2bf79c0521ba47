//! Safe replacement of a privileged system file (the host-name resolution
//! file) through the elevation channel that the host platform offers.
//!
//! The library decides; the embedding program acts. It stages the new
//! content, chooses the elevation mechanisms per platform, builds each
//! elevated invocation, classifies what the subprocess reported, and drives
//! the whole operation as a state machine whose every terminal path removes
//! the staged file first.
pub mod text;
pub mod platform;
pub mod outcome;
pub mod command;
pub mod orchestrator;
pub mod laws;
pub mod world;
