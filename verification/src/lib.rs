//! The engine of a screen capture client for compositors that offer the
//! screen-copy protocol: it resolves the output to capture, negotiates the
//! buffer with the compositor, follows the session of a capture through its
//! states, and turns the captured buffer into an image.
//!
//! The engine decides and computes; it performs no input or output. Its
//! caller hands it the compositor's events and carries out the actions that
//! it returns.
//!
//! - [`types`]: identifiers, errors, moments, and the session's states.
//! - [`output_info`]: the attributes of outputs and the choice of one.
//! - [`registry`]: the compositor's globals.
//! - [`buffer_pool`]: offers and buffers, per output.
//! - [`pixel`]: from a captured buffer to an encoded image.
//! - [`engine`]: the rounds of a capture, event by event.
//! - [`dmabuf`]: the export path and its worker.
//! - [`shm`]: where and how a region of shared memory is opened.
//! - [`backend`]: the backends and the choice among them.

pub mod backend;
pub mod buffer_pool;
pub mod dmabuf;
pub mod engine;
pub mod output_info;
pub mod pixel;
pub mod registry;
pub mod shm;
pub mod types;
