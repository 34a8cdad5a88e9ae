//! A per-tenant playback queue with a loop-mode policy.
//!
//! The crate models three cooperating pieces: the [`queue::TracksQueue`]
//! holding the ordered tracks of one tenant together with its
//! [`queue::LoopMode`], the [`registry::Registry`] that creates and locates
//! queues per tenant id, and the reconciliation functions in [`reconcile`]
//! that advance a queue in response to playback lifecycle events and decide
//! which command the audio node is owed next. The mutating entry points
//! that user commands reach are in [`commands`].

pub mod commands;
pub mod errors;
pub mod queue;
pub mod reconcile;
pub mod registry;
pub mod track;
pub mod utils;
