//! Witness-driven streaming of chunk loads.
//!
//! The loader decides, tick by tick, which background load tasks to poll, which
//! finished batches to commit to the chunk index and which new batches to submit.
//! It performs none of that work itself: it hands out one [`loader::LoaderAction`]
//! at a time and is told what came of it through a [`loader::LoaderEvent`].

pub mod batch;
pub mod config;
pub mod loader;
pub mod node;
pub mod queue;
pub mod tick;
pub mod units;
