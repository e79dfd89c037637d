//! A model of how a managed heap grows under a garbage-collection policy.
//!
//! Given an allocation rate, a survival rate, a heap-growth policy and a
//! collector, the engine computes the heap pointer after every call and the
//! peak memory footprint seen so far.
//!
//! - `config`: the parameters of a run.
//! - `factor`: the heap-growth factor and its product with a heap size.
//! - `engine`: one call, with the collection trigger and the cost of a
//!   collection.
//! - `simulation`: a whole run.
//! - `laws`, `factor_laws`: what holds of every run and of every product.

pub mod config;
pub mod engine;
pub mod factor;
pub mod factor_laws;
pub mod laws;
pub mod simulation;
