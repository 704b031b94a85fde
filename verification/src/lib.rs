//! Core logic of a cluster / environment deployment engine.
//!
//! The crate models the transactional step sequencer that drives cluster and
//! environment lifecycle operations, the build pipeline that prepares
//! container images, the leveled install plan for platform add-ons, and the
//! ownership-adoption protocol used when a live resource installed outside
//! the current management scheme is taken over.

pub mod application;
pub mod cni;
pub mod dns;
pub mod eks_charts;
pub mod engine;
pub mod environment;
pub mod errors;
pub mod helm;
pub mod ids;
pub mod image;
pub mod router;
pub mod service;
pub mod step;
pub mod template;
pub mod text;
pub mod transaction;
