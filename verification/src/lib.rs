//! A bounded pool of reusable browser rendering contexts ("tabs") kept healthy
//! under a single crash-prone external browser process.
//!
//! The pool logic itself — admission control by permits, context leasing,
//! liveness-driven recreation of the process and its contexts, and bounded
//! retry of transient failures — is modelled and verified here. The
//! surrounding program performs the actual process control and rendering I/O
//! and drives this model with the outcomes it observes.

pub mod acquire;
pub mod colors;
pub mod errors;
pub mod imaging;
pub mod pool;
pub mod properties;
pub mod retry;
pub mod supervisor;
