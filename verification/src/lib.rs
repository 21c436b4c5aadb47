//! Recursive public-key encryption of a directory tree, as a verified core.
//!
//! The crate holds every decision of a run: which paths are checked and in
//! what order, which files are skipped, where ciphertext is placed, and which
//! failure ends the run. The caller performs the file-system requests that a
//! [`session::Session`] issues and reports what happened; the OpenPGP work is
//! done here, between two requests.
//!
//! - [`failure`]: the failures of a run, their kinds, exit codes and messages.
//! - [`paths`]: the marker extension and the place of each ciphertext.
//! - [`crypto`]: loading the certificate and sealing bytes.
//! - [`session`]: the run as a state machine.
//! - [`trace`] and [`outputs`]: what holds of every run.

pub mod crypto;
pub mod failure;
pub mod outputs;
pub mod paths;
pub mod session;
pub mod trace;
