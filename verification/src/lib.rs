//! Local-machine access bridge for a sandboxed frontend: an OS-backed
//! credential store with a uniform outcome model, plus filesystem and
//! system-information collaborators.
//!
//! The credential store maps a caller-supplied provider name to at most one
//! secret, held by the platform's native secure-credential facility.  Every
//! operation normalizes the platform's replies into one four-outcome shape
//! (success / not-found / value / failure-with-reason), so that absence is
//! never conflated with a platform error.

pub mod credentials;
pub mod fsops;
pub mod sysinfo;
