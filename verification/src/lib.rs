//! Logic behind a small video-conversion front end: deriving the destination
//! path for a converted file, building the fixed invocation of the external
//! transcoder, and interpreting the outcome of running it.
//!
//! The library itself never spawns a process; the surrounding application
//! runs the external tool and hands the outcome back as plain values.

pub mod greeting;
pub mod invoker;
pub mod paths;
