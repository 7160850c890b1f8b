//! Verified core of a turntable photo-capture controller.
//!
//! A stepper motor rotates a turntable in small increments while a remote
//! camera is triggered between movements. The modules here hold everything
//! that can be decided without touching hardware: parameter validation,
//! the coil-energization pattern, per-shot timing arithmetic, and the
//! capture run itself as a verified state machine that tells an unverified
//! runner which action to perform next.

pub mod coordinator;
pub mod laws;
pub mod lifecycle;
pub mod motor;
pub mod params;
pub mod timing;
