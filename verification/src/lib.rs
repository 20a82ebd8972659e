//! Orchestration harness for an ephemeral SQL Server instance.
//!
//! The harness provisions a versioned server image inside a container,
//! waits a fixed time for it to accept connections, drives a small suite
//! of certificate-trust scenarios against it, and tears the instance
//! down.  This crate holds the decision logic: version and verb
//! resolution, the container-engine command plans and their effect on an
//! abstract engine state, the trust scenarios with their expected
//! outcomes, and the pass/fail judgement.  Running the container engine,
//! the test process and the clock is left to an unverified driver.

pub mod lifecycle;
pub mod orchestrate;
pub mod scenario;
pub mod version;
