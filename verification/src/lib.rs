//! Verified core of an SGEMM kernel benchmarking harness.
//!
//! The harness registers GPU matrix-multiply kernel variants, checks each
//! against a host reference, and measures throughput under an adaptive time
//! budget. This crate holds the verified logic: dispatch geometry, the exact
//! reference multiply, fixture generation, the correctness verdict, the
//! benchmark stopping rule, and the kernel registry. The device driver layer
//! and floating-point plumbing live outside the library.

pub mod bench;
pub mod dims;
pub mod fixture;
pub mod geometry;
pub mod reference;
pub mod registry;
pub mod verdict;
