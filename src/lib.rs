//! Flight control and stabilisation for a quadrotor-style vehicle, in
//! fixed-point arithmetic.
//!
//! Every quantity is an integer count of millionths of its SI unit
//! (micrometres, microseconds, microradians, micronewtons for a vehicle of
//! unit mass), so the whole control law is exact integer arithmetic and its
//! bounds are proved rather than tested.
pub mod fixed;
pub mod vector;
pub mod controller;
pub mod laws;
