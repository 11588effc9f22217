//! A spectral Monte Carlo path tracer whose numeric core is verified.
//!
//! All scalar quantities are fixed-point numbers ([`fixed::Fx`]) with an
//! exact integer semantics, so every geometric and radiometric computation
//! in this crate carries a mathematical contract.

pub mod bsdf;
pub mod camera;
pub mod color;
pub mod fixed;
pub mod integrator;
pub mod math;
pub mod output;
pub mod sampling;
pub mod scene;
pub mod shape;
pub mod spectrum;
pub mod tile;
pub mod types;

pub use fixed::Fx;
