//! Procedural tectonic relief on a sphere, in fixed-point arithmetic.
//!
//! Every quantity is an integer in micro-units: `UNIT` stands for 1.0.
//! Plates are drawn from a seeded generator, each point of the sphere is
//! assigned to its nearest and second-nearest plate under domain warping, and
//! a rule table over the plate pair and their drift turns that into height
//! and biome.
pub mod fixed;
pub mod vector;
pub mod config;
pub mod plates;
pub mod partition;
pub mod relief;
pub mod biome;
pub mod field;
