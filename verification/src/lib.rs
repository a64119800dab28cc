//! Building blocks of a painterly point renderer: surface sampling over an
//! indexed triangle mesh, depth ordering of the sampled points, the hand-off
//! between the simulation and sort loops, and the camera's matrix cache.
//!
//! Real numbers never get computed here. They travel as bit patterns
//! ([`scalar::Scalar`]); the arithmetic on them belongs to the caller, while
//! every decision that depends on their order is made, and proved, here.

pub mod camera;
pub mod depth_sort;
pub mod mesh;
pub mod pipeline;
pub mod point_gen;
pub mod running_average;
pub mod scalar;
