//! Staged lifecycle of a GPU compute pass for a continuous-life simulation:
//! wait for the shader's pipelines, run an init pass, then an update pass
//! every frame, each dispatched over the whole simulation texture.
use vstd::prelude::*;

pub mod pipeline;

verus! {

/// Width of the simulation texture, in texels.
pub const SIM_WIDTH: u32 = 1200;

/// Height of the simulation texture, in texels.
pub const SIM_HEIGHT: u32 = 600;

/// Side of the square compute workgroup declared by the shader.
pub const WORKGROUP_SIZE: u32 = 8;

} // verus!
