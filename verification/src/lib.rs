//! A material that renders the projection of a volume of voxels: for each
//! pixel a ray is cast through the volume, and the lowest, the highest or the
//! mean density met on it becomes the intensity of the pixel.
//!
//! The material gives a renderer the fragment shader that does this on the
//! GPU and the bindings the shader needs. The same procedure is offered on
//! the CPU, in exact integer arithmetic, by [`projection::project`].

pub mod material;
pub mod projection;
pub mod ratio;
pub mod ray;
pub mod reduction;
pub mod refinement;
pub mod render_states;
pub mod sampling;
pub mod shader;
pub mod style;
pub mod vector;
pub mod volume_projection_material;
pub mod voxel_grid;
