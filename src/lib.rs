//! Geometry and per-frame control logic for a small free-flying 3D sandbox:
//! axis-aligned boxes and a kinematic body that moves among static obstacles,
//! the camera controller's per-frame decisions, the cube mesh index table, and
//! the table of a shader program's uniform locations.

pub mod bounding_box;
pub mod camera_control;
pub mod shape_data;
pub mod uniforms;
