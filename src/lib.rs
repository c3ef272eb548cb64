//! Turns a raster image into one 3D point cloud per colour channel and plans
//! the rotating-camera animation that renders each cloud frame by frame.

pub mod channel;
pub mod raster;
pub mod cloud;
pub mod camera;
pub mod schedule;
pub mod text;
