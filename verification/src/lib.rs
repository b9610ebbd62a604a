//! Verified core of an interactive GPU raytracer viewer.
//!
//! The library holds everything that can be stated and proved as plain
//! mathematics: the arcball camera state machine (rotation, pan, zoom over
//! fixed-point scalars), the render-target resize protocol, the workgroup
//! sizing of the compute dispatch, and the routing of input events to camera
//! operations. The GPU device, the window and the event loop are external
//! collaborators: the surrounding binary drives them and feeds this library
//! plain values.

pub mod application;
pub mod camera;
pub mod fixed;
pub mod quat;
pub mod scene;
pub mod vec3;
