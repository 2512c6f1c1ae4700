//! Verified core of the Rockey Hockey air-hockey robot: detector settings
//! and input selection, web UI playback control, preview store and HTTP
//! plumbing, GRBL serial protocol handling, and the decisions of the table
//! strategy and the robot controller.

pub mod hsv;
pub mod text;
pub mod targets;
pub mod playback;
pub mod http;
pub mod render;
pub mod detection;
pub mod grbl;
pub mod metrics;
pub mod controller;
pub mod frame;
pub mod preview;
pub mod input;
