//! The rules of a robot operator's viewer: what it sends, what it understands of
//! the robot's answers and data stream, and what its control panel offers.

pub mod config;
pub mod control;
pub mod double;
pub mod drawing;
pub mod history;
pub mod http;
pub mod json;
pub mod logger;
pub mod occupancy;
pub mod panel;
pub mod places;
pub mod sidecar;
pub mod status;
pub mod task;
pub mod text;
pub mod toml_file;
