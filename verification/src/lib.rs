//! Verified control and calibration logic for a six-legged robot driven by
//! serial bus servos: motion modes, safety strike counting, servo range
//! sensing decisions, workspace torque windows, port detection and the
//! semantic calibration store.

pub mod calibrate;
pub mod camera;
pub mod clock;
pub mod config;
pub mod control;
pub mod dashboard_page;
pub mod groups;
pub mod manual;
pub mod modes;
pub mod monitor_page;
pub mod poses;
pub mod motion;
pub mod probe;
pub mod runtime;
pub mod semantic;
pub mod sensing;
pub mod strings;
pub mod text;
pub mod tracepath;
pub mod ticks;
pub mod workspace;
