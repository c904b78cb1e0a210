//! Verified core of the olive plate-solving and IMU fusion stack.
//!
//! The modules hold the decision logic, the calendar arithmetic, the sensor
//! timing rules and the extraction option mapping; hardware access, floating
//! point astronomy and file I/O live around them.

pub mod storage;
pub mod sensors;
pub mod fusion;
pub mod calendar;
pub mod tetra3;
