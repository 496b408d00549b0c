//! Decision logic of the nd313 bus script: how the driver's controls, the
//! doors and the electric network are wired to each other on every frame.

pub mod controls;
pub mod indices;
pub mod interface;
pub mod units;
