//! The wiring between the nd313's backbone modules, one system per domain.
//! Each system reads what it needs as plain values and answers with what is
//! to be written back.

pub mod cockpit;
pub mod doors;
pub mod inside_lights;
pub mod messages;
pub mod outside_lights;
pub mod pneumatics;
pub mod power;
pub mod steering;
pub mod traction;
