//! Protocol and control logic of a Trillium Orion gimbal bridge and simulator.

pub mod bits;
pub mod bridge;
pub mod bytes;
pub mod cigi;
pub mod config;
pub mod convert;
pub mod faults;
pub mod geo;
pub mod orion;
pub mod platform;
pub mod runtime;
pub mod server;
pub mod simulator;
pub mod text;
pub mod trillium;
