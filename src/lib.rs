//! Control core of a marker-guided mowing robot: the pilot state, the mode
//! handlers with their action table, the safety pre-pass, the command router
//! and the peer broadcast payload.
pub mod base;
mod clock;
pub mod com;
pub mod detection;
pub mod device;
pub mod drive;
pub mod effect;
pub mod merge;
pub mod modes;
pub mod path;
pub mod pilot;
pub mod sort;
pub mod speaker;
pub mod state;
pub mod vision;
