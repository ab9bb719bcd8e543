//! Host-evaluated hardware-in-the-loop test bench: the rules and state
//! machines behind the rig, the wire and the runner.

pub mod board;
pub mod cli;
pub mod config;
pub mod device;
pub mod doctor;
pub mod evidence;
pub mod expect;
pub mod frame;
pub mod icd;
pub mod instrument;
pub mod lease;
pub mod lease_client;
pub mod lease_laws;
pub mod locate;
pub mod net;
pub mod node;
pub mod results;
pub mod rig;
pub mod rtt;
pub mod runner;
pub mod target;
pub mod text;
pub mod wire;
