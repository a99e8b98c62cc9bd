use vstd::prelude::*;

pub mod airports;
pub mod babel;
pub mod beacon;
pub mod config;
pub mod datetime;
pub mod flight_position;
pub mod flights;
pub mod grund;
pub mod laws;
pub mod mcp;
pub mod network_map;
pub mod prompts;
pub mod satellite;
pub mod satellite_service;
pub mod text;
pub mod tools;
pub mod tracking;

verus! {

} // verus!
