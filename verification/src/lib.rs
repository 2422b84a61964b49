//! A charge point simulator for the Open Charge Point Protocol: the decisions,
//! data model and message framing of the simulator, with their contracts.

pub mod numeric;
pub mod text;
pub mod cp_data;
pub mod device_model;
pub mod configuration;
pub mod message_stats;
pub mod charging;
pub mod charge_point;
pub mod communication;
pub mod json;
pub mod events;
pub mod cli;
pub mod frames;
pub mod rest;
pub mod scheduler;
pub mod connect;
pub mod arguments;
