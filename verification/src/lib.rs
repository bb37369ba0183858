//! Verified core of a home-battery scheduler: interval sets, schedule building for
//! Fox ESS inverters, Modbus value decoding and energy bookkeeping.

pub mod collections;
pub mod ops;
pub mod series;
pub mod time;
pub mod battery;
pub mod energy;
pub mod quantity;
pub mod fox_slots;
pub mod foxess_mode;
pub mod plan;
pub mod foxess;
pub mod foxcloud;
pub mod device_schedule;
pub mod modbus;
pub mod mq2200;
pub mod text;
pub mod fox_cloud;
pub mod cli;
pub mod frank_energie;
