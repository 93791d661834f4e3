//! The check catalog: one evaluator per category, each a pure function
//! of the probe snapshot, producing its checks in declared order.

pub mod audio;
pub mod cpu;
pub mod gpu;
pub mod input;
pub mod latency;
pub mod memory;
pub mod network;
pub mod platform;
pub mod power;
pub mod security;
pub mod services;
pub mod storage;
pub mod stability;
pub mod support;
pub mod thermal;
