//! Decision logic of a pool controller: Modbus RTU frames and bus cycles for a relay board and a
//! variable-speed pump, MQTT commands and status, water-temperature routing, the status
//! dashboard, and the settings that survive a restart.

pub mod command;
pub mod config;
pub mod double;
pub mod health;
pub mod http;
pub mod json;
pub mod log_buffer;
pub mod modbus;
pub mod mqtt;
pub mod persist;
pub mod state;
pub mod supervisor;
pub mod temp;
pub mod text;
pub mod warn;
