//! Verified core of a GivEnergy plant simulator.
pub mod atomic_write;
pub mod bank_laws;
pub mod battery_bank_laws;
pub mod battery_banks;
pub mod calendar;
pub mod catalogue;
pub mod command_laws;
pub mod commands;
pub mod dto;
pub mod fixed;
pub mod http;
pub mod http_laws;
pub mod modbus;
pub mod modbus_laws;
pub mod model;
pub mod model_laws;
pub mod moment_laws;
pub mod number_laws;
pub mod numerals;
pub mod progress_laws;
pub mod projection;
pub mod reading_laws;
pub mod record_laws;
pub mod recording;
pub mod register_laws;
pub mod registers;
pub mod report_laws;
pub mod scenario;
pub mod scenario_laws;
pub mod schedule;
pub mod schedule_laws;
pub mod showing;
pub mod state;
pub mod store_laws;
pub mod text;
