//! What the registers show, address by address.
pub mod definitions;
pub mod gateway_words;
pub mod manager_words;
pub mod meter_inputs;
pub mod names;
pub mod native_holdings;
pub mod native_inputs;
pub mod plain;
pub mod readings;
pub mod simulator_words;
pub mod three_phase_words;
pub mod untouched;
pub mod words;
