//! Driver for a digital temperature/humidity sensor on an addressed
//! two-wire bus, together with a small thermostat setpoint holder.
//!
//! The sensor driver owns a bus transport, issues the fixed protocol
//! commands, and decodes the bit-packed 20-bit measurement fields into
//! exact fixed-point engineering values. The thermostat keeps a target
//! temperature and an operating mode, driven by parsed text commands.

pub mod environment_sensor;
pub mod thermostat;
pub mod transport;
