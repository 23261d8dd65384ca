//! Modbus over TCP application messages: a fixed seven-byte header plus the
//! function code byte, followed by a payload, with a verified big-endian codec
//! and a typed function code with its table of well-known names.

pub mod function_code;
pub mod modbus;

#[allow(non_snake_case, non_upper_case_globals)]
pub mod ModbusFunctionCodeValues;

pub use function_code::ModbusFunctionCode;
pub use modbus::{Modbus, ModbusError, ModbusView};
