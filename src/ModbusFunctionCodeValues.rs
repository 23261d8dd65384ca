//! The raw bytes of the well-known function codes, by name; wrap one with
//! `ModbusFunctionCode::from_raw` to get the code.

use vstd::prelude::*;

verus! {

pub const ReadCoils: u8 = 1;
pub const ReadDiscreteInputs: u8 = 2;
pub const ReadHoldingRegisters: u8 = 3;
pub const ReadInputRegisters: u8 = 4;
pub const WriteSingleCoil: u8 = 5;
pub const WriteSingleRegister: u8 = 6;
pub const ReadExceptionStatus: u8 = 7;
pub const DiagnosticStatus: u8 = 8;
pub const GetCommEventCounter: u8 = 11;
pub const GetCommEventLog: u8 = 12;
pub const WriteMultipleCoils: u8 = 15;
pub const WriteMultipleRegisters: u8 = 16;
pub const ReportSlaveId: u8 = 17;
pub const ReadFileRecord: u8 = 20;
pub const WriteFileRecord: u8 = 21;
pub const MaskWriteRegister: u8 = 22;
pub const ReadWriteMultipleRegisters: u8 = 23;
pub const ReadFifoQueue: u8 = 24;
pub const ReadDeviceInformation: u8 = 43;

} // verus!
