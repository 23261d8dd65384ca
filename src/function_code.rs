use vstd::prelude::*;

verus! {

/// The name that the table of well-known function codes gives `code`,
/// or `"unknown"` where the table has no entry for it.
pub open spec fn code_name(code: u8) -> Seq<char> {
    if code == 1 { "ReadCoils"@ }
    else if code == 2 { "ReadDiscreteInputs"@ }
    else if code == 3 { "ReadHoldingRegisters"@ }
    else if code == 4 { "ReadInputRegisters"@ }
    else if code == 5 { "WriteSingleCoil"@ }
    else if code == 6 { "WriteSingleRegister"@ }
    else if code == 7 { "ReadExceptionStatus"@ }
    else if code == 8 { "DiagnosticStatus"@ }
    else if code == 11 { "GetCommEventCounter"@ }
    else if code == 12 { "GetCommEventLog"@ }
    else if code == 15 { "WriteMultipleCoils"@ }
    else if code == 16 { "WriteMultipleRegisters"@ }
    else if code == 17 { "ReportSlaveId"@ }
    else if code == 20 { "ReadFileRecord"@ }
    else if code == 21 { "WriteFileRecord"@ }
    else if code == 22 { "MaskWriteRegister"@ }
    else if code == 23 { "ReadWriteMultipleRegisters"@ }
    else if code == 24 { "ReadFifoQueue"@ }
    else if code == 43 { "ReadDeviceInformation"@ }
    else { "unknown"@ }
}

/// Whether the table of well-known function codes has an entry for `code`.
pub open spec fn is_well_known(code: u8) -> bool {
    (1 <= code <= 8) || code == 11 || code == 12 || (15 <= code <= 17)
        || (20 <= code <= 24) || code == 43
}

/// A Modbus function code: one byte that selects the operation of a message.
/// Every byte is a valid code, whether or not the table names it.
#[derive(PartialEq, Eq, Structural, PartialOrd, Ord, Clone, Copy, Debug, Hash)]
pub struct ModbusFunctionCode(pub u8);

impl View for ModbusFunctionCode {
    type V = u8;

    open spec fn view(&self) -> u8 {
        self.0
    }
}

impl ModbusFunctionCode {
    /// Wraps a raw byte.
    pub fn new(field_val: u8) -> (r: ModbusFunctionCode)
        ensures
            r@ == field_val,
    {
        ModbusFunctionCode(field_val)
    }

    /// Wraps a raw byte; never fails.
    pub fn from_raw(b: u8) -> (r: ModbusFunctionCode)
        ensures
            r@ == b,
    {
        ModbusFunctionCode(b)
    }

    /// The underlying byte, unchanged.
    pub fn to_raw(&self) -> (r: u8)
        ensures
            r == self@,
    {
        self.0
    }

    /// The canonical name of a well-known code, `"unknown"` for any other.
    pub fn name(&self) -> (r: &'static str)
        ensures
            r@ == code_name(self@),
    {
        match self.0 {
            1 => "ReadCoils",
            2 => "ReadDiscreteInputs",
            3 => "ReadHoldingRegisters",
            4 => "ReadInputRegisters",
            5 => "WriteSingleCoil",
            6 => "WriteSingleRegister",
            7 => "ReadExceptionStatus",
            8 => "DiagnosticStatus",
            11 => "GetCommEventCounter",
            12 => "GetCommEventLog",
            15 => "WriteMultipleCoils",
            16 => "WriteMultipleRegisters",
            17 => "ReportSlaveId",
            20 => "ReadFileRecord",
            21 => "WriteFileRecord",
            22 => "MaskWriteRegister",
            23 => "ReadWriteMultipleRegisters",
            24 => "ReadFifoQueue",
            43 => "ReadDeviceInformation",
            _ => "unknown",
        }
    }

    /// The display form of the code: its name, as an owned string.
    pub fn to_string(&self) -> (r: String)
        ensures
            r@ == code_name(self@),
    {
        self.name().to_owned()
    }

    /// Whether the table of well-known codes has an entry for this code.
    pub fn is_known(&self) -> (r: bool)
        ensures
            r == is_well_known(self@),
    {
        match self.0 {
            1 | 2 | 3 | 4 | 5 | 6 | 7 | 8 | 11 | 12 | 15 | 16 | 17 | 20 | 21 | 22 | 23 | 24 | 43 => true,
            _ => false,
        }
    }
}

} // verus!
