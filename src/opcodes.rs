//! The opcodes of the single-operand and two-operand formats, decoded from
//! their field values.
use vstd::prelude::*;

verus! {

/// A field value that names no opcode of the format.
#[derive(Debug, Clone, Copy, PartialEq, Eq, Structural)]
pub struct UnknownOpcode {
    pub number: u8,
}

/// The single-operand opcodes, numbered 0 to 6 in the 3-bit field.
#[derive(Debug, Clone, Copy, PartialEq, Eq, Structural)]
pub enum SingleOperandOpcodes {
    RRC,
    SWPB,
    RRA,
    SXT,
    PUSH,
    CALL,
    RETI,
}

impl SingleOperandOpcodes {
    /// The opcode's number in the field.
    pub open spec fn number(self) -> u8 {
        match self {
            SingleOperandOpcodes::RRC => 0,
            SingleOperandOpcodes::SWPB => 1,
            SingleOperandOpcodes::RRA => 2,
            SingleOperandOpcodes::SXT => 3,
            SingleOperandOpcodes::PUSH => 4,
            SingleOperandOpcodes::CALL => 5,
            SingleOperandOpcodes::RETI => 6,
        }
    }

    /// The opcode numbered `value`, or an error for 7 and above.
    pub fn try_from(value: u8) -> (r: Result<SingleOperandOpcodes, UnknownOpcode>)
        ensures
            value <= 6 <==> r is Ok,
            r matches Ok(op) ==> op.number() == value,
            r matches Err(e) ==> e.number == value,
    {
        match value {
            0 => Ok(SingleOperandOpcodes::RRC),
            1 => Ok(SingleOperandOpcodes::SWPB),
            2 => Ok(SingleOperandOpcodes::RRA),
            3 => Ok(SingleOperandOpcodes::SXT),
            4 => Ok(SingleOperandOpcodes::PUSH),
            5 => Ok(SingleOperandOpcodes::CALL),
            6 => Ok(SingleOperandOpcodes::RETI),
            _ => Err(UnknownOpcode { number: value }),
        }
    }
}

/// The two-operand opcodes, numbered 0 to 11 after subtracting 4 from the
/// 4-bit field.
#[derive(Debug, Clone, Copy, PartialEq, Eq, Structural)]
pub enum DoubleOperandOpcodes {
    MOV,
    ADD,
    ADDC,
    SUBC,
    SUB,
    CMP,
    DADD,
    BIT,
    BIC,
    BIS,
    XOR,
    AND,
}

impl DoubleOperandOpcodes {
    /// The opcode's number (the field value less 4).
    pub open spec fn number(self) -> u8 {
        match self {
            DoubleOperandOpcodes::MOV => 0,
            DoubleOperandOpcodes::ADD => 1,
            DoubleOperandOpcodes::ADDC => 2,
            DoubleOperandOpcodes::SUBC => 3,
            DoubleOperandOpcodes::SUB => 4,
            DoubleOperandOpcodes::CMP => 5,
            DoubleOperandOpcodes::DADD => 6,
            DoubleOperandOpcodes::BIT => 7,
            DoubleOperandOpcodes::BIC => 8,
            DoubleOperandOpcodes::BIS => 9,
            DoubleOperandOpcodes::XOR => 10,
            DoubleOperandOpcodes::AND => 11,
        }
    }

    /// The opcode numbered `value`, or an error for 12 and above.
    pub fn try_from(value: u8) -> (r: Result<DoubleOperandOpcodes, UnknownOpcode>)
        ensures
            value <= 11 <==> r is Ok,
            r matches Ok(op) ==> op.number() == value,
            r matches Err(e) ==> e.number == value,
    {
        match value {
            0 => Ok(DoubleOperandOpcodes::MOV),
            1 => Ok(DoubleOperandOpcodes::ADD),
            2 => Ok(DoubleOperandOpcodes::ADDC),
            3 => Ok(DoubleOperandOpcodes::SUBC),
            4 => Ok(DoubleOperandOpcodes::SUB),
            5 => Ok(DoubleOperandOpcodes::CMP),
            6 => Ok(DoubleOperandOpcodes::DADD),
            7 => Ok(DoubleOperandOpcodes::BIT),
            8 => Ok(DoubleOperandOpcodes::BIC),
            9 => Ok(DoubleOperandOpcodes::BIS),
            10 => Ok(DoubleOperandOpcodes::XOR),
            11 => Ok(DoubleOperandOpcodes::AND),
            _ => Err(UnknownOpcode { number: value }),
        }
    }
}

} // verus!
