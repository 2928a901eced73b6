use vstd::prelude::*;

verus! {

/// Modbus function code: read input registers.
pub const READ_INPUT_REGISTERS: u8 = 4;

/// Input register holding the charging state.
pub const REG_STATE: u16 = 1000;

/// Input register holding the total energy counter.
pub const REG_TOTAL_ENERGY: u16 = 1036;

/// Input register holding the present session's energy counter.
pub const REG_PRESENT_ENERGY: u16 = 1502;

/// Why a register read's response was refused.
#[derive(Debug, Clone, Copy, PartialEq, Eq, Structural)]
pub enum ModbusFrameError {
    ResponseTooShort,
    UnexpectedFunctionCode(u8),
    UnexpectedByteCount,
}

impl ModbusFrameError {
    pub fn to_string(&self) -> (r: String)
        ensures
            *self == ModbusFrameError::ResponseTooShort ==> r@ == "modbus response too short"@,
            *self == ModbusFrameError::UnexpectedByteCount ==> r@ == "modbus payload has unexpected byte count"@,
            *self matches ModbusFrameError::UnexpectedFunctionCode(code)
                ==> r@ == "unexpected modbus function code: "@ + crate::errors::decimal_digits(code as nat),
    {
        match self {
            ModbusFrameError::ResponseTooShort => String::from_str("modbus response too short"),
            ModbusFrameError::UnexpectedByteCount => String::from_str("modbus payload has unexpected byte count"),
            ModbusFrameError::UnexpectedFunctionCode(code) => {
                let mut s = String::from_str("unexpected modbus function code: ");
                s.append(crate::errors::decimal_text(*code as u64).as_str());
                s
            },
        }
    }
}

pub open spec fn high_byte(v: u16) -> u8 {
    (v as int / 256) as u8
}

pub open spec fn low_byte(v: u16) -> u8 {
    (v as int % 256) as u8
}

fn split_u16(v: u16) -> (r: (u8, u8))
    ensures
        r.0 == high_byte(v),
        r.1 == low_byte(v),
{
    let hi = (v >> 8) as u8;
    let lo = (v & 0xff) as u8;
    assert((v >> 8) as int == v as int / 256) by (bit_vector);
    assert((v & 0xff) as int == v as int % 256) by (bit_vector);
    (hi, lo)
}

/// The MBAP header and PDU that read two input registers at `address`: transaction id,
/// protocol 0, six bytes to follow, the unit, the function, the address and the count.
pub fn read_input_registers_request(transaction_id: u16, unit_id: u8, address: u16) -> (r: Vec<u8>)
    ensures
        r@ == seq![
            high_byte(transaction_id), low_byte(transaction_id), 0u8, 0u8, 0u8, 6u8, unit_id,
            READ_INPUT_REGISTERS, high_byte(address), low_byte(address), 0u8, 2u8,
        ],
{
    let (tid_hi, tid_lo) = split_u16(transaction_id);
    let (addr_hi, addr_lo) = split_u16(address);
    let r = vec![tid_hi, tid_lo, 0, 0, 0, 6, unit_id, READ_INPUT_REGISTERS, addr_hi, addr_lo, 0, 2];
    assert(r@ =~= seq![tid_hi, tid_lo, 0u8, 0u8, 0u8, 6u8, unit_id, READ_INPUT_REGISTERS, addr_hi, addr_lo, 0u8, 2u8]);
    r
}

/// How many PDU bytes follow a response's MBAP header: its length field less the unit byte.
pub fn response_pdu_len(header: &[u8; 7]) -> (r: Result<usize, ModbusFrameError>)
    ensures
        ({
            let len = header@[4] as int * 256 + header@[5] as int;
            if len < 3 {
                r == Err::<usize, ModbusFrameError>(ModbusFrameError::ResponseTooShort)
            } else {
                r == Ok::<usize, ModbusFrameError>((len - 1) as usize)
            }
        }),
{
    let len: usize = header[4] as usize * 256 + header[5] as usize;
    if len < 3 {
        Err(ModbusFrameError::ResponseTooShort)
    } else {
        Ok(len - 1)
    }
}

/// The big-endian 32-bit value of the two registers in a read-input-registers PDU.
pub fn register_value(pdu: &[u8]) -> (r: Result<u32, ModbusFrameError>)
    ensures
        pdu@.len() == 0 ==> r == Err::<u32, ModbusFrameError>(ModbusFrameError::UnexpectedByteCount),
        pdu@.len() > 0 && pdu@[0] != READ_INPUT_REGISTERS ==> r == Err::<u32, ModbusFrameError>(ModbusFrameError::UnexpectedFunctionCode(pdu@[0])),
        pdu@.len() > 0 && pdu@[0] == READ_INPUT_REGISTERS && (pdu@.len() < 6 || pdu@[1] != 4)
            ==> r == Err::<u32, ModbusFrameError>(ModbusFrameError::UnexpectedByteCount),
        pdu@.len() >= 6 && pdu@[0] == READ_INPUT_REGISTERS && pdu@[1] == 4 ==> r == Ok::<u32, ModbusFrameError>(
            (((pdu@[2] as int * 256 + pdu@[3] as int) * 256 + pdu@[4] as int) * 256 + pdu@[5] as int) as u32),
{
    if pdu.len() == 0 {
        return Err(ModbusFrameError::UnexpectedByteCount);
    }
    if pdu[0] != READ_INPUT_REGISTERS {
        return Err(ModbusFrameError::UnexpectedFunctionCode(pdu[0]));
    }
    if pdu.len() < 6 || pdu[1] != 4 {
        return Err(ModbusFrameError::UnexpectedByteCount);
    }
    let v: u32 = ((pdu[2] as u32 * 256 + pdu[3] as u32) * 256 + pdu[4] as u32) * 256 + pdu[5] as u32;
    Ok(v)
}

/// Whether a charging state means a vehicle is plugged: states from 2 up.
pub fn state_is_plugged(state: u32) -> (r: bool)
    ensures
        r == (state >= 2),
{
    state >= 2
}

} // verus!
