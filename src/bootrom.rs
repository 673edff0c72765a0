//! The boot ROM loader's protocol: the script of each command and the
//! decoding of the fields it returns.

use vstd::prelude::*;
use crate::command::{echo_be32, echo_byte, echoes, Step};
use crate::wire::{be16_value, be32_seq, be32_value, read_be16, read_be32, ProtocolError};

verus! {

/// Opcode that asks for the hardware code.
pub const BROM_CMD_GET_HW_CODE: u8 = 0xfd;

/// Opcode that asks for the hardware sub-code and the versions.
pub const BROM_CMD_GET_HW_DICT: u8 = 0xfc;

/// Opcode that asks for the target configuration bitmask.
pub const BROM_CMD_GET_TARGET_CONFIG: u8 = 0xd8;

/// Opcode that uploads a download agent.
pub const BROM_CMD_SEND_DA: u8 = 0xd7;

/// Opcode that runs the download agent in 32-bit mode.
pub const BROM_CMD_JUMP_DA: u8 = 0xd5;

/// Opcode that runs the download agent with a chosen execution width.
pub const BROM_CMD_JUMP_DA64: u8 = 0xde;

/// Execution-width marker for a 64-bit entry.
pub const JUMP_DA64_AARCH64: u8 = 1;

/// Confirmation byte that the boot ROM checks before it resets the CPU into
/// 64-bit mode.
pub const JUMP_DA64_MAGIC: u8 = 100;

/// Read timeout for echoed command bytes, in milliseconds.
pub const BROM_ECHO_TIMEOUT_MS: u64 = 100;

/// Interval between checks that the download agent has left the host, in
/// milliseconds.
pub const DA_DRAIN_POLL_MS: u64 = 200;

/// Hardware code query: the opcode, then the code field and a status. The
/// one field it keeps is the code.
pub fn hw_code_script() -> (r: Vec<Step>)
    ensures
        r@.len() == 3,
        echoes(r@[0], seq![BROM_CMD_GET_HW_CODE]),
        r@[1] == Step::Field(2),
        r@[2] == Step::Status,
{
    let mut r: Vec<Step> = Vec::new();
    r.push(echo_byte(BROM_CMD_GET_HW_CODE));
    r.push(Step::Field(2));
    r.push(Step::Status);
    r
}

/// Hardware dictionary query: the opcode, then the sub-code, hardware
/// version and software version fields and a status.
pub fn hw_dict_script() -> (r: Vec<Step>)
    ensures
        r@.len() == 5,
        echoes(r@[0], seq![BROM_CMD_GET_HW_DICT]),
        r@[1] == Step::Field(2),
        r@[2] == Step::Field(2),
        r@[3] == Step::Field(2),
        r@[4] == Step::Status,
{
    let mut r: Vec<Step> = Vec::new();
    r.push(echo_byte(BROM_CMD_GET_HW_DICT));
    r.push(Step::Field(2));
    r.push(Step::Field(2));
    r.push(Step::Field(2));
    r.push(Step::Status);
    r
}

/// Target configuration query: the opcode, then the 32-bit bitmask field and
/// a status.
pub fn target_config_script() -> (r: Vec<Step>)
    ensures
        r@.len() == 3,
        echoes(r@[0], seq![BROM_CMD_GET_TARGET_CONFIG]),
        r@[1] == Step::Field(4),
        r@[2] == Step::Status,
{
    let mut r: Vec<Step> = Vec::new();
    r.push(echo_byte(BROM_CMD_GET_TARGET_CONFIG));
    r.push(Step::Field(4));
    r.push(Step::Status);
    r
}

/// Download agent upload of `da_len` bytes, the last `sig_len` of which are
/// its signature. The opcode, the load address, the length of the unsigned
/// part and the signature length are echoed and answered by a status; the
/// image follows unechoed; the device then returns the checksum it computed
/// and a status. The host does not check that checksum.
pub fn send_da_script(da_addr: u32, sig_len: u32, da_len: usize) -> (r: Result<
    Vec<Step>,
    ProtocolError,
>)
    ensures
        da_len > u32::MAX ==> r == Err::<Vec<Step>, ProtocolError>(ProtocolError::TooLarge),
        da_len <= u32::MAX && sig_len > da_len ==> r == Err::<Vec<Step>, ProtocolError>(
            ProtocolError::SignatureTooLong,
        ),
        da_len <= u32::MAX && sig_len <= da_len ==> (r matches Ok(s) && {
            &&& s@.len() == 8
            &&& echoes(s@[0], seq![BROM_CMD_SEND_DA])
            &&& echoes(s@[1], be32_seq(da_addr))
            &&& echoes(s@[2], be32_seq((da_len - sig_len) as u32))
            &&& echoes(s@[3], be32_seq(sig_len))
            &&& s@[4] == Step::Status
            &&& s@[5] == Step::Payload
            &&& s@[6] == Step::Field(2)
            &&& s@[7] == Step::Status
        }),
{
    if da_len > u32::MAX as usize {
        return Err(ProtocolError::TooLarge);
    }
    let len = da_len as u32;
    if sig_len > len {
        return Err(ProtocolError::SignatureTooLong);
    }
    let mut r: Vec<Step> = Vec::new();
    r.push(echo_byte(BROM_CMD_SEND_DA));
    r.push(echo_be32(da_addr));
    r.push(echo_be32(len - sig_len));
    r.push(echo_be32(sig_len));
    r.push(Step::Status);
    r.push(Step::Payload);
    r.push(Step::Field(2));
    r.push(Step::Status);
    Ok(r)
}

/// 32-bit jump: the opcode and the entry address, then a status.
pub fn jump_da_script(da_addr: u32) -> (r: Vec<Step>)
    ensures
        r@.len() == 3,
        echoes(r@[0], seq![BROM_CMD_JUMP_DA]),
        echoes(r@[1], be32_seq(da_addr)),
        r@[2] == Step::Status,
{
    let mut r: Vec<Step> = Vec::new();
    r.push(echo_byte(BROM_CMD_JUMP_DA));
    r.push(echo_be32(da_addr));
    r.push(Step::Status);
    r
}

/// 64-bit jump: the opcode, the entry address and the execution-width
/// marker, a status, then the confirmation byte and a second status.
pub fn jump_da64_script(da_addr: u32) -> (r: Vec<Step>)
    ensures
        r@.len() == 6,
        echoes(r@[0], seq![BROM_CMD_JUMP_DA64]),
        echoes(r@[1], be32_seq(da_addr)),
        echoes(r@[2], seq![JUMP_DA64_AARCH64]),
        r@[3] == Step::Status,
        echoes(r@[4], seq![JUMP_DA64_MAGIC]),
        r@[5] == Step::Status,
{
    let mut r: Vec<Step> = Vec::new();
    r.push(echo_byte(BROM_CMD_JUMP_DA64));
    r.push(echo_be32(da_addr));
    r.push(echo_byte(JUMP_DA64_AARCH64));
    r.push(Step::Status);
    r.push(echo_byte(JUMP_DA64_MAGIC));
    r.push(Step::Status);
    r
}

/// Decodes the three fields of a hardware dictionary answer: sub-code,
/// hardware version, software version.
pub fn parse_hw_dict(sub_code: &[u8], hw_ver: &[u8], sw_ver: &[u8]) -> (r: Result<
    (u16, u16, u16),
    ProtocolError,
>)
    ensures
        ({
            let fields_ok = sub_code@.len() == 2 && hw_ver@.len() == 2 && sw_ver@.len() == 2;
            &&& !fields_ok ==> r == Err::<(u16, u16, u16), ProtocolError>(
                ProtocolError::ShortRead,
            )
            &&& fields_ok ==> (r matches Ok(d) && {
                &&& d.0 as int == be16_value(sub_code@)
                &&& d.1 as int == be16_value(hw_ver@)
                &&& d.2 as int == be16_value(sw_ver@)
            })
        }),
{
    let a = match read_be16(sub_code) {
        Ok(v) => v,
        Err(e) => return Err(e),
    };
    let b = match read_be16(hw_ver) {
        Ok(v) => v,
        Err(e) => return Err(e),
    };
    match read_be16(sw_ver) {
        Ok(c) => Ok((a, b, c)),
        Err(e) => Err(e),
    }
}

/// The three security flags of the target configuration bitmask: secure
/// boot (bit 0), serial link authorisation (bit 1) and download agent
/// authorisation (bit 2). A device with any of them set refuses unsigned
/// images.
pub fn decode_target_config(mask: u32) -> (r: (bool, bool, bool))
    ensures
        r.0 == (mask % 2 == 1),
        r.1 == (mask / 2 % 2 == 1),
        r.2 == (mask / 4 % 2 == 1),
{
    assert((mask & 1 != 0) == (mask % 2 == 1)) by (bit_vector);
    assert((mask & 2 != 0) == (mask / 2 % 2 == 1)) by (bit_vector);
    assert((mask & 4 != 0) == (mask / 4 % 2 == 1)) by (bit_vector);
    (mask & 1 != 0, mask & 2 != 0, mask & 4 != 0)
}

/// Decodes the bitmask field of a target configuration answer.
pub fn parse_target_config(mask: &[u8]) -> (r: Result<(bool, bool, bool), ProtocolError>)
    ensures
        mask@.len() != 4 ==> r == Err::<(bool, bool, bool), ProtocolError>(
            ProtocolError::ShortRead,
        ),
        mask@.len() == 4 ==> (r matches Ok(c) && {
            let m = be32_value(mask@);
            &&& c.0 == (m % 2 == 1)
            &&& c.1 == (m / 2 % 2 == 1)
            &&& c.2 == (m / 4 % 2 == 1)
        }),
{
    match read_be32(mask) {
        Ok(m) => Ok(decode_target_config(m)),
        Err(e) => Err(e),
    }
}

} // verus!
