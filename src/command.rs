//! A command as a script of exchanges. The host carries out the steps in
//! order, hands each reply to `step_outcome`, and stops at the first error.

use vstd::prelude::*;
use crate::wire::{
    be16_bytes, be16_seq, be32_bytes, be32_seq, check_echo, parse_status, status_result,
    ProtocolError,
};

verus! {

/// One exchange of a command.
#[derive(Debug, PartialEq, Eq)]
pub enum Step {
    /// Write these bytes; the device must send them back unchanged.
    Echo(Vec<u8>),
    /// Read a big-endian field of this many bytes and keep it.
    Field(usize),
    /// Read a 16-bit status, which must be zero.
    Status,
    /// Write the command's payload, unechoed, and wait until it has left.
    Payload,
}

/// Whether `s` echoes exactly the bytes `b`.
pub open spec fn echoes(s: Step, b: Seq<u8>) -> bool {
    s matches Step::Echo(v) && v@ == b
}

/// How many bytes the device sends back for a step.
pub open spec fn reply_len_spec(s: Step) -> nat {
    match s {
        Step::Echo(v) => v@.len(),
        Step::Field(n) => n as nat,
        Step::Status => 2,
        Step::Payload => 0,
    }
}

/// What a step makes of the device's reply: an error, or whether the reply
/// is a field to keep.
pub open spec fn step_result(s: Step, reply: Seq<u8>) -> Result<bool, ProtocolError> {
    match s {
        Step::Echo(v) => if v@ == reply {
            Ok(false)
        } else {
            Err(ProtocolError::EchoMismatch)
        },
        Step::Field(n) => if reply.len() == n {
            Ok(true)
        } else {
            Err(ProtocolError::ShortRead)
        },
        Step::Status => match status_result(reply) {
            Ok(()) => Ok(false),
            Err(e) => Err(e),
        },
        Step::Payload => Ok(false),
    }
}

/// A step that echoes the single byte `b`.
pub fn echo_byte(b: u8) -> (r: Step)
    ensures
        echoes(r, seq![b]),
{
    let v: Vec<u8> = vec![b];
    assert(v@ =~= seq![b]);
    Step::Echo(v)
}

/// A step that echoes `v` as two big-endian bytes.
pub fn echo_be16(v: u16) -> (r: Step)
    ensures
        echoes(r, be16_seq(v)),
{
    Step::Echo(be16_bytes(v))
}

/// A step that echoes `v` as four big-endian bytes.
pub fn echo_be32(v: u32) -> (r: Step)
    ensures
        echoes(r, be32_seq(v)),
{
    Step::Echo(be32_bytes(v))
}

/// How many bytes to read back after a step.
pub fn reply_len(s: &Step) -> (r: usize)
    ensures
        r == reply_len_spec(*s),
{
    match s {
        Step::Echo(v) => v.len(),
        Step::Field(n) => *n,
        Step::Status => 2,
        Step::Payload => 0,
    }
}

/// Judges the device's reply to a step: `Ok(true)` for a field to keep,
/// `Ok(false)` for an acknowledgment, `Err` for a fatal condition.
pub fn step_outcome(s: &Step, reply: &[u8]) -> (r: Result<bool, ProtocolError>)
    ensures
        r == step_result(*s, reply@),
{
    match s {
        Step::Echo(v) => match check_echo(v.as_slice(), reply) {
            Ok(()) => Ok(false),
            Err(e) => Err(e),
        },
        Step::Field(n) => if reply.len() == *n {
            Ok(true)
        } else {
            Err(ProtocolError::ShortRead)
        },
        Step::Status => match parse_status(reply) {
            Ok(()) => Ok(false),
            Err(e) => Err(e),
        },
        Step::Payload => Ok(false),
    }
}

} // verus!
