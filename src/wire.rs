//! Field encoding and the acknowledgment checks shared by both loaders.

use vstd::prelude::*;

verus! {

/// A fatal protocol condition: the session cannot go on after one of these.
#[derive(Debug, Clone, Copy, PartialEq, Eq, Structural)]
pub enum ProtocolError {
    /// The device did not send back the bytes it was sent.
    EchoMismatch,
    /// Fewer bytes came back than a fixed-width field needs.
    ShortRead,
    /// The device answered a command with a nonzero status.
    DeviceStatus(u16),
    /// A signature longer than the image that holds it.
    SignatureTooLong,
    /// A length that does not fit the 32-bit field that carries it.
    TooLarge,
}

/// The two bytes of `v`, most significant first.
pub open spec fn be16_seq(v: u16) -> Seq<u8> {
    seq![(v / 0x100) as u8, (v % 0x100) as u8]
}

/// The four bytes of `v`, most significant first.
pub open spec fn be32_seq(v: u32) -> Seq<u8> {
    seq![
        (v / 0x100_0000) as u8,
        (v / 0x1_0000 % 0x100) as u8,
        (v / 0x100 % 0x100) as u8,
        (v % 0x100) as u8,
    ]
}

/// The number that two bytes give, read most significant first.
pub open spec fn be16_value(b: Seq<u8>) -> int {
    b[0] * 0x100 + b[1]
}

/// The number that four bytes give, read most significant first.
pub open spec fn be32_value(b: Seq<u8>) -> int {
    b[0] * 0x100_0000 + b[1] * 0x1_0000 + b[2] * 0x100 + b[3]
}

/// Encodes `v` as two big-endian bytes.
pub fn be16_bytes(v: u16) -> (r: Vec<u8>)
    ensures
        r@ == be16_seq(v),
{
    let mut r: Vec<u8> = Vec::new();
    r.push((v / 0x100) as u8);
    r.push((v % 0x100) as u8);
    r
}

/// Encodes `v` as four big-endian bytes.
pub fn be32_bytes(v: u32) -> (r: Vec<u8>)
    ensures
        r@ == be32_seq(v),
{
    let mut r: Vec<u8> = Vec::new();
    r.push((v / 0x100_0000) as u8);
    r.push((v / 0x1_0000 % 0x100) as u8);
    r.push((v / 0x100 % 0x100) as u8);
    r.push((v % 0x100) as u8);
    r
}

/// Decodes a big-endian 16-bit field; anything but exactly two bytes is a
/// short read.
pub fn read_be16(b: &[u8]) -> (r: Result<u16, ProtocolError>)
    ensures
        r is Ok <==> b@.len() == 2,
        r is Ok ==> r->Ok_0 as int == be16_value(b@),
        r is Err ==> r == Err::<u16, ProtocolError>(ProtocolError::ShortRead),
{
    if b.len() != 2 {
        return Err(ProtocolError::ShortRead);
    }
    Ok((b[0] as u16) * 0x100 + (b[1] as u16))
}

/// Decodes a big-endian 32-bit field; anything but exactly four bytes is a
/// short read.
pub fn read_be32(b: &[u8]) -> (r: Result<u32, ProtocolError>)
    ensures
        r is Ok <==> b@.len() == 4,
        r is Ok ==> r->Ok_0 as int == be32_value(b@),
        r is Err ==> r == Err::<u32, ProtocolError>(ProtocolError::ShortRead),
{
    if b.len() != 4 {
        return Err(ProtocolError::ShortRead);
    }
    Ok((b[0] as u32) * 0x100_0000 + (b[1] as u32) * 0x1_0000 + (b[2] as u32) * 0x100 + (b[3]
        as u32))
}

/// Decoding undoes encoding, for both field widths.
pub proof fn lemma_be_round_trip(a: u16, b: u32)
    ensures
        be16_value(be16_seq(a)) == a as int,
        be32_value(be32_seq(b)) == b as int,
{
}

/// The echo acknowledgment: the device must send back exactly the bytes it
/// was sent, else the link is out of step or corrupt.
pub fn check_echo(sent: &[u8], received: &[u8]) -> (r: Result<(), ProtocolError>)
    ensures
        sent@ == received@ ==> r == Ok::<(), ProtocolError>(()),
        sent@ != received@ ==> r == Err::<(), ProtocolError>(ProtocolError::EchoMismatch),
{
    if sent.len() != received.len() {
        return Err(ProtocolError::EchoMismatch);
    }
    let mut i: usize = 0;
    while i < sent.len()
        invariant
            sent@.len() == received@.len(),
            i <= sent@.len(),
            forall|j: int| 0 <= j < i ==> sent@[j] == received@[j],
        decreases sent@.len() - i,
    {
        if sent[i] != received[i] {
            return Err(ProtocolError::EchoMismatch);
        }
        i = i + 1;
    }
    assert(sent@ =~= received@);
    Ok(())
}

/// A device status: zero is success, anything else rejects the command.
pub fn check_status(status: u16) -> (r: Result<(), ProtocolError>)
    ensures
        status == 0 ==> r == Ok::<(), ProtocolError>(()),
        status != 0 ==> r == Err::<(), ProtocolError>(ProtocolError::DeviceStatus(status)),
{
    if status != 0 {
        Err(ProtocolError::DeviceStatus(status))
    } else {
        Ok(())
    }
}

/// The result of reading a 16-bit status field.
pub open spec fn status_result(b: Seq<u8>) -> Result<(), ProtocolError> {
    if b.len() != 2 {
        Err(ProtocolError::ShortRead)
    } else if be16_value(b) != 0 {
        Err(ProtocolError::DeviceStatus(be16_value(b) as u16))
    } else {
        Ok(())
    }
}

/// Reads a 16-bit status field and fails unless it is zero.
pub fn parse_status(b: &[u8]) -> (r: Result<(), ProtocolError>)
    ensures
        r == status_result(b@),
{
    match read_be16(b) {
        Ok(status) => check_status(status),
        Err(e) => Err(e),
    }
}

} // verus!
