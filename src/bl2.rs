//! The BL2 loader's protocol: command scripts, the adaptive packet-size ramp
//! and the packetised FIP transfer.

use vstd::prelude::*;
use crate::checksum::{fip_packet_checksum, packet_checksum};
use crate::command::{echo_be16, echo_be32, echo_byte, echoes, Step};
use crate::wire::{be16_seq, be32_seq, ProtocolError};

verus! {

/// Opcode that asks for the loader's version.
pub const BL2_CMD_VERSION: u8 = 1;

/// Opcode that switches the link's baud rate.
pub const BL2_CMD_SET_BAUDRATE: u8 = 2;

/// Opcode that starts a FIP transfer.
pub const BL2_CMD_SEND_FIP: u8 = 3;

/// Opcode that runs the received FIP.
pub const BL2_CMD_GO: u8 = 4;

/// Read timeout during a FIP transfer, in milliseconds.
pub const FIP_TIMEOUT_MS: u64 = 2000;

/// Interval between checks that a packet has left the host, in milliseconds.
pub const FIP_DRAIN_POLL_MS: u64 = 50;

/// Size of the first packet.
pub const FIP_FIRST_PACKET_LEN: usize = 128;

/// Below this size a packet size doubles after each success.
pub const FIP_DOUBLING_LIMIT: usize = 32768;

/// Growth of the packet size after each success, once it no longer doubles.
pub const FIP_PACKET_STEP: usize = 1024;

/// The largest packet size.
pub const FIP_MAX_PACKET_LEN: usize = 64512;

/// The packet size after a successful packet of size `cur`.
pub open spec fn next_len_spec(cur: nat) -> nat {
    if cur < FIP_DOUBLING_LIMIT {
        cur * 2
    } else if cur < FIP_MAX_PACKET_LEN {
        (cur + FIP_PACKET_STEP) as nat
    } else {
        cur
    }
}

/// The packet size after `n` successful packets.
pub open spec fn ramp_len(n: nat) -> nat
    decreases n,
{
    if n == 0 {
        FIP_FIRST_PACKET_LEN as nat
    } else {
        next_len_spec(ramp_len((n - 1) as nat))
    }
}

/// `2` to the power `n`.
pub open spec fn pow2(n: nat) -> nat
    decreases n,
{
    if n == 0 {
        1
    } else {
        2 * pow2((n - 1) as nat)
    }
}

/// The packet size after `n` successes, in closed form: `128 * 2^n` up to
/// 32768, then 1024 more per success up to 64512, then 64512.
pub open spec fn ramp_closed(n: nat) -> nat {
    if n < 8 {
        128 * pow2(n)
    } else if n < 39 {
        (32768 + 1024 * (n - 8)) as nat
    } else {
        64512
    }
}

/// Grows the packet size after a successful packet.
pub fn next_packet_len(cur: usize) -> (r: usize)
    ensures
        r == next_len_spec(cur as nat),
{
    if cur < FIP_DOUBLING_LIMIT {
        cur * 2
    } else if cur < FIP_MAX_PACKET_LEN {
        cur + FIP_PACKET_STEP
    } else {
        cur
    }
}

/// Over a run of successful packets from the first one, the packet size
/// follows the closed form and never shrinks.
pub proof fn lemma_ramp(n: nat)
    ensures
        ramp_len(n) == ramp_closed(n),
        ramp_len(n) <= ramp_len(n + 1),
        FIP_FIRST_PACKET_LEN <= ramp_len(n) <= FIP_MAX_PACKET_LEN,
    decreases n,
{
    if n == 0 {
        assert(pow2(0) == 1);
    } else {
        lemma_ramp((n - 1) as nat);
        if n < 8 {
            lemma_pow2_small((n - 1) as nat);
            assert(pow2(n) == 2 * pow2((n - 1) as nat));
        } else if n == 8 {
            assert(pow2(7) == 128) by {
                reveal_with_fuel(pow2, 8);
            }
        }
    }
}

proof fn lemma_pow2_small(n: nat)
    requires
        n < 8,
    ensures
        pow2(n) <= 128,
{
    reveal_with_fuel(pow2, 8);
}

/// The header of one FIP packet, which the device must echo byte for byte.
#[derive(Debug, Clone, Copy, PartialEq, Eq, Structural)]
pub struct FipPacketHeader {
    pub index: u32,
    pub length: u16,
    pub checksum: u16,
}

/// How the device answered a packet.
#[derive(Debug, Clone, Copy, PartialEq, Eq, Structural)]
pub enum PacketVerdict {
    /// Both the index and the checksum match: the packet arrived.
    Accepted,
    /// The device reported another index.
    WrongIndex,
    /// The index matches, the checksum does not.
    WrongChecksum,
}

impl FipPacketHeader {
    /// The header of the packet with index `index` carrying `chunk`.
    pub fn new(index: u32, chunk: &[u8]) -> (h: FipPacketHeader)
        requires
            chunk@.len() <= 0xffff,
        ensures
            h.index == index,
            h.length as int == chunk@.len(),
            h.checksum as nat == packet_checksum(chunk@),
    {
        FipPacketHeader { index, length: chunk.len() as u16, checksum: fip_packet_checksum(chunk) }
    }

    /// The exchanges of one packet: the index, length and checksum fields
    /// are echoed, the chunk follows unechoed, and the device answers with the
    /// index and checksum it saw, kept as two fields.
    pub fn script(&self) -> (r: Vec<Step>)
        ensures
            r@.len() == 6,
            echoes(r@[0], be32_seq(self.index)),
            echoes(r@[1], be16_seq(self.length)),
            echoes(r@[2], be16_seq(self.checksum)),
            r@[3] == Step::Payload,
            r@[4] == Step::Field(4),
            r@[5] == Step::Field(2),
    {
        let mut r: Vec<Step> = Vec::new();
        r.push(echo_be32(self.index));
        r.push(echo_be16(self.length));
        r.push(echo_be16(self.checksum));
        r.push(Step::Payload);
        r.push(Step::Field(4));
        r.push(Step::Field(2));
        r
    }

    /// Judges the index and checksum that the device reported back.
    pub fn verdict(&self, device_index: u32, device_checksum: u16) -> (r: PacketVerdict)
        ensures
            r == (if device_index != self.index {
                PacketVerdict::WrongIndex
            } else if device_checksum != self.checksum {
                PacketVerdict::WrongChecksum
            } else {
                PacketVerdict::Accepted
            }),
    {
        if device_index != self.index {
            PacketVerdict::WrongIndex
        } else if device_checksum != self.checksum {
            PacketVerdict::WrongChecksum
        } else {
            PacketVerdict::Accepted
        }
    }
}

/// The next packet to send: its index and the byte range `start..end` of
/// the image that it carries.
#[derive(Debug, Clone, Copy, PartialEq, Eq, Structural)]
pub struct FipPacket {
    pub index: u32,
    pub start: usize,
    pub end: usize,
    /// Whether this packet carries the rest of the image.
    pub last: bool,
}

/// Progress of a FIP transfer.
pub struct FipTransfer {
    total: usize,
    offset: usize,
    index: u32,
    pkt_len: usize,
    done: bool,
}

impl FipTransfer {
    /// Length of the image.
    pub closed spec fn total(&self) -> nat {
        self.total as nat
    }

    /// How many bytes the device has acknowledged.
    pub closed spec fn offset(&self) -> nat {
        self.offset as nat
    }

    /// Index of the next packet, which is also the number of acknowledged
    /// packets.
    pub closed spec fn index(&self) -> nat {
        self.index as nat
    }

    /// The size of the next packet, unless it is the last one.
    pub closed spec fn packet_len(&self) -> nat {
        self.pkt_len as nat
    }

    /// Whether the last packet has been acknowledged.
    pub closed spec fn done(&self) -> bool {
        self.done
    }

    /// The transfer's invariant: the size of the next packet is the ramp's
    /// value for the number of packets acknowledged so far.
    pub closed spec fn wf(&self) -> bool {
        &&& self.offset <= self.total <= u32::MAX
        &&& self.pkt_len == ramp_len(self.index as nat)
        &&& self.index * FIP_FIRST_PACKET_LEN <= self.offset
        &&& self.done ==> self.offset == self.total
    }

    /// The packet that the current state calls for.
    pub open spec fn packet_spec(&self) -> FipPacket {
        if self.total() - self.offset() > self.packet_len() {
            FipPacket {
                index: self.index() as u32,
                start: self.offset() as usize,
                end: (self.offset() + self.packet_len()) as usize,
                last: false,
            }
        } else {
            FipPacket {
                index: self.index() as u32,
                start: self.offset() as usize,
                end: self.total() as usize,
                last: true,
            }
        }
    }

    /// Starts the transfer of an image of `total` bytes; its length has to
    /// fit the 32-bit length field.
    pub fn new(total: usize) -> (r: Result<FipTransfer, ProtocolError>)
        ensures
            r is Ok <==> total <= u32::MAX,
            r is Err ==> r->Err_0 == ProtocolError::TooLarge,
            r matches Ok(t) ==> {
                &&& t.wf()
                &&& t.total() == total
                &&& t.offset() == 0
                &&& t.index() == 0
                &&& t.packet_len() == FIP_FIRST_PACKET_LEN
                &&& !t.done()
            },
    {
        if total > u32::MAX as usize {
            return Err(ProtocolError::TooLarge);
        }
        Ok(FipTransfer { total, offset: 0, index: 0, pkt_len: FIP_FIRST_PACKET_LEN, done: false })
    }

    /// The exchanges that open the transfer: the opcode, then the image
    /// length as four big-endian bytes.
    pub fn opening_script(&self) -> (r: Vec<Step>)
        requires
            self.wf(),
        ensures
            r@.len() == 2,
            echoes(r@[0], seq![BL2_CMD_SEND_FIP]),
            echoes(r@[1], be32_seq(self.total() as u32)),
    {
        let mut r: Vec<Step> = Vec::new();
        r.push(echo_byte(BL2_CMD_SEND_FIP));
        r.push(echo_be32(self.total as u32));
        r
    }

    /// Whether the last packet has been acknowledged.
    pub fn is_done(&self) -> (r: bool)
        ensures
            r == self.done(),
    {
        self.done
    }

    /// The packet to send next. Once what is left fits the current packet
    /// size, the packet is the last one and carries all of it.
    pub fn next_packet(&self) -> (p: FipPacket)
        requires
            self.wf(),
            !self.done(),
        ensures
            p == self.packet_spec(),
            p.start <= p.end <= self.total(),
            p.end - p.start <= FIP_MAX_PACKET_LEN,
    {
        proof {
            lemma_ramp(self.index as nat);
        }
        if self.total - self.offset > self.pkt_len {
            FipPacket {
                index: self.index,
                start: self.offset,
                end: self.offset + self.pkt_len,
                last: false,
            }
        } else {
            FipPacket { index: self.index, start: self.offset, end: self.total, last: true }
        }
    }

    /// Records the device's verdict on the packet of `next_packet`. A refused
    /// packet leaves everything as it was, so the same packet goes again. An
    /// accepted one moves past its bytes and, unless it was the last, grows
    /// the packet size.
    pub fn on_verdict(&mut self, verdict: PacketVerdict)
        requires
            old(self).wf(),
            !old(self).done(),
        ensures
            final(self).wf(),
            final(self).total() == old(self).total(),
            verdict != PacketVerdict::Accepted ==> *final(self) == *old(self),
            verdict == PacketVerdict::Accepted && !old(self).packet_spec().last ==> {
                &&& final(self).offset() == old(self).offset() + old(self).packet_len()
                &&& final(self).index() == old(self).index() + 1
                &&& final(self).packet_len() == next_len_spec(old(self).packet_len())
                &&& !final(self).done()
            },
            verdict == PacketVerdict::Accepted && old(self).packet_spec().last ==> {
                &&& final(self).offset() == old(self).total()
                &&& final(self).index() == old(self).index()
                &&& final(self).packet_len() == old(self).packet_len()
                &&& final(self).done()
            },
    {
        if verdict != PacketVerdict::Accepted {
            return;
        }
        proof {
            lemma_ramp(self.index as nat);
        }
        if self.total - self.offset > self.pkt_len {
            self.offset = self.offset + self.pkt_len;
            self.index = self.index + 1;
            self.pkt_len = next_packet_len(self.pkt_len);
        } else {
            self.offset = self.total;
            self.done = true;
        }
    }
}

/// In a transfer, the size of the next packet is the one the ramp gives
/// after as many successes as packets have been acknowledged.
pub proof fn lemma_transfer_follows_ramp(t: FipTransfer)
    requires
        t.wf(),
    ensures
        t.packet_len() == ramp_len(t.index()),
        t.packet_len() == ramp_closed(t.index()),
{
    lemma_ramp(t.index());
}

/// Version query: the opcode, then one byte, the version, kept as a field.
pub fn version_script() -> (r: Vec<Step>)
    ensures
        r@.len() == 2,
        echoes(r@[0], seq![BL2_CMD_VERSION]),
        r@[1] == Step::Field(1),
{
    let mut r: Vec<Step> = Vec::new();
    r.push(echo_byte(BL2_CMD_VERSION));
    r.push(Step::Field(1));
    r
}

/// Baud-rate switch: the opcode, then the rate as four big-endian bytes.
/// The host then changes its own rate, and BL2 wants a fresh handshake.
pub fn set_baudrate_script(baudrate: u32) -> (r: Vec<Step>)
    ensures
        r@.len() == 2,
        echoes(r@[0], seq![BL2_CMD_SET_BAUDRATE]),
        echoes(r@[1], be32_seq(baudrate)),
{
    let mut r: Vec<Step> = Vec::new();
    r.push(echo_byte(BL2_CMD_SET_BAUDRATE));
    r.push(echo_be32(baudrate));
    r
}

/// Run the received image: the opcode alone. Nothing is read after it: the
/// link then carries BL2's log.
pub fn go_script() -> (r: Vec<Step>)
    ensures
        r@.len() == 1,
        echoes(r@[0], seq![BL2_CMD_GO]),
{
    let mut r: Vec<Step> = Vec::new();
    r.push(echo_byte(BL2_CMD_GO));
    r
}

} // verus!
