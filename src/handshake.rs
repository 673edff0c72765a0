//! Synchronisation handshakes: the host sends a fixed probe one byte at a
//! time and moves to the next byte only once the device has answered the
//! current one with the expected byte. A wrong or missing answer is not an
//! error: the same byte is probed again.

use vstd::prelude::*;

verus! {

/// Probe of the boot ROM loader.
pub const BROM_PROBE: [u8; 4] = [0xa0, 0x0a, 0x50, 0x05];

/// Probe of the BL2 loader, `"mudl"`.
pub const BL2_PROBE: [u8; 4] = [0x6d, 0x75, 0x64, 0x6c];

/// Answer of the BL2 loader, `"TF-A"`.
pub const BL2_ANSWER: [u8; 4] = [0x54, 0x46, 0x2d, 0x41];

/// Read timeout for each probe of the boot ROM, in milliseconds.
pub const BROM_PROBE_TIMEOUT_MS: u64 = 5;

/// Read timeout for each probe of BL2, in milliseconds.
pub const BL2_PROBE_TIMEOUT_MS: u64 = 500;

/// Pause after a completed handshake, before pending input is discarded, in
/// milliseconds.
pub const SETTLE_DELAY_MS: u64 = 200;

/// The position after one answer: it moves on only when the answer is the
/// expected byte at the current position.
pub open spec fn handshake_step(expected: Seq<u8>, pos: nat, reply: Option<u8>) -> nat {
    if pos < expected.len() && reply == Some(expected[pos as int]) {
        pos + 1
    } else {
        pos
    }
}

/// The position after a sequence of answers.
pub open spec fn handshake_run(expected: Seq<u8>, pos: nat, replies: Seq<Option<u8>>) -> nat
    decreases replies.len(),
{
    if replies.len() == 0 {
        pos
    } else {
        handshake_run(expected, handshake_step(expected, pos, replies[0]), replies.drop_first())
    }
}

/// The answers of a device that answers every probe from `pos` on correctly,
/// `n` of them.
pub open spec fn faithful_replies(expected: Seq<u8>, pos: nat, n: nat) -> Seq<Option<u8>> {
    Seq::new(n, |i: int| Some(expected[pos + i]))
}

/// Progress through a handshake pattern.
pub struct Handshake {
    probe: Vec<u8>,
    expected: Vec<u8>,
    pos: usize,
}

impl Handshake {
    /// The bytes sent, in order.
    pub closed spec fn probe_seq(&self) -> Seq<u8> {
        self.probe@
    }

    /// The answers awaited, in order.
    pub closed spec fn expected_seq(&self) -> Seq<u8> {
        self.expected@
    }

    /// How many probe bytes have been answered correctly.
    pub closed spec fn position(&self) -> nat {
        self.pos as nat
    }

    /// Probe and answer have the same length, and the position lies within
    /// them.
    pub closed spec fn wf(&self) -> bool {
        &&& self.probe@.len() == self.expected@.len()
        &&& self.pos <= self.probe@.len()
    }

    /// The boot ROM handshake: each probe byte is answered by its bitwise
    /// complement.
    pub fn for_bootrom() -> (h: Handshake)
        ensures
            h.wf(),
            h.position() == 0,
            h.probe_seq() == BROM_PROBE@,
            h.expected_seq().len() == 4,
            forall|i: int| 0 <= i < 4 ==> h.expected_seq()[i] == !h.probe_seq()[i],
    {
        let probe: Vec<u8> = vec![BROM_PROBE[0], BROM_PROBE[1], BROM_PROBE[2], BROM_PROBE[3]];
        let mut expected: Vec<u8> = Vec::new();
        let mut i: usize = 0;
        while i < 4
            invariant
                probe@ == BROM_PROBE@,
                i <= 4,
                expected@.len() == i,
                forall|j: int| 0 <= j < i ==> expected@[j] == !probe@[j],
            decreases 4 - i,
        {
            expected.push(!probe[i]);
            i = i + 1;
        }
        assert(probe@ =~= BROM_PROBE@);
        Handshake { probe, expected, pos: 0 }
    }

    /// The BL2 handshake: the probe `"mudl"` is answered by `"TF-A"`.
    pub fn for_bl2() -> (h: Handshake)
        ensures
            h.wf(),
            h.position() == 0,
            h.probe_seq() == BL2_PROBE@,
            h.expected_seq() == BL2_ANSWER@,
    {
        let probe: Vec<u8> = vec![BL2_PROBE[0], BL2_PROBE[1], BL2_PROBE[2], BL2_PROBE[3]];
        let expected: Vec<u8> = vec![BL2_ANSWER[0], BL2_ANSWER[1], BL2_ANSWER[2], BL2_ANSWER[3]];
        assert(probe@ =~= BL2_PROBE@);
        assert(expected@ =~= BL2_ANSWER@);
        Handshake { probe, expected, pos: 0 }
    }

    /// Whether every probe byte has been answered.
    pub fn is_complete(&self) -> (r: bool)
        requires
            self.wf(),
        ensures
            r == (self.position() == self.probe_seq().len()),
    {
        self.pos == self.probe.len()
    }

    /// The byte to send next.
    pub fn probe_byte(&self) -> (r: u8)
        requires
            self.wf(),
            self.position() < self.probe_seq().len(),
        ensures
            r == self.probe_seq()[self.position() as int],
    {
        self.probe[self.pos]
    }

    /// Takes the device's answer to the last probe: `None` when nothing came
    /// back in time.
    pub fn on_reply(&mut self, reply: Option<u8>)
        requires
            old(self).wf(),
        ensures
            final(self).wf(),
            final(self).probe_seq() == old(self).probe_seq(),
            final(self).expected_seq() == old(self).expected_seq(),
            final(self).position() == handshake_step(
                old(self).expected_seq(),
                old(self).position(),
                reply,
            ),
    {
        if self.pos < self.expected.len() {
            match reply {
                Some(b) => {
                    if b == self.expected[self.pos] {
                        self.pos = self.pos + 1;
                    }
                },
                None => {},
            }
        }
    }
}

/// A device that answers each probe correctly moves the handshake on by one
/// position per round trip: from the start it completes after exactly as many
/// round trips as the pattern has bytes, and is incomplete before that.
pub proof fn lemma_faithful_device_completes(expected: Seq<u8>, pos: nat, n: nat)
    requires
        pos + n <= expected.len(),
    ensures
        handshake_run(expected, pos, faithful_replies(expected, pos, n)) == pos + n,
    decreases n,
{
    let replies = faithful_replies(expected, pos, n);
    if n > 0 {
        assert(handshake_step(expected, pos, replies[0]) == pos + 1);
        assert(replies.drop_first() =~= faithful_replies(expected, pos + 1, (n - 1) as nat));
        lemma_faithful_device_completes(expected, pos + 1, (n - 1) as nat);
    }
}

/// Answers never move the handshake back, and each moves it at most one
/// position.
pub proof fn lemma_handshake_monotone(expected: Seq<u8>, pos: nat, replies: Seq<Option<u8>>)
    ensures
        pos <= handshake_run(expected, pos, replies) <= pos + replies.len(),
    decreases replies.len(),
{
    if replies.len() > 0 {
        lemma_handshake_monotone(
            expected,
            handshake_step(expected, pos, replies[0]),
            replies.drop_first(),
        );
    }
}

} // verus!
