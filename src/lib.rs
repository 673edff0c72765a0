//! Host side of the two-stage UART download protocol of Mediatek SoCs:
//! the boot ROM loader, which takes a download agent, and the BL2 loader,
//! which takes a firmware image package (FIP).
//!
//! The byte-level decisions of both protocols live here: framing and echo
//! acknowledgment, big-endian field encoding, handshake progress, the FIP
//! checksum and the adaptive packet-size policy. Moving bytes over a serial
//! line is left to the caller, which performs the reads and writes and hands
//! the bytes it got to these functions.

pub mod bl2;
pub mod bootrom;
pub mod checksum;
pub mod command;
pub mod handshake;
pub mod wire;
