//! Streaming frame decoder for the LD19 spinning lidar.
//!
//! The sensor emits 47-byte packets inside an otherwise unstructured byte
//! stream. This crate finds them, validates them with the sensor's CRC-8 and
//! decodes their fixed little-endian layout.
//!
//! * [`crc`]: the checksum and its table.
//! * [`packet`]: the packet layout, the derived angles and the walk over a
//!   packet's points.
//! * [`codec`]: the decoding step, on a plain slice and on the transport's
//!   buffer.
//! * [`laws`]: what holds of every stream and every packet.
//! * [`ratio`]: exact fractions, in which scaled readings are handed out.
//! * [`ports`]: which serial ports are offered for the sensor.
//!
//! Everything is verified except what is taken on trust from outside:
//! the buffer's methods in [`buffer`], duration construction in [`clock`],
//! the little-endian read in [`wire`] and the substring test in [`ports`].

pub mod buffer;
pub mod clock;
pub mod codec;
pub mod crc;
pub mod laws;
pub mod packet;
pub mod ports;
pub mod ratio;
pub mod wire;

pub use codec::{Ld19Codec, Ld19Frame};
pub use crc::crc8;
pub use packet::{Ld19Packet, Ld19Point, Ld19PointIter};
pub use ratio::Ratio;
