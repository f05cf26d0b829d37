//! Core of an FT8 receiver: bit packing, the callsign hash table, the
//! 77-bit payload unpacker, the parity and CRC gates of the decoder, and the
//! bookkeeping of the streaming demodulator.

pub mod callsignmap;
pub mod ft8;
pub mod ldpc;
pub mod message;
pub mod text;
pub mod utils;
