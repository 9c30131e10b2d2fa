//! Host side of a CAN firmware-update protocol: decoding of an ASCII hex
//! image, framing of its records, and the bootload session state machine.
pub mod frame;
pub mod hex;
pub mod session;
