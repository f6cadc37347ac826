//! A library for controlling an Arcam AVR amplifier or AV receiver over an Ethernet connection
//! using the Arcam IR/RS232 packet protocol.

pub mod codes;
pub mod rc5;
pub mod arcam_protocol;
pub mod text;
pub mod functionality;
pub mod mock_avr850;
pub mod control_window;
