//! Protocol core of a USB-to-FPGA bridge.
//!
//! The firmware exposes one USB serial endpoint and fans it out to two
//! downstream buses and a handful of digital control lines.  Everything
//! with real state and ordering concerns lives here as a verified state
//! machine: the power-up sequencing, the bitstream relay that streams a
//! fixed-size payload to the configuration bus, and the line-oriented
//! command dispatcher that runs for the rest of the session.  The
//! hardware itself (USB stack, SPI, UART, pins, timers) is driven by an
//! unverified shell that performs the [`device::Action`]s this library
//! decides on and feeds the resulting [`session::Event`]s back in.

pub mod device;
pub mod dispatch;
pub mod relay;
pub mod sequencer;
pub mod session;
pub mod laws;
