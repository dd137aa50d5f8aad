//! A host-side driver for a WiFi coprocessor that takes framed commands over
//! SPI: the parameter codec, the command frames, and the buffering of TCP
//! sockets, with no I/O of its own.
pub mod command;
pub mod encoding;
pub mod error;
pub mod frame;
pub mod handle;
pub mod param;
pub mod params;
pub mod socket;
pub mod spi;
pub mod types;
pub mod wifi;
