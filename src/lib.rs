//! Driver core for an SPI-attached LoRa transceiver of the SX128x family.
//!
//! `ll` frames the three classes of bus operation (command, register,
//! buffer) into SPI transactions and holds the radio's command table.
//! `hl` holds the parameter codecs and the sequencer that drives the chip
//! through configuration, calibration, transmission and reception as a
//! state machine; the caller performs each bus action it hands out.
pub mod hl;
pub mod ll;
