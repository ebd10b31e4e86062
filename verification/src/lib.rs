//! Configuration of the RF front-end of an ADALM-Pluto software-defined
//! radio: selecting decimation filter tables by sample rate, parsing the
//! transmit-path status line, encoding gain control modes, and sequencing
//! filter enable/disable against rate changes so that no step demands an
//! illegal intermediate hardware state. All attribute I/O goes through the
//! [`store::AttributeStore`] capability, with a verified in-memory store
//! for tests and an adapter over the hardware stack outside the crate.

pub mod digits;
pub mod error;
pub mod fir;
pub mod freq;
pub mod gain;
pub mod path_rates;
pub mod radio;
pub mod store;
pub mod strutil;
