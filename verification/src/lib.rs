//! Pulse-width-modulation subsystem of a microcontroller hardware-abstraction
//! layer, modelled and verified: a capability table relating pins to timer
//! channels, pin binding that consumes the pin and yields a proof of the
//! table entry, integer frequency translation into a prescaler/auto-reload
//! pair, and channel handles whose register effects are stated exactly.

pub mod identity;
pub mod table;
pub mod timing;
pub mod channel;
pub mod bind;
pub mod pins;
