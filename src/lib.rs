//! Typestate driver for the RP2040 crystal oscillator (XOSC).
//!
//! The oscillator's life cycle (disabled, initialized, stable, dormant) is
//! encoded in the type of [`CrystalOscillator`]; each transition consumes the
//! controller and hands back one in the next state.

mod typelevel;
pub mod xosc;

pub use xosc::{
    compute_startup_delay, CrystalOscillator, Disabled, Dormant, Error, Initialized, Stable,
    StableOscillatorToken, State, Xosc,
};
