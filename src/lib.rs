//! Exact frequency arithmetic for a laser-driven two-level atom.
//!
//! Wavelengths are whole nanometres and frequencies are exact ratios of
//! integers, so the conversion from wavelength to frequency and the detuning
//! between a laser and an atomic transition carry no rounding at all.
pub mod excited_state_probability;

pub use excited_state_probability::{
    AtomParameters, Detuning, Frequency, PhysicalConstants, WavelengthToFrequencyConverter,
};
