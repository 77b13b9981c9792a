use vstd::prelude::*;

verus! {

/// Fundamental constants that can be held exactly as integers (SI units).
pub struct PhysicalConstants;

impl PhysicalConstants {
    /// Speed of light in vacuum, in metres per second (exact by the definition of the metre).
    pub const SPEED_OF_LIGHT: u64 = 299792458;

    /// Nanometres in one metre.
    pub const NANOMETRES_PER_METRE: u64 = 1000000000;

    /// The speed of light in nanometres per second: a wavelength in nanometres
    /// divides it to give a frequency in hertz.
    pub const SPEED_OF_LIGHT_IN_NANOMETRES: u64 = 299792458 * 1000000000;
}

/// A frequency held exactly, as `numerator / denominator` hertz.
#[derive(Clone, Copy, Debug)]
pub struct Frequency {
    pub numerator: u64,
    pub denominator: u64,
}

impl Frequency {
    pub open spec fn wf(self) -> bool {
        self.denominator > 0
    }
}

/// The frequency of light of the given vacuum wavelength: `c / (wavelength_nm * 1e-9)` hertz.
pub open spec fn frequency_of_wavelength(wavelength_in_nanometers: u64) -> Frequency {
    Frequency {
        numerator: PhysicalConstants::SPEED_OF_LIGHT_IN_NANOMETRES,
        denominator: wavelength_in_nanometers,
    }
}

/// Converts vacuum wavelengths to frequencies.
pub struct WavelengthToFrequencyConverter;

impl WavelengthToFrequencyConverter {
    /// The frequency of light whose vacuum wavelength is the given number of
    /// nanometres, exactly: the speed of light over the wavelength in metres.
    pub fn convert_wavelength_to_frequency(wavelength_in_nanometers: u64) -> (r: Frequency)
        requires
            wavelength_in_nanometers > 0,
        ensures
            r == frequency_of_wavelength(wavelength_in_nanometers),
            r.wf(),
    {
        Frequency {
            numerator: PhysicalConstants::SPEED_OF_LIGHT_IN_NANOMETRES,
            denominator: wavelength_in_nanometers,
        }
    }
}

/// A two-level atom, described by the frequency of its one transition.
pub struct AtomParameters {
    transition_frequency: Frequency,
}

impl AtomParameters {
    pub closed spec fn spec_transition_frequency(&self) -> Frequency {
        self.transition_frequency
    }

    /// An atom whose transition has the given vacuum wavelength in nanometres.
    pub fn new(wavelength_in_nanometers: u64) -> (r: AtomParameters)
        requires
            wavelength_in_nanometers > 0,
        ensures
            r.spec_transition_frequency() == frequency_of_wavelength(wavelength_in_nanometers),
    {
        let transition_frequency = WavelengthToFrequencyConverter::convert_wavelength_to_frequency(
            wavelength_in_nanometers,
        );
        AtomParameters { transition_frequency }
    }

    /// The frequency of the atom's transition.
    pub fn transition_frequency(&self) -> (r: Frequency)
        ensures
            r == self.spec_transition_frequency(),
    {
        self.transition_frequency
    }

    /// The detuning of a laser from this atom's transition: the transition
    /// frequency minus the laser frequency.
    pub fn detuning_from(&self, laser_frequency: Frequency) -> (r: Detuning)
        requires
            self.spec_transition_frequency().wf(),
            laser_frequency.wf(),
        ensures
            r.wf(),
            r.signed_numerator() == detuning_numerator(
                self.spec_transition_frequency(),
                laser_frequency,
            ),
            r.denominator == self.spec_transition_frequency().denominator
                * laser_frequency.denominator,
    {
        let t = self.transition_frequency;
        proof {
            lemma_product_fits(t.numerator, laser_frequency.denominator);
            lemma_product_fits(laser_frequency.numerator, t.denominator);
            lemma_product_fits(t.denominator, laser_frequency.denominator);
            assert(t.denominator * laser_frequency.denominator > 0) by (nonlinear_arith)
                requires
                    t.denominator > 0,
                    laser_frequency.denominator > 0,
            ;
        }
        let atom_part: u128 = (t.numerator as u128) * (laser_frequency.denominator as u128);
        let laser_part: u128 = (laser_frequency.numerator as u128) * (t.denominator as u128);
        let denominator: u128 = (t.denominator as u128) * (laser_frequency.denominator as u128);
        if atom_part >= laser_part {
            Detuning { negative: false, magnitude: atom_part - laser_part, denominator }
        } else {
            Detuning { negative: true, magnitude: laser_part - atom_part, denominator }
        }
    }
}

/// The numerator of `transition - laser` over the common denominator
/// `transition.denominator * laser.denominator`.
pub open spec fn detuning_numerator(transition: Frequency, laser: Frequency) -> int {
    transition.numerator * laser.denominator - laser.numerator * transition.denominator
}

/// A signed frequency difference held exactly, as
/// `(negative ? -magnitude : magnitude) / denominator` hertz.
#[derive(Clone, Copy, Debug)]
pub struct Detuning {
    pub negative: bool,
    pub magnitude: u128,
    pub denominator: u128,
}

impl Detuning {
    /// Zero has one form only: it is never marked negative.
    pub open spec fn wf(self) -> bool {
        &&& self.denominator > 0
        &&& self.magnitude == 0 ==> !self.negative
    }

    /// The signed numerator, over `denominator`.
    pub open spec fn signed_numerator(self) -> int {
        if self.negative {
            -self.magnitude
        } else {
            self.magnitude as int
        }
    }

    /// Whether the laser is exactly on resonance.
    pub fn is_zero(&self) -> (r: bool)
        requires
            self.wf(),
        ensures
            r == (self.signed_numerator() == 0),
    {
        self.magnitude == 0
    }
}

/// The product of two `u64` values fits in a `u128`.
proof fn lemma_product_fits(a: u64, b: u64)
    ensures
        a * b <= u128::MAX,
{
    assert(a * b <= u64::MAX * u64::MAX) by (nonlinear_arith)
        requires
            a <= u64::MAX,
            b <= u64::MAX,
    ;
}

/// A laser is exactly on resonance with an atom, its detuning zero, if and
/// only if the two wavelengths are equal.
pub proof fn lemma_resonance_iff_equal_wavelengths(atom_nanometers: u64, laser_nanometers: u64)
    requires
        atom_nanometers > 0,
        laser_nanometers > 0,
    ensures
        detuning_numerator(
            frequency_of_wavelength(atom_nanometers),
            frequency_of_wavelength(laser_nanometers),
        ) == 0 <==> atom_nanometers == laser_nanometers,
{
    let c = PhysicalConstants::SPEED_OF_LIGHT_IN_NANOMETRES as int;
    assert(c > 0);
    assert(c * laser_nanometers - c * atom_nanometers == c * (laser_nanometers - atom_nanometers))
        by (nonlinear_arith);
    assert((c * (laser_nanometers - atom_nanometers) == 0) <==> (laser_nanometers == atom_nanometers))
        by (nonlinear_arith)
        requires
            c > 0,
    ;
}

} // verus!
