//! A resistor as its sequence of color bands, and the value it encodes.
use vstd::prelude::*;

use crate::band_color::{bands_outcome, BandColor};
use crate::error::ColorError;
use crate::text::{split_on_space, split_spaces, trim_whitespace, trimmed};

verus! {

/// Ten to the power `e`.
pub open spec fn pow10(e: nat) -> nat
    decreases e,
{
    if e == 0 {
        1
    } else {
        10 * pow10((e - 1) as nat)
    }
}

/// The significant figures of a band sequence: the digits of the first two
/// bands for three or four bands, of the first three bands for five or six.
pub open spec fn significand(b: Seq<BandColor>) -> nat {
    if b.len() <= 4 {
        10 * b[0].digit() + b[1].digit()
    } else {
        100 * b[0].digit() + 10 * b[1].digit() + b[2].digit()
    }
}

/// The power of ten that a band sequence applies: the digit of the third band
/// for three or four bands, of the fourth band for five or six.
pub open spec fn exponent(b: Seq<BandColor>) -> nat {
    if b.len() <= 4 {
        b[2].digit()
    } else {
        b[3].digit()
    }
}

/// The resistance, in ohms, that a sequence of three to six bands encodes.
pub open spec fn resistance(b: Seq<BandColor>) -> nat {
    significand(b) * pow10(exponent(b))
}

/// A resistor, described by its color bands as read left to right.
#[derive(Debug)]
pub struct Resistor {
    bands: Vec<BandColor>,
}

impl View for Resistor {
    type V = Seq<BandColor>;

    closed spec fn view(&self) -> Seq<BandColor> {
        self.bands@
    }
}

/// The bands that a construction result holds, if it succeeded.
pub open spec fn resistor_view(r: Result<Resistor, ColorError>) -> Result<Seq<BandColor>, ColorError> {
    match r {
        Ok(res) => Ok(res@),
        Err(e) => Err(e),
    }
}

/// The powers of ten of the ten digits stay within 10^9.
proof fn lemma_pow10_of_digit(k: nat)
    requires
        k <= 9,
    ensures
        pow10(k) <= 1_000_000_000,
        k < 9 ==> pow10(k) <= 100_000_000,
{
    reveal_with_fuel(pow10, 10);
    assert(k == 0 || k == 1 || k == 2 || k == 3 || k == 4 || k == 5 || k == 6 || k == 7 || k == 8
        || k == 9);
}

/// Ten to the power `e`, for a digit `e`.
fn power_of_ten(e: u32) -> (r: u64)
    requires
        e <= 9,
    ensures
        r == pow10(e as nat),
        r <= 1_000_000_000,
{
    let mut r: u64 = 1;
    let mut k: u32 = 0;
    while k < e
        invariant
            k <= e <= 9,
            r == pow10(k as nat),
        decreases e - k,
    {
        proof {
            lemma_pow10_of_digit(k as nat);
        }
        r = r * 10;
        k = k + 1;
    }
    proof {
        lemma_pow10_of_digit(k as nat);
    }
    r
}

impl Resistor {
    #[verifier::type_invariant]
    spec fn well_formed(&self) -> bool {
        self.bands@.len() >= 3
    }

    /// Parses a resistor from its color names, separated by single spaces;
    /// white space around the whole text is ignored. Adjacent spaces leave an
    /// empty name, which names no color. Fails as `BandColor::get_bands` does
    /// on the names.
    pub fn from_text(s: &str) -> (r: Result<Resistor, ColorError>)
        ensures
            bands_outcome(split_spaces(trimmed(s@)), resistor_view(r)),
            r is Ok ==> r->Ok_0@.len() >= 3,
    {
        let t = trim_whitespace(s);
        let names = split_on_space(t);
        match BandColor::get_bands(names) {
            Ok(bands) => Ok(Resistor { bands }),
            Err(e) => Err(e),
        }
    }

    /// The resistance in ohms that the bands encode: the significant figures
    /// (two digits for three or four bands, three for five or six) times ten
    /// to the power of the next band's digit. Later bands are not read.
    pub fn get_value(&self) -> (r: u64)
        requires
            self@.len() <= 6,
        ensures
            r == resistance(self@),
    {
        proof {
            use_type_invariant(self);
        }
        let n = self.bands.len();
        let (significant, e) = if n <= 4 {
            let first = self.bands[0].value() as u64;
            let second = self.bands[1].value() as u64;
            (first * 10 + second, self.bands[2].value())
        } else {
            let first = self.bands[0].value() as u64;
            let second = self.bands[1].value() as u64;
            let third = self.bands[2].value() as u64;
            (first * 100 + second * 10 + third, self.bands[3].value())
        };
        let multiplier = power_of_ten(e);
        assert(significant * multiplier <= 999 * 1_000_000_000) by (nonlinear_arith)
            requires
                significant <= 999,
                multiplier <= 1_000_000_000,
        ;
        significant * multiplier
    }

    /// The bands, left to right.
    pub fn get_bands(&self) -> (r: &Vec<BandColor>)
        ensures
            r@ == self@,
    {
        &self.bands
    }

    /// A resistor with the given bands. Fails with `InsufficientBands` when
    /// fewer than three are given.
    pub fn with_bands(bands: Vec<BandColor>) -> (r: Result<Resistor, ColorError>)
        ensures
            match r {
                Ok(res) => bands@.len() >= 3 && res@ == bands@,
                Err(e) => bands@.len() < 3 && e == ColorError::InsufficientBands(bands.len()),
            },
    {
        if bands.len() < 3 {
            return Err(ColorError::InsufficientBands(bands.len()));
        }
        Ok(Resistor { bands })
    }
}

impl Clone for Resistor {
    fn clone(&self) -> (r: Resistor)
        ensures
            r@ == self@,
    {
        proof {
            use_type_invariant(self);
        }
        let bands = self.bands.clone();
        assert(bands@ =~= self.bands@);
        Resistor { bands }
    }
}

impl std::str::FromStr for Resistor {
    type Err = ColorError;

    fn from_str(s: &str) -> Result<Resistor, ColorError> {
        Resistor::from_text(s)
    }
}

} // verus!
