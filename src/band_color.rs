//! The ten band colors, their digits, and parsing of color names.
use vstd::prelude::*;

use crate::error::ColorError;
use crate::text::{lower_of, lowercase, same_text, texts, trim_whitespace, trimmed};

verus! {

/// A band color of a resistor. Each color stands for one decimal digit,
/// which is also the power of ten when the band is the multiplier.
#[derive(Debug, Eq, PartialEq, Clone, Copy, Structural)]
pub enum BandColor {
    /// Black 0
    Black,
    /// Brown 1
    Brown,
    /// Red 2
    Red,
    /// Orange 3
    Orange,
    /// Yellow 4
    Yellow,
    /// Green 5
    Green,
    /// Blue 6
    Blue,
    /// Violet 7
    Violet,
    /// Grey 8
    Grey,
    /// White 9
    White,
}

impl BandColor {
    /// The digit this color stands for.
    pub open spec fn digit(self) -> nat {
        match self {
            BandColor::Black => 0,
            BandColor::Brown => 1,
            BandColor::Red => 2,
            BandColor::Orange => 3,
            BandColor::Yellow => 4,
            BandColor::Green => 5,
            BandColor::Blue => 6,
            BandColor::Violet => 7,
            BandColor::Grey => 8,
            BandColor::White => 9,
        }
    }

    /// The lowercase name of this color.
    pub open spec fn name(self) -> Seq<char> {
        match self {
            BandColor::Black => seq!['b', 'l', 'a', 'c', 'k'],
            BandColor::Brown => seq!['b', 'r', 'o', 'w', 'n'],
            BandColor::Red => seq!['r', 'e', 'd'],
            BandColor::Orange => seq!['o', 'r', 'a', 'n', 'g', 'e'],
            BandColor::Yellow => seq!['y', 'e', 'l', 'l', 'o', 'w'],
            BandColor::Green => seq!['g', 'r', 'e', 'e', 'n'],
            BandColor::Blue => seq!['b', 'l', 'u', 'e'],
            BandColor::Violet => seq!['v', 'i', 'o', 'l', 'e', 't'],
            BandColor::Grey => seq!['g', 'r', 'e', 'y'],
            BandColor::White => seq!['w', 'h', 'i', 't', 'e'],
        }
    }

    /// The digit of this color, as a number.
    pub fn value(&self) -> (r: u32)
        ensures
            r == self.digit(),
    {
        match self {
            BandColor::Black => 0,
            BandColor::Brown => 1,
            BandColor::Red => 2,
            BandColor::Orange => 3,
            BandColor::Yellow => 4,
            BandColor::Green => 5,
            BandColor::Blue => 6,
            BandColor::Violet => 7,
            BandColor::Grey => 8,
            BandColor::White => 9,
        }
    }
}

/// The color whose name is exactly `s`, if any.
pub open spec fn color_named(s: Seq<char>) -> Option<BandColor> {
    if s == BandColor::Black.name() {
        Some(BandColor::Black)
    } else if s == BandColor::Brown.name() {
        Some(BandColor::Brown)
    } else if s == BandColor::Red.name() {
        Some(BandColor::Red)
    } else if s == BandColor::Orange.name() {
        Some(BandColor::Orange)
    } else if s == BandColor::Yellow.name() {
        Some(BandColor::Yellow)
    } else if s == BandColor::Green.name() {
        Some(BandColor::Green)
    } else if s == BandColor::Blue.name() {
        Some(BandColor::Blue)
    } else if s == BandColor::Violet.name() {
        Some(BandColor::Violet)
    } else if s == BandColor::Grey.name() {
        Some(BandColor::Grey)
    } else if s == BandColor::White.name() {
        Some(BandColor::White)
    } else {
        None
    }
}

/// The color that the text `s` names once trimmed and lowercased, if any.
pub open spec fn parsed_name(s: Seq<char>) -> Option<BandColor> {
    color_named(lower_of(trimmed(s)))
}

/// Whether `e` reports the text `t` as naming no color.
pub open spec fn reports_unknown(e: ColorError, t: Seq<char>) -> bool {
    match e {
        ColorError::UnknownColor(x) => x@ == t,
        ColorError::InsufficientBands(_) => false,
    }
}

/// Whether every text of `names` names a color.
pub open spec fn all_known(names: Seq<Seq<char>>) -> bool {
    forall|i: int| 0 <= i < names.len() ==> (#[trigger] parsed_name(names[i])) is Some
}

/// Whether `i` is the position of the first text of `names` that names no color.
pub open spec fn first_unknown(names: Seq<Seq<char>>, i: int) -> bool {
    &&& 0 <= i < names.len()
    &&& parsed_name(names[i]) is None
    &&& forall|j: int| 0 <= j < i ==> (#[trigger] parsed_name(names[j])) is Some
}

/// What parsing the list of names `names` into bands gives: too few names
/// (under three) are reported with their count; otherwise the first name that
/// names no color is reported; otherwise each name gives its color, in order.
pub open spec fn bands_outcome(names: Seq<Seq<char>>, r: Result<Seq<BandColor>, ColorError>) -> bool {
    if names.len() < 3 {
        r == Err::<Seq<BandColor>, ColorError>(ColorError::InsufficientBands(names.len() as usize))
    } else {
        match r {
            Ok(b) => b.len() == names.len() && forall|i: int|
                0 <= i < names.len() ==> #[trigger] parsed_name(names[i]) == Some(b[i]),
            Err(e) => exists|i: int| first_unknown(names, i) && reports_unknown(e, names[i]),
        }
    }
}

/// The bands of a parse result, as a sequence.
pub open spec fn bands_view(r: Result<Vec<BandColor>, ColorError>) -> Result<Seq<BandColor>, ColorError> {
    match r {
        Ok(v) => Ok(v@),
        Err(e) => Err(e),
    }
}

/// Each color's name parses back to that color, and no other text does:
/// looking a name up is the inverse of naming a color.
pub proof fn lemma_name_lookup(c: BandColor, s: Seq<char>)
    ensures
        color_named(c.name()) == Some(c),
        color_named(s) == Some(c) <==> s == c.name(),
{
}

/// A text parses to a color exactly when, trimmed and lowercased, it is that
/// color's name; so every known name parses, whatever its letter case and
/// surrounding white space, and parsing one text always gives the same color.
pub proof fn lemma_known_name_parses(s: Seq<char>, c: BandColor)
    ensures
        parsed_name(s) == Some(c) <==> lower_of(trimmed(s)) == c.name(),
{
    lemma_name_lookup(c, lower_of(trimmed(s)));
}

impl BandColor {
    /// The color whose name is exactly `name` (already trimmed and lowercased).
    pub fn from_normalized(name: &str) -> (r: Option<BandColor>)
        ensures
            r == color_named(name@),
    {
        proof {
            reveal_strlit("black");
            reveal_strlit("brown");
            reveal_strlit("red");
            reveal_strlit("orange");
            reveal_strlit("yellow");
            reveal_strlit("green");
            reveal_strlit("blue");
            reveal_strlit("violet");
            reveal_strlit("grey");
            reveal_strlit("white");
            assert("black"@ =~= BandColor::Black.name());
            assert("brown"@ =~= BandColor::Brown.name());
            assert("red"@ =~= BandColor::Red.name());
            assert("orange"@ =~= BandColor::Orange.name());
            assert("yellow"@ =~= BandColor::Yellow.name());
            assert("green"@ =~= BandColor::Green.name());
            assert("blue"@ =~= BandColor::Blue.name());
            assert("violet"@ =~= BandColor::Violet.name());
            assert("grey"@ =~= BandColor::Grey.name());
            assert("white"@ =~= BandColor::White.name());
        }
        if same_text(name, "black") {
            Some(BandColor::Black)
        } else if same_text(name, "brown") {
            Some(BandColor::Brown)
        } else if same_text(name, "red") {
            Some(BandColor::Red)
        } else if same_text(name, "orange") {
            Some(BandColor::Orange)
        } else if same_text(name, "yellow") {
            Some(BandColor::Yellow)
        } else if same_text(name, "green") {
            Some(BandColor::Green)
        } else if same_text(name, "blue") {
            Some(BandColor::Blue)
        } else if same_text(name, "violet") {
            Some(BandColor::Violet)
        } else if same_text(name, "grey") {
            Some(BandColor::Grey)
        } else if same_text(name, "white") {
            Some(BandColor::White)
        } else {
            None
        }
    }

    /// Parses one color name, ignoring surrounding white space and letter
    /// case. Fails with `UnknownColor` carrying `s` as given when the text
    /// names no color.
    pub fn parse(s: &str) -> (r: Result<BandColor, ColorError>)
        ensures
            match r {
                Ok(c) => parsed_name(s@) == Some(c),
                Err(e) => parsed_name(s@) is None && reports_unknown(e, s@),
            },
    {
        let t = trim_whitespace(s);
        let lower = lowercase(t);
        match BandColor::from_normalized(lower.as_str()) {
            Some(c) => Ok(c),
            None => Err(ColorError::UnknownColor(s.to_owned())),
        }
    }

    /// Parses a list of color names into bands, in the same order. At least
    /// three names are needed; the first name that names no color is
    /// reported.
    pub fn get_bands(band_colors: Vec<&str>) -> (r: Result<Vec<BandColor>, ColorError>)
        ensures
            bands_outcome(texts(band_colors@), bands_view(r)),
            band_colors@.len() < 3 ==> r == Err::<Vec<BandColor>, ColorError>(
                ColorError::InsufficientBands(band_colors.len()),
            ),
            band_colors@.len() >= 3 && !all_known(texts(band_colors@)) ==> (r is Err
                && r->Err_0 is UnknownColor),
            r is Ok <==> band_colors@.len() >= 3 && all_known(texts(band_colors@)),
            r is Ok ==> r->Ok_0@.len() == band_colors@.len() && forall|i: int|
                0 <= i < band_colors@.len() ==> parsed_name(band_colors@[i]@) == Some(
                    #[trigger] r->Ok_0@[i],
                ),
    {
        let n = band_colors.len();
        if n < 3 {
            return Err(ColorError::InsufficientBands(n));
        }
        let ghost names = texts(band_colors@);
        let mut bands: Vec<BandColor> = Vec::new();
        let mut i: usize = 0;
        while i < n
            invariant
                n == band_colors@.len(),
                names == texts(band_colors@),
                n >= 3,
                i <= n,
                bands@.len() == i,
                forall|j: int| 0 <= j < i ==> #[trigger] parsed_name(names[j]) == Some(bands@[j]),
            decreases n - i,
        {
            match BandColor::parse(band_colors[i]) {
                Ok(c) => bands.push(c),
                Err(e) => {
                    assert(first_unknown(names, i as int));
                    return Err(e);
                },
            }
            i = i + 1;
        }
        assert forall|j: int| 0 <= j < n implies parsed_name(band_colors@[j]@) == Some(
            bands@[j],
        ) by {
            assert(names[j] == band_colors@[j]@);
        }
        Ok(bands)
    }
}

impl std::str::FromStr for BandColor {
    type Err = ColorError;

    fn from_str(s: &str) -> Result<BandColor, ColorError> {
        BandColor::parse(s)
    }
}

} // verus!
