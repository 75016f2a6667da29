//! The country registry: the closed set of supported countries and each
//! country's format descriptor (total length, character-class layout,
//! bank-code offsets, account-number offsets).
//!
//! The layouts follow the published IBAN registry formats, written in the
//! registry's own notation: `n` for a run of digits, `a` for a run of
//! uppercase letters, `c` for a run of alphanumeric characters.

use vstd::prelude::*;

use crate::chars::{digits_value, is_digit, read_value};
use crate::matcher::CharClass;

verus! {

/// The countries for which an IBAN format is registered. `Internet`
/// is the pseudo-country with code `AA`, used for test and demo accounts.
#[allow(missing_docs)]
#[derive(Debug, Clone, Copy, PartialEq, Eq, Structural)]
#[non_exhaustive]
pub enum Country {
    Albania,
    Andorra,
    Austria,
    Azerbaijan,
    Bahrain,
    Belarus,
    Belgium,
    BosniaHerzegovina,
    Brazil,
    Bulgaria,
    CostaRica,
    Croatia,
    Cyprus,
    CzechRepublic,
    Denmark,
    DominicanRepublic,
    EastTimor,
    Egypt,
    ElSalvador,
    Estonia,
    FaroeIslands,
    Finland,
    France,
    Georgia,
    Germany,
    Gibraltar,
    Greece,
    Greenland,
    Guatemala,
    Hungary,
    Iceland,
    Internet,
    Iraq,
    Ireland,
    Israel,
    Italy,
    Jordan,
    Kazakhstan,
    Kosovo,
    Kuwait,
    Latvia,
    Lebanon,
    Libya,
    Liechenstein,
    Lithuania,
    Luxembourg,
    NorthMacedonia,
    Malta,
    Mauritania,
    Mauritius,
    Monaco,
    Moldova,
    Montenegro,
    Netherlands,
    Norway,
    Pakistan,
    PalestinianTerritories,
    Poland,
    Portugal,
    Qatar,
    Romania,
    SaintLucia,
    SanMarino,
    SaoTomePrincipe,
    SaudiArabia,
    Serbia,
    Seychelles,
    Slovakia,
    Slovenia,
    Spain,
    Sweden,
    Switzerland,
    Tunisia,
    Turkey,
    Ukraine,
    UnitedArabEmirates,
    UnitedKingdom,
    VaticanCity,
    VirginIslands,
}

/// A run of `k` decimal digits: the IBAN registry's `n` notation.
pub open spec fn n(k: usize) -> (CharClass, usize) {
    (CharClass::Digit, k)
}

/// A run of `k` alphanumeric characters: the IBAN registry's `c` notation.
pub open spec fn c(k: usize) -> (CharClass, usize) {
    (CharClass::Alnum, k)
}

/// A run of `k` uppercase letters: the IBAN registry's `a` notation.
pub open spec fn a(k: usize) -> (CharClass, usize) {
    (CharClass::UpperLetter, k)
}

/// The exact number of characters an IBAN of this country must have.
pub open spec fn spec_length(co: Country) -> nat {
    match co {
        Country::Albania => 28,
        Country::Andorra => 24,
        Country::Austria => 20,
        Country::Azerbaijan => 28,
        Country::Bahrain => 22,
        Country::Belarus => 28,
        Country::Belgium => 16,
        Country::BosniaHerzegovina => 20,
        Country::Brazil => 29,
        Country::Bulgaria => 22,
        Country::CostaRica => 22,
        Country::Croatia => 21,
        Country::Cyprus => 28,
        Country::CzechRepublic => 24,
        Country::Denmark => 18,
        Country::DominicanRepublic => 28,
        Country::EastTimor => 23,
        Country::Egypt => 29,
        Country::ElSalvador => 28,
        Country::Estonia => 20,
        Country::FaroeIslands => 18,
        Country::Finland => 18,
        Country::France => 27,
        Country::Georgia => 22,
        Country::Germany => 22,
        Country::Gibraltar => 23,
        Country::Greece => 27,
        Country::Greenland => 18,
        Country::Guatemala => 28,
        Country::Hungary => 28,
        Country::Iceland => 26,
        Country::Internet => 16,
        Country::Iraq => 23,
        Country::Ireland => 22,
        Country::Israel => 23,
        Country::Italy => 27,
        Country::Jordan => 30,
        Country::Kazakhstan => 20,
        Country::Kosovo => 20,
        Country::Kuwait => 30,
        Country::Latvia => 21,
        Country::Lebanon => 28,
        Country::Libya => 25,
        Country::Liechenstein => 21,
        Country::Lithuania => 20,
        Country::Luxembourg => 20,
        Country::NorthMacedonia => 19,
        Country::Malta => 31,
        Country::Mauritania => 27,
        Country::Mauritius => 30,
        Country::Monaco => 27,
        Country::Moldova => 24,
        Country::Montenegro => 22,
        Country::Netherlands => 18,
        Country::Norway => 15,
        Country::Pakistan => 24,
        Country::PalestinianTerritories => 29,
        Country::Poland => 28,
        Country::Portugal => 25,
        Country::Qatar => 29,
        Country::Romania => 24,
        Country::SaintLucia => 32,
        Country::SanMarino => 27,
        Country::SaoTomePrincipe => 25,
        Country::SaudiArabia => 24,
        Country::Serbia => 22,
        Country::Seychelles => 31,
        Country::Slovakia => 24,
        Country::Slovenia => 19,
        Country::Spain => 24,
        Country::Sweden => 24,
        Country::Switzerland => 21,
        Country::Tunisia => 24,
        Country::Turkey => 26,
        Country::Ukraine => 29,
        Country::UnitedArabEmirates => 23,
        Country::UnitedKingdom => 22,
        Country::VaticanCity => 22,
        Country::VirginIslands => 24,
    }
}

/// The layout of the BBAN: the part of the IBAN after the country code
/// and the two check digits.
pub open spec fn spec_bban_layout(co: Country) -> Seq<(CharClass, usize)> {
    match co {
        Country::Albania => seq![n(8), c(16)],
        Country::Andorra => seq![n(8), c(12)],
        Country::Austria => seq![n(16)],
        Country::Azerbaijan => seq![c(4), n(20)],
        Country::Bahrain => seq![a(4), c(14)],
        Country::Belarus => seq![c(4), n(4), c(16)],
        Country::Belgium => seq![n(12)],
        Country::BosniaHerzegovina => seq![n(16)],
        Country::Brazil => seq![n(23), a(1), c(1)],
        Country::Bulgaria => seq![a(4), n(6), c(8)],
        Country::CostaRica => seq![n(18)],
        Country::Croatia => seq![n(17)],
        Country::Cyprus => seq![n(8), c(16)],
        Country::CzechRepublic => seq![n(20)],
        Country::Denmark => seq![n(14)],
        Country::DominicanRepublic => seq![a(4), n(20)],
        Country::EastTimor => seq![n(19)],
        Country::Egypt => seq![n(25)],
        Country::ElSalvador => seq![a(4), n(20)],
        Country::Estonia => seq![n(16)],
        Country::FaroeIslands => seq![n(14)],
        Country::Finland => seq![n(14)],
        Country::France => seq![n(10), c(11), n(2)],
        Country::Georgia => seq![c(2), n(16)],
        Country::Germany => seq![n(18)],
        Country::Gibraltar => seq![a(4), c(15)],
        Country::Greece => seq![n(7), c(16)],
        Country::Greenland => seq![n(14)],
        Country::Guatemala => seq![c(4), c(20)],
        Country::Hungary => seq![n(24)],
        Country::Iceland => seq![n(22)],
        Country::Internet => seq![n(4), c(8)],
        Country::Iraq => seq![a(4), n(15)],
        Country::Ireland => seq![c(4), n(14)],
        Country::Israel => seq![n(19)],
        Country::Italy => seq![a(1), n(10), c(12)],
        Country::Jordan => seq![a(4), n(22)],
        Country::Kazakhstan => seq![n(3), c(13)],
        Country::Kosovo => seq![n(4), n(10), n(2)],
        Country::Kuwait => seq![a(4), c(22)],
        Country::Latvia => seq![a(4), c(13)],
        Country::Lebanon => seq![n(4), c(20)],
        Country::Libya => seq![n(21)],
        Country::Liechenstein => seq![n(5), c(12)],
        Country::Lithuania => seq![n(16)],
        Country::Luxembourg => seq![n(3), c(13)],
        Country::NorthMacedonia => seq![n(3), c(10), n(2)],
        Country::Malta => seq![a(4), n(5), c(18)],
        Country::Mauritania => seq![n(23)],
        Country::Mauritius => seq![a(4), n(19), a(3)],
        Country::Monaco => seq![n(10), c(11), n(2)],
        Country::Moldova => seq![c(2), c(18)],
        Country::Montenegro => seq![n(18)],
        Country::Netherlands => seq![a(4), n(10)],
        Country::Norway => seq![n(11)],
        Country::Pakistan => seq![c(4), n(16)],
        Country::PalestinianTerritories => seq![c(4), n(21)],
        Country::Poland => seq![n(24)],
        Country::Portugal => seq![n(21)],
        Country::Qatar => seq![a(4), c(21)],
        Country::Romania => seq![a(4), c(16)],
        Country::SaintLucia => seq![a(4), c(24)],
        Country::SanMarino => seq![a(1), n(10), c(12)],
        Country::SaoTomePrincipe => seq![n(21)],
        Country::SaudiArabia => seq![n(2), c(18)],
        Country::Serbia => seq![n(18)],
        Country::Seychelles => seq![a(4), n(20), a(3)],
        Country::Slovakia => seq![n(20)],
        Country::Slovenia => seq![n(15)],
        Country::Spain => seq![n(20)],
        Country::Sweden => seq![n(20)],
        Country::Switzerland => seq![n(5), c(12)],
        Country::Tunisia => seq![n(20)],
        Country::Turkey => seq![n(5), c(17)],
        Country::Ukraine => seq![n(6), c(19)],
        Country::UnitedArabEmirates => seq![n(3), n(16)],
        Country::UnitedKingdom => seq![a(4), n(14)],
        Country::VaticanCity => seq![n(3), n(15)],
        Country::VirginIslands => seq![c(4), n(16)],
    }
}

/// The full positional layout of an IBAN of this country: two uppercase
/// letters (the country code), two check digits, then the BBAN layout.
pub open spec fn spec_layout(co: Country) -> Seq<(CharClass, usize)> {
    seq![a(2), n(2)] + spec_bban_layout(co)
}

/// The sum of the run lengths of a layout.
pub open spec fn layout_len(lay: Seq<(CharClass, usize)>) -> int
    decreases lay.len(),
{
    if lay.len() == 0 {
        0
    } else {
        layout_len(lay.drop_last()) + lay.last().1
    }
}

/// For every supported country, the declared total length equals the sum
/// of its layout segment lengths.
pub proof fn lemma_layout_total_length(co: Country)
    ensures
        layout_len(spec_layout(co)) == spec_length(co),
{
    reveal_with_fuel(layout_len, 7);
}

/// The two-letter code of this country, `'A'` `'L'` for Albania.
pub open spec fn spec_code(co: Country) -> Seq<char> {
    match co {
        Country::Albania => seq!['A', 'L'],
        Country::Andorra => seq!['A', 'D'],
        Country::Austria => seq!['A', 'T'],
        Country::Azerbaijan => seq!['A', 'Z'],
        Country::Bahrain => seq!['B', 'H'],
        Country::Belarus => seq!['B', 'Y'],
        Country::Belgium => seq!['B', 'E'],
        Country::BosniaHerzegovina => seq!['B', 'A'],
        Country::Brazil => seq!['B', 'R'],
        Country::Bulgaria => seq!['B', 'G'],
        Country::CostaRica => seq!['C', 'R'],
        Country::Croatia => seq!['H', 'R'],
        Country::Cyprus => seq!['C', 'Y'],
        Country::CzechRepublic => seq!['C', 'Z'],
        Country::Denmark => seq!['D', 'K'],
        Country::DominicanRepublic => seq!['D', 'O'],
        Country::EastTimor => seq!['T', 'L'],
        Country::Egypt => seq!['E', 'G'],
        Country::ElSalvador => seq!['S', 'V'],
        Country::Estonia => seq!['E', 'E'],
        Country::FaroeIslands => seq!['F', 'O'],
        Country::Finland => seq!['F', 'I'],
        Country::France => seq!['F', 'R'],
        Country::Georgia => seq!['G', 'E'],
        Country::Germany => seq!['D', 'E'],
        Country::Gibraltar => seq!['G', 'I'],
        Country::Greece => seq!['G', 'R'],
        Country::Greenland => seq!['G', 'L'],
        Country::Guatemala => seq!['G', 'T'],
        Country::Hungary => seq!['H', 'U'],
        Country::Iceland => seq!['I', 'S'],
        Country::Internet => seq!['A', 'A'],
        Country::Iraq => seq!['I', 'Q'],
        Country::Ireland => seq!['I', 'E'],
        Country::Israel => seq!['I', 'L'],
        Country::Italy => seq!['I', 'T'],
        Country::Jordan => seq!['J', 'O'],
        Country::Kazakhstan => seq!['K', 'Z'],
        Country::Kosovo => seq!['X', 'K'],
        Country::Kuwait => seq!['K', 'W'],
        Country::Latvia => seq!['L', 'V'],
        Country::Lebanon => seq!['L', 'B'],
        Country::Libya => seq!['L', 'Y'],
        Country::Liechenstein => seq!['L', 'I'],
        Country::Lithuania => seq!['L', 'T'],
        Country::Luxembourg => seq!['L', 'U'],
        Country::NorthMacedonia => seq!['M', 'K'],
        Country::Malta => seq!['M', 'T'],
        Country::Mauritania => seq!['M', 'R'],
        Country::Mauritius => seq!['M', 'U'],
        Country::Monaco => seq!['M', 'C'],
        Country::Moldova => seq!['M', 'D'],
        Country::Montenegro => seq!['M', 'E'],
        Country::Netherlands => seq!['N', 'L'],
        Country::Norway => seq!['N', 'O'],
        Country::Pakistan => seq!['P', 'K'],
        Country::PalestinianTerritories => seq!['P', 'S'],
        Country::Poland => seq!['P', 'L'],
        Country::Portugal => seq!['P', 'T'],
        Country::Qatar => seq!['Q', 'A'],
        Country::Romania => seq!['R', 'O'],
        Country::SaintLucia => seq!['L', 'C'],
        Country::SanMarino => seq!['S', 'M'],
        Country::SaoTomePrincipe => seq!['S', 'T'],
        Country::SaudiArabia => seq!['S', 'A'],
        Country::Serbia => seq!['R', 'S'],
        Country::Seychelles => seq!['S', 'C'],
        Country::Slovakia => seq!['S', 'K'],
        Country::Slovenia => seq!['S', 'I'],
        Country::Spain => seq!['E', 'S'],
        Country::Sweden => seq!['S', 'E'],
        Country::Switzerland => seq!['C', 'H'],
        Country::Tunisia => seq!['T', 'N'],
        Country::Turkey => seq!['T', 'R'],
        Country::Ukraine => seq!['U', 'A'],
        Country::UnitedArabEmirates => seq!['A', 'E'],
        Country::UnitedKingdom => seq!['G', 'B'],
        Country::VaticanCity => seq!['V', 'A'],
        Country::VirginIslands => seq!['V', 'G'],
    }
}

/// The country whose two-letter code is `c0` `c1`, if any. The codes are
/// uppercase: lowercase pairs match no country.
pub open spec fn spec_lookup(c0: char, c1: char) -> Option<Country> {
    if c0 == 'A' && c1 == 'L' {
        Some(Country::Albania)
    } else if c0 == 'A' && c1 == 'D' {
        Some(Country::Andorra)
    } else if c0 == 'A' && c1 == 'T' {
        Some(Country::Austria)
    } else if c0 == 'A' && c1 == 'Z' {
        Some(Country::Azerbaijan)
    } else if c0 == 'B' && c1 == 'H' {
        Some(Country::Bahrain)
    } else if c0 == 'B' && c1 == 'Y' {
        Some(Country::Belarus)
    } else if c0 == 'B' && c1 == 'E' {
        Some(Country::Belgium)
    } else if c0 == 'B' && c1 == 'A' {
        Some(Country::BosniaHerzegovina)
    } else if c0 == 'B' && c1 == 'R' {
        Some(Country::Brazil)
    } else if c0 == 'B' && c1 == 'G' {
        Some(Country::Bulgaria)
    } else if c0 == 'C' && c1 == 'R' {
        Some(Country::CostaRica)
    } else if c0 == 'H' && c1 == 'R' {
        Some(Country::Croatia)
    } else if c0 == 'C' && c1 == 'Y' {
        Some(Country::Cyprus)
    } else if c0 == 'C' && c1 == 'Z' {
        Some(Country::CzechRepublic)
    } else if c0 == 'D' && c1 == 'K' {
        Some(Country::Denmark)
    } else if c0 == 'D' && c1 == 'O' {
        Some(Country::DominicanRepublic)
    } else if c0 == 'T' && c1 == 'L' {
        Some(Country::EastTimor)
    } else if c0 == 'E' && c1 == 'G' {
        Some(Country::Egypt)
    } else if c0 == 'S' && c1 == 'V' {
        Some(Country::ElSalvador)
    } else if c0 == 'E' && c1 == 'E' {
        Some(Country::Estonia)
    } else if c0 == 'F' && c1 == 'O' {
        Some(Country::FaroeIslands)
    } else if c0 == 'F' && c1 == 'I' {
        Some(Country::Finland)
    } else if c0 == 'F' && c1 == 'R' {
        Some(Country::France)
    } else if c0 == 'G' && c1 == 'E' {
        Some(Country::Georgia)
    } else if c0 == 'D' && c1 == 'E' {
        Some(Country::Germany)
    } else if c0 == 'G' && c1 == 'I' {
        Some(Country::Gibraltar)
    } else if c0 == 'G' && c1 == 'R' {
        Some(Country::Greece)
    } else if c0 == 'G' && c1 == 'L' {
        Some(Country::Greenland)
    } else if c0 == 'G' && c1 == 'T' {
        Some(Country::Guatemala)
    } else if c0 == 'H' && c1 == 'U' {
        Some(Country::Hungary)
    } else if c0 == 'I' && c1 == 'S' {
        Some(Country::Iceland)
    } else if c0 == 'A' && c1 == 'A' {
        Some(Country::Internet)
    } else if c0 == 'I' && c1 == 'Q' {
        Some(Country::Iraq)
    } else if c0 == 'I' && c1 == 'E' {
        Some(Country::Ireland)
    } else if c0 == 'I' && c1 == 'L' {
        Some(Country::Israel)
    } else if c0 == 'I' && c1 == 'T' {
        Some(Country::Italy)
    } else if c0 == 'J' && c1 == 'O' {
        Some(Country::Jordan)
    } else if c0 == 'K' && c1 == 'Z' {
        Some(Country::Kazakhstan)
    } else if c0 == 'X' && c1 == 'K' {
        Some(Country::Kosovo)
    } else if c0 == 'K' && c1 == 'W' {
        Some(Country::Kuwait)
    } else if c0 == 'L' && c1 == 'V' {
        Some(Country::Latvia)
    } else if c0 == 'L' && c1 == 'B' {
        Some(Country::Lebanon)
    } else if c0 == 'L' && c1 == 'Y' {
        Some(Country::Libya)
    } else if c0 == 'L' && c1 == 'I' {
        Some(Country::Liechenstein)
    } else if c0 == 'L' && c1 == 'T' {
        Some(Country::Lithuania)
    } else if c0 == 'L' && c1 == 'U' {
        Some(Country::Luxembourg)
    } else if c0 == 'M' && c1 == 'K' {
        Some(Country::NorthMacedonia)
    } else if c0 == 'M' && c1 == 'T' {
        Some(Country::Malta)
    } else if c0 == 'M' && c1 == 'R' {
        Some(Country::Mauritania)
    } else if c0 == 'M' && c1 == 'U' {
        Some(Country::Mauritius)
    } else if c0 == 'M' && c1 == 'C' {
        Some(Country::Monaco)
    } else if c0 == 'M' && c1 == 'D' {
        Some(Country::Moldova)
    } else if c0 == 'M' && c1 == 'E' {
        Some(Country::Montenegro)
    } else if c0 == 'N' && c1 == 'L' {
        Some(Country::Netherlands)
    } else if c0 == 'N' && c1 == 'O' {
        Some(Country::Norway)
    } else if c0 == 'P' && c1 == 'K' {
        Some(Country::Pakistan)
    } else if c0 == 'P' && c1 == 'S' {
        Some(Country::PalestinianTerritories)
    } else if c0 == 'P' && c1 == 'L' {
        Some(Country::Poland)
    } else if c0 == 'P' && c1 == 'T' {
        Some(Country::Portugal)
    } else if c0 == 'Q' && c1 == 'A' {
        Some(Country::Qatar)
    } else if c0 == 'R' && c1 == 'O' {
        Some(Country::Romania)
    } else if c0 == 'L' && c1 == 'C' {
        Some(Country::SaintLucia)
    } else if c0 == 'S' && c1 == 'M' {
        Some(Country::SanMarino)
    } else if c0 == 'S' && c1 == 'T' {
        Some(Country::SaoTomePrincipe)
    } else if c0 == 'S' && c1 == 'A' {
        Some(Country::SaudiArabia)
    } else if c0 == 'R' && c1 == 'S' {
        Some(Country::Serbia)
    } else if c0 == 'S' && c1 == 'C' {
        Some(Country::Seychelles)
    } else if c0 == 'S' && c1 == 'K' {
        Some(Country::Slovakia)
    } else if c0 == 'S' && c1 == 'I' {
        Some(Country::Slovenia)
    } else if c0 == 'E' && c1 == 'S' {
        Some(Country::Spain)
    } else if c0 == 'S' && c1 == 'E' {
        Some(Country::Sweden)
    } else if c0 == 'C' && c1 == 'H' {
        Some(Country::Switzerland)
    } else if c0 == 'T' && c1 == 'N' {
        Some(Country::Tunisia)
    } else if c0 == 'T' && c1 == 'R' {
        Some(Country::Turkey)
    } else if c0 == 'U' && c1 == 'A' {
        Some(Country::Ukraine)
    } else if c0 == 'A' && c1 == 'E' {
        Some(Country::UnitedArabEmirates)
    } else if c0 == 'G' && c1 == 'B' {
        Some(Country::UnitedKingdom)
    } else if c0 == 'V' && c1 == 'A' {
        Some(Country::VaticanCity)
    } else if c0 == 'V' && c1 == 'G' {
        Some(Country::VirginIslands)
    } else {
        None
    }
}

/// The half-open offset range of the national bank code within the IBAN.
pub open spec fn spec_bank_range(co: Country) -> (int, int) {
    match co {
        Country::Albania => (4, 7),
        Country::Andorra => (4, 8),
        Country::Austria => (4, 9),
        Country::Azerbaijan => (4, 8),
        Country::Bahrain => (4, 8),
        Country::Belarus => (4, 8),
        Country::Belgium => (4, 7),
        Country::BosniaHerzegovina => (4, 7),
        Country::Brazil => (4, 12),
        Country::Bulgaria => (4, 8),
        Country::CostaRica => (5, 8),
        Country::Croatia => (4, 11),
        Country::Cyprus => (4, 7),
        Country::CzechRepublic => (4, 8),
        Country::Denmark => (4, 8),
        Country::DominicanRepublic => (4, 8),
        Country::EastTimor => (4, 7),
        Country::Egypt => (4, 8),
        Country::ElSalvador => (4, 8),
        Country::Estonia => (4, 6),
        Country::FaroeIslands => (4, 8),
        Country::Finland => (4, 10),
        Country::France => (4, 9),
        Country::Georgia => (4, 6),
        Country::Germany => (4, 12),
        Country::Gibraltar => (4, 8),
        Country::Greece => (4, 7),
        Country::Greenland => (4, 8),
        Country::Guatemala => (4, 8),
        Country::Hungary => (4, 7),
        Country::Iceland => (4, 6),
        Country::Internet => (4, 8),
        Country::Iraq => (4, 8),
        Country::Ireland => (8, 14),
        Country::Israel => (4, 7),
        Country::Italy => (5, 10),
        Country::Jordan => (4, 8),
        Country::Kazakhstan => (4, 7),
        Country::Kosovo => (4, 8),
        Country::Kuwait => (4, 8),
        Country::Latvia => (4, 8),
        Country::Lebanon => (4, 8),
        Country::Libya => (4, 7),
        Country::Liechenstein => (4, 9),
        Country::Lithuania => (4, 9),
        Country::Luxembourg => (4, 7),
        Country::NorthMacedonia => (4, 7),
        Country::Malta => (4, 8),
        Country::Mauritania => (4, 9),
        Country::Mauritius => (4, 10),
        Country::Monaco => (4, 9),
        Country::Moldova => (4, 6),
        Country::Montenegro => (4, 7),
        Country::Netherlands => (4, 8),
        Country::Norway => (4, 8),
        Country::Pakistan => (4, 8),
        Country::PalestinianTerritories => (4, 8),
        Country::Poland => (4, 7),
        Country::Portugal => (4, 8),
        Country::Qatar => (4, 8),
        Country::Romania => (4, 8),
        Country::SaintLucia => (4, 8),
        Country::SanMarino => (5, 10),
        Country::SaoTomePrincipe => (4, 8),
        Country::SaudiArabia => (4, 6),
        Country::Serbia => (4, 7),
        Country::Seychelles => (4, 10),
        Country::Slovakia => (4, 8),
        Country::Slovenia => (4, 6),
        Country::Spain => (4, 8),
        Country::Sweden => (4, 7),
        Country::Switzerland => (4, 9),
        Country::Tunisia => (4, 6),
        Country::Turkey => (4, 9),
        Country::Ukraine => (4, 10),
        Country::UnitedArabEmirates => (4, 7),
        Country::UnitedKingdom => (4, 8),
        Country::VaticanCity => (4, 7),
        Country::VirginIslands => (4, 8),
    }
}

/// The half-open offset range of the account number within an IBAN of
/// `len` characters; some countries place it relative to the end of the
/// string, to leave room for trailing currency or check suffixes.
pub open spec fn spec_account_range(co: Country, len: int) -> (int, int) {
    match co {
        Country::Albania => (12, len),
        Country::Andorra => (12, len),
        Country::Austria => (9, len),
        Country::Azerbaijan => (8, len),
        Country::Bahrain => (8, len),
        Country::Belarus => (12, len),
        Country::Belgium => (7, len - 2),
        Country::BosniaHerzegovina => (10, len - 2),
        Country::Brazil => (17, len - 2),
        Country::Bulgaria => (14, len),
        Country::CostaRica => (8, len),
        Country::Croatia => (11, len),
        Country::Cyprus => (12, len),
        Country::CzechRepublic => (14, len),
        Country::Denmark => (8, len),
        Country::DominicanRepublic => (8, len),
        Country::EastTimor => (7, len - 2),
        Country::Egypt => (12, len),
        Country::ElSalvador => (8, len),
        Country::Estonia => (8, len - 1),
        Country::FaroeIslands => (8, len - 1),
        Country::Finland => (10, len - 1),
        Country::France => (14, len - 2),
        Country::Georgia => (6, len),
        Country::Germany => (12, len),
        Country::Gibraltar => (8, len),
        Country::Greece => (11, len),
        Country::Greenland => (8, len),
        Country::Guatemala => (12, len),
        Country::Hungary => (12, len - 1),
        Country::Iceland => (10, 16),
        Country::Internet => (8, len),
        Country::Iraq => (11, len),
        Country::Ireland => (14, len),
        Country::Israel => (10, len),
        Country::Italy => (15, len),
        Country::Jordan => (12, len),
        Country::Kazakhstan => (7, len),
        Country::Kosovo => (8, len),
        Country::Kuwait => (8, len),
        Country::Latvia => (8, len),
        Country::Lebanon => (8, len),
        Country::Libya => (10, len),
        Country::Liechenstein => (9, len),
        Country::Lithuania => (9, len),
        Country::Luxembourg => (7, len),
        Country::NorthMacedonia => (7, len - 2),
        Country::Malta => (13, len),
        Country::Mauritania => (14, len),
        Country::Mauritius => (12, len - 6),
        Country::Monaco => (14, len - 2),
        Country::Moldova => (6, len),
        Country::Montenegro => (7, len - 2),
        Country::Netherlands => (8, len),
        Country::Norway => (8, len - 1),
        Country::Pakistan => (8, len),
        Country::PalestinianTerritories => (8, len),
        Country::Poland => (12, len),
        Country::Portugal => (12, len - 2),
        Country::Qatar => (8, len),
        Country::Romania => (8, len),
        Country::SaintLucia => (8, len),
        Country::SanMarino => (15, len),
        Country::SaoTomePrincipe => (12, len),
        Country::SaudiArabia => (6, len),
        Country::Serbia => (7, len - 2),
        Country::Seychelles => (13, len - 3),
        Country::Slovakia => (14, len),
        Country::Slovenia => (8, len - 2),
        Country::Spain => (14, len),
        Country::Sweden => (7, len),
        Country::Switzerland => (9, len),
        Country::Tunisia => (9, len - 2),
        Country::Turkey => (10, len),
        Country::Ukraine => (10, len),
        Country::UnitedArabEmirates => (9, len),
        Country::UnitedKingdom => (14, len),
        Country::VaticanCity => (7, len),
        Country::VirginIslands => (8, len),
    }
}

/// The account-number substring of `s` for country `co`.
pub open spec fn account_slice(co: Country, s: Seq<char>) -> Seq<char> {
    s.subrange(spec_account_range(co, s.len() as int).0, spec_account_range(co, s.len() as int).1)
}

/// Every character of the account-number substring of `s` is a digit.
pub open spec fn account_digits(co: Country, s: Seq<char>) -> bool {
    forall|i: int|
        spec_account_range(co, s.len() as int).0 <= i < spec_account_range(co, s.len() as int).1
            ==> is_digit(#[trigger] s[i])
}

/// The bank-code range of every country lies inside its declared length.
pub proof fn lemma_bank_range_wf(co: Country)
    ensures
        4 <= spec_bank_range(co).0 < spec_bank_range(co).1 <= spec_length(co),
{
}

/// The account-number range of every country lies inside its declared
/// length and spans at most 24 characters, so the account number of a
/// valid IBAN always fits in an unsigned 128-bit integer.
pub proof fn lemma_account_range_wf(co: Country, len: int)
    requires
        len == spec_length(co),
    ensures
        4 <= spec_account_range(co, len).0 <= spec_account_range(co, len).1 <= len,
        spec_account_range(co, len).1 - spec_account_range(co, len).0 <= 24,
{
}

impl Country {
    /// The exact number of characters an IBAN of this country must have.
    pub fn length(&self) -> (r: usize)
        ensures
            r as nat == spec_length(*self),
    {
        match self {
            Country::Albania => 28,
            Country::Andorra => 24,
            Country::Austria => 20,
            Country::Azerbaijan => 28,
            Country::Bahrain => 22,
            Country::Belarus => 28,
            Country::Belgium => 16,
            Country::BosniaHerzegovina => 20,
            Country::Brazil => 29,
            Country::Bulgaria => 22,
            Country::CostaRica => 22,
            Country::Croatia => 21,
            Country::Cyprus => 28,
            Country::CzechRepublic => 24,
            Country::Denmark => 18,
            Country::DominicanRepublic => 28,
            Country::EastTimor => 23,
            Country::Egypt => 29,
            Country::ElSalvador => 28,
            Country::Estonia => 20,
            Country::FaroeIslands => 18,
            Country::Finland => 18,
            Country::France => 27,
            Country::Georgia => 22,
            Country::Germany => 22,
            Country::Gibraltar => 23,
            Country::Greece => 27,
            Country::Greenland => 18,
            Country::Guatemala => 28,
            Country::Hungary => 28,
            Country::Iceland => 26,
            Country::Internet => 16,
            Country::Iraq => 23,
            Country::Ireland => 22,
            Country::Israel => 23,
            Country::Italy => 27,
            Country::Jordan => 30,
            Country::Kazakhstan => 20,
            Country::Kosovo => 20,
            Country::Kuwait => 30,
            Country::Latvia => 21,
            Country::Lebanon => 28,
            Country::Libya => 25,
            Country::Liechenstein => 21,
            Country::Lithuania => 20,
            Country::Luxembourg => 20,
            Country::NorthMacedonia => 19,
            Country::Malta => 31,
            Country::Mauritania => 27,
            Country::Mauritius => 30,
            Country::Monaco => 27,
            Country::Moldova => 24,
            Country::Montenegro => 22,
            Country::Netherlands => 18,
            Country::Norway => 15,
            Country::Pakistan => 24,
            Country::PalestinianTerritories => 29,
            Country::Poland => 28,
            Country::Portugal => 25,
            Country::Qatar => 29,
            Country::Romania => 24,
            Country::SaintLucia => 32,
            Country::SanMarino => 27,
            Country::SaoTomePrincipe => 25,
            Country::SaudiArabia => 24,
            Country::Serbia => 22,
            Country::Seychelles => 31,
            Country::Slovakia => 24,
            Country::Slovenia => 19,
            Country::Spain => 24,
            Country::Sweden => 24,
            Country::Switzerland => 21,
            Country::Tunisia => 24,
            Country::Turkey => 26,
            Country::Ukraine => 29,
            Country::UnitedArabEmirates => 23,
            Country::UnitedKingdom => 22,
            Country::VaticanCity => 22,
            Country::VirginIslands => 24,
        }
    }

    /// The full positional character-class layout of this country.
    pub fn layout(&self) -> (r: Vec<(CharClass, usize)>)
        ensures
            r@ == spec_layout(*self),
    {
        let mut v: Vec<(CharClass, usize)> = Vec::new();
        v.push((CharClass::UpperLetter, 2));
        v.push((CharClass::Digit, 2));
        match self {
            Country::Albania => { v.push((CharClass::Digit, 8)); v.push((CharClass::Alnum, 16)); },
            Country::Andorra => { v.push((CharClass::Digit, 8)); v.push((CharClass::Alnum, 12)); },
            Country::Austria => { v.push((CharClass::Digit, 16)); },
            Country::Azerbaijan => { v.push((CharClass::Alnum, 4)); v.push((CharClass::Digit, 20)); },
            Country::Bahrain => { v.push((CharClass::UpperLetter, 4)); v.push((CharClass::Alnum, 14)); },
            Country::Belarus => { v.push((CharClass::Alnum, 4)); v.push((CharClass::Digit, 4)); v.push((CharClass::Alnum, 16)); },
            Country::Belgium => { v.push((CharClass::Digit, 12)); },
            Country::BosniaHerzegovina => { v.push((CharClass::Digit, 16)); },
            Country::Brazil => { v.push((CharClass::Digit, 23)); v.push((CharClass::UpperLetter, 1)); v.push((CharClass::Alnum, 1)); },
            Country::Bulgaria => { v.push((CharClass::UpperLetter, 4)); v.push((CharClass::Digit, 6)); v.push((CharClass::Alnum, 8)); },
            Country::CostaRica => { v.push((CharClass::Digit, 18)); },
            Country::Croatia => { v.push((CharClass::Digit, 17)); },
            Country::Cyprus => { v.push((CharClass::Digit, 8)); v.push((CharClass::Alnum, 16)); },
            Country::CzechRepublic => { v.push((CharClass::Digit, 20)); },
            Country::Denmark => { v.push((CharClass::Digit, 14)); },
            Country::DominicanRepublic => { v.push((CharClass::UpperLetter, 4)); v.push((CharClass::Digit, 20)); },
            Country::EastTimor => { v.push((CharClass::Digit, 19)); },
            Country::Egypt => { v.push((CharClass::Digit, 25)); },
            Country::ElSalvador => { v.push((CharClass::UpperLetter, 4)); v.push((CharClass::Digit, 20)); },
            Country::Estonia => { v.push((CharClass::Digit, 16)); },
            Country::FaroeIslands => { v.push((CharClass::Digit, 14)); },
            Country::Finland => { v.push((CharClass::Digit, 14)); },
            Country::France => { v.push((CharClass::Digit, 10)); v.push((CharClass::Alnum, 11)); v.push((CharClass::Digit, 2)); },
            Country::Georgia => { v.push((CharClass::Alnum, 2)); v.push((CharClass::Digit, 16)); },
            Country::Germany => { v.push((CharClass::Digit, 18)); },
            Country::Gibraltar => { v.push((CharClass::UpperLetter, 4)); v.push((CharClass::Alnum, 15)); },
            Country::Greece => { v.push((CharClass::Digit, 7)); v.push((CharClass::Alnum, 16)); },
            Country::Greenland => { v.push((CharClass::Digit, 14)); },
            Country::Guatemala => { v.push((CharClass::Alnum, 4)); v.push((CharClass::Alnum, 20)); },
            Country::Hungary => { v.push((CharClass::Digit, 24)); },
            Country::Iceland => { v.push((CharClass::Digit, 22)); },
            Country::Internet => { v.push((CharClass::Digit, 4)); v.push((CharClass::Alnum, 8)); },
            Country::Iraq => { v.push((CharClass::UpperLetter, 4)); v.push((CharClass::Digit, 15)); },
            Country::Ireland => { v.push((CharClass::Alnum, 4)); v.push((CharClass::Digit, 14)); },
            Country::Israel => { v.push((CharClass::Digit, 19)); },
            Country::Italy => { v.push((CharClass::UpperLetter, 1)); v.push((CharClass::Digit, 10)); v.push((CharClass::Alnum, 12)); },
            Country::Jordan => { v.push((CharClass::UpperLetter, 4)); v.push((CharClass::Digit, 22)); },
            Country::Kazakhstan => { v.push((CharClass::Digit, 3)); v.push((CharClass::Alnum, 13)); },
            Country::Kosovo => { v.push((CharClass::Digit, 4)); v.push((CharClass::Digit, 10)); v.push((CharClass::Digit, 2)); },
            Country::Kuwait => { v.push((CharClass::UpperLetter, 4)); v.push((CharClass::Alnum, 22)); },
            Country::Latvia => { v.push((CharClass::UpperLetter, 4)); v.push((CharClass::Alnum, 13)); },
            Country::Lebanon => { v.push((CharClass::Digit, 4)); v.push((CharClass::Alnum, 20)); },
            Country::Libya => { v.push((CharClass::Digit, 21)); },
            Country::Liechenstein => { v.push((CharClass::Digit, 5)); v.push((CharClass::Alnum, 12)); },
            Country::Lithuania => { v.push((CharClass::Digit, 16)); },
            Country::Luxembourg => { v.push((CharClass::Digit, 3)); v.push((CharClass::Alnum, 13)); },
            Country::NorthMacedonia => { v.push((CharClass::Digit, 3)); v.push((CharClass::Alnum, 10)); v.push((CharClass::Digit, 2)); },
            Country::Malta => { v.push((CharClass::UpperLetter, 4)); v.push((CharClass::Digit, 5)); v.push((CharClass::Alnum, 18)); },
            Country::Mauritania => { v.push((CharClass::Digit, 23)); },
            Country::Mauritius => { v.push((CharClass::UpperLetter, 4)); v.push((CharClass::Digit, 19)); v.push((CharClass::UpperLetter, 3)); },
            Country::Monaco => { v.push((CharClass::Digit, 10)); v.push((CharClass::Alnum, 11)); v.push((CharClass::Digit, 2)); },
            Country::Moldova => { v.push((CharClass::Alnum, 2)); v.push((CharClass::Alnum, 18)); },
            Country::Montenegro => { v.push((CharClass::Digit, 18)); },
            Country::Netherlands => { v.push((CharClass::UpperLetter, 4)); v.push((CharClass::Digit, 10)); },
            Country::Norway => { v.push((CharClass::Digit, 11)); },
            Country::Pakistan => { v.push((CharClass::Alnum, 4)); v.push((CharClass::Digit, 16)); },
            Country::PalestinianTerritories => { v.push((CharClass::Alnum, 4)); v.push((CharClass::Digit, 21)); },
            Country::Poland => { v.push((CharClass::Digit, 24)); },
            Country::Portugal => { v.push((CharClass::Digit, 21)); },
            Country::Qatar => { v.push((CharClass::UpperLetter, 4)); v.push((CharClass::Alnum, 21)); },
            Country::Romania => { v.push((CharClass::UpperLetter, 4)); v.push((CharClass::Alnum, 16)); },
            Country::SaintLucia => { v.push((CharClass::UpperLetter, 4)); v.push((CharClass::Alnum, 24)); },
            Country::SanMarino => { v.push((CharClass::UpperLetter, 1)); v.push((CharClass::Digit, 10)); v.push((CharClass::Alnum, 12)); },
            Country::SaoTomePrincipe => { v.push((CharClass::Digit, 21)); },
            Country::SaudiArabia => { v.push((CharClass::Digit, 2)); v.push((CharClass::Alnum, 18)); },
            Country::Serbia => { v.push((CharClass::Digit, 18)); },
            Country::Seychelles => { v.push((CharClass::UpperLetter, 4)); v.push((CharClass::Digit, 20)); v.push((CharClass::UpperLetter, 3)); },
            Country::Slovakia => { v.push((CharClass::Digit, 20)); },
            Country::Slovenia => { v.push((CharClass::Digit, 15)); },
            Country::Spain => { v.push((CharClass::Digit, 20)); },
            Country::Sweden => { v.push((CharClass::Digit, 20)); },
            Country::Switzerland => { v.push((CharClass::Digit, 5)); v.push((CharClass::Alnum, 12)); },
            Country::Tunisia => { v.push((CharClass::Digit, 20)); },
            Country::Turkey => { v.push((CharClass::Digit, 5)); v.push((CharClass::Alnum, 17)); },
            Country::Ukraine => { v.push((CharClass::Digit, 6)); v.push((CharClass::Alnum, 19)); },
            Country::UnitedArabEmirates => { v.push((CharClass::Digit, 3)); v.push((CharClass::Digit, 16)); },
            Country::UnitedKingdom => { v.push((CharClass::UpperLetter, 4)); v.push((CharClass::Digit, 14)); },
            Country::VaticanCity => { v.push((CharClass::Digit, 3)); v.push((CharClass::Digit, 15)); },
            Country::VirginIslands => { v.push((CharClass::Alnum, 4)); v.push((CharClass::Digit, 16)); },
        }
        proof {
            assert(v@ =~= spec_layout(*self));
        }
        v
    }

    /// The two-letter country code, for example `"AL"` for Albania.
    pub fn code(&self) -> (r: &'static str)
        ensures
            r@ == spec_code(*self),
    {
        let r: &'static str = match self {
            Country::Albania => "AL",
            Country::Andorra => "AD",
            Country::Austria => "AT",
            Country::Azerbaijan => "AZ",
            Country::Bahrain => "BH",
            Country::Belarus => "BY",
            Country::Belgium => "BE",
            Country::BosniaHerzegovina => "BA",
            Country::Brazil => "BR",
            Country::Bulgaria => "BG",
            Country::CostaRica => "CR",
            Country::Croatia => "HR",
            Country::Cyprus => "CY",
            Country::CzechRepublic => "CZ",
            Country::Denmark => "DK",
            Country::DominicanRepublic => "DO",
            Country::EastTimor => "TL",
            Country::Egypt => "EG",
            Country::ElSalvador => "SV",
            Country::Estonia => "EE",
            Country::FaroeIslands => "FO",
            Country::Finland => "FI",
            Country::France => "FR",
            Country::Georgia => "GE",
            Country::Germany => "DE",
            Country::Gibraltar => "GI",
            Country::Greece => "GR",
            Country::Greenland => "GL",
            Country::Guatemala => "GT",
            Country::Hungary => "HU",
            Country::Iceland => "IS",
            Country::Internet => "AA",
            Country::Iraq => "IQ",
            Country::Ireland => "IE",
            Country::Israel => "IL",
            Country::Italy => "IT",
            Country::Jordan => "JO",
            Country::Kazakhstan => "KZ",
            Country::Kosovo => "XK",
            Country::Kuwait => "KW",
            Country::Latvia => "LV",
            Country::Lebanon => "LB",
            Country::Libya => "LY",
            Country::Liechenstein => "LI",
            Country::Lithuania => "LT",
            Country::Luxembourg => "LU",
            Country::NorthMacedonia => "MK",
            Country::Malta => "MT",
            Country::Mauritania => "MR",
            Country::Mauritius => "MU",
            Country::Monaco => "MC",
            Country::Moldova => "MD",
            Country::Montenegro => "ME",
            Country::Netherlands => "NL",
            Country::Norway => "NO",
            Country::Pakistan => "PK",
            Country::PalestinianTerritories => "PS",
            Country::Poland => "PL",
            Country::Portugal => "PT",
            Country::Qatar => "QA",
            Country::Romania => "RO",
            Country::SaintLucia => "LC",
            Country::SanMarino => "SM",
            Country::SaoTomePrincipe => "ST",
            Country::SaudiArabia => "SA",
            Country::Serbia => "RS",
            Country::Seychelles => "SC",
            Country::Slovakia => "SK",
            Country::Slovenia => "SI",
            Country::Spain => "ES",
            Country::Sweden => "SE",
            Country::Switzerland => "CH",
            Country::Tunisia => "TN",
            Country::Turkey => "TR",
            Country::Ukraine => "UA",
            Country::UnitedArabEmirates => "AE",
            Country::UnitedKingdom => "GB",
            Country::VaticanCity => "VA",
            Country::VirginIslands => "VG",
        };
        proof {
            reveal_strlit("AL");
            reveal_strlit("AD");
            reveal_strlit("AT");
            reveal_strlit("AZ");
            reveal_strlit("BH");
            reveal_strlit("BY");
            reveal_strlit("BE");
            reveal_strlit("BA");
            reveal_strlit("BR");
            reveal_strlit("BG");
            reveal_strlit("CR");
            reveal_strlit("HR");
            reveal_strlit("CY");
            reveal_strlit("CZ");
            reveal_strlit("DK");
            reveal_strlit("DO");
            reveal_strlit("TL");
            reveal_strlit("EG");
            reveal_strlit("SV");
            reveal_strlit("EE");
            reveal_strlit("FO");
            reveal_strlit("FI");
            reveal_strlit("FR");
            reveal_strlit("GE");
            reveal_strlit("DE");
            reveal_strlit("GI");
            reveal_strlit("GR");
            reveal_strlit("GL");
            reveal_strlit("GT");
            reveal_strlit("HU");
            reveal_strlit("IS");
            reveal_strlit("AA");
            reveal_strlit("IQ");
            reveal_strlit("IE");
            reveal_strlit("IL");
            reveal_strlit("IT");
            reveal_strlit("JO");
            reveal_strlit("KZ");
            reveal_strlit("XK");
            reveal_strlit("KW");
            reveal_strlit("LV");
            reveal_strlit("LB");
            reveal_strlit("LY");
            reveal_strlit("LI");
            reveal_strlit("LT");
            reveal_strlit("LU");
            reveal_strlit("MK");
            reveal_strlit("MT");
            reveal_strlit("MR");
            reveal_strlit("MU");
            reveal_strlit("MC");
            reveal_strlit("MD");
            reveal_strlit("ME");
            reveal_strlit("NL");
            reveal_strlit("NO");
            reveal_strlit("PK");
            reveal_strlit("PS");
            reveal_strlit("PL");
            reveal_strlit("PT");
            reveal_strlit("QA");
            reveal_strlit("RO");
            reveal_strlit("LC");
            reveal_strlit("SM");
            reveal_strlit("ST");
            reveal_strlit("SA");
            reveal_strlit("RS");
            reveal_strlit("SC");
            reveal_strlit("SK");
            reveal_strlit("SI");
            reveal_strlit("ES");
            reveal_strlit("SE");
            reveal_strlit("CH");
            reveal_strlit("TN");
            reveal_strlit("TR");
            reveal_strlit("UA");
            reveal_strlit("AE");
            reveal_strlit("GB");
            reveal_strlit("VA");
            reveal_strlit("VG");
            assert(r@ =~= spec_code(*self));
        }
        r
    }

    /// The national bank code of `input`: the substring at this country's
    /// declared bank-code offsets, returned verbatim. The input must be an
    /// already validated IBAN string of this country's exact length.
    pub fn bank_code(&self, input: &str) -> (r: String)
        requires
            input@.len() == spec_length(*self),
        ensures
            r@ == input@.subrange(spec_bank_range(*self).0, spec_bank_range(*self).1),
    {
        proof {
            lemma_bank_range_wf(*self);
        }
        let (start, stop): (usize, usize) = match self {
            Country::Estonia
            | Country::Georgia
            | Country::Iceland
            | Country::Moldova
            | Country::SaudiArabia
            | Country::Slovenia
            | Country::Tunisia => (4, 6),
            Country::Albania
            | Country::Belgium
            | Country::BosniaHerzegovina
            | Country::Cyprus
            | Country::EastTimor
            | Country::Greece
            | Country::Hungary
            | Country::Israel
            | Country::Kazakhstan
            | Country::Libya
            | Country::Luxembourg
            | Country::NorthMacedonia
            | Country::Montenegro
            | Country::Poland
            | Country::Serbia
            | Country::Sweden
            | Country::UnitedArabEmirates
            | Country::VaticanCity => (4, 7),
            Country::Austria
            | Country::France
            | Country::Liechenstein
            | Country::Lithuania
            | Country::Mauritania
            | Country::Monaco
            | Country::Switzerland
            | Country::Turkey => (4, 9),
            Country::Finland | Country::Mauritius | Country::Seychelles | Country::Ukraine => (
                4,
                10,
            ),
            Country::Croatia => (4, 11),
            Country::Brazil | Country::Germany => (4, 12),
            Country::CostaRica => (5, 8),
            Country::Ireland => (8, 14),
            Country::Italy | Country::SanMarino => (5, 10),
            _ => (4, 8),
        };
        assert((start as int, stop as int) == spec_bank_range(*self));
        let piece = input.substring_char(start, stop);
        piece.to_owned()
    }

    /// The account number of `input`, parsed as an unsigned integer from
    /// this country's declared account-number offsets. The input must be an
    /// already validated IBAN string of this country's exact length whose
    /// account-number substring consists of digits.
    pub fn account_number(&self, input: &str) -> (r: u128)
        requires
            input@.len() == spec_length(*self),
            account_digits(*self, input@),
        ensures
            r as nat == digits_value(account_slice(*self, input@)),
    {
        proof {
            lemma_account_range_wf(*self, input@.len() as int);
        }
        let len = input.unicode_len();
        let (start, stop): (usize, usize) = match self {
            Country::Albania
            | Country::Andorra
            | Country::Belarus
            | Country::Cyprus
            | Country::Egypt
            | Country::Germany
            | Country::Guatemala
            | Country::Jordan
            | Country::Poland
            | Country::SaoTomePrincipe => (12, len),
            Country::Austria
            | Country::Liechenstein
            | Country::Lithuania
            | Country::Switzerland
            | Country::UnitedArabEmirates => (9, len),
            Country::Belgium
            | Country::EastTimor
            | Country::NorthMacedonia
            | Country::Montenegro
            | Country::Serbia => (7, len - 2),
            Country::BosniaHerzegovina => (10, len - 2),
            Country::Brazil => (17, len - 2),
            Country::Bulgaria | Country::CzechRepublic | Country::Slovakia | Country::Spain => (
                14,
                len,
            ),
            Country::Croatia | Country::Greece | Country::Iraq => (11, len),
            Country::FaroeIslands | Country::Norway | Country::Estonia => (8, len - 1),
            Country::Finland => (10, len - 1),
            Country::France | Country::Monaco => (14, len - 2),
            Country::Georgia | Country::Moldova | Country::SaudiArabia => (6, len),
            Country::Hungary => (12, len - 1),
            Country::Iceland => (10, 16),
            Country::Ireland | Country::Mauritania | Country::UnitedKingdom => (14, len),
            Country::Israel | Country::Libya => (10, len),
            Country::Italy | Country::SanMarino => (15, len),
            Country::Kazakhstan | Country::Luxembourg | Country::Sweden | Country::VaticanCity => (
                7,
                len,
            ),
            Country::Malta => (13, len),
            Country::Mauritius => (12, len - 6),
            Country::Portugal => (12, len - 2),
            Country::Seychelles => (13, len - 3),
            Country::Slovenia => (8, len - 2),
            Country::Tunisia => (9, len - 2),
            Country::Turkey | Country::Ukraine => (10, len),
            _ => (8, len),
        };
        assert((start as int, stop as int) == spec_account_range(*self, input@.len() as int));
        read_value(input, start, stop)
    }

    /// Looks the pair of characters `c0` `c1` up in the registry.
    pub fn from_code(c0: char, c1: char) -> (r: Option<Country>)
        ensures
            r == spec_lookup(c0, c1),
    {
        match (c0, c1) {
            ('A', 'L') => Some(Country::Albania),
            ('A', 'D') => Some(Country::Andorra),
            ('A', 'T') => Some(Country::Austria),
            ('A', 'Z') => Some(Country::Azerbaijan),
            ('B', 'H') => Some(Country::Bahrain),
            ('B', 'Y') => Some(Country::Belarus),
            ('B', 'E') => Some(Country::Belgium),
            ('B', 'A') => Some(Country::BosniaHerzegovina),
            ('B', 'R') => Some(Country::Brazil),
            ('B', 'G') => Some(Country::Bulgaria),
            ('C', 'R') => Some(Country::CostaRica),
            ('H', 'R') => Some(Country::Croatia),
            ('C', 'Y') => Some(Country::Cyprus),
            ('C', 'Z') => Some(Country::CzechRepublic),
            ('D', 'K') => Some(Country::Denmark),
            ('D', 'O') => Some(Country::DominicanRepublic),
            ('T', 'L') => Some(Country::EastTimor),
            ('E', 'G') => Some(Country::Egypt),
            ('S', 'V') => Some(Country::ElSalvador),
            ('E', 'E') => Some(Country::Estonia),
            ('F', 'O') => Some(Country::FaroeIslands),
            ('F', 'I') => Some(Country::Finland),
            ('F', 'R') => Some(Country::France),
            ('G', 'E') => Some(Country::Georgia),
            ('D', 'E') => Some(Country::Germany),
            ('G', 'I') => Some(Country::Gibraltar),
            ('G', 'R') => Some(Country::Greece),
            ('G', 'L') => Some(Country::Greenland),
            ('G', 'T') => Some(Country::Guatemala),
            ('H', 'U') => Some(Country::Hungary),
            ('I', 'S') => Some(Country::Iceland),
            ('A', 'A') => Some(Country::Internet),
            ('I', 'Q') => Some(Country::Iraq),
            ('I', 'E') => Some(Country::Ireland),
            ('I', 'L') => Some(Country::Israel),
            ('I', 'T') => Some(Country::Italy),
            ('J', 'O') => Some(Country::Jordan),
            ('K', 'Z') => Some(Country::Kazakhstan),
            ('X', 'K') => Some(Country::Kosovo),
            ('K', 'W') => Some(Country::Kuwait),
            ('L', 'V') => Some(Country::Latvia),
            ('L', 'B') => Some(Country::Lebanon),
            ('L', 'Y') => Some(Country::Libya),
            ('L', 'I') => Some(Country::Liechenstein),
            ('L', 'T') => Some(Country::Lithuania),
            ('L', 'U') => Some(Country::Luxembourg),
            ('M', 'K') => Some(Country::NorthMacedonia),
            ('M', 'T') => Some(Country::Malta),
            ('M', 'R') => Some(Country::Mauritania),
            ('M', 'U') => Some(Country::Mauritius),
            ('M', 'C') => Some(Country::Monaco),
            ('M', 'D') => Some(Country::Moldova),
            ('M', 'E') => Some(Country::Montenegro),
            ('N', 'L') => Some(Country::Netherlands),
            ('N', 'O') => Some(Country::Norway),
            ('P', 'K') => Some(Country::Pakistan),
            ('P', 'S') => Some(Country::PalestinianTerritories),
            ('P', 'L') => Some(Country::Poland),
            ('P', 'T') => Some(Country::Portugal),
            ('Q', 'A') => Some(Country::Qatar),
            ('R', 'O') => Some(Country::Romania),
            ('L', 'C') => Some(Country::SaintLucia),
            ('S', 'M') => Some(Country::SanMarino),
            ('S', 'T') => Some(Country::SaoTomePrincipe),
            ('S', 'A') => Some(Country::SaudiArabia),
            ('R', 'S') => Some(Country::Serbia),
            ('S', 'C') => Some(Country::Seychelles),
            ('S', 'K') => Some(Country::Slovakia),
            ('S', 'I') => Some(Country::Slovenia),
            ('E', 'S') => Some(Country::Spain),
            ('S', 'E') => Some(Country::Sweden),
            ('C', 'H') => Some(Country::Switzerland),
            ('T', 'N') => Some(Country::Tunisia),
            ('T', 'R') => Some(Country::Turkey),
            ('U', 'A') => Some(Country::Ukraine),
            ('A', 'E') => Some(Country::UnitedArabEmirates),
            ('G', 'B') => Some(Country::UnitedKingdom),
            ('V', 'A') => Some(Country::VaticanCity),
            ('V', 'G') => Some(Country::VirginIslands),
            _ => None,
        }
    }
}

} // verus!
