//! The station directory: the closed enumeration of Metrorail station codes,
//! the canonical display name of each code, the alias table from names back
//! to codes, and resolution of user-supplied station input.
//!
//! Resolution tries an exact, case-sensitive match against the code
//! enumeration first and the name/alias table second; anything else is an
//! `InvalidStation` failure. A display name shared by two co-located
//! platforms under different codes resolves to one fixed, documented code
//! (the later-listed of the two): `"Metro Center"` to `C01`,
//! `"Fort Totten"` to `E06`, `"Gallery Pl-Chinatown"`, `"Gallery Pl"` and
//! `"Chinatown"` to `F01`, and `"L'Enfant Plaza"` to `F03`.
use vstd::prelude::*;
use vstd::string::*;

use crate::errors::MetroHeroError;
use crate::strutil::str_eq;

verus! {

/// The RTU code for a Metrorail station, plus a sentinel for codes that the
/// upstream reports but the directory does not recognize.
#[derive(Debug, PartialEq, Eq, Structural, Hash, Clone, Copy)]
pub enum StationCode {
    A01,
    A02,
    A03,
    A04,
    A05,
    A06,
    A07,
    A08,
    A09,
    A10,
    A11,
    A12,
    A13,
    A14,
    A15,
    B01,
    B02,
    B03,
    B04,
    B05,
    B06,
    B07,
    B08,
    B09,
    B10,
    B11,
    B35,
    C01,
    C02,
    C03,
    C04,
    C05,
    C06,
    C07,
    C08,
    C09,
    C10,
    C11,
    C12,
    C13,
    C14,
    C15,
    D01,
    D02,
    D03,
    D04,
    D05,
    D06,
    D07,
    D08,
    D09,
    D10,
    D11,
    D12,
    D13,
    E01,
    E02,
    E03,
    E04,
    E05,
    E06,
    E07,
    E08,
    E09,
    E10,
    F01,
    F02,
    F03,
    F04,
    F05,
    F06,
    F07,
    F08,
    F09,
    F10,
    F11,
    G01,
    G02,
    G03,
    G04,
    G05,
    K01,
    K02,
    K03,
    K04,
    K05,
    K06,
    K07,
    K08,
    N01,
    N02,
    N03,
    N04,
    N06,
    N07,
    N08,
    N09,
    N10,
    N11,
    N12,
    J02,
    J03,
    UNKNOWN,
}

impl StationCode {
    /// The code itself, as the three-character string the upstream API uses
    /// (`"UNKNOWN"` for the sentinel).
    pub open spec fn spec_code_str(self) -> Seq<char> {
        match self {
            StationCode::A01 => seq!['A', '0', '1'],
            StationCode::A02 => seq!['A', '0', '2'],
            StationCode::A03 => seq!['A', '0', '3'],
            StationCode::A04 => seq!['A', '0', '4'],
            StationCode::A05 => seq!['A', '0', '5'],
            StationCode::A06 => seq!['A', '0', '6'],
            StationCode::A07 => seq!['A', '0', '7'],
            StationCode::A08 => seq!['A', '0', '8'],
            StationCode::A09 => seq!['A', '0', '9'],
            StationCode::A10 => seq!['A', '1', '0'],
            StationCode::A11 => seq!['A', '1', '1'],
            StationCode::A12 => seq!['A', '1', '2'],
            StationCode::A13 => seq!['A', '1', '3'],
            StationCode::A14 => seq!['A', '1', '4'],
            StationCode::A15 => seq!['A', '1', '5'],
            StationCode::B01 => seq!['B', '0', '1'],
            StationCode::B02 => seq!['B', '0', '2'],
            StationCode::B03 => seq!['B', '0', '3'],
            StationCode::B04 => seq!['B', '0', '4'],
            StationCode::B05 => seq!['B', '0', '5'],
            StationCode::B06 => seq!['B', '0', '6'],
            StationCode::B07 => seq!['B', '0', '7'],
            StationCode::B08 => seq!['B', '0', '8'],
            StationCode::B09 => seq!['B', '0', '9'],
            StationCode::B10 => seq!['B', '1', '0'],
            StationCode::B11 => seq!['B', '1', '1'],
            StationCode::B35 => seq!['B', '3', '5'],
            StationCode::C01 => seq!['C', '0', '1'],
            StationCode::C02 => seq!['C', '0', '2'],
            StationCode::C03 => seq!['C', '0', '3'],
            StationCode::C04 => seq!['C', '0', '4'],
            StationCode::C05 => seq!['C', '0', '5'],
            StationCode::C06 => seq!['C', '0', '6'],
            StationCode::C07 => seq!['C', '0', '7'],
            StationCode::C08 => seq!['C', '0', '8'],
            StationCode::C09 => seq!['C', '0', '9'],
            StationCode::C10 => seq!['C', '1', '0'],
            StationCode::C11 => seq!['C', '1', '1'],
            StationCode::C12 => seq!['C', '1', '2'],
            StationCode::C13 => seq!['C', '1', '3'],
            StationCode::C14 => seq!['C', '1', '4'],
            StationCode::C15 => seq!['C', '1', '5'],
            StationCode::D01 => seq!['D', '0', '1'],
            StationCode::D02 => seq!['D', '0', '2'],
            StationCode::D03 => seq!['D', '0', '3'],
            StationCode::D04 => seq!['D', '0', '4'],
            StationCode::D05 => seq!['D', '0', '5'],
            StationCode::D06 => seq!['D', '0', '6'],
            StationCode::D07 => seq!['D', '0', '7'],
            StationCode::D08 => seq!['D', '0', '8'],
            StationCode::D09 => seq!['D', '0', '9'],
            StationCode::D10 => seq!['D', '1', '0'],
            StationCode::D11 => seq!['D', '1', '1'],
            StationCode::D12 => seq!['D', '1', '2'],
            StationCode::D13 => seq!['D', '1', '3'],
            StationCode::E01 => seq!['E', '0', '1'],
            StationCode::E02 => seq!['E', '0', '2'],
            StationCode::E03 => seq!['E', '0', '3'],
            StationCode::E04 => seq!['E', '0', '4'],
            StationCode::E05 => seq!['E', '0', '5'],
            StationCode::E06 => seq!['E', '0', '6'],
            StationCode::E07 => seq!['E', '0', '7'],
            StationCode::E08 => seq!['E', '0', '8'],
            StationCode::E09 => seq!['E', '0', '9'],
            StationCode::E10 => seq!['E', '1', '0'],
            StationCode::F01 => seq!['F', '0', '1'],
            StationCode::F02 => seq!['F', '0', '2'],
            StationCode::F03 => seq!['F', '0', '3'],
            StationCode::F04 => seq!['F', '0', '4'],
            StationCode::F05 => seq!['F', '0', '5'],
            StationCode::F06 => seq!['F', '0', '6'],
            StationCode::F07 => seq!['F', '0', '7'],
            StationCode::F08 => seq!['F', '0', '8'],
            StationCode::F09 => seq!['F', '0', '9'],
            StationCode::F10 => seq!['F', '1', '0'],
            StationCode::F11 => seq!['F', '1', '1'],
            StationCode::G01 => seq!['G', '0', '1'],
            StationCode::G02 => seq!['G', '0', '2'],
            StationCode::G03 => seq!['G', '0', '3'],
            StationCode::G04 => seq!['G', '0', '4'],
            StationCode::G05 => seq!['G', '0', '5'],
            StationCode::K01 => seq!['K', '0', '1'],
            StationCode::K02 => seq!['K', '0', '2'],
            StationCode::K03 => seq!['K', '0', '3'],
            StationCode::K04 => seq!['K', '0', '4'],
            StationCode::K05 => seq!['K', '0', '5'],
            StationCode::K06 => seq!['K', '0', '6'],
            StationCode::K07 => seq!['K', '0', '7'],
            StationCode::K08 => seq!['K', '0', '8'],
            StationCode::N01 => seq!['N', '0', '1'],
            StationCode::N02 => seq!['N', '0', '2'],
            StationCode::N03 => seq!['N', '0', '3'],
            StationCode::N04 => seq!['N', '0', '4'],
            StationCode::N06 => seq!['N', '0', '6'],
            StationCode::N07 => seq!['N', '0', '7'],
            StationCode::N08 => seq!['N', '0', '8'],
            StationCode::N09 => seq!['N', '0', '9'],
            StationCode::N10 => seq!['N', '1', '0'],
            StationCode::N11 => seq!['N', '1', '1'],
            StationCode::N12 => seq!['N', '1', '2'],
            StationCode::J02 => seq!['J', '0', '2'],
            StationCode::J03 => seq!['J', '0', '3'],
            StationCode::UNKNOWN => seq!['U', 'N', 'K', 'N', 'O', 'W', 'N'],
        }
    }

    /// The code as a string, as it appears in upstream request paths and
    /// response payloads.
    pub fn code_str(&self) -> (r: &'static str)
        ensures
            r@ == self.spec_code_str(),
    {
        match self {
            StationCode::A01 => {
                proof { reveal_strlit("A01"); assert("A01"@ =~= seq!['A', '0', '1']); }
                "A01"
            },
            StationCode::A02 => {
                proof { reveal_strlit("A02"); assert("A02"@ =~= seq!['A', '0', '2']); }
                "A02"
            },
            StationCode::A03 => {
                proof { reveal_strlit("A03"); assert("A03"@ =~= seq!['A', '0', '3']); }
                "A03"
            },
            StationCode::A04 => {
                proof { reveal_strlit("A04"); assert("A04"@ =~= seq!['A', '0', '4']); }
                "A04"
            },
            StationCode::A05 => {
                proof { reveal_strlit("A05"); assert("A05"@ =~= seq!['A', '0', '5']); }
                "A05"
            },
            StationCode::A06 => {
                proof { reveal_strlit("A06"); assert("A06"@ =~= seq!['A', '0', '6']); }
                "A06"
            },
            StationCode::A07 => {
                proof { reveal_strlit("A07"); assert("A07"@ =~= seq!['A', '0', '7']); }
                "A07"
            },
            StationCode::A08 => {
                proof { reveal_strlit("A08"); assert("A08"@ =~= seq!['A', '0', '8']); }
                "A08"
            },
            StationCode::A09 => {
                proof { reveal_strlit("A09"); assert("A09"@ =~= seq!['A', '0', '9']); }
                "A09"
            },
            StationCode::A10 => {
                proof { reveal_strlit("A10"); assert("A10"@ =~= seq!['A', '1', '0']); }
                "A10"
            },
            StationCode::A11 => {
                proof { reveal_strlit("A11"); assert("A11"@ =~= seq!['A', '1', '1']); }
                "A11"
            },
            StationCode::A12 => {
                proof { reveal_strlit("A12"); assert("A12"@ =~= seq!['A', '1', '2']); }
                "A12"
            },
            StationCode::A13 => {
                proof { reveal_strlit("A13"); assert("A13"@ =~= seq!['A', '1', '3']); }
                "A13"
            },
            StationCode::A14 => {
                proof { reveal_strlit("A14"); assert("A14"@ =~= seq!['A', '1', '4']); }
                "A14"
            },
            StationCode::A15 => {
                proof { reveal_strlit("A15"); assert("A15"@ =~= seq!['A', '1', '5']); }
                "A15"
            },
            StationCode::B01 => {
                proof { reveal_strlit("B01"); assert("B01"@ =~= seq!['B', '0', '1']); }
                "B01"
            },
            StationCode::B02 => {
                proof { reveal_strlit("B02"); assert("B02"@ =~= seq!['B', '0', '2']); }
                "B02"
            },
            StationCode::B03 => {
                proof { reveal_strlit("B03"); assert("B03"@ =~= seq!['B', '0', '3']); }
                "B03"
            },
            StationCode::B04 => {
                proof { reveal_strlit("B04"); assert("B04"@ =~= seq!['B', '0', '4']); }
                "B04"
            },
            StationCode::B05 => {
                proof { reveal_strlit("B05"); assert("B05"@ =~= seq!['B', '0', '5']); }
                "B05"
            },
            StationCode::B06 => {
                proof { reveal_strlit("B06"); assert("B06"@ =~= seq!['B', '0', '6']); }
                "B06"
            },
            StationCode::B07 => {
                proof { reveal_strlit("B07"); assert("B07"@ =~= seq!['B', '0', '7']); }
                "B07"
            },
            StationCode::B08 => {
                proof { reveal_strlit("B08"); assert("B08"@ =~= seq!['B', '0', '8']); }
                "B08"
            },
            StationCode::B09 => {
                proof { reveal_strlit("B09"); assert("B09"@ =~= seq!['B', '0', '9']); }
                "B09"
            },
            StationCode::B10 => {
                proof { reveal_strlit("B10"); assert("B10"@ =~= seq!['B', '1', '0']); }
                "B10"
            },
            StationCode::B11 => {
                proof { reveal_strlit("B11"); assert("B11"@ =~= seq!['B', '1', '1']); }
                "B11"
            },
            StationCode::B35 => {
                proof { reveal_strlit("B35"); assert("B35"@ =~= seq!['B', '3', '5']); }
                "B35"
            },
            StationCode::C01 => {
                proof { reveal_strlit("C01"); assert("C01"@ =~= seq!['C', '0', '1']); }
                "C01"
            },
            StationCode::C02 => {
                proof { reveal_strlit("C02"); assert("C02"@ =~= seq!['C', '0', '2']); }
                "C02"
            },
            StationCode::C03 => {
                proof { reveal_strlit("C03"); assert("C03"@ =~= seq!['C', '0', '3']); }
                "C03"
            },
            StationCode::C04 => {
                proof { reveal_strlit("C04"); assert("C04"@ =~= seq!['C', '0', '4']); }
                "C04"
            },
            StationCode::C05 => {
                proof { reveal_strlit("C05"); assert("C05"@ =~= seq!['C', '0', '5']); }
                "C05"
            },
            StationCode::C06 => {
                proof { reveal_strlit("C06"); assert("C06"@ =~= seq!['C', '0', '6']); }
                "C06"
            },
            StationCode::C07 => {
                proof { reveal_strlit("C07"); assert("C07"@ =~= seq!['C', '0', '7']); }
                "C07"
            },
            StationCode::C08 => {
                proof { reveal_strlit("C08"); assert("C08"@ =~= seq!['C', '0', '8']); }
                "C08"
            },
            StationCode::C09 => {
                proof { reveal_strlit("C09"); assert("C09"@ =~= seq!['C', '0', '9']); }
                "C09"
            },
            StationCode::C10 => {
                proof { reveal_strlit("C10"); assert("C10"@ =~= seq!['C', '1', '0']); }
                "C10"
            },
            StationCode::C11 => {
                proof { reveal_strlit("C11"); assert("C11"@ =~= seq!['C', '1', '1']); }
                "C11"
            },
            StationCode::C12 => {
                proof { reveal_strlit("C12"); assert("C12"@ =~= seq!['C', '1', '2']); }
                "C12"
            },
            StationCode::C13 => {
                proof { reveal_strlit("C13"); assert("C13"@ =~= seq!['C', '1', '3']); }
                "C13"
            },
            StationCode::C14 => {
                proof { reveal_strlit("C14"); assert("C14"@ =~= seq!['C', '1', '4']); }
                "C14"
            },
            StationCode::C15 => {
                proof { reveal_strlit("C15"); assert("C15"@ =~= seq!['C', '1', '5']); }
                "C15"
            },
            StationCode::D01 => {
                proof { reveal_strlit("D01"); assert("D01"@ =~= seq!['D', '0', '1']); }
                "D01"
            },
            StationCode::D02 => {
                proof { reveal_strlit("D02"); assert("D02"@ =~= seq!['D', '0', '2']); }
                "D02"
            },
            StationCode::D03 => {
                proof { reveal_strlit("D03"); assert("D03"@ =~= seq!['D', '0', '3']); }
                "D03"
            },
            StationCode::D04 => {
                proof { reveal_strlit("D04"); assert("D04"@ =~= seq!['D', '0', '4']); }
                "D04"
            },
            StationCode::D05 => {
                proof { reveal_strlit("D05"); assert("D05"@ =~= seq!['D', '0', '5']); }
                "D05"
            },
            StationCode::D06 => {
                proof { reveal_strlit("D06"); assert("D06"@ =~= seq!['D', '0', '6']); }
                "D06"
            },
            StationCode::D07 => {
                proof { reveal_strlit("D07"); assert("D07"@ =~= seq!['D', '0', '7']); }
                "D07"
            },
            StationCode::D08 => {
                proof { reveal_strlit("D08"); assert("D08"@ =~= seq!['D', '0', '8']); }
                "D08"
            },
            StationCode::D09 => {
                proof { reveal_strlit("D09"); assert("D09"@ =~= seq!['D', '0', '9']); }
                "D09"
            },
            StationCode::D10 => {
                proof { reveal_strlit("D10"); assert("D10"@ =~= seq!['D', '1', '0']); }
                "D10"
            },
            StationCode::D11 => {
                proof { reveal_strlit("D11"); assert("D11"@ =~= seq!['D', '1', '1']); }
                "D11"
            },
            StationCode::D12 => {
                proof { reveal_strlit("D12"); assert("D12"@ =~= seq!['D', '1', '2']); }
                "D12"
            },
            StationCode::D13 => {
                proof { reveal_strlit("D13"); assert("D13"@ =~= seq!['D', '1', '3']); }
                "D13"
            },
            StationCode::E01 => {
                proof { reveal_strlit("E01"); assert("E01"@ =~= seq!['E', '0', '1']); }
                "E01"
            },
            StationCode::E02 => {
                proof { reveal_strlit("E02"); assert("E02"@ =~= seq!['E', '0', '2']); }
                "E02"
            },
            StationCode::E03 => {
                proof { reveal_strlit("E03"); assert("E03"@ =~= seq!['E', '0', '3']); }
                "E03"
            },
            StationCode::E04 => {
                proof { reveal_strlit("E04"); assert("E04"@ =~= seq!['E', '0', '4']); }
                "E04"
            },
            StationCode::E05 => {
                proof { reveal_strlit("E05"); assert("E05"@ =~= seq!['E', '0', '5']); }
                "E05"
            },
            StationCode::E06 => {
                proof { reveal_strlit("E06"); assert("E06"@ =~= seq!['E', '0', '6']); }
                "E06"
            },
            StationCode::E07 => {
                proof { reveal_strlit("E07"); assert("E07"@ =~= seq!['E', '0', '7']); }
                "E07"
            },
            StationCode::E08 => {
                proof { reveal_strlit("E08"); assert("E08"@ =~= seq!['E', '0', '8']); }
                "E08"
            },
            StationCode::E09 => {
                proof { reveal_strlit("E09"); assert("E09"@ =~= seq!['E', '0', '9']); }
                "E09"
            },
            StationCode::E10 => {
                proof { reveal_strlit("E10"); assert("E10"@ =~= seq!['E', '1', '0']); }
                "E10"
            },
            StationCode::F01 => {
                proof { reveal_strlit("F01"); assert("F01"@ =~= seq!['F', '0', '1']); }
                "F01"
            },
            StationCode::F02 => {
                proof { reveal_strlit("F02"); assert("F02"@ =~= seq!['F', '0', '2']); }
                "F02"
            },
            StationCode::F03 => {
                proof { reveal_strlit("F03"); assert("F03"@ =~= seq!['F', '0', '3']); }
                "F03"
            },
            StationCode::F04 => {
                proof { reveal_strlit("F04"); assert("F04"@ =~= seq!['F', '0', '4']); }
                "F04"
            },
            StationCode::F05 => {
                proof { reveal_strlit("F05"); assert("F05"@ =~= seq!['F', '0', '5']); }
                "F05"
            },
            StationCode::F06 => {
                proof { reveal_strlit("F06"); assert("F06"@ =~= seq!['F', '0', '6']); }
                "F06"
            },
            StationCode::F07 => {
                proof { reveal_strlit("F07"); assert("F07"@ =~= seq!['F', '0', '7']); }
                "F07"
            },
            StationCode::F08 => {
                proof { reveal_strlit("F08"); assert("F08"@ =~= seq!['F', '0', '8']); }
                "F08"
            },
            StationCode::F09 => {
                proof { reveal_strlit("F09"); assert("F09"@ =~= seq!['F', '0', '9']); }
                "F09"
            },
            StationCode::F10 => {
                proof { reveal_strlit("F10"); assert("F10"@ =~= seq!['F', '1', '0']); }
                "F10"
            },
            StationCode::F11 => {
                proof { reveal_strlit("F11"); assert("F11"@ =~= seq!['F', '1', '1']); }
                "F11"
            },
            StationCode::G01 => {
                proof { reveal_strlit("G01"); assert("G01"@ =~= seq!['G', '0', '1']); }
                "G01"
            },
            StationCode::G02 => {
                proof { reveal_strlit("G02"); assert("G02"@ =~= seq!['G', '0', '2']); }
                "G02"
            },
            StationCode::G03 => {
                proof { reveal_strlit("G03"); assert("G03"@ =~= seq!['G', '0', '3']); }
                "G03"
            },
            StationCode::G04 => {
                proof { reveal_strlit("G04"); assert("G04"@ =~= seq!['G', '0', '4']); }
                "G04"
            },
            StationCode::G05 => {
                proof { reveal_strlit("G05"); assert("G05"@ =~= seq!['G', '0', '5']); }
                "G05"
            },
            StationCode::K01 => {
                proof { reveal_strlit("K01"); assert("K01"@ =~= seq!['K', '0', '1']); }
                "K01"
            },
            StationCode::K02 => {
                proof { reveal_strlit("K02"); assert("K02"@ =~= seq!['K', '0', '2']); }
                "K02"
            },
            StationCode::K03 => {
                proof { reveal_strlit("K03"); assert("K03"@ =~= seq!['K', '0', '3']); }
                "K03"
            },
            StationCode::K04 => {
                proof { reveal_strlit("K04"); assert("K04"@ =~= seq!['K', '0', '4']); }
                "K04"
            },
            StationCode::K05 => {
                proof { reveal_strlit("K05"); assert("K05"@ =~= seq!['K', '0', '5']); }
                "K05"
            },
            StationCode::K06 => {
                proof { reveal_strlit("K06"); assert("K06"@ =~= seq!['K', '0', '6']); }
                "K06"
            },
            StationCode::K07 => {
                proof { reveal_strlit("K07"); assert("K07"@ =~= seq!['K', '0', '7']); }
                "K07"
            },
            StationCode::K08 => {
                proof { reveal_strlit("K08"); assert("K08"@ =~= seq!['K', '0', '8']); }
                "K08"
            },
            StationCode::N01 => {
                proof { reveal_strlit("N01"); assert("N01"@ =~= seq!['N', '0', '1']); }
                "N01"
            },
            StationCode::N02 => {
                proof { reveal_strlit("N02"); assert("N02"@ =~= seq!['N', '0', '2']); }
                "N02"
            },
            StationCode::N03 => {
                proof { reveal_strlit("N03"); assert("N03"@ =~= seq!['N', '0', '3']); }
                "N03"
            },
            StationCode::N04 => {
                proof { reveal_strlit("N04"); assert("N04"@ =~= seq!['N', '0', '4']); }
                "N04"
            },
            StationCode::N06 => {
                proof { reveal_strlit("N06"); assert("N06"@ =~= seq!['N', '0', '6']); }
                "N06"
            },
            StationCode::N07 => {
                proof { reveal_strlit("N07"); assert("N07"@ =~= seq!['N', '0', '7']); }
                "N07"
            },
            StationCode::N08 => {
                proof { reveal_strlit("N08"); assert("N08"@ =~= seq!['N', '0', '8']); }
                "N08"
            },
            StationCode::N09 => {
                proof { reveal_strlit("N09"); assert("N09"@ =~= seq!['N', '0', '9']); }
                "N09"
            },
            StationCode::N10 => {
                proof { reveal_strlit("N10"); assert("N10"@ =~= seq!['N', '1', '0']); }
                "N10"
            },
            StationCode::N11 => {
                proof { reveal_strlit("N11"); assert("N11"@ =~= seq!['N', '1', '1']); }
                "N11"
            },
            StationCode::N12 => {
                proof { reveal_strlit("N12"); assert("N12"@ =~= seq!['N', '1', '2']); }
                "N12"
            },
            StationCode::J02 => {
                proof { reveal_strlit("J02"); assert("J02"@ =~= seq!['J', '0', '2']); }
                "J02"
            },
            StationCode::J03 => {
                proof { reveal_strlit("J03"); assert("J03"@ =~= seq!['J', '0', '3']); }
                "J03"
            },
            StationCode::UNKNOWN => {
                proof { reveal_strlit("UNKNOWN"); assert("UNKNOWN"@ =~= seq!['U', 'N', 'K', 'N', 'O', 'W', 'N']); }
                "UNKNOWN"
            },
        }
    }

    /// The canonical display name of each code; total over the closed
    /// enumeration, with the fixed name `"UNKNOWN"` for the sentinel.
    pub open spec fn spec_name(self) -> Seq<char> {
        match self {
            StationCode::A01 => "Metro Center"@,
            StationCode::A02 => "Farragut North"@,
            StationCode::A03 => "Dupont Circle"@,
            StationCode::A04 => "Woodley Park-Zoo/Adams Morgan"@,
            StationCode::A05 => "Cleveland Park"@,
            StationCode::A06 => "Van Ness-UDC"@,
            StationCode::A07 => "Tenleytown-AU"@,
            StationCode::A08 => "Friendship Heights"@,
            StationCode::A09 => "Bethesda"@,
            StationCode::A10 => "Medical Center"@,
            StationCode::A11 => "Grosvenor-Strathmore"@,
            StationCode::A12 => "White Flint"@,
            StationCode::A13 => "Twinbrook"@,
            StationCode::A14 => "Rockville"@,
            StationCode::A15 => "Shady Grove"@,
            StationCode::B01 => "Gallery Pl-Chinatown"@,
            StationCode::B02 => "Judiciary Square"@,
            StationCode::B03 => "Union Station"@,
            StationCode::B04 => "Rhode Island Ave-Brentwood"@,
            StationCode::B05 => "Brookland-CUA"@,
            StationCode::B06 => "Fort Totten"@,
            StationCode::B07 => "Takoma"@,
            StationCode::B08 => "Silver Spring"@,
            StationCode::B09 => "Forest Glen"@,
            StationCode::B10 => "Wheaton"@,
            StationCode::B11 => "Glenmont"@,
            StationCode::B35 => "NoMa-Gallaudet U"@,
            StationCode::C01 => "Metro Center"@,
            StationCode::C02 => "McPherson Square"@,
            StationCode::C03 => "Farragut West"@,
            StationCode::C04 => "Foggy Bottom-GWU"@,
            StationCode::C05 => "Rosslyn"@,
            StationCode::C06 => "Arlington Cemetery"@,
            StationCode::C07 => "Pentagon"@,
            StationCode::C08 => "Pentagon City"@,
            StationCode::C09 => "Crystal City"@,
            StationCode::C10 => "Ronald Reagan Washington National Airport"@,
            StationCode::C11 => "Potomac Yard"@,
            StationCode::C12 => "Braddock Road"@,
            StationCode::C13 => "King St-Old Town"@,
            StationCode::C14 => "Eisenhower Avenue"@,
            StationCode::C15 => "Huntington"@,
            StationCode::D01 => "Federal Triangle"@,
            StationCode::D02 => "Smithsonian"@,
            StationCode::D03 => "L'Enfant Plaza"@,
            StationCode::D04 => "Federal Center SW"@,
            StationCode::D05 => "Capitol South"@,
            StationCode::D06 => "Eastern Market"@,
            StationCode::D07 => "Potomac Ave"@,
            StationCode::D08 => "Stadium-Armory"@,
            StationCode::D09 => "Minnesota Ave"@,
            StationCode::D10 => "Deanwood"@,
            StationCode::D11 => "Cheverly"@,
            StationCode::D12 => "Landover"@,
            StationCode::D13 => "New Carrollton"@,
            StationCode::E01 => "Mt Vernon Sq 7th St-Convention Center"@,
            StationCode::E02 => "Shaw-Howard U"@,
            StationCode::E03 => "U Street/African-Amer Civil War Memorial/Cardozo"@,
            StationCode::E04 => "Columbia Heights"@,
            StationCode::E05 => "Georgia Ave-Petworth"@,
            StationCode::E06 => "Fort Totten"@,
            StationCode::E07 => "West Hyattsville"@,
            StationCode::E08 => "Prince George's Plaza"@,
            StationCode::E09 => "College Park-U of Md"@,
            StationCode::E10 => "Greenbelt"@,
            StationCode::F01 => "Gallery Pl-Chinatown"@,
            StationCode::F02 => "Archives-Navy Memorial-Penn Quarter"@,
            StationCode::F03 => "L'Enfant Plaza"@,
            StationCode::F04 => "Waterfront"@,
            StationCode::F05 => "Navy Yard-Ballpark"@,
            StationCode::F06 => "Anacostia"@,
            StationCode::F07 => "Congress Heights"@,
            StationCode::F08 => "Southern Avenue"@,
            StationCode::F09 => "Naylor Road"@,
            StationCode::F10 => "Suitland"@,
            StationCode::F11 => "Branch Ave"@,
            StationCode::G01 => "Benning Road"@,
            StationCode::G02 => "Capitol Heights"@,
            StationCode::G03 => "Addison Road-Seat Pleasant"@,
            StationCode::G04 => "Morgan Boulevard"@,
            StationCode::G05 => "Largo Town Center"@,
            StationCode::K01 => "Court House"@,
            StationCode::K02 => "Clarendon"@,
            StationCode::K03 => "Virginia Square-GMU"@,
            StationCode::K04 => "Ballston-MU"@,
            StationCode::K05 => "East Falls Church"@,
            StationCode::K06 => "West Falls Church-VT/UVA"@,
            StationCode::K07 => "Dunn Loring-Merrifield"@,
            StationCode::K08 => "Vienna/Fairfax-GMU"@,
            StationCode::N01 => "McLean"@,
            StationCode::N02 => "Tysons Corner"@,
            StationCode::N03 => "Greensboro"@,
            StationCode::N04 => "Spring Hill"@,
            StationCode::N06 => "Wiehle-Reston East"@,
            StationCode::N07 => "Reston Town Center"@,
            StationCode::N08 => "Herndon"@,
            StationCode::N09 => "Innovation Center"@,
            StationCode::N10 => "Dulles International Airport"@,
            StationCode::N11 => "Loudoun Gateway"@,
            StationCode::N12 => "Ashburn"@,
            StationCode::J02 => "Van Dorn Street"@,
            StationCode::J03 => "Franconia-Springfield"@,
            StationCode::UNKNOWN => "UNKNOWN"@,
        }
    }

    /// Returns the friendly name of a station; total over the enumeration,
    /// including the sentinel.
    pub fn to_name(&self) -> (r: &'static str)
        ensures
            r@ == self.spec_name(),
    {
        match self {
            StationCode::A01 => "Metro Center",
            StationCode::A02 => "Farragut North",
            StationCode::A03 => "Dupont Circle",
            StationCode::A04 => "Woodley Park-Zoo/Adams Morgan",
            StationCode::A05 => "Cleveland Park",
            StationCode::A06 => "Van Ness-UDC",
            StationCode::A07 => "Tenleytown-AU",
            StationCode::A08 => "Friendship Heights",
            StationCode::A09 => "Bethesda",
            StationCode::A10 => "Medical Center",
            StationCode::A11 => "Grosvenor-Strathmore",
            StationCode::A12 => "White Flint",
            StationCode::A13 => "Twinbrook",
            StationCode::A14 => "Rockville",
            StationCode::A15 => "Shady Grove",
            StationCode::B01 => "Gallery Pl-Chinatown",
            StationCode::B02 => "Judiciary Square",
            StationCode::B03 => "Union Station",
            StationCode::B04 => "Rhode Island Ave-Brentwood",
            StationCode::B05 => "Brookland-CUA",
            StationCode::B06 => "Fort Totten",
            StationCode::B07 => "Takoma",
            StationCode::B08 => "Silver Spring",
            StationCode::B09 => "Forest Glen",
            StationCode::B10 => "Wheaton",
            StationCode::B11 => "Glenmont",
            StationCode::B35 => "NoMa-Gallaudet U",
            StationCode::C01 => "Metro Center",
            StationCode::C02 => "McPherson Square",
            StationCode::C03 => "Farragut West",
            StationCode::C04 => "Foggy Bottom-GWU",
            StationCode::C05 => "Rosslyn",
            StationCode::C06 => "Arlington Cemetery",
            StationCode::C07 => "Pentagon",
            StationCode::C08 => "Pentagon City",
            StationCode::C09 => "Crystal City",
            StationCode::C10 => "Ronald Reagan Washington National Airport",
            StationCode::C11 => "Potomac Yard",
            StationCode::C12 => "Braddock Road",
            StationCode::C13 => "King St-Old Town",
            StationCode::C14 => "Eisenhower Avenue",
            StationCode::C15 => "Huntington",
            StationCode::D01 => "Federal Triangle",
            StationCode::D02 => "Smithsonian",
            StationCode::D03 => "L'Enfant Plaza",
            StationCode::D04 => "Federal Center SW",
            StationCode::D05 => "Capitol South",
            StationCode::D06 => "Eastern Market",
            StationCode::D07 => "Potomac Ave",
            StationCode::D08 => "Stadium-Armory",
            StationCode::D09 => "Minnesota Ave",
            StationCode::D10 => "Deanwood",
            StationCode::D11 => "Cheverly",
            StationCode::D12 => "Landover",
            StationCode::D13 => "New Carrollton",
            StationCode::E01 => "Mt Vernon Sq 7th St-Convention Center",
            StationCode::E02 => "Shaw-Howard U",
            StationCode::E03 => "U Street/African-Amer Civil War Memorial/Cardozo",
            StationCode::E04 => "Columbia Heights",
            StationCode::E05 => "Georgia Ave-Petworth",
            StationCode::E06 => "Fort Totten",
            StationCode::E07 => "West Hyattsville",
            StationCode::E08 => "Prince George's Plaza",
            StationCode::E09 => "College Park-U of Md",
            StationCode::E10 => "Greenbelt",
            StationCode::F01 => "Gallery Pl-Chinatown",
            StationCode::F02 => "Archives-Navy Memorial-Penn Quarter",
            StationCode::F03 => "L'Enfant Plaza",
            StationCode::F04 => "Waterfront",
            StationCode::F05 => "Navy Yard-Ballpark",
            StationCode::F06 => "Anacostia",
            StationCode::F07 => "Congress Heights",
            StationCode::F08 => "Southern Avenue",
            StationCode::F09 => "Naylor Road",
            StationCode::F10 => "Suitland",
            StationCode::F11 => "Branch Ave",
            StationCode::G01 => "Benning Road",
            StationCode::G02 => "Capitol Heights",
            StationCode::G03 => "Addison Road-Seat Pleasant",
            StationCode::G04 => "Morgan Boulevard",
            StationCode::G05 => "Largo Town Center",
            StationCode::K01 => "Court House",
            StationCode::K02 => "Clarendon",
            StationCode::K03 => "Virginia Square-GMU",
            StationCode::K04 => "Ballston-MU",
            StationCode::K05 => "East Falls Church",
            StationCode::K06 => "West Falls Church-VT/UVA",
            StationCode::K07 => "Dunn Loring-Merrifield",
            StationCode::K08 => "Vienna/Fairfax-GMU",
            StationCode::N01 => "McLean",
            StationCode::N02 => "Tysons Corner",
            StationCode::N03 => "Greensboro",
            StationCode::N04 => "Spring Hill",
            StationCode::N06 => "Wiehle-Reston East",
            StationCode::N07 => "Reston Town Center",
            StationCode::N08 => "Herndon",
            StationCode::N09 => "Innovation Center",
            StationCode::N10 => "Dulles International Airport",
            StationCode::N11 => "Loudoun Gateway",
            StationCode::N12 => "Ashburn",
            StationCode::J02 => "Van Dorn Street",
            StationCode::J03 => "Franconia-Springfield",
            StationCode::UNKNOWN => "UNKNOWN",
        }
    }

    /// Exact, case-sensitive lookup of a string in the code enumeration.
    pub open spec fn spec_from_code_str(s: Seq<char>) -> Option<StationCode> {
        if s.len() == 3 {
            if s[0] == 'A' && s[1] == '0' && s[2] == '1' {
                Some(StationCode::A01)
            } else if s[0] == 'A' && s[1] == '0' && s[2] == '2' {
                Some(StationCode::A02)
            } else if s[0] == 'A' && s[1] == '0' && s[2] == '3' {
                Some(StationCode::A03)
            } else if s[0] == 'A' && s[1] == '0' && s[2] == '4' {
                Some(StationCode::A04)
            } else if s[0] == 'A' && s[1] == '0' && s[2] == '5' {
                Some(StationCode::A05)
            } else if s[0] == 'A' && s[1] == '0' && s[2] == '6' {
                Some(StationCode::A06)
            } else if s[0] == 'A' && s[1] == '0' && s[2] == '7' {
                Some(StationCode::A07)
            } else if s[0] == 'A' && s[1] == '0' && s[2] == '8' {
                Some(StationCode::A08)
            } else if s[0] == 'A' && s[1] == '0' && s[2] == '9' {
                Some(StationCode::A09)
            } else if s[0] == 'A' && s[1] == '1' && s[2] == '0' {
                Some(StationCode::A10)
            } else if s[0] == 'A' && s[1] == '1' && s[2] == '1' {
                Some(StationCode::A11)
            } else if s[0] == 'A' && s[1] == '1' && s[2] == '2' {
                Some(StationCode::A12)
            } else if s[0] == 'A' && s[1] == '1' && s[2] == '3' {
                Some(StationCode::A13)
            } else if s[0] == 'A' && s[1] == '1' && s[2] == '4' {
                Some(StationCode::A14)
            } else if s[0] == 'A' && s[1] == '1' && s[2] == '5' {
                Some(StationCode::A15)
            } else if s[0] == 'B' && s[1] == '0' && s[2] == '1' {
                Some(StationCode::B01)
            } else if s[0] == 'B' && s[1] == '0' && s[2] == '2' {
                Some(StationCode::B02)
            } else if s[0] == 'B' && s[1] == '0' && s[2] == '3' {
                Some(StationCode::B03)
            } else if s[0] == 'B' && s[1] == '0' && s[2] == '4' {
                Some(StationCode::B04)
            } else if s[0] == 'B' && s[1] == '0' && s[2] == '5' {
                Some(StationCode::B05)
            } else if s[0] == 'B' && s[1] == '0' && s[2] == '6' {
                Some(StationCode::B06)
            } else if s[0] == 'B' && s[1] == '0' && s[2] == '7' {
                Some(StationCode::B07)
            } else if s[0] == 'B' && s[1] == '0' && s[2] == '8' {
                Some(StationCode::B08)
            } else if s[0] == 'B' && s[1] == '0' && s[2] == '9' {
                Some(StationCode::B09)
            } else if s[0] == 'B' && s[1] == '1' && s[2] == '0' {
                Some(StationCode::B10)
            } else if s[0] == 'B' && s[1] == '1' && s[2] == '1' {
                Some(StationCode::B11)
            } else if s[0] == 'B' && s[1] == '3' && s[2] == '5' {
                Some(StationCode::B35)
            } else if s[0] == 'C' && s[1] == '0' && s[2] == '1' {
                Some(StationCode::C01)
            } else if s[0] == 'C' && s[1] == '0' && s[2] == '2' {
                Some(StationCode::C02)
            } else if s[0] == 'C' && s[1] == '0' && s[2] == '3' {
                Some(StationCode::C03)
            } else if s[0] == 'C' && s[1] == '0' && s[2] == '4' {
                Some(StationCode::C04)
            } else if s[0] == 'C' && s[1] == '0' && s[2] == '5' {
                Some(StationCode::C05)
            } else if s[0] == 'C' && s[1] == '0' && s[2] == '6' {
                Some(StationCode::C06)
            } else if s[0] == 'C' && s[1] == '0' && s[2] == '7' {
                Some(StationCode::C07)
            } else if s[0] == 'C' && s[1] == '0' && s[2] == '8' {
                Some(StationCode::C08)
            } else if s[0] == 'C' && s[1] == '0' && s[2] == '9' {
                Some(StationCode::C09)
            } else if s[0] == 'C' && s[1] == '1' && s[2] == '0' {
                Some(StationCode::C10)
            } else if s[0] == 'C' && s[1] == '1' && s[2] == '1' {
                Some(StationCode::C11)
            } else if s[0] == 'C' && s[1] == '1' && s[2] == '2' {
                Some(StationCode::C12)
            } else if s[0] == 'C' && s[1] == '1' && s[2] == '3' {
                Some(StationCode::C13)
            } else if s[0] == 'C' && s[1] == '1' && s[2] == '4' {
                Some(StationCode::C14)
            } else if s[0] == 'C' && s[1] == '1' && s[2] == '5' {
                Some(StationCode::C15)
            } else if s[0] == 'D' && s[1] == '0' && s[2] == '1' {
                Some(StationCode::D01)
            } else if s[0] == 'D' && s[1] == '0' && s[2] == '2' {
                Some(StationCode::D02)
            } else if s[0] == 'D' && s[1] == '0' && s[2] == '3' {
                Some(StationCode::D03)
            } else if s[0] == 'D' && s[1] == '0' && s[2] == '4' {
                Some(StationCode::D04)
            } else if s[0] == 'D' && s[1] == '0' && s[2] == '5' {
                Some(StationCode::D05)
            } else if s[0] == 'D' && s[1] == '0' && s[2] == '6' {
                Some(StationCode::D06)
            } else if s[0] == 'D' && s[1] == '0' && s[2] == '7' {
                Some(StationCode::D07)
            } else if s[0] == 'D' && s[1] == '0' && s[2] == '8' {
                Some(StationCode::D08)
            } else if s[0] == 'D' && s[1] == '0' && s[2] == '9' {
                Some(StationCode::D09)
            } else if s[0] == 'D' && s[1] == '1' && s[2] == '0' {
                Some(StationCode::D10)
            } else if s[0] == 'D' && s[1] == '1' && s[2] == '1' {
                Some(StationCode::D11)
            } else if s[0] == 'D' && s[1] == '1' && s[2] == '2' {
                Some(StationCode::D12)
            } else if s[0] == 'D' && s[1] == '1' && s[2] == '3' {
                Some(StationCode::D13)
            } else if s[0] == 'E' && s[1] == '0' && s[2] == '1' {
                Some(StationCode::E01)
            } else if s[0] == 'E' && s[1] == '0' && s[2] == '2' {
                Some(StationCode::E02)
            } else if s[0] == 'E' && s[1] == '0' && s[2] == '3' {
                Some(StationCode::E03)
            } else if s[0] == 'E' && s[1] == '0' && s[2] == '4' {
                Some(StationCode::E04)
            } else if s[0] == 'E' && s[1] == '0' && s[2] == '5' {
                Some(StationCode::E05)
            } else if s[0] == 'E' && s[1] == '0' && s[2] == '6' {
                Some(StationCode::E06)
            } else if s[0] == 'E' && s[1] == '0' && s[2] == '7' {
                Some(StationCode::E07)
            } else if s[0] == 'E' && s[1] == '0' && s[2] == '8' {
                Some(StationCode::E08)
            } else if s[0] == 'E' && s[1] == '0' && s[2] == '9' {
                Some(StationCode::E09)
            } else if s[0] == 'E' && s[1] == '1' && s[2] == '0' {
                Some(StationCode::E10)
            } else if s[0] == 'F' && s[1] == '0' && s[2] == '1' {
                Some(StationCode::F01)
            } else if s[0] == 'F' && s[1] == '0' && s[2] == '2' {
                Some(StationCode::F02)
            } else if s[0] == 'F' && s[1] == '0' && s[2] == '3' {
                Some(StationCode::F03)
            } else if s[0] == 'F' && s[1] == '0' && s[2] == '4' {
                Some(StationCode::F04)
            } else if s[0] == 'F' && s[1] == '0' && s[2] == '5' {
                Some(StationCode::F05)
            } else if s[0] == 'F' && s[1] == '0' && s[2] == '6' {
                Some(StationCode::F06)
            } else if s[0] == 'F' && s[1] == '0' && s[2] == '7' {
                Some(StationCode::F07)
            } else if s[0] == 'F' && s[1] == '0' && s[2] == '8' {
                Some(StationCode::F08)
            } else if s[0] == 'F' && s[1] == '0' && s[2] == '9' {
                Some(StationCode::F09)
            } else if s[0] == 'F' && s[1] == '1' && s[2] == '0' {
                Some(StationCode::F10)
            } else if s[0] == 'F' && s[1] == '1' && s[2] == '1' {
                Some(StationCode::F11)
            } else if s[0] == 'G' && s[1] == '0' && s[2] == '1' {
                Some(StationCode::G01)
            } else if s[0] == 'G' && s[1] == '0' && s[2] == '2' {
                Some(StationCode::G02)
            } else if s[0] == 'G' && s[1] == '0' && s[2] == '3' {
                Some(StationCode::G03)
            } else if s[0] == 'G' && s[1] == '0' && s[2] == '4' {
                Some(StationCode::G04)
            } else if s[0] == 'G' && s[1] == '0' && s[2] == '5' {
                Some(StationCode::G05)
            } else if s[0] == 'K' && s[1] == '0' && s[2] == '1' {
                Some(StationCode::K01)
            } else if s[0] == 'K' && s[1] == '0' && s[2] == '2' {
                Some(StationCode::K02)
            } else if s[0] == 'K' && s[1] == '0' && s[2] == '3' {
                Some(StationCode::K03)
            } else if s[0] == 'K' && s[1] == '0' && s[2] == '4' {
                Some(StationCode::K04)
            } else if s[0] == 'K' && s[1] == '0' && s[2] == '5' {
                Some(StationCode::K05)
            } else if s[0] == 'K' && s[1] == '0' && s[2] == '6' {
                Some(StationCode::K06)
            } else if s[0] == 'K' && s[1] == '0' && s[2] == '7' {
                Some(StationCode::K07)
            } else if s[0] == 'K' && s[1] == '0' && s[2] == '8' {
                Some(StationCode::K08)
            } else if s[0] == 'N' && s[1] == '0' && s[2] == '1' {
                Some(StationCode::N01)
            } else if s[0] == 'N' && s[1] == '0' && s[2] == '2' {
                Some(StationCode::N02)
            } else if s[0] == 'N' && s[1] == '0' && s[2] == '3' {
                Some(StationCode::N03)
            } else if s[0] == 'N' && s[1] == '0' && s[2] == '4' {
                Some(StationCode::N04)
            } else if s[0] == 'N' && s[1] == '0' && s[2] == '6' {
                Some(StationCode::N06)
            } else if s[0] == 'N' && s[1] == '0' && s[2] == '7' {
                Some(StationCode::N07)
            } else if s[0] == 'N' && s[1] == '0' && s[2] == '8' {
                Some(StationCode::N08)
            } else if s[0] == 'N' && s[1] == '0' && s[2] == '9' {
                Some(StationCode::N09)
            } else if s[0] == 'N' && s[1] == '1' && s[2] == '0' {
                Some(StationCode::N10)
            } else if s[0] == 'N' && s[1] == '1' && s[2] == '1' {
                Some(StationCode::N11)
            } else if s[0] == 'N' && s[1] == '1' && s[2] == '2' {
                Some(StationCode::N12)
            } else if s[0] == 'J' && s[1] == '0' && s[2] == '2' {
                Some(StationCode::J02)
            } else if s[0] == 'J' && s[1] == '0' && s[2] == '3' {
                Some(StationCode::J03)
            } else {
                None
            }
        } else if s == seq!['U', 'N', 'K', 'N', 'O', 'W', 'N'] {
            Some(StationCode::UNKNOWN)
        } else {
            None
        }
    }

    /// Exact, case-sensitive match of the input against the code enumeration.
    #[verifier::rlimit(60)]
    pub fn from_code_str(s: &str) -> (r: Option<StationCode>)
        ensures
            r == StationCode::spec_from_code_str(s@),
    {
        let n = s.unicode_len();
        if n == 3 {
            let c0 = s.get_char(0);
            let c1 = s.get_char(1);
            let c2 = s.get_char(2);
            if c0 == 'A' && c1 == '0' && c2 == '1' {
                Some(StationCode::A01)
            } else if c0 == 'A' && c1 == '0' && c2 == '2' {
                Some(StationCode::A02)
            } else if c0 == 'A' && c1 == '0' && c2 == '3' {
                Some(StationCode::A03)
            } else if c0 == 'A' && c1 == '0' && c2 == '4' {
                Some(StationCode::A04)
            } else if c0 == 'A' && c1 == '0' && c2 == '5' {
                Some(StationCode::A05)
            } else if c0 == 'A' && c1 == '0' && c2 == '6' {
                Some(StationCode::A06)
            } else if c0 == 'A' && c1 == '0' && c2 == '7' {
                Some(StationCode::A07)
            } else if c0 == 'A' && c1 == '0' && c2 == '8' {
                Some(StationCode::A08)
            } else if c0 == 'A' && c1 == '0' && c2 == '9' {
                Some(StationCode::A09)
            } else if c0 == 'A' && c1 == '1' && c2 == '0' {
                Some(StationCode::A10)
            } else if c0 == 'A' && c1 == '1' && c2 == '1' {
                Some(StationCode::A11)
            } else if c0 == 'A' && c1 == '1' && c2 == '2' {
                Some(StationCode::A12)
            } else if c0 == 'A' && c1 == '1' && c2 == '3' {
                Some(StationCode::A13)
            } else if c0 == 'A' && c1 == '1' && c2 == '4' {
                Some(StationCode::A14)
            } else if c0 == 'A' && c1 == '1' && c2 == '5' {
                Some(StationCode::A15)
            } else if c0 == 'B' && c1 == '0' && c2 == '1' {
                Some(StationCode::B01)
            } else if c0 == 'B' && c1 == '0' && c2 == '2' {
                Some(StationCode::B02)
            } else if c0 == 'B' && c1 == '0' && c2 == '3' {
                Some(StationCode::B03)
            } else if c0 == 'B' && c1 == '0' && c2 == '4' {
                Some(StationCode::B04)
            } else if c0 == 'B' && c1 == '0' && c2 == '5' {
                Some(StationCode::B05)
            } else if c0 == 'B' && c1 == '0' && c2 == '6' {
                Some(StationCode::B06)
            } else if c0 == 'B' && c1 == '0' && c2 == '7' {
                Some(StationCode::B07)
            } else if c0 == 'B' && c1 == '0' && c2 == '8' {
                Some(StationCode::B08)
            } else if c0 == 'B' && c1 == '0' && c2 == '9' {
                Some(StationCode::B09)
            } else if c0 == 'B' && c1 == '1' && c2 == '0' {
                Some(StationCode::B10)
            } else if c0 == 'B' && c1 == '1' && c2 == '1' {
                Some(StationCode::B11)
            } else if c0 == 'B' && c1 == '3' && c2 == '5' {
                Some(StationCode::B35)
            } else if c0 == 'C' && c1 == '0' && c2 == '1' {
                Some(StationCode::C01)
            } else if c0 == 'C' && c1 == '0' && c2 == '2' {
                Some(StationCode::C02)
            } else if c0 == 'C' && c1 == '0' && c2 == '3' {
                Some(StationCode::C03)
            } else if c0 == 'C' && c1 == '0' && c2 == '4' {
                Some(StationCode::C04)
            } else if c0 == 'C' && c1 == '0' && c2 == '5' {
                Some(StationCode::C05)
            } else if c0 == 'C' && c1 == '0' && c2 == '6' {
                Some(StationCode::C06)
            } else if c0 == 'C' && c1 == '0' && c2 == '7' {
                Some(StationCode::C07)
            } else if c0 == 'C' && c1 == '0' && c2 == '8' {
                Some(StationCode::C08)
            } else if c0 == 'C' && c1 == '0' && c2 == '9' {
                Some(StationCode::C09)
            } else if c0 == 'C' && c1 == '1' && c2 == '0' {
                Some(StationCode::C10)
            } else if c0 == 'C' && c1 == '1' && c2 == '1' {
                Some(StationCode::C11)
            } else if c0 == 'C' && c1 == '1' && c2 == '2' {
                Some(StationCode::C12)
            } else if c0 == 'C' && c1 == '1' && c2 == '3' {
                Some(StationCode::C13)
            } else if c0 == 'C' && c1 == '1' && c2 == '4' {
                Some(StationCode::C14)
            } else if c0 == 'C' && c1 == '1' && c2 == '5' {
                Some(StationCode::C15)
            } else if c0 == 'D' && c1 == '0' && c2 == '1' {
                Some(StationCode::D01)
            } else if c0 == 'D' && c1 == '0' && c2 == '2' {
                Some(StationCode::D02)
            } else if c0 == 'D' && c1 == '0' && c2 == '3' {
                Some(StationCode::D03)
            } else if c0 == 'D' && c1 == '0' && c2 == '4' {
                Some(StationCode::D04)
            } else if c0 == 'D' && c1 == '0' && c2 == '5' {
                Some(StationCode::D05)
            } else if c0 == 'D' && c1 == '0' && c2 == '6' {
                Some(StationCode::D06)
            } else if c0 == 'D' && c1 == '0' && c2 == '7' {
                Some(StationCode::D07)
            } else if c0 == 'D' && c1 == '0' && c2 == '8' {
                Some(StationCode::D08)
            } else if c0 == 'D' && c1 == '0' && c2 == '9' {
                Some(StationCode::D09)
            } else if c0 == 'D' && c1 == '1' && c2 == '0' {
                Some(StationCode::D10)
            } else if c0 == 'D' && c1 == '1' && c2 == '1' {
                Some(StationCode::D11)
            } else if c0 == 'D' && c1 == '1' && c2 == '2' {
                Some(StationCode::D12)
            } else if c0 == 'D' && c1 == '1' && c2 == '3' {
                Some(StationCode::D13)
            } else if c0 == 'E' && c1 == '0' && c2 == '1' {
                Some(StationCode::E01)
            } else if c0 == 'E' && c1 == '0' && c2 == '2' {
                Some(StationCode::E02)
            } else if c0 == 'E' && c1 == '0' && c2 == '3' {
                Some(StationCode::E03)
            } else if c0 == 'E' && c1 == '0' && c2 == '4' {
                Some(StationCode::E04)
            } else if c0 == 'E' && c1 == '0' && c2 == '5' {
                Some(StationCode::E05)
            } else if c0 == 'E' && c1 == '0' && c2 == '6' {
                Some(StationCode::E06)
            } else if c0 == 'E' && c1 == '0' && c2 == '7' {
                Some(StationCode::E07)
            } else if c0 == 'E' && c1 == '0' && c2 == '8' {
                Some(StationCode::E08)
            } else if c0 == 'E' && c1 == '0' && c2 == '9' {
                Some(StationCode::E09)
            } else if c0 == 'E' && c1 == '1' && c2 == '0' {
                Some(StationCode::E10)
            } else if c0 == 'F' && c1 == '0' && c2 == '1' {
                Some(StationCode::F01)
            } else if c0 == 'F' && c1 == '0' && c2 == '2' {
                Some(StationCode::F02)
            } else if c0 == 'F' && c1 == '0' && c2 == '3' {
                Some(StationCode::F03)
            } else if c0 == 'F' && c1 == '0' && c2 == '4' {
                Some(StationCode::F04)
            } else if c0 == 'F' && c1 == '0' && c2 == '5' {
                Some(StationCode::F05)
            } else if c0 == 'F' && c1 == '0' && c2 == '6' {
                Some(StationCode::F06)
            } else if c0 == 'F' && c1 == '0' && c2 == '7' {
                Some(StationCode::F07)
            } else if c0 == 'F' && c1 == '0' && c2 == '8' {
                Some(StationCode::F08)
            } else if c0 == 'F' && c1 == '0' && c2 == '9' {
                Some(StationCode::F09)
            } else if c0 == 'F' && c1 == '1' && c2 == '0' {
                Some(StationCode::F10)
            } else if c0 == 'F' && c1 == '1' && c2 == '1' {
                Some(StationCode::F11)
            } else if c0 == 'G' && c1 == '0' && c2 == '1' {
                Some(StationCode::G01)
            } else if c0 == 'G' && c1 == '0' && c2 == '2' {
                Some(StationCode::G02)
            } else if c0 == 'G' && c1 == '0' && c2 == '3' {
                Some(StationCode::G03)
            } else if c0 == 'G' && c1 == '0' && c2 == '4' {
                Some(StationCode::G04)
            } else if c0 == 'G' && c1 == '0' && c2 == '5' {
                Some(StationCode::G05)
            } else if c0 == 'K' && c1 == '0' && c2 == '1' {
                Some(StationCode::K01)
            } else if c0 == 'K' && c1 == '0' && c2 == '2' {
                Some(StationCode::K02)
            } else if c0 == 'K' && c1 == '0' && c2 == '3' {
                Some(StationCode::K03)
            } else if c0 == 'K' && c1 == '0' && c2 == '4' {
                Some(StationCode::K04)
            } else if c0 == 'K' && c1 == '0' && c2 == '5' {
                Some(StationCode::K05)
            } else if c0 == 'K' && c1 == '0' && c2 == '6' {
                Some(StationCode::K06)
            } else if c0 == 'K' && c1 == '0' && c2 == '7' {
                Some(StationCode::K07)
            } else if c0 == 'K' && c1 == '0' && c2 == '8' {
                Some(StationCode::K08)
            } else if c0 == 'N' && c1 == '0' && c2 == '1' {
                Some(StationCode::N01)
            } else if c0 == 'N' && c1 == '0' && c2 == '2' {
                Some(StationCode::N02)
            } else if c0 == 'N' && c1 == '0' && c2 == '3' {
                Some(StationCode::N03)
            } else if c0 == 'N' && c1 == '0' && c2 == '4' {
                Some(StationCode::N04)
            } else if c0 == 'N' && c1 == '0' && c2 == '6' {
                Some(StationCode::N06)
            } else if c0 == 'N' && c1 == '0' && c2 == '7' {
                Some(StationCode::N07)
            } else if c0 == 'N' && c1 == '0' && c2 == '8' {
                Some(StationCode::N08)
            } else if c0 == 'N' && c1 == '0' && c2 == '9' {
                Some(StationCode::N09)
            } else if c0 == 'N' && c1 == '1' && c2 == '0' {
                Some(StationCode::N10)
            } else if c0 == 'N' && c1 == '1' && c2 == '1' {
                Some(StationCode::N11)
            } else if c0 == 'N' && c1 == '1' && c2 == '2' {
                Some(StationCode::N12)
            } else if c0 == 'J' && c1 == '0' && c2 == '2' {
                Some(StationCode::J02)
            } else if c0 == 'J' && c1 == '0' && c2 == '3' {
                Some(StationCode::J03)
            } else {
                None
            }
        } else if str_eq(s, "UNKNOWN") {
            proof { reveal_strlit("UNKNOWN"); assert("UNKNOWN"@ =~= seq!['U', 'N', 'K', 'N', 'O', 'W', 'N']); }
            Some(StationCode::UNKNOWN)
        } else {
            proof { reveal_strlit("UNKNOWN"); assert("UNKNOWN"@ =~= seq!['U', 'N', 'K', 'N', 'O', 'W', 'N']); }
            None
        }
    }

    /// Exact, case-sensitive lookup of a string in the name/alias table.
    pub open spec fn spec_from_name(s: Seq<char>) -> Option<StationCode> {
        if s == "Metro Center"@ {
            Some(StationCode::C01)
        } else if s == "Farragut North"@ {
            Some(StationCode::A02)
        } else if s == "Dupont Circle"@ {
            Some(StationCode::A03)
        } else if s == "Dupont"@ {
            Some(StationCode::A03)
        } else if s == "Woodley Park-Zoo/Adams Morgan"@ {
            Some(StationCode::A04)
        } else if s == "Adams Morgan"@ {
            Some(StationCode::A04)
        } else if s == "Zoo"@ {
            Some(StationCode::A04)
        } else if s == "Woodley Park"@ {
            Some(StationCode::A04)
        } else if s == "Cleveland Park"@ {
            Some(StationCode::A05)
        } else if s == "Van Ness-UDC"@ {
            Some(StationCode::A06)
        } else if s == "Tenleytown-AU"@ {
            Some(StationCode::A07)
        } else if s == "Friendship Heights"@ {
            Some(StationCode::A08)
        } else if s == "Bethesda"@ {
            Some(StationCode::A09)
        } else if s == "Medical Center"@ {
            Some(StationCode::A10)
        } else if s == "Grosvenor-Strathmore"@ {
            Some(StationCode::A11)
        } else if s == "White Flint"@ {
            Some(StationCode::A12)
        } else if s == "Twinbrook"@ {
            Some(StationCode::A13)
        } else if s == "Rockville"@ {
            Some(StationCode::A14)
        } else if s == "Shady Grove"@ {
            Some(StationCode::A15)
        } else if s == "Gallery Pl-Chinatown"@ {
            Some(StationCode::F01)
        } else if s == "Chinatown"@ {
            Some(StationCode::F01)
        } else if s == "Gallery Pl"@ {
            Some(StationCode::F01)
        } else if s == "Judiciary Square"@ {
            Some(StationCode::B02)
        } else if s == "Union Station"@ {
            Some(StationCode::B03)
        } else if s == "Rhode Island Ave-Brentwood"@ {
            Some(StationCode::B04)
        } else if s == "Brookland-CUA"@ {
            Some(StationCode::B05)
        } else if s == "Fort Totten"@ {
            Some(StationCode::E06)
        } else if s == "Takoma"@ {
            Some(StationCode::B07)
        } else if s == "Silver Spring"@ {
            Some(StationCode::B08)
        } else if s == "Forest Glen"@ {
            Some(StationCode::B09)
        } else if s == "Wheaton"@ {
            Some(StationCode::B10)
        } else if s == "Glenmont"@ {
            Some(StationCode::B11)
        } else if s == "NoMa-Gallaudet U"@ {
            Some(StationCode::B35)
        } else if s == "McPherson Square"@ {
            Some(StationCode::C02)
        } else if s == "Farragut West"@ {
            Some(StationCode::C03)
        } else if s == "Foggy Bottom-GWU"@ {
            Some(StationCode::C04)
        } else if s == "GWU"@ {
            Some(StationCode::C04)
        } else if s == "Foggy Bottom"@ {
            Some(StationCode::C04)
        } else if s == "Rosslyn"@ {
            Some(StationCode::C05)
        } else if s == "Arlington Cemetery"@ {
            Some(StationCode::C06)
        } else if s == "Pentagon"@ {
            Some(StationCode::C07)
        } else if s == "Pentagon City"@ {
            Some(StationCode::C08)
        } else if s == "Crystal City"@ {
            Some(StationCode::C09)
        } else if s == "Ronald Reagan Washington National Airport"@ {
            Some(StationCode::C10)
        } else if s == "DCA"@ {
            Some(StationCode::C10)
        } else if s == "Potomac Yard"@ {
            Some(StationCode::C11)
        } else if s == "Braddock Road"@ {
            Some(StationCode::C12)
        } else if s == "King St-Old Town"@ {
            Some(StationCode::C13)
        } else if s == "Eisenhower Avenue"@ {
            Some(StationCode::C14)
        } else if s == "Huntington"@ {
            Some(StationCode::C15)
        } else if s == "Federal Triangle"@ {
            Some(StationCode::D01)
        } else if s == "Smithsonian"@ {
            Some(StationCode::D02)
        } else if s == "L'Enfant Plaza"@ {
            Some(StationCode::F03)
        } else if s == "Federal Center SW"@ {
            Some(StationCode::D04)
        } else if s == "Capitol South"@ {
            Some(StationCode::D05)
        } else if s == "Eastern Market"@ {
            Some(StationCode::D06)
        } else if s == "Potomac Ave"@ {
            Some(StationCode::D07)
        } else if s == "Stadium-Armory"@ {
            Some(StationCode::D08)
        } else if s == "Minnesota Ave"@ {
            Some(StationCode::D09)
        } else if s == "Deanwood"@ {
            Some(StationCode::D10)
        } else if s == "Cheverly"@ {
            Some(StationCode::D11)
        } else if s == "Landover"@ {
            Some(StationCode::D12)
        } else if s == "New Carrollton"@ {
            Some(StationCode::D13)
        } else if s == "Mt Vernon Sq 7th St-Convention Center"@ {
            Some(StationCode::E01)
        } else if s == "Shaw-Howard U"@ {
            Some(StationCode::E02)
        } else if s == "U Street/African-Amer Civil War Memorial/Cardozo"@ {
            Some(StationCode::E03)
        } else if s == "African-Amer Civil War Memorial"@ {
            Some(StationCode::E03)
        } else if s == "U Street"@ {
            Some(StationCode::E03)
        } else if s == "Cardozo"@ {
            Some(StationCode::E03)
        } else if s == "Columbia Heights"@ {
            Some(StationCode::E04)
        } else if s == "Georgia Ave-Petworth"@ {
            Some(StationCode::E05)
        } else if s == "Georgia Ave"@ {
            Some(StationCode::E05)
        } else if s == "Petworth"@ {
            Some(StationCode::E05)
        } else if s == "West Hyattsville"@ {
            Some(StationCode::E07)
        } else if s == "Prince George's Plaza"@ {
            Some(StationCode::E08)
        } else if s == "College Park-U of Md"@ {
            Some(StationCode::E09)
        } else if s == "UMD"@ {
            Some(StationCode::E09)
        } else if s == "College Park"@ {
            Some(StationCode::E09)
        } else if s == "Greenbelt"@ {
            Some(StationCode::E10)
        } else if s == "Archives-Navy Memorial-Penn Quarter"@ {
            Some(StationCode::F02)
        } else if s == "Waterfront"@ {
            Some(StationCode::F04)
        } else if s == "Navy Yard-Ballpark"@ {
            Some(StationCode::F05)
        } else if s == "Ballpark"@ {
            Some(StationCode::F05)
        } else if s == "Navy Yard"@ {
            Some(StationCode::F05)
        } else if s == "Anacostia"@ {
            Some(StationCode::F06)
        } else if s == "Congress Heights"@ {
            Some(StationCode::F07)
        } else if s == "Southern Avenue"@ {
            Some(StationCode::F08)
        } else if s == "Naylor Road"@ {
            Some(StationCode::F09)
        } else if s == "Suitland"@ {
            Some(StationCode::F10)
        } else if s == "Branch Ave"@ {
            Some(StationCode::F11)
        } else if s == "Benning Road"@ {
            Some(StationCode::G01)
        } else if s == "Capitol Heights"@ {
            Some(StationCode::G02)
        } else if s == "Addison Road-Seat Pleasant"@ {
            Some(StationCode::G03)
        } else if s == "Morgan Boulevard"@ {
            Some(StationCode::G04)
        } else if s == "Largo Town Center"@ {
            Some(StationCode::G05)
        } else if s == "Van Dorn Street"@ {
            Some(StationCode::J02)
        } else if s == "Franconia-Springfield"@ {
            Some(StationCode::J03)
        } else if s == "Court House"@ {
            Some(StationCode::K01)
        } else if s == "Clarendon"@ {
            Some(StationCode::K02)
        } else if s == "Virginia Square-GMU"@ {
            Some(StationCode::K03)
        } else if s == "GMU"@ {
            Some(StationCode::K03)
        } else if s == "Virginia Square"@ {
            Some(StationCode::K03)
        } else if s == "Ballston-MU"@ {
            Some(StationCode::K04)
        } else if s == "MU"@ {
            Some(StationCode::K04)
        } else if s == "Ballston"@ {
            Some(StationCode::K04)
        } else if s == "East Falls Church"@ {
            Some(StationCode::K05)
        } else if s == "West Falls Church-VT/UVA"@ {
            Some(StationCode::K06)
        } else if s == "Dunn Loring-Merrifield"@ {
            Some(StationCode::K07)
        } else if s == "Vienna/Fairfax-GMU"@ {
            Some(StationCode::K08)
        } else if s == "Vienna"@ {
            Some(StationCode::K08)
        } else if s == "McLean"@ {
            Some(StationCode::N01)
        } else if s == "Tysons Corner"@ {
            Some(StationCode::N02)
        } else if s == "Greensboro"@ {
            Some(StationCode::N03)
        } else if s == "Spring Hill"@ {
            Some(StationCode::N04)
        } else if s == "Wiehle-Reston East"@ {
            Some(StationCode::N06)
        } else if s == "Wiehle"@ {
            Some(StationCode::N06)
        } else if s == "Reston Town Center"@ {
            Some(StationCode::N07)
        } else if s == "Reston"@ {
            Some(StationCode::N07)
        } else if s == "Herndon"@ {
            Some(StationCode::N08)
        } else if s == "Innovation Center"@ {
            Some(StationCode::N09)
        } else if s == "Dulles International Airport"@ {
            Some(StationCode::N10)
        } else if s == "IAD"@ {
            Some(StationCode::N10)
        } else if s == "Loudoun Gateway"@ {
            Some(StationCode::N11)
        } else if s == "Loudoun"@ {
            Some(StationCode::N11)
        } else if s == "Ashburn"@ {
            Some(StationCode::N12)
        } else if s == "UNKNOWN"@ {
            Some(StationCode::UNKNOWN)
        } else {
            None
        }
    }

    /// Given a station friendly name or alias, look up its RTU code; exact,
    /// case-sensitive matching only. Fails with `InvalidStation` for any
    /// string that is not in the alias table.
    #[verifier::rlimit(60)]
    pub fn from_name(name: &str) -> (r: Result<StationCode, MetroHeroError>)
        ensures
            r == match StationCode::spec_from_name(name@) {
                Some(c) => Result::<StationCode, MetroHeroError>::Ok(c),
                None => Result::<StationCode, MetroHeroError>::Err(MetroHeroError::InvalidStation),
            },
    {
        if str_eq(name, "Metro Center") {
            Ok(StationCode::C01)
        } else if str_eq(name, "Farragut North") {
            Ok(StationCode::A02)
        } else if str_eq(name, "Dupont Circle") {
            Ok(StationCode::A03)
        } else if str_eq(name, "Dupont") {
            Ok(StationCode::A03)
        } else if str_eq(name, "Woodley Park-Zoo/Adams Morgan") {
            Ok(StationCode::A04)
        } else if str_eq(name, "Adams Morgan") {
            Ok(StationCode::A04)
        } else if str_eq(name, "Zoo") {
            Ok(StationCode::A04)
        } else if str_eq(name, "Woodley Park") {
            Ok(StationCode::A04)
        } else if str_eq(name, "Cleveland Park") {
            Ok(StationCode::A05)
        } else if str_eq(name, "Van Ness-UDC") {
            Ok(StationCode::A06)
        } else if str_eq(name, "Tenleytown-AU") {
            Ok(StationCode::A07)
        } else if str_eq(name, "Friendship Heights") {
            Ok(StationCode::A08)
        } else if str_eq(name, "Bethesda") {
            Ok(StationCode::A09)
        } else if str_eq(name, "Medical Center") {
            Ok(StationCode::A10)
        } else if str_eq(name, "Grosvenor-Strathmore") {
            Ok(StationCode::A11)
        } else if str_eq(name, "White Flint") {
            Ok(StationCode::A12)
        } else if str_eq(name, "Twinbrook") {
            Ok(StationCode::A13)
        } else if str_eq(name, "Rockville") {
            Ok(StationCode::A14)
        } else if str_eq(name, "Shady Grove") {
            Ok(StationCode::A15)
        } else if str_eq(name, "Gallery Pl-Chinatown") {
            Ok(StationCode::F01)
        } else if str_eq(name, "Chinatown") {
            Ok(StationCode::F01)
        } else if str_eq(name, "Gallery Pl") {
            Ok(StationCode::F01)
        } else if str_eq(name, "Judiciary Square") {
            Ok(StationCode::B02)
        } else if str_eq(name, "Union Station") {
            Ok(StationCode::B03)
        } else if str_eq(name, "Rhode Island Ave-Brentwood") {
            Ok(StationCode::B04)
        } else if str_eq(name, "Brookland-CUA") {
            Ok(StationCode::B05)
        } else if str_eq(name, "Fort Totten") {
            Ok(StationCode::E06)
        } else if str_eq(name, "Takoma") {
            Ok(StationCode::B07)
        } else if str_eq(name, "Silver Spring") {
            Ok(StationCode::B08)
        } else if str_eq(name, "Forest Glen") {
            Ok(StationCode::B09)
        } else if str_eq(name, "Wheaton") {
            Ok(StationCode::B10)
        } else if str_eq(name, "Glenmont") {
            Ok(StationCode::B11)
        } else if str_eq(name, "NoMa-Gallaudet U") {
            Ok(StationCode::B35)
        } else if str_eq(name, "McPherson Square") {
            Ok(StationCode::C02)
        } else if str_eq(name, "Farragut West") {
            Ok(StationCode::C03)
        } else if str_eq(name, "Foggy Bottom-GWU") {
            Ok(StationCode::C04)
        } else if str_eq(name, "GWU") {
            Ok(StationCode::C04)
        } else if str_eq(name, "Foggy Bottom") {
            Ok(StationCode::C04)
        } else if str_eq(name, "Rosslyn") {
            Ok(StationCode::C05)
        } else if str_eq(name, "Arlington Cemetery") {
            Ok(StationCode::C06)
        } else if str_eq(name, "Pentagon") {
            Ok(StationCode::C07)
        } else if str_eq(name, "Pentagon City") {
            Ok(StationCode::C08)
        } else if str_eq(name, "Crystal City") {
            Ok(StationCode::C09)
        } else if str_eq(name, "Ronald Reagan Washington National Airport") {
            Ok(StationCode::C10)
        } else if str_eq(name, "DCA") {
            Ok(StationCode::C10)
        } else if str_eq(name, "Potomac Yard") {
            Ok(StationCode::C11)
        } else if str_eq(name, "Braddock Road") {
            Ok(StationCode::C12)
        } else if str_eq(name, "King St-Old Town") {
            Ok(StationCode::C13)
        } else if str_eq(name, "Eisenhower Avenue") {
            Ok(StationCode::C14)
        } else if str_eq(name, "Huntington") {
            Ok(StationCode::C15)
        } else if str_eq(name, "Federal Triangle") {
            Ok(StationCode::D01)
        } else if str_eq(name, "Smithsonian") {
            Ok(StationCode::D02)
        } else if str_eq(name, "L'Enfant Plaza") {
            Ok(StationCode::F03)
        } else if str_eq(name, "Federal Center SW") {
            Ok(StationCode::D04)
        } else if str_eq(name, "Capitol South") {
            Ok(StationCode::D05)
        } else if str_eq(name, "Eastern Market") {
            Ok(StationCode::D06)
        } else if str_eq(name, "Potomac Ave") {
            Ok(StationCode::D07)
        } else if str_eq(name, "Stadium-Armory") {
            Ok(StationCode::D08)
        } else if str_eq(name, "Minnesota Ave") {
            Ok(StationCode::D09)
        } else if str_eq(name, "Deanwood") {
            Ok(StationCode::D10)
        } else if str_eq(name, "Cheverly") {
            Ok(StationCode::D11)
        } else if str_eq(name, "Landover") {
            Ok(StationCode::D12)
        } else if str_eq(name, "New Carrollton") {
            Ok(StationCode::D13)
        } else if str_eq(name, "Mt Vernon Sq 7th St-Convention Center") {
            Ok(StationCode::E01)
        } else if str_eq(name, "Shaw-Howard U") {
            Ok(StationCode::E02)
        } else if str_eq(name, "U Street/African-Amer Civil War Memorial/Cardozo") {
            Ok(StationCode::E03)
        } else if str_eq(name, "African-Amer Civil War Memorial") {
            Ok(StationCode::E03)
        } else if str_eq(name, "U Street") {
            Ok(StationCode::E03)
        } else if str_eq(name, "Cardozo") {
            Ok(StationCode::E03)
        } else if str_eq(name, "Columbia Heights") {
            Ok(StationCode::E04)
        } else if str_eq(name, "Georgia Ave-Petworth") {
            Ok(StationCode::E05)
        } else if str_eq(name, "Georgia Ave") {
            Ok(StationCode::E05)
        } else if str_eq(name, "Petworth") {
            Ok(StationCode::E05)
        } else if str_eq(name, "West Hyattsville") {
            Ok(StationCode::E07)
        } else if str_eq(name, "Prince George's Plaza") {
            Ok(StationCode::E08)
        } else if str_eq(name, "College Park-U of Md") {
            Ok(StationCode::E09)
        } else if str_eq(name, "UMD") {
            Ok(StationCode::E09)
        } else if str_eq(name, "College Park") {
            Ok(StationCode::E09)
        } else if str_eq(name, "Greenbelt") {
            Ok(StationCode::E10)
        } else if str_eq(name, "Archives-Navy Memorial-Penn Quarter") {
            Ok(StationCode::F02)
        } else if str_eq(name, "Waterfront") {
            Ok(StationCode::F04)
        } else if str_eq(name, "Navy Yard-Ballpark") {
            Ok(StationCode::F05)
        } else if str_eq(name, "Ballpark") {
            Ok(StationCode::F05)
        } else if str_eq(name, "Navy Yard") {
            Ok(StationCode::F05)
        } else if str_eq(name, "Anacostia") {
            Ok(StationCode::F06)
        } else if str_eq(name, "Congress Heights") {
            Ok(StationCode::F07)
        } else if str_eq(name, "Southern Avenue") {
            Ok(StationCode::F08)
        } else if str_eq(name, "Naylor Road") {
            Ok(StationCode::F09)
        } else if str_eq(name, "Suitland") {
            Ok(StationCode::F10)
        } else if str_eq(name, "Branch Ave") {
            Ok(StationCode::F11)
        } else if str_eq(name, "Benning Road") {
            Ok(StationCode::G01)
        } else if str_eq(name, "Capitol Heights") {
            Ok(StationCode::G02)
        } else if str_eq(name, "Addison Road-Seat Pleasant") {
            Ok(StationCode::G03)
        } else if str_eq(name, "Morgan Boulevard") {
            Ok(StationCode::G04)
        } else if str_eq(name, "Largo Town Center") {
            Ok(StationCode::G05)
        } else if str_eq(name, "Van Dorn Street") {
            Ok(StationCode::J02)
        } else if str_eq(name, "Franconia-Springfield") {
            Ok(StationCode::J03)
        } else if str_eq(name, "Court House") {
            Ok(StationCode::K01)
        } else if str_eq(name, "Clarendon") {
            Ok(StationCode::K02)
        } else if str_eq(name, "Virginia Square-GMU") {
            Ok(StationCode::K03)
        } else if str_eq(name, "GMU") {
            Ok(StationCode::K03)
        } else if str_eq(name, "Virginia Square") {
            Ok(StationCode::K03)
        } else if str_eq(name, "Ballston-MU") {
            Ok(StationCode::K04)
        } else if str_eq(name, "MU") {
            Ok(StationCode::K04)
        } else if str_eq(name, "Ballston") {
            Ok(StationCode::K04)
        } else if str_eq(name, "East Falls Church") {
            Ok(StationCode::K05)
        } else if str_eq(name, "West Falls Church-VT/UVA") {
            Ok(StationCode::K06)
        } else if str_eq(name, "Dunn Loring-Merrifield") {
            Ok(StationCode::K07)
        } else if str_eq(name, "Vienna/Fairfax-GMU") {
            Ok(StationCode::K08)
        } else if str_eq(name, "Vienna") {
            Ok(StationCode::K08)
        } else if str_eq(name, "McLean") {
            Ok(StationCode::N01)
        } else if str_eq(name, "Tysons Corner") {
            Ok(StationCode::N02)
        } else if str_eq(name, "Greensboro") {
            Ok(StationCode::N03)
        } else if str_eq(name, "Spring Hill") {
            Ok(StationCode::N04)
        } else if str_eq(name, "Wiehle-Reston East") {
            Ok(StationCode::N06)
        } else if str_eq(name, "Wiehle") {
            Ok(StationCode::N06)
        } else if str_eq(name, "Reston Town Center") {
            Ok(StationCode::N07)
        } else if str_eq(name, "Reston") {
            Ok(StationCode::N07)
        } else if str_eq(name, "Herndon") {
            Ok(StationCode::N08)
        } else if str_eq(name, "Innovation Center") {
            Ok(StationCode::N09)
        } else if str_eq(name, "Dulles International Airport") {
            Ok(StationCode::N10)
        } else if str_eq(name, "IAD") {
            Ok(StationCode::N10)
        } else if str_eq(name, "Loudoun Gateway") {
            Ok(StationCode::N11)
        } else if str_eq(name, "Loudoun") {
            Ok(StationCode::N11)
        } else if str_eq(name, "Ashburn") {
            Ok(StationCode::N12)
        } else if str_eq(name, "UNKNOWN") {
            Ok(StationCode::UNKNOWN)
        } else {
            Err(MetroHeroError::InvalidStation)
        }
    }

    /// Resolution of user-supplied station input: an exact code match takes
    /// priority over a name/alias match; when neither applies the input is
    /// rejected with `InvalidStation`.
    pub open spec fn spec_resolve(s: Seq<char>) -> Result<StationCode, MetroHeroError> {
        match StationCode::spec_from_code_str(s) {
            Some(c) => Ok(c),
            None => match StationCode::spec_from_name(s) {
                Some(c) => Ok(c),
                None => Err(MetroHeroError::InvalidStation),
            },
        }
    }

    /// Resolve user-supplied station input into a canonical station code,
    /// trying an exact code match first and an exact name/alias match second.
    /// Any string matched by neither lookup fails with `InvalidStation`, and
    /// with nothing else.
    pub fn resolve(input: &str) -> (r: Result<StationCode, MetroHeroError>)
        ensures
            r == StationCode::spec_resolve(input@),
            r == Result::<StationCode, MetroHeroError>::Err(MetroHeroError::InvalidStation)
                <==> (StationCode::spec_from_code_str(input@) is None
                    && StationCode::spec_from_name(input@) is None),
    {
        match StationCode::from_code_str(input) {
            Some(c) => Ok(c),
            None => StationCode::from_name(input),
        }
    }

    /// How an upstream JSON string is read as a station code: a string in the
    /// code enumeration names its station, and any other string stands for the
    /// sentinel.
    pub open spec fn spec_from_json_str(s: Seq<char>) -> StationCode {
        match StationCode::spec_from_code_str(s) {
            Some(c) => c,
            None => StationCode::UNKNOWN,
        }
    }

    /// Read an upstream JSON string as a station code; total over strings,
    /// with unrecognized codes reading as the sentinel.
    pub fn from_json_str(s: &str) -> (r: StationCode)
        ensures
            r == StationCode::spec_from_json_str(s@),
    {
        match StationCode::from_code_str(s) {
            Some(c) => c,
            None => StationCode::UNKNOWN,
        }
    }

    /// Every station code, in the order the upstream enumerates them, the
    /// sentinel last.
    pub open spec fn spec_all() -> Seq<StationCode> {
        seq![
            StationCode::A01,
            StationCode::A02,
            StationCode::A03,
            StationCode::A04,
            StationCode::A05,
            StationCode::A06,
            StationCode::A07,
            StationCode::A08,
            StationCode::A09,
            StationCode::A10,
            StationCode::A11,
            StationCode::A12,
            StationCode::A13,
            StationCode::A14,
            StationCode::A15,
            StationCode::B01,
            StationCode::B02,
            StationCode::B03,
            StationCode::B04,
            StationCode::B05,
            StationCode::B06,
            StationCode::B07,
            StationCode::B08,
            StationCode::B09,
            StationCode::B10,
            StationCode::B11,
            StationCode::B35,
            StationCode::C01,
            StationCode::C02,
            StationCode::C03,
            StationCode::C04,
            StationCode::C05,
            StationCode::C06,
            StationCode::C07,
            StationCode::C08,
            StationCode::C09,
            StationCode::C10,
            StationCode::C11,
            StationCode::C12,
            StationCode::C13,
            StationCode::C14,
            StationCode::C15,
            StationCode::D01,
            StationCode::D02,
            StationCode::D03,
            StationCode::D04,
            StationCode::D05,
            StationCode::D06,
            StationCode::D07,
            StationCode::D08,
            StationCode::D09,
            StationCode::D10,
            StationCode::D11,
            StationCode::D12,
            StationCode::D13,
            StationCode::E01,
            StationCode::E02,
            StationCode::E03,
            StationCode::E04,
            StationCode::E05,
            StationCode::E06,
            StationCode::E07,
            StationCode::E08,
            StationCode::E09,
            StationCode::E10,
            StationCode::F01,
            StationCode::F02,
            StationCode::F03,
            StationCode::F04,
            StationCode::F05,
            StationCode::F06,
            StationCode::F07,
            StationCode::F08,
            StationCode::F09,
            StationCode::F10,
            StationCode::F11,
            StationCode::G01,
            StationCode::G02,
            StationCode::G03,
            StationCode::G04,
            StationCode::G05,
            StationCode::K01,
            StationCode::K02,
            StationCode::K03,
            StationCode::K04,
            StationCode::K05,
            StationCode::K06,
            StationCode::K07,
            StationCode::K08,
            StationCode::N01,
            StationCode::N02,
            StationCode::N03,
            StationCode::N04,
            StationCode::N06,
            StationCode::N07,
            StationCode::N08,
            StationCode::N09,
            StationCode::N10,
            StationCode::N11,
            StationCode::N12,
            StationCode::J02,
            StationCode::J03,
            StationCode::UNKNOWN,
        ]
    }

    /// Every station code, in the order the upstream enumerates them, the
    /// sentinel last.
    pub fn all() -> (r: Vec<StationCode>)
        ensures
            r@ == StationCode::spec_all(),
    {
        let r = vec![
            StationCode::A01,
            StationCode::A02,
            StationCode::A03,
            StationCode::A04,
            StationCode::A05,
            StationCode::A06,
            StationCode::A07,
            StationCode::A08,
            StationCode::A09,
            StationCode::A10,
            StationCode::A11,
            StationCode::A12,
            StationCode::A13,
            StationCode::A14,
            StationCode::A15,
            StationCode::B01,
            StationCode::B02,
            StationCode::B03,
            StationCode::B04,
            StationCode::B05,
            StationCode::B06,
            StationCode::B07,
            StationCode::B08,
            StationCode::B09,
            StationCode::B10,
            StationCode::B11,
            StationCode::B35,
            StationCode::C01,
            StationCode::C02,
            StationCode::C03,
            StationCode::C04,
            StationCode::C05,
            StationCode::C06,
            StationCode::C07,
            StationCode::C08,
            StationCode::C09,
            StationCode::C10,
            StationCode::C11,
            StationCode::C12,
            StationCode::C13,
            StationCode::C14,
            StationCode::C15,
            StationCode::D01,
            StationCode::D02,
            StationCode::D03,
            StationCode::D04,
            StationCode::D05,
            StationCode::D06,
            StationCode::D07,
            StationCode::D08,
            StationCode::D09,
            StationCode::D10,
            StationCode::D11,
            StationCode::D12,
            StationCode::D13,
            StationCode::E01,
            StationCode::E02,
            StationCode::E03,
            StationCode::E04,
            StationCode::E05,
            StationCode::E06,
            StationCode::E07,
            StationCode::E08,
            StationCode::E09,
            StationCode::E10,
            StationCode::F01,
            StationCode::F02,
            StationCode::F03,
            StationCode::F04,
            StationCode::F05,
            StationCode::F06,
            StationCode::F07,
            StationCode::F08,
            StationCode::F09,
            StationCode::F10,
            StationCode::F11,
            StationCode::G01,
            StationCode::G02,
            StationCode::G03,
            StationCode::G04,
            StationCode::G05,
            StationCode::K01,
            StationCode::K02,
            StationCode::K03,
            StationCode::K04,
            StationCode::K05,
            StationCode::K06,
            StationCode::K07,
            StationCode::K08,
            StationCode::N01,
            StationCode::N02,
            StationCode::N03,
            StationCode::N04,
            StationCode::N06,
            StationCode::N07,
            StationCode::N08,
            StationCode::N09,
            StationCode::N10,
            StationCode::N11,
            StationCode::N12,
            StationCode::J02,
            StationCode::J03,
            StationCode::UNKNOWN,
        ];
        proof { assert(r@ =~= StationCode::spec_all()); }
        r
    }
}

/// Using a station code itself as resolution input always yields that very
/// code: the code lookup matches it exactly, and code matches take priority
/// over name matches.
#[verifier::rlimit(100)]
pub proof fn lemma_resolve_code_identity(c: StationCode)
    ensures
        StationCode::spec_resolve(c.spec_code_str()) == Result::<StationCode, MetroHeroError>::Ok(c),
{
}

/// Resolving a display name need not give back the code it was taken from:
/// two co-located platforms share the name `"Metro Center"`, and the alias
/// table resolves it to the later-listed `C01`, not `A01`.
pub proof fn lemma_shared_display_name_resolves_to_one_code()
    ensures
        StationCode::A01.spec_name() == StationCode::C01.spec_name(),
        StationCode::spec_resolve(StationCode::A01.spec_name()) == Result::<
            StationCode,
            MetroHeroError,
        >::Ok(StationCode::C01),
{
    reveal_strlit("Metro Center");
    reveal_strlit("UNKNOWN");
}

/// Every canonical display name is accepted by resolution, and resolves to
/// a station carrying that very display name - not necessarily the same
/// code, since co-located platforms share one name.
#[verifier::rlimit(100)]
pub proof fn lemma_display_name_resolves_to_same_name(c: StationCode)
    ensures
        StationCode::spec_from_name(c.spec_name()) matches Some(d) && d.spec_name()
            == c.spec_name(),
        StationCode::spec_resolve(c.spec_name()) matches Ok(d) && d.spec_name()
            == c.spec_name(),
{
    reveal_strlit("Adams Morgan");
    reveal_strlit("Addison Road-Seat Pleasant");
    reveal_strlit("African-Amer Civil War Memorial");
    reveal_strlit("Anacostia");
    reveal_strlit("Archives-Navy Memorial-Penn Quarter");
    reveal_strlit("Arlington Cemetery");
    reveal_strlit("Ashburn");
    reveal_strlit("Ballpark");
    reveal_strlit("Ballston");
    reveal_strlit("Ballston-MU");
    reveal_strlit("Benning Road");
    reveal_strlit("Bethesda");
    reveal_strlit("Braddock Road");
    reveal_strlit("Branch Ave");
    reveal_strlit("Brookland-CUA");
    reveal_strlit("Capitol Heights");
    reveal_strlit("Capitol South");
    reveal_strlit("Cardozo");
    reveal_strlit("Cheverly");
    reveal_strlit("Chinatown");
    reveal_strlit("Clarendon");
    reveal_strlit("Cleveland Park");
    reveal_strlit("College Park");
    reveal_strlit("College Park-U of Md");
    reveal_strlit("Columbia Heights");
    reveal_strlit("Congress Heights");
    reveal_strlit("Court House");
    reveal_strlit("Crystal City");
    reveal_strlit("DCA");
    reveal_strlit("Deanwood");
    reveal_strlit("Dulles International Airport");
    reveal_strlit("Dunn Loring-Merrifield");
    reveal_strlit("Dupont");
    reveal_strlit("Dupont Circle");
    reveal_strlit("East Falls Church");
    reveal_strlit("Eastern Market");
    reveal_strlit("Eisenhower Avenue");
    reveal_strlit("Farragut North");
    reveal_strlit("Farragut West");
    reveal_strlit("Federal Center SW");
    reveal_strlit("Federal Triangle");
    reveal_strlit("Foggy Bottom");
    reveal_strlit("Foggy Bottom-GWU");
    reveal_strlit("Forest Glen");
    reveal_strlit("Fort Totten");
    reveal_strlit("Franconia-Springfield");
    reveal_strlit("Friendship Heights");
    reveal_strlit("GMU");
    reveal_strlit("GWU");
    reveal_strlit("Gallery Pl");
    reveal_strlit("Gallery Pl-Chinatown");
    reveal_strlit("Georgia Ave");
    reveal_strlit("Georgia Ave-Petworth");
    reveal_strlit("Glenmont");
    reveal_strlit("Greenbelt");
    reveal_strlit("Greensboro");
    reveal_strlit("Grosvenor-Strathmore");
    reveal_strlit("Herndon");
    reveal_strlit("Huntington");
    reveal_strlit("IAD");
    reveal_strlit("Innovation Center");
    reveal_strlit("Judiciary Square");
    reveal_strlit("King St-Old Town");
    reveal_strlit("L'Enfant Plaza");
    reveal_strlit("Landover");
    reveal_strlit("Largo Town Center");
    reveal_strlit("Loudoun");
    reveal_strlit("Loudoun Gateway");
    reveal_strlit("MU");
    reveal_strlit("McLean");
    reveal_strlit("McPherson Square");
    reveal_strlit("Medical Center");
    reveal_strlit("Metro Center");
    reveal_strlit("Minnesota Ave");
    reveal_strlit("Morgan Boulevard");
    reveal_strlit("Mt Vernon Sq 7th St-Convention Center");
    reveal_strlit("Navy Yard");
    reveal_strlit("Navy Yard-Ballpark");
    reveal_strlit("Naylor Road");
    reveal_strlit("New Carrollton");
    reveal_strlit("NoMa-Gallaudet U");
    reveal_strlit("Pentagon");
    reveal_strlit("Pentagon City");
    reveal_strlit("Petworth");
    reveal_strlit("Potomac Ave");
    reveal_strlit("Potomac Yard");
    reveal_strlit("Prince George's Plaza");
    reveal_strlit("Reston");
    reveal_strlit("Reston Town Center");
    reveal_strlit("Rhode Island Ave-Brentwood");
    reveal_strlit("Rockville");
    reveal_strlit("Ronald Reagan Washington National Airport");
    reveal_strlit("Rosslyn");
    reveal_strlit("Shady Grove");
    reveal_strlit("Shaw-Howard U");
    reveal_strlit("Silver Spring");
    reveal_strlit("Smithsonian");
    reveal_strlit("Southern Avenue");
    reveal_strlit("Spring Hill");
    reveal_strlit("Stadium-Armory");
    reveal_strlit("Suitland");
    reveal_strlit("Takoma");
    reveal_strlit("Tenleytown-AU");
    reveal_strlit("Twinbrook");
    reveal_strlit("Tysons Corner");
    reveal_strlit("U Street");
    reveal_strlit("U Street/African-Amer Civil War Memorial/Cardozo");
    reveal_strlit("UMD");
    reveal_strlit("UNKNOWN");
    reveal_strlit("Union Station");
    reveal_strlit("Van Dorn Street");
    reveal_strlit("Van Ness-UDC");
    reveal_strlit("Vienna");
    reveal_strlit("Vienna/Fairfax-GMU");
    reveal_strlit("Virginia Square");
    reveal_strlit("Virginia Square-GMU");
    reveal_strlit("Waterfront");
    reveal_strlit("West Falls Church-VT/UVA");
    reveal_strlit("West Hyattsville");
    reveal_strlit("Wheaton");
    reveal_strlit("White Flint");
    reveal_strlit("Wiehle");
    reveal_strlit("Wiehle-Reston East");
    reveal_strlit("Woodley Park");
    reveal_strlit("Woodley Park-Zoo/Adams Morgan");
    reveal_strlit("Zoo");
    assert("Adams Morgan"@.len() == 12);
    assert("Addison Road-Seat Pleasant"@.len() == 26);
    assert("African-Amer Civil War Memorial"@.len() == 31);
    assert("Anacostia"@.len() == 9);
    assert("Archives-Navy Memorial-Penn Quarter"@.len() == 35);
    assert("Arlington Cemetery"@.len() == 18);
    assert("Ashburn"@.len() == 7);
    assert("Ballpark"@.len() == 8);
    assert("Ballston"@.len() == 8);
    assert("Ballston-MU"@.len() == 11);
    assert("Benning Road"@.len() == 12);
    assert("Bethesda"@.len() == 8);
    assert("Braddock Road"@.len() == 13);
    assert("Branch Ave"@.len() == 10);
    assert("Brookland-CUA"@.len() == 13);
    assert("Capitol Heights"@.len() == 15);
    assert("Capitol South"@.len() == 13);
    assert("Cardozo"@.len() == 7);
    assert("Cheverly"@.len() == 8);
    assert("Chinatown"@.len() == 9);
    assert("Clarendon"@.len() == 9);
    assert("Cleveland Park"@.len() == 14);
    assert("College Park"@.len() == 12);
    assert("College Park-U of Md"@.len() == 20);
    assert("Columbia Heights"@.len() == 16);
    assert("Congress Heights"@.len() == 16);
    assert("Court House"@.len() == 11);
    assert("Crystal City"@.len() == 12);
    assert("DCA"@.len() == 3);
    assert("Deanwood"@.len() == 8);
    assert("Dulles International Airport"@.len() == 28);
    assert("Dunn Loring-Merrifield"@.len() == 22);
    assert("Dupont"@.len() == 6);
    assert("Dupont Circle"@.len() == 13);
    assert("East Falls Church"@.len() == 17);
    assert("Eastern Market"@.len() == 14);
    assert("Eisenhower Avenue"@.len() == 17);
    assert("Farragut North"@.len() == 14);
    assert("Farragut West"@.len() == 13);
    assert("Federal Center SW"@.len() == 17);
    assert("Federal Triangle"@.len() == 16);
    assert("Foggy Bottom"@.len() == 12);
    assert("Foggy Bottom-GWU"@.len() == 16);
    assert("Forest Glen"@.len() == 11);
    assert("Fort Totten"@.len() == 11);
    assert("Franconia-Springfield"@.len() == 21);
    assert("Friendship Heights"@.len() == 18);
    assert("GMU"@.len() == 3);
    assert("GWU"@.len() == 3);
    assert("Gallery Pl"@.len() == 10);
    assert("Gallery Pl-Chinatown"@.len() == 20);
    assert("Georgia Ave"@.len() == 11);
    assert("Georgia Ave-Petworth"@.len() == 20);
    assert("Glenmont"@.len() == 8);
    assert("Greenbelt"@.len() == 9);
    assert("Greensboro"@.len() == 10);
    assert("Grosvenor-Strathmore"@.len() == 20);
    assert("Herndon"@.len() == 7);
    assert("Huntington"@.len() == 10);
    assert("IAD"@.len() == 3);
    assert("Innovation Center"@.len() == 17);
    assert("Judiciary Square"@.len() == 16);
    assert("King St-Old Town"@.len() == 16);
    assert("L'Enfant Plaza"@.len() == 14);
    assert("Landover"@.len() == 8);
    assert("Largo Town Center"@.len() == 17);
    assert("Loudoun"@.len() == 7);
    assert("Loudoun Gateway"@.len() == 15);
    assert("MU"@.len() == 2);
    assert("McLean"@.len() == 6);
    assert("McPherson Square"@.len() == 16);
    assert("Medical Center"@.len() == 14);
    assert("Metro Center"@.len() == 12);
    assert("Minnesota Ave"@.len() == 13);
    assert("Morgan Boulevard"@.len() == 16);
    assert("Mt Vernon Sq 7th St-Convention Center"@.len() == 37);
    assert("Navy Yard"@.len() == 9);
    assert("Navy Yard-Ballpark"@.len() == 18);
    assert("Naylor Road"@.len() == 11);
    assert("New Carrollton"@.len() == 14);
    assert("NoMa-Gallaudet U"@.len() == 16);
    assert("Pentagon"@.len() == 8);
    assert("Pentagon City"@.len() == 13);
    assert("Petworth"@.len() == 8);
    assert("Potomac Ave"@.len() == 11);
    assert("Potomac Yard"@.len() == 12);
    assert("Prince George's Plaza"@.len() == 21);
    assert("Reston"@.len() == 6);
    assert("Reston Town Center"@.len() == 18);
    assert("Rhode Island Ave-Brentwood"@.len() == 26);
    assert("Rockville"@.len() == 9);
    assert("Ronald Reagan Washington National Airport"@.len() == 41);
    assert("Rosslyn"@.len() == 7);
    assert("Shady Grove"@.len() == 11);
    assert("Shaw-Howard U"@.len() == 13);
    assert("Silver Spring"@.len() == 13);
    assert("Smithsonian"@.len() == 11);
    assert("Southern Avenue"@.len() == 15);
    assert("Spring Hill"@.len() == 11);
    assert("Stadium-Armory"@.len() == 14);
    assert("Suitland"@.len() == 8);
    assert("Takoma"@.len() == 6);
    assert("Tenleytown-AU"@.len() == 13);
    assert("Twinbrook"@.len() == 9);
    assert("Tysons Corner"@.len() == 13);
    assert("U Street"@.len() == 8);
    assert("U Street/African-Amer Civil War Memorial/Cardozo"@.len() == 48);
    assert("UMD"@.len() == 3);
    assert("UNKNOWN"@.len() == 7);
    assert("Union Station"@.len() == 13);
    assert("Van Dorn Street"@.len() == 15);
    assert("Van Ness-UDC"@.len() == 12);
    assert("Vienna"@.len() == 6);
    assert("Vienna/Fairfax-GMU"@.len() == 18);
    assert("Virginia Square"@.len() == 15);
    assert("Virginia Square-GMU"@.len() == 19);
    assert("Waterfront"@.len() == 10);
    assert("West Falls Church-VT/UVA"@.len() == 24);
    assert("West Hyattsville"@.len() == 16);
    assert("Wheaton"@.len() == 7);
    assert("White Flint"@.len() == 11);
    assert("Wiehle"@.len() == 6);
    assert("Wiehle-Reston East"@.len() == 18);
    assert("Woodley Park"@.len() == 12);
    assert("Woodley Park-Zoo/Adams Morgan"@.len() == 29);
    assert("Zoo"@.len() == 3);
    assert("UNKNOWN"@ =~= seq!['U', 'N', 'K', 'N', 'O', 'W', 'N']);
    assert("Adams Morgan"@[0] == 'A');
    assert("Benning Road"@[0] == 'B');
    assert("Crystal City"@[0] == 'C');
    assert("Metro Center"@[0] == 'M');
    assert("Potomac Yard"@[0] == 'P');
    assert("Van Ness-UDC"@[0] == 'V');
    assert("Ballpark"@[1] == 'a');
    assert("Bethesda"@[1] == 'e');
    assert("Ballpark"@[0] == 'B');
    assert("Cheverly"@[0] == 'C');
    assert("Deanwood"@[0] == 'D');
    assert("Glenmont"@[0] == 'G');
    assert("Landover"@[0] == 'L');
    assert("Pentagon"@[0] == 'P');
    assert("Suitland"@[0] == 'S');
    assert("Ballston"@[1] == 'a');
    assert("Ballston"@[0] == 'B');
    assert("Cardozo"@[0] == 'C');
    assert("Ashburn"@[0] == 'A');
    assert("Herndon"@[0] == 'H');
    assert("Rosslyn"@[0] == 'R');
    assert("UNKNOWN"@[0] == 'U');
    assert("Wheaton"@[0] == 'W');
    assert("Chinatown"@[0] == 'C');
    assert("Anacostia"@[0] == 'A');
    assert("Chinatown"@[1] == 'h');
    assert("Clarendon"@[1] == 'l');
    assert("Greenbelt"@[0] == 'G');
    assert("Rockville"@[0] == 'R');
    assert("Twinbrook"@[0] == 'T');
    assert("College Park"@[0] == 'C');
    assert("College Park"@[1] == 'o');
    assert("Crystal City"@[1] == 'r');
    assert("Dupont"@[0] == 'D');
    assert("McLean"@[0] == 'M');
    assert("Takoma"@[0] == 'T');
    assert("Foggy Bottom"@[0] == 'F');
    assert("Gallery Pl"@[0] == 'G');
    assert("Branch Ave"@[0] == 'B');
    assert("Gallery Pl"@[1] == 'a');
    assert("Greensboro"@[1] == 'r');
    assert("Huntington"@[0] == 'H');
    assert("Waterfront"@[0] == 'W');
    assert("Georgia Ave"@[0] == 'G');
    assert("Ballston-MU"@[0] == 'B');
    assert("Court House"@[0] == 'C');
    assert("Forest Glen"@[0] == 'F');
    assert("Fort Totten"@[0] == 'F');
    assert("Naylor Road"@[0] == 'N');
    assert("Potomac Ave"@[0] == 'P');
    assert("Shady Grove"@[0] == 'S');
    assert("Smithsonian"@[0] == 'S');
    assert("Spring Hill"@[0] == 'S');
    assert("White Flint"@[0] == 'W');
    assert("Loudoun"@[0] == 'L');
    assert("Navy Yard"@[0] == 'N');
    assert("Clarendon"@[0] == 'C');
    assert("Petworth"@[0] == 'P');
    assert("Bethesda"@[0] == 'B');
    assert("Petworth"@[2] == 't');
    assert("Pentagon"@[2] == 'n');
    assert("Reston"@[0] == 'R');
    assert("U Street"@[0] == 'U');
    assert("Vienna"@[0] == 'V');
    assert("Virginia Square"@[0] == 'V');
    assert("Capitol Heights"@[0] == 'C');
    assert("Loudoun Gateway"@[0] == 'L');
    assert("Southern Avenue"@[0] == 'S');
    assert("Virginia Square"@[1] == 'i');
    assert("Van Dorn Street"@[1] == 'a');
    assert("Wiehle"@[0] == 'W');
    assert("Woodley Park"@[0] == 'W');
}

/// The sentinel is reachable only through the literal string `"UNKNOWN"`:
/// no other input resolves to it, through either lookup.
#[verifier::rlimit(100)]
pub proof fn lemma_sentinel_reachable_only_by_literal(s: Seq<char>)
    ensures
        StationCode::spec_resolve(s) == Result::<StationCode, MetroHeroError>::Ok(
            StationCode::UNKNOWN,
        ) <==> s == "UNKNOWN"@,
{
    reveal_strlit("UNKNOWN");
    assert("UNKNOWN"@ =~= seq!['U', 'N', 'K', 'N', 'O', 'W', 'N']);
    if s == "UNKNOWN"@ {
        assert(s.len() == 7);
    }
}

/// Every station code, the sentinel included, has a nonempty display name:
/// the display-name mapping is total over the closed enumeration.
pub proof fn lemma_display_name_total(c: StationCode)
    ensures
        c.spec_name().len() > 0,
{
    match c {
        StationCode::A01 => {
            reveal_strlit("Metro Center");
        },
        StationCode::A02 => {
            reveal_strlit("Farragut North");
        },
        StationCode::A03 => {
            reveal_strlit("Dupont Circle");
        },
        StationCode::A04 => {
            reveal_strlit("Woodley Park-Zoo/Adams Morgan");
        },
        StationCode::A05 => {
            reveal_strlit("Cleveland Park");
        },
        StationCode::A06 => {
            reveal_strlit("Van Ness-UDC");
        },
        StationCode::A07 => {
            reveal_strlit("Tenleytown-AU");
        },
        StationCode::A08 => {
            reveal_strlit("Friendship Heights");
        },
        StationCode::A09 => {
            reveal_strlit("Bethesda");
        },
        StationCode::A10 => {
            reveal_strlit("Medical Center");
        },
        StationCode::A11 => {
            reveal_strlit("Grosvenor-Strathmore");
        },
        StationCode::A12 => {
            reveal_strlit("White Flint");
        },
        StationCode::A13 => {
            reveal_strlit("Twinbrook");
        },
        StationCode::A14 => {
            reveal_strlit("Rockville");
        },
        StationCode::A15 => {
            reveal_strlit("Shady Grove");
        },
        StationCode::B01 => {
            reveal_strlit("Gallery Pl-Chinatown");
        },
        StationCode::B02 => {
            reveal_strlit("Judiciary Square");
        },
        StationCode::B03 => {
            reveal_strlit("Union Station");
        },
        StationCode::B04 => {
            reveal_strlit("Rhode Island Ave-Brentwood");
        },
        StationCode::B05 => {
            reveal_strlit("Brookland-CUA");
        },
        StationCode::B06 => {
            reveal_strlit("Fort Totten");
        },
        StationCode::B07 => {
            reveal_strlit("Takoma");
        },
        StationCode::B08 => {
            reveal_strlit("Silver Spring");
        },
        StationCode::B09 => {
            reveal_strlit("Forest Glen");
        },
        StationCode::B10 => {
            reveal_strlit("Wheaton");
        },
        StationCode::B11 => {
            reveal_strlit("Glenmont");
        },
        StationCode::B35 => {
            reveal_strlit("NoMa-Gallaudet U");
        },
        StationCode::C01 => {
            reveal_strlit("Metro Center");
        },
        StationCode::C02 => {
            reveal_strlit("McPherson Square");
        },
        StationCode::C03 => {
            reveal_strlit("Farragut West");
        },
        StationCode::C04 => {
            reveal_strlit("Foggy Bottom-GWU");
        },
        StationCode::C05 => {
            reveal_strlit("Rosslyn");
        },
        StationCode::C06 => {
            reveal_strlit("Arlington Cemetery");
        },
        StationCode::C07 => {
            reveal_strlit("Pentagon");
        },
        StationCode::C08 => {
            reveal_strlit("Pentagon City");
        },
        StationCode::C09 => {
            reveal_strlit("Crystal City");
        },
        StationCode::C10 => {
            reveal_strlit("Ronald Reagan Washington National Airport");
        },
        StationCode::C11 => {
            reveal_strlit("Potomac Yard");
        },
        StationCode::C12 => {
            reveal_strlit("Braddock Road");
        },
        StationCode::C13 => {
            reveal_strlit("King St-Old Town");
        },
        StationCode::C14 => {
            reveal_strlit("Eisenhower Avenue");
        },
        StationCode::C15 => {
            reveal_strlit("Huntington");
        },
        StationCode::D01 => {
            reveal_strlit("Federal Triangle");
        },
        StationCode::D02 => {
            reveal_strlit("Smithsonian");
        },
        StationCode::D03 => {
            reveal_strlit("L'Enfant Plaza");
        },
        StationCode::D04 => {
            reveal_strlit("Federal Center SW");
        },
        StationCode::D05 => {
            reveal_strlit("Capitol South");
        },
        StationCode::D06 => {
            reveal_strlit("Eastern Market");
        },
        StationCode::D07 => {
            reveal_strlit("Potomac Ave");
        },
        StationCode::D08 => {
            reveal_strlit("Stadium-Armory");
        },
        StationCode::D09 => {
            reveal_strlit("Minnesota Ave");
        },
        StationCode::D10 => {
            reveal_strlit("Deanwood");
        },
        StationCode::D11 => {
            reveal_strlit("Cheverly");
        },
        StationCode::D12 => {
            reveal_strlit("Landover");
        },
        StationCode::D13 => {
            reveal_strlit("New Carrollton");
        },
        StationCode::E01 => {
            reveal_strlit("Mt Vernon Sq 7th St-Convention Center");
        },
        StationCode::E02 => {
            reveal_strlit("Shaw-Howard U");
        },
        StationCode::E03 => {
            reveal_strlit("U Street/African-Amer Civil War Memorial/Cardozo");
        },
        StationCode::E04 => {
            reveal_strlit("Columbia Heights");
        },
        StationCode::E05 => {
            reveal_strlit("Georgia Ave-Petworth");
        },
        StationCode::E06 => {
            reveal_strlit("Fort Totten");
        },
        StationCode::E07 => {
            reveal_strlit("West Hyattsville");
        },
        StationCode::E08 => {
            reveal_strlit("Prince George's Plaza");
        },
        StationCode::E09 => {
            reveal_strlit("College Park-U of Md");
        },
        StationCode::E10 => {
            reveal_strlit("Greenbelt");
        },
        StationCode::F01 => {
            reveal_strlit("Gallery Pl-Chinatown");
        },
        StationCode::F02 => {
            reveal_strlit("Archives-Navy Memorial-Penn Quarter");
        },
        StationCode::F03 => {
            reveal_strlit("L'Enfant Plaza");
        },
        StationCode::F04 => {
            reveal_strlit("Waterfront");
        },
        StationCode::F05 => {
            reveal_strlit("Navy Yard-Ballpark");
        },
        StationCode::F06 => {
            reveal_strlit("Anacostia");
        },
        StationCode::F07 => {
            reveal_strlit("Congress Heights");
        },
        StationCode::F08 => {
            reveal_strlit("Southern Avenue");
        },
        StationCode::F09 => {
            reveal_strlit("Naylor Road");
        },
        StationCode::F10 => {
            reveal_strlit("Suitland");
        },
        StationCode::F11 => {
            reveal_strlit("Branch Ave");
        },
        StationCode::G01 => {
            reveal_strlit("Benning Road");
        },
        StationCode::G02 => {
            reveal_strlit("Capitol Heights");
        },
        StationCode::G03 => {
            reveal_strlit("Addison Road-Seat Pleasant");
        },
        StationCode::G04 => {
            reveal_strlit("Morgan Boulevard");
        },
        StationCode::G05 => {
            reveal_strlit("Largo Town Center");
        },
        StationCode::K01 => {
            reveal_strlit("Court House");
        },
        StationCode::K02 => {
            reveal_strlit("Clarendon");
        },
        StationCode::K03 => {
            reveal_strlit("Virginia Square-GMU");
        },
        StationCode::K04 => {
            reveal_strlit("Ballston-MU");
        },
        StationCode::K05 => {
            reveal_strlit("East Falls Church");
        },
        StationCode::K06 => {
            reveal_strlit("West Falls Church-VT/UVA");
        },
        StationCode::K07 => {
            reveal_strlit("Dunn Loring-Merrifield");
        },
        StationCode::K08 => {
            reveal_strlit("Vienna/Fairfax-GMU");
        },
        StationCode::N01 => {
            reveal_strlit("McLean");
        },
        StationCode::N02 => {
            reveal_strlit("Tysons Corner");
        },
        StationCode::N03 => {
            reveal_strlit("Greensboro");
        },
        StationCode::N04 => {
            reveal_strlit("Spring Hill");
        },
        StationCode::N06 => {
            reveal_strlit("Wiehle-Reston East");
        },
        StationCode::N07 => {
            reveal_strlit("Reston Town Center");
        },
        StationCode::N08 => {
            reveal_strlit("Herndon");
        },
        StationCode::N09 => {
            reveal_strlit("Innovation Center");
        },
        StationCode::N10 => {
            reveal_strlit("Dulles International Airport");
        },
        StationCode::N11 => {
            reveal_strlit("Loudoun Gateway");
        },
        StationCode::N12 => {
            reveal_strlit("Ashburn");
        },
        StationCode::J02 => {
            reveal_strlit("Van Dorn Street");
        },
        StationCode::J03 => {
            reveal_strlit("Franconia-Springfield");
        },
        StationCode::UNKNOWN => {
            reveal_strlit("UNKNOWN");
        },
    }
}

} // verus!
