//! Metrorail line codes and their upstream string forms.
use vstd::prelude::*;
use vstd::string::*;

use crate::strutil::str_eq;

verus! {

/// Metrorail line codes, plus a sentinel for trains not in passenger service.
#[derive(Debug, PartialEq, Eq, Structural, Hash, Clone, Copy)]
pub enum LineCode {
    Silver,
    Red,
    Orange,
    Blue,
    Yellow,
    Green,
    NonRevenue,
}

impl LineCode {
    /// The two-character code the upstream API uses for each line
    /// (`"N/A"` for trains not in revenue service).
    pub open spec fn spec_code_str(self) -> Seq<char> {
        match self {
            LineCode::Silver => "SV"@,
            LineCode::Red => "RD"@,
            LineCode::Orange => "OR"@,
            LineCode::Blue => "BL"@,
            LineCode::Yellow => "YL"@,
            LineCode::Green => "GR"@,
            LineCode::NonRevenue => "N/A"@,
        }
    }

    /// The line code as the upstream API writes it.
    pub fn code_str(&self) -> (r: &'static str)
        ensures
            r@ == self.spec_code_str(),
    {
        match self {
            LineCode::Silver => "SV",
            LineCode::Red => "RD",
            LineCode::Orange => "OR",
            LineCode::Blue => "BL",
            LineCode::Yellow => "YL",
            LineCode::Green => "GR",
            LineCode::NonRevenue => "N/A",
        }
    }

    /// How an upstream JSON string is read as a line code: the six known
    /// two-character codes name their lines, and any other string stands for a
    /// train outside passenger service.
    pub open spec fn spec_from_json_str(s: Seq<char>) -> LineCode {
        if s == "SV"@ {
            LineCode::Silver
        } else if s == "RD"@ {
            LineCode::Red
        } else if s == "OR"@ {
            LineCode::Orange
        } else if s == "BL"@ {
            LineCode::Blue
        } else if s == "YL"@ {
            LineCode::Yellow
        } else if s == "GR"@ {
            LineCode::Green
        } else {
            LineCode::NonRevenue
        }
    }

    /// Read an upstream JSON string as a line code; total over strings, with
    /// unrecognized codes standing for non-revenue trains.
    pub fn from_json_str(s: &str) -> (r: LineCode)
        ensures
            r == LineCode::spec_from_json_str(s@),
    {
        if str_eq(s, "SV") {
            LineCode::Silver
        } else if str_eq(s, "RD") {
            LineCode::Red
        } else if str_eq(s, "OR") {
            LineCode::Orange
        } else if str_eq(s, "BL") {
            LineCode::Blue
        } else if str_eq(s, "YL") {
            LineCode::Yellow
        } else if str_eq(s, "GR") {
            LineCode::Green
        } else {
            LineCode::NonRevenue
        }
    }
}

} // verus!
