//! VAT rate codes used on shopping-list lines and tagged units, their text
//! form, and the exact-integer VAT multiplier: a net amount times
//! `1 + rate/100`, rounded to the nearest forint.

use vstd::prelude::*;
use crate::rounding::{rdiv, lemma_rdiv_range};

verus! {

/// Hungarian VAT rate codes: three exempt kinds and the 5/18/27 percent
/// rates.
#[derive(Clone, Copy, Debug, PartialEq, Eq, Structural)]
pub enum VAT {
    AAM,
    FAD,
    TAM,
    _5,
    _18,
    _27,
}

/// The percentage a VAT code stands for; the exempt codes multiply by 1.
pub open spec fn spec_vat_rate(v: VAT) -> int {
    match v {
        VAT::AAM => 0,
        VAT::FAD => 0,
        VAT::TAM => 0,
        VAT::_5 => 5,
        VAT::_18 => 18,
        VAT::_27 => 27,
    }
}

/// A net amount multiplied by the VAT code's multiplier and rounded to the
/// nearest integer.
pub open spec fn spec_vat_multiply(net: int, v: VAT) -> int {
    rdiv(net * (100 + spec_vat_rate(v)), 100)
}

/// The text form of a VAT code.
pub open spec fn spec_vat_code(v: VAT) -> Seq<char> {
    match v {
        VAT::AAM => "AAM"@,
        VAT::FAD => "FAD"@,
        VAT::TAM => "TAM"@,
        VAT::_5 => "5"@,
        VAT::_18 => "18"@,
        VAT::_27 => "27"@,
    }
}

/// Which VAT code a piece of text denotes, if any; upper and lower case are
/// both accepted for the exempt codes.
pub open spec fn spec_vat_from_str(s: Seq<char>) -> Option<VAT> {
    if s == "AAM"@ || s == "aam"@ {
        Some(VAT::AAM)
    } else if s == "FAD"@ || s == "fad"@ {
        Some(VAT::FAD)
    } else if s == "TAM"@ || s == "tam"@ {
        Some(VAT::TAM)
    } else if s == "5"@ {
        Some(VAT::_5)
    } else if s == "18"@ {
        Some(VAT::_18)
    } else if s == "27"@ {
        Some(VAT::_27)
    } else {
        None
    }
}

/// Character-by-character string comparison, proved against the string
/// views.
pub fn str_eq(a: &str, b: &str) -> (r: bool)
    ensures
        r == (a@ == b@),
{
    let la = a.unicode_len();
    let lb = b.unicode_len();
    if la != lb {
        return false;
    }
    let mut i: usize = 0;
    while i < la
        invariant
            0 <= i <= la,
            la == a@.len(),
            la == b@.len(),
            forall|j: int| 0 <= j < i ==> a@[j] == b@[j],
        decreases la - i,
    {
        if a.get_char(i) != b.get_char(i) {
            return false;
        }
        i = i + 1;
    }
    proof {
        assert(a@ =~= b@);
    }
    true
}

impl VAT {
    /// Parse the text form of a VAT code; unknown text is rejected.
    pub fn from_str(s: &str) -> (r: Result<VAT, String>)
        ensures
            (r is Ok) == (spec_vat_from_str(s@) is Some),
            r matches Ok(v) ==> spec_vat_from_str(s@) == Some(v),
            r matches Err(m) ==> m@ == "unknown VAT code, expected 5, 18, 27, AAM, TAM, FAD"@,
    {
        if str_eq(s, "AAM") || str_eq(s, "aam") {
            Ok(VAT::AAM)
        } else if str_eq(s, "FAD") || str_eq(s, "fad") {
            Ok(VAT::FAD)
        } else if str_eq(s, "TAM") || str_eq(s, "tam") {
            Ok(VAT::TAM)
        } else if str_eq(s, "5") {
            Ok(VAT::_5)
        } else if str_eq(s, "18") {
            Ok(VAT::_18)
        } else if str_eq(s, "27") {
            Ok(VAT::_27)
        } else {
            Err("unknown VAT code, expected 5, 18, 27, AAM, TAM, FAD".to_owned())
        }
    }

    /// The text form of this VAT code.
    pub fn to_string(&self) -> (r: String)
        ensures
            r@ == spec_vat_code(*self),
    {
        match self {
            VAT::AAM => "AAM".to_owned(),
            VAT::FAD => "FAD".to_owned(),
            VAT::TAM => "TAM".to_owned(),
            VAT::_5 => "5".to_owned(),
            VAT::_18 => "18".to_owned(),
            VAT::_27 => "27".to_owned(),
        }
    }
}

/// Multiply a net amount by the VAT code's multiplier, rounding to the
/// nearest forint.
pub fn vat_multiply(net: u32, vat: VAT) -> (r: u32)
    requires
        spec_vat_multiply(net as int, vat) <= u32::MAX,
    ensures
        r == spec_vat_multiply(net as int, vat),
{
    let rate: u64 = match vat {
        VAT::AAM => 0,
        VAT::FAD => 0,
        VAT::TAM => 0,
        VAT::_5 => 5,
        VAT::_18 => 18,
        VAT::_27 => 27,
    };
    proof {
        assert((net as int) * (100 + rate as int) <= 545_460_846_465int) by (nonlinear_arith)
            requires
                0 <= net <= 4_294_967_295int,
                0 <= rate <= 27,
        ;
    }
    let x: u64 = (net as u64) * (100 + rate);
    let q: u64 = (2 * x + 100) / 200;
    proof {
        lemma_rdiv_range(x as int, 100);
    }
    q as u32
}

/// The multiplied amount is at least the net amount: the multiplier is at
/// least 1.
pub proof fn lemma_vat_multiply_ge_net(net: int, v: VAT)
    requires
        net >= 0,
    ensures
        net <= spec_vat_multiply(net, v),
{
    let rate = spec_vat_rate(v);
    let q = (2 * (net * (100 + rate)) + 100) / 200;
    assert(net <= q) by (nonlinear_arith)
        requires
            net >= 0,
            0 <= rate <= 27,
            q == (2 * (net * (100 + rate)) + 100) / 200,
    ;
}

impl Default for VAT {
    /// The default VAT code is the general 27 percent rate.
    fn default() -> (r: Self)
        ensures
            r == VAT::_27,
    {
        VAT::_27
    }
}

} // verus!
