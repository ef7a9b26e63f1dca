//! Traits stamped onto a freshly minted token from the host's random draws.
//!
//! Each draw is a uniformly random `u32` supplied by the host runtime; the
//! token's hardness and shininess are fixed functions of those draws.

use vstd::prelude::*;

verus! {

/// Hardness grade of a minted token, from softest to hardest.
#[derive(Clone, Copy, Debug, PartialEq, Eq, Structural)]
pub enum Hardness {
    Soft,
    Firm,
    Hard,
    Rigid,
    Unyielding,
}

/// The hardness grade a random draw selects: the draw is reduced modulo 100
/// and the residue is bucketed, with 0..=50 soft, 51..=70 firm, 71..=90
/// hard, 91..=98 rigid, and 99 unyielding.
pub open spec fn hardness_spec(roll: u32) -> Hardness {
    let n: u32 = roll % 100;
    if n <= 50 {
        Hardness::Soft
    } else if n <= 70 {
        Hardness::Firm
    } else if n <= 90 {
        Hardness::Hard
    } else if n <= 98 {
        Hardness::Rigid
    } else {
        Hardness::Unyielding
    }
}

/// The label under which a hardness grade is recorded in token metadata.
pub open spec fn hardness_label_spec(h: Hardness) -> Seq<char> {
    match h {
        Hardness::Soft => "soft"@,
        Hardness::Firm => "firm"@,
        Hardness::Hard => "hard"@,
        Hardness::Rigid => "rigid"@,
        Hardness::Unyielding => "unyielding"@,
    }
}

/// Buckets a random draw into a hardness grade.
pub fn hardness_from_roll(roll: u32) -> (h: Hardness)
    ensures
        h == hardness_spec(roll),
{
    let n: u32 = roll % 100;
    if n <= 50 {
        Hardness::Soft
    } else if n <= 70 {
        Hardness::Firm
    } else if n <= 90 {
        Hardness::Hard
    } else if n <= 98 {
        Hardness::Rigid
    } else {
        Hardness::Unyielding
    }
}

impl Hardness {
    /// The metadata label of this hardness grade.
    pub fn label(&self) -> (s: &'static str)
        ensures
            s@ == hardness_label_spec(*self),
    {
        match self {
            Hardness::Soft => "soft",
            Hardness::Firm => "firm",
            Hardness::Hard => "hard",
            Hardness::Rigid => "rigid",
            Hardness::Unyielding => "unyielding",
        }
    }
}

/// Whether a random draw makes the token shiny: the draw is reduced modulo
/// 100 and only the residue 0 qualifies, one chance in a hundred.
pub fn is_shiny(roll: u32) -> (r: bool)
    ensures
        r == (roll % 100 < 1),
{
    roll % 100 < 1
}

} // verus!
