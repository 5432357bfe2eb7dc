//! A satoshi with the attributes that follow from its number.

use vstd::prelude::*;

verus! {

/// How rare a satoshi is.
#[derive(Clone, Copy, Debug, PartialEq, Eq)]
pub enum Rarity {
    Common,
    Uncommon,
    Rare,
    Epic,
    Legendary,
    Mythic,
}

/// A satoshi: its number, and the positions and names that the number
/// determines, as whoever numbered it worked them out.
#[derive(Debug, PartialEq, Eq)]
pub struct Sat {
    pub n: u64,
    pub decimal: String,
    pub degree: String,
    pub percentile: String,
    pub name: String,
    pub cycle: u64,
    pub epoch: u64,
    pub period: u64,
    pub height: u64,
    pub third: u64,
    pub rarity: Rarity,
}

} // verus!
