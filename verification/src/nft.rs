//! State and decisions of the NFT collection.
//!
//! The host runtime owns the vault, the resource registry and the metadata
//! store; the collection's own state reduces to a mint counter. Minting
//! decides a token's number and traits from the burned amount and two
//! random draws; burning admits a bucket only when it holds tokens of this
//! collection.

use vstd::prelude::*;

use crate::sampler::weight_hundredths;
use crate::sampler::weight_hundredths_spec;
use crate::traits::Hardness;
use crate::traits::hardness_from_roll;
use crate::traits::hardness_spec;
use crate::traits::is_shiny;

verus! {

/// Ceiling at which a burned amount stops increasing the length bias.
pub const CLAMP_CEILING: u64 = 90;

/// Mutable body of a minted token.
#[derive(Clone, Copy, Debug, PartialEq, Eq, Structural)]
pub struct DSizeMeasure {
    pub brightness: u32,
}

/// Everything a mint decides about the new token: its number (which names
/// it and serves as its identifier), the weight that biases its length, its
/// hardness and shininess, and its initial mutable body.
#[derive(Clone, Copy, Debug, PartialEq, Eq, Structural)]
pub struct MintOutcome {
    pub number: u32,
    pub weight_hundredths: u64,
    pub hardness: Hardness,
    pub shiny: bool,
    pub body: DSizeMeasure,
}

/// Kind of resource a bucket holds, as the host runtime reports it.
#[derive(Clone, Copy, Debug, PartialEq, Eq, Structural)]
pub enum ResourceKind {
    Fungible,
    NonFungible,
    Confidential,
    Stealth,
}

/// Why a bucket may not be burned by this collection.
#[derive(Clone, Copy, Debug, PartialEq, Eq, Structural)]
pub enum BurnError {
    /// The bucket does not hold non-fungible tokens.
    NotNonFungible,
    /// The bucket's tokens belong to another collection.
    NotFromCollection,
}

/// The message under which a burn refusal is reported.
pub open spec fn burn_error_message_spec(e: BurnError) -> Seq<char> {
    match e {
        BurnError::NotNonFungible => "The resource is not a NFT"@,
        BurnError::NotFromCollection => "Cannot burn bucket not from this collection"@,
    }
}

impl BurnError {
    /// The message under which this refusal is reported.
    pub fn message(&self) -> (s: &'static str)
        ensures
            s@ == burn_error_message_spec(*self),
    {
        match self {
            BurnError::NotNonFungible => "The resource is not a NFT",
            BurnError::NotFromCollection => "Cannot burn bucket not from this collection",
        }
    }
}

/// Whether a bucket may be burned: it must hold non-fungible tokens, and
/// they must come from this collection. The non-fungible check comes first,
/// so a fungible bucket from elsewhere is refused as not non-fungible.
pub fn check_burn(kind: ResourceKind, from_this_collection: bool) -> (r: Result<(), BurnError>)
    ensures
        r is Ok <==> (kind is NonFungible && from_this_collection),
        kind !is NonFungible ==> r == Err::<(), BurnError>(BurnError::NotNonFungible),
        (kind is NonFungible && !from_this_collection) ==> r == Err::<(), BurnError>(
            BurnError::NotFromCollection,
        ),
{
    match kind {
        ResourceKind::NonFungible => {
            if from_this_collection {
                Ok(())
            } else {
                Err(BurnError::NotFromCollection)
            }
        },
        _ => Err(BurnError::NotNonFungible),
    }
}

/// The NFT collection's own state: how many tokens have been minted. The
/// vault of burnable coins and the resource registry live with the host
/// runtime.
pub struct DSizeMeasureNft {
    pub counter: u32,
}

impl DSizeMeasureNft {
    /// A fresh collection: no token minted yet, so the first token is
    /// number 0.
    pub fn new() -> (s: Self)
        ensures
            s.counter == 0,
    {
        DSizeMeasureNft { counter: 0 }
    }

    /// How many tokens have been minted so far.
    pub fn counter(&self) -> (c: u32)
        ensures
            c == self.counter,
    {
        self.counter
    }

    /// Decides the token a mint produces. The token takes the next free
    /// number, the burned amount fixes the weight that biases its length
    /// (clamped at `CLAMP_CEILING`), the first draw decides shininess and
    /// the second its hardness, and its body starts with brightness 0.
    pub fn mint(&mut self, burn_amount: u64, shiny_roll: u32, hardness_roll: u32) -> (m:
        MintOutcome)
        requires
            old(self).counter < u32::MAX,
        ensures
            final(self).counter == old(self).counter + 1,
            m.number == old(self).counter,
            m.weight_hundredths == weight_hundredths_spec(burn_amount, CLAMP_CEILING),
            m.hardness == hardness_spec(hardness_roll),
            m.shiny == (shiny_roll % 100 < 1),
            m.body.brightness == 0,
    {
        let number: u32 = self.counter;
        let weight: u64 = weight_hundredths(burn_amount, CLAMP_CEILING);
        let shiny: bool = is_shiny(shiny_roll);
        let hardness: Hardness = hardness_from_roll(hardness_roll);
        self.counter = self.counter + 1;
        MintOutcome {
            number,
            weight_hundredths: weight,
            hardness,
            shiny,
            body: DSizeMeasure { brightness: 0 },
        }
    }
}

} // verus!
