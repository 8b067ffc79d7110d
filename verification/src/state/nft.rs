//! Ticket collections.

use vstd::prelude::*;

verus! {

/// A collection of tickets.
#[derive(Clone, Debug, PartialEq, Eq)]
pub struct Collection {
    pub authority: [u8; 32],
    pub bump: u8,
    pub symbol: String,
    /// Tickets minted so far
    pub minted: u64,
    /// Tickets that may be minted in all
    pub supply: u64,
}

#[derive(Clone, Debug, PartialEq, Eq)]
pub struct CreateCollectionArgs {
    pub name: String,
    pub symbol: String,
    pub supply: u64,
}

#[derive(Clone, Debug, PartialEq, Eq)]
pub struct MintTicketArgs {
    pub collection_symbol: String,
    /// The discount in percent
    pub discount: u64,
    pub is_boosted: bool,
    /// The ticket's number in its collection
    pub number: u64,
    pub rarity: Rarity,
}

#[derive(Clone, Copy, Debug, PartialEq, Eq, Structural)]
pub enum Rarity {
    Common,
    Uncommon,
    Rare,
    Epic,
    Legendary,
    Mythic,
}

#[derive(Clone, Copy, Debug, PartialEq, Eq)]
pub struct Nft {}

/// The prefix of the seeds of every collection's address: the bytes of
/// `collection`.
pub const COLLECTION_PREFIX_SEED: [u8; 10] = [99, 111, 108, 108, 101, 99, 116, 105, 111, 110];

/// The prefix of the seeds of every ticket's address: the bytes of `nft`.
pub const NFT_PREFIX_SEED: [u8; 3] = [110, 102, 116];

impl Rarity {
    /// The rarity's name, as it is written.
    pub open spec fn label(self) -> Seq<char> {
        match self {
            Rarity::Common => "Common"@,
            Rarity::Uncommon => "Uncommon"@,
            Rarity::Rare => "Rare"@,
            Rarity::Epic => "Epic"@,
            Rarity::Legendary => "Legendary"@,
            Rarity::Mythic => "Mythic"@,
        }
    }

    /// What a ticket of this rarity costs before any discount.
    pub open spec fn price(self) -> u64 {
        match self {
            Rarity::Common => 150_000_000,
            Rarity::Uncommon => 100_000_000,
            Rarity::Rare => 50_000_000,
            _ => 0,
        }
    }

    pub fn to_string(&self) -> (name: String)
        ensures
            name@ == self.label(),
    {
        match self {
            Rarity::Common => "Common".to_owned(),
            Rarity::Uncommon => "Uncommon".to_owned(),
            Rarity::Rare => "Rare".to_owned(),
            Rarity::Epic => "Epic".to_owned(),
            Rarity::Legendary => "Legendary".to_owned(),
            Rarity::Mythic => "Mythic".to_owned(),
        }
    }

    pub fn ticket_price(&self) -> (price: u64)
        ensures
            price == self.price(),
    {
        match self {
            Rarity::Common => 150_000_000,
            Rarity::Uncommon => 100_000_000,
            Rarity::Rare => 50_000_000,
            _ => 0,
        }
    }
}

} // verus!
