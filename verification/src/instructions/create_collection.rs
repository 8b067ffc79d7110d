//! Creating a collection of tickets.

use vstd::prelude::*;
use crate::state::nft::{Collection, CreateCollectionArgs};

verus! {

/// The collection that `args` describe: nothing minted yet.
pub fn create_collection(args: CreateCollectionArgs, authority: [u8; 32], bump: u8) -> (collection:
    Collection)
    ensures
        collection.authority == authority,
        collection.bump == bump,
        collection.symbol == args.symbol,
        collection.minted == 0,
        collection.supply == args.supply,
{
    Collection { authority, bump, symbol: args.symbol, minted: 0, supply: args.supply }
}

} // verus!
