//! Minting a ticket.

use vstd::prelude::*;
use crate::errors::TriadProtocolError;
use crate::keys::{decoded_key, key_matches, matches_written};
use crate::math::{mul_or_fail, sub_or_fail};
use crate::state::nft::{Collection, MintTicketArgs};

verus! {

/// The authority whose tokens are traded in for tickets, written in base
/// 58.
pub const TICKET_AUTHORITY: &'static str = "4jfd5BshR8oK6ezdFxKYia4g2Z9dJK6tZnpLfKSw1C3C";

/// Whether `update_authority` is the authority whose tokens are traded in
/// for tickets. `None` where the authority's text writes no key.
pub fn is_ticket_authority(update_authority: &[u8; 32]) -> (r: Option<bool>)
    ensures
        r == matches_written(*update_authority, decoded_key(TICKET_AUTHORITY@)),
{
    key_matches(update_authority, TICKET_AUTHORITY)
}

/// What is taken off a price for a discount in percent: the price once for
/// every full hundred.
pub open spec fn discount_of(price: u64, discount: u64) -> int {
    price * (discount / 100)
}

/// Why a ticket is not minted, if it is not. The tests are made in this
/// order and the first that fails decides.
pub open spec fn mint_ticket_rejection(
    collection: Collection,
    authority_matches: bool,
    args: MintTicketArgs,
) -> Option<TriadProtocolError> {
    let price = args.rarity.price();
    if !authority_matches || args.number > collection.supply {
        Some(TriadProtocolError::Unauthorized)
    } else if collection.supply <= collection.minted {
        Some(TriadProtocolError::CollectionFull)
    } else if discount_of(price, args.discount) > price {
        Some(TriadProtocolError::ArithmeticFailure)
    } else {
        None
    }
}

/// Counts a ticket as minted and returns what the buyer has to give up for
/// it: the price of the ticket's rarity less the discount.
///
/// `authority_matches` says whether the token that is traded in for the
/// ticket was issued by the authority that this collection accepts.
pub fn mint_ticket(collection: &mut Collection, authority_matches: bool, args: &MintTicketArgs) -> (r:
    Result<u64, TriadProtocolError>)
    ensures
        match r {
            Ok(price) => {
                &&& mint_ticket_rejection(*old(collection), authority_matches, *args) is None
                &&& price == args.rarity.price() - discount_of(args.rarity.price(), args.discount)
                &&& final(collection).minted == old(collection).minted + 1
                &&& final(collection).minted <= final(collection).supply
            },
            Err(e) => {
                &&& mint_ticket_rejection(*old(collection), authority_matches, *args) == Some(e)
                &&& final(collection).minted == old(collection).minted
            },
        },
        final(collection).authority == old(collection).authority,
        final(collection).bump == old(collection).bump,
        final(collection).symbol == old(collection).symbol,
        final(collection).supply == old(collection).supply,
{
    if !authority_matches || args.number > collection.supply {
        return Err(TriadProtocolError::Unauthorized);
    }
    if collection.supply <= collection.minted {
        return Err(TriadProtocolError::CollectionFull);
    }
    let price: u64 = args.rarity.ticket_price();
    let hundreds: u64 = args.discount / 100;
    let discount: u64 = match mul_or_fail(price, hundreds) {
        Ok(discount) => discount,
        Err(e) => {
            assert(price * hundreds > price) by (nonlinear_arith)
                requires
                    price * hundreds > u64::MAX,
                    price <= u64::MAX,
            ;
            return Err(e);
        },
    };
    let price_with_discount: u64 = sub_or_fail(price, discount)?;
    collection.minted = collection.minted + 1;
    Ok(price_with_discount)
}

} // verus!
