//! Trading a ticket in for an NFT of the vault: what is tested of the
//! metadata of both, and what is recorded.

use vstd::prelude::*;
use vstd::string::StringSliceAdditionalSpecFns;
use vstd::utf8::encode_utf8;

verus! {

/// One attribute of an NFT.
#[derive(Clone, Debug, PartialEq, Eq)]
pub struct Attribute {
    pub trait_type: String,
    pub value: String,
}

/// What is read of an NFT's metadata.
#[derive(Clone, Debug, PartialEq, Eq)]
pub struct Metadata {
    pub name: String,
    pub mint: [u8; 32],
    pub attributes: Option<Vec<Attribute>>,
}

/// The numbers of the NFTs that are to be boosted.
#[derive(Clone, Debug, PartialEq, Eq)]
pub struct BoostRegistry {
    pub boosted_nft_numbers: Vec<u64>,
}

/// The bytes a registry takes up at most: room for 1000 numbers.
pub const BOOST_REGISTRY_MAX_SIZE: usize = 8 + 1000 * 8;

#[derive(Clone, Copy, Debug, PartialEq, Eq, Structural)]
pub enum BurnAndTransferError {
    /// Metadata not found for this NFT.
    MetadataNotFound,
    /// Invalid rarity or rarity does not match.
    InvalidRarity,
    /// Invalid metadata format. Could not parse NFT number.
    InvalidMetadataFormat,
}

/// Whether some attribute has this type and this value.
pub open spec fn has_attribute(attributes: Seq<Attribute>, trait_type: Seq<char>, value: Seq<char>) -> bool {
    exists|i: int|
        0 <= i < attributes.len() && (#[trigger] attributes[i]).trait_type@ == trait_type
            && attributes[i].value@ == value
}

/// Looks for an attribute of this type and this value.
fn find_attribute(attributes: &Vec<Attribute>, trait_type: &String, value: &String) -> (r: bool)
    ensures
        r == has_attribute(attributes@, trait_type@, value@),
{
    let mut n: usize = 0;
    while n < attributes.len()
        invariant
            n <= attributes@.len(),
            forall|i: int|
                0 <= i < n ==> !((#[trigger] attributes@[i]).trait_type@ == trait_type@
                    && attributes@[i].value@ == value@),
        decreases attributes@.len() - n,
    {
        if attributes[n].trait_type == *trait_type && attributes[n].value == *value {
            return true;
        }
        n = n + 1;
    }
    false
}

/// Tests that the NFT is of the rarity `expected_rarity`: that its
/// attribute `Rarity` has that value.
pub fn validate_rarity(metadata: &Metadata, expected_rarity: &str) -> (r: Result<
    (),
    BurnAndTransferError,
>)
    ensures
        match r {
            Ok(_) => metadata.attributes matches Some(attributes) && has_attribute(
                attributes@,
                "Rarity"@,
                expected_rarity@,
            ),
            Err(e) => match metadata.attributes {
                None => e == BurnAndTransferError::MetadataNotFound,
                Some(attributes) => e == BurnAndTransferError::InvalidRarity && !has_attribute(
                    attributes@,
                    "Rarity"@,
                    expected_rarity@,
                ),
            },
        },
{
    match &metadata.attributes {
        None => Err(BurnAndTransferError::MetadataNotFound),
        Some(attributes) => {
            let trait_type: String = "Rarity".to_owned();
            let value: String = expected_rarity.to_owned();
            if find_attribute(attributes, &trait_type, &value) {
                Ok(())
            } else {
                Err(BurnAndTransferError::InvalidRarity)
            }
        },
    }
}

/// Tests whether the ticket carries a badge: whether its attribute `Badge`
/// has the value `true`.
pub fn check_badge(metadata: &Metadata) -> (r: Result<bool, BurnAndTransferError>)
    ensures
        match r {
            Ok(badge) => metadata.attributes matches Some(attributes) && badge == has_attribute(
                attributes@,
                "Badge"@,
                "true"@,
            ),
            Err(e) => e == BurnAndTransferError::MetadataNotFound && metadata.attributes is None,
        },
{
    match &metadata.attributes {
        None => Err(BurnAndTransferError::MetadataNotFound),
        Some(attributes) => {
            let trait_type: String = "Badge".to_owned();
            let value: String = "true".to_owned();
            Ok(find_attribute(attributes, &trait_type, &value))
        },
    }
}

/// The mint of the vault's NFT, provided the NFT is of the rarity asked
/// for.
pub fn find_nft_in_vault(vault_metadata: &Metadata, rarity: &str) -> (r: Result<
    [u8; 32],
    BurnAndTransferError,
>)
    ensures
        match r {
            Ok(mint) => {
                &&& mint == vault_metadata.mint
                &&& vault_metadata.attributes matches Some(attributes)
                &&& has_attribute(attributes@, "Rarity"@, rarity@)
            },
            Err(e) => match vault_metadata.attributes {
                None => e == BurnAndTransferError::MetadataNotFound,
                Some(attributes) => e == BurnAndTransferError::InvalidRarity && !has_attribute(
                    attributes@,
                    "Rarity"@,
                    rarity@,
                ),
            },
        },
{
    match validate_rarity(vault_metadata, rarity) {
        Ok(_) => Ok(vault_metadata.mint),
        Err(e) => Err(e),
    }
}

/// The byte `#`.
pub const HASH: u8 = 35;

/// The byte `+`.
pub const PLUS: u8 = 43;

/// The byte `0`.
pub const ZERO: u8 = 48;

/// The byte `9`.
pub const NINE: u8 = 57;

/// Where the text after the last `#` begins: at the start where there is
/// no `#`.
pub open spec fn number_start(name: Seq<u8>) -> int
    decreases name.len(),
{
    if name.len() == 0 {
        0
    } else if name.last() == HASH {
        name.len() as int
    } else {
        number_start(name.drop_last())
    }
}

/// The text after the last `#`.
pub open spec fn number_text(name: Seq<u8>) -> Seq<u8> {
    name.subrange(number_start(name), name.len() as int)
}

pub open spec fn is_digit(byte: u8) -> bool {
    ZERO <= byte <= NINE
}

/// The text without a leading `+`.
pub open spec fn unsigned_part(text: Seq<u8>) -> Seq<u8> {
    if text.len() > 0 && text[0] == PLUS {
        text.drop_first()
    } else {
        text
    }
}

pub open spec fn all_digits(text: Seq<u8>) -> bool {
    forall|i: int| 0 <= i < text.len() ==> is_digit(#[trigger] text[i])
}

/// The number that decimal digits write.
pub open spec fn digits_value(digits: Seq<u8>) -> nat
    decreases digits.len(),
{
    if digits.len() == 0 {
        0
    } else {
        digits_value(digits.drop_last()) * 10 + (digits.last() - ZERO) as nat
    }
}

/// The number that a text writes: decimal digits, at least one, with `+`
/// before them or nothing, and no more than 64 bits hold.
pub open spec fn written_number(text: Seq<u8>) -> Option<u64> {
    let digits = unsigned_part(text);
    if digits.len() > 0 && all_digits(digits) && digits_value(digits) <= u64::MAX {
        Some(digits_value(digits) as u64)
    } else {
        None
    }
}

/// The number of the NFT called `name`: what is written after the last
/// `#` of the name, or by the whole name where it has no `#`.
pub open spec fn nft_number(name: Seq<u8>) -> Option<u64> {
    written_number(number_text(name))
}

/// Reads the number of the NFT called `name`.
pub fn parse_nft_number(name: &str) -> (r: Option<u64>)
    ensures
        r == nft_number(encode_utf8(name@)),
{
    let bytes: &[u8] = name.as_bytes();
    assert(bytes@ == name.spec_bytes());
    let mut start: usize = 0;
    let mut value: u64 = 0;
    let mut well_formed: bool = true;
    let mut overflow: bool = false;
    let mut n: usize = 0;
    while n < bytes.len()
        invariant
            n <= bytes@.len(),
            start == number_start(bytes@.take(n as int)),
            start <= n,
            ({
                let text = bytes@.subrange(start as int, n as int);
                let digits = unsigned_part(text);
                &&& well_formed == all_digits(digits)
                &&& well_formed ==> overflow == (digits_value(digits) > u64::MAX)
                &&& well_formed && !overflow ==> value == digits_value(digits)
            }),
        decreases bytes@.len() - n,
    {
        let byte: u8 = bytes[n];
        let ghost before = bytes@.subrange(start as int, n as int);
        proof {
            assert(bytes@.take(n as int + 1).drop_last() =~= bytes@.take(n as int));
            assert(bytes@.take(n as int + 1).last() == byte);
        }
        if byte == HASH {
            start = n + 1;
            value = 0;
            well_formed = true;
            overflow = false;
            assert(bytes@.subrange(n as int + 1, n as int + 1) =~= Seq::<u8>::empty());
        } else {
            let ghost after = bytes@.subrange(start as int, n as int + 1);
            proof {
                assert(after =~= before.push(byte));
            }
            if start == n && byte == PLUS {
                assert(unsigned_part(after) =~= Seq::<u8>::empty());
            } else {
                proof {
                    assert(unsigned_part(after) =~= unsigned_part(before).push(byte));
                    assert(unsigned_part(after).drop_last() =~= unsigned_part(before));
                }
                if !(ZERO <= byte && byte <= NINE) {
                    well_formed = false;
                    assert(!is_digit(unsigned_part(after)[unsigned_part(after).len() - 1]));
                } else {
                    proof {
                        if well_formed {
                            assert forall|i: int| 0 <= i < unsigned_part(after).len() implies is_digit(
                                #[trigger] unsigned_part(after)[i],
                            ) by {
                                if i < unsigned_part(before).len() {
                                    assert(unsigned_part(after)[i] == unsigned_part(before)[i]);
                                }
                            }
                        } else {
                            let i = choose|i: int|
                                0 <= i < unsigned_part(before).len() && !is_digit(
                                    #[trigger] unsigned_part(before)[i],
                                );
                            assert(unsigned_part(after)[i] == unsigned_part(before)[i]);
                        }
                    }
                    if !overflow {
                        let digit: u64 = (byte - ZERO) as u64;
                        match value.checked_mul(10) {
                            Some(tens) => match tens.checked_add(digit) {
                                Some(sum) => {
                                    value = sum;
                                },
                                None => {
                                    overflow = true;
                                },
                            },
                            None => {
                                overflow = true;
                            },
                        }
                    }
                }
            }
        }
        n = n + 1;
    }
    proof {
        assert(bytes@.take(n as int) =~= bytes@);
    }
    if well_formed && !overflow && n > start && !(n == start + 1 && bytes[start] == PLUS) {
        Some(value)
    } else {
        None
    }
}

impl BoostRegistry {
    /// Records the number of the NFT called `name` for a later boost.
    ///
    /// Refused with `InvalidMetadataFormat`, and nothing recorded, where
    /// the name does not end in a number.
    pub fn log_nft_number(&mut self, metadata: &Metadata) -> (r: Result<(), BurnAndTransferError>)
        ensures
            match r {
                Ok(_) => nft_number(encode_utf8(metadata.name@)) matches Some(number)
                    && final(self).boosted_nft_numbers@ == old(self).boosted_nft_numbers@.push(
                    number,
                ),
                Err(e) => e == BurnAndTransferError::InvalidMetadataFormat && nft_number(encode_utf8(metadata.name@)) is None && final(self).boosted_nft_numbers@ == old(self).boosted_nft_numbers@,
            },
    {
        match parse_nft_number(metadata.name.as_str()) {
            Some(number) => {
                self.boosted_nft_numbers.push(number);
                Ok(())
            },
            None => Err(BurnAndTransferError::InvalidMetadataFormat),
        }
    }
}

/// Whether the NFT is of this rarity, where its metadata has attributes at
/// all.
pub open spec fn rarity_test(metadata: Metadata, rarity: Seq<char>) -> Option<
    BurnAndTransferError,
> {
    match metadata.attributes {
        None => Some(BurnAndTransferError::MetadataNotFound),
        Some(attributes) => if has_attribute(attributes@, "Rarity"@, rarity) {
            None
        } else {
            Some(BurnAndTransferError::InvalidRarity)
        },
    }
}

/// Whether the ticket carries a badge.
pub open spec fn carries_badge(ticket: Metadata) -> bool {
    ticket.attributes matches Some(attributes) && has_attribute(attributes@, "Badge"@, "true"@)
}

/// Why a ticket is not traded in for the vault's NFT, if it is not. The
/// tests are made in this order and the first that fails decides: the
/// ticket's rarity, the rarity of the vault's NFT, and, for a ticket with
/// a badge, the number in the name of the vault's NFT.
pub open spec fn burn_and_transfer_rejection(
    ticket: Metadata,
    vault_nft: Metadata,
    rarity: Seq<char>,
) -> Option<BurnAndTransferError> {
    if rarity_test(ticket, rarity) is Some {
        rarity_test(ticket, rarity)
    } else if rarity_test(vault_nft, rarity) is Some {
        rarity_test(vault_nft, rarity)
    } else if carries_badge(ticket) && nft_number(encode_utf8(vault_nft.name@)) is None {
        Some(BurnAndTransferError::InvalidMetadataFormat)
    } else {
        None
    }
}

/// Decides the trade of a ticket for the vault's NFT and returns the mint
/// of the NFT that goes to the user; the ticket is to be burnt.
///
/// Both must be of the rarity `rarity`. Where the ticket carries a badge
/// the number of the vault's NFT is recorded for a later boost. A refusal
/// records nothing.
pub fn burn_and_transfer(
    ticket: &Metadata,
    vault_nft: &Metadata,
    rarity: &str,
    boost_registry: &mut BoostRegistry,
) -> (r: Result<[u8; 32], BurnAndTransferError>)
    ensures
        match r {
            Ok(mint) => {
                &&& burn_and_transfer_rejection(*ticket, *vault_nft, rarity@) is None
                &&& mint == vault_nft.mint
                &&& final(boost_registry).boosted_nft_numbers@ == if carries_badge(*ticket) {
                    old(boost_registry).boosted_nft_numbers@.push(
                        nft_number(encode_utf8(vault_nft.name@)).unwrap(),
                    )
                } else {
                    old(boost_registry).boosted_nft_numbers@
                }
            },
            Err(e) => {
                &&& burn_and_transfer_rejection(*ticket, *vault_nft, rarity@) == Some(e)
                &&& final(boost_registry).boosted_nft_numbers@ == old(
                    boost_registry,
                ).boosted_nft_numbers@
            },
        },
{
    match validate_rarity(ticket, rarity) {
        Ok(_) => {},
        Err(e) => {
            return Err(e);
        },
    }
    let has_badge: bool = match check_badge(ticket) {
        Ok(badge) => badge,
        Err(e) => {
            return Err(e);
        },
    };
    let mint: [u8; 32] = match find_nft_in_vault(vault_nft, rarity) {
        Ok(mint) => mint,
        Err(e) => {
            return Err(e);
        },
    };
    if has_badge {
        match boost_registry.log_nft_number(vault_nft) {
            Ok(_) => {},
            Err(e) => {
                return Err(e);
            },
        }
    }
    Ok(mint)
}

} // verus!
