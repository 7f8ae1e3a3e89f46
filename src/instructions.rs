use vstd::prelude::*;

use crate::derivation::{
    address_for_bump, address_with_bump, derived_address, lemma_derived_tag_reproduces,
};
use crate::error::RegistryError;
use crate::key::PublicKey;
use crate::listing::{check_field_lengths, fields_fit, ApiListing, ListingModel};
use crate::store::ListingStore;

verus! {

/// The records of a store, by address.
pub type Records = Map<Seq<u8>, ListingModel>;

/// The outcome of an operation: its result and the records after it.
pub type Step = (Result<(), RegistryError>, Records);

/// The request to create a listing, made on behalf of `provider`.
pub struct CreateListing {
    pub provider: PublicKey,
}

/// The request to update the listing at `listing`, made on behalf of `provider`.
pub struct UpdateListing {
    pub provider: PublicKey,
    pub listing: PublicKey,
}

/// The request to set the flag of the listing at `listing`, made on behalf of `provider`.
pub struct SetActive {
    pub provider: PublicKey,
    pub listing: PublicKey,
}

/// What `create_listing` does: check the bounds, derive the address, refuse
/// an occupied one, and place a new active record there.
pub open spec fn create_step(
    records: Records,
    program_id: Seq<u8>,
    provider: Seq<u8>,
    endpoint_url: Seq<char>,
    description: Seq<char>,
    price_usd_cents: u32,
    token_mint: Seq<u8>,
    category: u8,
    logo_url: Seq<char>,
) -> Step {
    if !fields_fit(endpoint_url, description, logo_url) {
        (Err(RegistryError::FieldTooLong), records)
    } else {
        match derived_address(program_id, provider, endpoint_url) {
            None => (Err(RegistryError::DerivationExhausted), records),
            Some((address, bump)) => if records.contains_key(address) {
                (Err(RegistryError::AlreadyExists), records)
            } else {
                (
                    Ok(()),
                    records.insert(
                        address,
                        ListingModel {
                            provider,
                            endpoint_url,
                            description,
                            price_usd_cents,
                            token_mint,
                            category,
                            logo_url,
                            active: true,
                            bump,
                        },
                    ),
                )
            },
        }
    }
}

/// What `update_listing` does: check the bounds, load the record, check its
/// owner, check that the address is the one derived from the requester, the
/// endpoint and the stored tag, and replace the mutable content.
pub open spec fn update_step(
    records: Records,
    program_id: Seq<u8>,
    provider: Seq<u8>,
    listing: Seq<u8>,
    endpoint_url: Seq<char>,
    description: Seq<char>,
    price_usd_cents: u32,
    token_mint: Seq<u8>,
    category: u8,
    logo_url: Seq<char>,
) -> Step {
    if !fields_fit(endpoint_url, description, logo_url) {
        (Err(RegistryError::FieldTooLong), records)
    } else if !records.contains_key(listing) {
        (Err(RegistryError::RecordNotFound), records)
    } else if records[listing].provider != provider {
        (Err(RegistryError::Unauthorized), records)
    } else if address_with_bump(program_id, provider, endpoint_url, records[listing].bump) != Some(
        listing,
    ) {
        (Err(RegistryError::AddressMismatch), records)
    } else {
        (
            Ok(()),
            records.insert(
                listing,
                records[listing].with_content(
                    description,
                    price_usd_cents,
                    token_mint,
                    category,
                    logo_url,
                ),
            ),
        )
    }
}

/// What `set_active` does: load the record, check its owner, set the flag.
pub open spec fn set_active_step(
    records: Records,
    provider: Seq<u8>,
    listing: Seq<u8>,
    active: bool,
) -> Step {
    if !records.contains_key(listing) {
        (Err(RegistryError::RecordNotFound), records)
    } else if records[listing].provider != provider {
        (Err(RegistryError::Unauthorized), records)
    } else {
        (Ok(()), records.insert(listing, records[listing].with_active(active)))
    }
}

/// Publishes a new listing of `ctx.provider` for `endpoint_url`, active, at
/// the address derived from the two.
pub fn create_listing(
    ctx: &CreateListing,
    store: &mut ListingStore,
    endpoint_url: String,
    description: String,
    price_usd_cents: u32,
    token_mint: PublicKey,
    category: u8,
    logo_url: String,
) -> (r: Result<(), RegistryError>)
    requires
        old(store).wf(),
    ensures
        final(store).wf(),
        final(store).program() == old(store).program(),
        (r, final(store)@) == create_step(
            old(store)@,
            old(store).program(),
            ctx.provider@,
            endpoint_url@,
            description@,
            price_usd_cents,
            token_mint@,
            category,
            logo_url@,
        ),
{
    if !check_field_lengths(endpoint_url.as_str(), description.as_str(), logo_url.as_str()) {
        return Err(RegistryError::FieldTooLong);
    }
    let program_id = store.program_id();
    let derived = crate::derivation::derive(&program_id, &ctx.provider, endpoint_url.as_str());
    let (address, bump) = match derived {
        Ok(found) => found,
        Err(e) => {
            return Err(e);
        },
    };
    if store.contains(&address) {
        return Err(RegistryError::AlreadyExists);
    }
    let listing = ApiListing {
        provider: ctx.provider,
        endpoint_url,
        description,
        price_usd_cents,
        token_mint,
        category,
        logo_url,
        active: true,
        bump,
    };
    proof {
        lemma_derived_tag_reproduces(store.program(), ctx.provider@, listing@.endpoint_url);
    }
    store.insert_new(address, listing);
    Ok(())
}

/// Replaces the description, price, payment token, category and logo URL of
/// the listing at `ctx.listing`, on behalf of its owner.
pub fn update_listing(
    ctx: &UpdateListing,
    store: &mut ListingStore,
    endpoint_url: String,
    description: String,
    price_usd_cents: u32,
    token_mint: PublicKey,
    category: u8,
    logo_url: String,
) -> (r: Result<(), RegistryError>)
    requires
        old(store).wf(),
    ensures
        final(store).wf(),
        final(store).program() == old(store).program(),
        (r, final(store)@) == update_step(
            old(store)@,
            old(store).program(),
            ctx.provider@,
            ctx.listing@,
            endpoint_url@,
            description@,
            price_usd_cents,
            token_mint@,
            category,
            logo_url@,
        ),
{
    if !check_field_lengths(endpoint_url.as_str(), description.as_str(), logo_url.as_str()) {
        return Err(RegistryError::FieldTooLong);
    }
    let bump = match store.get(&ctx.listing) {
        None => {
            return Err(RegistryError::RecordNotFound);
        },
        Some(listing) => {
            if listing.provider != ctx.provider {
                return Err(RegistryError::Unauthorized);
            }
            listing.bump
        },
    };
    let program_id = store.program_id();
    match address_for_bump(&program_id, &ctx.provider, endpoint_url.as_str(), bump) {
        Some(address) => {
            if address != ctx.listing {
                return Err(RegistryError::AddressMismatch);
            }
        },
        None => {
            return Err(RegistryError::AddressMismatch);
        },
    }
    store.replace_content(
        &ctx.listing,
        description,
        price_usd_cents,
        token_mint,
        category,
        logo_url,
    );
    Ok(())
}

/// Sets the flag of the listing at `ctx.listing`, on behalf of its owner.
pub fn set_active(ctx: &SetActive, store: &mut ListingStore, active: bool) -> (r: Result<
    (),
    RegistryError,
>)
    requires
        old(store).wf(),
    ensures
        final(store).wf(),
        final(store).program() == old(store).program(),
        (r, final(store)@) == set_active_step(old(store)@, ctx.provider@, ctx.listing@, active),
{
    match store.get(&ctx.listing) {
        None => {
            return Err(RegistryError::RecordNotFound);
        },
        Some(listing) => {
            if listing.provider != ctx.provider {
                return Err(RegistryError::Unauthorized);
            }
        },
    }
    store.replace_active(&ctx.listing, active);
    Ok(())
}

} // verus!
