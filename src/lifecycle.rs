use vstd::prelude::*;

use crate::derivation::{derived_address, lemma_derived_tag_reproduces};
use crate::error::RegistryError;
use crate::instructions::{create_step, set_active_step, update_step, Records};
use crate::listing::{fields_fit, ListingModel};

verus! {

/// A record as `create_listing` writes it.
pub open spec fn created_record(
    provider: Seq<u8>,
    endpoint_url: Seq<char>,
    description: Seq<char>,
    price_usd_cents: u32,
    token_mint: Seq<u8>,
    category: u8,
    logo_url: Seq<char>,
    bump: u8,
) -> ListingModel {
    ListingModel {
        provider,
        endpoint_url,
        description,
        price_usd_cents,
        token_mint,
        category,
        logo_url,
        active: true,
        bump,
    }
}

/// Two records agree on owner, endpoint and tag.
pub open spec fn same_identity(a: ListingModel, b: ListingModel) -> bool {
    &&& a.provider == b.provider
    &&& a.endpoint_url == b.endpoint_url
    &&& a.bump == b.bump
}

/// Create, update, deactivate, update again: every step succeeds, and the
/// final record is inactive, holds the content of the last update, and keeps
/// the owner, endpoint and tag that creation gave it.
pub proof fn lemma_create_update_deactivate_update(
    records: Records,
    program_id: Seq<u8>,
    provider: Seq<u8>,
    endpoint_url: Seq<char>,
    description: Seq<char>,
    price_usd_cents: u32,
    token_mint: Seq<u8>,
    category: u8,
    logo_url: Seq<char>,
    description2: Seq<char>,
    price_usd_cents2: u32,
    token_mint2: Seq<u8>,
    category2: u8,
    logo_url2: Seq<char>,
    description3: Seq<char>,
    price_usd_cents3: u32,
    token_mint3: Seq<u8>,
    category3: u8,
    logo_url3: Seq<char>,
)
    requires
        fields_fit(endpoint_url, description, logo_url),
        fields_fit(endpoint_url, description2, logo_url2),
        fields_fit(endpoint_url, description3, logo_url3),
        derived_address(program_id, provider, endpoint_url) is Some,
        !records.contains_key(derived_address(program_id, provider, endpoint_url)->Some_0.0),
    ensures
        ({
            let (address, bump) = derived_address(program_id, provider, endpoint_url)->Some_0;
            let created = create_step(
                records,
                program_id,
                provider,
                endpoint_url,
                description,
                price_usd_cents,
                token_mint,
                category,
                logo_url,
            );
            let updated = update_step(
                created.1,
                program_id,
                provider,
                address,
                endpoint_url,
                description2,
                price_usd_cents2,
                token_mint2,
                category2,
                logo_url2,
            );
            let deactivated = set_active_step(updated.1, provider, address, false);
            let last = update_step(
                deactivated.1,
                program_id,
                provider,
                address,
                endpoint_url,
                description3,
                price_usd_cents3,
                token_mint3,
                category3,
                logo_url3,
            );
            &&& created.0 is Ok
            &&& updated.0 is Ok
            &&& deactivated.0 is Ok
            &&& last.0 is Ok
            &&& last.1.contains_key(address)
            &&& last.1[address] == ListingModel {
                provider,
                endpoint_url,
                description: description3,
                price_usd_cents: price_usd_cents3,
                token_mint: token_mint3,
                category: category3,
                logo_url: logo_url3,
                active: false,
                bump,
            }
        }),
{
    lemma_derived_tag_reproduces(program_id, provider, endpoint_url);
}

/// An update by anyone but the record's owner is refused as unauthorized
/// and changes nothing.
pub proof fn lemma_update_by_stranger_refused(
    records: Records,
    program_id: Seq<u8>,
    requester: Seq<u8>,
    listing: Seq<u8>,
    endpoint_url: Seq<char>,
    description: Seq<char>,
    price_usd_cents: u32,
    token_mint: Seq<u8>,
    category: u8,
    logo_url: Seq<char>,
)
    requires
        records.contains_key(listing),
        records[listing].provider != requester,
        fields_fit(endpoint_url, description, logo_url),
    ensures
        update_step(
            records,
            program_id,
            requester,
            listing,
            endpoint_url,
            description,
            price_usd_cents,
            token_mint,
            category,
            logo_url,
        ) == (Err::<(), RegistryError>(RegistryError::Unauthorized), records),
{
}

/// A second creation for the same owner and endpoint is refused as already
/// existing, and the record keeps the values of the first.
pub proof fn lemma_create_twice_refused(
    records: Records,
    program_id: Seq<u8>,
    provider: Seq<u8>,
    endpoint_url: Seq<char>,
    description: Seq<char>,
    price_usd_cents: u32,
    token_mint: Seq<u8>,
    category: u8,
    logo_url: Seq<char>,
    description2: Seq<char>,
    price_usd_cents2: u32,
    token_mint2: Seq<u8>,
    category2: u8,
    logo_url2: Seq<char>,
)
    requires
        create_step(
            records,
            program_id,
            provider,
            endpoint_url,
            description,
            price_usd_cents,
            token_mint,
            category,
            logo_url,
        ).0 is Ok,
        fields_fit(endpoint_url, description2, logo_url2),
    ensures
        ({
            let first = create_step(
                records,
                program_id,
                provider,
                endpoint_url,
                description,
                price_usd_cents,
                token_mint,
                category,
                logo_url,
            );
            let second = create_step(
                first.1,
                program_id,
                provider,
                endpoint_url,
                description2,
                price_usd_cents2,
                token_mint2,
                category2,
                logo_url2,
            );
            let (address, bump) = derived_address(program_id, provider, endpoint_url)->Some_0;
            &&& second.0 == Err::<(), RegistryError>(RegistryError::AlreadyExists)
            &&& second.1 == first.1
            &&& second.1[address] == created_record(
                provider,
                endpoint_url,
                description,
                price_usd_cents,
                token_mint,
                category,
                logo_url,
                bump,
            )
        }),
{
}

/// Turning an active record off and on again succeeds at each step, changes
/// no field but the flag at either step, and ends with the records as they were.
pub proof fn lemma_toggle_active_keeps_fields(records: Records, provider: Seq<u8>, listing: Seq<u8>)
    requires
        records.contains_key(listing),
        records[listing].provider == provider,
        records[listing].active,
    ensures
        ({
            let off = set_active_step(records, provider, listing, false);
            let on = set_active_step(off.1, provider, listing, true);
            &&& off.0 is Ok
            &&& off.1 == records.insert(listing, records[listing].with_active(false))
            &&& on.0 is Ok
            &&& on.1 == records
        }),
{
    let off = set_active_step(records, provider, listing, false);
    let on = set_active_step(off.1, provider, listing, true);
    assert(on.1 =~= records);
}

/// A creation whose description, endpoint or logo URL is over its bound is
/// refused as too long, and no record is written.
pub proof fn lemma_create_too_long_refused(
    records: Records,
    program_id: Seq<u8>,
    provider: Seq<u8>,
    endpoint_url: Seq<char>,
    description: Seq<char>,
    price_usd_cents: u32,
    token_mint: Seq<u8>,
    category: u8,
    logo_url: Seq<char>,
)
    requires
        !fields_fit(endpoint_url, description, logo_url),
    ensures
        create_step(
            records,
            program_id,
            provider,
            endpoint_url,
            description,
            price_usd_cents,
            token_mint,
            category,
            logo_url,
        ) == (Err::<(), RegistryError>(RegistryError::FieldTooLong), records),
{
}

/// The owner, endpoint and tag of a record never change: an update or a
/// change of flag keeps them in every record, and keeps every address.
pub proof fn lemma_identity_fields_kept(
    records: Records,
    program_id: Seq<u8>,
    provider: Seq<u8>,
    listing: Seq<u8>,
    endpoint_url: Seq<char>,
    description: Seq<char>,
    price_usd_cents: u32,
    token_mint: Seq<u8>,
    category: u8,
    logo_url: Seq<char>,
    active: bool,
)
    ensures
        ({
            let updated = update_step(
                records,
                program_id,
                provider,
                listing,
                endpoint_url,
                description,
                price_usd_cents,
                token_mint,
                category,
                logo_url,
            ).1;
            let flagged = set_active_step(records, provider, listing, active).1;
            &&& updated.dom() == records.dom()
            &&& flagged.dom() == records.dom()
            &&& forall|a: Seq<u8>| #[trigger]
                records.contains_key(a) ==> same_identity(records[a], updated[a]) && same_identity(
                    records[a],
                    flagged[a],
                )
        }),
{
    let updated = update_step(
        records,
        program_id,
        provider,
        listing,
        endpoint_url,
        description,
        price_usd_cents,
        token_mint,
        category,
        logo_url,
    ).1;
    let flagged = set_active_step(records, provider, listing, active).1;
    assert(updated.dom() =~= records.dom());
    assert(flagged.dom() =~= records.dom());
}

} // verus!
