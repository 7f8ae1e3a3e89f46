use vstd::prelude::*;
use vstd::utf8::encode_utf8;

use crate::key::PublicKey;

verus! {

/// Largest endpoint, in UTF-8 bytes.
pub const MAX_ENDPOINT_LEN: usize = 128;

/// Largest description, in UTF-8 bytes.
pub const MAX_DESCRIPTION_LEN: usize = 256;

/// Largest logo URL, in UTF-8 bytes.
pub const MAX_LOGO_URL_LEN: usize = 128;

/// Bytes that precede a record's fields in its storage slot.
pub const DISCRIMINATOR_LEN: usize = 8;

/// Number of UTF-8 bytes that encode `s`.
pub open spec fn byte_len(s: Seq<char>) -> int {
    encode_utf8(s).len() as int
}

/// The three string fields of a listing are within their bounds.
pub open spec fn fields_fit(
    endpoint: Seq<char>,
    description: Seq<char>,
    logo_url: Seq<char>,
) -> bool {
    &&& byte_len(endpoint) <= MAX_ENDPOINT_LEN
    &&& byte_len(description) <= MAX_DESCRIPTION_LEN
    &&& byte_len(logo_url) <= MAX_LOGO_URL_LEN
}

/// Number of UTF-8 bytes in `s`.
pub fn utf8_len(s: &str) -> (r: usize)
    ensures
        r == byte_len(s@),
{
    s.as_bytes().len()
}

/// Checks the bounds on the three string fields of a listing.
pub fn check_field_lengths(endpoint: &str, description: &str, logo_url: &str) -> (r: bool)
    ensures
        r == fields_fit(endpoint@, description@, logo_url@),
{
    utf8_len(endpoint) <= MAX_ENDPOINT_LEN && utf8_len(description) <= MAX_DESCRIPTION_LEN
        && utf8_len(logo_url) <= MAX_LOGO_URL_LEN
}

/// What a listing record holds, as mathematical values.
pub struct ListingModel {
    pub provider: Seq<u8>,
    pub endpoint_url: Seq<char>,
    pub description: Seq<char>,
    pub price_usd_cents: u32,
    pub token_mint: Seq<u8>,
    pub category: u8,
    pub logo_url: Seq<char>,
    pub active: bool,
    pub bump: u8,
}

/// A published service listing.
pub struct ApiListing {
    /// The provider that published the listing; never changes.
    pub provider: PublicKey,
    /// The service address; part of the record's derivation key, never changes.
    pub endpoint_url: String,
    pub description: String,
    /// Price in minor currency units; metadata only.
    pub price_usd_cents: u32,
    /// The accepted payment token.
    pub token_mint: PublicKey,
    pub category: u8,
    pub logo_url: String,
    /// Whether the listing is live; the soft-delete flag.
    pub active: bool,
    /// The derivation tag fixed when the record was created.
    pub bump: u8,
}

impl View for ApiListing {
    type V = ListingModel;

    open spec fn view(&self) -> ListingModel {
        ListingModel {
            provider: self.provider@,
            endpoint_url: self.endpoint_url@,
            description: self.description@,
            price_usd_cents: self.price_usd_cents,
            token_mint: self.token_mint@,
            category: self.category,
            logo_url: self.logo_url@,
            active: self.active,
            bump: self.bump,
        }
    }
}

impl ListingModel {
    /// The record's string fields are within their bounds.
    pub open spec fn fits(self) -> bool {
        fields_fit(self.endpoint_url, self.description, self.logo_url)
    }

    /// The record with its mutable content replaced; owner, endpoint, flag and tag kept.
    pub open spec fn with_content(
        self,
        description: Seq<char>,
        price_usd_cents: u32,
        token_mint: Seq<u8>,
        category: u8,
        logo_url: Seq<char>,
    ) -> ListingModel {
        ListingModel { description, price_usd_cents, token_mint, category, logo_url, ..self }
    }

    /// The record with its flag set to `active`.
    pub open spec fn with_active(self, active: bool) -> ListingModel {
        ListingModel { active, ..self }
    }
}

impl ApiListing {
    /// Size of the serialized fields at their largest: provider, endpoint
    /// (length prefix and bytes), description, price, token, category, logo
    /// URL, flag and tag.
    pub const MAX_SIZE: usize = 32 + 4 + 128 + 4 + 256 + 4 + 32 + 1 + 4 + 128 + 1 + 1;

    /// Bytes allocated for every record, whatever its content.
    pub const SPACE: usize = DISCRIMINATOR_LEN + ApiListing::MAX_SIZE;
}

} // verus!
