//! A directory of service listings. Each listing lives at an address derived
//! from its provider's key and its endpoint string; only the provider may
//! change it.

pub mod derivation;
pub mod error;
pub mod instructions;
pub mod key;
pub mod lifecycle;
pub mod listing;
pub mod store;

pub use error::RegistryError;
pub use instructions::{
    create_listing, set_active, update_listing, CreateListing, SetActive, UpdateListing,
};
pub use key::PublicKey;
pub use listing::ApiListing;
pub use store::ListingStore;
