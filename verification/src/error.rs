//! The registry's error taxonomy.

use vstd::prelude::*;

verus! {

/// Why a registry operation was refused. Every failure is a typed result;
/// a failed operation leaves the store unchanged.
#[derive(Clone, Copy, Debug, PartialEq, Eq, Structural)]
pub enum Error {
    /// The referenced asset id does not exist in the store.
    NotFound,
    /// A purchase was attempted on an asset that is not listed for sale.
    NotForSale,
    /// A purchase was attempted by the identity that already owns the asset.
    AlreadyOwner,
    /// A mutation was attempted by an identity that does not own the asset
    /// (or, for the store-wide wipe, is not the administrator).
    NotOwner,
}

} // verus!
