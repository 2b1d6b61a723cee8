//! The registry's mathematical model.
//!
//! A registry state is a [`RegistryView`]: the administrator's identity, the
//! live assets in ascending id order, and the id the next creation will
//! receive. Each operation of the registry is described here by a total
//! spec function from a state and the caller's identity to the result and
//! the successor state; the executable operations in [`crate::registry`]
//! are proved to follow these functions exactly, and the laws in
//! [`crate::laws`] are proved about them.

use vstd::prelude::*;

use crate::asset::AssetView;
use crate::error::Error;

verus! {

/// The id allocated to the first asset created, and again after a wipe.
pub const FIRST_ASSET_ID: u64 = 1;

/// The mathematical value of a whole registry.
#[verifier::ext_equal]
pub ghost struct RegistryView {
    /// The identity allowed to wipe the store.
    pub admin: Seq<u8>,
    /// The live assets, in ascending id order.
    pub assets: Seq<AssetView>,
    /// The id the next creation will receive.
    pub next_id: u64,
}

/// Whether some live asset carries the id `id`.
pub open spec fn has_id(s: Seq<AssetView>, id: u64) -> bool {
    exists|i: int| 0 <= i < s.len() && s[i].id == id
}

/// The position of the asset carrying `id`; meaningful when `has_id(s, id)`.
pub open spec fn idx_of(s: Seq<AssetView>, id: u64) -> int {
    choose|i: int| 0 <= i < s.len() && s[i].id == id
}

/// Ids strictly increase along the sequence, so every id occurs at most once.
pub open spec fn ids_sorted(s: Seq<AssetView>) -> bool {
    forall|i: int, j: int| 0 <= i < j < s.len() ==> s[i].id < s[j].id
}

/// Every live id lies below the allocation counter, so the next id is fresh.
pub open spec fn ids_below(s: Seq<AssetView>, next_id: u64) -> bool {
    forall|i: int| 0 <= i < s.len() ==> s[i].id < next_id
}

/// Well-formedness of a registry state. Constructors establish it and every
/// operation preserves it.
pub open spec fn wf(v: RegistryView) -> bool {
    &&& ids_sorted(v.assets)
    &&& ids_below(v.assets, v.next_id)
    &&& v.next_id >= FIRST_ASSET_ID
}

/// What creation does: allocate the counter's value as the id, append a
/// record owned and created by the caller, listed for sale, and advance the
/// counter.
pub open spec fn create_spec(
    v: RegistryView,
    caller: Seq<u8>,
    name: Seq<char>,
    description: Seq<char>,
    price: u64,
    image: Seq<char>,
) -> (AssetView, RegistryView) {
    let a = AssetView {
        id: v.next_id,
        name: name,
        description: description,
        creator: caller,
        owner: caller,
        price: price,
        for_sale: true,
        image: image,
    };
    let v2 = RegistryView {
        admin: v.admin,
        assets: v.assets.push(a),
        next_id: (v.next_id + 1) as u64,
    };
    (a, v2)
}

/// What a purchase does: fail with `NotFound` on an unknown id, `NotForSale`
/// on an unlisted asset, `AlreadyOwner` when the caller holds it already;
/// otherwise transfer ownership to the caller and take the asset off sale.
/// On failure the state is unchanged.
pub open spec fn buy_spec(v: RegistryView, caller: Seq<u8>, asset_id: u64) -> (Result<
    AssetView,
    Error,
>, RegistryView) {
    if !has_id(v.assets, asset_id) {
        (Err(Error::NotFound), v)
    } else {
        let i = idx_of(v.assets, asset_id);
        let a = v.assets[i];
        if !a.for_sale {
            (Err(Error::NotForSale), v)
        } else if a.owner == caller {
            (Err(Error::AlreadyOwner), v)
        } else {
            let b = AssetView { owner: caller, for_sale: false, ..a };
            let v2 = RegistryView { assets: v.assets.update(i, b), ..v };
            (Ok(b), v2)
        }
    }
}

/// What listing for sale does: fail with `NotFound` on an unknown id,
/// `NotOwner` when the caller does not own the asset; otherwise put the
/// asset up for sale at the given price. On failure the state is unchanged.
pub open spec fn list_for_sale_spec(
    v: RegistryView,
    caller: Seq<u8>,
    asset_id: u64,
    price: u64,
) -> (Result<AssetView, Error>, RegistryView) {
    if !has_id(v.assets, asset_id) {
        (Err(Error::NotFound), v)
    } else {
        let i = idx_of(v.assets, asset_id);
        let a = v.assets[i];
        if a.owner != caller {
            (Err(Error::NotOwner), v)
        } else {
            let b = AssetView { for_sale: true, price: price, ..a };
            let v2 = RegistryView { assets: v.assets.update(i, b), ..v };
            (Ok(b), v2)
        }
    }
}

/// What deletion does: fail with `NotFound` on an unknown id, `NotOwner`
/// when the caller does not own the asset; otherwise remove the record for
/// good. On failure the state is unchanged.
pub open spec fn delete_spec(v: RegistryView, caller: Seq<u8>, asset_id: u64) -> (Result<
    (),
    Error,
>, RegistryView) {
    if !has_id(v.assets, asset_id) {
        (Err(Error::NotFound), v)
    } else {
        let i = idx_of(v.assets, asset_id);
        let a = v.assets[i];
        if a.owner != caller {
            (Err(Error::NotOwner), v)
        } else {
            let v2 = RegistryView { assets: v.assets.remove(i), ..v };
            (Ok(()), v2)
        }
    }
}

/// What the store-wide wipe does: for the administrator, empty the store
/// and reset the allocation counter to its initial value; for anyone else,
/// fail with `NotOwner` and change nothing.
pub open spec fn wipe_spec(v: RegistryView, caller: Seq<u8>) -> (Result<(), Error>, RegistryView) {
    if caller == v.admin {
        let v2 = RegistryView { admin: v.admin, assets: Seq::empty(), next_id: FIRST_ASSET_ID };
        (Ok(()), v2)
    } else {
        (Err(Error::NotOwner), v)
    }
}

/// In a sequence of distinct ids, `idx_of` finds exactly the position that
/// carries the id.
pub proof fn lemma_idx_of(s: Seq<AssetView>, asset_id: u64, i: int)
    requires
        ids_sorted(s),
        0 <= i < s.len(),
        s[i].id == asset_id,
    ensures
        has_id(s, asset_id),
        idx_of(s, asset_id) == i,
{
    assert(has_id(s, asset_id));
    let j = idx_of(s, asset_id);
    if j < i {
        assert(s[j].id < s[i].id);
    } else if j > i {
        assert(s[i].id < s[j].id);
    }
}

} // verus!
