//! The registry's laws: properties of the operations in [`crate::model`],
//! stated over whole states and proved once and for all. The executable
//! operations in [`crate::registry`] are tied to those spec functions by
//! their contracts, so each law holds of the running code as well.

use vstd::prelude::*;

use crate::asset::AssetView;
use crate::error::Error;
use crate::model::{
    buy_spec, create_spec, delete_spec, has_id, ids_sorted, idx_of, lemma_idx_of,
    list_for_sale_spec, wf, wipe_spec, RegistryView, FIRST_ASSET_ID,
};

verus! {

/// In a well-formed state no two live assets share an id.
pub proof fn lemma_live_ids_unique(v: RegistryView)
    requires
        wf(v),
    ensures
        forall|i: int, j: int|
            0 <= i < v.assets.len() && 0 <= j < v.assets.len() && i != j ==> v.assets[i].id
                != v.assets[j].id,
{
}

/// Creation allocates a fresh id: the new id is the counter's value,
/// strictly greater than every id live before the call and absent from the
/// store until the call, and the counter strictly increases. So over any
/// sequence of creations every returned id is unique and strictly greater
/// than all earlier ones, until a wipe resets the counter.
pub proof fn lemma_create_allocates_fresh_id(
    v: RegistryView,
    caller: Seq<u8>,
    name: Seq<char>,
    description: Seq<char>,
    price: u64,
    image: Seq<char>,
)
    requires
        wf(v),
        v.next_id < u64::MAX,
    ensures
        ({
            let (a, v2) = create_spec(v, caller, name, description, price, image);
            &&& a.id == v.next_id
            &&& !has_id(v.assets, a.id)
            &&& has_id(v2.assets, a.id)
            &&& forall|i: int| 0 <= i < v.assets.len() ==> v.assets[i].id < a.id
            &&& v2.next_id > v.next_id
            &&& wf(v2)
        }),
{
    let (a, v2) = create_spec(v, caller, name, description, price, image);
    assert(v2.assets[v.assets.len() as int].id == a.id);
    assert(has_id(v2.assets, a.id));
}

/// A purchase of a listed asset by an identity other than its owner
/// succeeds exactly once: the first call transfers ownership to the buyer
/// and takes the asset off sale, and a second identical call fails with
/// `NotForSale` and changes nothing.
pub proof fn lemma_buy_succeeds_exactly_once(v: RegistryView, caller: Seq<u8>, asset_id: u64)
    requires
        wf(v),
        has_id(v.assets, asset_id),
        v.assets[idx_of(v.assets, asset_id)].for_sale,
        v.assets[idx_of(v.assets, asset_id)].owner != caller,
    ensures
        ({
            let i = idx_of(v.assets, asset_id);
            let (r1, v1) = buy_spec(v, caller, asset_id);
            let (r2, v2) = buy_spec(v1, caller, asset_id);
            &&& r1 == Ok::<AssetView, Error>(
                AssetView { owner: caller, for_sale: false, ..v.assets[i] },
            )
            &&& wf(v1)
            &&& r2 == Err::<AssetView, Error>(Error::NotForSale)
            &&& v2 == v1
        }),
{
    let i = idx_of(v.assets, asset_id);
    let (r1, v1) = buy_spec(v, caller, asset_id);
    assert(ids_sorted(v1.assets));
    lemma_idx_of(v1.assets, asset_id, i);
}

/// A purchase of a listed asset by its current owner always fails with
/// `AlreadyOwner` and leaves the state unchanged. (On an asset that is not
/// listed the same call fails with `NotForSale` instead, so that input is
/// left out here.)
pub proof fn lemma_buy_by_owner_fails(v: RegistryView, caller: Seq<u8>, asset_id: u64)
    requires
        wf(v),
        has_id(v.assets, asset_id),
        v.assets[idx_of(v.assets, asset_id)].for_sale,
        v.assets[idx_of(v.assets, asset_id)].owner == caller,
    ensures
        buy_spec(v, caller, asset_id).0 == Err::<AssetView, Error>(Error::AlreadyOwner),
        buy_spec(v, caller, asset_id).1 == v,
{
}

/// Listing for sale by an identity that does not own the asset fails with
/// `NotOwner` and performs no mutation.
pub proof fn lemma_list_for_sale_by_non_owner_unchanged(
    v: RegistryView,
    caller: Seq<u8>,
    asset_id: u64,
    price: u64,
)
    requires
        wf(v),
        has_id(v.assets, asset_id),
        v.assets[idx_of(v.assets, asset_id)].owner != caller,
    ensures
        list_for_sale_spec(v, caller, asset_id, price).0 == Err::<AssetView, Error>(
            Error::NotOwner,
        ),
        list_for_sale_spec(v, caller, asset_id, price).1 == v,
{
}

/// Deletion by an identity that does not own the asset fails with
/// `NotOwner` and performs no mutation.
pub proof fn lemma_delete_by_non_owner_unchanged(v: RegistryView, caller: Seq<u8>, asset_id: u64)
    requires
        wf(v),
        has_id(v.assets, asset_id),
        v.assets[idx_of(v.assets, asset_id)].owner != caller,
    ensures
        delete_spec(v, caller, asset_id).0 == Err::<(), Error>(Error::NotOwner),
        delete_spec(v, caller, asset_id).1 == v,
{
}

/// Deletion by the owner removes the record for good: the call succeeds,
/// the id is gone from the store, and any later purchase under that id
/// fails with `NotFound`.
pub proof fn lemma_delete_by_owner_removes(v: RegistryView, caller: Seq<u8>, asset_id: u64)
    requires
        wf(v),
        has_id(v.assets, asset_id),
        v.assets[idx_of(v.assets, asset_id)].owner == caller,
    ensures
        ({
            let (r1, v1) = delete_spec(v, caller, asset_id);
            &&& r1 == Ok::<(), Error>(())
            &&& wf(v1)
            &&& v1.assets.len() == v.assets.len() - 1
            &&& !has_id(v1.assets, asset_id)
            &&& forall|c: Seq<u8>| (#[trigger] buy_spec(v1, c, asset_id)).0 == Err::<
                AssetView,
                Error,
            >(Error::NotFound)
        }),
{
    let i = idx_of(v.assets, asset_id);
    let (r1, v1) = delete_spec(v, caller, asset_id);
    assert forall|k: int| 0 <= k < v1.assets.len() implies v1.assets[k].id != asset_id by {
        if k < i {
            assert(v.assets[k].id < v.assets[i].id);
        } else {
            assert(v1.assets[k] == v.assets[k + 1]);
            assert(v.assets[i].id < v.assets[k + 1].id);
        }
    }
}

/// The store-wide wipe, made by the administrator, empties the store
/// entirely: a listing afterwards sees the empty sequence, and the next
/// creation, by anyone, allocates the initial id again.
pub proof fn lemma_wipe_resets(v: RegistryView, caller: Seq<u8>)
    requires
        caller == v.admin,
    ensures
        ({
            let (r1, v1) = wipe_spec(v, caller);
            &&& r1 == Ok::<(), Error>(())
            &&& v1.assets == Seq::<AssetView>::empty()
            &&& v1.next_id == FIRST_ASSET_ID
            &&& wf(v1)
            &&& forall|c: Seq<u8>, n: Seq<char>, d: Seq<char>, p: u64, im: Seq<char>| (
            #[trigger] create_spec(v1, c, n, d, p, im)).0.id == FIRST_ASSET_ID
        }),
{
}

} // verus!

