//! The asset registry: the store of live assets plus the operations that
//! create, transfer, list and delete them under caller-identity-based
//! access control.
//!
//! The registry is an explicitly constructed object; the authenticated
//! identity of the caller is passed into each operation by the hosting
//! environment. The store keeps its assets in ascending id order, so
//! listing is deterministic.

use vstd::prelude::*;

use crate::asset::{Asset, AssetView};
use crate::error::Error;
use crate::identity::Principal;
use crate::model::{
    buy_spec, create_spec, delete_spec, has_id, lemma_idx_of, list_for_sale_spec, wf, wipe_spec,
    RegistryView, FIRST_ASSET_ID,
};

verus! {

/// The authoritative record of ownership for a set of digital assets.
///
/// Holds the `id -> asset` association (as a vector in ascending id order)
/// and the monotonic allocation counter. Ids are never reused while the
/// store lives; only a store-wide wipe resets the counter.
pub struct Registry {
    admin: Principal,
    assets: Vec<Asset>,
    next_id: u64,
}

impl View for Registry {
    type V = RegistryView;

    closed spec fn view(&self) -> RegistryView {
        RegistryView {
            admin: self.admin@,
            assets: self.assets@.map_values(|a: Asset| a@),
            next_id: self.next_id,
        }
    }
}

impl Registry {
    /// Every registry value is well-formed; `use_type_invariant` hands a
    /// caller this fact, which is what the laws in [`crate::laws`] ask of a
    /// state.
    #[verifier::type_invariant]
    pub open spec fn inv(self) -> bool {
        wf(self@)
    }

    /// An empty registry. `admin` is the one identity allowed to wipe the
    /// store; the first asset created will receive [`FIRST_ASSET_ID`].
    pub fn new(admin: Principal) -> (r: Registry)
        ensures
            r@.admin == admin@,
            r@.assets == Seq::<AssetView>::empty(),
            r@.next_id == FIRST_ASSET_ID,
    {
        let r = Registry { admin, assets: Vec::new(), next_id: FIRST_ASSET_ID };
        proof {
            assert(r@.assets =~= Seq::<AssetView>::empty());
        }
        r
    }

    /// The id the next creation will receive.
    pub fn next_id(&self) -> (id: u64)
        ensures
            id == self@.next_id,
    {
        self.next_id
    }

    /// The position of the asset carrying `asset_id`, if any.
    fn find_index(&self, asset_id: u64) -> (r: Option<usize>)
        ensures
            match r {
                Some(i) => {
                    &&& i < self.assets@.len()
                    &&& i < self@.assets.len()
                    &&& self@.assets[i as int].id == asset_id
                },
                None => !has_id(self@.assets, asset_id),
            },
    {
        let n = self.assets.len();
        let mut j: usize = 0;
        while j < n
            invariant
                n == self.assets@.len(),
                j <= n,
                forall|k: int| 0 <= k < j ==> self@.assets[k].id != asset_id,
            decreases n - j,
        {
            if self.assets[j].id == asset_id {
                return Some(j);
            }
            j += 1;
        }
        None
    }

    /// Creates a new asset owned and created by `caller`, listed for sale
    /// at `price`, under a fresh id, and returns a copy of the record.
    ///
    /// The text fields are stored as given; validating them is a non-goal.
    pub fn create_asset(
        &mut self,
        caller: Principal,
        name: String,
        description: String,
        price: u64,
        image: String,
    ) -> (a: Asset)
        requires
            old(self)@.next_id < u64::MAX,
        ensures
            ({
                let (av, v2) = create_spec(
                    old(self)@,
                    caller@,
                    name@,
                    description@,
                    price,
                    image@,
                );
                &&& a@ == av
                &&& final(self)@ == v2
            }),
    {
        proof {
            use_type_invariant(&*self);
        }
        let ghost v_old = self@;
        let id = self.next_id;
        self.next_id = id + 1;
        let asset = Asset {
            id,
            name,
            description,
            creator: caller.clone(),
            owner: caller,
            price,
            for_sale: true,
            image,
        };
        let mut assets: Vec<Asset> = Vec::new();
        core::mem::swap(&mut assets, &mut self.assets);
        assets.push(asset.clone());
        proof {
            assert(assets@.map_values(|x: Asset| x@) =~= v_old.assets.push(asset@));
        }
        self.assets = assets;
        proof {
            let (av, v2) = create_spec(v_old, asset@.creator, asset@.name, asset@.description,
                price, asset@.image);
            assert(asset@ =~= av);
            assert(self@ =~= v2);
        }
        asset
    }

    /// Transfers the asset to `caller` and takes it off sale.
    ///
    /// Fails with `NotFound` on an unknown id, `NotForSale` when the asset
    /// is not listed, and `AlreadyOwner` when `caller` holds it already; a
    /// failure leaves the store unchanged. No currency moves: payment
    /// settlement is a non-goal. On success a copy of the updated record is
    /// returned.
    pub fn buy_asset(&mut self, caller: &Principal, asset_id: u64) -> (r: Result<Asset, Error>)
        ensures
            ({
                let (r0, v2) = buy_spec(old(self)@, caller@, asset_id);
                &&& final(self)@ == v2
                &&& (match r {
                    Ok(a) => r0 == Ok::<AssetView, Error>(a@),
                    Err(e) => r0 == Err::<AssetView, Error>(e),
                })
            }),
    {
        proof {
            use_type_invariant(&*self);
        }
        let ghost v_old = self@;
        match self.find_index(asset_id) {
            None => Err(Error::NotFound),
            Some(i) => {
                proof {
                    lemma_idx_of(v_old.assets, asset_id, i as int);
                }
                if !self.assets[i].for_sale {
                    Err(Error::NotForSale)
                } else if self.assets[i].owner.equals(caller) {
                    Err(Error::AlreadyOwner)
                } else {
                    let mut assets: Vec<Asset> = Vec::new();
                    core::mem::swap(&mut assets, &mut self.assets);
                    let mut b = assets[i].clone();
                    b.owner = caller.clone();
                    b.for_sale = false;
                    let result = b.clone();
                    assets[i] = b;
                    proof {
                        let bv = AssetView {
                            owner: caller@,
                            for_sale: false,
                            ..v_old.assets[i as int]
                        };
                        assert(result@ =~= bv);
                        assert(assets@.map_values(|x: Asset| x@) =~= v_old.assets.update(
                            i as int,
                            bv,
                        ));
                    }
                    self.assets = assets;
                    proof {
                        let (r0, v2) = buy_spec(v_old, caller@, asset_id);
                        assert(self@ =~= v2);
                    }
                    Ok(result)
                }
            },
        }
    }

    /// Puts the asset up for sale at `price`.
    ///
    /// Fails with `NotFound` on an unknown id and `NotOwner` when `caller`
    /// does not own the asset; a failure leaves the store unchanged. On
    /// success a copy of the updated record is returned.
    pub fn list_for_sale(&mut self, caller: &Principal, asset_id: u64, price: u64) -> (r: Result<
        Asset,
        Error,
    >)
        ensures
            ({
                let (r0, v2) = list_for_sale_spec(old(self)@, caller@, asset_id, price);
                &&& final(self)@ == v2
                &&& (match r {
                    Ok(a) => r0 == Ok::<AssetView, Error>(a@),
                    Err(e) => r0 == Err::<AssetView, Error>(e),
                })
            }),
    {
        proof {
            use_type_invariant(&*self);
        }
        let ghost v_old = self@;
        match self.find_index(asset_id) {
            None => Err(Error::NotFound),
            Some(i) => {
                proof {
                    lemma_idx_of(v_old.assets, asset_id, i as int);
                }
                if !self.assets[i].owner.equals(caller) {
                    Err(Error::NotOwner)
                } else {
                    let mut assets: Vec<Asset> = Vec::new();
                    core::mem::swap(&mut assets, &mut self.assets);
                    let mut b = assets[i].clone();
                    b.for_sale = true;
                    b.price = price;
                    let result = b.clone();
                    assets[i] = b;
                    proof {
                        let bv = AssetView { for_sale: true, price, ..v_old.assets[i as int] };
                        assert(result@ =~= bv);
                        assert(assets@.map_values(|x: Asset| x@) =~= v_old.assets.update(
                            i as int,
                            bv,
                        ));
                    }
                    self.assets = assets;
                    proof {
                        let (r0, v2) = list_for_sale_spec(v_old, caller@, asset_id, price);
                        assert(self@ =~= v2);
                    }
                    Ok(result)
                }
            },
        }
    }

    /// Permanently removes the asset; its id is never reassigned.
    ///
    /// Fails with `NotFound` on an unknown id and `NotOwner` when `caller`
    /// does not own the asset; a failure leaves the store unchanged.
    pub fn delete_asset(&mut self, caller: &Principal, asset_id: u64) -> (r: Result<(), Error>)
        ensures
            ({
                let (r0, v2) = delete_spec(old(self)@, caller@, asset_id);
                &&& final(self)@ == v2
                &&& (match r {
                    Ok(u) => r0 == Ok::<(), Error>(()),
                    Err(e) => r0 == Err::<(), Error>(e),
                })
            }),
    {
        proof {
            use_type_invariant(&*self);
        }
        let ghost v_old = self@;
        match self.find_index(asset_id) {
            None => Err(Error::NotFound),
            Some(i) => {
                proof {
                    lemma_idx_of(v_old.assets, asset_id, i as int);
                }
                if !self.assets[i].owner.equals(caller) {
                    Err(Error::NotOwner)
                } else {
                    let mut assets: Vec<Asset> = Vec::new();
                    core::mem::swap(&mut assets, &mut self.assets);
                    assets.remove(i);
                    proof {
                        assert(assets@.map_values(|x: Asset| x@) =~= v_old.assets.remove(i as int));
                    }
                    self.assets = assets;
                    proof {
                        let (r0, v2) = delete_spec(v_old, caller@, asset_id);
                        assert(self@ =~= v2);
                    }
                    Ok(())
                }
            },
        }
    }

    /// Empties the store and resets the allocation counter, so ids start
    /// again from [`FIRST_ASSET_ID`].
    ///
    /// The wipe is a maintenance operation: it is restricted to the
    /// administrative identity fixed at construction, and any other caller
    /// gets `NotOwner` and changes nothing.
    pub fn delete_all_assets(&mut self, caller: &Principal) -> (r: Result<(), Error>)
        ensures
            ({
                let (r0, v2) = wipe_spec(old(self)@, caller@);
                &&& final(self)@ == v2
                &&& (match r {
                    Ok(u) => r0 == Ok::<(), Error>(()),
                    Err(e) => r0 == Err::<(), Error>(e),
                })
            }),
    {
        proof {
            use_type_invariant(&*self);
        }
        let ghost v_old = self@;
        if self.admin.equals(caller) {
            self.assets = Vec::new();
            self.next_id = FIRST_ASSET_ID;
            proof {
                let (r0, v2) = wipe_spec(v_old, caller@);
                assert(self@.assets =~= Seq::<AssetView>::empty());
                assert(self@ =~= v2);
            }
            Ok(())
        } else {
            Err(Error::NotOwner)
        }
    }

    /// A copy of every live asset, in ascending id order.
    pub fn list_assets(&self) -> (r: Vec<Asset>)
        ensures
            r@.map_values(|a: Asset| a@) == self@.assets,
            r@.len() == self@.assets.len(),
    {
        let n = self.assets.len();
        let mut out: Vec<Asset> = Vec::new();
        let mut j: usize = 0;
        while j < n
            invariant
                n == self.assets@.len(),
                j <= n,
                out@.len() == j,
                out@.map_values(|a: Asset| a@) =~= self@.assets.subrange(0, j as int),
            decreases n - j,
        {
            out.push(self.assets[j].clone());
            j += 1;
        }
        proof {
            assert(out@.map_values(|a: Asset| a@) =~= self@.assets);
        }
        out
    }
}

} // verus!
