//! The asset record, the sole entity of the registry.

use vstd::prelude::*;

use crate::identity::Principal;

verus! {

/// A uniquely identified record representing ownership of a tradable item.
///
/// `name`, `description` and `image` are opaque, unvalidated text; `price`
/// is an opaque quantity that matters while `for_sale` is true. `creator`
/// never changes after creation; `owner` changes only through an authorized
/// purchase.
#[derive(Debug)]
pub struct Asset {
    pub id: u64,
    pub name: String,
    pub description: String,
    pub creator: Principal,
    pub owner: Principal,
    pub price: u64,
    pub for_sale: bool,
    pub image: String,
}

/// The mathematical value of an [`Asset`]: every field reduced to a plain
/// value or a sequence. Contracts and laws speak of these.
#[verifier::ext_equal]
pub ghost struct AssetView {
    pub id: u64,
    pub name: Seq<char>,
    pub description: Seq<char>,
    pub creator: Seq<u8>,
    pub owner: Seq<u8>,
    pub price: u64,
    pub for_sale: bool,
    pub image: Seq<char>,
}

impl View for Asset {
    type V = AssetView;

    open spec fn view(&self) -> AssetView {
        AssetView {
            id: self.id,
            name: self.name@,
            description: self.description@,
            creator: self.creator@,
            owner: self.owner@,
            price: self.price,
            for_sale: self.for_sale,
            image: self.image@,
        }
    }
}

impl Clone for Asset {
    /// The copy denotes the same mathematical value.
    fn clone(&self) -> (c: Self)
        ensures
            c@ == self@,
    {
        Asset {
            id: self.id,
            name: self.name.clone(),
            description: self.description.clone(),
            creator: self.creator.clone(),
            owner: self.owner.clone(),
            price: self.price,
            for_sale: self.for_sale,
            image: self.image.clone(),
        }
    }
}

} // verus!
