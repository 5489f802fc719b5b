//! Property records and their mathematical view.

use vstd::prelude::*;
use crate::identity::Identity;

verus! {

/// A single property record.
///
/// `id` is assigned at registration from the host's timestamp and is never
/// changed afterwards. `owner` is the only field any operation mutates.
/// `price` and `is_leased` are carried for data completeness: no operation of
/// the registry reads or changes them after registration sets them.
pub struct Property {
    pub id: u64,
    pub name: String,
    pub owner: Identity,
    pub price: u64,
    pub is_leased: bool,
}

/// The mathematical value of a [`Property`]: every field as a plain value.
pub ghost struct PropertyView {
    pub id: u64,
    pub name: Seq<char>,
    pub owner: Seq<u8>,
    pub price: u64,
    pub is_leased: bool,
}

impl View for Property {
    type V = PropertyView;

    open spec fn view(&self) -> PropertyView {
        PropertyView {
            id: self.id,
            name: self.name@,
            owner: self.owner@,
            price: self.price,
            is_leased: self.is_leased,
        }
    }
}

impl Clone for Property {
    fn clone(&self) -> (r: Property)
        ensures
            r@ == self@,
    {
        Property {
            id: self.id,
            name: self.name.clone(),
            owner: self.owner.clone(),
            price: self.price,
            is_leased: self.is_leased,
        }
    }
}

} // verus!
