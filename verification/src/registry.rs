//! The registry state machine: an ordered sequence of property records and
//! the three operations that read or mutate it.

use vstd::prelude::*;
use crate::identity::Identity;
use crate::property::{Property, PropertyView};

verus! {

/// The sequence of views of a sequence of records.
pub open spec fn views_of(s: Seq<Property>) -> Seq<PropertyView> {
    s.map_values(|p: Property| p@)
}

/// Whether some record in `s` carries the identifier `id`.
pub open spec fn has_id(s: Seq<PropertyView>, id: u64) -> bool {
    exists|i: int| 0 <= i < s.len() && s[i].id == id
}

/// Whether `i` is the index of the first record in `s` whose identifier is
/// `id`. Identifiers come from the host's time source and may repeat, so
/// which match an operation touches has to be pinned down: it is the earliest.
pub open spec fn is_first_with_id(s: Seq<PropertyView>, id: u64, i: int) -> bool {
    &&& 0 <= i < s.len()
    &&& s[i].id == id
    &&& forall|j: int| 0 <= j < i ==> s[j].id != id
}

/// The index of the first record in `s` whose identifier is `id`; meaningful
/// only when `has_id(s, id)` holds (see [`lemma_first_with_id`]).
pub open spec fn first_with_id(s: Seq<PropertyView>, id: u64) -> int {
    choose|i: int| is_first_with_id(s, id, i)
}

/// The record `p` with its owner replaced and every other field kept.
pub open spec fn with_owner(p: PropertyView, owner: Seq<u8>) -> PropertyView {
    PropertyView { owner, ..p }
}

/// The message a successful transfer returns.
pub open spec fn purchased_text() -> Seq<char> {
    "Purchase successful!"@
}

/// The message a transfer returns when no record has the requested identifier.
pub open spec fn not_found_text() -> Seq<char> {
    "Property not found"@
}

/// The message a transfer returns when the caller already owns the record.
pub open spec fn already_owned_text() -> Seq<char> {
    "You already own this property"@
}

/// The in-memory store of property records, in insertion order.
///
/// The hosting environment dispatches at most one operation at a time, so no
/// operation ever observes another mid-execution; each method here is a whole
/// step of the state machine.
pub struct Registry {
    properties: Vec<Property>,
}

impl View for Registry {
    type V = Seq<PropertyView>;

    closed spec fn view(&self) -> Seq<PropertyView> {
        views_of(self.properties@)
    }
}

impl Registry {
    /// A freshly initialized registry holds no records.
    pub fn new() -> (r: Registry)
        ensures
            r@ == Seq::<PropertyView>::empty(),
    {
        let r = Registry { properties: Vec::new() };
        proof {
            assert(r@ =~= Seq::<PropertyView>::empty());
        }
        r
    }

    /// Returns a snapshot of every record, in insertion order.
    pub fn list(&self) -> (r: Vec<Property>)
        ensures
            views_of(r@) == self@,
    {
        let r = self.properties.clone();
        proof {
            assert forall|i: int| 0 <= i < r@.len() implies r@[i]@ == self.properties@[i]@ by {
                assert(cloned(self.properties@[i], r@[i]));
            }
            assert(views_of(r@) =~= self@);
        }
        r
    }

    /// Appends a new record owned by the caller. `now` is the host's
    /// timestamp for this call and becomes the record's identifier; no value
    /// of `name` or `price` is rejected, and the new record is never leased.
    pub fn register(&mut self, name: String, price: u64, caller: Identity, now: u64)
        ensures
            final(self)@ == old(self)@.push(PropertyView {
                id: now,
                name: name@,
                owner: caller@,
                price: price,
                is_leased: false,
            }),
    {
        let property = Property {
            id: now,
            name,
            owner: caller,
            price,
            is_leased: false,
        };
        let ghost pv = property@;
        self.properties.push(property);
        proof {
            assert(self@ =~= old(self)@.push(pv));
        }
    }

    /// The index of the first record whose identifier is `id`, if any.
    fn find_first(&self, id: u64) -> (r: Option<usize>)
        ensures
            match r {
                Some(i) => is_first_with_id(self@, id, i as int),
                None => !has_id(self@, id),
            },
    {
        let mut idx: usize = 0;
        while idx < self.properties.len()
            invariant
                idx <= self.properties@.len(),
                forall|j: int| 0 <= j < idx ==> self@[j].id != id,
            decreases self.properties@.len() - idx,
        {
            if self.properties[idx].id == id {
                return Some(idx);
            }
            idx += 1;
        }
        None
    }

    /// Reassigns the first record whose identifier is `id` to the caller.
    ///
    /// When no record matches, or when the caller already owns the matching
    /// record, the call fails with the corresponding message and the registry
    /// is left exactly as it was; rejecting a self-transfer rather than
    /// treating it as a harmless success is deliberate. On success only that
    /// one record's owner changes: its other fields, every other record, and
    /// the insertion order are untouched.
    pub fn transfer(&mut self, id: u64, caller: &Identity) -> (r: Result<String, String>)
        ensures
            !has_id(old(self)@, id) ==> ({
                &&& final(self)@ == old(self)@
                &&& r is Err && r->Err_0@ == not_found_text()
            }),
            forall|i: int|
                #![trigger is_first_with_id(old(self)@, id, i)]
                is_first_with_id(old(self)@, id, i) && old(self)@[i].owner == caller@ ==> ({
                    &&& final(self)@ == old(self)@
                    &&& r is Err && r->Err_0@ == already_owned_text()
                }),
            forall|i: int|
                #![trigger is_first_with_id(old(self)@, id, i)]
                is_first_with_id(old(self)@, id, i) && old(self)@[i].owner != caller@ ==> ({
                    &&& final(self)@ == old(self)@.update(i, with_owner(old(self)@[i], caller@))
                    &&& r is Ok && r->Ok_0@ == purchased_text()
                }),
    {
        let ghost s0 = self@;
        match self.find_first(id) {
            None => {
                proof {
                    assert forall|i: int| !is_first_with_id(s0, id, i) by {
                        if is_first_with_id(s0, id, i) {
                            assert(has_id(s0, id));
                        }
                    }
                }
                Err(String::from_str("Property not found"))
            },
            Some(idx) => {
                proof {
                    assert(has_id(s0, id)) by {
                        assert(0 <= idx < s0.len() && s0[idx as int].id == id);
                    }
                    assert forall|i: int| is_first_with_id(s0, id, i) implies i == idx as int by {
                        if i < idx as int {
                            assert(s0[i].id != id);
                        }
                        if i > idx as int {
                            assert(s0[idx as int].id != id);
                        }
                    }
                }
                let p = &self.properties[idx];
                if p.owner == *caller {
                    Err(String::from_str("You already own this property"))
                } else {
                    let updated = Property {
                        id: p.id,
                        name: p.name.clone(),
                        owner: caller.clone(),
                        price: p.price,
                        is_leased: p.is_leased,
                    };
                    self.properties.set(idx, updated);
                    proof {
                        assert(self@ =~= s0.update(idx as int, with_owner(s0[idx as int], caller@)));
                    }
                    Ok(String::from_str("Purchase successful!"))
                }
            },
        }
    }
}

/// Where some record carries `id`, a first match exists: `first_with_id`
/// really is the index of the earliest record with that identifier.
pub proof fn lemma_first_with_id(s: Seq<PropertyView>, id: u64)
    requires
        has_id(s, id),
    ensures
        is_first_with_id(s, id, first_with_id(s, id)),
    decreases s.len(),
{
    if s[0].id == id {
        assert(is_first_with_id(s, id, 0));
    } else {
        let t = s.drop_first();
        assert(has_id(t, id)) by {
            let w = choose|i: int| 0 <= i < s.len() && s[i].id == id;
            assert(t[w - 1].id == id);
        }
        lemma_first_with_id(t, id);
        let j = first_with_id(t, id);
        assert(is_first_with_id(s, id, j + 1)) by {
            assert(s[j + 1].id == id);
            assert forall|k: int| 0 <= k < j + 1 implies s[k].id != id by {
                if k > 0 {
                    assert(t[k - 1].id != id);
                }
            }
        }
    }
}

/// Law: a successful transfer reassigns exactly the matched record's owner;
/// that record keeps its identifier, name, price and lease flag.
pub proof fn lemma_transfer_updates_only_owner(s: Seq<PropertyView>, id: u64, caller: Seq<u8>)
    requires
        has_id(s, id),
    ensures
        ({
            let i = first_with_id(s, id);
            let post = s.update(i, with_owner(s[i], caller));
            &&& post[i].owner == caller
            &&& post[i].id == s[i].id
            &&& post[i].name == s[i].name
            &&& post[i].price == s[i].price
            &&& post[i].is_leased == s[i].is_leased
        }),
{
    lemma_first_with_id(s, id);
}

/// Law: a transfer never mutates any record other than the first match, and
/// never changes the number or order of records.
pub proof fn lemma_transfer_preserves_others(s: Seq<PropertyView>, id: u64, caller: Seq<u8>)
    requires
        has_id(s, id),
    ensures
        ({
            let i = first_with_id(s, id);
            let post = s.update(i, with_owner(s[i], caller));
            &&& post.len() == s.len()
            &&& forall|j: int| 0 <= j < s.len() && j != i ==> post[j] == s[j]
        }),
{
    lemma_first_with_id(s, id);
}

} // verus!
