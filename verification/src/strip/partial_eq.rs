//! Metadata-blind equality.

use core::hash::Hash;
use std::collections::HashMap;
use vstd::prelude::*;
use vstd::std_specs::hash::{builds_valid_hashers, obeys_key_model, spec_hash_map_iter};
use vstd::std_specs::iter::IteratorSpec;

use crate::meta::Meta;
use crate::strip::Stripped;

verus! {

/// Defines the equality of values without considering the metadata.
///
/// The second type parameter makes the relation heterogeneous: a value can
/// be compared against a value of another type — in particular against the
/// same tree annotated with a different metadata type — as long as the
/// cross-type relation is defined for their payloads.
pub trait StrippedPartialEq<U = Self> {
    /// Whether `stripped_eq`'s result is fully pinned by
    /// [`Self::stripped_eq_spec`].
    ///
    /// True for every implementation of this library except the hash-map
    /// one, whose result is pinned only under vstd's hash-table hypotheses
    /// on the key type and the hasher.
    spec fn eq_obeys() -> bool;

    /// What stripped equality means for these two types.
    spec fn stripped_eq_spec(&self, other: &U) -> bool;

    /// Compares two values, ignoring every nested piece of metadata.
    fn stripped_eq(&self, other: &U) -> (r: bool)
        ensures
            Self::eq_obeys() ==> r == self.stripped_eq_spec(other),
    ;
}

impl<T: StrippedPartialEq<U>, U> PartialEq<Stripped<U>> for Stripped<T> {
    fn eq(&self, other: &Stripped<U>) -> bool {
        self.0.stripped_eq(&other.0)
    }
}

impl<T: StrippedPartialEq<U>, U> vstd::std_specs::cmp::PartialEqSpecImpl<Stripped<U>> for Stripped<T> {
    open spec fn obeys_eq_spec() -> bool {
        T::eq_obeys()
    }

    open spec fn eq_spec(&self, other: &Stripped<U>) -> bool {
        self.0.stripped_eq_spec(&other.0)
    }
}

impl<T: StrippedPartialEq<U>, U> StrippedPartialEq<Stripped<U>> for Stripped<T> {
    open spec fn eq_obeys() -> bool {
        T::eq_obeys()
    }

    open spec fn stripped_eq_spec(&self, other: &Stripped<U>) -> bool {
        self.0.stripped_eq_spec(&other.0)
    }

    fn stripped_eq(&self, other: &Stripped<U>) -> bool {
        self.0.stripped_eq(&other.0)
    }
}

impl<'u, 't, U, T: StrippedPartialEq<U>> StrippedPartialEq<&'u U> for &'t T {
    open spec fn eq_obeys() -> bool {
        T::eq_obeys()
    }

    open spec fn stripped_eq_spec(&self, other: &&'u U) -> bool {
        T::stripped_eq_spec(*self, *other)
    }

    fn stripped_eq(&self, other: &&'u U) -> bool {
        T::stripped_eq(*self, *other)
    }
}

impl<U, N, T: StrippedPartialEq<U>, M> StrippedPartialEq<Meta<U, N>> for Meta<T, M> {
    open spec fn eq_obeys() -> bool {
        T::eq_obeys()
    }

    open spec fn stripped_eq_spec(&self, other: &Meta<U, N>) -> bool {
        self.0.stripped_eq_spec(&other.0)
    }

    fn stripped_eq(&self, other: &Meta<U, N>) -> bool {
        self.value().stripped_eq(other.value())
    }
}

impl<T: StrippedPartialEq<U>, U> StrippedPartialEq<Box<U>> for Box<T> {
    open spec fn eq_obeys() -> bool {
        T::eq_obeys()
    }

    open spec fn stripped_eq_spec(&self, other: &Box<U>) -> bool {
        (**self).stripped_eq_spec(&**other)
    }

    fn stripped_eq(&self, other: &Box<U>) -> bool {
        (**self).stripped_eq(&**other)
    }
}

impl<T: StrippedPartialEq<U>, U> StrippedPartialEq<Option<U>> for Option<T> {
    open spec fn eq_obeys() -> bool {
        T::eq_obeys()
    }

    open spec fn stripped_eq_spec(&self, other: &Option<U>) -> bool {
        match (self, other) {
            (Some(a), Some(b)) => a.stripped_eq_spec(b),
            (None, None) => true,
            _ => false,
        }
    }

    fn stripped_eq(&self, other: &Option<U>) -> bool {
        match (self, other) {
            (Some(a), Some(b)) => a.stripped_eq(b),
            (None, None) => true,
            _ => false,
        }
    }
}

impl<T: StrippedPartialEq<U>, U> StrippedPartialEq<Vec<U>> for Vec<T> {
    open spec fn eq_obeys() -> bool {
        T::eq_obeys()
    }

    /// Two sequences are stripped-equal when they have the same length and
    /// are element-wise stripped-equal, in order.
    open spec fn stripped_eq_spec(&self, other: &Vec<U>) -> bool {
        &&& self@.len() == other@.len()
        &&& forall|i: int|
            0 <= i < self@.len() ==> #[trigger] self@[i].stripped_eq_spec(&other@[i])
    }

    fn stripped_eq(&self, other: &Vec<U>) -> (r: bool) {
        if self.len() != other.len() {
            return false;
        }
        let mut i: usize = 0;
        while i < self.len()
            invariant
                i <= self@.len(),
                self@.len() == other@.len(),
                T::eq_obeys() ==> forall|j: int|
                    0 <= j < i ==> #[trigger] self@[j].stripped_eq_spec(&other@[j]),
            decreases self@.len() - i,
        {
            if !self[i].stripped_eq(&other[i]) {
                return false;
            }
            i = i + 1;
        }
        true
    }
}

/// Advances any iterator, exposing vstd's specification of `next` for a
/// concrete iterator type.
fn iter_next<I: Iterator>(it: &mut I) -> (ret: Option<I::Item>)
    ensures
        IteratorSpec::obeys_prophetic_iter_laws(final(it)) == IteratorSpec::obeys_prophetic_iter_laws(
            old(it),
        ),
        IteratorSpec::obeys_prophetic_iter_laws(final(it)) ==> if IteratorSpec::remaining(
            old(it),
        ).len() > 0 {
            &&& IteratorSpec::remaining(final(it)) == IteratorSpec::remaining(
                old(it),
            ).drop_first()
            &&& ret == Some(IteratorSpec::remaining(old(it))[0])
        } else {
            &&& IteratorSpec::remaining(final(it)) == IteratorSpec::remaining(old(it))
            &&& ret is None
        },
{
    it.next()
}

impl<K: Eq + Hash, V: StrippedPartialEq<W>, W> StrippedPartialEq<HashMap<K, W>> for HashMap<
    K,
    V,
> {
    open spec fn eq_obeys() -> bool {
        &&& obeys_key_model::<K>()
        &&& builds_valid_hashers::<std::collections::hash_map::RandomState>()
        &&& V::eq_obeys()
    }

    /// Two maps are stripped-equal when they have the same size and every
    /// key of the left map is mapped, on the right, to a stripped-equal
    /// value. The containment check runs over the left map's keys only;
    /// with equal sizes this still pins the relation down.
    open spec fn stripped_eq_spec(&self, other: &HashMap<K, W>) -> bool {
        &&& self@.dom().len() == other@.dom().len()
        &&& forall|k: K| #[trigger]
            self@.contains_key(k) ==> other@.contains_key(k) && self@[k].stripped_eq_spec(
                &other@[k],
            )
    }

    fn stripped_eq(&self, other: &HashMap<K, W>) -> (r: bool) {
        broadcast use vstd::std_specs::hash::group_hash_axioms;

        if self.len() != other.len() {
            return false;
        }
        let len = self.len();
        let mut count: usize = 0;
        let mut it = self.iter();
        let ghost sq = IteratorSpec::remaining(&it);
        let ghost mut seen: int = 0;
        let mut result = true;
        loop
            invariant
                count <= len,
                0 <= seen <= sq.len(),
                IteratorSpec::remaining(&it) =~= sq.skip(seen),
                Self::eq_obeys() ==> {
                    &&& self@.dom().len() == other@.dom().len()
                    &&& sq == spec_hash_map_iter(self).remaining()
                    &&& len == self@.dom().len()
                    &&& seen == count
                    &&& (result <==> forall|j: int|
                        0 <= j < seen ==> {
                            let k = *(#[trigger] sq[j]).0;
                            &&& other@.contains_key(k)
                            &&& self@[k].stripped_eq_spec(&other@[k])
                        })
                },
            decreases len - count,
        {
            if count >= len {
                proof {
                    if Self::eq_obeys() {
                        assert(seen == sq.len());
                        if result {
                            assert forall|k: K| #[trigger]
                                self@.contains_key(k) implies other@.contains_key(k)
                                && self@[k].stripped_eq_spec(&other@[k]) by {
                                assert(sq.contains((&k, &self@[k])));
                                let j = choose|j: int|
                                    0 <= j < sq.len() && sq[j] == (&k, &self@[k]);
                                assert(other@.contains_key(*sq[j].0));
                            }
                        } else {
                            let j = choose|j: int|
                                !(0 <= j < sq.len() ==> {
                                    let k = *(#[trigger] sq[j]).0;
                                    &&& other@.contains_key(k)
                                    &&& self@[k].stripped_eq_spec(&other@[k])
                                });
                            assert(self@.contains_key(*sq[j].0));
                        }
                    }
                }
                return result;
            }
            let next = iter_next(&mut it);
            match next {
                None => {
                    proof {
                        if Self::eq_obeys() {
                            assert(seen == sq.len());
                            if result {
                                assert forall|k: K| #[trigger]
                                    self@.contains_key(k) implies other@.contains_key(k)
                                    && self@[k].stripped_eq_spec(&other@[k]) by {
                                    assert(sq.contains((&k, &self@[k])));
                                    let j = choose|j: int|
                                        0 <= j < sq.len() && sq[j] == (&k, &self@[k]);
                                    assert(other@.contains_key(*sq[j].0));
                                }
                            } else {
                                let j = choose|j: int|
                                    !(0 <= j < sq.len() ==> {
                                        let k = *(#[trigger] sq[j]).0;
                                        &&& other@.contains_key(k)
                                        &&& self@[k].stripped_eq_spec(&other@[k])
                                    });
                                assert(self@.contains_key(*sq[j].0));
                            }
                        }
                    }
                    return result;
                },
                Some((k, v)) => {
                    proof {
                        assert(sq.skip(seen)[0] == sq[seen]);
                        assert(sq.skip(seen).drop_first() =~= sq.skip(seen + 1));
                        seen = seen + 1;
                    }
                    count = count + 1;
                    match other.get(k) {
                        Some(w) => {
                            if !v.stripped_eq(w) {
                                result = false;
                            }
                        },
                        None => {
                            result = false;
                        },
                    }
                },
            }
        }
    }
}

impl StrippedPartialEq<bool> for bool {
    open spec fn eq_obeys() -> bool {
        true
    }

    open spec fn stripped_eq_spec(&self, other: &bool) -> bool {
        self == other
    }

    fn stripped_eq(&self, other: &bool) -> bool {
        self == other
    }
}

impl StrippedPartialEq<u32> for u32 {
    open spec fn eq_obeys() -> bool {
        true
    }

    open spec fn stripped_eq_spec(&self, other: &u32) -> bool {
        self == other
    }

    fn stripped_eq(&self, other: &u32) -> bool {
        self == other
    }
}

impl StrippedPartialEq<u64> for u64 {
    open spec fn eq_obeys() -> bool {
        true
    }

    open spec fn stripped_eq_spec(&self, other: &u64) -> bool {
        self == other
    }

    fn stripped_eq(&self, other: &u64) -> bool {
        self == other
    }
}

impl StrippedPartialEq<i64> for i64 {
    open spec fn eq_obeys() -> bool {
        true
    }

    open spec fn stripped_eq_spec(&self, other: &i64) -> bool {
        self == other
    }

    fn stripped_eq(&self, other: &i64) -> bool {
        self == other
    }
}

impl StrippedPartialEq<usize> for usize {
    open spec fn eq_obeys() -> bool {
        true
    }

    open spec fn stripped_eq_spec(&self, other: &usize) -> bool {
        self == other
    }

    fn stripped_eq(&self, other: &usize) -> bool {
        self == other
    }
}

impl StrippedPartialEq<char> for char {
    open spec fn eq_obeys() -> bool {
        true
    }

    open spec fn stripped_eq_spec(&self, other: &char) -> bool {
        self == other
    }

    fn stripped_eq(&self, other: &char) -> bool {
        *self == *other
    }
}

impl StrippedPartialEq<String> for String {
    open spec fn eq_obeys() -> bool {
        true
    }

    open spec fn stripped_eq_spec(&self, other: &String) -> bool {
        self@ == other@
    }

    fn stripped_eq(&self, other: &String) -> bool {
        *self == *other
    }
}

} // verus!
