//! Metadata-blind total equality.

use vstd::prelude::*;

use crate::meta::Meta;
use crate::strip::partial_eq::StrippedPartialEq;
use crate::strip::Stripped;

verus! {

/// Defines the total equality of values without considering metadata.
///
/// Besides its marker role, every implementation carries the reflexivity
/// law: under stripped equality, no value differs from itself.
pub trait StrippedEq: StrippedPartialEq<Self> + Sized {
    /// Stripped equality is reflexive.
    proof fn stripped_eq_refl(&self)
        ensures
            self.stripped_eq_spec(self),
    ;
}

impl<T: StrippedEq> Eq for Stripped<T> {

}

/// Stripped equality ignores metadata: two pairs carrying the same value
/// are stripped-equal whatever their metadata, while ordinary equality
/// distinguishes them as soon as the metadata differ.
pub proof fn lemma_stripped_eq_ignores_metadata<T: StrippedEq, M>(v: T, m1: M, m2: M)
    requires
        m1 != m2,
    ensures
        Meta(v, m1).stripped_eq_spec(&Meta(v, m2)),
        Meta(v, m1) != Meta(v, m2),
{
    v.stripped_eq_refl();
}

impl<T: StrippedEq> StrippedEq for Stripped<T> {
    proof fn stripped_eq_refl(&self) {
        self.0.stripped_eq_refl();
    }
}

impl<'t, T: StrippedEq> StrippedEq for &'t T {
    proof fn stripped_eq_refl(&self) {
        T::stripped_eq_refl(*self);
    }
}

impl<T: StrippedEq, M> StrippedEq for Meta<T, M> {
    proof fn stripped_eq_refl(&self) {
        self.0.stripped_eq_refl();
    }
}

impl<T: StrippedEq> StrippedEq for Box<T> {
    proof fn stripped_eq_refl(&self) {
        (**self).stripped_eq_refl();
    }
}

impl<T: StrippedEq> StrippedEq for Option<T> {
    proof fn stripped_eq_refl(&self) {
        match self {
            Some(t) => t.stripped_eq_refl(),
            None => (),
        }
    }
}

impl<T: StrippedEq> StrippedEq for Vec<T> {
    proof fn stripped_eq_refl(&self) {
        assert forall|i: int| 0 <= i < self@.len() implies #[trigger] self@[i].stripped_eq_spec(
            &self@[i],
        ) by {
            self@[i].stripped_eq_refl();
        }
    }
}

impl<K: Eq + core::hash::Hash, V: StrippedEq> StrippedEq for std::collections::HashMap<K, V> {
    proof fn stripped_eq_refl(&self) {
        assert forall|k: K| #[trigger]
            self@.contains_key(k) implies self@.contains_key(k) && self@[k].stripped_eq_spec(
            &self@[k],
        ) by {
            self@[k].stripped_eq_refl();
        }
    }
}

impl StrippedEq for bool {
    proof fn stripped_eq_refl(&self) {
    }
}

impl StrippedEq for u32 {
    proof fn stripped_eq_refl(&self) {
    }
}

impl StrippedEq for u64 {
    proof fn stripped_eq_refl(&self) {
    }
}

impl StrippedEq for i64 {
    proof fn stripped_eq_refl(&self) {
    }
}

impl StrippedEq for usize {
    proof fn stripped_eq_refl(&self) {
    }
}

impl StrippedEq for char {
    proof fn stripped_eq_refl(&self) {
    }
}

impl StrippedEq for String {
    proof fn stripped_eq_refl(&self) {
    }
}

} // verus!
