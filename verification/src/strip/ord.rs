//! Metadata-blind total ordering.

use core::cmp::Ordering;
use vstd::prelude::*;

use crate::meta::Meta;
use crate::strip::eq::StrippedEq;
use crate::strip::partial_eq::StrippedPartialEq;
use crate::strip::partial_ord::StrippedPartialOrd;
use crate::strip::Stripped;

verus! {

/// Defines the total ordering of located values without considering
/// locations.
///
/// Every implementation carries the law tying the ordering to stripped
/// equality: two values compare `Equal` exactly when they are
/// stripped-equal.
pub trait StrippedOrd: StrippedEq + StrippedPartialOrd<Self> {
    /// What the stripped total comparison returns for these two values.
    spec fn stripped_cmp_spec(&self, other: &Self) -> Ordering;

    /// The stripped total order is consistent with stripped equality: the
    /// comparison returns `Equal` exactly on stripped-equal values.
    proof fn stripped_cmp_consistency(&self, other: &Self)
        ensures
            (self.stripped_cmp_spec(other) == Ordering::Equal) <==> self.stripped_eq_spec(other),
    ;

    /// Compares two values, ignoring every nested piece of metadata.
    fn stripped_cmp(&self, other: &Self) -> (r: Ordering)
        ensures
            r == self.stripped_cmp_spec(other),
    ;
}

/// Lexicographic element-wise stripped comparison of two sequences,
/// stopping at the first pair that does not compare equal, with the usual
/// length tie-break: a sequence that is a strict prefix of the other under
/// stripped equality orders before it.
pub open spec fn seq_stripped_cmp<T: StrippedOrd>(a: Seq<T>, b: Seq<T>) -> Ordering
    decreases a.len(),
{
    if a.len() == 0 && b.len() == 0 {
        Ordering::Equal
    } else if a.len() == 0 {
        Ordering::Less
    } else if b.len() == 0 {
        Ordering::Greater
    } else {
        match a[0].stripped_cmp_spec(&b[0]) {
            Ordering::Equal => seq_stripped_cmp(a.skip(1), b.skip(1)),
            c => c,
        }
    }
}

/// The lexicographic stripped comparison of two sequences returns `Equal`
/// exactly when the sequences have the same length and are element-wise
/// stripped-equal.
pub proof fn lemma_seq_stripped_cmp_consistency<T: StrippedOrd>(a: Seq<T>, b: Seq<T>)
    ensures
        (seq_stripped_cmp(a, b) == Ordering::Equal) <==> (a.len() == b.len() && forall|i: int|
            0 <= i < a.len() ==> #[trigger] a[i].stripped_eq_spec(&b[i])),
    decreases a.len(),
{
    if a.len() == 0 && b.len() == 0 {
    } else if a.len() == 0 {
    } else if b.len() == 0 {
    } else {
        a[0].stripped_cmp_consistency(&b[0]);
        lemma_seq_stripped_cmp_consistency(a.skip(1), b.skip(1));
        let c0 = a[0].stripped_cmp_spec(&b[0]);
        if c0 == Ordering::Equal {
            if seq_stripped_cmp(a.skip(1), b.skip(1)) == Ordering::Equal {
                assert forall|i: int| 0 <= i < a.len() implies #[trigger] a[i].stripped_eq_spec(
                    &b[i],
                ) by {
                    if i > 0 {
                        assert(a.skip(1)[i - 1] == a[i]);
                        assert(b.skip(1)[i - 1] == b[i]);
                    }
                }
            } else {
                if a.len() == b.len() {
                    if forall|i: int| 0 <= i < a.len() ==> #[trigger] a[i].stripped_eq_spec(
                        &b[i],
                    ) {
                        assert forall|i: int|
                            0 <= i < a.skip(1).len() implies #[trigger] a.skip(1)[i].stripped_eq_spec(
                            &b.skip(1)[i],
                        ) by {
                            assert(a.skip(1)[i] == a[i + 1]);
                            assert(b.skip(1)[i] == b[i + 1]);
                        }
                        assert(false);
                    }
                }
            }
        } else {
            assert(!a[0].stripped_eq_spec(&b[0]));
        }
    }
}

impl<T: StrippedOrd> StrippedOrd for Stripped<T> {
    open spec fn stripped_cmp_spec(&self, other: &Stripped<T>) -> Ordering {
        self.0.stripped_cmp_spec(&other.0)
    }

    proof fn stripped_cmp_consistency(&self, other: &Stripped<T>) {
        self.0.stripped_cmp_consistency(&other.0);
    }

    fn stripped_cmp(&self, other: &Stripped<T>) -> Ordering {
        self.0.stripped_cmp(&other.0)
    }
}

impl<'t, T: StrippedOrd> StrippedOrd for &'t T {
    open spec fn stripped_cmp_spec(&self, other: &&'t T) -> Ordering {
        T::stripped_cmp_spec(*self, *other)
    }

    proof fn stripped_cmp_consistency(&self, other: &&'t T) {
        T::stripped_cmp_consistency(*self, *other);
    }

    fn stripped_cmp(&self, other: &&'t T) -> Ordering {
        T::stripped_cmp(*self, *other)
    }
}

impl<T: StrippedOrd, M> StrippedOrd for Meta<T, M> {
    open spec fn stripped_cmp_spec(&self, other: &Meta<T, M>) -> Ordering {
        self.0.stripped_cmp_spec(&other.0)
    }

    proof fn stripped_cmp_consistency(&self, other: &Meta<T, M>) {
        self.0.stripped_cmp_consistency(&other.0);
    }

    fn stripped_cmp(&self, other: &Meta<T, M>) -> Ordering {
        self.value().stripped_cmp(other.value())
    }
}

impl<T: StrippedOrd> StrippedOrd for Box<T> {
    open spec fn stripped_cmp_spec(&self, other: &Box<T>) -> Ordering {
        (**self).stripped_cmp_spec(&**other)
    }

    proof fn stripped_cmp_consistency(&self, other: &Box<T>) {
        (**self).stripped_cmp_consistency(&**other);
    }

    fn stripped_cmp(&self, other: &Box<T>) -> Ordering {
        (**self).stripped_cmp(&**other)
    }
}

impl<T: StrippedOrd> StrippedOrd for Option<T> {
    open spec fn stripped_cmp_spec(&self, other: &Option<T>) -> Ordering {
        match (self, other) {
            (None, None) => Ordering::Equal,
            (None, Some(_)) => Ordering::Less,
            (Some(_), None) => Ordering::Greater,
            (Some(a), Some(b)) => a.stripped_cmp_spec(b),
        }
    }

    proof fn stripped_cmp_consistency(&self, other: &Option<T>) {
        match (self, other) {
            (Some(a), Some(b)) => a.stripped_cmp_consistency(b),
            _ => (),
        }
    }

    fn stripped_cmp(&self, other: &Option<T>) -> Ordering {
        match (self, other) {
            (None, None) => Ordering::Equal,
            (None, Some(_)) => Ordering::Less,
            (Some(_), None) => Ordering::Greater,
            (Some(a), Some(b)) => a.stripped_cmp(b),
        }
    }
}

impl<T: StrippedOrd> StrippedOrd for Vec<T> {
    open spec fn stripped_cmp_spec(&self, other: &Vec<T>) -> Ordering {
        seq_stripped_cmp(self@, other@)
    }

    proof fn stripped_cmp_consistency(&self, other: &Vec<T>) {
        lemma_seq_stripped_cmp_consistency(self@, other@);
    }

    fn stripped_cmp(&self, other: &Vec<T>) -> (r: Ordering) {
        let mut i: usize = 0;
        proof {
            assert(self@.skip(0) =~= self@);
            assert(other@.skip(0) =~= other@);
        }
        loop
            invariant
                i <= self@.len(),
                i <= other@.len(),
                seq_stripped_cmp(self@.skip(i as int), other@.skip(i as int)) == seq_stripped_cmp(
                    self@,
                    other@,
                ),
            decreases self@.len() - i,
        {
            if i >= self.len() && i >= other.len() {
                return Ordering::Equal;
            }
            if i >= self.len() {
                return Ordering::Less;
            }
            if i >= other.len() {
                return Ordering::Greater;
            }
            let c = self[i].stripped_cmp(&other[i]);
            proof {
                assert(self@.skip(i as int)[0] == self@[i as int]);
                assert(other@.skip(i as int)[0] == other@[i as int]);
                assert(self@.skip(i as int).skip(1) =~= self@.skip(i as int + 1));
                assert(other@.skip(i as int).skip(1) =~= other@.skip(i as int + 1));
            }
            match c {
                Ordering::Equal => (),
                c => {
                    return c;
                },
            }
            i = i + 1;
        }
    }
}

impl StrippedOrd for bool {
    open spec fn stripped_cmp_spec(&self, other: &bool) -> Ordering {
        match (self, other) {
            (false, false) => Ordering::Equal,
            (false, true) => Ordering::Less,
            (true, false) => Ordering::Greater,
            (true, true) => Ordering::Equal,
        }
    }

    proof fn stripped_cmp_consistency(&self, other: &bool) {
    }

    fn stripped_cmp(&self, other: &bool) -> Ordering {
        match (self, other) {
            (false, false) => Ordering::Equal,
            (false, true) => Ordering::Less,
            (true, false) => Ordering::Greater,
            (true, true) => Ordering::Equal,
        }
    }
}

impl StrippedOrd for u32 {
    open spec fn stripped_cmp_spec(&self, other: &u32) -> Ordering {
        if *self < *other {
            Ordering::Less
        } else if *self == *other {
            Ordering::Equal
        } else {
            Ordering::Greater
        }
    }

    proof fn stripped_cmp_consistency(&self, other: &u32) {
    }

    fn stripped_cmp(&self, other: &u32) -> Ordering {
        if *self < *other {
            Ordering::Less
        } else if *self == *other {
            Ordering::Equal
        } else {
            Ordering::Greater
        }
    }
}

impl StrippedOrd for u64 {
    open spec fn stripped_cmp_spec(&self, other: &u64) -> Ordering {
        if *self < *other {
            Ordering::Less
        } else if *self == *other {
            Ordering::Equal
        } else {
            Ordering::Greater
        }
    }

    proof fn stripped_cmp_consistency(&self, other: &u64) {
    }

    fn stripped_cmp(&self, other: &u64) -> Ordering {
        if *self < *other {
            Ordering::Less
        } else if *self == *other {
            Ordering::Equal
        } else {
            Ordering::Greater
        }
    }
}

impl StrippedOrd for i64 {
    open spec fn stripped_cmp_spec(&self, other: &i64) -> Ordering {
        if *self < *other {
            Ordering::Less
        } else if *self == *other {
            Ordering::Equal
        } else {
            Ordering::Greater
        }
    }

    proof fn stripped_cmp_consistency(&self, other: &i64) {
    }

    fn stripped_cmp(&self, other: &i64) -> Ordering {
        if *self < *other {
            Ordering::Less
        } else if *self == *other {
            Ordering::Equal
        } else {
            Ordering::Greater
        }
    }
}

impl StrippedOrd for usize {
    open spec fn stripped_cmp_spec(&self, other: &usize) -> Ordering {
        if *self < *other {
            Ordering::Less
        } else if *self == *other {
            Ordering::Equal
        } else {
            Ordering::Greater
        }
    }

    proof fn stripped_cmp_consistency(&self, other: &usize) {
    }

    fn stripped_cmp(&self, other: &usize) -> Ordering {
        if *self < *other {
            Ordering::Less
        } else if *self == *other {
            Ordering::Equal
        } else {
            Ordering::Greater
        }
    }
}

} // verus!
