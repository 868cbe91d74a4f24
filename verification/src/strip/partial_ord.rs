//! Metadata-blind partial ordering.

use core::cmp::Ordering;
use vstd::prelude::*;

use crate::meta::Meta;
use crate::strip::partial_eq::StrippedPartialEq;
use crate::strip::Stripped;

verus! {

/// Defines the partial ordering of located values without considering
/// locations.
pub trait StrippedPartialOrd<U = Self>: StrippedPartialEq<U> {
    /// What the stripped comparison returns for these two values.
    spec fn stripped_partial_cmp_spec(&self, other: &U) -> Option<Ordering>;

    /// Compares two values, ignoring every nested piece of metadata.
    fn stripped_partial_cmp(&self, other: &U) -> (r: Option<Ordering>)
        ensures
            r == self.stripped_partial_cmp_spec(other),
    ;
}

/// Lexicographic element-wise stripped comparison of two sequences,
/// stopping at the first pair that does not compare equal, with the usual
/// length tie-break: a sequence that is a strict prefix of the other under
/// stripped equality orders before it.
pub open spec fn seq_stripped_partial_cmp<T: StrippedPartialOrd<U>, U>(
    a: Seq<T>,
    b: Seq<U>,
) -> Option<Ordering>
    decreases a.len(),
{
    if a.len() == 0 && b.len() == 0 {
        Some(Ordering::Equal)
    } else if a.len() == 0 {
        Some(Ordering::Less)
    } else if b.len() == 0 {
        Some(Ordering::Greater)
    } else {
        match a[0].stripped_partial_cmp_spec(&b[0]) {
            Some(Ordering::Equal) => seq_stripped_partial_cmp(a.skip(1), b.skip(1)),
            c => c,
        }
    }
}

impl<T: StrippedPartialOrd<U>, U> PartialOrd<Stripped<U>> for Stripped<T> {
    fn partial_cmp(&self, other: &Stripped<U>) -> Option<Ordering> {
        self.0.stripped_partial_cmp(&other.0)
    }
}

impl<T: StrippedPartialOrd<U>, U> vstd::std_specs::cmp::PartialOrdSpecImpl<Stripped<U>> for Stripped<T> {
    open spec fn obeys_partial_cmp_spec() -> bool {
        true
    }

    open spec fn partial_cmp_spec(&self, other: &Stripped<U>) -> Option<Ordering> {
        self.0.stripped_partial_cmp_spec(&other.0)
    }
}

impl<T: StrippedPartialOrd<U>, U> StrippedPartialOrd<Stripped<U>> for Stripped<T> {
    open spec fn stripped_partial_cmp_spec(&self, other: &Stripped<U>) -> Option<Ordering> {
        self.0.stripped_partial_cmp_spec(&other.0)
    }

    fn stripped_partial_cmp(&self, other: &Stripped<U>) -> Option<Ordering> {
        self.0.stripped_partial_cmp(&other.0)
    }
}

impl<'u, 't, U, T: StrippedPartialOrd<U>> StrippedPartialOrd<&'u U> for &'t T {
    open spec fn stripped_partial_cmp_spec(&self, other: &&'u U) -> Option<Ordering> {
        T::stripped_partial_cmp_spec(*self, *other)
    }

    fn stripped_partial_cmp(&self, other: &&'u U) -> Option<Ordering> {
        T::stripped_partial_cmp(*self, *other)
    }
}

impl<U, N, T: StrippedPartialOrd<U>, M> StrippedPartialOrd<Meta<U, N>> for Meta<T, M> {
    open spec fn stripped_partial_cmp_spec(&self, other: &Meta<U, N>) -> Option<Ordering> {
        self.0.stripped_partial_cmp_spec(&other.0)
    }

    fn stripped_partial_cmp(&self, other: &Meta<U, N>) -> Option<Ordering> {
        self.value().stripped_partial_cmp(other.value())
    }
}

impl<T: StrippedPartialOrd<U>, U> StrippedPartialOrd<Box<U>> for Box<T> {
    open spec fn stripped_partial_cmp_spec(&self, other: &Box<U>) -> Option<Ordering> {
        (**self).stripped_partial_cmp_spec(&**other)
    }

    fn stripped_partial_cmp(&self, other: &Box<U>) -> Option<Ordering> {
        (**self).stripped_partial_cmp(&**other)
    }
}

impl<T: StrippedPartialOrd<U>, U> StrippedPartialOrd<Option<U>> for Option<T> {
    open spec fn stripped_partial_cmp_spec(&self, other: &Option<U>) -> Option<Ordering> {
        match (self, other) {
            (None, None) => Some(Ordering::Equal),
            (None, Some(_)) => Some(Ordering::Less),
            (Some(_), None) => Some(Ordering::Greater),
            (Some(a), Some(b)) => a.stripped_partial_cmp_spec(b),
        }
    }

    fn stripped_partial_cmp(&self, other: &Option<U>) -> Option<Ordering> {
        match (self, other) {
            (None, None) => Some(Ordering::Equal),
            (None, Some(_)) => Some(Ordering::Less),
            (Some(_), None) => Some(Ordering::Greater),
            (Some(a), Some(b)) => a.stripped_partial_cmp(b),
        }
    }
}

impl<T: StrippedPartialOrd<U>, U> StrippedPartialOrd<Vec<U>> for Vec<T> {
    open spec fn stripped_partial_cmp_spec(&self, other: &Vec<U>) -> Option<Ordering> {
        seq_stripped_partial_cmp(self@, other@)
    }

    fn stripped_partial_cmp(&self, other: &Vec<U>) -> (r: Option<Ordering>) {
        let mut i: usize = 0;
        proof {
            assert(self@.skip(0) =~= self@);
            assert(other@.skip(0) =~= other@);
        }
        loop
            invariant
                i <= self@.len(),
                i <= other@.len(),
                seq_stripped_partial_cmp(self@.skip(i as int), other@.skip(i as int))
                    == seq_stripped_partial_cmp(self@, other@),
            decreases self@.len() - i,
        {
            if i >= self.len() && i >= other.len() {
                return Some(Ordering::Equal);
            }
            if i >= self.len() {
                return Some(Ordering::Less);
            }
            if i >= other.len() {
                return Some(Ordering::Greater);
            }
            let c = self[i].stripped_partial_cmp(&other[i]);
            proof {
                assert(self@.skip(i as int)[0] == self@[i as int]);
                assert(other@.skip(i as int)[0] == other@[i as int]);
                assert(self@.skip(i as int).skip(1) =~= self@.skip(i as int + 1));
                assert(other@.skip(i as int).skip(1) =~= other@.skip(i as int + 1));
            }
            match c {
                Some(Ordering::Equal) => (),
                c => {
                    return c;
                },
            }
            i = i + 1;
        }
    }
}

impl StrippedPartialOrd<bool> for bool {
    open spec fn stripped_partial_cmp_spec(&self, other: &bool) -> Option<Ordering> {
        match (self, other) {
            (false, false) => Some(Ordering::Equal),
            (false, true) => Some(Ordering::Less),
            (true, false) => Some(Ordering::Greater),
            (true, true) => Some(Ordering::Equal),
        }
    }

    fn stripped_partial_cmp(&self, other: &bool) -> Option<Ordering> {
        match (self, other) {
            (false, false) => Some(Ordering::Equal),
            (false, true) => Some(Ordering::Less),
            (true, false) => Some(Ordering::Greater),
            (true, true) => Some(Ordering::Equal),
        }
    }
}

impl StrippedPartialOrd<u32> for u32 {
    open spec fn stripped_partial_cmp_spec(&self, other: &u32) -> Option<Ordering> {
        if *self < *other {
            Some(Ordering::Less)
        } else if *self == *other {
            Some(Ordering::Equal)
        } else {
            Some(Ordering::Greater)
        }
    }

    fn stripped_partial_cmp(&self, other: &u32) -> Option<Ordering> {
        if *self < *other {
            Some(Ordering::Less)
        } else if *self == *other {
            Some(Ordering::Equal)
        } else {
            Some(Ordering::Greater)
        }
    }
}

impl StrippedPartialOrd<u64> for u64 {
    open spec fn stripped_partial_cmp_spec(&self, other: &u64) -> Option<Ordering> {
        if *self < *other {
            Some(Ordering::Less)
        } else if *self == *other {
            Some(Ordering::Equal)
        } else {
            Some(Ordering::Greater)
        }
    }

    fn stripped_partial_cmp(&self, other: &u64) -> Option<Ordering> {
        if *self < *other {
            Some(Ordering::Less)
        } else if *self == *other {
            Some(Ordering::Equal)
        } else {
            Some(Ordering::Greater)
        }
    }
}

impl StrippedPartialOrd<i64> for i64 {
    open spec fn stripped_partial_cmp_spec(&self, other: &i64) -> Option<Ordering> {
        if *self < *other {
            Some(Ordering::Less)
        } else if *self == *other {
            Some(Ordering::Equal)
        } else {
            Some(Ordering::Greater)
        }
    }

    fn stripped_partial_cmp(&self, other: &i64) -> Option<Ordering> {
        if *self < *other {
            Some(Ordering::Less)
        } else if *self == *other {
            Some(Ordering::Equal)
        } else {
            Some(Ordering::Greater)
        }
    }
}

impl StrippedPartialOrd<usize> for usize {
    open spec fn stripped_partial_cmp_spec(&self, other: &usize) -> Option<Ordering> {
        if *self < *other {
            Some(Ordering::Less)
        } else if *self == *other {
            Some(Ordering::Equal)
        } else {
            Some(Ordering::Greater)
        }
    }

    fn stripped_partial_cmp(&self, other: &usize) -> Option<Ordering> {
        if *self < *other {
            Some(Ordering::Less)
        } else if *self == *other {
            Some(Ordering::Equal)
        } else {
            Some(Ordering::Greater)
        }
    }
}

} // verus!
