//! Recursive metadata erasure and the metadata-blind wrapper.

use vstd::prelude::*;

use crate::meta::Meta;

pub mod eq;
pub mod hash;
pub mod ord;
pub mod partial_eq;
pub mod partial_ord;

verus! {

/// Type that can be stripped of its metadata.
///
/// Stripping produces the same value with every nested metadata pair
/// removed, keeping only the wrapped payloads, recursively through the
/// standard containers. Primitive scalar types strip to themselves.
pub trait Strip: Sized {
    /// The metadata-free counterpart of `Self`.
    type Stripped;

    /// Relation between a value and its stripped form.
    ///
    /// For every type of this library the relation is a function of the
    /// value — stripping is deterministic — and it is stated structurally,
    /// component by component.
    spec fn strips_to(self, r: Self::Stripped) -> bool;

    /// Removes every nested metadata pair from the value.
    fn strip(self) -> (r: Self::Stripped)
        ensures
            self.strips_to(r),
    ;
}

impl<T: Strip, M> Strip for Meta<T, M> {
    type Stripped = T::Stripped;

    open spec fn strips_to(self, r: T::Stripped) -> bool {
        self.0.strips_to(r)
    }

    fn strip(self) -> (r: T::Stripped) {
        self.0.strip()
    }
}

impl<T: Strip> Strip for Box<T> {
    type Stripped = Box<T::Stripped>;

    open spec fn strips_to(self, r: Box<T::Stripped>) -> bool {
        (*self).strips_to(*r)
    }

    fn strip(self) -> (r: Box<T::Stripped>) {
        Box::new((*self).strip())
    }
}

impl<T: Strip> Strip for Option<T> {
    type Stripped = Option<T::Stripped>;

    open spec fn strips_to(self, r: Option<T::Stripped>) -> bool {
        match self {
            Some(t) => match r {
                Some(u) => t.strips_to(u),
                None => false,
            },
            None => r is None,
        }
    }

    fn strip(self) -> (r: Option<T::Stripped>) {
        match self {
            Some(t) => Some(t.strip()),
            None => None,
        }
    }
}

impl<T: Strip> Strip for Vec<T> {
    type Stripped = Vec<T::Stripped>;

    open spec fn strips_to(self, r: Vec<T::Stripped>) -> bool {
        &&& r.len() == self.len()
        &&& forall|i: int| 0 <= i < self.len() ==> self[i].strips_to(#[trigger] r[i])
    }

    fn strip(self) -> (r: Vec<T::Stripped>) {
        let ghost orig = self;
        let mut v = self;
        let mut r: Vec<T::Stripped> = Vec::new();
        while v.len() > 0
            invariant
                r.len() + v.len() == orig.len(),
                v@ =~= orig@.skip(r.len() as int),
                forall|i: int| 0 <= i < r.len() ==> orig[i].strips_to(#[trigger] r[i]),
            decreases v.len(),
        {
            let t = v.remove(0);
            r.push(t.strip());
        }
        r
    }
}

/// Stripping distributes over sequence concatenation: concatenating two
/// vectors and stripping the result is the same as stripping each vector
/// and concatenating the stripped forms.
pub proof fn lemma_strip_vec_concat<T: Strip>(
    xs: Vec<T>,
    ys: Vec<T>,
    zs: Vec<T>,
    xr: Vec<T::Stripped>,
    yr: Vec<T::Stripped>,
    zr: Vec<T::Stripped>,
)
    requires
        zs@ == xs@ + ys@,
        zr@ == xr@ + yr@,
        xs.strips_to(xr),
        ys.strips_to(yr),
    ensures
        zs.strips_to(zr),
{
}

/// A vector whose elements each strip to themselves — one holding no
/// metadata pair anywhere — strips to itself, structurally unchanged.
pub proof fn lemma_strip_vec_identity<T: Strip<Stripped = T>>(v: Vec<T>, r: Vec<T>)
    requires
        forall|x: T, y: T| #[trigger] x.strips_to(y) ==> y == x,
        v.strips_to(r),
    ensures
        r@ == v@,
{
    assert(r@ =~= v@);
}

impl Strip for bool {
    type Stripped = bool;

    open spec fn strips_to(self, r: bool) -> bool {
        r == self
    }

    fn strip(self) -> (r: bool) {
        self
    }
}

impl Strip for u32 {
    type Stripped = u32;

    open spec fn strips_to(self, r: u32) -> bool {
        r == self
    }

    fn strip(self) -> (r: u32) {
        self
    }
}

impl Strip for u64 {
    type Stripped = u64;

    open spec fn strips_to(self, r: u64) -> bool {
        r == self
    }

    fn strip(self) -> (r: u64) {
        self
    }
}

impl Strip for i64 {
    type Stripped = i64;

    open spec fn strips_to(self, r: i64) -> bool {
        r == self
    }

    fn strip(self) -> (r: i64) {
        self
    }
}

impl Strip for usize {
    type Stripped = usize;

    open spec fn strips_to(self, r: usize) -> bool {
        r == self
    }

    fn strip(self) -> (r: usize) {
        self
    }
}

impl Strip for char {
    type Stripped = char;

    open spec fn strips_to(self, r: char) -> bool {
        r == self
    }

    fn strip(self) -> (r: char) {
        self
    }
}

impl Strip for String {
    type Stripped = String;

    open spec fn strips_to(self, r: String) -> bool {
        r == self
    }

    fn strip(self) -> (r: String) {
        self
    }
}

pub trait BorrowStripped: Sized {
    /// Views `self` through the metadata-blind wrapper, without copying.
    fn stripped(&self) -> (r: Stripped<&Self>)
        ensures
            r.0 == self,
    ;
}

impl<T> BorrowStripped for T {
    fn stripped(&self) -> (r: Stripped<&T>)
        ensures
            r.0 == self,
    {
        Stripped(self)
    }
}

/// Wrapper to consider values without metadata.
///
/// This wrapper can be used in combination with the `Stripped*` traits such
/// as `StrippedPartialEq` to access and compare values ignoring code
/// mapping metadata.
///
/// An owned value can directly be wrapped. Any reference `&T` can be
/// wrapped without copying through [`BorrowStripped::stripped`].
#[derive(Clone, Copy, Debug)]
pub struct Stripped<T>(pub T);

impl<T> Stripped<T> {
    /// Returns the wrapped value.
    pub fn unwrap(self) -> (r: T)
        ensures
            r == self.0,
    {
        self.0
    }
}

} // verus!
