//! Values bundled with metadata.

use vstd::prelude::*;

verus! {

/// Data and its metadata.
///
/// This is a simple wrapper around data that also embeds data of type `M`.
///
/// It is a tuple struct so it can be easily deconstructed using pattern
/// matching.
#[derive(Clone, Copy, PartialEq, Eq, Hash, PartialOrd, Ord, Debug)]
pub struct Meta<T, M = ()>(pub T, pub M);

impl<T, M> Meta<T, M> {
    /// Creates a new value attached to its metadata.
    pub fn new(t: T, metadata: M) -> (r: Meta<T, M>)
        ensures
            r.0 == t,
            r.1 == metadata,
    {
        Meta(t, metadata)
    }

    /// Unwraps the value and discards its metadata.
    pub fn into_value(self) -> (r: T)
        ensures
            r == self.0,
    {
        self.0
    }

    /// Discards the value and returns its metadata.
    pub fn into_metadata(self) -> (r: M)
        ensures
            r == self.1,
    {
        self.1
    }

    /// Returns a reference to the wrapped value.
    pub fn value(&self) -> (r: &T)
        ensures
            r == self.0,
    {
        &self.0
    }

    /// Returns a mutable reference to the wrapped value.
    pub fn value_mut(&mut self) -> (r: &mut T)
        ensures
            *r == old(self).0,
            final(self).0 == *final(r),
            final(self).1 == old(self).1,
    {
        &mut self.0
    }

    /// Returns a reference to the value's metadata.
    pub fn metadata(&self) -> (r: &M)
        ensures
            r == self.1,
    {
        &self.1
    }

    /// Returns a mutable reference to the value's metadata.
    pub fn metadata_mut(&mut self) -> (r: &mut M)
        ensures
            *r == old(self).1,
            final(self).1 == *final(r),
            final(self).0 == old(self).0,
    {
        &mut self.1
    }

    /// Maps the inner value, leaving the metadata untouched.
    pub fn map<U, Op: FnOnce(T) -> U>(self, f: Op) -> (r: Meta<U, M>)
        requires
            call_requires(f, (self.0,)),
        ensures
            call_ensures(f, (self.0,), r.0),
            r.1 == self.1,
    {
        Meta(f(self.0), self.1)
    }

    /// Converts the inner value.
    pub fn cast<U>(self) -> (r: Meta<U, M>) where U: From<T>
        ensures
            call_ensures(<U as From<T>>::from, (self.0,), r.0),
            r.1 == self.1,
    {
        Meta(U::from(self.0), self.1)
    }

    /// Tries to map the inner value.
    ///
    /// On failure, the metadata is dropped with the error path: a failed
    /// transform produces no located value.
    pub fn try_map<U, E, Op: FnOnce(T) -> Result<U, E>>(self, f: Op) -> (r: Result<
        Meta<U, M>,
        E,
    >)
        requires
            call_requires(f, (self.0,)),
        ensures
            match r {
                Ok(m) => call_ensures(f, (self.0,), Ok(m.0)) && m.1 == self.1,
                Err(e) => call_ensures(f, (self.0,), Err(e)),
            },
    {
        match f(self.0) {
            Ok(u) => Ok(Meta(u, self.1)),
            Err(e) => Err(e),
        }
    }

    /// Tries to convert the inner value.
    pub fn try_cast<U>(self) -> (r: Result<Meta<U, M>, U::Error>) where U: TryFrom<T>
        ensures
            match r {
                Ok(m) => call_ensures(<U as TryFrom<T>>::try_from, (self.0,), Ok(m.0)) && m.1
                    == self.1,
                Err(e) => call_ensures(<U as TryFrom<T>>::try_from, (self.0,), Err(e)),
            },
    {
        match U::try_from(self.0) {
            Ok(u) => Ok(Meta(u, self.1)),
            Err(e) => Err(e),
        }
    }

    /// Maps the metadata, leaving the value untouched.
    pub fn map_metadata<N, Op: FnOnce(M) -> N>(self, f: Op) -> (r: Meta<T, N>)
        requires
            call_requires(f, (self.1,)),
        ensures
            r.0 == self.0,
            call_ensures(f, (self.1,), r.1),
    {
        Meta(self.0, f(self.1))
    }

    /// Tries to map the metadata.
    pub fn try_map_metadata<N, E, Op: FnOnce(M) -> Result<N, E>>(self, f: Op) -> (r: Result<
        Meta<T, N>,
        E,
    >)
        requires
            call_requires(f, (self.1,)),
        ensures
            match r {
                Ok(m) => m.0 == self.0 && call_ensures(f, (self.1,), Ok(m.1)),
                Err(e) => call_ensures(f, (self.1,), Err(e)),
            },
    {
        match f(self.1) {
            Ok(n) => Ok(Meta(self.0, n)),
            Err(e) => Err(e),
        }
    }

    /// Casts the metadata.
    pub fn cast_metadata<N>(self) -> (r: Meta<T, N>) where N: From<M>
        ensures
            r.0 == self.0,
            call_ensures(<N as From<M>>::from, (self.1,), r.1),
    {
        Meta(self.0, N::from(self.1))
    }

    /// Tries to cast the metadata.
    pub fn try_cast_metadata<N>(self) -> (r: Result<Meta<T, N>, M::Error>) where M: TryInto<N>
        ensures
            match r {
                Ok(m) => m.0 == self.0 && call_ensures(
                    <M as TryInto<N>>::try_into,
                    (self.1,),
                    Ok(m.1),
                ),
                Err(e) => call_ensures(<M as TryInto<N>>::try_into, (self.1,), Err(e)),
            },
    {
        match self.1.try_into() {
            Ok(n) => Ok(Meta(self.0, n)),
            Err(e) => Err(e),
        }
    }

    /// Borrows the value and its metadata.
    pub fn borrow(&self) -> (r: Meta<&T, &M>)
        ensures
            r.0 == self.0,
            r.1 == self.1,
    {
        Meta(&self.0, &self.1)
    }

    /// Borrows the value and clones the metadata.
    pub fn borrow_value(&self) -> (r: Meta<&T, M>) where M: Clone
        ensures
            r.0 == self.0,
            call_ensures(<M as Clone>::clone, (&self.1,), r.1),
    {
        Meta(&self.0, self.1.clone())
    }

    /// Clones the value and borrows the metadata.
    pub fn borrow_metadata(&self) -> (r: Meta<T, &M>) where T: Clone
        ensures
            call_ensures(<T as Clone>::clone, (&self.0,), r.0),
            r.1 == self.1,
    {
        Meta(self.0.clone(), &self.1)
    }
}

impl<T> Meta<T, ()> {
    /// Creates a value without metadata.
    pub fn none(value: T) -> (r: Meta<T, ()>)
        ensures
            r.0 == value,
    {
        Meta(value, ())
    }
}

impl<'t, 'm, T: Clone, M: Clone> Meta<&'t T, &'m M> {
    /// Clones the borrowed value and metadata to return a new `Meta<T, M>`.
    pub fn cloned(&self) -> (r: Meta<T, M>)
        ensures
            call_ensures(<T as Clone>::clone, (self.0,), r.0),
            call_ensures(<M as Clone>::clone, (self.1,), r.1),
    {
        Meta(self.0.clone(), self.1.clone())
    }
}

impl<'t, T: Clone, M> Meta<&'t T, M> {
    /// Clones the borrowed value and clones the metadata to return a new
    /// `Meta<T, M>`.
    pub fn cloned_value(&self) -> (r: Meta<T, M>) where M: Clone
        ensures
            call_ensures(<T as Clone>::clone, (self.0,), r.0),
            call_ensures(<M as Clone>::clone, (&self.1,), r.1),
    {
        Meta(self.0.clone(), self.1.clone())
    }

    /// Clones the borrowed value and consumes the metadata to return a new
    /// `Meta<T, M>`.
    pub fn into_cloned_value(self) -> (r: Meta<T, M>)
        ensures
            call_ensures(<T as Clone>::clone, (self.0,), r.0),
            r.1 == self.1,
    {
        Meta(self.0.clone(), self.1)
    }
}

impl<'m, T, M: Clone> Meta<T, &'m M> {
    /// Clones the borrowed metadata and clones the value to return a new
    /// `Meta<T, M>`.
    pub fn cloned_metadata(&self) -> (r: Meta<T, M>) where T: Clone
        ensures
            call_ensures(<T as Clone>::clone, (&self.0,), r.0),
            call_ensures(<M as Clone>::clone, (self.1,), r.1),
    {
        Meta(self.0.clone(), self.1.clone())
    }

    /// Clones the borrowed metadata and consumes the value to return a new
    /// `Meta<T, M>`.
    pub fn into_cloned_metadata(self) -> (r: Meta<T, M>)
        ensures
            r.0 == self.0,
            call_ensures(<M as Clone>::clone, (self.1,), r.1),
    {
        Meta(self.0, self.1.clone())
    }
}

impl<T, M> Meta<Option<T>, M> {
    /// Unwraps the inner `Option`, which must hold a value.
    pub fn unwrap(self) -> (r: Meta<T, M>)
        requires
            self.0 is Some,
        ensures
            self.0 == Some(r.0),
            r.1 == self.1,
    {
        match self.0 {
            Some(t) => Meta(t, self.1),
            None => unreached(),
        }
    }

    /// Moves the inner `Option` outside the pair, dropping the metadata when
    /// there is no value.
    pub fn transpose(self) -> (r: Option<Meta<T, M>>)
        ensures
            match self.0 {
                Some(t) => r == Some(Meta(t, self.1)),
                None => r is None,
            },
    {
        match self.0 {
            Some(t) => Some(Meta(t, self.1)),
            None => None,
        }
    }
}

/// A metadata transformation, threaded by mutable reference through a whole
/// recursive traversal.
///
/// This is the explicit, possibly stateful context object used by
/// [`MapMetadataRecursively`]: one single mapper value is passed down through
/// the recursion, so a transformation can carry state (an id counter, an
/// interner) across every metadata occurrence it visits.
pub trait MetadataMapper<M, N>: Sized {
    /// Relation between the mapper state before a call, the state after it,
    /// the metadata passed in and the metadata handed back.
    spec fn maps(self, next: Self, m: M, n: N) -> bool;

    /// Transforms one metadata occurrence, possibly updating the mapper
    /// state.
    fn apply(&mut self, m: M) -> (n: N)
        ensures
            old(self).maps(*final(self), m, n),
    ;
}

/// A fallible metadata transformation, threaded by mutable reference through
/// a whole recursive traversal.
///
/// This is the fallible counterpart of [`MetadataMapper`], used by
/// [`TryMapMetadataRecursively`].
pub trait TryMetadataMapper<M, N, E>: Sized {
    /// Relation between the mapper state before a call, the state after it,
    /// the metadata passed in and the outcome handed back.
    spec fn try_maps(self, next: Self, m: M, r: Result<N, E>) -> bool;

    /// Tries to transform one metadata occurrence, possibly updating the
    /// mapper state.
    fn try_apply(&mut self, m: M) -> (r: Result<N, E>)
        ensures
            old(self).try_maps(*final(self), m, r),
    ;
}

/// Holds when running the mapper from state `f0` over the metadata
/// occurrences `ms`, in order, can produce the new metadata `ns` and leave
/// the mapper in state `f1`.
pub open spec fn maps_chain<M, N, Op: MetadataMapper<M, N>>(
    f0: Op,
    ms: Seq<M>,
    f1: Op,
    ns: Seq<N>,
) -> bool
    decreases ms.len(),
{
    &&& ns.len() == ms.len()
    &&& if ms.len() == 0 {
        f1 == f0
    } else {
        exists|g: Op|
            {
                &&& #[trigger] f0.maps(g, ms[0], ns[0])
                &&& maps_chain(g, ms.skip(1), f1, ns.skip(1))
            }
    }
}

/// Holds when running the fallible mapper from state `f0` over the metadata
/// occurrences `ms`, in order, can produce the outcome `out` and leave the
/// mapper in state `f1`.
///
/// A failure outcome carries the error of the first failing call: every
/// earlier occurrence was transformed successfully, the failing call is the
/// last one made, and `f1` is the mapper state right after it — no later
/// occurrence is visited.
pub open spec fn try_maps_chain<M, N, E, Op: TryMetadataMapper<M, N, E>>(
    f0: Op,
    ms: Seq<M>,
    f1: Op,
    out: Result<Seq<N>, E>,
) -> bool
    decreases ms.len(),
{
    match out {
        Ok(ns) => {
            &&& ns.len() == ms.len()
            &&& if ms.len() == 0 {
                f1 == f0
            } else {
                exists|g: Op|
                    {
                        &&& #[trigger] f0.try_maps(g, ms[0], Ok(ns[0]))
                        &&& try_maps_chain(g, ms.skip(1), f1, Ok(ns.skip(1)))
                    }
            }
        },
        Err(e) => {
            &&& ms.len() > 0
            &&& {
                ||| f0.try_maps(f1, ms[0], Err(e))
                ||| exists|g: Op, n: N|
                    {
                        &&& #[trigger] f0.try_maps(g, ms[0], Ok(n))
                        &&& try_maps_chain(g, ms.skip(1), f1, Err(e))
                    }
            }
        },
    }
}

/// Provides a function to map the metadata inside a recursive data
/// structure.
///
/// The traversal is pre-order and deterministic: at each metadata pair the
/// mapper is invoked on the pair's own metadata before the pair's value is
/// visited, and sequence-shaped children are visited first to last. The
/// pre-order contract is captured by [`Self::metadata_seq`], which lists the
/// metadata occurrences in exactly that order, and by the
/// [`maps_chain`] relation over it.
pub trait MapMetadataRecursively<M, N>: Sized {
    /// The same tree shape, with metadata type `N` instead of `M`.
    type Output;

    /// Pre-order sequence of every metadata occurrence in the tree: at each
    /// pair, the pair's own metadata comes before the metadata of its
    /// children.
    spec fn metadata_seq(self) -> Seq<M>;

    /// Holds when `o` is `self` with its pre-order metadata occurrences
    /// replaced by `ns`, element for element: the tree shape is preserved.
    spec fn replaced(self, ns: Seq<N>, o: Self::Output) -> bool;

    /// Maps the metadata, recursively, using a mutable reference to the
    /// mapping context.
    fn map_metadata_recursively<Op: MetadataMapper<M, N>>(self, f: &mut Op) -> (o: Self::Output)
        ensures
            exists|ns: Seq<N>|
                {
                    &&& #[trigger] self.replaced(ns, o)
                    &&& maps_chain(*old(f), self.metadata_seq(), *final(f), ns)
                },
    ;
}

/// Provides a function that tries to map the metadata inside a recursive
/// data structure.
///
/// The traversal order is the same as for [`MapMetadataRecursively`], and
/// the traversal aborts at the first failure: the error of the first failing
/// mapper call is returned, and no later metadata occurrence is visited.
pub trait TryMapMetadataRecursively<M, N, E>: Sized {
    /// The same tree shape, with metadata type `N` instead of `M`.
    type Output;

    /// Pre-order sequence of every metadata occurrence in the tree.
    spec fn try_metadata_seq(self) -> Seq<M>;

    /// Holds when `o` is `self` with its pre-order metadata occurrences
    /// replaced by `ns`, element for element.
    spec fn try_replaced(self, ns: Seq<N>, o: Self::Output) -> bool;

    /// Tries to map the metadata, recursively, using a mutable reference to
    /// the mapping context.
    fn try_map_metadata_recursively<Op: TryMetadataMapper<M, N, E>>(self, f: &mut Op) -> (r:
        Result<Self::Output, E>)
        ensures
            r is Ok ==> exists|ns: Seq<N>|
                {
                    &&& self.try_replaced(ns, r->Ok_0)
                    &&& #[trigger] try_maps_chain(
                        *old(f),
                        self.try_metadata_seq(),
                        *final(f),
                        Ok(ns),
                    )
                },
            r is Err ==> try_maps_chain(
                *old(f),
                self.try_metadata_seq(),
                *final(f),
                Err(r->Err_0),
            ),
    ;
}

impl<T: MapMetadataRecursively<M, N>, M, N> MapMetadataRecursively<M, N> for Meta<T, M> {
    type Output = Meta<T::Output, N>;

    open spec fn metadata_seq(self) -> Seq<M> {
        seq![self.1] + self.0.metadata_seq()
    }

    open spec fn replaced(self, ns: Seq<N>, o: Meta<T::Output, N>) -> bool {
        &&& ns.len() == 1 + self.0.metadata_seq().len()
        &&& o.1 == ns[0]
        &&& self.0.replaced(ns.skip(1), o.0)
    }

    fn map_metadata_recursively<Op: MetadataMapper<M, N>>(self, f: &mut Op) -> (o: Meta<
        T::Output,
        N,
    >) {
        let ghost this = self;
        let Meta(value, metadata) = self;
        let n = f.apply(metadata);
        let ghost f_mid = *f;
        let out = value.map_metadata_recursively(f);
        proof {
            let ns_rest = choose|ns: Seq<N>|
                {
                    &&& #[trigger] value.replaced(ns, out)
                    &&& maps_chain(f_mid, value.metadata_seq(), *f, ns)
                };
            let ns = seq![n] + ns_rest;
            assert(ns.skip(1) =~= ns_rest);
            assert(this.metadata_seq().skip(1) =~= value.metadata_seq());
            assert(this.metadata_seq()[0] == metadata);
            assert(this.replaced(ns, Meta(out, n)));
            assert((*old(f)).maps(f_mid, this.metadata_seq()[0], ns[0]));
            assert(maps_chain(f_mid, this.metadata_seq().skip(1), *f, ns.skip(1)));
            assert(maps_chain(*old(f), this.metadata_seq(), *f, ns));
        }
        Meta(out, n)
    }
}

impl<T: TryMapMetadataRecursively<M, N, E>, M, N, E> TryMapMetadataRecursively<M, N, E> for Meta<
    T,
    M,
> {
    type Output = Meta<T::Output, N>;

    open spec fn try_metadata_seq(self) -> Seq<M> {
        seq![self.1] + self.0.try_metadata_seq()
    }

    open spec fn try_replaced(self, ns: Seq<N>, o: Meta<T::Output, N>) -> bool {
        &&& ns.len() == 1 + self.0.try_metadata_seq().len()
        &&& o.1 == ns[0]
        &&& self.0.try_replaced(ns.skip(1), o.0)
    }

    fn try_map_metadata_recursively<Op: TryMetadataMapper<M, N, E>>(self, f: &mut Op) -> (r:
        Result<Meta<T::Output, N>, E>) {
        let ghost this = self;
        let Meta(value, metadata) = self;
        let n = match f.try_apply(metadata) {
            Ok(n) => n,
            Err(e) => {
                proof {
                    assert(this.try_metadata_seq().len() > 0);
                    assert(this.try_metadata_seq()[0] == metadata);
                    assert((*old(f)).try_maps(*f, this.try_metadata_seq()[0], Err(e)));
                }
                return Err(e);
            },
        };
        let ghost f_mid = *f;
        let out = match value.try_map_metadata_recursively(f) {
            Ok(out) => out,
            Err(e) => {
                proof {
                    assert(this.try_metadata_seq().skip(1) =~= value.try_metadata_seq());
                    assert(this.try_metadata_seq()[0] == metadata);
                    assert((*old(f)).try_maps(f_mid, this.try_metadata_seq()[0], Ok(n)));
                    assert(try_maps_chain(f_mid, this.try_metadata_seq().skip(1), *f, Err(e)));
                    assert(try_maps_chain(*old(f), this.try_metadata_seq(), *f, Err(e)));
                }
                return Err(e);
            },
        };
        proof {
            let ns_rest = choose|ns: Seq<N>|
                {
                    &&& #[trigger] value.try_replaced(ns, out)
                    &&& try_maps_chain(f_mid, value.try_metadata_seq(), *f, Ok(ns))
                };
            let ns = seq![n] + ns_rest;
            lemma_try_maps_chain_cons(
                *old(f),
                f_mid,
                metadata,
                n,
                value.try_metadata_seq(),
                *f,
                ns_rest,
            );
            assert(this.try_metadata_seq() == seq![metadata] + value.try_metadata_seq());
            assert(ns.skip(1) =~= ns_rest);
            assert(this.try_replaced(ns, Meta(out, n)));
            assert(try_maps_chain(*old(f), this.try_metadata_seq(), *f, Ok(ns)));
        }
        Ok(Meta(out, n))
    }
}

/// One successful mapper call in front of a successful chain makes a longer
/// successful chain.
proof fn lemma_try_maps_chain_cons<M, N, E, Op: TryMetadataMapper<M, N, E>>(
    f0: Op,
    g: Op,
    m: M,
    n: N,
    ms: Seq<M>,
    f1: Op,
    ns: Seq<N>,
)
    requires
        f0.try_maps(g, m, Ok(n)),
        try_maps_chain(g, ms, f1, Ok(ns)),
    ensures
        try_maps_chain(f0, seq![m] + ms, f1, Ok(seq![n] + ns)),
{
    let cms = seq![m] + ms;
    let cns = seq![n] + ns;
    assert(cms[0] == m);
    assert(cns[0] == n);
    assert(cms.skip(1) =~= ms);
    assert(cns.skip(1) =~= ns);
    assert(f0.try_maps(g, cms[0], Ok(cns[0])));
    assert(try_maps_chain(g, cms.skip(1), f1, Ok(cns.skip(1))));
}

impl<T: MapMetadataRecursively<M, N>, M, N> MapMetadataRecursively<M, N> for Box<T> {
    type Output = Box<T::Output>;

    open spec fn metadata_seq(self) -> Seq<M> {
        (*self).metadata_seq()
    }

    open spec fn replaced(self, ns: Seq<N>, o: Box<T::Output>) -> bool {
        (*self).replaced(ns, *o)
    }

    fn map_metadata_recursively<Op: MetadataMapper<M, N>>(self, f: &mut Op) -> (o: Box<
        T::Output,
    >) {
        let ghost this = self;
        let inner = (*self).map_metadata_recursively(f);
        let out = Box::new(inner);
        proof {
            let ns = choose|ns: Seq<N>|
                {
                    &&& #[trigger] (*this).replaced(ns, inner)
                    &&& maps_chain(*old(f), (*this).metadata_seq(), *f, ns)
                };
            assert(this.replaced(ns, out));
            assert(maps_chain(*old(f), this.metadata_seq(), *f, ns));
        }
        out
    }
}

impl<T: TryMapMetadataRecursively<M, N, E>, M, N, E> TryMapMetadataRecursively<M, N, E> for Box<
    T,
> {
    type Output = Box<T::Output>;

    open spec fn try_metadata_seq(self) -> Seq<M> {
        (*self).try_metadata_seq()
    }

    open spec fn try_replaced(self, ns: Seq<N>, o: Box<T::Output>) -> bool {
        (*self).try_replaced(ns, *o)
    }

    fn try_map_metadata_recursively<Op: TryMetadataMapper<M, N, E>>(self, f: &mut Op) -> (r:
        Result<Box<T::Output>, E>) {
        let ghost this = self;
        match (*self).try_map_metadata_recursively(f) {
            Ok(inner) => {
                let out = Box::new(inner);
                proof {
                    let ns = choose|ns: Seq<N>|
                        {
                            &&& (*this).try_replaced(ns, inner)
                            &&& #[trigger] try_maps_chain(
                                *old(f),
                                (*this).try_metadata_seq(),
                                *f,
                                Ok(ns),
                            )
                        };
                    assert(this.try_replaced(ns, out));
                    assert(try_maps_chain(*old(f), this.try_metadata_seq(), *f, Ok(ns)));
                }
                Ok(out)
            },
            Err(e) => {
                proof {
                    assert(try_maps_chain(*old(f), this.try_metadata_seq(), *f, Err(e)));
                }
                Err(e)
            },
        }
    }
}

impl<T: MapMetadataRecursively<M, N>, M, N> MapMetadataRecursively<M, N> for Option<T> {
    type Output = Option<T::Output>;

    open spec fn metadata_seq(self) -> Seq<M> {
        match self {
            Some(t) => t.metadata_seq(),
            None => Seq::empty(),
        }
    }

    open spec fn replaced(self, ns: Seq<N>, o: Option<T::Output>) -> bool {
        match self {
            Some(t) => match o {
                Some(u) => t.replaced(ns, u),
                None => false,
            },
            None => ns.len() == 0 && o is None,
        }
    }

    fn map_metadata_recursively<Op: MetadataMapper<M, N>>(self, f: &mut Op) -> (o: Option<
        T::Output,
    >) {
        let ghost this = self;
        match self {
            Some(t) => {
                let u = t.map_metadata_recursively(f);
                proof {
                    let ns = choose|ns: Seq<N>|
                        {
                            &&& #[trigger] t.replaced(ns, u)
                            &&& maps_chain(*old(f), t.metadata_seq(), *f, ns)
                        };
                    assert(this.replaced(ns, Some(u)));
                    assert(maps_chain(*old(f), this.metadata_seq(), *f, ns));
                }
                Some(u)
            },
            None => {
                proof {
                    let ns = Seq::<N>::empty();
                    assert(this.replaced(ns, None::<T::Output>));
                    assert(maps_chain(*old(f), this.metadata_seq(), *f, ns));
                }
                None
            },
        }
    }
}

impl<T: TryMapMetadataRecursively<M, N, E>, M, N, E> TryMapMetadataRecursively<M, N, E> for Option<
    T,
> {
    type Output = Option<T::Output>;

    open spec fn try_metadata_seq(self) -> Seq<M> {
        match self {
            Some(t) => t.try_metadata_seq(),
            None => Seq::empty(),
        }
    }

    open spec fn try_replaced(self, ns: Seq<N>, o: Option<T::Output>) -> bool {
        match self {
            Some(t) => match o {
                Some(u) => t.try_replaced(ns, u),
                None => false,
            },
            None => ns.len() == 0 && o is None,
        }
    }

    fn try_map_metadata_recursively<Op: TryMetadataMapper<M, N, E>>(self, f: &mut Op) -> (r:
        Result<Option<T::Output>, E>) {
        let ghost this = self;
        match self {
            Some(t) => match t.try_map_metadata_recursively(f) {
                Ok(u) => {
                    proof {
                        let ns = choose|ns: Seq<N>|
                            {
                                &&& t.try_replaced(ns, u)
                                &&& #[trigger] try_maps_chain(
                                    *old(f),
                                    t.try_metadata_seq(),
                                    *f,
                                    Ok(ns),
                                )
                            };
                        assert(this.try_replaced(ns, Some(u)));
                        assert(try_maps_chain(*old(f), this.try_metadata_seq(), *f, Ok(ns)));
                    }
                    Ok(Some(u))
                },
                Err(e) => {
                    proof {
                        assert(try_maps_chain(*old(f), this.try_metadata_seq(), *f, Err(e)));
                    }
                    Err(e)
                },
            },
            None => {
                proof {
                    let ns = Seq::<N>::empty();
                    assert(this.try_replaced(ns, None::<T::Output>));
                    assert(try_maps_chain(*old(f), this.try_metadata_seq(), *f, Ok(ns)));
                }
                Ok(None)
            },
        }
    }
}

/// A metadata-free leaf: the value holds no metadata pair, so a recursive
/// metadata mapping visits nothing and returns the value unchanged.
impl<M, N> MapMetadataRecursively<M, N> for bool {
    type Output = bool;

    open spec fn metadata_seq(self) -> Seq<M> {
        Seq::empty()
    }

    open spec fn replaced(self, ns: Seq<N>, o: bool) -> bool {
        ns.len() == 0 && o == self
    }

    fn map_metadata_recursively<Op: MetadataMapper<M, N>>(self, f: &mut Op) -> (o: bool) {
        let ghost this = self;
        proof {
            assert(<bool as MapMetadataRecursively<M, N>>::replaced(this, Seq::<N>::empty(), this));
            assert(maps_chain(
                *old(f),
                <bool as MapMetadataRecursively<M, N>>::metadata_seq(this),
                *f,
                Seq::<N>::empty(),
            ));
        }
        self
    }
}

impl<M, N, E> TryMapMetadataRecursively<M, N, E> for bool {
    type Output = bool;

    open spec fn try_metadata_seq(self) -> Seq<M> {
        Seq::empty()
    }

    open spec fn try_replaced(self, ns: Seq<N>, o: bool) -> bool {
        ns.len() == 0 && o == self
    }

    fn try_map_metadata_recursively<Op: TryMetadataMapper<M, N, E>>(self, f: &mut Op) -> (r:
        Result<bool, E>) {
        let ghost this = self;
        proof {
            assert(<bool as TryMapMetadataRecursively<M, N, E>>::try_replaced(
                this,
                Seq::<N>::empty(),
                this,
            ));
            assert(try_maps_chain(
                *old(f),
                <bool as TryMapMetadataRecursively<M, N, E>>::try_metadata_seq(this),
                *f,
                Ok(Seq::<N>::empty()),
            ));
        }
        Ok(self)
    }
}

impl<M, N> MapMetadataRecursively<M, N> for u32 {
    type Output = u32;

    open spec fn metadata_seq(self) -> Seq<M> {
        Seq::empty()
    }

    open spec fn replaced(self, ns: Seq<N>, o: u32) -> bool {
        ns.len() == 0 && o == self
    }

    fn map_metadata_recursively<Op: MetadataMapper<M, N>>(self, f: &mut Op) -> (o: u32) {
        let ghost this = self;
        proof {
            assert(<u32 as MapMetadataRecursively<M, N>>::replaced(this, Seq::<N>::empty(), this));
            assert(maps_chain(
                *old(f),
                <u32 as MapMetadataRecursively<M, N>>::metadata_seq(this),
                *f,
                Seq::<N>::empty(),
            ));
        }
        self
    }
}

impl<M, N, E> TryMapMetadataRecursively<M, N, E> for u32 {
    type Output = u32;

    open spec fn try_metadata_seq(self) -> Seq<M> {
        Seq::empty()
    }

    open spec fn try_replaced(self, ns: Seq<N>, o: u32) -> bool {
        ns.len() == 0 && o == self
    }

    fn try_map_metadata_recursively<Op: TryMetadataMapper<M, N, E>>(self, f: &mut Op) -> (r:
        Result<u32, E>) {
        let ghost this = self;
        proof {
            assert(<u32 as TryMapMetadataRecursively<M, N, E>>::try_replaced(
                this,
                Seq::<N>::empty(),
                this,
            ));
            assert(try_maps_chain(
                *old(f),
                <u32 as TryMapMetadataRecursively<M, N, E>>::try_metadata_seq(this),
                *f,
                Ok(Seq::<N>::empty()),
            ));
        }
        Ok(self)
    }
}

impl<M, N> MapMetadataRecursively<M, N> for u64 {
    type Output = u64;

    open spec fn metadata_seq(self) -> Seq<M> {
        Seq::empty()
    }

    open spec fn replaced(self, ns: Seq<N>, o: u64) -> bool {
        ns.len() == 0 && o == self
    }

    fn map_metadata_recursively<Op: MetadataMapper<M, N>>(self, f: &mut Op) -> (o: u64) {
        let ghost this = self;
        proof {
            assert(<u64 as MapMetadataRecursively<M, N>>::replaced(this, Seq::<N>::empty(), this));
            assert(maps_chain(
                *old(f),
                <u64 as MapMetadataRecursively<M, N>>::metadata_seq(this),
                *f,
                Seq::<N>::empty(),
            ));
        }
        self
    }
}

impl<M, N, E> TryMapMetadataRecursively<M, N, E> for u64 {
    type Output = u64;

    open spec fn try_metadata_seq(self) -> Seq<M> {
        Seq::empty()
    }

    open spec fn try_replaced(self, ns: Seq<N>, o: u64) -> bool {
        ns.len() == 0 && o == self
    }

    fn try_map_metadata_recursively<Op: TryMetadataMapper<M, N, E>>(self, f: &mut Op) -> (r:
        Result<u64, E>) {
        let ghost this = self;
        proof {
            assert(<u64 as TryMapMetadataRecursively<M, N, E>>::try_replaced(
                this,
                Seq::<N>::empty(),
                this,
            ));
            assert(try_maps_chain(
                *old(f),
                <u64 as TryMapMetadataRecursively<M, N, E>>::try_metadata_seq(this),
                *f,
                Ok(Seq::<N>::empty()),
            ));
        }
        Ok(self)
    }
}

impl<M, N> MapMetadataRecursively<M, N> for usize {
    type Output = usize;

    open spec fn metadata_seq(self) -> Seq<M> {
        Seq::empty()
    }

    open spec fn replaced(self, ns: Seq<N>, o: usize) -> bool {
        ns.len() == 0 && o == self
    }

    fn map_metadata_recursively<Op: MetadataMapper<M, N>>(self, f: &mut Op) -> (o: usize) {
        let ghost this = self;
        proof {
            assert(<usize as MapMetadataRecursively<M, N>>::replaced(this, Seq::<N>::empty(), this));
            assert(maps_chain(
                *old(f),
                <usize as MapMetadataRecursively<M, N>>::metadata_seq(this),
                *f,
                Seq::<N>::empty(),
            ));
        }
        self
    }
}

impl<M, N, E> TryMapMetadataRecursively<M, N, E> for usize {
    type Output = usize;

    open spec fn try_metadata_seq(self) -> Seq<M> {
        Seq::empty()
    }

    open spec fn try_replaced(self, ns: Seq<N>, o: usize) -> bool {
        ns.len() == 0 && o == self
    }

    fn try_map_metadata_recursively<Op: TryMetadataMapper<M, N, E>>(self, f: &mut Op) -> (r:
        Result<usize, E>) {
        let ghost this = self;
        proof {
            assert(<usize as TryMapMetadataRecursively<M, N, E>>::try_replaced(
                this,
                Seq::<N>::empty(),
                this,
            ));
            assert(try_maps_chain(
                *old(f),
                <usize as TryMapMetadataRecursively<M, N, E>>::try_metadata_seq(this),
                *f,
                Ok(Seq::<N>::empty()),
            ));
        }
        Ok(self)
    }
}

impl<M, N> MapMetadataRecursively<M, N> for String {
    type Output = String;

    open spec fn metadata_seq(self) -> Seq<M> {
        Seq::empty()
    }

    open spec fn replaced(self, ns: Seq<N>, o: String) -> bool {
        ns.len() == 0 && o == self
    }

    fn map_metadata_recursively<Op: MetadataMapper<M, N>>(self, f: &mut Op) -> (o: String) {
        let ghost this = self;
        proof {
            assert(<String as MapMetadataRecursively<M, N>>::replaced(this, Seq::<N>::empty(), this));
            assert(maps_chain(
                *old(f),
                <String as MapMetadataRecursively<M, N>>::metadata_seq(this),
                *f,
                Seq::<N>::empty(),
            ));
        }
        self
    }
}

impl<M, N, E> TryMapMetadataRecursively<M, N, E> for String {
    type Output = String;

    open spec fn try_metadata_seq(self) -> Seq<M> {
        Seq::empty()
    }

    open spec fn try_replaced(self, ns: Seq<N>, o: String) -> bool {
        ns.len() == 0 && o == self
    }

    fn try_map_metadata_recursively<Op: TryMetadataMapper<M, N, E>>(self, f: &mut Op) -> (r:
        Result<String, E>) {
        let ghost this = self;
        proof {
            assert(<String as TryMapMetadataRecursively<M, N, E>>::try_replaced(
                this,
                Seq::<N>::empty(),
                this,
            ));
            assert(try_maps_chain(
                *old(f),
                <String as TryMapMetadataRecursively<M, N, E>>::try_metadata_seq(this),
                *f,
                Ok(Seq::<N>::empty()),
            ));
        }
        Ok(self)
    }
}

/// One successful mapper call in front of a chain makes a longer chain.
proof fn lemma_maps_chain_cons<M, N, Op: MetadataMapper<M, N>>(
    f0: Op,
    g: Op,
    m: M,
    n: N,
    ms: Seq<M>,
    f1: Op,
    ns: Seq<N>,
)
    requires
        f0.maps(g, m, n),
        maps_chain(g, ms, f1, ns),
    ensures
        maps_chain(f0, seq![m] + ms, f1, seq![n] + ns),
{
    let cms = seq![m] + ms;
    let cns = seq![n] + ns;
    assert(cms[0] == m);
    assert(cns[0] == n);
    assert(cms.skip(1) =~= ms);
    assert(cns.skip(1) =~= ns);
    assert(f0.maps(g, cms[0], cns[0]));
    assert(maps_chain(g, cms.skip(1), f1, cns.skip(1)));
}

/// Two consecutive chains make one chain over the concatenated metadata.
proof fn lemma_maps_chain_concat<M, N, Op: MetadataMapper<M, N>>(
    f0: Op,
    a: Seq<M>,
    f1: Op,
    x: Seq<N>,
    b: Seq<M>,
    f2: Op,
    y: Seq<N>,
)
    requires
        maps_chain(f0, a, f1, x),
        maps_chain(f1, b, f2, y),
    ensures
        maps_chain(f0, a + b, f2, x + y),
    decreases a.len(),
{
    if a.len() == 0 {
        assert(a + b =~= b);
        assert(x + y =~= y);
    } else {
        let g = choose|g: Op|
            {
                &&& #[trigger] f0.maps(g, a[0], x[0])
                &&& maps_chain(g, a.skip(1), f1, x.skip(1))
            };
        lemma_maps_chain_concat(g, a.skip(1), f1, x.skip(1), b, f2, y);
        lemma_maps_chain_cons(f0, g, a[0], x[0], a.skip(1) + b, f2, x.skip(1) + y);
        assert(seq![a[0]] + (a.skip(1) + b) =~= a + b);
        assert(seq![x[0]] + (x.skip(1) + y) =~= x + y);
    }
}

/// Pre-order metadata occurrences of a sequence of trees, first to last.
pub open spec fn seq_metadata<M, N, T: MapMetadataRecursively<M, N>>(s: Seq<T>) -> Seq<M>
    decreases s.len(),
{
    if s.len() == 0 {
        Seq::empty()
    } else {
        s[0].metadata_seq() + seq_metadata::<M, N, T>(s.skip(1))
    }
}

/// Holds when `o` is the sequence `s` with the pre-order metadata
/// occurrences of its trees replaced by `ns`, element for element, first
/// tree to last.
pub open spec fn seq_replaced<M, N, T: MapMetadataRecursively<M, N>>(
    s: Seq<T>,
    ns: Seq<N>,
    o: Seq<T::Output>,
) -> bool
    decreases s.len(),
{
    if s.len() == 0 {
        ns.len() == 0 && o.len() == 0
    } else {
        let l0 = s[0].metadata_seq().len();
        &&& o.len() == s.len()
        &&& ns.len() >= l0
        &&& s[0].replaced(ns.take(l0 as int), o[0])
        &&& seq_replaced::<M, N, T>(s.skip(1), ns.skip(l0 as int), o.skip(1))
    }
}

/// Appending one tree appends its metadata occurrences to the sequence's
/// pre-order stream.
proof fn lemma_seq_metadata_push<M, N, T: MapMetadataRecursively<M, N>>(s: Seq<T>, t: T)
    ensures
        seq_metadata::<M, N, T>(s.push(t)) == seq_metadata::<M, N, T>(s) + t.metadata_seq(),
    decreases s.len(),
{
    if s.len() == 0 {
        let p = s.push(t);
        assert(p[0] == t);
        assert(p.skip(1) =~= Seq::<T>::empty());
        assert(seq_metadata::<M, N, T>(p.skip(1)) =~= Seq::<M>::empty());
        assert(seq_metadata::<M, N, T>(p) =~= t.metadata_seq());
        assert(seq_metadata::<M, N, T>(s) + t.metadata_seq() =~= t.metadata_seq());
    } else {
        assert(s.push(t)[0] == s[0]);
        assert(s.push(t).skip(1) =~= s.skip(1).push(t));
        lemma_seq_metadata_push::<M, N, T>(s.skip(1), t);
        assert(seq_metadata::<M, N, T>(s.push(t)) =~= seq_metadata::<M, N, T>(s)
            + t.metadata_seq());
    }
}

/// Appending one replaced tree extends the replacement relation over the
/// appended sequences.
proof fn lemma_seq_replaced_push<M, N, T: MapMetadataRecursively<M, N>>(
    s: Seq<T>,
    ns: Seq<N>,
    o: Seq<T::Output>,
    t: T,
    tns: Seq<N>,
    u: T::Output,
)
    requires
        seq_replaced::<M, N, T>(s, ns, o),
        ns.len() == seq_metadata::<M, N, T>(s).len(),
        t.replaced(tns, u),
        tns.len() == t.metadata_seq().len(),
    ensures
        seq_replaced::<M, N, T>(s.push(t), ns + tns, o.push(u)),
    decreases s.len(),
{
    if s.len() == 0 {
        let p = s.push(t);
        let l0 = t.metadata_seq().len();
        assert(p[0] == t);
        assert(ns + tns =~= tns);
        assert(tns.take(l0 as int) =~= tns);
        assert(t.replaced((ns + tns).take(l0 as int), u));
        assert(o.push(u)[0] == u);
        assert(p.skip(1) =~= Seq::<T>::empty());
        assert(tns.skip(l0 as int) =~= Seq::<N>::empty());
        assert(o.push(u).skip(1) =~= Seq::<T::Output>::empty());
        assert(seq_replaced::<M, N, T>(p.skip(1), (ns + tns).skip(l0 as int), o.push(u).skip(1)));
        assert(seq_replaced::<M, N, T>(s.push(t), ns + tns, o.push(u)));
    } else {
        let l0 = s[0].metadata_seq().len();
        assert(seq_metadata::<M, N, T>(s) == s[0].metadata_seq() + seq_metadata::<M, N, T>(
            s.skip(1),
        ));
        assert(s.push(t)[0] == s[0]);
        assert(s.push(t).skip(1) =~= s.skip(1).push(t));
        assert((ns + tns).take(l0 as int) =~= ns.take(l0 as int));
        assert((ns + tns).skip(l0 as int) =~= ns.skip(l0 as int) + tns);
        assert(s.push(t)[0].replaced((ns + tns).take(l0 as int), o.push(u)[0]));
        assert(o.push(u)[0] == o[0]);
        assert(o.push(u).skip(1) =~= o.skip(1).push(u));
        lemma_seq_replaced_push::<M, N, T>(s.skip(1), ns.skip(l0 as int), o.skip(1), t, tns, u);
        assert(seq_replaced::<M, N, T>(
            s.push(t).skip(1),
            (ns + tns).skip(l0 as int),
            o.push(u).skip(1),
        ));
        assert(seq_replaced::<M, N, T>(s.push(t), ns + tns, o.push(u)));
    }
}

impl<T: MapMetadataRecursively<M, N>, M, N> MapMetadataRecursively<M, N> for Vec<T> {
    type Output = Vec<T::Output>;

    open spec fn metadata_seq(self) -> Seq<M> {
        seq_metadata::<M, N, T>(self@)
    }

    open spec fn replaced(self, ns: Seq<N>, o: Vec<T::Output>) -> bool {
        seq_replaced::<M, N, T>(self@, ns, o@)
    }

    fn map_metadata_recursively<Op: MetadataMapper<M, N>>(self, f: &mut Op) -> (o: Vec<
        T::Output,
    >) {
        let ghost this = self;
        let ghost orig = self@;
        let mut v = self;
        let mut out: Vec<T::Output> = Vec::new();
        let ghost mut gns: Seq<N> = Seq::empty();
        proof {
            assert(orig.take(0) =~= Seq::<T>::empty());
            assert(seq_metadata::<M, N, T>(orig.take(0)) =~= Seq::<M>::empty());
        }
        while v.len() > 0
            invariant
                out.len() + v.len() == orig.len(),
                v@ =~= orig.skip(out.len() as int),
                gns.len() == seq_metadata::<M, N, T>(orig.take(out.len() as int)).len(),
                maps_chain(*old(f), seq_metadata::<M, N, T>(orig.take(out.len() as int)), *f, gns),
                seq_replaced::<M, N, T>(orig.take(out.len() as int), gns, out@),
            decreases v.len(),
        {
            let ghost k = out.len() as int;
            let t = v.remove(0);
            let ghost f_before = *f;
            let u = t.map_metadata_recursively(f);
            proof {
                assert(t == orig[k]);
                let tns = choose|tns: Seq<N>|
                    {
                        &&& #[trigger] t.replaced(tns, u)
                        &&& maps_chain(f_before, t.metadata_seq(), *f, tns)
                    };
                lemma_maps_chain_concat(
                    *old(f),
                    seq_metadata::<M, N, T>(orig.take(k)),
                    f_before,
                    gns,
                    t.metadata_seq(),
                    *f,
                    tns,
                );
                lemma_seq_metadata_push::<M, N, T>(orig.take(k), t);
                assert(orig.take(k + 1) =~= orig.take(k).push(t));
                lemma_seq_replaced_push::<M, N, T>(orig.take(k), gns, out@, t, tns, u);
                gns = gns + tns;
            }
            out.push(u);
        }
        proof {
            assert(orig.take(orig.len() as int) =~= orig);
            assert(this.replaced(gns, out));
            assert(maps_chain(*old(f), this.metadata_seq(), *f, gns));
        }
        out
    }
}

/// Two consecutive successful chains make one successful chain over the
/// concatenated metadata.
proof fn lemma_try_maps_chain_concat_ok<M, N, E, Op: TryMetadataMapper<M, N, E>>(
    f0: Op,
    a: Seq<M>,
    f1: Op,
    x: Seq<N>,
    b: Seq<M>,
    f2: Op,
    y: Seq<N>,
)
    requires
        try_maps_chain(f0, a, f1, Ok(x)),
        try_maps_chain(f1, b, f2, Ok(y)),
    ensures
        try_maps_chain(f0, a + b, f2, Ok(x + y)),
    decreases a.len(),
{
    if a.len() == 0 {
        assert(a + b =~= b);
        assert(x + y =~= y);
    } else {
        let g = choose|g: Op|
            {
                &&& #[trigger] f0.try_maps(g, a[0], Ok(x[0]))
                &&& try_maps_chain(g, a.skip(1), f1, Ok(x.skip(1)))
            };
        lemma_try_maps_chain_concat_ok(g, a.skip(1), f1, x.skip(1), b, f2, y);
        lemma_try_maps_chain_cons(f0, g, a[0], x[0], a.skip(1) + b, f2, x.skip(1) + y);
        assert(seq![a[0]] + (a.skip(1) + b) =~= a + b);
        assert(seq![x[0]] + (x.skip(1) + y) =~= x + y);
    }
}

/// A successful chain followed by a failing chain makes a failing chain
/// over the concatenated metadata, carrying the same error.
proof fn lemma_try_maps_chain_ok_then_err<M, N, E, Op: TryMetadataMapper<M, N, E>>(
    f0: Op,
    a: Seq<M>,
    f1: Op,
    x: Seq<N>,
    b: Seq<M>,
    f2: Op,
    e: E,
)
    requires
        try_maps_chain(f0, a, f1, Ok(x)),
        try_maps_chain(f1, b, f2, Err(e)),
    ensures
        try_maps_chain(f0, a + b, f2, Err(e)),
    decreases a.len(),
{
    if a.len() == 0 {
        assert(a + b =~= b);
    } else {
        let g = choose|g: Op|
            {
                &&& #[trigger] f0.try_maps(g, a[0], Ok(x[0]))
                &&& try_maps_chain(g, a.skip(1), f1, Ok(x.skip(1)))
            };
        lemma_try_maps_chain_ok_then_err(g, a.skip(1), f1, x.skip(1), b, f2, e);
        let cms = a + b;
        assert(cms[0] == a[0]);
        assert(cms.skip(1) =~= a.skip(1) + b);
        assert(f0.try_maps(g, cms[0], Ok(x[0])));
        assert(try_maps_chain(g, cms.skip(1), f2, Err(e)));
    }
}

/// Metadata occurrences that come after a failure are never visited: a
/// failing chain stays a failing chain whatever follows it.
proof fn lemma_try_maps_chain_err_extend<M, N, E, Op: TryMetadataMapper<M, N, E>>(
    f0: Op,
    ms: Seq<M>,
    f1: Op,
    e: E,
    more: Seq<M>,
)
    requires
        try_maps_chain(f0, ms, f1, Err(e)),
    ensures
        try_maps_chain(f0, ms + more, f1, Err(e)),
    decreases ms.len(),
{
    let cms = ms + more;
    assert(cms[0] == ms[0]);
    assert(cms.skip(1) =~= ms.skip(1) + more);
    if f0.try_maps(f1, ms[0], Err(e)) {
        assert(f0.try_maps(f1, cms[0], Err(e)));
    } else {
        let (g, n) = choose|g: Op, n: N|
            {
                &&& #[trigger] f0.try_maps(g, ms[0], Ok(n))
                &&& try_maps_chain(g, ms.skip(1), f1, Err(e))
            };
        lemma_try_maps_chain_err_extend(g, ms.skip(1), f1, e, more);
        assert(f0.try_maps(g, cms[0], Ok(n)));
        assert(try_maps_chain(g, cms.skip(1), f1, Err(e)));
    }
}

/// Pre-order metadata occurrences of a sequence of trees, first to last.
pub open spec fn seq_try_metadata<M, N, E, T: TryMapMetadataRecursively<M, N, E>>(
    s: Seq<T>,
) -> Seq<M>
    decreases s.len(),
{
    if s.len() == 0 {
        Seq::empty()
    } else {
        s[0].try_metadata_seq() + seq_try_metadata::<M, N, E, T>(s.skip(1))
    }
}

/// Holds when `o` is the sequence `s` with the pre-order metadata
/// occurrences of its trees replaced by `ns`, element for element, first
/// tree to last.
pub open spec fn seq_try_replaced<M, N, E, T: TryMapMetadataRecursively<M, N, E>>(
    s: Seq<T>,
    ns: Seq<N>,
    o: Seq<T::Output>,
) -> bool
    decreases s.len(),
{
    if s.len() == 0 {
        ns.len() == 0 && o.len() == 0
    } else {
        let l0 = s[0].try_metadata_seq().len();
        &&& o.len() == s.len()
        &&& ns.len() >= l0
        &&& s[0].try_replaced(ns.take(l0 as int), o[0])
        &&& seq_try_replaced::<M, N, E, T>(s.skip(1), ns.skip(l0 as int), o.skip(1))
    }
}

/// Appending one tree appends its metadata occurrences to the sequence's
/// pre-order stream.
proof fn lemma_seq_try_metadata_push<M, N, E, T: TryMapMetadataRecursively<M, N, E>>(
    s: Seq<T>,
    t: T,
)
    ensures
        seq_try_metadata::<M, N, E, T>(s.push(t)) == seq_try_metadata::<M, N, E, T>(s)
            + t.try_metadata_seq(),
    decreases s.len(),
{
    if s.len() == 0 {
        let p = s.push(t);
        assert(p[0] == t);
        assert(p.skip(1) =~= Seq::<T>::empty());
        assert(seq_try_metadata::<M, N, E, T>(p.skip(1)) =~= Seq::<M>::empty());
        assert(seq_try_metadata::<M, N, E, T>(p) =~= t.try_metadata_seq());
        assert(seq_try_metadata::<M, N, E, T>(s) + t.try_metadata_seq() =~= t.try_metadata_seq());
    } else {
        assert(s.push(t)[0] == s[0]);
        assert(s.push(t).skip(1) =~= s.skip(1).push(t));
        lemma_seq_try_metadata_push::<M, N, E, T>(s.skip(1), t);
        assert(seq_try_metadata::<M, N, E, T>(s.push(t)) =~= seq_try_metadata::<M, N, E, T>(s)
            + t.try_metadata_seq());
    }
}

/// The pre-order stream of a sequence splits at any position into the
/// stream of the prefix and the stream of the rest.
proof fn lemma_seq_try_metadata_split<M, N, E, T: TryMapMetadataRecursively<M, N, E>>(
    s: Seq<T>,
    k: int,
)
    requires
        0 <= k <= s.len(),
    ensures
        seq_try_metadata::<M, N, E, T>(s) == seq_try_metadata::<M, N, E, T>(s.take(k))
            + seq_try_metadata::<M, N, E, T>(s.skip(k)),
    decreases k,
{
    if k == 0 {
        assert(s.take(0) =~= Seq::<T>::empty());
        assert(s.skip(0) =~= s);
        assert(seq_try_metadata::<M, N, E, T>(s.take(0)) =~= Seq::<M>::empty());
        assert(Seq::<M>::empty() + seq_try_metadata::<M, N, E, T>(s) =~= seq_try_metadata::<
            M,
            N,
            E,
            T,
        >(s));
    } else {
        lemma_seq_try_metadata_split::<M, N, E, T>(s.skip(1), k - 1);
        let a = s[0].try_metadata_seq();
        let b = seq_try_metadata::<M, N, E, T>(s.skip(1).take(k - 1));
        let c = seq_try_metadata::<M, N, E, T>(s.skip(1).skip(k - 1));
        assert(s.skip(1).take(k - 1) =~= s.take(k).skip(1));
        assert(s.skip(1).skip(k - 1) =~= s.skip(k));
        assert(s.take(k)[0] == s[0]);
        assert(seq_try_metadata::<M, N, E, T>(s.take(k)) == a + b);
        assert(seq_try_metadata::<M, N, E, T>(s) == a + (b + c));
        assert(a + (b + c) =~= (a + b) + c);
    }
}

/// Appending one replaced tree extends the replacement relation over the
/// appended sequences.
proof fn lemma_seq_try_replaced_push<M, N, E, T: TryMapMetadataRecursively<M, N, E>>(
    s: Seq<T>,
    ns: Seq<N>,
    o: Seq<T::Output>,
    t: T,
    tns: Seq<N>,
    u: T::Output,
)
    requires
        seq_try_replaced::<M, N, E, T>(s, ns, o),
        ns.len() == seq_try_metadata::<M, N, E, T>(s).len(),
        t.try_replaced(tns, u),
        tns.len() == t.try_metadata_seq().len(),
    ensures
        seq_try_replaced::<M, N, E, T>(s.push(t), ns + tns, o.push(u)),
    decreases s.len(),
{
    if s.len() == 0 {
        let p = s.push(t);
        let l0 = t.try_metadata_seq().len();
        assert(p[0] == t);
        assert(ns + tns =~= tns);
        assert(tns.take(l0 as int) =~= tns);
        assert(t.try_replaced((ns + tns).take(l0 as int), u));
        assert(o.push(u)[0] == u);
        assert(p.skip(1) =~= Seq::<T>::empty());
        assert(tns.skip(l0 as int) =~= Seq::<N>::empty());
        assert(o.push(u).skip(1) =~= Seq::<T::Output>::empty());
        assert(seq_try_replaced::<M, N, E, T>(
            p.skip(1),
            (ns + tns).skip(l0 as int),
            o.push(u).skip(1),
        ));
        assert(seq_try_replaced::<M, N, E, T>(s.push(t), ns + tns, o.push(u)));
    } else {
        let l0 = s[0].try_metadata_seq().len();
        assert(seq_try_metadata::<M, N, E, T>(s) == s[0].try_metadata_seq() + seq_try_metadata::<
            M,
            N,
            E,
            T,
        >(s.skip(1)));
        assert(s.push(t)[0] == s[0]);
        assert(s.push(t).skip(1) =~= s.skip(1).push(t));
        assert((ns + tns).take(l0 as int) =~= ns.take(l0 as int));
        assert((ns + tns).skip(l0 as int) =~= ns.skip(l0 as int) + tns);
        assert(s.push(t)[0].try_replaced((ns + tns).take(l0 as int), o.push(u)[0]));
        assert(o.push(u)[0] == o[0]);
        assert(o.push(u).skip(1) =~= o.skip(1).push(u));
        lemma_seq_try_replaced_push::<M, N, E, T>(
            s.skip(1),
            ns.skip(l0 as int),
            o.skip(1),
            t,
            tns,
            u,
        );
        assert(seq_try_replaced::<M, N, E, T>(
            s.push(t).skip(1),
            (ns + tns).skip(l0 as int),
            o.push(u).skip(1),
        ));
        assert(seq_try_replaced::<M, N, E, T>(s.push(t), ns + tns, o.push(u)));
    }
}

impl<T: TryMapMetadataRecursively<M, N, E>, M, N, E> TryMapMetadataRecursively<M, N, E> for Vec<
    T,
> {
    type Output = Vec<T::Output>;

    open spec fn try_metadata_seq(self) -> Seq<M> {
        seq_try_metadata::<M, N, E, T>(self@)
    }

    open spec fn try_replaced(self, ns: Seq<N>, o: Vec<T::Output>) -> bool {
        seq_try_replaced::<M, N, E, T>(self@, ns, o@)
    }

    fn try_map_metadata_recursively<Op: TryMetadataMapper<M, N, E>>(self, f: &mut Op) -> (r:
        Result<Vec<T::Output>, E>) {
        let ghost this = self;
        let ghost orig = self@;
        let mut v = self;
        let mut out: Vec<T::Output> = Vec::new();
        let mut failed: Option<E> = None;
        let ghost mut gns: Seq<N> = Seq::empty();
        proof {
            assert(orig.take(0) =~= Seq::<T>::empty());
            assert(seq_try_metadata::<M, N, E, T>(orig.take(0)) =~= Seq::<M>::empty());
        }
        while v.len() > 0
            invariant_except_break
                failed is None,
                out.len() + v.len() == orig.len(),
                v@ =~= orig.skip(out.len() as int),
                gns.len() == seq_try_metadata::<M, N, E, T>(orig.take(out.len() as int)).len(),
                try_maps_chain(
                    *old(f),
                    seq_try_metadata::<M, N, E, T>(orig.take(out.len() as int)),
                    *f,
                    Ok(gns),
                ),
                seq_try_replaced::<M, N, E, T>(orig.take(out.len() as int), gns, out@),
            ensures
                match failed {
                    Some(e) => try_maps_chain(
                        *old(f),
                        seq_try_metadata::<M, N, E, T>(orig),
                        *f,
                        Err(e),
                    ),
                    None => {
                        &&& out.len() == orig.len()
                        &&& try_maps_chain(
                            *old(f),
                            seq_try_metadata::<M, N, E, T>(orig.take(out.len() as int)),
                            *f,
                            Ok(gns),
                        )
                        &&& seq_try_replaced::<M, N, E, T>(
                            orig.take(out.len() as int),
                            gns,
                            out@,
                        )
                    },
                },
            decreases v.len(),
        {
            let ghost k = out.len() as int;
            let t = v.remove(0);
            let ghost f_before = *f;
            match t.try_map_metadata_recursively(f) {
                Ok(u) => {
                    proof {
                        assert(t == orig[k]);
                        let tns = choose|tns: Seq<N>|
                            {
                                &&& t.try_replaced(tns, u)
                                &&& #[trigger] try_maps_chain(
                                    f_before,
                                    t.try_metadata_seq(),
                                    *f,
                                    Ok(tns),
                                )
                            };
                        lemma_try_maps_chain_concat_ok(
                            *old(f),
                            seq_try_metadata::<M, N, E, T>(orig.take(k)),
                            f_before,
                            gns,
                            t.try_metadata_seq(),
                            *f,
                            tns,
                        );
                        lemma_seq_try_metadata_push::<M, N, E, T>(orig.take(k), t);
                        assert(orig.take(k + 1) =~= orig.take(k).push(t));
                        lemma_seq_try_replaced_push::<M, N, E, T>(
                            orig.take(k),
                            gns,
                            out@,
                            t,
                            tns,
                            u,
                        );
                        gns = gns + tns;
                    }
                    out.push(u);
                },
                Err(e) => {
                    proof {
                        assert(t == orig[k]);
                        lemma_try_maps_chain_ok_then_err(
                            *old(f),
                            seq_try_metadata::<M, N, E, T>(orig.take(k)),
                            f_before,
                            gns,
                            t.try_metadata_seq(),
                            *f,
                            e,
                        );
                        lemma_try_maps_chain_err_extend(
                            *old(f),
                            seq_try_metadata::<M, N, E, T>(orig.take(k)) + t.try_metadata_seq(),
                            *f,
                            e,
                            seq_try_metadata::<M, N, E, T>(orig.skip(k + 1)),
                        );
                        lemma_seq_try_metadata_split::<M, N, E, T>(orig, k + 1);
                        lemma_seq_try_metadata_push::<M, N, E, T>(orig.take(k), t);
                        assert(orig.take(k + 1) =~= orig.take(k).push(t));
                        assert((seq_try_metadata::<M, N, E, T>(orig.take(k))
                            + t.try_metadata_seq()) + seq_try_metadata::<M, N, E, T>(
                            orig.skip(k + 1),
                        ) =~= seq_try_metadata::<M, N, E, T>(orig));
                        assert(try_maps_chain(
                            *old(f),
                            seq_try_metadata::<M, N, E, T>(orig),
                            *f,
                            Err(e),
                        ));
                    }
                    failed = Some(e);
                    break ;
                },
            }
        }
        match failed {
            Some(e) => {
                proof {
                    assert(this.try_metadata_seq() == seq_try_metadata::<M, N, E, T>(orig));
                }
                Err(e)
            },
            None => {
                proof {
                    assert(orig.take(orig.len() as int) =~= orig);
                    assert(this.try_replaced(gns, out));
                    assert(try_maps_chain(*old(f), this.try_metadata_seq(), *f, Ok(gns)));
                }
                Ok(out)
            },
        }
    }
}

/// Metadata mapper that converts each metadata occurrence through its
/// `Into` conversion.
///
/// This is the stateless context behind
/// [`Meta::cast_metadata_recursively`].
pub struct CastMetadata;

impl<M: Into<N>, N> MetadataMapper<M, N> for CastMetadata {
    open spec fn maps(self, next: Self, m: M, n: N) -> bool {
        &&& next == self
        &&& call_ensures(<M as Into<N>>::into, (m,), n)
    }

    fn apply(&mut self, m: M) -> (n: N) {
        m.into()
    }
}

/// A chain of the cast mapper converts each metadata occurrence, in place,
/// through its `Into` conversion: the new metadata at each position is a
/// possible result of converting the old metadata at the same position.
pub proof fn lemma_cast_chain<M: Into<N>, N>(ms: Seq<M>, ns: Seq<N>)
    requires
        maps_chain(CastMetadata, ms, CastMetadata, ns),
    ensures
        ns.len() == ms.len(),
        forall|i: int|
            0 <= i < ms.len() ==> call_ensures(<M as Into<N>>::into, (ms[i],), #[trigger] ns[i]),
    decreases ms.len(),
{
    if ms.len() > 0 {
        let g = choose|g: CastMetadata|
            {
                &&& #[trigger] CastMetadata.maps(g, ms[0], ns[0])
                &&& maps_chain(g, ms.skip(1), CastMetadata, ns.skip(1))
            };
        lemma_cast_chain::<M, N>(ms.skip(1), ns.skip(1));
        assert forall|i: int|
            0 <= i < ms.len() implies call_ensures(
            <M as Into<N>>::into,
            (ms[i],),
            #[trigger] ns[i],
        ) by {
            if i > 0 {
                assert(ms.skip(1)[i - 1] == ms[i]);
                assert(ns.skip(1)[i - 1] == ns[i]);
            }
        }
    }
}

/// Metadata mapper that converts each metadata occurrence through its
/// `TryInto` conversion, failing when the conversion fails.
///
/// This is the stateless context behind
/// [`Meta::try_cast_metadata_recursively`].
pub struct TryCastMetadata;

impl<M: TryInto<N>, N> TryMetadataMapper<M, N, <M as TryInto<N>>::Error> for TryCastMetadata {
    open spec fn try_maps(
        self,
        next: Self,
        m: M,
        r: Result<N, <M as TryInto<N>>::Error>,
    ) -> bool {
        &&& next == self
        &&& call_ensures(<M as TryInto<N>>::try_into, (m,), r)
    }

    fn try_apply(&mut self, m: M) -> (r: Result<N, <M as TryInto<N>>::Error>) {
        m.try_into()
    }
}

impl<T, M> Meta<T, M> {
    /// Casts the metadata of a recursive data structure, converting every
    /// metadata occurrence through its `Into` conversion.
    pub fn cast_metadata_recursively<N>(self) -> (r: Meta<T::Output, N>) where
        T: MapMetadataRecursively<M, N>,
        M: Into<N>,

        ensures
            exists|ns: Seq<N>|
                {
                    &&& #[trigger] self.replaced(ns, r)
                    &&& maps_chain(CastMetadata, self.metadata_seq(), CastMetadata, ns)
                },
    {
        let mut mapper = CastMetadata;
        self.map_metadata_recursively(&mut mapper)
    }

    /// Tries to cast the metadata of a recursive data structure, converting
    /// every metadata occurrence through its `TryInto` conversion and
    /// aborting at the first conversion failure.
    pub fn try_cast_metadata_recursively<N>(self) -> (r: Result<
        Meta<T::Output, N>,
        <M as TryInto<N>>::Error,
    >) where
        T: TryMapMetadataRecursively<M, N, <M as TryInto<N>>::Error>,
        M: TryInto<N>,

        ensures
            r is Ok ==> exists|ns: Seq<N>|
                {
                    &&& self.try_replaced(ns, r->Ok_0)
                    &&& #[trigger] try_maps_chain(
                        TryCastMetadata,
                        self.try_metadata_seq(),
                        TryCastMetadata,
                        Ok(ns),
                    )
                },
            r is Err ==> try_maps_chain(
                TryCastMetadata,
                self.try_metadata_seq(),
                TryCastMetadata,
                Err(r->Err_0),
            ),
    {
        let mut mapper = TryCastMetadata;
        self.try_map_metadata_recursively(&mut mapper)
    }
}

/// Metadata mapper that hands every metadata occurrence back unchanged
/// while recording, in order, each occurrence it visits.
///
/// Convenient to observe the traversal order of a recursive metadata
/// mapping.
pub struct MetadataRecorder {
    /// Metadata occurrences visited so far, oldest first.
    pub seen: Vec<u64>,
}

impl MetadataMapper<u64, u64> for MetadataRecorder {
    open spec fn maps(self, next: Self, m: u64, n: u64) -> bool {
        &&& next.seen@ == self.seen@.push(m)
        &&& n == m
    }

    fn apply(&mut self, m: u64) -> (n: u64) {
        self.seen.push(m);
        m
    }
}

/// Metadata mapper that replaces every metadata occurrence, whatever its
/// type, with a sequential id: the first occurrence visited receives the
/// starting id, the next one the id after it, and so on, wrapping on
/// overflow.
///
/// The canonical stateful transformation: the counter is threaded through
/// the whole traversal by mutable reference.
pub struct MetadataRenumber {
    /// The id handed to the next metadata occurrence.
    pub next: u64,
}

impl<M> MetadataMapper<M, u64> for MetadataRenumber {
    open spec fn maps(self, next: Self, m: M, n: u64) -> bool {
        &&& n == self.next
        &&& next.next == vstd::wrapping::u64_specs::wrapping_add(self.next, 1)
    }

    fn apply(&mut self, m: M) -> (n: u64) {
        let id = self.next;
        self.next = self.next.wrapping_add(1);
        id
    }
}

/// Fallible metadata mapper that records each visited occurrence and fails,
/// with the occurrence itself as the error, on one chosen value.
///
/// Convenient to observe that a fallible recursive metadata mapping stops
/// at its first failure.
pub struct FailingRecorder {
    /// Metadata occurrences visited so far, oldest first.
    pub seen: Vec<u64>,
    /// The metadata value on which the mapper fails.
    pub fail_on: u64,
}

impl TryMetadataMapper<u64, u64, u64> for FailingRecorder {
    open spec fn try_maps(self, next: Self, m: u64, r: Result<u64, u64>) -> bool {
        &&& next.seen@ == self.seen@.push(m)
        &&& next.fail_on == self.fail_on
        &&& r == if m == self.fail_on {
            Err::<u64, u64>(m)
        } else {
            Ok::<u64, u64>(m)
        }
    }

    fn try_apply(&mut self, m: u64) -> (r: Result<u64, u64>) {
        self.seen.push(m);
        if m == self.fail_on {
            Err(m)
        } else {
            Ok(m)
        }
    }
}

/// Provides the `at` function to attach metadata to any sized value.
///
/// This trait is implemented for all types.
pub trait At: Sized {
    /// Wraps `self` inside a `Meta<Self, M>` using the given `metadata`.
    ///
    /// Equivalent to `Meta(self, metadata)`. Usually called with a
    /// `Location` to locate a value in a source file.
    fn at<M>(self, metadata: M) -> (r: Meta<Self, M>)
        ensures
            r.0 == self,
            r.1 == metadata,
    ;
}

impl<T> At for T {
    fn at<M>(self, metadata: M) -> (r: Meta<Self, M>)
        ensures
            r.0 == self,
            r.1 == metadata,
    {
        Meta(self, metadata)
    }
}

/// Provides a transposition function from `Option<Meta<T, M>>` to
/// `Meta<Option<T>, M>`.
pub trait MetaTranspose: Sized {
    /// Located value type.
    type Value;

    /// Metadata type.
    type Metadata;

    /// The located optional value that `self` stands for.
    spec fn as_located_option(self) -> Option<Meta<Self::Value, Self::Metadata>>;

    /// Transposes an `Option<Meta<Self::Value, Self::Metadata>>` into a
    /// `Meta<Option<Self::Value>, Self::Metadata>`, calling `none_metadata`
    /// for the metadata of an absent value.
    fn meta_transpose<Op: FnOnce() -> Self::Metadata>(self, none_metadata: Op) -> (r: Meta<
        Option<Self::Value>,
        Self::Metadata,
    >)
        requires
            self.as_located_option() is None ==> call_requires(none_metadata, ()),
        ensures
            match self.as_located_option() {
                Some(m) => r == Meta(Some(m.0), m.1),
                None => r.0 is None && call_ensures(none_metadata, (), r.1),
            },
    ;
}

impl<T, M> MetaTranspose for Option<Meta<T, M>> {
    type Value = T;

    type Metadata = M;

    open spec fn as_located_option(self) -> Option<Meta<T, M>> {
        self
    }

    fn meta_transpose<Op: FnOnce() -> M>(self, none_metadata: Op) -> (r: Meta<Option<T>, M>) {
        match self {
            Some(m) => Meta(Some(m.0), m.1),
            None => Meta(None, none_metadata()),
        }
    }
}

/// Locates the error of a `Result<T, E>`.
pub trait ErrAt: Sized {
    /// Success type.
    type Value;

    /// Error type.
    type Error;

    /// The result that `self` stands for.
    spec fn as_result(self) -> Result<Self::Value, Self::Error>;

    /// Changes a `Result<Self::Value, Self::Error>` into a
    /// `Result<Self::Value, Meta<Self::Error, M>>` by wrapping any eventual
    /// error using the result of the `metadata` function.
    fn err_at<M, Op: FnOnce() -> M>(self, metadata: Op) -> (r: Result<
        Self::Value,
        Meta<Self::Error, M>,
    >)
        requires
            self.as_result() is Err ==> call_requires(metadata, ()),
        ensures
            match self.as_result() {
                Ok(t) => r == Ok::<Self::Value, Meta<Self::Error, M>>(t),
                Err(e) => match r {
                    Err(m) => m.0 == e && call_ensures(metadata, (), m.1),
                    Ok(_) => false,
                },
            },
    ;
}

impl<T, E> ErrAt for Result<T, E> {
    type Value = T;

    type Error = E;

    open spec fn as_result(self) -> Result<T, E> {
        self
    }

    fn err_at<M, Op: FnOnce() -> M>(self, metadata: Op) -> (r: Result<T, Meta<E, M>>) {
        match self {
            Ok(t) => Ok(t),
            Err(e) => Err(Meta(e, metadata())),
        }
    }
}

/// Maps the located error of a `Result<T, Meta<E, M>>`.
pub trait MapLocErr: Sized {
    /// Success type.
    type Value;

    /// Error type.
    type Error;

    /// Metadata type.
    type Metadata;

    /// The located result that `self` stands for.
    spec fn as_located_result(self) -> Result<
        Self::Value,
        Meta<Self::Error, Self::Metadata>,
    >;

    /// Changes a `Result<Self::Value, Meta<Self::Error, Self::Metadata>>`
    /// into a `Result<Self::Value, Meta<G, Self::Metadata>>` by mapping the
    /// error value using `f`.
    fn map_loc_err<G, Op: FnOnce(Self::Error) -> G>(self, f: Op) -> (r: Result<
        Self::Value,
        Meta<G, Self::Metadata>,
    >)
        requires
            match self.as_located_result() {
                Err(m) => call_requires(f, (m.0,)),
                Ok(_) => true,
            },
        ensures
            match self.as_located_result() {
                Ok(t) => r == Ok::<Self::Value, Meta<G, Self::Metadata>>(t),
                Err(m) => match r {
                    Err(n) => call_ensures(f, (m.0,), n.0) && n.1 == m.1,
                    Ok(_) => false,
                },
            },
    ;
}

impl<T, E, M> MapLocErr for Result<T, Meta<E, M>> {
    type Value = T;

    type Error = E;

    type Metadata = M;

    open spec fn as_located_result(self) -> Result<T, Meta<E, M>> {
        self
    }

    fn map_loc_err<G, Op: FnOnce(E) -> G>(self, f: Op) -> (r: Result<T, Meta<G, M>>) {
        match self {
            Ok(t) => Ok(t),
            Err(Meta(e, m)) => Err(Meta(f(e), m)),
        }
    }
}

} // verus!

