//! Data located in a source file: a value paired with a [`Location`].

use vstd::prelude::*;

use crate::location::Location;
use crate::meta::Meta;
use crate::span::Span;

verus! {

/// Data with [`Location`] metadata.
///
/// This type alias is provided with a constructor function of the same name
/// so it is possible to build `Loc` values with `Loc(value, location)`.
pub type Loc<T, F> = Meta<T, Location<F>>;

/// Builds data with [`Location`] metadata.
#[allow(non_snake_case)]
pub fn Loc<T, F>(t: T, location: Location<F>) -> (r: Loc<T, F>)
    ensures
        r.0 == t,
        r.1 == location,
{
    Meta(t, location)
}

impl<T, F> Loc<T, F> {
    /// Discards the value and returns its location.
    pub fn into_location(self) -> (r: Location<F>)
        ensures
            r == self.1,
    {
        self.into_metadata()
    }

    /// Discards the value and returns its file.
    pub fn into_file(self) -> (r: F)
        ensures
            r == self.1.file,
    {
        self.1.into_file()
    }

    /// Discards the value and returns its span.
    pub fn into_span(self) -> (r: Span)
        ensures
            r == self.1.span,
    {
        self.1.into_span()
    }

    /// Returns a reference to the value's location.
    pub fn location(&self) -> (r: &Location<F>)
        ensures
            r == self.1,
    {
        self.metadata()
    }

    /// Returns a mutable reference to the value's location.
    pub fn location_mut(&mut self) -> (r: &mut Location<F>)
        ensures
            *r == old(self).1,
            final(self).0 == old(self).0,
            final(self).1 == *final(r),
    {
        self.metadata_mut()
    }

    /// Returns the value's span.
    pub fn span(&self) -> (r: Span)
        ensures
            r == self.1.span,
    {
        self.1.span()
    }

    /// Returns a mutable reference to the value's span.
    pub fn span_mut(&mut self) -> (r: &mut Span)
        ensures
            *r == old(self).1.span,
            final(self).0 == old(self).0,
            final(self).1.file == old(self).1.file,
            final(self).1.span == *final(r),
    {
        self.1.span_mut()
    }

    /// Sets the value's span and returns the previous one.
    pub fn set_span(&mut self, span: Span) -> (r: Span)
        ensures
            r == old(self).1.span,
            final(self).0 == old(self).0,
            final(self).1.file == old(self).1.file,
            final(self).1.span == span,
    {
        self.1.set_span(span)
    }

    /// Returns a reference to the value's source file.
    pub fn file(&self) -> (r: &F)
        ensures
            r == self.1.file,
    {
        self.1.file()
    }

    /// Returns a mutable reference to the value's source file.
    pub fn file_mut(&mut self) -> (r: &mut F)
        ensures
            *r == old(self).1.file,
            final(self).0 == old(self).0,
            final(self).1.span == old(self).1.span,
            final(self).1.file == *final(r),
    {
        self.1.file_mut()
    }

    /// Sets the value's file and returns the previous one.
    pub fn set_file(&mut self, file: F) -> (r: F)
        ensures
            r == old(self).1.file,
            final(self).0 == old(self).0,
            final(self).1.span == old(self).1.span,
            final(self).1.file == file,
    {
        self.1.set_file(file)
    }

    /// Maps the value's location.
    pub fn map_location<G, Op: FnOnce(Location<F>) -> Location<G>>(self, f: Op) -> (r: Loc<T, G>)
        requires
            call_requires(f, (self.1,)),
        ensures
            r.0 == self.0,
            call_ensures(f, (self.1,), r.1),
    {
        Loc(self.0, f(self.1))
    }

    /// Maps the value's location's file.
    pub fn map_file<G, Op: FnOnce(F) -> G>(self, f: Op) -> (r: Loc<T, G>)
        requires
            call_requires(f, (self.1.file,)),
        ensures
            r.0 == self.0,
            r.1.span == self.1.span,
            call_ensures(f, (self.1.file,), r.1.file),
    {
        Loc(self.0, self.1.map_file(f))
    }

    /// Borrows the value and the file, copying the span.
    pub fn borrow_value_and_file(&self) -> (r: Loc<&T, &F>)
        ensures
            r.0 == self.0,
            r.1.file == self.1.file,
            r.1.span == self.1.span,
    {
        Loc(&self.0, self.1.borrow())
    }

    /// Borrows the file and clones the value.
    pub fn borrow_file(&self) -> (r: Loc<T, &F>) where T: Clone
        ensures
            call_ensures(<T as Clone>::clone, (&self.0,), r.0),
            r.1.file == self.1.file,
            r.1.span == self.1.span,
    {
        Meta(self.0.clone(), self.1.borrow())
    }
}

impl<'f, T, F: Clone> Loc<T, &'f F> {
    /// Clones the value and the borrowed file to return a new `Loc<T, F>`.
    pub fn cloned_file(&self) -> (r: Loc<T, F>) where T: Clone
        ensures
            call_ensures(<T as Clone>::clone, (&self.0,), r.0),
            call_ensures(<F as Clone>::clone, (self.1.file,), r.1.file),
            r.1.span == self.1.span,
    {
        Loc(self.0.clone(), self.1.cloned())
    }

    /// Clones the borrowed file and consumes the value to return a new
    /// `Loc<T, F>`.
    pub fn into_cloned_file(self) -> (r: Loc<T, F>)
        ensures
            r.0 == self.0,
            call_ensures(<F as Clone>::clone, (self.1.file,), r.1.file),
            r.1.span == self.1.span,
    {
        Loc(self.0, self.1.cloned())
    }
}

impl<'t, 'f, T: Clone, F: Clone> Loc<&'t T, &'f F> {
    /// Clones the borrowed value and file to return a new `Loc<T, F>`.
    pub fn cloned(&self) -> (r: Loc<T, F>)
        ensures
            call_ensures(<T as Clone>::clone, (self.0,), r.0),
            call_ensures(<F as Clone>::clone, (self.1.file,), r.1.file),
            r.1.span == self.1.span,
    {
        Loc(self.0.clone(), self.1.cloned())
    }
}

} // verus!
