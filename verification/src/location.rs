//! Syntax element locations: a file identifier paired with a [`Span`].

use vstd::prelude::*;

use crate::span::{MaybeSpanned, Span, Spanned};

verus! {

/// Syntax element location.
///
/// Provides a file identifier (of type `F`) and a [`Span`] in this file.
#[derive(Clone, Copy, PartialEq, Eq, Hash, PartialOrd, Ord, Debug)]
pub struct Location<F> {
    /// File id.
    pub file: F,

    /// Span.
    pub span: Span,
}

impl<F> Location<F> {
    /// Creates a new location referring to the given `span` in the given
    /// `file`.
    pub fn new(file: F, span: Span) -> (r: Location<F>)
        ensures
            r.file == file,
            r.span == span,
    {
        Location { file, span }
    }

    /// Consumes this location and returns a pair containing the file and
    /// span.
    pub fn into_parts(self) -> (r: (F, Span))
        ensures
            r.0 == self.file,
            r.1 == self.span,
    {
        (self.file, self.span)
    }

    /// Consumes this location and returns the file.
    pub fn into_file(self) -> (r: F)
        ensures
            r == self.file,
    {
        self.file
    }

    /// Consumes this location and returns the span.
    pub fn into_span(self) -> (r: Span)
        ensures
            r == self.span,
    {
        self.span
    }

    /// Maps the file identifier without touching the span.
    pub fn map<G, Op: FnOnce(F) -> G>(self, f: Op) -> (r: Location<G>)
        requires
            call_requires(f, (self.file,)),
        ensures
            r.span == self.span,
            call_ensures(f, (self.file,), r.file),
    {
        Location { file: f(self.file), span: self.span }
    }

    /// Maps the file identifier without touching the span.
    ///
    /// Same operation as [`map`](Self::map), under the name used when the
    /// location is reached through a metadata pair.
    pub fn map_file<G, Op: FnOnce(F) -> G>(self, f: Op) -> (r: Location<G>)
        requires
            call_requires(f, (self.file,)),
        ensures
            r.span == self.span,
            call_ensures(f, (self.file,), r.file),
    {
        Location { file: f(self.file), span: self.span }
    }

    /// Copies the span and borrows the file to create a new `Location<&F>`.
    pub fn as_ref(&self) -> (r: Location<&F>)
        ensures
            r.file == self.file,
            r.span == self.span,
    {
        Location { file: &self.file, span: self.span }
    }

    /// Borrows the file to create a new `Location<&F>`.
    ///
    /// Same view as [`as_ref`](Self::as_ref).
    pub fn borrow(&self) -> (r: Location<&F>)
        ensures
            r.file == self.file,
            r.span == self.span,
    {
        Location { file: &self.file, span: self.span }
    }

    /// Converts the file identifier through its `Into` conversion.
    pub fn cast<G>(self) -> (r: Location<G>) where F: Into<G>
        ensures
            r.span == self.span,
            call_ensures(<F as Into<G>>::into, (self.file,), r.file),
    {
        Location { file: self.file.into(), span: self.span }
    }

    /// Returns the location's span.
    pub fn span(&self) -> (r: Span)
        ensures
            r == self.span,
    {
        self.span
    }

    /// Returns a mutable reference to the location's span.
    pub fn span_mut(&mut self) -> (r: &mut Span)
        ensures
            *r == old(self).span,
            final(self).file == old(self).file,
            final(self).span == *final(r),
    {
        &mut self.span
    }

    /// Sets the location's span and returns the previous one.
    pub fn set_span(&mut self, span: Span) -> (r: Span)
        ensures
            r == old(self).span,
            final(self).file == old(self).file,
            final(self).span == span,
    {
        let mut span = span;
        core::mem::swap(&mut self.span, &mut span);
        span
    }

    /// Returns a reference to the location's file.
    pub fn file(&self) -> (r: &F)
        ensures
            r == self.file,
    {
        &self.file
    }

    /// Returns a mutable reference to the location's file.
    pub fn file_mut(&mut self) -> (r: &mut F)
        ensures
            *r == old(self).file,
            final(self).span == old(self).span,
            final(self).file == *final(r),
    {
        &mut self.file
    }

    /// Sets the location's file and returns the previous one.
    pub fn set_file(&mut self, file: F) -> (r: F)
        ensures
            r == old(self).file,
            final(self).span == old(self).span,
            final(self).file == file,
    {
        let mut file = file;
        core::mem::swap(&mut self.file, &mut file);
        file
    }

    /// Sets the end of the location span to `end`, and returns itself.
    pub fn until(self, end: usize) -> (r: Location<F>)
        ensures
            r.file == self.file,
            r.span.start == self.span.start,
            r.span.end == end,
    {
        let mut this = self;
        this.span.end = end;
        this
    }

    /// Appends `span` to the location span, and returns itself.
    pub fn with(self, span: Span) -> (r: Location<F>)
        ensures
            r.file == self.file,
            r.span == self.span.spec_union(span),
    {
        let mut this = self;
        this.span.append(span);
        this
    }
}

impl<F: Clone> Location<&F> {
    /// Clones the borrowed file to return a new `Location<F>`.
    ///
    /// The span is preserved exactly; the file is whatever `F::clone`
    /// returns.
    pub fn cloned(&self) -> (r: Location<F>)
        ensures
            r.span == self.span,
            call_ensures(<F as Clone>::clone, (self.file,), r.file),
    {
        Location { file: self.file.clone(), span: self.span }
    }
}

/// Value with a location.
pub trait Located {
    type File;

    fn location(&self) -> Location<&Self::File>;
}

impl<F> Located for Location<F> {
    type File = F;

    fn location(&self) -> (r: Location<&F>)
        ensures
            r.file == self.file,
            r.span == self.span,
    {
        self.as_ref()
    }
}

/// Value with an optional location.
pub trait MaybeLocated {
    type File;

    fn optional_location(&self) -> Option<Location<&Self::File>>;
}

impl<T: Located> Spanned for T {
    fn span(&self) -> Span {
        self.location().span
    }
}

impl<T: Located> MaybeLocated for T {
    type File = T::File;

    fn optional_location(&self) -> Option<Location<&T::File>> {
        Some(self.location())
    }
}

impl<T: MaybeLocated> MaybeSpanned for T {
    fn optional_span(&self) -> Option<Span> {
        match self.optional_location() {
            Some(location) => Some(location.span),
            None => None,
        }
    }
}

} // verus!
