//! Conversions from locations to diagnostic labels.
//!
//! Integration with the `codespan-reporting` crate: a [`Location`] carries
//! exactly what a diagnostic label needs, a file id and a byte range.

use vstd::prelude::*;

use codespan_reporting::diagnostic::{Label, LabelStyle};

use crate::location::Location;
use crate::span::Span;

verus! {

#[verifier::external_type_specification]
pub struct ExLabelStyle(LabelStyle);

#[verifier::external_type_specification]
#[verifier::reject_recursive_types(FileId)]
pub struct ExLabel<FileId>(Label<FileId>);

/// Relies on codespan_reporting's `Label::primary`: it assembles a label
/// with primary style, the given file id, the given byte range and an
/// empty message.
#[verifier::external_body]
fn label_primary<F>(file: F, span: Span) -> (r: Label<F>)
    ensures
        r.style == LabelStyle::Primary,
        r.file_id == file,
        r.range.start == span.start,
        r.range.end == span.end,
        r.message@ == Seq::<char>::empty(),
{
    Label::primary(file, span.start..span.end)
}

/// Relies on codespan_reporting's `Label::secondary`: it assembles a label
/// with secondary style, the given file id, the given byte range and an
/// empty message.
#[verifier::external_body]
fn label_secondary<F>(file: F, span: Span) -> (r: Label<F>)
    ensures
        r.style == LabelStyle::Secondary,
        r.file_id == file,
        r.range.start == span.start,
        r.range.end == span.end,
        r.message@ == Seq::<char>::empty(),
{
    Label::secondary(file, span.start..span.end)
}

impl<F: Clone> Location<F> {
    /// Builds a primary diagnostic label over this location, cloning the
    /// file id.
    pub fn as_primary_label(&self) -> (r: Label<F>)
        ensures
            r.style == LabelStyle::Primary,
            call_ensures(<F as Clone>::clone, (&self.file,), r.file_id),
            r.range.start == self.span.start,
            r.range.end == self.span.end,
            r.message@ == Seq::<char>::empty(),
    {
        label_primary(self.file.clone(), self.span)
    }

    /// Builds a secondary diagnostic label over this location, cloning the
    /// file id.
    pub fn as_secondary_label(&self) -> (r: Label<F>)
        ensures
            r.style == LabelStyle::Secondary,
            call_ensures(<F as Clone>::clone, (&self.file,), r.file_id),
            r.range.start == self.span.start,
            r.range.end == self.span.end,
            r.message@ == Seq::<char>::empty(),
    {
        label_secondary(self.file.clone(), self.span)
    }
}

impl<F> Location<F> {
    /// Consumes this location into a primary diagnostic label.
    pub fn into_primary_label(self) -> (r: Label<F>)
        ensures
            r.style == LabelStyle::Primary,
            r.file_id == self.file,
            r.range.start == self.span.start,
            r.range.end == self.span.end,
            r.message@ == Seq::<char>::empty(),
    {
        let (file, span) = self.into_parts();
        label_primary(file, span)
    }

    /// Consumes this location into a secondary diagnostic label.
    pub fn into_secondary_label(self) -> (r: Label<F>)
        ensures
            r.style == LabelStyle::Secondary,
            r.file_id == self.file,
            r.range.start == self.span.start,
            r.range.end == self.span.end,
            r.message@ == Seq::<char>::empty(),
    {
        let (file, span) = self.into_parts();
        label_secondary(file, span)
    }
}

} // verus!
