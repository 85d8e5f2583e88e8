//! Reusable, open-once PDF page rendering.
//!
//! [`PdfRenderSession`] keeps a parsed PDF document alive across page renders,
//! so that an application rendering several pages does not reopen and reparse
//! the same bytes for each of them. The session holds the opened document and
//! its page count, and decides which page requests reach the renderer: a page
//! index that is not below the page count is refused with a `Parsing` error
//! before any rendering is attempted.

use vstd::prelude::*;
use vstd::string::StringExecFns;
use crate::error::XbergError;
use crate::text::{decimal_seq, push_decimal};

verus! {

/// A reusable rendering session for one opened document of type `D`.
///
/// The document handle is private; the page count is read once, when the
/// session is made.
pub struct PdfRenderSession<D> {
    document: D,
    page_count: usize,
}

/// The message of the error for a page index that is out of range.
pub open spec fn page_out_of_range_message(page_index: nat, page_count: nat) -> Seq<char> {
    "Page index "@ + decimal_seq(page_index) + " out of range (document has "@
        + decimal_seq(page_count) + " pages)"@
}

impl<D> PdfRenderSession<D> {
    /// The number of pages of the session's document.
    pub closed spec fn spec_page_count(&self) -> nat {
        self.page_count as nat
    }

    /// The session's document.
    pub closed spec fn spec_document(&self) -> D {
        self.document
    }

    /// Makes a session from an opened document and its page count.
    pub fn from_parts(document: D, page_count: usize) -> (r: Self)
        ensures
            r.spec_document() == document,
            r.spec_page_count() == page_count,
    {
        PdfRenderSession { document, page_count }
    }

    /// Returns the number of pages available in this document.
    pub fn page_count(&self) -> (r: usize)
        ensures
            r == self.spec_page_count(),
    {
        self.page_count
    }

    /// The opened document, for the renderer.
    pub fn document(&self) -> (r: &D)
        ensures
            *r == self.spec_document(),
    {
        &self.document
    }

    /// Checks a zero-based page index before rendering: `Ok` exactly when the
    /// index is below the page count, otherwise a `Parsing` error without
    /// source whose message names the index and the page count.
    pub fn check_page_index(&self, page_index: usize) -> (r: Result<(), XbergError>)
        ensures
            r is Ok <==> page_index < self.spec_page_count(),
            r matches Err(e) ==> e matches XbergError::Parsing { message: m, source: None }
                && m@ == page_out_of_range_message(page_index as nat, self.spec_page_count()),
    {
        if page_index >= self.page_count {
            let mut message = "Page index ".to_owned();
            push_decimal(&mut message, page_index as u64);
            message.append(" out of range (document has ");
            push_decimal(&mut message, self.page_count as u64);
            message.append(" pages)");
            return Err(XbergError::Parsing { message, source: None });
        }
        Ok(())
    }
}

} // verus!
