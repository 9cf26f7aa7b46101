//! Compile-time diagnostics surfaced to the invoking toolchain.
//!
//! A diagnostic never aborts the overall translation: the caller emits it and
//! falls back to the untransformed input for the affected scope.

use vstd::prelude::*;
use vstd::string::StringExecFns;

use crate::ast::Loc;

verus! {

/// What went wrong: the options resolver's four rejections, and the rewrite
/// engine's report of macro argument tokens it could not reinterpret.
#[derive(Clone, Copy, PartialEq, Eq, Structural, Debug)]
pub enum DiagKind {
    DuplicateArgument,
    UnknownArgument,
    ExpectedBooleanLiteral,
    ExpectedKeyValuePair,
    MalformedArgumentList,
}

/// A structured (span, message) pair.  `detail` carries the underlying
/// parser's message for [`DiagKind::MalformedArgumentList`] and is empty for
/// the other kinds, whose message is fixed.
#[derive(PartialEq, Debug)]
pub struct Diag {
    pub loc: Loc,
    pub kind: DiagKind,
    pub detail: String,
}

/// Mathematical image of a [`Diag`].
pub struct DiagV {
    pub loc: Loc,
    pub kind: DiagKind,
    pub detail: Seq<char>,
}

impl View for Diag {
    type V = DiagV;

    open spec fn view(&self) -> DiagV {
        DiagV { loc: self.loc, kind: self.kind, detail: self.detail@ }
    }
}

/// The human-readable text of a diagnostic of kind `d.kind`.
pub open spec fn message_spec(d: DiagV) -> Seq<char> {
    match d.kind {
        DiagKind::DuplicateArgument => "Duplicate argument"@,
        DiagKind::UnknownArgument => "Unknown argument"@,
        DiagKind::ExpectedBooleanLiteral => "Expected boolean literal"@,
        DiagKind::ExpectedKeyValuePair => "Expected key-value pair"@,
        DiagKind::MalformedArgumentList => d.detail,
    }
}

impl Diag {
    /// The message the invoking toolchain should print for this diagnostic.
    pub fn message(&self) -> (r: String)
        ensures
            r@ == message_spec(self@),
    {
        match self.kind {
            DiagKind::DuplicateArgument => String::from_str("Duplicate argument"),
            DiagKind::UnknownArgument => String::from_str("Unknown argument"),
            DiagKind::ExpectedBooleanLiteral => String::from_str("Expected boolean literal"),
            DiagKind::ExpectedKeyValuePair => String::from_str("Expected key-value pair"),
            DiagKind::MalformedArgumentList => self.detail.clone(),
        }
    }
}

/// The images of a sequence of diagnostics, in order.
pub open spec fn diag_views(s: Seq<Diag>) -> Seq<DiagV> {
    s.map_values(|d: Diag| d@)
}

/// Taking images commutes with appending one diagnostic.
pub proof fn lemma_diag_views_push(s: Seq<Diag>, d: Diag)
    ensures
        diag_views(s.push(d)) == diag_views(s).push(d@),
{
    assert(diag_views(s.push(d)) =~= diag_views(s).push(d@));
}

} // verus!
