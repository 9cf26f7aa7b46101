//! The options resolver: validates the attribute's key/value entries into the
//! options record the engine consumes.
//!
//! One key is recognized, `nested : bool`, absent meaning `false`.  The first
//! invalid entry stops processing and becomes the single diagnostic; the
//! caller then abandons the whole attribute application.

use vstd::prelude::*;
use vstd::string::StringExecFns;

use crate::ast::Loc;
use crate::diag::{Diag, DiagKind, DiagV};

verus! {

/// The literal paired with a key, as far as the resolver reads it: a boolean
/// literal, or a literal of any other shape.
#[derive(Clone, Copy, PartialEq, Eq, Structural, Debug)]
pub enum LitValue {
    Bool { value: bool },
    Other,
}

/// One attribute argument entry.
#[derive(PartialEq, Debug)]
pub enum AttrEntry {
    /// A simple `key = literal` pair, with the positions of the key and of
    /// the literal.
    KeyValue { key: String, key_loc: Loc, value: LitValue, value_loc: Loc },
    /// Anything else: a bare flag, a nested meta list, ...
    Other { loc: Loc },
}

/// Mathematical image of an [`AttrEntry`].
pub enum AttrEntryV {
    KeyValue { key: Seq<char>, key_loc: Loc, value: LitValue, value_loc: Loc },
    Other { loc: Loc },
}

impl View for AttrEntry {
    type V = AttrEntryV;

    open spec fn view(&self) -> AttrEntryV {
        match *self {
            AttrEntry::KeyValue { ref key, key_loc, value, value_loc } => AttrEntryV::KeyValue {
                key: key@,
                key_loc,
                value,
                value_loc,
            },
            AttrEntry::Other { loc } => AttrEntryV::Other { loc },
        }
    }
}

/// The images of a sequence of entries, in order.
pub open spec fn entry_views(s: Seq<AttrEntry>) -> Seq<AttrEntryV> {
    s.map_values(|e: AttrEntry| e@)
}

/// The validated options record.
#[derive(PartialEq, Debug)]
pub struct DebugTryArgs {
    /// Whether the walk also enters nested closures and nested item
    /// definitions.  Absent means `false`.
    pub nested: Option<bool>,
}

impl Default for DebugTryArgs {
    /// The record produced when no entries are given at all.
    fn default() -> (r: Self)
        ensures
            r.nested is None,
    {
        DebugTryArgs { nested: None }
    }
}

/// What resolving the entries of `s` from position `i` on yields, having
/// already stored `cur` for the `nested` key: the stored flag on success, or
/// the first diagnostic.
pub open spec fn resolve_entries(s: Seq<AttrEntryV>, i: int, cur: Option<bool>) -> Result<
    Option<bool>,
    DiagV,
>
    decreases s.len() - i,
{
    if i < 0 || i >= s.len() {
        Ok(cur)
    } else {
        match s[i] {
            AttrEntryV::KeyValue { key, key_loc, value, value_loc } => {
                if key == "nested"@ {
                    if cur is Some {
                        Err(
                            DiagV {
                                loc: key_loc,
                                kind: DiagKind::DuplicateArgument,
                                detail: Seq::empty(),
                            },
                        )
                    } else {
                        match value {
                            LitValue::Bool { value: b } => resolve_entries(s, i + 1, Some(b)),
                            LitValue::Other => Err(
                                DiagV {
                                    loc: value_loc,
                                    kind: DiagKind::ExpectedBooleanLiteral,
                                    detail: Seq::empty(),
                                },
                            ),
                        }
                    }
                } else {
                    Err(
                        DiagV {
                            loc: key_loc,
                            kind: DiagKind::UnknownArgument,
                            detail: Seq::empty(),
                        },
                    )
                }
            },
            AttrEntryV::Other { loc } => Err(
                DiagV { loc, kind: DiagKind::ExpectedKeyValuePair, detail: Seq::empty() },
            ),
        }
    }
}

impl DebugTryArgs {
    /// Validates the attribute entries, stopping at the first invalid one.
    pub fn try_from(args: Vec<AttrEntry>) -> (r: Result<DebugTryArgs, Diag>)
        ensures
            match r {
                Ok(a) => resolve_entries(entry_views(args@), 0, None) == Ok::<
                    Option<bool>,
                    DiagV,
                >(a.nested),
                Err(d) => resolve_entries(entry_views(args@), 0, None) == Err::<
                    Option<bool>,
                    DiagV,
                >(d@),
            },
    {
        let mut result = DebugTryArgs { nested: None };
        let mut i: usize = 0;
        while i < args.len()
            invariant
                i <= args@.len(),
                resolve_entries(entry_views(args@), 0, None) == resolve_entries(
                    entry_views(args@),
                    i as int,
                    result.nested,
                ),
            decreases args@.len() - i,
        {
            proof {
                assert(entry_views(args@)[i as int] == args@[i as int]@);
            }
            match &args[i] {
                AttrEntry::KeyValue { key, key_loc, value, value_loc } => {
                    if *key == String::from_str("nested") {
                        if result.nested.is_some() {
                            return Err(
                                Diag {
                                    loc: *key_loc,
                                    kind: DiagKind::DuplicateArgument,
                                    detail: String::new(),
                                },
                            );
                        }
                        match value {
                            LitValue::Bool { value: b } => {
                                result.nested = Some(*b);
                            },
                            LitValue::Other => {
                                return Err(
                                    Diag {
                                        loc: *value_loc,
                                        kind: DiagKind::ExpectedBooleanLiteral,
                                        detail: String::new(),
                                    },
                                );
                            },
                        }
                    } else {
                        return Err(
                            Diag {
                                loc: *key_loc,
                                kind: DiagKind::UnknownArgument,
                                detail: String::new(),
                            },
                        );
                    }
                },
                AttrEntry::Other { loc } => {
                    return Err(
                        Diag {
                            loc: *loc,
                            kind: DiagKind::ExpectedKeyValuePair,
                            detail: String::new(),
                        },
                    );
                },
            }
            i += 1;
        }
        Ok(result)
    }
}

} // verus!
