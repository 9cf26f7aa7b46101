//! The rewrite engine: one depth-first pass over the modeled function body.
//!
//! Every error-propagation site the walk reaches has its operand wrapped in
//! the tracing construct; closures and nested item definitions are entered
//! only when the options record says so; the argument lists of the five
//! allow-listed formatting invocations are visited like ordinary expressions,
//! and ones that could not be reinterpreted are reported as diagnostics while
//! the walk goes on.

use vstd::prelude::*;
use vstd::string::StringExecFns;

use crate::ast::{Expr, ExprList, ExprListV, ExprV, MacroArgs, MacroArgsV};
use crate::diag::{diag_views, lemma_diag_views_push, Diag, DiagKind, DiagV};
use crate::formatting::{fmt_spec, format_loc};
use crate::options::DebugTryArgs;

verus! {

/// Whether `name` is on the fixed allow-list of formatting invocation forms
/// whose argument tokens are reinterpreted: print-to-stdout, print-to-stderr,
/// build-a-string, write-to-stream, write-line-to-stream.  Matched by exact
/// bare name only.
pub open spec fn known_name(name: Seq<char>) -> bool {
    ||| name == "println"@
    ||| name == "eprintln"@
    ||| name == "format"@
    ||| name == "write"@
    ||| name == "writeln"@
}

/// Whether the options record asks the walk to enter nested closures and
/// nested item definitions (absent means no).
pub open spec fn effective_nested(a: DebugTryArgs) -> bool {
    a.nested == Some(true)
}

/// The rewritten form of `e`: every propagation site the walk reaches, given
/// `nested`, has its operand wrapped in the tracing construct carrying the
/// format string for the site's location in `file`.
pub open spec fn rw_expr(nested: bool, file: Seq<char>, e: ExprV) -> ExprV
    decreases e,
{
    match e {
        ExprV::Leaf => ExprV::Leaf,
        ExprV::Try { inner, loc } => ExprV::Try {
            inner: Box::new(
                ExprV::Traced {
                    inner: Box::new(rw_expr(nested, file, *inner)),
                    fmt: fmt_spec(file, loc),
                },
            ),
            loc,
        },
        ExprV::Closure { body } => if nested {
            ExprV::Closure { body: Box::new(rw_expr(nested, file, *body)) }
        } else {
            ExprV::Closure { body }
        },
        ExprV::NestedItem { body } => if nested {
            ExprV::NestedItem { body: Box::new(rw_expr(nested, file, *body)) }
        } else {
            ExprV::NestedItem { body }
        },
        ExprV::Compound { parts } => ExprV::Compound { parts: rw_list(nested, file, parts) },
        ExprV::MacroCall { name, args } => if known_name(name) {
            match args {
                MacroArgsV::Parsed { items } => ExprV::MacroCall {
                    name,
                    args: MacroArgsV::Parsed { items: rw_list(nested, file, items) },
                },
                MacroArgsV::Raw { loc, msg } => ExprV::MacroCall {
                    name,
                    args: MacroArgsV::Raw { loc, msg },
                },
            }
        } else {
            ExprV::MacroCall { name, args }
        },
        ExprV::Traced { inner, fmt } => ExprV::Traced {
            inner: Box::new(rw_expr(nested, file, *inner)),
            fmt,
        },
    }
}

/// [`rw_expr`] over each node of a sibling list, in order.
pub open spec fn rw_list(nested: bool, file: Seq<char>, l: ExprListV) -> ExprListV
    decreases l,
{
    match l {
        ExprListV::Nil => ExprListV::Nil,
        ExprListV::Cons { head, tail } => ExprListV::Cons {
            head: Box::new(rw_expr(nested, file, *head)),
            tail: Box::new(rw_list(nested, file, *tail)),
        },
    }
}

/// The diagnostics the walk over `e` records, in traversal order: one for
/// each allow-listed invocation whose argument tokens could not be
/// reinterpreted as a comma-separated expression list.
pub open spec fn diags_expr(nested: bool, e: ExprV) -> Seq<DiagV>
    decreases e,
{
    match e {
        ExprV::Leaf => Seq::empty(),
        ExprV::Try { inner, .. } => diags_expr(nested, *inner),
        ExprV::Closure { body } => if nested {
            diags_expr(nested, *body)
        } else {
            Seq::empty()
        },
        ExprV::NestedItem { body } => if nested {
            diags_expr(nested, *body)
        } else {
            Seq::empty()
        },
        ExprV::Compound { parts } => diags_list(nested, parts),
        ExprV::MacroCall { name, args } => if known_name(name) {
            match args {
                MacroArgsV::Parsed { items } => diags_list(nested, items),
                MacroArgsV::Raw { loc, msg } => seq![
                    DiagV { loc, kind: DiagKind::MalformedArgumentList, detail: msg },
                ],
            }
        } else {
            Seq::empty()
        },
        ExprV::Traced { inner, .. } => diags_expr(nested, *inner),
    }
}

/// [`diags_expr`] over a sibling list, concatenated in order.
pub open spec fn diags_list(nested: bool, l: ExprListV) -> Seq<DiagV>
    decreases l,
{
    match l {
        ExprListV::Nil => Seq::empty(),
        ExprListV::Cons { head, tail } => diags_expr(nested, *head) + diags_list(nested, *tail),
    }
}

/// Whether `name` is one of the five allow-listed invocation forms.
pub fn is_known_macro(name: &String) -> (r: bool)
    ensures
        r == known_name(name@),
{
    *name == String::from_str("println") || *name == String::from_str("eprintln") || *name
        == String::from_str("format") || *name == String::from_str("write") || *name
        == String::from_str("writeln")
}

/// Rewrites one node, appending the diagnostics its walk records to `diags`.
pub fn rewrite_expr(nested: bool, file: &str, e: Expr, diags: &mut Vec<Diag>) -> (out: Expr)
    ensures
        out@ == rw_expr(nested, file@, e@),
        diag_views(final(diags)@) == diag_views(old(diags)@) + diags_expr(nested, e@),
    decreases e,
{
    let ghost e0 = e@;
    match e {
        Expr::Leaf => {
            proof {
                assert(diag_views(diags@) =~= diag_views(old(diags)@) + diags_expr(nested, e0));
            }
            Expr::Leaf
        },
        Expr::Try { inner, loc } => {
            let ghost inner0 = (*inner)@;
            let new_inner = rewrite_expr(nested, file, *inner, diags);
            let fmt = format_loc(file, loc);
            let wrapped = Expr::Traced { inner: Box::new(new_inner), fmt };
            proof {
                assert(wrapped@ == ExprV::Traced {
                    inner: Box::new(rw_expr(nested, file@, inner0)),
                    fmt: fmt_spec(file@, loc),
                });
            }
            let out = Expr::Try { inner: Box::new(wrapped), loc };
            proof {
                assert(out@ == rw_expr(nested, file@, e0));
                assert(diag_views(diags@) =~= diag_views(old(diags)@) + diags_expr(nested, e0));
            }
            out
        },
        Expr::Closure { body } => {
            if nested {
                let b = rewrite_expr(nested, file, *body, diags);
                let out = Expr::Closure { body: Box::new(b) };
                proof {
                    assert(out@ == rw_expr(nested, file@, e0));
                    assert(diag_views(diags@) =~= diag_views(old(diags)@) + diags_expr(
                        nested,
                        e0,
                    ));
                }
                out
            } else {
                let out = Expr::Closure { body };
                proof {
                    assert(out@ == rw_expr(nested, file@, e0));
                    assert(diag_views(diags@) =~= diag_views(old(diags)@) + diags_expr(
                        nested,
                        e0,
                    ));
                }
                out
            }
        },
        Expr::NestedItem { body } => {
            if nested {
                let b = rewrite_expr(nested, file, *body, diags);
                let out = Expr::NestedItem { body: Box::new(b) };
                proof {
                    assert(out@ == rw_expr(nested, file@, e0));
                    assert(diag_views(diags@) =~= diag_views(old(diags)@) + diags_expr(
                        nested,
                        e0,
                    ));
                }
                out
            } else {
                let out = Expr::NestedItem { body };
                proof {
                    assert(out@ == rw_expr(nested, file@, e0));
                    assert(diag_views(diags@) =~= diag_views(old(diags)@) + diags_expr(
                        nested,
                        e0,
                    ));
                }
                out
            }
        },
        Expr::Compound { parts } => {
            let p = rewrite_list(nested, file, parts, diags);
            let out = Expr::Compound { parts: p };
            proof {
                assert(out@ == rw_expr(nested, file@, e0));
                assert(diag_views(diags@) =~= diag_views(old(diags)@) + diags_expr(nested, e0));
            }
            out
        },
        Expr::MacroCall { name, args } => {
            let ghost a0 = args@;
            if is_known_macro(&name) {
                match args {
                    MacroArgs::Parsed { items } => {
                        let ghost items0 = items@;
                        let new_items = rewrite_list(nested, file, items, diags);
                        let new_args = MacroArgs::Parsed { items: new_items };
                        proof {
                            assert(a0 == MacroArgsV::Parsed { items: items0 });
                            assert(new_args@ == MacroArgsV::Parsed {
                                items: rw_list(nested, file@, items0),
                            });
                        }
                        let out = Expr::MacroCall { name, args: new_args };
                        proof {
                            assert(out@ == rw_expr(nested, file@, e0));
                            assert(diag_views(diags@) =~= diag_views(old(diags)@) + diags_expr(
                                nested,
                                e0,
                            ));
                        }
                        out
                    },
                    MacroArgs::Raw { loc, msg } => {
                        let d = Diag {
                            loc,
                            kind: DiagKind::MalformedArgumentList,
                            detail: msg.clone(),
                        };
                        proof {
                            lemma_diag_views_push(diags@, d);
                        }
                        diags.push(d);
                        let new_args = MacroArgs::Raw { loc, msg };
                        proof {
                            assert(a0 == MacroArgsV::Raw { loc, msg: new_args@->Raw_msg });
                            assert(new_args@ == a0);
                        }
                        let out = Expr::MacroCall { name, args: new_args };
                        proof {
                            assert(out@ == rw_expr(nested, file@, e0));
                            assert(diag_views(diags@) =~= diag_views(old(diags)@) + diags_expr(
                                nested,
                                e0,
                            ));
                        }
                        out
                    },
                }
            } else {
                let out = Expr::MacroCall { name, args };
                proof {
                    assert(out@ == rw_expr(nested, file@, e0));
                    assert(diag_views(diags@) =~= diag_views(old(diags)@) + diags_expr(
                        nested,
                        e0,
                    ));
                }
                out
            }
        },
        Expr::Traced { inner, fmt } => {
            let t = rewrite_expr(nested, file, *inner, diags);
            let out = Expr::Traced { inner: Box::new(t), fmt };
            proof {
                assert(out@ == rw_expr(nested, file@, e0));
                assert(diag_views(diags@) =~= diag_views(old(diags)@) + diags_expr(nested, e0));
            }
            out
        },
    }
}

/// Rewrites each node of a sibling list, in order.
pub fn rewrite_list(nested: bool, file: &str, l: ExprList, diags: &mut Vec<Diag>) -> (out:
    ExprList)
    ensures
        out@ == rw_list(nested, file@, l@),
        diag_views(final(diags)@) == diag_views(old(diags)@) + diags_list(nested, l@),
    decreases l,
{
    let ghost l0 = l@;
    let out = match l {
        ExprList::Nil => ExprList::Nil,
        ExprList::Cons { head, tail } => {
            let h = rewrite_expr(nested, file, *head, diags);
            let t = rewrite_list(nested, file, *tail, diags);
            ExprList::Cons { head: Box::new(h), tail: Box::new(t) }
        },
    };
    proof {
        assert(diag_views(diags@) =~= diag_views(old(diags)@) + diags_list(nested, l0));
    }
    out
}

/// Runs the whole pass over a function body.
///
/// On a clean walk the rewritten body comes back; if any allow-listed
/// invocation's argument tokens could not be reinterpreted, all such
/// diagnostics come back instead, in traversal order, and the caller must
/// emit them and fall back to the original, unmodified input.
pub fn debug_try_inner(args: &DebugTryArgs, file: &str, input: Expr) -> (r: Result<
    Expr,
    Vec<Diag>,
>)
    ensures
        match r {
            Ok(out) => diags_expr(effective_nested(*args), input@) == Seq::<DiagV>::empty()
                && out@ == rw_expr(effective_nested(*args), file@, input@),
            Err(ds) => diag_views(ds@) == diags_expr(effective_nested(*args), input@) && ds@.len()
                > 0,
        },
{
    let nested = match args.nested {
        Some(b) => b,
        None => false,
    };
    let ghost in0 = input@;
    let mut diags: Vec<Diag> = Vec::new();
    let out = rewrite_expr(nested, file, input, &mut diags);
    proof {
        assert(diag_views(diags@) =~= diags_expr(nested, in0));
        assert(diag_views(diags@).len() == diags@.len());
    }
    if diags.len() == 0 {
        proof {
            assert(diags_expr(nested, in0) =~= Seq::<DiagV>::empty());
        }
        Ok(out)
    } else {
        Err(diags)
    }
}

} // verus!
