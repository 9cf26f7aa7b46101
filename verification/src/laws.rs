//! The properties the rewrite is meant to have, stated and proved against
//! the engine's specification functions.

use vstd::prelude::*;

use crate::ast::{ExprListV, ExprV, MacroArgsV};
use crate::diag::{DiagKind, DiagV};
use crate::engine::{diags_expr, diags_list, known_name, rw_expr, rw_list};
use crate::formatting::fmt_spec;
use crate::ast::Loc;

verus! {

/// How many error-propagation sites of `e` the walk reaches, given `nested`:
/// sites inside closures and nested items count only when `nested` is true,
/// and sites inside macro argument lists count only when the invocation is
/// allow-listed and its arguments were reinterpreted.
pub open spec fn reachable_sites(nested: bool, e: ExprV) -> nat
    decreases e,
{
    match e {
        ExprV::Leaf => 0,
        ExprV::Try { inner, .. } => 1 + reachable_sites(nested, *inner),
        ExprV::Closure { body } => if nested {
            reachable_sites(nested, *body)
        } else {
            0
        },
        ExprV::NestedItem { body } => if nested {
            reachable_sites(nested, *body)
        } else {
            0
        },
        ExprV::Compound { parts } => reachable_sites_list(nested, parts),
        ExprV::MacroCall { name, args } => if known_name(name) {
            match args {
                MacroArgsV::Parsed { items } => reachable_sites_list(nested, items),
                MacroArgsV::Raw { .. } => 0,
            }
        } else {
            0
        },
        ExprV::Traced { inner, .. } => reachable_sites(nested, *inner),
    }
}

/// [`reachable_sites`] summed over a sibling list.
pub open spec fn reachable_sites_list(nested: bool, l: ExprListV) -> nat
    decreases l,
{
    match l {
        ExprListV::Nil => 0,
        ExprListV::Cons { head, tail } => reachable_sites(nested, *head) + reachable_sites_list(
            nested,
            *tail,
        ),
    }
}

/// How many allow-listed invocations of `e` the walk reaches, given `nested`.
pub open spec fn reachable_known_macros(nested: bool, e: ExprV) -> nat
    decreases e,
{
    match e {
        ExprV::Leaf => 0,
        ExprV::Try { inner, .. } => reachable_known_macros(nested, *inner),
        ExprV::Closure { body } => if nested {
            reachable_known_macros(nested, *body)
        } else {
            0
        },
        ExprV::NestedItem { body } => if nested {
            reachable_known_macros(nested, *body)
        } else {
            0
        },
        ExprV::Compound { parts } => reachable_known_macros_list(nested, parts),
        ExprV::MacroCall { name, args } => if known_name(name) {
            match args {
                MacroArgsV::Parsed { items } => 1 + reachable_known_macros_list(nested, items),
                MacroArgsV::Raw { .. } => 1,
            }
        } else {
            0
        },
        ExprV::Traced { inner, .. } => reachable_known_macros(nested, *inner),
    }
}

/// [`reachable_known_macros`] summed over a sibling list.
pub open spec fn reachable_known_macros_list(nested: bool, l: ExprListV) -> nat
    decreases l,
{
    match l {
        ExprListV::Nil => 0,
        ExprListV::Cons { head, tail } => reachable_known_macros(nested, *head)
            + reachable_known_macros_list(nested, *tail),
    }
}

/// How many tracing constructs stand anywhere in `e`, whether or not a walk
/// would reach them.
pub open spec fn wrap_count(e: ExprV) -> nat
    decreases e,
{
    match e {
        ExprV::Leaf => 0,
        ExprV::Try { inner, .. } => wrap_count(*inner),
        ExprV::Closure { body } => wrap_count(*body),
        ExprV::NestedItem { body } => wrap_count(*body),
        ExprV::Compound { parts } => wrap_count_list(parts),
        ExprV::MacroCall { args, .. } => match args {
            MacroArgsV::Parsed { items } => wrap_count_list(items),
            MacroArgsV::Raw { .. } => 0,
        },
        ExprV::Traced { inner, .. } => 1 + wrap_count(*inner),
    }
}

/// [`wrap_count`] summed over a sibling list.
pub open spec fn wrap_count_list(l: ExprListV) -> nat
    decreases l,
{
    match l {
        ExprListV::Nil => 0,
        ExprListV::Cons { head, tail } => wrap_count(*head) + wrap_count_list(*tail),
    }
}

/// When the walk does not enter nested scopes, a closure's body and a nested
/// item's body come through the rewrite untouched, and nothing inside them is
/// reported.
pub proof fn lemma_shallow_leaves_nested_scopes(file: Seq<char>, body: Box<ExprV>)
    ensures
        rw_expr(false, file, (ExprV::Closure { body })) == (ExprV::Closure { body }),
        rw_expr(false, file, (ExprV::NestedItem { body })) == (ExprV::NestedItem { body }),
        diags_expr(false, (ExprV::Closure { body })) == Seq::<DiagV>::empty(),
        diags_expr(false, (ExprV::NestedItem { body })) == Seq::<DiagV>::empty(),
{
}

/// When the walk does enter nested scopes, a closure's body and a nested
/// item's body are rewritten exactly like the outer body.
pub proof fn lemma_nested_enters_nested_scopes(file: Seq<char>, body: Box<ExprV>)
    ensures
        rw_expr(true, file, (ExprV::Closure { body })) == (ExprV::Closure {
            body: Box::new(rw_expr(true, file, *body)),
        }),
        rw_expr(true, file, (ExprV::NestedItem { body })) == (ExprV::NestedItem {
            body: Box::new(rw_expr(true, file, *body)),
        }),
        diags_expr(true, (ExprV::Closure { body })) == diags_expr(true, *body),
        diags_expr(true, (ExprV::NestedItem { body })) == diags_expr(true, *body),
{
}

/// A propagation site is always rewritten where the walk reaches it: the
/// site keeps its propagation node, and its operand — itself rewritten first,
/// inside out — is wrapped in exactly one tracing construct carrying the
/// format string for the site's location.
pub proof fn lemma_site_rewrite(nested: bool, file: Seq<char>, inner: Box<ExprV>, loc: Loc)
    ensures
        rw_expr(nested, file, (ExprV::Try { inner, loc })) == (ExprV::Try {
            inner: Box::new(
                ExprV::Traced {
                    inner: Box::new(rw_expr(nested, file, *inner)),
                    fmt: fmt_spec(file, loc),
                },
            ),
            loc,
        }),
{
}

/// The rewritten tree holds exactly one new tracing construct for each
/// propagation site the walk reaches, and no other.
pub proof fn lemma_wrap_count(nested: bool, file: Seq<char>, e: ExprV)
    ensures
        wrap_count(rw_expr(nested, file, e)) == wrap_count(e) + reachable_sites(nested, e),
    decreases e,
{
    match e {
        ExprV::Leaf => {},
        ExprV::Try { inner, loc } => {
            lemma_wrap_count(nested, file, *inner);
            let t = ExprV::Traced {
                inner: Box::new(rw_expr(nested, file, *inner)),
                fmt: fmt_spec(file, loc),
            };
            assert(wrap_count(t) == 1 + wrap_count(rw_expr(nested, file, *inner)));
            assert(rw_expr(nested, file, e) == (ExprV::Try { inner: Box::new(t), loc }));
        },
        ExprV::Closure { body } => {
            if nested {
                lemma_wrap_count(nested, file, *body);
            }
        },
        ExprV::NestedItem { body } => {
            if nested {
                lemma_wrap_count(nested, file, *body);
            }
        },
        ExprV::Compound { parts } => {
            lemma_wrap_count_list(nested, file, parts);
        },
        ExprV::MacroCall { name, args } => {
            if known_name(name) {
                match args {
                    MacroArgsV::Parsed { items } => {
                        lemma_wrap_count_list(nested, file, items);
                    },
                    MacroArgsV::Raw { .. } => {},
                }
            }
        },
        ExprV::Traced { inner, .. } => {
            lemma_wrap_count(nested, file, *inner);
        },
    }
}

/// [`lemma_wrap_count`] over a sibling list.
pub proof fn lemma_wrap_count_list(nested: bool, file: Seq<char>, l: ExprListV)
    ensures
        wrap_count_list(rw_list(nested, file, l)) == wrap_count_list(l) + reachable_sites_list(
            nested,
            l,
        ),
    decreases l,
{
    match l {
        ExprListV::Nil => {},
        ExprListV::Cons { head, tail } => {
            lemma_wrap_count(nested, file, *head);
            lemma_wrap_count_list(nested, file, *tail);
        },
    }
}

/// A body in which the walk reaches no propagation site and no allow-listed
/// invocation comes back structurally equal to the input, with no
/// diagnostics.
pub proof fn lemma_no_sites_identity(nested: bool, file: Seq<char>, e: ExprV)
    requires
        reachable_sites(nested, e) == 0,
        reachable_known_macros(nested, e) == 0,
    ensures
        rw_expr(nested, file, e) == e,
        diags_expr(nested, e) == Seq::<DiagV>::empty(),
    decreases e,
{
    match e {
        ExprV::Leaf => {},
        ExprV::Try { inner, .. } => {
            assert(false);
        },
        ExprV::Closure { body } => {
            if nested {
                lemma_no_sites_identity(nested, file, *body);
            }
        },
        ExprV::NestedItem { body } => {
            if nested {
                lemma_no_sites_identity(nested, file, *body);
            }
        },
        ExprV::Compound { parts } => {
            lemma_no_sites_identity_list(nested, file, parts);
        },
        ExprV::MacroCall { name, args } => {
            assert(!known_name(name));
        },
        ExprV::Traced { inner, fmt } => {
            lemma_no_sites_identity(nested, file, *inner);
        },
    }
}

/// [`lemma_no_sites_identity`] over a sibling list.
pub proof fn lemma_no_sites_identity_list(nested: bool, file: Seq<char>, l: ExprListV)
    requires
        reachable_sites_list(nested, l) == 0,
        reachable_known_macros_list(nested, l) == 0,
    ensures
        rw_list(nested, file, l) == l,
        diags_list(nested, l) == Seq::<DiagV>::empty(),
    decreases l,
{
    match l {
        ExprListV::Nil => {},
        ExprListV::Cons { head, tail } => {
            lemma_no_sites_identity(nested, file, *head);
            lemma_no_sites_identity_list(nested, file, *tail);
            assert(diags_expr(nested, *head) + diags_list(nested, *tail) =~= Seq::<
                DiagV,
            >::empty());
        },
    }
}

/// An invocation whose name is not on the allow-list is left entirely
/// untouched — its arguments are neither rewritten nor reported — even when
/// a propagation site stands syntactically inside them.
pub proof fn lemma_unlisted_macro_untouched(
    nested: bool,
    file: Seq<char>,
    name: Seq<char>,
    args: MacroArgsV,
)
    requires
        !known_name(name),
    ensures
        rw_expr(nested, file, (ExprV::MacroCall { name, args })) == (ExprV::MacroCall {
            name,
            args,
        }),
        diags_expr(nested, (ExprV::MacroCall { name, args })) == Seq::<DiagV>::empty(),
{
}

/// An allow-listed invocation whose argument tokens could not be
/// reinterpreted is left unmodified, and the walk records exactly one
/// diagnostic for it: the unparseable span and the parser's message.
pub proof fn lemma_malformed_args_reported(
    nested: bool,
    file: Seq<char>,
    name: Seq<char>,
    loc: Loc,
    msg: Seq<char>,
)
    requires
        known_name(name),
    ensures
        rw_expr(nested, file, (ExprV::MacroCall { name, args: MacroArgsV::Raw { loc, msg } }))
            == (ExprV::MacroCall { name, args: MacroArgsV::Raw { loc, msg } }),
        diags_expr(nested, (ExprV::MacroCall { name, args: MacroArgsV::Raw { loc, msg } }))
            == (seq![DiagV { loc, kind: DiagKind::MalformedArgumentList, detail: msg }]),
{
}

/// The walk of a sibling list rewrites every sibling and reports every
/// sibling's diagnostics, in order: one sibling's failure never stops the
/// rest of the body from being processed.
pub proof fn lemma_siblings_independent(nested: bool, file: Seq<char>, l: ExprListV)
    ensures
        (l matches ExprListV::Cons { head, tail } ==> rw_list(nested, file, l)
            == (ExprListV::Cons {
            head: Box::new(rw_expr(nested, file, *head)),
            tail: Box::new(rw_list(nested, file, *tail)),
        }) && diags_list(nested, l) == diags_expr(nested, *head) + diags_list(nested, *tail)),
{
}

/// Model of evaluating one rewritten propagation site: the wrapped operand's
/// outcome is handed on unchanged, and the site's diagnostic line is emitted
/// exactly when the outcome is a failure.
pub open spec fn traced_eval<T, E>(r: Result<T, E>, msg: Seq<char>) -> (Result<T, E>, Seq<
    Seq<char>,
>) {
    match r {
        Ok(v) => (Ok(v), Seq::empty()),
        Err(e) => (Err(e), seq![msg]),
    }
}

/// Executable form of [`traced_eval`]: what one rewritten site does at run
/// time, with the emitted lines gathered in `log` in place of the error
/// stream.
pub fn traced_step<T, E>(r: Result<T, E>, line: &String, log: &mut Vec<String>) -> (out: Result<
    T,
    E,
>)
    ensures
        out == r,
        r is Ok ==> final(log)@ == old(log)@,
        r is Err ==> final(log)@ == old(log)@.push(*line),
{
    match &r {
        Ok(_) => {},
        Err(_) => {
            log.push(line.clone());
        },
    }
    r
}

/// Round trip: when the wrapped operand succeeds, the unwrapped value is
/// exactly what the unwrapped operand would have produced, and nothing is
/// emitted; when it fails, the error comes through unaltered with one line
/// emitted.
pub proof fn lemma_round_trip<T, E>(r: Result<T, E>, msg: Seq<char>)
    ensures
        traced_eval(r, msg).0 == r,
        r is Ok ==> traced_eval(r, msg).1 == Seq::<Seq<char>>::empty(),
        r is Err ==> traced_eval(r, msg).1 == seq![msg],
{
}

/// Model of evaluating a rewritten nested pair of sites `f(x?)?`: the inner
/// site's wrap covers only `x`'s evaluation, the outer site's wrap covers the
/// call's result, and the inner failure aborts before the outer site runs.
pub open spec fn eval_nested_sites<A, B, E>(
    x: Result<A, E>,
    f: spec_fn(A) -> Result<B, E>,
    inner_msg: Seq<char>,
    outer_msg: Seq<char>,
) -> (Result<B, E>, Seq<Seq<char>>) {
    let inner = traced_eval(x, inner_msg);
    match inner.0 {
        Ok(v) => {
            let outer = traced_eval(f(v), outer_msg);
            (outer.0, inner.1 + outer.1)
        },
        Err(e) => (Err(e), inner.1),
    }
}

/// When the inner operand fails, exactly one line is emitted — the inner
/// site's — and the same error propagates; the outer site emits nothing.
pub proof fn lemma_inner_failure_emits_once<A, B, E>(
    x: Result<A, E>,
    f: spec_fn(A) -> Result<B, E>,
    inner_msg: Seq<char>,
    outer_msg: Seq<char>,
)
    requires
        x is Err,
    ensures
        eval_nested_sites(x, f, inner_msg, outer_msg).1 == seq![inner_msg],
        x matches Err(e) ==> eval_nested_sites(x, f, inner_msg, outer_msg).0 == Err::<B, E>(e),
{
}

/// When both sites succeed, nothing is emitted and the call's value comes
/// through.
pub proof fn lemma_nested_success_silent<A, B, E>(
    x: Result<A, E>,
    f: spec_fn(A) -> Result<B, E>,
    inner_msg: Seq<char>,
    outer_msg: Seq<char>,
)
    requires
        x is Ok,
        x matches Ok(v) && f(v) is Ok,
    ensures
        x matches Ok(v) ==> eval_nested_sites(x, f, inner_msg, outer_msg).0 == f(v),
        eval_nested_sites(x, f, inner_msg, outer_msg).1 == Seq::<Seq<char>>::empty(),
{
    assert(eval_nested_sites(x, f, inner_msg, outer_msg).1 =~= Seq::<Seq<char>>::empty());
}

} // verus!
