use debug_try::ast::{Expr, ExprList, Loc, MacroArgs};
use debug_try::diag::DiagKind;
use debug_try::engine::{debug_try_inner, is_known_macro, rewrite_expr};
use debug_try::formatting::{format_loc, u32_to_dec};
use debug_try::laws::traced_step;
use debug_try::options::DebugTryArgs;

fn at(line: u32, col: u32) -> Loc {
    Loc { line, col }
}

fn list(items: Vec<Expr>) -> ExprList {
    let mut l = ExprList::Nil;
    for e in items.into_iter().rev() {
        l = ExprList::Cons { head: Box::new(e), tail: Box::new(l) };
    }
    l
}

fn try_site(inner: Expr, loc: Loc) -> Expr {
    Expr::Try { inner: Box::new(inner), loc }
}

fn traced(inner: Expr, fmt: &str) -> Expr {
    Expr::Traced { inner: Box::new(inner), fmt: fmt.to_string() }
}

fn shallow() -> DebugTryArgs {
    DebugTryArgs { nested: None }
}

fn deep() -> DebugTryArgs {
    DebugTryArgs { nested: Some(true) }
}

/// How many tracing wraps stand anywhere in the tree.
fn count_wraps(e: &Expr) -> usize {
    match e {
        Expr::Leaf => 0,
        Expr::Try { inner, .. } => count_wraps(inner),
        Expr::Closure { body } => count_wraps(body),
        Expr::NestedItem { body } => count_wraps(body),
        Expr::Compound { parts } => count_wraps_list(parts),
        Expr::MacroCall { args, .. } => match args {
            MacroArgs::Parsed { items } => count_wraps_list(items),
            MacroArgs::Raw { .. } => 0,
        },
        Expr::Traced { inner, .. } => 1 + count_wraps(inner),
    }
}

fn count_wraps_list(l: &ExprList) -> usize {
    match l {
        ExprList::Nil => 0,
        ExprList::Cons { head, tail } => count_wraps(head) + count_wraps_list(tail),
    }
}

#[test]
fn decimal_rendering_is_exact() {
    assert_eq!(u32_to_dec(0), "0");
    assert_eq!(u32_to_dec(7), "7");
    assert_eq!(u32_to_dec(10), "10");
    assert_eq!(u32_to_dec(12345), "12345");
    assert_eq!(u32_to_dec(u32::MAX), "4294967295");
}

#[test]
fn format_string_is_exact() {
    let s = format_loc("src/main.rs", at(10, 30));
    assert_eq!(s, "Error propagated (src/main.rs:10:30): {}");
}

#[test]
fn allow_list_is_exactly_the_five_names() {
    for name in ["println", "eprintln", "format", "write", "writeln"] {
        assert!(is_known_macro(&name.to_string()));
    }
    for name in ["print", "dbg", "panic", "Println", "std::write", ""] {
        assert!(!is_known_macro(&name.to_string()));
    }
}

#[test]
fn one_site_is_wrapped() {
    let input = try_site(Expr::Leaf, at(3, 7));
    let out = debug_try_inner(&shallow(), "lib.rs", input).unwrap();
    let expected = try_site(
        traced(Expr::Leaf, "Error propagated (lib.rs:3:7): {}"),
        at(3, 7),
    );
    assert_eq!(out, expected);
}

#[test]
fn nested_sites_rewrite_inside_out() {
    // f(x?)? : the inner wrap covers only x, the outer wrap covers the call.
    let call = Expr::Compound { parts: list(vec![try_site(Expr::Leaf, at(1, 5))]) };
    let input = try_site(call, at(1, 9));
    let out = debug_try_inner(&shallow(), "lib.rs", input).unwrap();
    let expected_inner = try_site(
        traced(Expr::Leaf, "Error propagated (lib.rs:1:5): {}"),
        at(1, 5),
    );
    let expected = try_site(
        traced(
            Expr::Compound { parts: list(vec![expected_inner]) },
            "Error propagated (lib.rs:1:9): {}",
        ),
        at(1, 9),
    );
    assert_eq!(out, expected);
}

#[test]
fn closure_is_skipped_when_not_nested() {
    let input = Expr::Closure { body: Box::new(try_site(Expr::Leaf, at(2, 2))) };
    let out = debug_try_inner(&shallow(), "lib.rs", input).unwrap();
    let untouched = Expr::Closure { body: Box::new(try_site(Expr::Leaf, at(2, 2))) };
    assert_eq!(out, untouched);
}

#[test]
fn closure_is_entered_when_nested() {
    let input = Expr::Closure { body: Box::new(try_site(Expr::Leaf, at(2, 2))) };
    let out = debug_try_inner(&deep(), "lib.rs", input).unwrap();
    let expected = Expr::Closure {
        body: Box::new(try_site(
            traced(Expr::Leaf, "Error propagated (lib.rs:2:2): {}"),
            at(2, 2),
        )),
    };
    assert_eq!(out, expected);
}

#[test]
fn nested_item_is_skipped_when_not_nested() {
    let input = Expr::NestedItem { body: Box::new(try_site(Expr::Leaf, at(5, 1))) };
    let out = debug_try_inner(&shallow(), "lib.rs", input).unwrap();
    let untouched = Expr::NestedItem { body: Box::new(try_site(Expr::Leaf, at(5, 1))) };
    assert_eq!(out, untouched);
}

#[test]
fn nested_item_is_entered_when_nested() {
    let input = Expr::NestedItem { body: Box::new(try_site(Expr::Leaf, at(5, 1))) };
    let out = debug_try_inner(&deep(), "lib.rs", input).unwrap();
    let expected = Expr::NestedItem {
        body: Box::new(try_site(
            traced(Expr::Leaf, "Error propagated (lib.rs:5:1): {}"),
            at(5, 1),
        )),
    };
    assert_eq!(out, expected);
}

#[test]
fn explicit_nested_false_behaves_like_absent() {
    let input = Expr::Closure { body: Box::new(try_site(Expr::Leaf, at(2, 2))) };
    let out = debug_try_inner(&DebugTryArgs { nested: Some(false) }, "lib.rs", input).unwrap();
    let untouched = Expr::Closure { body: Box::new(try_site(Expr::Leaf, at(2, 2))) };
    assert_eq!(out, untouched);
}

#[test]
fn tree_without_sites_or_known_macros_is_unchanged() {
    let make = || {
        Expr::Compound {
            parts: list(vec![
                Expr::Leaf,
                Expr::Closure { body: Box::new(try_site(Expr::Leaf, at(9, 9))) },
                Expr::MacroCall {
                    name: "dbg".to_string(),
                    args: MacroArgs::Parsed { items: list(vec![try_site(Expr::Leaf, at(8, 8))]) },
                },
            ]),
        }
    };
    let out = debug_try_inner(&shallow(), "lib.rs", make()).unwrap();
    assert_eq!(out, make());
}

#[test]
fn wrap_count_matches_reachable_sites() {
    let input = Expr::Compound {
        parts: list(vec![
            try_site(Expr::Leaf, at(1, 1)),
            try_site(try_site(Expr::Leaf, at(2, 1)), at(2, 5)),
            Expr::Closure { body: Box::new(try_site(Expr::Leaf, at(3, 1))) },
        ]),
    };
    let out = debug_try_inner(&shallow(), "lib.rs", input).unwrap();
    // three reachable sites: the closure's site is not reached
    assert_eq!(count_wraps(&out), 3);
}

#[test]
fn known_macro_arguments_are_rewritten() {
    let input = Expr::MacroCall {
        name: "println".to_string(),
        args: MacroArgs::Parsed { items: list(vec![Expr::Leaf, try_site(Expr::Leaf, at(4, 40))]) },
    };
    let out = debug_try_inner(&shallow(), "lib.rs", input).unwrap();
    let expected = Expr::MacroCall {
        name: "println".to_string(),
        args: MacroArgs::Parsed {
            items: list(vec![
                Expr::Leaf,
                try_site(
                    traced(Expr::Leaf, "Error propagated (lib.rs:4:40): {}"),
                    at(4, 40),
                ),
            ]),
        },
    };
    assert_eq!(out, expected);
}

#[test]
fn unlisted_macro_is_left_untouched() {
    // structurally identical to the allow-listed case, but the name differs
    let make = || Expr::MacroCall {
        name: "dbg".to_string(),
        args: MacroArgs::Parsed { items: list(vec![try_site(Expr::Leaf, at(4, 40))]) },
    };
    let out = debug_try_inner(&shallow(), "lib.rs", make()).unwrap();
    assert_eq!(out, make());
}

#[test]
fn malformed_known_macro_reports_a_diagnostic() {
    let input = Expr::Compound {
        parts: list(vec![
            Expr::MacroCall {
                name: "format".to_string(),
                args: MacroArgs::Raw { loc: at(6, 12), msg: "unexpected end of input".to_string() },
            },
            try_site(Expr::Leaf, at(7, 3)),
        ]),
    };
    let ds = debug_try_inner(&shallow(), "lib.rs", input).unwrap_err();
    assert_eq!(ds.len(), 1);
    assert_eq!(ds[0].kind, DiagKind::MalformedArgumentList);
    assert_eq!(ds[0].loc, at(6, 12));
    assert_eq!(ds[0].message(), "unexpected end of input");
}

#[test]
fn walk_goes_on_past_a_malformed_invocation() {
    // the rest of the body is still rewritten, and the malformed invocation's
    // arguments stay unmodified
    let input = Expr::Compound {
        parts: list(vec![
            Expr::MacroCall {
                name: "format".to_string(),
                args: MacroArgs::Raw { loc: at(6, 12), msg: "bad".to_string() },
            },
            try_site(Expr::Leaf, at(7, 3)),
        ]),
    };
    let mut diags = Vec::new();
    let out = rewrite_expr(false, "lib.rs", input, &mut diags);
    let expected = Expr::Compound {
        parts: list(vec![
            Expr::MacroCall {
                name: "format".to_string(),
                args: MacroArgs::Raw { loc: at(6, 12), msg: "bad".to_string() },
            },
            try_site(
                traced(Expr::Leaf, "Error propagated (lib.rs:7:3): {}"),
                at(7, 3),
            ),
        ]),
    };
    assert_eq!(out, expected);
    assert_eq!(diags.len(), 1);
}

#[test]
fn malformed_diagnostics_accumulate_in_order() {
    let input = Expr::Compound {
        parts: list(vec![
            Expr::MacroCall {
                name: "write".to_string(),
                args: MacroArgs::Raw { loc: at(1, 1), msg: "first".to_string() },
            },
            Expr::MacroCall {
                name: "writeln".to_string(),
                args: MacroArgs::Raw { loc: at(2, 1), msg: "second".to_string() },
            },
        ]),
    };
    let ds = debug_try_inner(&shallow(), "lib.rs", input).unwrap_err();
    assert_eq!(ds.len(), 2);
    assert_eq!(ds[0].message(), "first");
    assert_eq!(ds[1].message(), "second");
}

#[test]
fn raw_arguments_of_unlisted_macro_are_not_reported() {
    let make = || Expr::MacroCall {
        name: "vec".to_string(),
        args: MacroArgs::Raw { loc: at(1, 1), msg: "bad".to_string() },
    };
    let out = debug_try_inner(&shallow(), "lib.rs", make()).unwrap();
    assert_eq!(out, make());
}

#[test]
fn successful_value_passes_through_silently() {
    // round trip: the wrap hands a success through unchanged, emitting nothing
    let mut log: Vec<String> = Vec::new();
    let line = "Error propagated (lib.rs:1:1): {}".to_string();
    let r: Result<u64, String> = Ok(41);
    let out = traced_step(r, &line, &mut log);
    assert_eq!(out, Ok(41));
    assert!(log.is_empty());
}

#[test]
fn failing_value_emits_one_line_and_propagates() {
    let mut log: Vec<String> = Vec::new();
    let line = "Error propagated (lib.rs:1:1): {}".to_string();
    let r: Result<u64, String> = Err("boom".to_string());
    let out = traced_step(r, &line, &mut log);
    assert_eq!(out, Err("boom".to_string()));
    assert_eq!(log, vec![line]);
}

#[test]
fn inner_failure_emits_exactly_one_line() {
    // f(x?)? with x failing: the inner site's line is emitted, the outer
    // site is never reached
    let inner_line = "Error propagated (lib.rs:1:5): {}".to_string();
    let outer_line = "Error propagated (lib.rs:1:9): {}".to_string();
    let mut log: Vec<String> = Vec::new();
    let x: Result<u64, String> = Err("boom".to_string());
    let whole: Result<u64, String> = match traced_step(x, &inner_line, &mut log) {
        Ok(v) => traced_step(Ok(v + 1), &outer_line, &mut log),
        Err(e) => Err(e),
    };
    assert_eq!(whole, Err("boom".to_string()));
    assert_eq!(log, vec![inner_line]);
}

#[test]
fn both_sites_succeed_silently() {
    let inner_line = "Error propagated (lib.rs:1:5): {}".to_string();
    let outer_line = "Error propagated (lib.rs:1:9): {}".to_string();
    let mut log: Vec<String> = Vec::new();
    let x: Result<u64, String> = Ok(1);
    let whole: Result<u64, String> = match traced_step(x, &inner_line, &mut log) {
        Ok(v) => traced_step(Ok(v + 1), &outer_line, &mut log),
        Err(e) => Err(e),
    };
    assert_eq!(whole, Ok(2));
    assert!(log.is_empty());
}
