use debug_try::ast::Loc;
use debug_try::diag::DiagKind;
use debug_try::options::{AttrEntry, DebugTryArgs, LitValue};

fn kv(key: &str, value: LitValue, key_loc: Loc, value_loc: Loc) -> AttrEntry {
    AttrEntry::KeyValue { key: key.to_string(), key_loc, value, value_loc }
}

fn at(line: u32, col: u32) -> Loc {
    Loc { line, col }
}

#[test]
fn no_entries_gives_default() {
    let r = DebugTryArgs::try_from(Vec::new()).unwrap();
    assert_eq!(r.nested, None);
}

#[test]
fn nested_true_is_stored() {
    let args = vec![kv("nested", LitValue::Bool { value: true }, at(1, 1), at(1, 10))];
    let r = DebugTryArgs::try_from(args).unwrap();
    assert_eq!(r.nested, Some(true));
}

#[test]
fn nested_false_is_stored() {
    let args = vec![kv("nested", LitValue::Bool { value: false }, at(1, 1), at(1, 10))];
    let r = DebugTryArgs::try_from(args).unwrap();
    assert_eq!(r.nested, Some(false));
}

#[test]
fn non_boolean_value_is_rejected() {
    // nested = "yes"
    let args = vec![kv("nested", LitValue::Other, at(2, 3), at(2, 12))];
    let d = DebugTryArgs::try_from(args).unwrap_err();
    assert_eq!(d.kind, DiagKind::ExpectedBooleanLiteral);
    assert_eq!(d.loc, at(2, 12));
    assert_eq!(d.message(), "Expected boolean literal");
}

#[test]
fn duplicate_key_is_rejected_at_second_occurrence() {
    let args = vec![
        kv("nested", LitValue::Bool { value: true }, at(1, 1), at(1, 10)),
        kv("nested", LitValue::Bool { value: false }, at(1, 20), at(1, 29)),
    ];
    let d = DebugTryArgs::try_from(args).unwrap_err();
    assert_eq!(d.kind, DiagKind::DuplicateArgument);
    assert_eq!(d.loc, at(1, 20));
    assert_eq!(d.message(), "Duplicate argument");
}

#[test]
fn unknown_key_is_rejected() {
    let args = vec![kv("color", LitValue::Bool { value: true }, at(4, 2), at(4, 10))];
    let d = DebugTryArgs::try_from(args).unwrap_err();
    assert_eq!(d.kind, DiagKind::UnknownArgument);
    assert_eq!(d.loc, at(4, 2));
    assert_eq!(d.message(), "Unknown argument");
}

#[test]
fn bare_entry_is_rejected() {
    let args = vec![AttrEntry::Other { loc: at(7, 7) }];
    let d = DebugTryArgs::try_from(args).unwrap_err();
    assert_eq!(d.kind, DiagKind::ExpectedKeyValuePair);
    assert_eq!(d.loc, at(7, 7));
    assert_eq!(d.message(), "Expected key-value pair");
}

#[test]
fn first_invalid_entry_wins() {
    let args = vec![
        AttrEntry::Other { loc: at(1, 1) },
        kv("color", LitValue::Bool { value: true }, at(2, 2), at(2, 10)),
    ];
    let d = DebugTryArgs::try_from(args).unwrap_err();
    assert_eq!(d.kind, DiagKind::ExpectedKeyValuePair);
    assert_eq!(d.loc, at(1, 1));
}
