use rboy::plugins::perms::{entry_request, PermRequest, Permission, ReadWritePermissions};
use rboy::plugins::{PluginSource, PluginTable, ScriptValue};

fn text(s: &str) -> ScriptValue {
    ScriptValue::String(s.as_bytes().to_vec())
}

#[test]
fn nothing_and_false_grant_nothing() {
    assert_eq!(ReadWritePermissions::from_value(&ScriptValue::Nil).unwrap(), ReadWritePermissions::none());
    assert_eq!(
        ReadWritePermissions::from_value(&ScriptValue::Boolean(false)).unwrap(),
        ReadWritePermissions::none()
    );
}

#[test]
fn true_grants_all() {
    assert_eq!(
        ReadWritePermissions::from_value(&ScriptValue::Boolean(true)).unwrap(),
        ReadWritePermissions::all()
    );
}

#[test]
fn words_all_and_none() {
    assert_eq!(ReadWritePermissions::from_value(&text("all")).unwrap(), ReadWritePermissions::all());
    assert_eq!(ReadWritePermissions::from_value(&text("none")).unwrap(), ReadWritePermissions::none());
}

#[test]
fn other_words_are_errors() {
    for word in ["", "al", "alll", "All", "read", "nonee"] {
        let e = ReadWritePermissions::from_value(&text(word)).unwrap_err();
        assert_eq!(e.expected, "all / none");
        assert_eq!(e.found, "");
    }
}

#[test]
fn table_lists_permissions() {
    let table = ScriptValue::Table(vec![
        (ScriptValue::Integer(1), text("read")),
        (ScriptValue::Integer(2), text("write")),
    ]);
    assert_eq!(ReadWritePermissions::from_value(&table).unwrap(), ReadWritePermissions::all());
    let table = ScriptValue::Table(vec![(ScriptValue::Integer(1), text("write"))]);
    assert_eq!(
        ReadWritePermissions::from_value(&table).unwrap(),
        ReadWritePermissions { read: false, write: true }
    );
    let table = ScriptValue::Table(vec![]);
    assert_eq!(ReadWritePermissions::from_value(&table).unwrap(), ReadWritePermissions::none());
}

#[test]
fn table_passes_over_what_is_no_listed_word() {
    let table = ScriptValue::Table(vec![
        (text("read"), text("read")),
        (ScriptValue::Integer(1), ScriptValue::Boolean(true)),
        (ScriptValue::Integer(2), text("execute")),
        (ScriptValue::Integer(3), text("read")),
        (ScriptValue::Number, text("write")),
    ]);
    assert_eq!(
        ReadWritePermissions::from_value(&table).unwrap(),
        ReadWritePermissions { read: true, write: false }
    );
}

#[test]
fn entries_are_classified() {
    assert_eq!(entry_request(&ScriptValue::Integer(1), &text("read")), PermRequest::Read);
    assert_eq!(entry_request(&ScriptValue::Integer(-7), &text("write")), PermRequest::Write);
    assert_eq!(entry_request(&ScriptValue::Integer(1), &text("writ")), PermRequest::Unknown);
    assert_eq!(entry_request(&text("k"), &text("read")), PermRequest::Skipped);
    assert_eq!(entry_request(&ScriptValue::Integer(1), &ScriptValue::Nil), PermRequest::Skipped);
}

#[test]
fn other_types_are_errors_that_name_the_type() {
    let cases = [
        (ScriptValue::Integer(3), "number"),
        (ScriptValue::Number, "number"),
        (ScriptValue::Function, "function"),
        (ScriptValue::Thread, "thread"),
        (ScriptValue::UserData, "userdata"),
    ];
    for (value, name) in cases {
        let e = ReadWritePermissions::from_value(&value).unwrap_err();
        assert_eq!(e.expected, "permissions table");
        assert_eq!(e.found, name);
    }
}

#[test]
fn kind_names() {
    assert_eq!(ScriptValue::Nil.kind_name(), "nil");
    assert_eq!(ScriptValue::Boolean(true).kind_name(), "boolean");
    assert_eq!(ScriptValue::Integer(1).kind_name(), "number");
    assert_eq!(ScriptValue::Number.kind_name(), "number");
    assert_eq!(text("x").kind_name(), "string");
    assert_eq!(ScriptValue::Table(vec![]).kind_name(), "table");
    assert_eq!(ScriptValue::Function.kind_name(), "function");
    assert_eq!(ScriptValue::Thread.kind_name(), "thread");
    assert_eq!(ScriptValue::UserData.kind_name(), "userdata");
}

#[test]
fn a_function_is_a_plugin() {
    let t = PluginTable::from_value(&ScriptValue::Function, &ScriptValue::Nil).unwrap();
    assert_eq!(t.plugin_fn, PluginSource::Value);
}

#[test]
fn a_table_with_run_plugin_is_a_plugin() {
    let t = PluginTable::from_value(&ScriptValue::Table(vec![]), &ScriptValue::Function).unwrap();
    assert_eq!(t.plugin_fn, PluginSource::RunPluginEntry);
}

#[test]
fn a_table_without_run_plugin_is_an_error() {
    let e = PluginTable::from_value(&ScriptValue::Table(vec![]), &ScriptValue::Nil).unwrap_err();
    assert_eq!(e.expected, "`run_plugin' function in plugin table");
    assert_eq!(e.found, "nil");
    let e = PluginTable::from_value(&ScriptValue::Table(vec![]), &text("f")).unwrap_err();
    assert_eq!(e.found, "string");
}

#[test]
fn anything_else_is_no_plugin() {
    let e = PluginTable::from_value(&ScriptValue::Integer(1), &ScriptValue::Function).unwrap_err();
    assert_eq!(e.expected, "plugin table");
    assert_eq!(e.found, "number");
    let e = PluginTable::from_value(&ScriptValue::Nil, &ScriptValue::Function).unwrap_err();
    assert_eq!(e.found, "nil");
}
