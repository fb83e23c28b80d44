//! Values handed over by the script engine that runs plugins, and what the
//! emulator reads out of them.

use vstd::prelude::*;

pub mod perms;

verus! {

/// A script value as far as the emulator looks into it.
///
/// A number with a fraction carries no payload, and so do functions, threads
/// and user data: no rule here reads them. A table holds its entries in the
/// order in which the engine walks them.
#[derive(Debug)]
pub enum ScriptValue {
    Nil,
    Boolean(bool),
    Integer(i64),
    Number,
    String(Vec<u8>),
    Table(Vec<(ScriptValue, ScriptValue)>),
    Function,
    Thread,
    UserData,
}

/// A value of the wrong type was met where `expected` was wanted.
#[derive(Debug, Clone, Copy)]
pub struct TypeError {
    pub expected: &'static str,
    pub found: &'static str,
}

/// The name that the script engine piccolo gives the type of `v`, as its
/// `Value::type_name` does. Both kinds of number share one name.
pub open spec fn kind_name_of(v: ScriptValue) -> Seq<char> {
    match v {
        ScriptValue::Nil => "nil"@,
        ScriptValue::Boolean(_) => "boolean"@,
        ScriptValue::Integer(_) | ScriptValue::Number => "number"@,
        ScriptValue::String(_) => "string"@,
        ScriptValue::Table(_) => "table"@,
        ScriptValue::Function => "function"@,
        ScriptValue::Thread => "thread"@,
        ScriptValue::UserData => "userdata"@,
    }
}

impl ScriptValue {
    /// The engine's name for the type of this value.
    pub fn kind_name(&self) -> (name: &'static str)
        ensures
            name@ == kind_name_of(*self),
    {
        match self {
            ScriptValue::Nil => "nil",
            ScriptValue::Boolean(_) => "boolean",
            ScriptValue::Integer(_) | ScriptValue::Number => "number",
            ScriptValue::String(_) => "string",
            ScriptValue::Table(_) => "table",
            ScriptValue::Function => "function",
            ScriptValue::Thread => "thread",
            ScriptValue::UserData => "userdata",
        }
    }
}

/// Where the function that runs a plugin was found.
#[derive(Debug, Clone, Copy, PartialEq, Eq, Structural)]
pub enum PluginSource {
    /// The plugin is the function itself.
    Value,
    /// The plugin is a table, and the function is its entry `run_plugin`.
    RunPluginEntry,
}

/// A loaded plugin: the place of the function to call.
#[derive(Debug, Clone, Copy)]
pub struct PluginTable {
    pub plugin_fn: PluginSource,
}

/// What `PluginTable::from_value` answers for a plugin `value` whose entry
/// `run_plugin`, where `value` is a table, is `entry`.
pub open spec fn plugin_table_of(value: ScriptValue, entry: ScriptValue) -> Result<
    PluginSource,
    (Seq<char>, Seq<char>),
> {
    match value {
        ScriptValue::Function => Ok(PluginSource::Value),
        ScriptValue::Table(_) => match entry {
            ScriptValue::Function => Ok(PluginSource::RunPluginEntry),
            x => Err(("`run_plugin' function in plugin table"@, kind_name_of(x))),
        },
        x => Err(("plugin table"@, kind_name_of(x))),
    }
}

impl PluginTable {
    /// Reads a plugin out of the value that a plugin script returned.
    ///
    /// A function is the plugin itself. Of a table, the entry `run_plugin`,
    /// handed in as `entry`, must be a function (`entry` is not looked at for
    /// any other `value`). Everything else is a type error that names what
    /// was found.
    pub fn from_value(value: &ScriptValue, entry: &ScriptValue) -> (r: Result<
        PluginTable,
        TypeError,
    >)
        ensures
            match plugin_table_of(*value, *entry) {
                Ok(source) => r matches Ok(t) && t.plugin_fn == source,
                Err((expected, found)) => r matches Err(e) && e.expected@ == expected && e.found@
                    == found,
            },
    {
        match value {
            ScriptValue::Function => Ok(PluginTable { plugin_fn: PluginSource::Value }),
            ScriptValue::Table(_) => match entry {
                ScriptValue::Function => Ok(
                    PluginTable { plugin_fn: PluginSource::RunPluginEntry },
                ),
                x => Err(
                    TypeError {
                        expected: "`run_plugin' function in plugin table",
                        found: x.kind_name(),
                    },
                ),
            },
            x => Err(TypeError { expected: "plugin table", found: x.kind_name() }),
        }
    }
}

} // verus!
