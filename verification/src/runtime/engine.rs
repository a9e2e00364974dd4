//! The trust boundary to the embedded engine.
//!
//! The engine instance is an opaque outside value; everything the host
//! asks of it goes through the declarations below: build a sandboxed
//! instance, run source, evaluate source as text, or evaluate source
//! and carry the result tree over into the host's value model. Engine
//! results are opaque — a runtime's contracts never claim what a script
//! computes, only how the host composed what it handed over and how any
//! returned value is read.

use vstd::prelude::*;

use crate::errors::Error;
use crate::value::ScriptValue;

verus! {

#[verifier::external_type_specification]
#[verifier::external_body]
pub struct ExLua(rlua::Lua);

#[verifier::external_type_specification]
#[verifier::external_body]
pub struct ExLuaValue<'lua>(rlua::Value<'lua>);

#[verifier::external_type_specification]
#[verifier::external_body]
pub struct ExLuaTable<'lua>(rlua::Table<'lua>);

/// The standard facilities a sandboxed engine may be built with:
/// arithmetic and control, cooperative continuations, table, string and
/// text helpers, and math. The file-system, operating-system, package
/// and debug libraries are not expressible here at all, and the base
/// library's own file helpers are removed at construction — reaching
/// any such access takes an explicitly registered capability, never an
/// ambient grant.
#[derive(Clone, Copy, Debug, PartialEq, Eq, Structural)]
pub struct Facilities {
    /// Arithmetic, control flow and the base globals.
    pub base: bool,
    /// Cooperative continuations inside the engine.
    pub coroutine: bool,
    /// The table helpers.
    pub table_lib: bool,
    /// The string helpers.
    pub string_lib: bool,
    /// The text helpers.
    pub utf8_lib: bool,
    /// The math helpers.
    pub math: bool,
}

impl Default for Facilities {
    /// Every expressible facility allowed.
    fn default() -> (r: Self)
        ensures
            r.base && r.coroutine && r.table_lib && r.string_lib && r.utf8_lib && r.math,
    {
        Facilities {
            base: true,
            coroutine: true,
            table_lib: true,
            string_lib: true,
            utf8_lib: true,
            math: true,
        }
    }
}

/// Relies on rlua's `Lua::new_with`: the engine loads exactly the
/// listed standard libraries, and the file-system, operating-system,
/// package and debug libraries are never among them. The base library's
/// own file helpers (`dofile`, `loadfile`) are nilled out right after
/// construction, so no ambient file access remains; a failure to nil
/// them (an engine allocation failure at startup) aborts rather than
/// hand out an unsandboxed engine.
#[verifier::external_body]
pub(crate) fn engine_new(f: &Facilities) -> (r: rlua::Lua) {
    let mut libs = rlua::StdLib::empty();
    if f.base { libs = libs | rlua::StdLib::BASE; }
    if f.coroutine { libs = libs | rlua::StdLib::COROUTINE; }
    if f.table_lib { libs = libs | rlua::StdLib::TABLE; }
    if f.string_lib { libs = libs | rlua::StdLib::STRING; }
    if f.utf8_lib { libs = libs | rlua::StdLib::UTF8; }
    if f.math { libs = libs | rlua::StdLib::MATH; }
    let lua = rlua::Lua::new_with(libs);
    lua.context(|ctx| {
        ctx.globals().set("dofile", rlua::Value::Nil)?;
        ctx.globals().set("loadfile", rlua::Value::Nil)
    }).unwrap();
    lua
}

/// Relies on rlua's `Context::load` and `Chunk::exec`: runs the source
/// in the engine's current global scope; an engine-level failure comes
/// back with its diagnostic preserved verbatim.
#[verifier::external_body]
pub(crate) fn engine_exec(lua: &rlua::Lua, source: &str) -> (r: Result<(), Error>)
    ensures
        r matches Err(e) ==> e matches Error::Script(_),
{
    lua.context(|ctx| ctx.load(source).exec()).map_err(|e| Error::Script(format!("{}", e)))
}

/// Relies on rlua's `Value` variants, read one arm each: the engine's
/// result tree carried over into the host's value model. Strings are
/// engine byte strings and must be valid UTF-8 to cross; fractional
/// numbers, functions, threads and userdata have no host form, and any
/// such value fails the whole read with the engine's diagnostic kept.
#[verifier::external_body]
fn script_value_of_lua(v: rlua::Value) -> (r: Result<ScriptValue, Error>)
    ensures
        r matches Err(e) ==> e matches Error::Script(_),
{
    match v {
        rlua::Value::Nil => Ok(ScriptValue::Nil),
        rlua::Value::Boolean(b) => Ok(ScriptValue::Boolean(b)),
        rlua::Value::Integer(n) => Ok(ScriptValue::Number(n)),
        rlua::Value::String(s) => {
            let text = s.to_str().map_err(|e| Error::Script(format!("{}", e)))?;
            Ok(ScriptValue::Str(text.to_string()))
        },
        rlua::Value::Table(t) => Ok(ScriptValue::Table(lua_table_pairs(t)?)),
        _ => Err(Error::Script("engine value has no host form".to_string())),
    }
}

/// Relies on rlua's `Table::pairs`: every key/value pair of the engine
/// table, in the engine's iteration order, each carried over through
/// `script_value_of_lua`.
#[verifier::external_body]
fn lua_table_pairs(t: rlua::Table) -> (r: Result<Vec<(ScriptValue, ScriptValue)>, Error>)
    ensures
        r matches Err(e) ==> e matches Error::Script(_),
{
    let mut ps = Vec::new();
    for kv in t.pairs::<rlua::Value, rlua::Value>() {
        let (k, v) = kv.map_err(|e| Error::Script(format!("{}", e)))?;
        ps.push((script_value_of_lua(k)?, script_value_of_lua(v)?));
    }
    Ok(ps)
}

/// Relies on rlua's `Context::load` and `Chunk::eval`: evaluates the
/// source and carries the engine's result value over into the host's
/// value model, through `script_value_of_lua`. What the engine returns
/// is its own; nothing is claimed of the value.
#[verifier::external_body]
pub(crate) fn engine_eval_value(lua: &rlua::Lua, source: &str) -> (r: Result<ScriptValue, Error>)
    ensures
        r matches Err(e) ==> e matches Error::Script(_),
{
    lua.context(|ctx| {
        let v = ctx.load(source).eval::<rlua::Value>()
            .map_err(|e| Error::Script(format!("{}", e)))?;
        script_value_of_lua(v)
    })
}

/// Relies on rlua's `Context::load` and `Chunk::eval`: evaluates the
/// source in the engine's current global scope and reads the result
/// back as text, or as absent where the script returned nothing; an
/// engine-level failure comes back with its diagnostic preserved
/// verbatim.
#[verifier::external_body]
pub(crate) fn engine_eval_opt_string(lua: &rlua::Lua, source: &str) -> (r: Result<
    Option<String>,
    Error,
>)
    ensures
        r matches Err(e) ==> e matches Error::Script(_),
{
    lua.context(|ctx| ctx.load(source).eval::<Option<String>>())
        .map_err(|e| Error::Script(format!("{}", e)))
}

} // verus!
