//! The trusted boundary to the script engine and to JSON text.
//!
//! Everything in this module either declares an outside type or wraps one
//! outside call together with the conversion of its result into the wire
//! model.  Nothing here is verified: what a script returns is the script's
//! business, so the wrappers promise nothing about the values they hand
//! back.  All interpretation of those values happens in verified code over
//! [`crate::wire::WireValue`].

use vstd::prelude::*;

use mlua::ObjectLike;

use crate::wire::{WireModel, WireValue};

verus! {

/// The script execution context (one isolated interpreter per driver).
#[verifier::external_type_specification]
#[verifier::external_body]
pub struct ExLua(mlua::Lua);

/// A value handed back by the interpreter.
#[verifier::external_type_specification]
#[verifier::external_body]
pub struct ExLuaValue(mlua::Value);

/// A table handed back by the interpreter.
#[verifier::external_type_specification]
#[verifier::external_body]
pub struct ExLuaTable(mlua::Table);

/// A parsed JSON document.
#[verifier::external_type_specification]
#[verifier::external_body]
pub struct ExJsonValue(serde_json::Value);

/// Relies on mlua::Lua::load and mlua::Chunk::exec: runs the script's top
/// level once inside `lua`, so that the entry points it registers become
/// globals.  The error is the engine's message.
#[verifier::external_body]
pub(crate) fn script_exec(lua: &mlua::Lua, code: &str) -> (r: Result<(), String>) {
    lua.load(code).exec().map_err(|e| e.to_string())
}

/// Relies on mlua::Table::contains_key on the globals table: whether the
/// script defined a global under `name`.  This is the capability probe for
/// optional hooks.
#[verifier::external_body]
pub(crate) fn script_has_global(lua: &mlua::Lua, name: &str) -> (r: Result<bool, String>) {
    lua.globals().contains_key(name).map_err(|e| e.to_string())
}

/// How deep a converted value may nest.  The schemas use a handful of
/// levels; the cap keeps a cyclic table (which the conversion would
/// otherwise chase forever) a conversion failure instead of a crash.
const MAX_WIRE_DEPTH: u32 = 64;

/// Relies on mlua::ObjectLike::call_function on the globals table: calls
/// the entry point `name` with string arguments and converts whatever came
/// back into the wire model.  Fails when the entry point is missing, the
/// script raises, or the result has no wire image.
#[verifier::external_body]
pub(crate) fn script_call(lua: &mlua::Lua, name: &str, args: Vec<String>) -> (r: Result<
    WireValue,
    String,
>) {
    let args: mlua::Variadic<String> = args.into_iter().collect();
    let out: mlua::Value = lua.globals().call_function(name, args).map_err(|e| e.to_string())?;
    wire_of_lua(&out, MAX_WIRE_DEPTH).ok_or_else(
        || format!("value from {name} does not fit the wire model"),
    )
}

/// Relies on mlua::Lua::create_string and mlua::ObjectLike::call_function:
/// calls the entry point `name` with a string and a byte string, for the
/// script's hasher.
#[verifier::external_body]
pub(crate) fn script_call_bytes(lua: &mlua::Lua, name: &str, arg: &str, data: &Vec<u8>) -> (r:
    Result<WireValue, String>) {
    let bytes = lua.create_string(data).map_err(|e| e.to_string())?;
    let out: mlua::Value = lua.globals().call_function(name, (arg, bytes)).map_err(
        |e| e.to_string(),
    )?;
    wire_of_lua(&out, MAX_WIRE_DEPTH).ok_or_else(
        || format!("value from {name} does not fit the wire model"),
    )
}

/// Relies on mlua::Value: one arm per variant, moving the payload into the
/// wire model.  Fractional numbers, invalid text, reference values
/// (functions, userdata) and values nested past `depth` have no wire
/// image.
#[verifier::external_body]
pub(crate) fn wire_of_lua(v: &mlua::Value, depth: u32) -> (r: Option<WireValue>) {
    match v {
        mlua::Value::Nil => Some(WireValue::Null),
        mlua::Value::Boolean(b) => Some(WireValue::Bool(*b)),
        mlua::Value::Integer(n) => Some(WireValue::Number(*n)),
        mlua::Value::String(s) => Some(WireValue::Str(s.to_str().ok()?.to_owned())),
        mlua::Value::Table(t) => wire_of_table(t, depth),
        _ => None,
    }
}

/// Relies on mlua::Table::sequence_values and mlua::Table::pairs: a table
/// with a non-empty array part, or no content at all, is a list of its
/// sequence values in order; any other is a record of its string-keyed
/// pairs (the empty table is one value to the engine; record schemas
/// always carry fields, so the list reading is the faithful one).  A
/// table nested past the depth bound has no wire image.
#[verifier::external_body]
pub(crate) fn wire_of_table(t: &mlua::Table, depth: u32) -> (r: Option<WireValue>) {
    let d = depth.checked_sub(1)?;
    if t.raw_len() > 0 || t.is_empty() {
        let items: Vec<mlua::Value> = t.sequence_values().collect::<Result<_, _>>().ok()?;
        Some(WireValue::List(items.iter().map(|v| wire_of_lua(v, d)).collect::<Option<_>>()?))
    } else {
        let pairs: Vec<(String, mlua::Value)> = t.pairs().collect::<Result<_, _>>().ok()?;
        let fields = pairs.iter().map(|(k, v)| Some((k.clone(), wire_of_lua(v, d)?)));
        Some(WireValue::Record(fields.collect::<Option<_>>()?))
    }
}

/// What parsing JSON text into the wire model yields.  Parsing is a
/// function of the text alone: serde_json's grammar decides it, and the
/// conversion below is deterministic, so the result deserves a name even
/// though restating the grammar here would serve nobody.
pub uninterp spec fn json_wire_of(text: Seq<char>) -> Option<WireModel>;

/// Relies on serde_json::from_str and the conversion below: parses JSON
/// text and moves the document into the wire model.  The error carries the
/// parser's message, or names the conversion failure.
#[verifier::external_body]
pub(crate) fn parse_json_wire(text: &str) -> (r: Result<WireValue, String>)
    ensures
        r matches Ok(v) ==> json_wire_of(text@) == Some(v.deep_view()),
        r is Err ==> json_wire_of(text@) is None,
{
    let doc = serde_json::from_str::<serde_json::Value>(text).map_err(|e| e.to_string())?;
    wire_of_json(&doc).ok_or_else(|| String::from("document holds values outside the wire model"))
}

/// Relies on serde_json::Value: one arm per variant, moving the payload
/// into the wire model.  Non-integer numbers have no wire image.
#[verifier::external_body]
pub(crate) fn wire_of_json(v: &serde_json::Value) -> (r: Option<WireValue>) {
    match v {
        serde_json::Value::Null => Some(WireValue::Null),
        serde_json::Value::Bool(b) => Some(WireValue::Bool(*b)),
        serde_json::Value::Number(n) => Some(WireValue::Number(n.as_i64()?)),
        serde_json::Value::String(s) => Some(WireValue::Str(s.clone())),
        serde_json::Value::Array(items) => Some(
            WireValue::List(items.iter().map(wire_of_json).collect::<Option<_>>()?),
        ),
        serde_json::Value::Object(m) => {
            let fields = m.iter().map(|(k, v)| Some((k.clone(), wire_of_json(v)?)));
            Some(WireValue::Record(fields.collect::<Option<_>>()?))
        },
    }
}

} // verus!
