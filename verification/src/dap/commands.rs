//! What each command sends: its name on the wire and its arguments.
//!
//! Arguments are JSON objects whose members carry the protocol's names. A
//! member that the client leaves unset is written as `null`.
use vstd::prelude::*;
use serde_json::Value;
use dap_types::SourceBreakpoint;
use crate::json::{
    json_of, map_new, no_members, opt_json_of, put, string, value_array, value_bool, value_null,
    value_object, value_u64, Json, JsonNumber,
};
use crate::dap::types::{source_breakpoint_json, source_breakpoint_value};

verus! {

/// The tree of a non-negative integer.
pub open spec fn json_u64(n: u64) -> Json {
    Json::Number(JsonNumber::PosInt(n))
}

/// The identifying arguments of `initialize`: who the client is, how it
/// counts lines and columns and writes paths, and what it supports.
pub open spec fn initialize_arguments(adapter_id: Seq<char>) -> Json {
    Json::Object(
        no_members().insert("clientID"@, Json::String("zed"@)).insert(
            "clientName"@,
            Json::String("Zed"@),
        ).insert("adapterID"@, Json::String(adapter_id)).insert(
            "locale"@,
            Json::String("en-us"@),
        ).insert("pathFormat"@, Json::String("path"@)).insert(
            "supportsVariableType"@,
            Json::Bool(true),
        ).insert("supportsVariablePaging"@, Json::Bool(false)).insert(
            "supportsRunInTerminalRequest"@,
            Json::Bool(false),
        ).insert("supportsMemoryReferences"@, Json::Bool(true)).insert(
            "supportsProgressReporting"@,
            Json::Bool(true),
        ).insert("supportsInvalidatedEvent"@, Json::Bool(false)).insert(
            "linesStartAt1"@,
            Json::Bool(true),
        ).insert("columnsStartAt1"@, Json::Bool(true)).insert(
            "supportsMemoryEvent"@,
            Json::Bool(true),
        ).insert("supportsArgsCanBeInterpretedByShell"@, Json::Null).insert(
            "supportsStartDebuggingRequest"@,
            Json::Bool(true),
        ),
    )
}

/// The arguments of `launch`, `attach` and `restart`: the adapter's own
/// arguments as they are, or an empty object where there are none.
pub open spec fn launch_arguments(args: Option<Json>) -> Json {
    match args {
        Some(a) => a,
        None => Json::Object(no_members()),
    }
}

/// The arguments of `continue`: one thread, and only that thread.
pub open spec fn continue_arguments(thread_id: u64) -> Json {
    Json::Object(
        no_members().insert("threadId"@, json_u64(thread_id)).insert(
            "singleThread"@,
            Json::Bool(true),
        ),
    )
}

/// The arguments of `next`, `stepOut` and `stepBack`: one thread, only that
/// thread, one statement.
pub open spec fn step_arguments(thread_id: u64) -> Json {
    Json::Object(
        no_members().insert("threadId"@, json_u64(thread_id)).insert(
            "singleThread"@,
            Json::Bool(true),
        ).insert("granularity"@, Json::String("statement"@)),
    )
}

/// The arguments of `stepIn`: those of a step, and no target.
pub open spec fn step_in_arguments(thread_id: u64) -> Json {
    Json::Object(
        no_members().insert("threadId"@, json_u64(thread_id)).insert(
            "singleThread"@,
            Json::Bool(true),
        ).insert("targetId"@, Json::Null).insert("granularity"@, Json::String("statement"@)),
    )
}

/// The arguments of `pause`: one thread.
pub open spec fn pause_arguments(thread_id: u64) -> Json {
    Json::Object(no_members().insert("threadId"@, json_u64(thread_id)))
}

/// The arguments of `disconnect`: no restart, and the debuggee is neither
/// terminated nor kept suspended.
pub open spec fn disconnect_arguments() -> Json {
    Json::Object(
        no_members().insert("restart"@, Json::Bool(false)).insert(
            "terminateDebuggee"@,
            Json::Bool(false),
        ).insert("suspendDebuggee"@, Json::Bool(false)),
    )
}

/// A source that is given by its path alone: every other member is unset.
pub open spec fn source_json(path: Seq<char>) -> Json {
    Json::Object(
        no_members().insert("name"@, Json::Null).insert("path"@, Json::String(path)).insert(
            "sourceReference"@,
            Json::Null,
        ).insert("presentationHint"@, Json::Null).insert("origin"@, Json::Null).insert(
            "sources"@,
            Json::Null,
        ).insert("adapterData"@, Json::Null).insert("checksums"@, Json::Null),
    )
}

/// The trees of a list of breakpoints, where every one of them has one.
pub open spec fn breakpoints_json(breakpoints: Seq<SourceBreakpoint>) -> Option<Seq<Json>> {
    if forall|i: int|
        0 <= i < breakpoints.len() ==> (#[trigger] source_breakpoint_json(breakpoints[i])) is Some {
        Some(Seq::new(breakpoints.len(), |i: int| source_breakpoint_json(breakpoints[i])->0))
    } else {
        None
    }
}

/// The trees of an optional list of breakpoints: `null` for no list.
pub open spec fn optional_breakpoints_json(breakpoints: Option<Seq<SourceBreakpoint>>) -> Option<
    Json,
> {
    match breakpoints {
        Some(list) => match breakpoints_json(list) {
            Some(items) => Some(Json::Array(items)),
            None => None,
        },
        None => Some(Json::Null),
    }
}

/// The arguments of `setBreakpoints` for a source and its breakpoints.
pub open spec fn set_breakpoints_arguments(source: Json, breakpoints: Json) -> Json {
    Json::Object(
        no_members().insert("source"@, source).insert("breakpoints"@, breakpoints).insert(
            "lines"@,
            Json::Null,
        ).insert("sourceModified"@, Json::Null),
    )
}

/// Builds the arguments of `initialize`.
pub fn initialize_arguments_value(adapter_id: &str) -> (r: Value)
    ensures
        json_of(r) == initialize_arguments(adapter_id@),
{
    let mut m = map_new();
    put(&mut m, "clientID", string("zed"));
    put(&mut m, "clientName", string("Zed"));
    put(&mut m, "adapterID", string(adapter_id));
    put(&mut m, "locale", string("en-us"));
    put(&mut m, "pathFormat", string("path"));
    put(&mut m, "supportsVariableType", value_bool(true));
    put(&mut m, "supportsVariablePaging", value_bool(false));
    put(&mut m, "supportsRunInTerminalRequest", value_bool(false));
    put(&mut m, "supportsMemoryReferences", value_bool(true));
    put(&mut m, "supportsProgressReporting", value_bool(true));
    put(&mut m, "supportsInvalidatedEvent", value_bool(false));
    put(&mut m, "linesStartAt1", value_bool(true));
    put(&mut m, "columnsStartAt1", value_bool(true));
    put(&mut m, "supportsMemoryEvent", value_bool(true));
    put(&mut m, "supportsArgsCanBeInterpretedByShell", value_null());
    put(&mut m, "supportsStartDebuggingRequest", value_bool(true));
    value_object(m)
}

/// Builds the arguments of `launch`, `attach` and `restart`.
pub fn launch_arguments_value(args: Option<Value>) -> (r: Value)
    ensures
        json_of(r) == launch_arguments(opt_json_of(args)),
{
    match args {
        Some(a) => a,
        None => value_object(map_new()),
    }
}

/// Builds the arguments of `continue`.
pub fn continue_arguments_value(thread_id: u64) -> (r: Value)
    ensures
        json_of(r) == continue_arguments(thread_id),
{
    let mut m = map_new();
    put(&mut m, "threadId", value_u64(thread_id));
    put(&mut m, "singleThread", value_bool(true));
    value_object(m)
}

/// Builds the arguments of `next`, `stepOut` and `stepBack`.
pub fn step_arguments_value(thread_id: u64) -> (r: Value)
    ensures
        json_of(r) == step_arguments(thread_id),
{
    let mut m = map_new();
    put(&mut m, "threadId", value_u64(thread_id));
    put(&mut m, "singleThread", value_bool(true));
    put(&mut m, "granularity", string("statement"));
    value_object(m)
}

/// Builds the arguments of `stepIn`.
pub fn step_in_arguments_value(thread_id: u64) -> (r: Value)
    ensures
        json_of(r) == step_in_arguments(thread_id),
{
    let mut m = map_new();
    put(&mut m, "threadId", value_u64(thread_id));
    put(&mut m, "singleThread", value_bool(true));
    put(&mut m, "targetId", value_null());
    put(&mut m, "granularity", string("statement"));
    value_object(m)
}

/// Builds the arguments of `pause`.
pub fn pause_arguments_value(thread_id: u64) -> (r: Value)
    ensures
        json_of(r) == pause_arguments(thread_id),
{
    let mut m = map_new();
    put(&mut m, "threadId", value_u64(thread_id));
    value_object(m)
}

/// Builds the arguments of `disconnect`.
pub fn disconnect_arguments_value() -> (r: Value)
    ensures
        json_of(r) == disconnect_arguments(),
{
    let mut m = map_new();
    put(&mut m, "restart", value_bool(false));
    put(&mut m, "terminateDebuggee", value_bool(false));
    put(&mut m, "suspendDebuggee", value_bool(false));
    value_object(m)
}

/// Builds the descriptor of a source that is given by its path alone.
pub fn source_value(path: &str) -> (r: Value)
    ensures
        json_of(r) == source_json(path@),
{
    let mut m = map_new();
    put(&mut m, "name", value_null());
    put(&mut m, "path", string(path));
    put(&mut m, "sourceReference", value_null());
    put(&mut m, "presentationHint", value_null());
    put(&mut m, "origin", value_null());
    put(&mut m, "sources", value_null());
    put(&mut m, "adapterData", value_null());
    put(&mut m, "checksums", value_null());
    value_object(m)
}

/// Builds the JSON form of an optional list of breakpoints, in order. There
/// is none where one of the breakpoints has none.
pub fn breakpoints_value(breakpoints: &Option<Vec<SourceBreakpoint>>) -> (r: Option<Value>)
    ensures
        opt_json_of(r) == optional_breakpoints_json(
            match *breakpoints {
                Some(list) => Some(list@),
                None => None,
            },
        ),
{
    let list = match breakpoints {
        Some(list) => list,
        None => {
            return Some(value_null());
        },
    };
    let mut items: Vec<Value> = Vec::new();
    let mut i: usize = 0;
    while i < list.len()
        invariant
            *breakpoints == Some(*list),
            i <= list.len(),
            items.len() == i,
            forall|k: int|
                0 <= k < i ==> (#[trigger] source_breakpoint_json(list@[k])) == Some(
                    json_of(items@[k]),
                ),
        decreases list.len() - i,
    {
        match source_breakpoint_value(&list[i]) {
            Ok(v) => {
                items.push(v);
            },
            Err(_) => {
                return None;
            },
        }
        i = i + 1;
    }
    assert(breakpoints_json(list@) == Some(items@.map_values(|v: Value| json_of(v))));
    Some(value_array(items))
}

/// Builds the arguments of `setBreakpoints`.
pub fn set_breakpoints_arguments_value(source: Value, breakpoints: Value) -> (r: Value)
    ensures
        json_of(r) == set_breakpoints_arguments(json_of(source), json_of(breakpoints)),
{
    let mut m = map_new();
    put(&mut m, "source", source);
    put(&mut m, "breakpoints", breakpoints);
    put(&mut m, "lines", value_null());
    put(&mut m, "sourceModified", value_null());
    value_object(m)
}

} // verus!
