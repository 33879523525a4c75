//! The protocol's own data types.
//!
//! The shapes of capabilities, breakpoints, stack frames, scopes and
//! variables are those of the `dap_types` crate. The client carries such
//! values without looking into them; turning them into JSON and back is
//! `serde`'s work, done by the crate's derived impls. Each function here is
//! one call into `serde_json` for one of those types, and its contract names
//! the outcome without spelling it out.
use vstd::prelude::*;
use serde_json::Value;
use dap_types::{
    Capabilities, ContinueResponse, Scope, SetBreakpointsResponse, SourceBreakpoint, StackFrame,
    Variable,
};
use crate::json::{json_of, Json};

verus! {

/// `dap_types::Capabilities`: what an adapter supports.
#[verifier::external_type_specification]
#[verifier::external_body]
pub struct ExCapabilities(Capabilities);

/// `dap_types::ContinueResponse`: the answer to `continue`.
#[verifier::external_type_specification]
#[verifier::external_body]
pub struct ExContinueResponse(ContinueResponse);

/// `dap_types::SetBreakpointsResponse`: the answer to `setBreakpoints`.
#[verifier::external_type_specification]
#[verifier::external_body]
pub struct ExSetBreakpointsResponse(SetBreakpointsResponse);

/// `dap_types::SourceBreakpoint`: a breakpoint as the client asks for it.
#[verifier::external_type_specification]
#[verifier::external_body]
pub struct ExSourceBreakpoint(SourceBreakpoint);

/// `dap_types::StackFrame`: one frame of a thread's stack.
#[verifier::external_type_specification]
#[verifier::external_body]
pub struct ExStackFrame(StackFrame);

/// `dap_types::Scope`: a named group of variables of a stack frame.
#[verifier::external_type_specification]
#[verifier::external_body]
pub struct ExScope(Scope);

/// `dap_types::Variable`: a variable with its value.
#[verifier::external_type_specification]
#[verifier::external_body]
pub struct ExVariable(Variable);

/// The capabilities that a response body describes, where it describes any.
pub uninterp spec fn capabilities_of_json(body: Json) -> Option<Capabilities>;

/// The answer to `continue` that a response body holds, where it holds one.
pub uninterp spec fn continue_response_of_json(body: Json) -> Option<ContinueResponse>;

/// The answer to `setBreakpoints` that a response body holds, where it holds
/// one.
pub uninterp spec fn set_breakpoints_response_of_json(body: Json) -> Option<
    SetBreakpointsResponse,
>;

/// The JSON form of a source breakpoint, where it has one.
pub uninterp spec fn source_breakpoint_json(breakpoint: SourceBreakpoint) -> Option<Json>;

/// Whether these are the capabilities of an adapter that has reported none:
/// what `Capabilities::default` returns.
pub uninterp spec fn no_capabilities(c: Capabilities) -> bool;

/// `<Capabilities as Clone>::clone`: the copy is the same value.
pub assume_specification[ <Capabilities as Clone>::clone ](c: &Capabilities) -> (r: Capabilities)
    ensures
        r == *c,
;

/// `Capabilities::default`: every capability unset.
#[verifier::external_body]
pub(crate) fn default_capabilities() -> (r: Capabilities)
    ensures
        no_capabilities(r),
{
    Capabilities::default()
}

/// `serde_json::from_value::<Capabilities>`: the outcome depends on the
/// body's tree alone.
#[verifier::external_body]
pub(crate) fn parse_capabilities(body: Value) -> (r: Result<Capabilities, serde_json::Error>)
    ensures
        match r {
            Ok(c) => capabilities_of_json(json_of(body)) == Some(c),
            Err(_) => capabilities_of_json(json_of(body)) is None,
        },
{
    serde_json::from_value::<Capabilities>(body)
}

/// `serde_json::from_value::<ContinueResponse>`: the outcome depends on the
/// body's tree alone.
#[verifier::external_body]
pub(crate) fn parse_continue_response(body: Value) -> (r: Result<
    ContinueResponse,
    serde_json::Error,
>)
    ensures
        match r {
            Ok(c) => continue_response_of_json(json_of(body)) == Some(c),
            Err(_) => continue_response_of_json(json_of(body)) is None,
        },
{
    serde_json::from_value::<ContinueResponse>(body)
}

/// `serde_json::from_value::<SetBreakpointsResponse>`: the outcome depends
/// on the body's tree alone.
#[verifier::external_body]
pub(crate) fn parse_set_breakpoints_response(body: Value) -> (r: Result<
    SetBreakpointsResponse,
    serde_json::Error,
>)
    ensures
        match r {
            Ok(c) => set_breakpoints_response_of_json(json_of(body)) == Some(c),
            Err(_) => set_breakpoints_response_of_json(json_of(body)) is None,
        },
{
    serde_json::from_value::<SetBreakpointsResponse>(body)
}

/// `serde_json::from_value::<()>`: succeeds on `null` and on nothing else.
#[verifier::external_body]
pub(crate) fn parse_unit(body: Value) -> (r: Result<(), serde_json::Error>)
    ensures
        r is Ok <==> json_of(body) is Null,
{
    serde_json::from_value::<()>(body)
}

/// `serde_json::to_value` on a `SourceBreakpoint`: the outcome depends on
/// the breakpoint alone.
#[verifier::external_body]
pub(crate) fn source_breakpoint_value(breakpoint: &SourceBreakpoint) -> (r: Result<
    Value,
    serde_json::Error,
>)
    ensures
        match r {
            Ok(v) => source_breakpoint_json(*breakpoint) == Some(json_of(v)),
            Err(_) => source_breakpoint_json(*breakpoint) is None,
        },
{
    serde_json::to_value(breakpoint)
}

} // verus!
