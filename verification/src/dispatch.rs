//! Turning a resolved tool call into what has to be done for it.

use crate::error::{Error, ErrorModel};
use crate::json::{fields_view, render, rendered, JsonModel, JsonValue};
use crate::registry::{tool_named, Tools};
use crate::text::{decimal, join, push_decimal, views};
use crate::tool::{staged_name, write_staged_name, ToolModel};
use vstd::prelude::*;
use vstd::string::StringExecFns;

verus! {

/// The process argument that stands for a payload value: scalars by their
/// literal text, an array as its elements' arguments joined by commas, an
/// object as its compact JSON text (empty where it has none).
pub open spec fn cmd_arg(v: JsonModel) -> Seq<char>
    decreases v,
{
    match v {
        JsonModel::Null => "null"@,
        JsonModel::Bool(b) => if b {
            "true"@
        } else {
            "false"@
        },
        JsonModel::Number(n) => n,
        JsonModel::Str(s) => s,
        JsonModel::Array(items) => join(cmd_arg_each(items), ","@),
        JsonModel::Object(_) => rendered(v),
    }
}

/// The process arguments of the elements of an array, in order.
pub open spec fn cmd_arg_each(items: Seq<JsonModel>) -> Seq<Seq<char>>
    decreases items,
{
    Seq::new(
        items.len(),
        |i: int|
            if 0 <= i < items.len() {
                cmd_arg(items[i])
            } else {
                Seq::empty()
            },
    )
}

/// One `key=value` process argument.
pub open spec fn key_value(key: Seq<char>, v: JsonModel) -> Seq<char> {
    key + "="@ + cmd_arg(v)
}

/// The process arguments of a payload: one per field of an object, in the
/// object's order; none for any other value.
pub open spec fn cmd_args(payload: JsonModel) -> Seq<Seq<char>> {
    match payload {
        JsonModel::Object(fields) => Seq::new(
            fields.len(),
            |i: int| key_value(fields[i].0, fields[i].1),
        ),
        _ => Seq::empty(),
    }
}

/// A payload with fields gives one argument for each field, in the fields'
/// order, and each argument opens with its field's key and `=`.
pub proof fn law_one_argument_per_field(fields: Seq<(Seq<char>, JsonModel)>, i: int)
    requires
        0 <= i < fields.len(),
    ensures
        cmd_args(JsonModel::Object(fields)).len() == fields.len(),
        cmd_args(JsonModel::Object(fields))[i] == fields[i].0 + "="@ + cmd_arg(fields[i].1),
{
}

/// Formats a payload value as a process argument.
pub fn to_cmd_arg(value: &JsonValue) -> (out: String)
    ensures
        out@ == cmd_arg(value@),
    decreases value,
{
    match value {
        JsonValue::Null => String::from_str("null"),
        JsonValue::Bool(b) => if *b {
            String::from_str("true")
        } else {
            String::from_str("false")
        },
        JsonValue::Number(n) => n.clone(),
        JsonValue::Str(s) => s.clone(),
        JsonValue::Array(items) => {
            let mut out = String::new();
            let ghost parts: Seq<Seq<char>> = cmd_arg_each(value@->Array_0);
            let mut i: usize = 0;
            while i < items.len()
                invariant
                    i <= items.len(),
                    value is Array && value->Array_0 == *items,
                    parts.len() == items@.len(),
                    forall|k: int| 0 <= k < items@.len() ==> parts[k] == cmd_arg(items@[k]@),
                    out@ == join(parts.take(i as int), ","@),
                decreases items.len() - i,
            {
                proof {
                    let next = parts.take(i as int + 1);
                    assert(next.drop_last() == parts.take(i as int));
                    assert(next.last() == parts[i as int]);
                    assert(decreases_to!(*items => items[i as int]));
                }
                if i > 0 {
                    out.append(",");
                }
                let piece = to_cmd_arg(&items[i]);
                out.append(piece.as_str());
                i += 1;
            }
            proof {
                assert(parts.take(items.len() as int) == parts);
            }
            out
        },
        JsonValue::Object(_) => render(value),
    }
}

/// Formats a payload as process arguments, one `key=value` per field.
pub fn format_arguments(payload: &JsonValue) -> (args: Vec<String>)
    ensures
        views(args@) == cmd_args(payload@),
{
    let mut args: Vec<String> = Vec::new();
    if let JsonValue::Object(fields) = payload {
        let ghost model = payload@->Object_0;
        proof {
            assert(model == fields_view(fields@));
        }
        let mut i: usize = 0;
        while i < fields.len()
            invariant
                i <= fields.len(),
                payload@ == JsonModel::Object(model),
                model.len() == fields@.len(),
                forall|k: int|
                    0 <= k < fields@.len() ==> model[k] == (fields@[k].0@, fields@[k].1@),
                args@.len() == i,
                forall|k: int|
                    0 <= k < i ==> args@[k]@ == key_value(fields@[k].0@, fields@[k].1@),
            decreases fields.len() - i,
        {
            let mut arg = fields[i].0.clone();
            arg.append("=");
            let value = to_cmd_arg(&fields[i].1);
            arg.append(value.as_str());
            args.push(arg);
            i += 1;
        }
    }
    assert(views(args@) =~= cmd_args(payload@));
    args
}

/// What has to be done for a tool call.
#[derive(Debug)]
pub enum CallPlan {
    /// Post the payload's JSON text to the tool's server and relay the
    /// answer's body as it comes.
    Http { url: String, body: String },
    /// Spawn the staged executable `program` of the tool's directory `dir`
    /// with the arguments, and relay its output as it comes.
    Exec { dir: String, program: String, args: Vec<String> },
}

/// The model of a [`CallPlan`].
pub enum CallPlanModel {
    Http { url: Seq<char>, body: Seq<char> },
    Exec { dir: Seq<char>, program: Seq<char>, args: Seq<Seq<char>> },
}

impl View for CallPlan {
    type V = CallPlanModel;

    open spec fn view(&self) -> CallPlanModel {
        match self {
            CallPlan::Http { url, body } => CallPlanModel::Http { url: url@, body: body@ },
            CallPlan::Exec { dir, program, args } => CallPlanModel::Exec {
                dir: dir@,
                program: program@,
                args: views(args@),
            },
        }
    }
}

/// The address of an action of a tool's server on this machine.
pub open spec fn action_url(port: u16, action: Seq<char>) -> Seq<char> {
    "http://127.0.0.1:"@ + decimal(port as nat) + "/"@ + action
}

/// The address under which the daemon itself takes a tool call.
pub open spec fn call_url(port: u16, name: Seq<char>, action: Seq<char>) -> Seq<char> {
    "http://127.0.0.1:"@ + decimal(port as nat) + "/call/"@ + name + "/"@ + action
}

/// What has to be done for a call of `action` on a registered tool: a tool
/// with a server is reached over HTTP, any other is run with the payload as
/// its arguments.
pub open spec fn plan_for(tool: ToolModel, action: Seq<char>, payload: JsonModel) -> CallPlanModel {
    match tool.manifest.server {
        Some(server) => CallPlanModel::Http {
            url: action_url(server.port, action),
            body: rendered(payload),
        },
        None => CallPlanModel::Exec {
            dir: tool.dir,
            program: staged_name(tool.manifest),
            args: cmd_args(payload),
        },
    }
}

/// Writes the address of an action of a tool's server on this machine.
pub fn write_action_url(port: u16, action: &str) -> (out: String)
    ensures
        out@ == action_url(port, action@),
{
    let mut out = String::from_str("http://127.0.0.1:");
    push_decimal(&mut out, port as u64);
    out.append("/");
    out.append(action);
    out
}

/// Writes the address under which the daemon itself takes a tool call.
pub fn write_call_url(port: u16, name: &str, action: &str) -> (out: String)
    ensures
        out@ == call_url(port, name@, action@),
{
    let mut out = String::from_str("http://127.0.0.1:");
    push_decimal(&mut out, port as u64);
    out.append("/call/");
    out.append(name);
    out.append("/");
    out.append(action);
    out
}

/// Resolves a tool call: the tool is looked up by name, and the call is
/// planned by the kind of the tool. A name that is not registered is
/// refused.
pub fn handle_tool(tools: &Tools, name: &str, action: &str, payload: &JsonValue) -> (r: Result<
    CallPlan,
    Error,
>)
    ensures
        match r {
            Ok(plan) => tool_named(tools@, name@) matches Some(tool) && plan@ == plan_for(
                tool,
                action@,
                payload@,
            ),
            Err(e) => tool_named(tools@, name@) is None && e@ == ErrorModel::UnexpectToolName(
                name@,
            ),
        },
{
    let tool = match tools.get(name) {
        Some(t) => t,
        None => { return Err(Error::UnexpectToolName(String::from_str(name))); },
    };
    match tool.manifest.server {
        Some(server) => Ok(
            CallPlan::Http { url: write_action_url(server.port, action), body: render(payload) },
        ),
        None => {
            let args = format_arguments(payload);
            Ok(
                CallPlan::Exec {
                    dir: tool.dir.clone(),
                    program: write_staged_name(&tool.manifest),
                    args,
                },
            )
        },
    }
}

/// Whether a status of an HTTP answer stands for success.
pub open spec fn is_success(status: u16) -> bool {
    200 <= status < 300
}

/// Judges the answer of a tool's server by its status: any status but a
/// success fails the call, with the status and the answer's text.
pub fn check_status(status: u16, body: String) -> (r: Result<(), Error>)
    ensures
        match r {
            Ok(_) => is_success(status),
            Err(e) => !is_success(status) && e@ == ErrorModel::ToolBadStatus(status, body@),
        },
{
    if 200 <= status && status < 300 {
        Ok(())
    } else {
        Err(Error::ToolBadStatus(status, body))
    }
}

/// Judges the end of a tool's executable: any end but a success fails the
/// call, with the tool's name and what it wrote as errors.
pub fn check_exit(name: String, success: bool, stderr: String) -> (r: Result<(), Error>)
    ensures
        match r {
            Ok(_) => success,
            Err(e) => !success && e@ == ErrorModel::ToolExecFailed(name@, stderr@),
        },
{
    if success {
        Ok(())
    } else {
        Err(Error::ToolExecFailed(name, stderr))
    }
}

} // verus!
