//! A registered tool, and the decisions of its start, check and stop.

use crate::error::{debug_quoted, debug_string};
use crate::json::{fields_view, render, rendered, JsonModel, JsonValue};
use crate::manifest::{
    manifest_text, ActionModel, ArgumentModel, Manifest, ManifestModel, ManifestServer,
    ManifestToolAction, ManifestToolArgument,
};
use crate::registry::{registered, Tools};
use crate::text::{
    chars_of, clone_strings, join, join_strings, slice_chars, string_of, text_view, views,
};
use vstd::prelude::*;
use vstd::string::{StrSliceExecFns, StringExecFns};

verus! {

/// A tool as the registry holds it: its directory, the manifest it was
/// started with, what was generated from that, the time of the newest change
/// that the start saw, and the log file that is followed, if one was found.
#[derive(Debug)]
pub struct Tool {
    pub dir: String,
    pub manifest: Manifest,
    pub docs: Vec<String>,
    pub examples: Vec<String>,
    pub last_update: Option<u64>,
    pub trace: Option<String>,
}

/// The model of a [`Tool`].
pub struct ToolModel {
    pub dir: Seq<char>,
    pub manifest: ManifestModel,
    pub docs: Seq<Seq<char>>,
    pub examples: Seq<Seq<char>>,
    pub last_update: Option<u64>,
    pub trace: Option<Seq<char>>,
}

impl ToolModel {
    /// The name under which the tool is registered.
    pub open spec fn name(self) -> Seq<char> {
        self.manifest.tool.name
    }
}

impl View for Tool {
    type V = ToolModel;

    open spec fn view(&self) -> ToolModel {
        ToolModel {
            dir: self.dir@,
            manifest: self.manifest@,
            docs: views(self.docs@),
            examples: views(self.examples@),
            last_update: self.last_update,
            trace: text_view(self.trace),
        }
    }
}

impl Clone for Tool {
    fn clone(&self) -> (r: Self)
        ensures
            r@ == self@,
    {
        Tool {
            dir: self.dir.clone(),
            manifest: self.manifest.clone(),
            docs: clone_strings(&self.docs),
            examples: clone_strings(&self.examples),
            last_update: self.last_update,
            trace: match &self.trace {
                Some(t) => Some(t.clone()),
                None => None,
            },
        }
    }
}

/// What `{:?}` prints for a list of strings.
pub open spec fn debug_list(items: Seq<Seq<char>>) -> Seq<char> {
    "["@ + join(Seq::new(items.len(), |i: int| debug_quoted(items[i])), ", "@) + "]"@
}

/// The line that documents one argument of an action.
pub open spec fn argument_line(name: Seq<char>, a: ArgumentModel) -> Seq<char> {
    let base = "    * "@ + name + ": format "@ + a.format;
    let listed = match a.variants {
        Some(vs) => base + ", variants "@ + debug_list(vs),
        None => base,
    };
    if a.optional {
        listed + ", optional"@
    } else {
        listed
    }
}

/// The lines that document the arguments of an action, in order.
pub open spec fn argument_lines(arguments: Seq<(Seq<char>, ArgumentModel)>) -> Seq<Seq<char>> {
    Seq::new(arguments.len(), |i: int| argument_line(arguments[i].0, arguments[i].1))
}

/// The line that shows one example of an action: the query, and the call
/// with its payload that answers it.
pub open spec fn example_line(
    tool: Seq<char>,
    action: Seq<char>,
    query: Seq<char>,
    data: Seq<(Seq<char>, JsonModel)>,
) -> Seq<char> {
    "    * query: \""@ + query + "\", result: [[\""@ + tool + "/"@ + action + "\", "@ + rendered(
        JsonModel::Object(data),
    ) + "]]"@
}

/// The lines that show the examples of an action, in order.
pub open spec fn example_lines(
    tool: Seq<char>,
    action: Seq<char>,
    examples: Seq<(Seq<char>, Seq<(Seq<char>, JsonModel)>)>,
) -> Seq<Seq<char>> {
    Seq::new(
        examples.len(),
        |i: int| example_line(tool, action, examples[i].0, examples[i].1),
    )
}

/// The text that tells the model about one action: its call name, what it
/// does, its arguments and its examples.
pub open spec fn action_doc(tool: Seq<char>, name: Seq<char>, a: ActionModel) -> Seq<char> {
    "* \""@ + tool + "/"@ + name + "\":\\n  * description: "@ + a.description
        + "\\n  * arguments: "@ + join(argument_lines(a.arguments), "\n"@)
        + "\\n  * examples: "@ + join(example_lines(tool, name, a.examples), "\n"@)
}

/// The documentation of a tool: one text for each enabled action, in the
/// manifest's order.
pub open spec fn tool_docs(tool: Seq<char>, actions: Seq<(Seq<char>, ActionModel)>) -> Seq<
    Seq<char>,
>
    decreases actions.len(),
{
    if actions.len() == 0 {
        Seq::empty()
    } else {
        let rest = tool_docs(tool, actions.drop_last());
        let last = actions.last();
        if last.1.enable {
            rest.push(action_doc(tool, last.0, last.1))
        } else {
            rest
        }
    }
}

/// The usage examples of a tool: the example lines of each enabled action,
/// in the manifest's order.
pub open spec fn tool_examples(tool: Seq<char>, actions: Seq<(Seq<char>, ActionModel)>) -> Seq<
    Seq<char>,
>
    decreases actions.len(),
{
    if actions.len() == 0 {
        Seq::empty()
    } else {
        let rest = tool_examples(tool, actions.drop_last());
        let last = actions.last();
        if last.1.enable {
            rest + example_lines(tool, last.0, last.1.examples)
        } else {
            rest
        }
    }
}

/// Writes a list of strings as `{:?}` does.
fn debug_strings(items: &Vec<String>) -> (out: String)
    ensures
        out@ == debug_list(views(items@)),
{
    let mut quoted: Vec<String> = Vec::new();
    let mut i: usize = 0;
    while i < items.len()
        invariant
            i <= items.len(),
            quoted.len() == i,
            forall|k: int| 0 <= k < i ==> quoted@[k]@ == debug_quoted(items@[k]@),
        decreases items.len() - i,
    {
        quoted.push(debug_string(items[i].as_str()));
        i += 1;
    }
    assert(views(quoted@) =~= Seq::new(
        views(items@).len(),
        |i: int| debug_quoted(views(items@)[i]),
    ));
    let mut out = String::from_str("[");
    let inner = join_strings(&quoted, ", ");
    out.append(inner.as_str());
    out.append("]");
    out
}

/// Writes the line that documents one argument.
fn write_argument_line(name: &str, a: &ManifestToolArgument) -> (out: String)
    ensures
        out@ == argument_line(name@, a@),
{
    let mut out = String::from_str("    * ");
    out.append(name);
    out.append(": format ");
    out.append(a.format.as_str());
    match &a.variants {
        Some(vs) => {
            out.append(", variants ");
            let list = debug_strings(vs);
            out.append(list.as_str());
        },
        None => {},
    }
    if a.optional {
        out.append(", optional");
    }
    out
}

/// Writes the line that shows one example.
fn write_example_line(
    tool: &str,
    action: &str,
    query: &str,
    data: &Vec<(String, JsonValue)>,
) -> (out: String)
    ensures
        out@ == example_line(tool@, action@, query@, fields_view(data@)),
{
    let mut out = String::from_str("    * query: \"");
    out.append(query);
    out.append("\", result: [[\"");
    out.append(tool);
    out.append("/");
    out.append(action);
    out.append("\", ");
    let payload = JsonValue::Object(crate::json::clone_fields(data));
    assert(payload@ == JsonModel::Object(fields_view(data@)));
    let text = render(&payload);
    out.append(text.as_str());
    out.append("]]");
    out
}

/// Writes the lines that show the examples of an action.
fn write_example_lines(tool: &str, action: &str, a: &ManifestToolAction) -> (out: Vec<String>)
    ensures
        views(out@) == example_lines(tool@, action@, a@.examples),
{
    let mut out: Vec<String> = Vec::new();
    let mut i: usize = 0;
    while i < a.examples.len()
        invariant
            i <= a.examples.len(),
            out.len() == i,
            forall|k: int|
                0 <= k < i ==> out@[k]@ == example_line(
                    tool@,
                    action@,
                    a.examples@[k].0@,
                    fields_view(a.examples@[k].1@),
                ),
        decreases a.examples.len() - i,
    {
        out.push(write_example_line(tool, action, a.examples[i].0.as_str(), &a.examples[i].1));
        i += 1;
    }
    assert(views(out@) =~= example_lines(tool@, action@, a@.examples));
    out
}

/// Writes the text that tells the model about one action.
fn write_action_doc(tool: &str, name: &str, a: &ManifestToolAction) -> (out: String)
    ensures
        out@ == action_doc(tool@, name@, a@),
{
    let mut lines: Vec<String> = Vec::new();
    let mut i: usize = 0;
    while i < a.arguments.len()
        invariant
            i <= a.arguments.len(),
            lines.len() == i,
            forall|k: int|
                0 <= k < i ==> lines@[k]@ == argument_line(
                    a.arguments@[k].0@,
                    a.arguments@[k].1@,
                ),
        decreases a.arguments.len() - i,
    {
        lines.push(write_argument_line(a.arguments[i].0.as_str(), &a.arguments[i].1));
        i += 1;
    }
    assert(views(lines@) =~= argument_lines(a@.arguments));
    let shown = write_example_lines(tool, name, a);
    let mut out = String::from_str("* \"");
    out.append(tool);
    out.append("/");
    out.append(name);
    out.append("\":\\n  * description: ");
    out.append(a.description.as_str());
    out.append("\\n  * arguments: ");
    let arguments = join_strings(&lines, "\n");
    out.append(arguments.as_str());
    out.append("\\n  * examples: ");
    let examples = join_strings(&shown, "\n");
    out.append(examples.as_str());
    out
}

/// Writes the documentation of a tool.
pub fn write_docs(manifest: &Manifest) -> (out: Vec<String>)
    ensures
        views(out@) == tool_docs(manifest@.tool.name, manifest@.actions),
{
    let ghost tool = manifest@.tool.name;
    let ghost all = manifest@.actions;
    let mut out: Vec<String> = Vec::new();
    let mut i: usize = 0;
    assert(all.take(0).len() == 0);
    assert(views(out@) =~= tool_docs(tool, all.take(0)));
    while i < manifest.actions.len()
        invariant
            i <= manifest.actions.len(),
            tool == manifest@.tool.name,
            all == manifest@.actions,
            all.len() == manifest.actions.len(),
            views(out@) == tool_docs(tool, all.take(i as int)),
        decreases manifest.actions.len() - i,
    {
        let ghost before = views(out@);
        proof {
            let next = all.take(i as int + 1);
            assert(next.drop_last() == all.take(i as int));
            assert(next.last() == (manifest.actions@[i as int].0@, manifest.actions@[i as int].1@));
        }
        let action = &manifest.actions[i];
        if action.1.enable {
            out.push(write_action_doc(manifest.tool.name.as_str(), action.0.as_str(), &action.1));
            assert(views(out@) =~= before.push(action_doc(tool, action.0@, action.1@)));
        }
        i += 1;
    }
    assert(all.take(all.len() as int) == all);
    out
}

/// Writes the usage examples of a tool.
pub fn write_examples(manifest: &Manifest) -> (out: Vec<String>)
    ensures
        views(out@) == tool_examples(manifest@.tool.name, manifest@.actions),
{
    let ghost tool = manifest@.tool.name;
    let ghost all = manifest@.actions;
    let mut out: Vec<String> = Vec::new();
    let mut i: usize = 0;
    assert(all.take(0).len() == 0);
    assert(views(out@) =~= tool_examples(tool, all.take(0)));
    while i < manifest.actions.len()
        invariant
            i <= manifest.actions.len(),
            tool == manifest@.tool.name,
            all == manifest@.actions,
            all.len() == manifest.actions.len(),
            views(out@) == tool_examples(tool, all.take(i as int)),
        decreases manifest.actions.len() - i,
    {
        let ghost before = views(out@);
        proof {
            let next = all.take(i as int + 1);
            assert(next.drop_last() == all.take(i as int));
            assert(next.last() == (manifest.actions@[i as int].0@, manifest.actions@[i as int].1@));
        }
        let action = &manifest.actions[i];
        if action.1.enable {
            let mut lines = write_example_lines(
                manifest.tool.name.as_str(),
                action.0.as_str(),
                &action.1,
            );
            let ghost added = views(lines@);
            out.append(&mut lines);
            assert(views(out@) =~= before + added);
        }
        i += 1;
    }
    assert(all.take(all.len() as int) == all);
    out
}

/// The last part of a path: what follows its last `/`.
pub open spec fn base_name(path: Seq<char>) -> Seq<char>
    decreases path.len(),
{
    if path.len() == 0 || path.last() == '/' {
        Seq::empty()
    } else {
        base_name(path.drop_last()).push(path.last())
    }
}

/// The file name under which a tool's executable is staged: `ovsy-` and the
/// last part of the executable's path, or the tool's name where that part is
/// empty.
pub open spec fn staged_name(m: ManifestModel) -> Seq<char> {
    let base = base_name(m.tool.executable);
    if base.len() == 0 {
        "ovsy-"@ + m.tool.name
    } else {
        "ovsy-"@ + base
    }
}

/// The port of a manifest's server, if it declares one.
pub open spec fn port_of(m: ManifestModel) -> Option<u16> {
    match m.server {
        Some(s) => Some(s.port),
        None => None,
    }
}

/// The newest of the change times that could be read.
pub open spec fn newest(a: Option<u64>, b: Option<u64>) -> Option<u64> {
    match (a, b) {
        (Some(x), Some(y)) => if x >= y {
            Some(x)
        } else {
            Some(y)
        },
        (Some(x), None) => Some(x),
        (None, y) => y,
    }
}

/// The newest of the change times of a tool's manifest and executable.
pub fn freshness(manifest_mtime: Option<u64>, exec_mtime: Option<u64>) -> (r: Option<u64>)
    ensures
        r == newest(manifest_mtime, exec_mtime),
{
    match (manifest_mtime, exec_mtime) {
        (Some(x), Some(y)) => if x >= y {
            Some(x)
        } else {
            Some(y)
        },
        (Some(x), None) => Some(x),
        (None, y) => y,
    }
}

/// Whether the executable has to be staged anew: there is no staged copy,
/// or the source is newer than it.
pub fn needs_copy(source_mtime: u64, staged_mtime: Option<u64>) -> (b: bool)
    ensures
        b == match staged_mtime {
            Some(staged) => source_mtime > staged,
            None => true,
        },
{
    match staged_mtime {
        Some(staged) => source_mtime > staged,
        None => true,
    }
}

/// Whether a process has to be spawned for the tool: it declares a server
/// and nothing accepts connections on its port.
pub fn needs_spawn(server: Option<ManifestServer>, port_open: bool) -> (b: bool)
    ensures
        b == (server is Some && !port_open),
{
    server.is_some() && !port_open
}

/// The code of the operating system's error that says that a file is in use
/// by another process.
pub const FILE_BUSY: i32 = 32;

/// Whether a failure of a check is passed over in silence, to be tried again
/// at the next tick: it is where the operating system says that a file is
/// busy.
pub fn tolerated(os_error: Option<i32>) -> (b: bool)
    ensures
        b == (os_error == Some(FILE_BUSY)),
{
    match os_error {
        Some(code) => code == FILE_BUSY,
        None => false,
    }
}

/// What is needed to start a tool and to register it.
#[derive(Debug)]
pub struct Launch {
    pub manifest: Manifest,
    pub docs: Vec<String>,
    pub examples: Vec<String>,
    pub staged_name: String,
}

/// The model of a [`Launch`].
pub struct LaunchModel {
    pub manifest: ManifestModel,
    pub docs: Seq<Seq<char>>,
    pub examples: Seq<Seq<char>>,
    pub staged_name: Seq<char>,
}

impl View for Launch {
    type V = LaunchModel;

    open spec fn view(&self) -> LaunchModel {
        LaunchModel {
            manifest: self.manifest@,
            docs: views(self.docs@),
            examples: views(self.examples@),
            staged_name: self.staged_name@,
        }
    }
}

/// What a start of a tool directory comes to.
#[derive(Debug)]
pub enum StartDecision {
    /// The directory holds no manifest that can be read: not a tool, or not yet.
    NotReady,
    /// A tool of the manifest's name is registered: nothing is to be done.
    AlreadyRunning,
    /// The manifest disables the tool: whatever listens on this port has to go.
    Disabled(Option<u16>),
    /// The tool has to be staged, started and registered.
    Launch(Launch),
}

/// The model of a [`StartDecision`].
pub enum StartModel {
    NotReady,
    AlreadyRunning,
    Disabled(Option<u16>),
    Launch(LaunchModel),
}

impl View for StartDecision {
    type V = StartModel;

    open spec fn view(&self) -> StartModel {
        match self {
            StartDecision::NotReady => StartModel::NotReady,
            StartDecision::AlreadyRunning => StartModel::AlreadyRunning,
            StartDecision::Disabled(p) => StartModel::Disabled(*p),
            StartDecision::Launch(l) => StartModel::Launch(l@),
        }
    }
}

/// What is needed to start the tool of a manifest.
pub open spec fn launch_of(m: ManifestModel) -> LaunchModel {
    LaunchModel {
        manifest: m,
        docs: tool_docs(m.tool.name, m.actions),
        examples: tool_examples(m.tool.name, m.actions),
        staged_name: staged_name(m),
    }
}

/// What a start comes to, by the text of the directory's manifest (none
/// where it cannot be read) and the registry.
pub open spec fn start_decision(text: Option<Seq<char>>, registry: Seq<ToolModel>) -> StartModel {
    match text {
        None => StartModel::NotReady,
        Some(t) => match manifest_text(t) {
            None => StartModel::NotReady,
            Some(m) => if registered(registry, m.tool.name) {
                StartModel::AlreadyRunning
            } else if !m.tool.enable {
                StartModel::Disabled(port_of(m))
            } else {
                StartModel::Launch(launch_of(m))
            },
        },
    }
}

/// What a check of a registered tool comes to.
#[derive(Debug, Clone, Copy, PartialEq, Eq, Structural)]
pub enum CheckDecision {
    /// The tool has to be stopped and taken out of the registry.
    Stop,
    /// The tool has to be stopped and started again.
    Restart,
    /// The tool is up to date.
    Keep,
}

/// What the supervisor saw of a registered tool's files: the text of its
/// manifest (none where the file is gone or cannot be read) and the change
/// times of the manifest and of the executable (none where there is no file).
#[derive(Debug)]
pub struct Observation {
    pub manifest: Option<String>,
    pub manifest_mtime: Option<u64>,
    pub exec_mtime: Option<u64>,
}

/// The model of an [`Observation`].
pub struct ObservationModel {
    pub manifest: Option<Seq<char>>,
    pub manifest_mtime: Option<u64>,
    pub exec_mtime: Option<u64>,
}

impl View for Observation {
    type V = ObservationModel;

    open spec fn view(&self) -> ObservationModel {
        ObservationModel {
            manifest: text_view(self.manifest),
            manifest_mtime: self.manifest_mtime,
            exec_mtime: self.exec_mtime,
        }
    }
}

/// Whether what was seen is newer than what a tool was started with.
pub open spec fn outdated(last_update: Option<u64>, seen: Option<u64>) -> bool {
    last_update matches Some(old) && seen matches Some(new) && new > old
}

/// What a check comes to: a tool whose manifest is gone, cannot be read or
/// disables it is stopped; one whose files are newer than at its start is
/// started again; any other is kept.
pub open spec fn check_decision(tool: ToolModel, seen: ObservationModel) -> CheckDecision {
    match seen.manifest {
        None => CheckDecision::Stop,
        Some(t) => match manifest_text(t) {
            None => CheckDecision::Stop,
            Some(m) => if !m.tool.enable {
                CheckDecision::Stop
            } else if outdated(tool.last_update, newest(seen.manifest_mtime, seen.exec_mtime)) {
                CheckDecision::Restart
            } else {
                CheckDecision::Keep
            },
        },
    }
}

/// The span, in seconds before and after now, in which a log file counts as
/// newly made.
pub const RECENT_FILE_TIME_RANGE: u64 = 5;

/// How often a newly made log file is looked for after a start.
pub const LOG_POLL_ATTEMPTS: u64 = 10;

/// The wait, in milliseconds, after a spawn and between two looks for a log
/// file.
pub const START_WAIT_MS: u64 = 500;

/// The wait, in milliseconds, after a tool's processes were ended.
pub const SETTLE_WAIT_MS: u64 = 1000;

/// Whether a file made at `created` counts as newly made at `now`.
pub open spec fn in_window(created: u64, now: u64, range: u64) -> bool {
    now - range <= created <= now + range
}

/// Whether the file at position `i` is the one to follow: it is newly made,
/// no newly made file is newer, and of those as new as it, it comes first.
pub open spec fn is_most_recent(files: Seq<(String, u64)>, now: u64, range: u64, i: int) -> bool {
    &&& 0 <= i < files.len()
    &&& in_window(files[i].1, now, range)
    &&& forall|j: int|
        0 <= j < files.len() && in_window(#[trigger] files[j].1, now, range) ==> files[j].1
            < files[i].1 || (files[j].1 == files[i].1 && i <= j)
}

/// What is to be done after a look for a newly made log file.
#[derive(Debug)]
pub enum Poll {
    /// Follow this file.
    Attach(String),
    /// Wait and look again; so many looks are left.
    Retry(u64),
    /// Go on without a log to follow.
    GiveUp,
}

impl Tool {
    /// Picks the newest of the files that were made within `range` of `now`;
    /// each file comes as its path and the time it was made.
    pub fn find_recent_file(files: &Vec<(String, u64)>, now: u64, range: u64) -> (r: Option<
        String,
    >)
        ensures
            match r {
                Some(path) => exists|i: int|
                    #![trigger is_most_recent(files@, now, range, i)]
                    is_most_recent(files@, now, range, i) && path@ == files@[i].0@,
                None => forall|j: int|
                    0 <= j < files.len() ==> !in_window(#[trigger] files@[j].1, now, range),
            },
    {
        let low: u64 = if now >= range {
            now - range
        } else {
            0
        };
        let high: u64 = if now <= u64::MAX - range {
            now + range
        } else {
            u64::MAX
        };
        let mut best: Option<usize> = None;
        let mut i: usize = 0;
        while i < files.len()
            invariant
                i <= files.len(),
                forall|c: u64| in_window(c, now, range) <==> low <= c <= high,
                match best {
                    Some(b) => b < i && is_most_recent(files@.take(i as int), now, range, b as int),
                    None => forall|j: int|
                        0 <= j < i ==> !in_window(#[trigger] files@[j].1, now, range),
                },
            decreases files.len() - i,
        {
            let created = files[i].1;
            let ghost before = files@.take(i as int);
            let ghost after = files@.take(i as int + 1);
            proof {
                assert forall|j: int| 0 <= j < i implies after[j] == before[j] by {}
                assert(after[i as int] == files@[i as int]);
            }
            if low <= created && created <= high {
                match best {
                    Some(b) => {
                        if created > files[b].1 {
                            best = Some(i);
                            proof {
                                assert forall|j: int|
                                    0 <= j < after.len() && in_window(
                                        #[trigger] after[j].1,
                                        now,
                                        range,
                                    ) implies after[j].1 < after[i as int].1 || (after[j].1
                                    == after[i as int].1 && i <= j) by {
                                    if j < i {
                                        assert(in_window(before[j].1, now, range));
                                    }
                                }
                            }
                        } else {
                            proof {
                                assert forall|j: int|
                                    0 <= j < after.len() && in_window(
                                        #[trigger] after[j].1,
                                        now,
                                        range,
                                    ) implies after[j].1 < after[b as int].1 || (after[j].1
                                    == after[b as int].1 && b <= j) by {
                                    if j < i {
                                        assert(in_window(before[j].1, now, range));
                                    }
                                }
                            }
                        }
                    },
                    None => {
                        best = Some(i);
                        proof {
                            assert forall|j: int|
                                0 <= j < after.len() && in_window(
                                    #[trigger] after[j].1,
                                    now,
                                    range,
                                ) implies after[j].1 < after[i as int].1 || (after[j].1
                                == after[i as int].1 && i <= j) by {
                                if j < i {
                                    assert(!in_window(files@[j].1, now, range));
                                }
                            }
                        }
                    },
                }
            } else {
                proof {
                    match best {
                        Some(b) => {
                            assert forall|j: int|
                                0 <= j < after.len() && in_window(
                                    #[trigger] after[j].1,
                                    now,
                                    range,
                                ) implies after[j].1 < after[b as int].1 || (after[j].1
                                == after[b as int].1 && b <= j) by {
                                if j < i {
                                    assert(in_window(before[j].1, now, range));
                                }
                            }
                        },
                        None => {},
                    }
                }
            }
            i += 1;
        }
        proof {
            assert(files@.take(files.len() as int) == files@);
        }
        match best {
            Some(b) => Some(files[b].0.clone()),
            None => None,
        }
    }

    /// Decides what follows a look for a newly made log file: `found` is
    /// what the look gave, `left` the number of looks that were left before
    /// it. A file that was found is followed; without one the look is
    /// repeated while looks are left.
    pub fn poll(found: Option<String>, left: u64) -> (r: Poll)
        ensures
            match r {
                Poll::Attach(path) => found == Some(path),
                Poll::Retry(n) => found is None && left > 1 && n == left - 1,
                Poll::GiveUp => found is None && left <= 1,
            },
    {
        match found {
            Some(path) => Poll::Attach(path),
            None => if left > 1 {
                Poll::Retry(left - 1)
            } else {
                Poll::GiveUp
            },
        }
    }
}

/// The last part of a path.
pub fn write_base_name(path: &str) -> (out: String)
    ensures
        out@ == base_name(path@),
{
    let cs = chars_of(path);
    let mut start: usize = cs.len();
    proof {
        assert(cs@.subrange(start as int, cs.len() as int).len() == 0);
        assert(cs@.take(cs.len() as int) == cs@);
    }
    while start > 0 && cs[start - 1] != '/'
        invariant
            start <= cs.len(),
            base_name(cs@) == base_name(cs@.take(start as int)) + cs@.subrange(
                start as int,
                cs.len() as int,
            ),
        decreases start,
    {
        proof {
            let head = cs@.take(start as int);
            assert(head.drop_last() == cs@.take(start - 1));
            assert(base_name(head.drop_last()).push(head.last()) + cs@.subrange(
                start as int,
                cs.len() as int,
            ) == base_name(head.drop_last()) + cs@.subrange(start - 1, cs.len() as int));
        }
        start -= 1;
    }
    proof {
        assert(base_name(cs@.take(start as int)).len() == 0);
        assert(Seq::<char>::empty() + cs@.subrange(start as int, cs.len() as int)
            == cs@.subrange(start as int, cs.len() as int));
    }
    let tail = slice_chars(cs.as_slice(), start, cs.len());
    string_of(tail.as_slice())
}

/// The file name under which a tool's executable is staged.
pub fn write_staged_name(manifest: &Manifest) -> (out: String)
    ensures
        out@ == staged_name(manifest@),
{
    let base = write_base_name(manifest.tool.executable.as_str());
    let mut out = String::from_str("ovsy-");
    if base.as_str().unicode_len() == 0 {
        out.append(manifest.tool.name.as_str());
    } else {
        out.append(base.as_str());
    }
    out
}

impl Tool {
    /// Decides what a start of a tool directory comes to, by the text of the
    /// directory's manifest (none where it cannot be read) and the registry.
    /// A directory whose tool is registered already is left alone.
    pub fn run(manifest: Option<&str>, tools: &Tools) -> (r: StartDecision)
        ensures
            r@ == start_decision(
                match manifest {
                    Some(t) => Some(t@),
                    None => None,
                },
                tools@,
            ),
    {
        let text = match manifest {
            Some(t) => t,
            None => { return StartDecision::NotReady; },
        };
        let manifest = match Manifest::parse(text) {
            Some(m) => m,
            None => { return StartDecision::NotReady; },
        };
        if tools.has(manifest.tool.name.as_str()) {
            return StartDecision::AlreadyRunning;
        }
        if !manifest.tool.enable {
            return StartDecision::Disabled(
                match manifest.server {
                    Some(s) => Some(s.port),
                    None => None,
                },
            );
        }
        let docs = write_docs(&manifest);
        let examples = write_examples(&manifest);
        let staged_name = write_staged_name(&manifest);
        StartDecision::Launch(Launch { manifest, docs, examples, staged_name })
    }

    /// Decides what a check of this tool comes to, by what was seen of its
    /// files.
    pub fn check(&self, seen: &Observation) -> (r: CheckDecision)
        ensures
            r == check_decision(self@, seen@),
    {
        let text = match &seen.manifest {
            Some(t) => t,
            None => { return CheckDecision::Stop; },
        };
        let manifest = match Manifest::parse(text.as_str()) {
            Some(m) => m,
            None => { return CheckDecision::Stop; },
        };
        if !manifest.tool.enable {
            return CheckDecision::Stop;
        }
        match (self.last_update, freshness(seen.manifest_mtime, seen.exec_mtime)) {
            (Some(old), Some(new)) => if new > old {
                CheckDecision::Restart
            } else {
                CheckDecision::Keep
            },
            _ => CheckDecision::Keep,
        }
    }

    /// The port that has to be cleared to stop this tool; none where the tool
    /// has no server, and nothing is to be done.
    pub fn stop(&self) -> (r: Option<u16>)
        ensures
            r == port_of(self@.manifest),
    {
        match self.manifest.server {
            Some(s) => Some(s.port),
            None => None,
        }
    }
}

impl Launch {
    /// The tool to register once it has been started: `dir` is its
    /// directory, the change times are those of its manifest and executable,
    /// and `trace` is the log file that is followed, if one was found.
    pub fn finish(
        self,
        dir: String,
        manifest_mtime: Option<u64>,
        exec_mtime: Option<u64>,
        trace: Option<String>,
    ) -> (tool: Tool)
        ensures
            tool@ == (ToolModel {
                dir: dir@,
                manifest: self@.manifest,
                docs: self@.docs,
                examples: self@.examples,
                last_update: newest(manifest_mtime, exec_mtime),
                trace: text_view(trace),
            }),
    {
        Tool {
            dir,
            manifest: self.manifest,
            docs: self.docs,
            examples: self.examples,
            last_update: freshness(manifest_mtime, exec_mtime),
            trace,
        }
    }
}

} // verus!
