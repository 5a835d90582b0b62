//! One tick of the supervisor: every registered tool is checked against what
//! was seen of its files, and the configured directories are searched for
//! tools that are not registered.

use crate::registry::{distinct_names, registered, tool_named, tool_views, with_tool, Tools};
use crate::text::same_text;
use crate::manifest::manifest_text;
use crate::tool::{
    check_decision, newest, outdated, start_decision, CheckDecision, Observation,
    ObservationModel, StartModel, Tool, ToolModel,
};
use vstd::prelude::*;

verus! {

/// What the supervisor has to carry out after a tick, in the order given.
#[derive(Debug)]
pub enum Command {
    /// End what runs for this tool, which has left the registry.
    Stop(Tool),
    /// Start the tool of this directory.
    Start(String),
}

/// The model of a [`Command`].
pub enum CommandModel {
    Stop(ToolModel),
    Start(Seq<char>),
}

impl View for Command {
    type V = CommandModel;

    open spec fn view(&self) -> CommandModel {
        match self {
            Command::Stop(t) => CommandModel::Stop(t@),
            Command::Start(d) => CommandModel::Start(d@),
        }
    }
}

/// The models of a sequence of commands.
pub open spec fn command_views(commands: Seq<Command>) -> Seq<CommandModel> {
    Seq::new(commands.len(), |i: int| commands[i]@)
}

/// The models of a sequence of observations.
pub open spec fn observation_views(seen: Seq<Observation>) -> Seq<ObservationModel> {
    Seq::new(seen.len(), |i: int| seen[i]@)
}

/// The models of a sequence of directories, each with the mark that says
/// whether it is there as a directory.
pub open spec fn dir_views(dirs: Seq<(String, bool)>) -> Seq<(Seq<char>, bool)> {
    Seq::new(dirs.len(), |i: int| (dirs[i].0@, dirs[i].1))
}

/// What the check of the tool at position `i` comes to; a tool of which
/// nothing was seen is kept.
pub open spec fn decision_at(
    tools: Seq<ToolModel>,
    seen: Seq<ObservationModel>,
    i: int,
) -> CheckDecision {
    if 0 <= i < tools.len() && i < seen.len() {
        check_decision(tools[i], seen[i])
    } else {
        CheckDecision::Keep
    }
}

/// The commands that a check's decision asks for: a tool is stopped before
/// it is started again.
pub open spec fn check_commands(tool: ToolModel, d: CheckDecision) -> Seq<CommandModel> {
    match d {
        CheckDecision::Stop => seq![CommandModel::Stop(tool)],
        CheckDecision::Restart => seq![CommandModel::Stop(tool), CommandModel::Start(tool.dir)],
        CheckDecision::Keep => Seq::empty(),
    }
}

/// The commands of the checks of the first `n` tools, in the registry's order.
pub open spec fn checks(tools: Seq<ToolModel>, seen: Seq<ObservationModel>, n: int) -> Seq<
    CommandModel,
>
    decreases n,
{
    if n <= 0 {
        Seq::empty()
    } else {
        checks(tools, seen, n - 1) + check_commands(tools[n - 1], decision_at(tools, seen, n - 1))
    }
}

/// Those of the first `n` tools that stay in the registry.
pub open spec fn kept(tools: Seq<ToolModel>, seen: Seq<ObservationModel>, n: int) -> Seq<
    ToolModel,
>
    decreases n,
{
    if n <= 0 {
        Seq::empty()
    } else if decision_at(tools, seen, n - 1) == CheckDecision::Keep {
        kept(tools, seen, n - 1).push(tools[n - 1])
    } else {
        kept(tools, seen, n - 1)
    }
}

/// Whether a registered tool lives in that directory.
pub open spec fn has_dir(tools: Seq<ToolModel>, dir: Seq<char>) -> bool {
    exists|i: int| 0 <= i < tools.len() && (#[trigger] tools[i]).dir == dir
}

/// The starts that the search of the first `n` configured directories asks
/// for: one for each that is there as a directory and in which no tool was
/// registered when the tick began.
pub open spec fn discoveries(tools: Seq<ToolModel>, dirs: Seq<(Seq<char>, bool)>, n: int) -> Seq<
    CommandModel,
>
    decreases n,
{
    if n <= 0 {
        Seq::empty()
    } else if dirs[n - 1].1 && !has_dir(tools, dirs[n - 1].0) {
        discoveries(tools, dirs, n - 1).push(CommandModel::Start(dirs[n - 1].0))
    } else {
        discoveries(tools, dirs, n - 1)
    }
}

/// The commands of a tick: those of the checks, then those of the search.
pub open spec fn tick_commands(
    tools: Seq<ToolModel>,
    seen: Seq<ObservationModel>,
    dirs: Seq<(Seq<char>, bool)>,
) -> Seq<CommandModel> {
    checks(tools, seen, tools.len() as int) + discoveries(tools, dirs, dirs.len() as int)
}

/// The registry after a tick: the tools that the checks keep.
pub open spec fn tick_registry(tools: Seq<ToolModel>, seen: Seq<ObservationModel>) -> Seq<
    ToolModel,
> {
    kept(tools, seen, tools.len() as int)
}

/// Whether `t` is one of the first `n` tools and its check keeps it.
pub open spec fn stays(
    tools: Seq<ToolModel>,
    seen: Seq<ObservationModel>,
    n: int,
    t: ToolModel,
) -> bool {
    exists|j: int|
        0 <= j < n && j < tools.len() && #[trigger] tools[j] == t && decision_at(tools, seen, j)
            == CheckDecision::Keep
}

/// The tools that stay are tools that were checked and kept, and no two of
/// them have the same name.
pub proof fn lemma_kept_from(tools: Seq<ToolModel>, seen: Seq<ObservationModel>, n: int)
    requires
        0 <= n <= tools.len(),
        distinct_names(tools),
    ensures
        distinct_names(kept(tools, seen, n)),
        forall|k: int|
            0 <= k < kept(tools, seen, n).len() ==> stays(
                tools,
                seen,
                n,
                #[trigger] kept(tools, seen, n)[k],
            ),
    decreases n,
{
    if n > 0 {
        lemma_kept_from(tools, seen, n - 1);
        let before = kept(tools, seen, n - 1);
        let after = kept(tools, seen, n);
        assert forall|k: int| 0 <= k < after.len() implies stays(
            tools,
            seen,
            n,
            #[trigger] after[k],
        ) by {
            if k < before.len() {
                assert(after[k] == before[k]);
                assert(stays(tools, seen, n - 1, before[k]));
                let j = choose|j: int|
                    0 <= j < n - 1 && j < tools.len() && #[trigger] tools[j] == before[k]
                        && decision_at(tools, seen, j) == CheckDecision::Keep;
                assert(tools[j] == after[k]);
            } else {
                assert(after[k] == tools[n - 1]);
            }
        }
        assert forall|a: int, b: int| 0 <= a < b < after.len() implies (#[trigger] after[a]).name()
            != (#[trigger] after[b]).name() by {
            if b == before.len() {
                assert(stays(tools, seen, n - 1, before[a]));
                let j = choose|j: int|
                    0 <= j < n - 1 && j < tools.len() && #[trigger] tools[j] == before[a]
                        && decision_at(tools, seen, j) == CheckDecision::Keep;
                assert(tools[j].name() != tools[n - 1].name());
            } else {
                assert(before[a].name() != before[b].name());
            }
        }
    }
}

/// The commands of the checks of the first `m` tools open those of the
/// first `n`, for `m` up to `n`.
pub proof fn lemma_checks_prefix(
    tools: Seq<ToolModel>,
    seen: Seq<ObservationModel>,
    m: int,
    n: int,
)
    requires
        0 <= m <= n,
    ensures
        checks(tools, seen, m).len() <= checks(tools, seen, n).len(),
        checks(tools, seen, n).take(checks(tools, seen, m).len() as int) == checks(
            tools,
            seen,
            m,
        ),
    decreases n - m,
{
    if m < n {
        lemma_checks_prefix(tools, seen, m, n - 1);
        let short = checks(tools, seen, m);
        let mid = checks(tools, seen, n - 1);
        let long = checks(tools, seen, n);
        assert(long.take(short.len() as int) =~= mid.take(short.len() as int));
    } else {
        assert(checks(tools, seen, n).take(checks(tools, seen, n).len() as int) == checks(
            tools,
            seen,
            n,
        ));
    }
}

/// Whether a command stops one of the first `n` tools whose check does not
/// keep it, or starts the directory of one of them.
pub open spec fn from_check(
    tools: Seq<ToolModel>,
    seen: Seq<ObservationModel>,
    n: int,
    c: CommandModel,
) -> bool {
    exists|l: int|
        0 <= l < n && l < tools.len() && decision_at(tools, seen, l) != CheckDecision::Keep && (c
            == CommandModel::Stop(#[trigger] tools[l]) || c == CommandModel::Start(tools[l].dir))
}

/// Every command of the checks comes from a tool that is not kept.
pub proof fn lemma_checks_origin(tools: Seq<ToolModel>, seen: Seq<ObservationModel>, n: int)
    requires
        0 <= n <= tools.len(),
    ensures
        forall|k: int|
            0 <= k < checks(tools, seen, n).len() ==> from_check(
                tools,
                seen,
                n,
                #[trigger] checks(tools, seen, n)[k],
            ),
    decreases n,
{
    if n > 0 {
        lemma_checks_origin(tools, seen, n - 1);
        let before = checks(tools, seen, n - 1);
        let after = checks(tools, seen, n);
        assert forall|k: int| 0 <= k < after.len() implies from_check(
            tools,
            seen,
            n,
            #[trigger] after[k],
        ) by {
            if k < before.len() {
                assert(after[k] == before[k]);
                assert(from_check(tools, seen, n - 1, before[k]));
                let l = choose|l: int|
                    0 <= l < n - 1 && l < tools.len() && decision_at(tools, seen, l)
                        != CheckDecision::Keep && (before[k] == CommandModel::Stop(
                        #[trigger] tools[l],
                    ) || before[k] == CommandModel::Start(tools[l].dir));
                assert(after[k] == CommandModel::Stop(tools[l]) || after[k]
                    == CommandModel::Start(tools[l].dir));
            } else {
                let t = tools[n - 1];
                assert(after[k] == CommandModel::Stop(t) || after[k] == CommandModel::Start(
                    t.dir,
                ));
            }
        }
    }
}

/// Whether a command starts a directory in which no tool is registered.
pub open spec fn is_new_start(tools: Seq<ToolModel>, c: CommandModel) -> bool {
    c matches CommandModel::Start(d) && !has_dir(tools, d)
}

/// The search starts only directories in which no tool was registered.
pub proof fn lemma_discoveries_are_new(
    tools: Seq<ToolModel>,
    dirs: Seq<(Seq<char>, bool)>,
    n: int,
)
    requires
        0 <= n <= dirs.len(),
    ensures
        forall|k: int|
            0 <= k < discoveries(tools, dirs, n).len() ==> is_new_start(
                tools,
                #[trigger] discoveries(tools, dirs, n)[k],
            ),
    decreases n,
{
    if n > 0 {
        lemma_discoveries_are_new(tools, dirs, n - 1);
        let before = discoveries(tools, dirs, n - 1);
        let after = discoveries(tools, dirs, n);
        assert forall|k: int| 0 <= k < after.len() implies is_new_start(
            tools,
            #[trigger] after[k],
        ) by {
            if k < before.len() {
                assert(after[k] == before[k]);
            }
        }
    }
}

/// A tool whose check keeps it is among the tools that stay.
pub proof fn lemma_kept_holds(
    tools: Seq<ToolModel>,
    seen: Seq<ObservationModel>,
    n: int,
    j: int,
)
    requires
        0 <= j < n <= tools.len(),
        decision_at(tools, seen, j) == CheckDecision::Keep,
    ensures
        exists|k: int|
            0 <= k < kept(tools, seen, n).len() && #[trigger] kept(tools, seen, n)[k] == tools[j],
    decreases n,
{
    if j == n - 1 {
        let k = kept(tools, seen, n - 1).len() as int;
        assert(kept(tools, seen, n)[k] == tools[j]);
    } else {
        lemma_kept_holds(tools, seen, n - 1, j);
        let k = choose|k: int|
            0 <= k < kept(tools, seen, n - 1).len() && #[trigger] kept(tools, seen, n - 1)[k]
                == tools[j];
        assert(kept(tools, seen, n)[k] == tools[j]);
    }
}

/// A tool whose check does not keep it is stopped by the tick, and no tool
/// of its name is registered after it.
pub proof fn lemma_not_kept_leaves(
    tools: Seq<ToolModel>,
    seen: Seq<ObservationModel>,
    dirs: Seq<(Seq<char>, bool)>,
    i: int,
)
    requires
        distinct_names(tools),
        0 <= i < tools.len(),
        decision_at(tools, seen, i) != CheckDecision::Keep,
    ensures
        checks(tools, seen, i).len() < tick_commands(tools, seen, dirs).len(),
        tick_commands(tools, seen, dirs)[checks(tools, seen, i).len() as int]
            == CommandModel::Stop(tools[i]),
        !registered(tick_registry(tools, seen), tools[i].name()),
{
    let n = tools.len() as int;
    let c = tick_commands(tools, seen, dirs);
    let k = checks(tools, seen, i).len() as int;
    lemma_checks_prefix(tools, seen, i + 1, n);
    let upto = checks(tools, seen, i + 1);
    assert(upto[k] == CommandModel::Stop(tools[i]));
    assert(checks(tools, seen, n).take(upto.len() as int)[k] == upto[k]);
    assert(c[k] == checks(tools, seen, n)[k]);
    let after = tick_registry(tools, seen);
    lemma_kept_from(tools, seen, n);
    assert forall|m: int| 0 <= m < after.len() implies (#[trigger] after[m]).name()
        != tools[i].name() by {
        assert(stays(tools, seen, n, after[m]));
        let j = choose|j: int|
            0 <= j < n && j < tools.len() && #[trigger] tools[j] == after[m] && decision_at(
                tools,
                seen,
                j,
            ) == CheckDecision::Keep;
        if j < i {
            assert(tools[j].name() != tools[i].name());
        } else if i < j {
            assert(tools[i].name() != tools[j].name());
        }
    }
    crate::registry::lemma_index_of(after, tools[i].name(), after.len() as int);
}

/// After one tick, no tool whose manifest disables it is left: the tick
/// stops it, takes it out of the registry, and the search does not start its
/// directory again.
pub proof fn law_disabled_tool_is_stopped(
    tools: Seq<ToolModel>,
    seen: Seq<ObservationModel>,
    dirs: Seq<(Seq<char>, bool)>,
    i: int,
)
    requires
        distinct_names(tools),
        0 <= i < tools.len(),
        i < seen.len(),
        seen[i].manifest matches Some(t) && manifest_text(t) matches Some(m) && !m.tool.enable,
    ensures
        exists|k: int|
            0 <= k < tick_commands(tools, seen, dirs).len() && #[trigger] tick_commands(
                tools,
                seen,
                dirs,
            )[k] == CommandModel::Stop(tools[i]),
        !registered(tick_registry(tools, seen), tools[i].name()),
        forall|k: int|
            0 <= k < discoveries(tools, dirs, dirs.len() as int).len() ==> #[trigger] discoveries(
                tools,
                dirs,
                dirs.len() as int,
            )[k] != CommandModel::Start(tools[i].dir),
{
    assert(decision_at(tools, seen, i) == CheckDecision::Stop);
    lemma_not_kept_leaves(tools, seen, dirs, i);
    let k = checks(tools, seen, i).len() as int;
    assert(tick_commands(tools, seen, dirs)[k] == CommandModel::Stop(tools[i]));
    lemma_discoveries_are_new(tools, dirs, dirs.len() as int);
    assert(has_dir(tools, tools[i].dir));
}

/// A tool whose files are newer than at its start is started again by the
/// next tick, and stopped just before that.
pub proof fn law_outdated_tool_is_restarted(
    tools: Seq<ToolModel>,
    seen: Seq<ObservationModel>,
    dirs: Seq<(Seq<char>, bool)>,
    i: int,
)
    requires
        distinct_names(tools),
        0 <= i < tools.len(),
        i < seen.len(),
        seen[i].manifest matches Some(t) && manifest_text(t) matches Some(m) && m.tool.enable,
        outdated(tools[i].last_update, newest(seen[i].manifest_mtime, seen[i].exec_mtime)),
    ensures
        checks(tools, seen, i).len() + 1 < tick_commands(tools, seen, dirs).len(),
        tick_commands(tools, seen, dirs)[checks(tools, seen, i).len() as int]
            == CommandModel::Stop(tools[i]),
        tick_commands(tools, seen, dirs)[checks(tools, seen, i).len() as int + 1]
            == CommandModel::Start(tools[i].dir),
{
    assert(decision_at(tools, seen, i) == CheckDecision::Restart);
    let n = tools.len() as int;
    let k = checks(tools, seen, i).len() as int;
    lemma_checks_prefix(tools, seen, i + 1, n);
    let upto = checks(tools, seen, i + 1);
    assert(upto[k] == CommandModel::Stop(tools[i]));
    assert(upto[k + 1] == CommandModel::Start(tools[i].dir));
    assert(checks(tools, seen, n).take(upto.len() as int)[k] == upto[k]);
    assert(checks(tools, seen, n).take(upto.len() as int)[k + 1] == upto[k + 1]);
}

/// A tool whose check keeps it is not touched by the tick: it stays in the
/// registry as it was, and no command stops it.
pub proof fn law_kept_tool_is_untouched(
    tools: Seq<ToolModel>,
    seen: Seq<ObservationModel>,
    dirs: Seq<(Seq<char>, bool)>,
    j: int,
)
    requires
        distinct_names(tools),
        0 <= j < tools.len(),
        decision_at(tools, seen, j) == CheckDecision::Keep,
    ensures
        tool_named(tick_registry(tools, seen), tools[j].name()) == Some(tools[j]),
        forall|k: int|
            0 <= k < tick_commands(tools, seen, dirs).len() ==> #[trigger] tick_commands(
                tools,
                seen,
                dirs,
            )[k] != CommandModel::Stop(tools[j]),
{
    let n = tools.len() as int;
    let after = tick_registry(tools, seen);
    lemma_kept_from(tools, seen, n);
    lemma_kept_holds(tools, seen, n, j);
    let at = choose|k: int| 0 <= k < after.len() && #[trigger] after[k] == tools[j];
    assert forall|m: int| 0 <= m < at implies (#[trigger] after[m]).name() != tools[j].name() by {
        assert(after[m].name() != after[at].name());
    }
    crate::registry::lemma_index_of(after, tools[j].name(), at);
    let c = tick_commands(tools, seen, dirs);
    let first = checks(tools, seen, n);
    lemma_checks_origin(tools, seen, n);
    lemma_discoveries_are_new(tools, dirs, dirs.len() as int);
    assert forall|k: int| 0 <= k < c.len() implies #[trigger] c[k] != CommandModel::Stop(
        tools[j],
    ) by {
        if k < first.len() {
            assert(c[k] == first[k]);
            assert(from_check(tools, seen, n, first[k]));
            let l = choose|l: int|
                0 <= l < n && l < tools.len() && decision_at(tools, seen, l)
                    != CheckDecision::Keep && (first[k] == CommandModel::Stop(
                    #[trigger] tools[l],
                ) || first[k] == CommandModel::Start(tools[l].dir));
            if first[k] == CommandModel::Stop(tools[j]) {
                assert(tools[l] == tools[j]);
                if l < j {
                    assert(tools[l].name() != tools[j].name());
                } else if j < l {
                    assert(tools[j].name() != tools[l].name());
                }
            }
        } else {
            let found = discoveries(tools, dirs, dirs.len() as int);
            assert(c[k] == found[k - first.len()]);
        }
    }
}

/// A start of a directory whose tool is registered already changes nothing:
/// nothing is launched and nothing is stopped.
pub proof fn law_start_is_idempotent(text: Seq<char>, registry: Seq<ToolModel>)
    requires
        manifest_text(text) matches Some(m) && registered(registry, m.tool.name),
    ensures
        start_decision(Some(text), registry) == StartModel::AlreadyRunning,
{
}

/// Once a start has launched a tool and the tool is registered, a second
/// start of the same directory finds it running.
pub proof fn law_second_start_finds_tool(
    text: Seq<char>,
    registry: Seq<ToolModel>,
    tool: ToolModel,
)
    requires
        start_decision(Some(text), registry) matches StartModel::Launch(l) && tool.manifest
            == l.manifest,
    ensures
        start_decision(Some(text), with_tool(registry, tool)) == StartModel::AlreadyRunning,
{
    let name = tool.name();
    crate::registry::lemma_index_of_bounds(registry, name);
    let after = with_tool(registry, tool);
    assert(after == registry.push(tool));
    assert forall|k: int| 0 <= k < registry.len() implies (#[trigger] after[k]).name() != name by {
        assert(after[k] == registry[k]);
    }
    crate::registry::lemma_index_of(after, name, registry.len() as int);
}

impl Tools {
    /// Whether a registered tool lives in that directory.
    fn holds_dir(&self, dir: &str) -> (b: bool)
        ensures
            b == has_dir(self@, dir@),
    {
        let mut i: usize = 0;
        while i < self.len()
            invariant
                i <= self@.len(),
                forall|k: int| 0 <= k < i ==> (#[trigger] self@[k]).dir != dir@,
            decreases self@.len() - i,
        {
            match self.at(i) {
                Some(tool) => {
                    if same_text(tool.dir.as_str(), dir) {
                        return true;
                    }
                },
                None => {},
            }
            i += 1;
        }
        false
    }

    /// One tick of the supervisor. `seen` holds what was seen of each
    /// registered tool's files, in the registry's order; `dirs` holds the
    /// configured tool directories, each with the mark that says whether it
    /// is there as a directory. The tools that have to go leave the
    /// registry; what has to be carried out comes back, in order.
    pub fn manage(&mut self, seen: &Vec<Observation>, dirs: &Vec<(String, bool)>) -> (commands: Vec<
        Command,
    >)
        requires
            old(self).wf(),
        ensures
            final(self).wf(),
            final(self)@ == tick_registry(old(self)@, observation_views(seen@)),
            command_views(commands@) == tick_commands(
                old(self)@,
                observation_views(seen@),
                dir_views(dirs@),
            ),
    {
        let ghost tools = self@;
        let ghost sights = observation_views(seen@);
        let ghost places = dir_views(dirs@);
        let mut commands: Vec<Command> = Vec::new();
        let mut staying: Vec<Tool> = Vec::new();
        let n = self.len();
        let mut i: usize = 0;
        assert(command_views(commands@) =~= checks(tools, sights, 0));
        assert(tool_views(staying@) =~= kept(tools, sights, 0));
        while i < n
            invariant
                i <= n,
                n == tools.len(),
                self@ == tools,
                sights == observation_views(seen@),
                command_views(commands@) == checks(tools, sights, i as int),
                tool_views(staying@) == kept(tools, sights, i as int),
            decreases n - i,
        {
            let ghost done = command_views(commands@);
            let ghost stay = tool_views(staying@);
            match self.at(i) {
                Some(tool) => {
                    let d = if i < seen.len() {
                        assert(sights[i as int] == seen@[i as int]@);
                        tool.check(&seen[i])
                    } else {
                        CheckDecision::Keep
                    };
                    assert(d == decision_at(tools, sights, i as int));
                    match d {
                        CheckDecision::Stop => {
                            commands.push(Command::Stop(tool));
                            assert(command_views(commands@) =~= done + check_commands(
                                tools[i as int],
                                d,
                            ));
                        },
                        CheckDecision::Restart => {
                            let dir = tool.dir.clone();
                            commands.push(Command::Stop(tool));
                            commands.push(Command::Start(dir));
                            assert(command_views(commands@) =~= done + check_commands(
                                tools[i as int],
                                d,
                            ));
                        },
                        CheckDecision::Keep => {
                            staying.push(tool);
                            assert(tool_views(staying@) =~= stay.push(tools[i as int]));
                            assert(command_views(commands@) =~= done + check_commands(
                                tools[i as int],
                                d,
                            ));
                        },
                    }
                },
                None => {},
            }
            i += 1;
        }
        let ghost checked = command_views(commands@);
        let mut j: usize = 0;
        assert(command_views(commands@) =~= checked + discoveries(tools, places, 0));
        while j < dirs.len()
            invariant
                j <= dirs.len(),
                self@ == tools,
                places == dir_views(dirs@),
                command_views(commands@) == checked + discoveries(tools, places, j as int),
            decreases dirs.len() - j,
        {
            let ghost done = command_views(commands@);
            assert(places[j as int] == (dirs@[j as int].0@, dirs@[j as int].1));
            let ghost found = discoveries(tools, places, j as int);
            if dirs[j].1 && !self.holds_dir(dirs[j].0.as_str()) {
                commands.push(Command::Start(dirs[j].0.clone()));
                assert(discoveries(tools, places, j as int + 1) == found.push(
                    CommandModel::Start(places[j as int].0),
                ));
                assert(command_views(commands@) =~= done.push(
                    CommandModel::Start(places[j as int].0),
                ));
                assert(done.push(CommandModel::Start(places[j as int].0)) =~= checked
                    + found.push(CommandModel::Start(places[j as int].0)));
            } else {
                assert(discoveries(tools, places, j as int + 1) == found);
            }
            j += 1;
        }
        proof {
            lemma_kept_from(tools, sights, n as int);
        }
        self.replace(staying);
        commands
    }
}

} // verus!
