//! The dispatch cycle of one query: a state machine whose every transition
//! says what is streamed to the consumer and what has to happen next.

use crate::error::{error_text, Error, ErrorModel};
use crate::json::{fields_view, find_field, lookup, render, rendered, JsonModel, JsonValue};
use crate::pipeline::{
    parse_response, response_of, split_name, split_tool_name, LmDecision, LmResponse,
};
use crate::text::{decimal, push_decimal, text_view, trim, trim_str};
use vstd::prelude::*;
use vstd::string::{StrSliceExecFns, StringExecFns};

verus! {

/// One piece of the response stream: ordinary output, or a failure that the
/// consumer sees as such.
#[derive(Debug)]
pub enum Chunk {
    Data(String),
    Failure(String),
}

/// The model of a [`Chunk`].
pub enum ChunkModel {
    Data(Seq<char>),
    Failure(Seq<char>),
}

impl View for Chunk {
    type V = ChunkModel;

    open spec fn view(&self) -> ChunkModel {
        match self {
            Chunk::Data(t) => ChunkModel::Data(t@),
            Chunk::Failure(t) => ChunkModel::Failure(t@),
        }
    }
}

/// The models of a sequence of chunks.
pub open spec fn chunk_views(chunks: Seq<Chunk>) -> Seq<ChunkModel> {
    Seq::new(chunks.len(), |i: int| chunks[i]@)
}

/// A call of one action of one tool.
#[derive(Debug)]
pub struct ToolCall {
    pub name: String,
    pub action: String,
    pub payload: JsonValue,
}

/// The model of a [`ToolCall`].
pub struct ToolCallModel {
    pub name: Seq<char>,
    pub action: Seq<char>,
    pub payload: JsonModel,
}

impl View for ToolCall {
    type V = ToolCallModel;

    open spec fn view(&self) -> ToolCallModel {
        ToolCallModel { name: self.name@, action: self.action@, payload: self.payload@ }
    }
}

/// A cycle between steps: the query to work on next, the number of steps
/// begun so far, and the limit on them (0 for none).
#[derive(Debug)]
pub struct Cycle {
    pub query: String,
    pub depth: u64,
    pub limit: u64,
}

/// The model of a [`Cycle`].
pub struct CycleModel {
    pub query: Seq<char>,
    pub depth: nat,
    pub limit: nat,
}

impl View for Cycle {
    type V = CycleModel;

    open spec fn view(&self) -> CycleModel {
        CycleModel { query: self.query@, depth: self.depth as nat, limit: self.limit as nat }
    }
}

/// A cycle that waits for the model's answer to its query.
#[derive(Debug)]
pub struct PendingModel {
    pub cycle: Cycle,
}

/// A cycle that waits for a tool call to end, with the follow-up query that
/// the model asked for.
#[derive(Debug)]
pub struct PendingTool {
    pub cycle: Cycle,
    pub follow_up: Option<String>,
}

/// What has to happen after a step.
#[derive(Debug)]
pub enum Next {
    /// Send the cycle's query to the model and hand back its answer.
    AskModel(PendingModel),
    /// Run the tool call, relay its output, and hand back how it ended.
    CallTool(PendingTool, ToolCall),
    /// The cycle has ended.
    Done,
}

/// The model of a [`Next`].
pub enum NextModel {
    AskModel(CycleModel),
    CallTool(CycleModel, Option<Seq<char>>, ToolCallModel),
    Done,
}

impl View for Next {
    type V = NextModel;

    open spec fn view(&self) -> NextModel {
        match self {
            Next::AskModel(p) => NextModel::AskModel(p.cycle@),
            Next::CallTool(p, call) => NextModel::CallTool(
                p.cycle@,
                text_view(p.follow_up),
                call@,
            ),
            Next::Done => NextModel::Done,
        }
    }
}

/// One transition: the chunks to stream, in order, and what happens next.
#[derive(Debug)]
pub struct Step {
    pub chunks: Vec<Chunk>,
    pub next: Next,
}

/// The model of a [`Step`].
pub struct StepModel {
    pub chunks: Seq<ChunkModel>,
    pub next: NextModel,
}

impl View for Step {
    type V = StepModel;

    open spec fn view(&self) -> StepModel {
        StepModel { chunks: chunk_views(self.chunks@), next: self.next@ }
    }
}

/// The two chunks that end every stream: the time taken and the end mark.
pub open spec fn closing(elapsed: nat) -> Seq<ChunkModel> {
    seq![
        ChunkModel::Data("\n[Duration]: "@ + decimal(elapsed) + " ms"@),
        ChunkModel::Data("\n[EOF]"@),
    ]
}

/// The step that ends a cycle on a failure: the failure, then the closing
/// chunks.
pub open spec fn fatal(message: Seq<char>, elapsed: nat) -> StepModel {
    StepModel {
        chunks: seq![ChunkModel::Failure(message)] + closing(elapsed),
        next: NextModel::Done,
    }
}

/// `step` with `first` streamed before its chunks.
pub open spec fn after(first: ChunkModel, step: StepModel) -> StepModel {
    StepModel { chunks: seq![first] + step.chunks, next: step.next }
}

/// The count of steps after one more has begun; it stays where it cannot grow.
pub open spec fn next_depth(depth: nat) -> nat {
    if depth < u64::MAX {
        depth + 1
    } else {
        depth
    }
}

/// Whether a cycle has used up its limit of steps.
pub open spec fn exhausted(c: CycleModel) -> bool {
    c.limit > 0 && c.depth >= c.limit
}

/// Beginning a step: refused where the limit of steps is used up, given up
/// where the consumer has gone, and else the query is announced and goes to
/// the model.
pub open spec fn begin_step(c: CycleModel, closed: bool, elapsed: nat) -> StepModel {
    if exhausted(c) {
        fatal(error_text(ErrorModel::RecursionLimit), elapsed)
    } else if closed {
        fatal(error_text(ErrorModel::ClientDisconnected), elapsed)
    } else {
        StepModel {
            chunks: seq![ChunkModel::Data("[Processing]: "@ + c.query + "\n"@)],
            next: NextModel::AskModel(
                CycleModel { query: c.query, depth: next_depth(c.depth), limit: c.limit },
            ),
        }
    }
}

/// Whether a follow-up query asks for another step: it is there and holds
/// more than white space.
pub open spec fn wants_more(follow_up: Option<Seq<char>>) -> bool {
    follow_up matches Some(q) && trim(q).len() > 0
}

/// What follows a step's output: with a follow-up query the next step begins
/// on it, after an empty line, unless the consumer has gone; without one the
/// stream is closed.
pub open spec fn continue_step(
    c: CycleModel,
    follow_up: Option<Seq<char>>,
    closed: bool,
    elapsed: nat,
) -> StepModel {
    if wants_more(follow_up) {
        if closed {
            fatal(error_text(ErrorModel::ClientDisconnected), elapsed)
        } else {
            after(
                ChunkModel::Data("\n"@),
                begin_step(
                    CycleModel { query: follow_up->0, depth: c.depth, limit: c.limit },
                    false,
                    elapsed,
                ),
            )
        }
    } else {
        StepModel { chunks: closing(elapsed), next: NextModel::Done }
    }
}

/// The answer that a decision without a tool call gives: the text of its
/// `content` where that is a string, its JSON text where it is anything
/// else, and a placeholder where there is none.
pub open spec fn answer_text(data: Seq<(Seq<char>, JsonModel)>) -> Seq<char> {
    match lookup(data, "content"@) {
        Some(JsonModel::Str(s)) => s,
        Some(v) => rendered(v),
        None => "No content"@,
    }
}

/// Acting on a decision: a tool call is announced and, where its name
/// splits into tool and action, handed out; a direct answer is streamed and
/// the cycle goes on to what follows.
pub open spec fn decision_step(
    c: CycleModel,
    d: LmDecision,
    closed: bool,
    elapsed: nat,
) -> StepModel {
    match d.tool {
        Some(tool) => {
            let announce = ChunkModel::Data(
                "[Handling]: "@ + tool + " "@ + rendered(JsonModel::Object(d.data)) + "\n"@,
            );
            match split_name(tool) {
                Some((name, action)) => StepModel {
                    chunks: seq![announce],
                    next: NextModel::CallTool(
                        c,
                        d.query,
                        ToolCallModel { name, action, payload: JsonModel::Object(d.data) },
                    ),
                },
                None => after(
                    announce,
                    fatal(
                        "Tool error: "@ + error_text(ErrorModel::InvalidToolNameFormat(tool)),
                        elapsed,
                    ),
                ),
            }
        },
        None => after(
            ChunkModel::Data(answer_text(d.data) + "\n"@),
            continue_step(c, d.query, closed, elapsed),
        ),
    }
}

/// Taking the model's answer: a failed call and an answer that is no
/// decision end the cycle; so does a consumer that has gone; else the
/// decision is acted on.
pub open spec fn reply_step(
    c: CycleModel,
    reply: Result<Seq<char>, Seq<char>>,
    closed: bool,
    elapsed: nat,
) -> StepModel {
    match reply {
        Err(cause) => fatal("LM error: "@ + cause, elapsed),
        Ok(raw) => match response_of(raw) {
            None => fatal(
                "LM error: "@ + error_text(ErrorModel::InvalidResponseFormat),
                elapsed,
            ),
            Some(d) => if closed {
                fatal(error_text(ErrorModel::ClientDisconnected), elapsed)
            } else {
                decision_step(c, d, closed, elapsed)
            },
        },
    }
}

/// Taking the end of a tool call: a failure ends the cycle; after a success
/// the output is closed by a line feed and the cycle goes on to what follows.
pub open spec fn tool_step(
    c: CycleModel,
    follow_up: Option<Seq<char>>,
    outcome: Option<ErrorModel>,
    closed: bool,
    elapsed: nat,
) -> StepModel {
    match outcome {
        Some(e) => fatal("Tool error: "@ + error_text(e), elapsed),
        None => after(ChunkModel::Data("\n"@), continue_step(c, follow_up, closed, elapsed)),
    }
}

/// `step` with the chunks `before` streamed first.
pub open spec fn prefixed(before: Seq<ChunkModel>, step: StepModel) -> StepModel {
    StepModel { chunks: before + step.chunks, next: step.next }
}

/// Appends a chunk of ordinary output.
fn push_data(chunks: &mut Vec<Chunk>, text: String)
    ensures
        chunk_views(final(chunks)@) == chunk_views(old(chunks)@).push(ChunkModel::Data(text@)),
{
    chunks.push(Chunk::Data(text));
    assert(chunk_views(chunks@) =~= chunk_views(old(chunks)@).push(ChunkModel::Data(text@)));
}

/// Appends the two closing chunks.
fn push_closing(chunks: &mut Vec<Chunk>, elapsed: u64)
    ensures
        chunk_views(final(chunks)@) == chunk_views(old(chunks)@) + closing(elapsed as nat),
{
    let mut line = String::from_str("\n[Duration]: ");
    push_decimal(&mut line, elapsed);
    line.append(" ms");
    push_data(chunks, line);
    push_data(chunks, String::from_str("\n[EOF]"));
    assert(chunk_views(chunks@) =~= chunk_views(old(chunks)@) + closing(elapsed as nat));
}

/// Ends the cycle on a failure, after the chunks gathered so far.
fn fail(chunks: Vec<Chunk>, message: String, elapsed: u64) -> (s: Step)
    ensures
        s@ == prefixed(chunk_views(chunks@), fatal(message@, elapsed as nat)),
{
    let mut chunks = chunks;
    let ghost before = chunk_views(chunks@);
    chunks.push(Chunk::Failure(message));
    assert(chunk_views(chunks@) =~= before.push(ChunkModel::Failure(message@)));
    push_closing(&mut chunks, elapsed);
    assert(chunk_views(chunks@) =~= before + fatal(message@, elapsed as nat).chunks);
    Step { chunks, next: Next::Done }
}

/// Begins a step, after the chunks gathered so far.
fn begin_after(chunks: Vec<Chunk>, cycle: Cycle, closed: bool, elapsed: u64) -> (s: Step)
    ensures
        s@ == prefixed(chunk_views(chunks@), begin_step(cycle@, closed, elapsed as nat)),
{
    if cycle.limit > 0 && cycle.depth >= cycle.limit {
        fail(chunks, Error::RecursionLimit.message(), elapsed)
    } else if closed {
        fail(chunks, Error::ClientDisconnected.message(), elapsed)
    } else {
        let mut chunks = chunks;
        let ghost before = chunk_views(chunks@);
        let mut line = String::from_str("[Processing]: ");
        line.append(cycle.query.as_str());
        line.append("\n");
        push_data(&mut chunks, line);
        let depth = if cycle.depth < u64::MAX {
            cycle.depth + 1
        } else {
            cycle.depth
        };
        let next = Cycle { query: cycle.query, depth, limit: cycle.limit };
        assert(chunk_views(chunks@) =~= before + begin_step(
            cycle@,
            closed,
            elapsed as nat,
        ).chunks);
        Step { chunks, next: Next::AskModel(PendingModel { cycle: next }) }
    }
}

/// Goes on to what follows a step's output, after the chunks gathered so far.
fn continue_after(
    chunks: Vec<Chunk>,
    cycle: Cycle,
    follow_up: Option<String>,
    closed: bool,
    elapsed: u64,
) -> (s: Step)
    ensures
        s@ == prefixed(
            chunk_views(chunks@),
            continue_step(cycle@, text_view(follow_up), closed, elapsed as nat),
        ),
{
    let mut chunks = chunks;
    let ghost before = chunk_views(chunks@);
    let more = match &follow_up {
        Some(q) => {
            let t = trim_str(q.as_str());
            t.as_str().unicode_len() > 0
        },
        None => false,
    };
    assert(more == wants_more(text_view(follow_up)));
    if more {
        if closed {
            fail(chunks, Error::ClientDisconnected.message(), elapsed)
        } else {
            let query = follow_up.unwrap();
            push_data(&mut chunks, String::from_str("\n"));
            let ghost mid = chunk_views(chunks@);
            let next = Cycle { query, depth: cycle.depth, limit: cycle.limit };
            let s = begin_after(chunks, next, false, elapsed);
            proof {
                let inner = begin_step(next@, false, elapsed as nat);
                assert(mid + inner.chunks =~= before + (seq![ChunkModel::Data("\n"@)]
                    + inner.chunks));
            }
            s
        }
    } else {
        push_closing(&mut chunks, elapsed);
        Step { chunks, next: Next::Done }
    }
}

impl Cycle {
    /// A cycle that has not begun, for a query and a limit of steps (0 for
    /// none).
    pub fn new(query: String, limit: u64) -> (c: Cycle)
        ensures
            c@ == (CycleModel { query: query@, depth: 0, limit: limit as nat }),
    {
        Cycle { query, depth: 0, limit }
    }

    /// Begins the next step. `closed` says whether the consumer has gone,
    /// `elapsed` the milliseconds since the session began.
    pub fn begin(self, closed: bool, elapsed: u64) -> (s: Step)
        ensures
            s@ == begin_step(self@, closed, elapsed as nat),
    {
        let s = begin_after(Vec::new(), self, closed, elapsed);
        assert(s@.chunks =~= begin_step(self@, closed, elapsed as nat).chunks);
        s
    }
}

/// The text of a model's answer, or of the failure of the call.
pub open spec fn reply_view(reply: Result<String, String>) -> Result<Seq<char>, Seq<char>> {
    match reply {
        Ok(raw) => Ok(raw@),
        Err(cause) => Err(cause@),
    }
}

/// The failure of a tool call, if it failed.
pub open spec fn outcome_view(outcome: Result<(), Error>) -> Option<ErrorModel> {
    match outcome {
        Ok(_) => None,
        Err(e) => Some(e@),
    }
}

/// The answer that a decision without a tool call gives.
pub fn answer(data: &Vec<(String, JsonValue)>) -> (out: String)
    ensures
        out@ == answer_text(fields_view(data@)),
{
    match find_field(data, "content") {
        Some(JsonValue::Str(s)) => s.clone(),
        Some(v) => render(v),
        None => String::from_str("No content"),
    }
}

impl PendingModel {
    /// Takes the model's answer (`Ok`) or the failure of the call (`Err`).
    pub fn on_reply(self, reply: Result<String, String>, closed: bool, elapsed: u64) -> (s: Step)
        ensures
            s@ == reply_step(self.cycle@, reply_view(reply), closed, elapsed as nat),
    {
        let ghost want = reply_step(self.cycle@, reply_view(reply), closed, elapsed as nat);
        let raw = match reply {
            Ok(raw) => raw,
            Err(cause) => {
                let mut message = String::from_str("LM error: ");
                message.append(cause.as_str());
                let s = fail(Vec::new(), message, elapsed);
                assert(s@.chunks =~= want.chunks);
                return s;
            },
        };
        let decision = match parse_response(raw.as_str()) {
            Ok(d) => d,
            Err(e) => {
                let mut message = String::from_str("LM error: ");
                let text = e.message();
                message.append(text.as_str());
                let s = fail(Vec::new(), message, elapsed);
                assert(s@.chunks =~= want.chunks);
                return s;
            },
        };
        if closed {
            let s = fail(Vec::new(), Error::ClientDisconnected.message(), elapsed);
            assert(s@.chunks =~= want.chunks);
            return s;
        }
        let LmResponse { tool, data, query } = decision;
        let mut chunks: Vec<Chunk> = Vec::new();
        match tool {
            Some(tool) => {
                let payload = JsonValue::Object(data);
                assert(payload@ == JsonModel::Object(fields_view(data@)));
                let mut line = String::from_str("[Handling]: ");
                line.append(tool.as_str());
                line.append(" ");
                let text = render(&payload);
                line.append(text.as_str());
                line.append("\n");
                push_data(&mut chunks, line);
                match split_tool_name(tool.as_str()) {
                    Ok((name, action)) => {
                        let call = ToolCall { name, action, payload };
                        let s = Step {
                            chunks,
                            next: Next::CallTool(
                                PendingTool { cycle: self.cycle, follow_up: query },
                                call,
                            ),
                        };
                        assert(s@.chunks =~= want.chunks);
                        s
                    },
                    Err(e) => {
                        let mut message = String::from_str("Tool error: ");
                        let text = e.message();
                        message.append(text.as_str());
                        let s = fail(chunks, message, elapsed);
                        assert(s@.chunks =~= want.chunks);
                        s
                    },
                }
            },
            None => {
                let mut line = answer(&data);
                line.append("\n");
                push_data(&mut chunks, line);
                let s = continue_after(chunks, self.cycle, query, closed, elapsed);
                assert(s@.chunks =~= want.chunks);
                s
            },
        }
    }
}

impl PendingTool {
    /// Takes the end of the tool call: `Ok` once all its output has been
    /// relayed, `Err` where it failed.
    pub fn on_tool_end(self, outcome: Result<(), Error>, closed: bool, elapsed: u64) -> (s: Step)
        ensures
            s@ == tool_step(
                self.cycle@,
                text_view(self.follow_up),
                outcome_view(outcome),
                closed,
                elapsed as nat,
            ),
    {
        let ghost want = tool_step(
            self.cycle@,
            text_view(self.follow_up),
            outcome_view(outcome),
            closed,
            elapsed as nat,
        );
        match outcome {
            Err(e) => {
                let mut message = String::from_str("Tool error: ");
                let text = e.message();
                message.append(text.as_str());
                let s = fail(Vec::new(), message, elapsed);
                assert(s@.chunks =~= want.chunks);
                s
            },
            Ok(_) => {
                let mut chunks: Vec<Chunk> = Vec::new();
                push_data(&mut chunks, String::from_str("\n"));
                let s = continue_after(chunks, self.cycle, self.follow_up, closed, elapsed);
                assert(s@.chunks =~= want.chunks);
                s
            },
        }
    }
}

/// Once the consumer has gone, every transition ends the cycle: no model is
/// asked and no tool is called after it.
pub proof fn law_disconnect_ends_cycle(
    c: CycleModel,
    reply: Result<Seq<char>, Seq<char>>,
    follow_up: Option<Seq<char>>,
    outcome: Option<ErrorModel>,
    elapsed: nat,
)
    ensures
        begin_step(c, true, elapsed).next is Done,
        reply_step(c, reply, true, elapsed).next is Done,
        tool_step(c, follow_up, outcome, true, elapsed).next is Done,
{
}

/// A decision that lets a whole round go on: it asks for a follow-up, and
/// where it calls a tool, the call's name splits into tool and action.
pub open spec fn goes_on(d: LmDecision) -> bool {
    &&& wants_more(d.query)
    &&& d.tool matches Some(tool) ==> split_name(tool) is Some
}

/// What follows a whole round on a decision, with the consumer there and the
/// tool call, if any, ending well.
pub open spec fn round(c: CycleModel, d: LmDecision, elapsed: nat) -> StepModel {
    let step = decision_step(c, d, false, elapsed);
    match step.next {
        NextModel::CallTool(waiting, follow_up, _) => tool_step(
            waiting,
            follow_up,
            None,
            false,
            elapsed,
        ),
        _ => step,
    }
}

/// The transition that begins step number `k` (counted from 0) of a cycle
/// whose model answers step `i` with the decision `replies(i)`.
pub open spec fn nth_begin(
    start: CycleModel,
    replies: spec_fn(nat) -> LmDecision,
    k: nat,
    elapsed: nat,
) -> StepModel
    decreases k,
{
    if k == 0 {
        begin_step(start, false, elapsed)
    } else {
        let before = nth_begin(start, replies, (k - 1) as nat, elapsed);
        match before.next {
            NextModel::AskModel(c) => round(c, replies((k - 1) as nat), elapsed),
            _ => before,
        }
    }
}

/// Whether a transition ends as `tail` does: with its chunks last, and with
/// what it asks for next.
pub open spec fn ends_as(step: StepModel, tail: StepModel) -> bool {
    &&& step.next == tail.next
    &&& step.chunks.len() >= tail.chunks.len()
    &&& step.chunks.skip(step.chunks.len() - tail.chunks.len()) == tail.chunks
}

/// A round on a decision that goes on ends as the beginning of the next
/// step does, at the depth that the cycle had.
pub proof fn lemma_round_begins_next(c: CycleModel, d: LmDecision, elapsed: nat)
    requires
        goes_on(d),
    ensures
        ends_as(
            round(c, d, elapsed),
            begin_step(
                CycleModel { query: d.query->0, depth: c.depth, limit: c.limit },
                false,
                elapsed,
            ),
        ),
{
    let begun = begin_step(
        CycleModel { query: d.query->0, depth: c.depth, limit: c.limit },
        false,
        elapsed,
    );
    let whole = round(c, d, elapsed);
    assert(whole.chunks.len() >= begun.chunks.len());
    assert(whole.chunks.skip(whole.chunks.len() - begun.chunks.len()) =~= begun.chunks);
}

/// With a limit of `n > 0` steps, a cycle whose model always asks for a
/// follow-up begins exactly `n` steps: each of the first `n` sends a query
/// to the model, and the attempt to begin one more ends the cycle with the
/// failure of the limit.
pub proof fn law_recursion_limit(
    query: Seq<char>,
    n: nat,
    replies: spec_fn(nat) -> LmDecision,
    k: nat,
    elapsed: nat,
)
    requires
        0 < n <= u64::MAX,
        forall|i: nat| goes_on(#[trigger] replies(i)),
        k <= n,
    ensures
        k < n ==> (nth_begin(CycleModel { query, depth: 0, limit: n }, replies, k, elapsed).next
            matches NextModel::AskModel(c) && c.depth == k + 1 && c.limit == n),
        k == n ==> ends_as(
            nth_begin(CycleModel { query, depth: 0, limit: n }, replies, k, elapsed),
            fatal(error_text(ErrorModel::RecursionLimit), elapsed),
        ),
    decreases k,
{
    let start = CycleModel { query, depth: 0, limit: n };
    if k > 0 {
        law_recursion_limit(query, n, replies, (k - 1) as nat, elapsed);
        let before = nth_begin(start, replies, (k - 1) as nat, elapsed);
        let c = before.next->AskModel_0;
        lemma_round_begins_next(c, replies((k - 1) as nat), elapsed);
    }
}

/// Without a limit (limit 0), a cycle whose model always asks for a
/// follow-up begins every step: none is refused, however many came before.
pub proof fn law_no_limit_never_refuses(
    start: CycleModel,
    replies: spec_fn(nat) -> LmDecision,
    k: nat,
    elapsed: nat,
)
    requires
        start.limit == 0,
        forall|i: nat| goes_on(#[trigger] replies(i)),
    ensures
        nth_begin(start, replies, k, elapsed).next matches NextModel::AskModel(c) && c.limit == 0,
    decreases k,
{
    if k > 0 {
        law_no_limit_never_refuses(start, replies, (k - 1) as nat, elapsed);
        let before = nth_begin(start, replies, (k - 1) as nat, elapsed);
        let c = before.next->AskModel_0;
        lemma_round_begins_next(c, replies((k - 1) as nat), elapsed);
    }
}

} // verus!
