//! The entry of a posted query, and what its transcript holds at the end.

use crate::cycle::{
    answer_text, begin_step, chunk_views, reply_step, wants_more, Chunk, ChunkModel, Cycle,
    CycleModel, NextModel, Step,
};
use crate::pipeline::{response_of, LmDecision, QueryData};
use crate::session::{log_entry, log_head, SessionLogger};
use crate::text::{decimal, views};
use vstd::prelude::*;

verus! {

/// What the transcript records of some chunks, entry by entry.
pub open spec fn logged(chunks: Seq<ChunkModel>) -> Seq<Seq<char>> {
    Seq::new(chunks.len(), |i: int| log_entry(chunks[i]))
}

/// How many of the entries are this text.
pub open spec fn occurrences(entries: Seq<Seq<char>>, text: Seq<char>) -> nat
    decreases entries.len(),
{
    if entries.len() == 0 {
        0
    } else if entries.last() == text {
        occurrences(entries.drop_last(), text) + 1
    } else {
        occurrences(entries.drop_last(), text)
    }
}

/// The line that says how long a query took.
pub open spec fn duration_line(elapsed: nat) -> Seq<char> {
    "\n[Duration]: "@ + decimal(elapsed) + " ms"@
}

/// Takes a posted query: its transcript is opened and its cycle begins.
/// Handed back are the transcript, the head to write to its file, and the
/// first step. `stamp` is the time stamp of the start, `now` the same time in
/// milliseconds, `limit` the limit of steps (0 for none), and `closed` says
/// whether the consumer has gone already.
pub fn handle(data: QueryData, stamp: &str, now: u64, limit: u64, closed: bool) -> (r: (
    SessionLogger,
    String,
    Step,
))
    ensures
        r.0.session_id == data.session_id,
        r.0.started == now,
        r.0.entries@.len() == 0,
        r.1@ == log_head(stamp@, data.query@),
        r.2@ == begin_step(
            CycleModel { query: data.query@, depth: 0, limit: limit as nat },
            closed,
            0,
        ),
{
    let QueryData { query, session_id } = data;
    let (log, head) = SessionLogger::new(session_id, query.as_str(), stamp, now);
    let step = Cycle::new(query, limit).begin(closed, 0);
    (log, head, step)
}

impl SessionLogger {
    /// Records the chunks of a step, in order: every chunk gives one entry,
    /// and the entries are handed back to be written to the file.
    pub fn record(&mut self, chunks: &Vec<Chunk>) -> (out: Vec<String>)
        ensures
            views(out@) == logged(chunk_views(chunks@)),
            views(final(self).entries@) == views(old(self).entries@) + logged(
                chunk_views(chunks@),
            ),
            final(self).session_id == old(self).session_id,
            final(self).started == old(self).started,
    {
        let mut out: Vec<String> = Vec::new();
        let mut i: usize = 0;
        let ghost all = logged(chunk_views(chunks@));
        assert(views(self.entries@) =~= views(old(self).entries@) + all.take(0));
        while i < chunks.len()
            invariant
                i <= chunks.len(),
                all == logged(chunk_views(chunks@)),
                views(out@) == all.take(i as int),
                views(self.entries@) == views(old(self).entries@) + all.take(i as int),
                self.session_id == old(self).session_id,
                self.started == old(self).started,
            decreases chunks.len() - i,
        {
            let ghost before = views(self.entries@);
            let ghost written = views(out@);
            let entry = self.write(&chunks[i]);
            out.push(entry);
            proof {
                assert(all[i as int] == log_entry(chunks@[i as int]@));
                assert(views(out@) =~= written.push(all[i as int]));
                assert(written.push(all[i as int]) =~= all.take(i + 1));
                assert(before.push(all[i as int]) =~= views(old(self).entries@) + all.take(
                    i + 1,
                ));
            }
            i += 1;
        }
        assert(all.take(chunks.len() as int) == all);
        out
    }
}

/// A text that ends in a line feed is neither the line of the duration nor
/// the end mark.
pub proof fn lemma_answer_is_no_closing_line(text: Seq<char>, elapsed: nat)
    ensures
        text + "\n"@ != duration_line(elapsed),
        text + "\n"@ != "\n[EOF]"@,
{
    reveal_strlit("\n");
    reveal_strlit("\n[EOF]");
    reveal_strlit(" ms");
    let line = text + "\n"@;
    assert(line.last() == '\n');
    assert("\n[EOF]"@.last() == ']');
    assert(duration_line(elapsed).last() == 's');
}

/// Where the model answers a query directly and asks for nothing more, the
/// step ends the cycle; the consumer gets the answer on a line of its own,
/// then the duration and the end mark; the transcript records the same
/// three texts, and exactly one of its entries is the answer.
pub proof fn law_direct_answer_is_logged_once(
    c: CycleModel,
    raw: Seq<char>,
    d: LmDecision,
    elapsed: nat,
)
    requires
        response_of(raw) == Some(d),
        d.tool is None,
        !wants_more(d.query),
    ensures
        reply_step(c, Ok(raw), false, elapsed).next is Done,
        reply_step(c, Ok(raw), false, elapsed).chunks == seq![
            ChunkModel::Data(answer_text(d.data) + "\n"@),
            ChunkModel::Data(duration_line(elapsed)),
            ChunkModel::Data("\n[EOF]"@),
        ],
        logged(reply_step(c, Ok(raw), false, elapsed).chunks) == seq![
            answer_text(d.data) + "\n"@,
            duration_line(elapsed),
            "\n[EOF]"@,
        ],
        occurrences(
            logged(reply_step(c, Ok(raw), false, elapsed).chunks),
            answer_text(d.data) + "\n"@,
        ) == 1,
{
    let answer = answer_text(d.data) + "\n"@;
    let step = reply_step(c, Ok(raw), false, elapsed);
    let chunks = seq![
        ChunkModel::Data(answer),
        ChunkModel::Data(duration_line(elapsed)),
        ChunkModel::Data("\n[EOF]"@),
    ];
    assert(step.chunks =~= chunks);
    let entries = seq![answer, duration_line(elapsed), "\n[EOF]"@];
    assert(logged(step.chunks) =~= entries);
    lemma_answer_is_no_closing_line(answer_text(d.data), elapsed);
    let two = entries.drop_last();
    let one = two.drop_last();
    assert(one.drop_last().len() == 0);
    assert(occurrences(one.drop_last(), answer) == 0);
    assert(one.last() == answer);
    assert(occurrences(one, answer) == 1);
    assert(two.last() == duration_line(elapsed));
    assert(occurrences(two, answer) == 1);
    assert(entries.last() == "\n[EOF]"@);
    assert(occurrences(entries, answer) == 1);
}

/// The transcript of a query that the model answers directly: the line that
/// announces the query, the answer, the duration and the end mark. Unless
/// the answer reads as the announcement does, exactly one entry is the
/// answer.
pub proof fn law_answered_query_transcript(
    query: Seq<char>,
    limit: nat,
    raw: Seq<char>,
    d: LmDecision,
    elapsed: nat,
)
    requires
        response_of(raw) == Some(d),
        d.tool is None,
        !wants_more(d.query),
    ensures
        begin_step(CycleModel { query, depth: 0, limit }, false, 0).next matches NextModel::AskModel(
            c,
        ) && logged(begin_step(CycleModel { query, depth: 0, limit }, false, 0).chunks) + logged(
            reply_step(c, Ok(raw), false, elapsed).chunks,
        ) == seq![
            "[Processing]: "@ + query + "\n"@,
            answer_text(d.data) + "\n"@,
            duration_line(elapsed),
            "\n[EOF]"@,
        ],
        answer_text(d.data) + "\n"@ != "[Processing]: "@ + query + "\n"@ ==> occurrences(
            seq![
                "[Processing]: "@ + query + "\n"@,
                answer_text(d.data) + "\n"@,
                duration_line(elapsed),
                "\n[EOF]"@,
            ],
            answer_text(d.data) + "\n"@,
        ) == 1,
{
    let start = CycleModel { query, depth: 0, limit };
    let first = begin_step(start, false, 0);
    let c = first.next->AskModel_0;
    law_direct_answer_is_logged_once(c, raw, d, elapsed);
    let answer = answer_text(d.data) + "\n"@;
    let announced = "[Processing]: "@ + query + "\n"@;
    let entries = seq![announced, answer, duration_line(elapsed), "\n[EOF]"@];
    assert(logged(first.chunks) + logged(reply_step(c, Ok(raw), false, elapsed).chunks)
        =~= entries);
    lemma_answer_is_no_closing_line(answer_text(d.data), elapsed);
    if answer != announced {
        let three = entries.drop_last();
        let two = three.drop_last();
        let one = two.drop_last();
        assert(one.drop_last().len() == 0);
        assert(occurrences(one.drop_last(), answer) == 0);
        assert(one.last() == announced);
        assert(occurrences(one, answer) == 0);
        assert(two.last() == answer);
        assert(occurrences(two, answer) == 1);
        assert(three.last() == duration_line(elapsed));
        assert(occurrences(three, answer) == 1);
        assert(entries.last() == "\n[EOF]"@);
        assert(occurrences(entries, answer) == 1);
    }
}

} // verus!
