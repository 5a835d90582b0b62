use ovsy::cycle::{Chunk, Cycle, Next, PendingModel, Step};
use ovsy::handlers::handle;
use ovsy::error::Error;
use ovsy::json::{parse_json, JsonValue};
use ovsy::pipeline::{build_prompt, parse_response, split_tool_name, LmResponse, QueryData};
use ovsy::session::SessionLogger;

fn texts(step: &Step) -> Vec<String> {
    step.chunks
        .iter()
        .map(|c| match c {
            Chunk::Data(t) => format!("D:{t}"),
            Chunk::Failure(t) => format!("F:{t}"),
        })
        .collect()
}

fn asked(step: Step) -> PendingModel {
    match step.next {
        Next::AskModel(p) => p,
        other => panic!("the model was not asked: {other:?}"),
    }
}

#[test]
fn tool_name_splits_at_the_slash() {
    let (name, action) = split_tool_name("foo/bar").unwrap();
    assert_eq!(name, "foo");
    assert_eq!(action, "bar");
}

#[test]
fn tool_name_splits_at_the_first_slash_only() {
    let (name, action) = split_tool_name("foo/bar/baz").unwrap();
    assert_eq!(name, "foo");
    assert_eq!(action, "bar/baz");
}

#[test]
fn tool_name_without_slash_is_refused() {
    match split_tool_name("foo") {
        Err(Error::InvalidToolNameFormat(t)) => assert_eq!(t, "foo"),
        other => panic!("unexpected: {other:?}"),
    }
}

#[test]
fn tool_name_may_have_empty_parts() {
    let (name, action) = split_tool_name("/").unwrap();
    assert_eq!(name, "");
    assert_eq!(action, "");
    let (name, action) = split_tool_name("äö/ü").unwrap();
    assert_eq!(name, "äö");
    assert_eq!(action, "ü");
}

#[test]
fn response_is_read_from_plain_json() {
    let r = parse_response(r#"{"tool":"pc/play","data":{"author":"geoxor"},"query":"next"}"#)
        .unwrap();
    assert_eq!(r.tool.as_deref(), Some("pc/play"));
    assert_eq!(r.query.as_deref(), Some("next"));
    assert_eq!(r.data.len(), 1);
    assert_eq!(r.data[0].0, "author");
    assert!(matches!(&r.data[0].1, JsonValue::Str(s) if s == "geoxor"));
}

#[test]
fn response_is_read_from_a_code_fence() {
    let raw = "```json\n{\"tool\":null,\"data\":{\"content\":\"hi\"},\"query\":null}\n```\n";
    let r = parse_response(raw).unwrap();
    assert!(r.tool.is_none());
    assert!(r.query.is_none());
    assert_eq!(r.data[0].0, "content");
}

#[test]
fn response_may_leave_out_tool_and_query() {
    let r = parse_response("  {\"data\":{}}  ").unwrap();
    assert!(r.tool.is_none());
    assert!(r.query.is_none());
    assert!(r.data.is_empty());
}

#[test]
fn response_that_is_no_decision_is_refused() {
    for raw in [
        "not json",
        "[1,2]",
        r#"{"tool":"a/b","query":null}"#,
        r#"{"tool":5,"data":{},"query":null}"#,
        r#"{"tool":null,"data":[],"query":null}"#,
        r#"{"tool":null,"data":{},"query":1}"#,
        "",
    ] {
        assert!(
            matches!(parse_response(raw), Err(Error::InvalidResponseFormat)),
            "accepted: {raw}"
        );
    }
}

#[test]
fn decode_takes_a_parsed_document() {
    let doc = parse_json(r#"{"tool":"a/b","data":{"x":[1,2]},"query":""}"#).unwrap();
    let r = LmResponse::decode(&doc).unwrap();
    assert_eq!(r.tool.as_deref(), Some("a/b"));
    assert_eq!(r.query.as_deref(), Some(""));
    assert!(LmResponse::decode(&JsonValue::Null).is_none());
}

#[test]
fn posted_query_is_read() {
    let doc = parse_json(r#"{"query":"play geoxor","session_id":"root"}"#).unwrap();
    let q = QueryData::decode(&doc).unwrap();
    assert_eq!(q.query, "play geoxor");
    assert_eq!(q.session_id, "root");
    let doc = parse_json(r#"{"query":"play geoxor"}"#).unwrap();
    assert!(QueryData::decode(&doc).is_none());
}

#[test]
fn direct_answer_ends_the_stream() {
    let cycle = Cycle::new("play geoxor".to_string(), 0);
    let step = cycle.begin(false, 0);
    assert_eq!(texts(&step), vec!["D:[Processing]: play geoxor\n"]);
    let pending = asked(step);
    assert_eq!(pending.cycle.depth, 1);
    let reply = r#"{"tool": null, "data": {"content": "No tool found"}, "query": null}"#;
    let step = pending.on_reply(Ok(reply.to_string()), false, 42);
    assert_eq!(
        texts(&step),
        vec!["D:No tool found\n", "D:\n[Duration]: 42 ms", "D:\n[EOF]"]
    );
    assert!(matches!(step.next, Next::Done));

    let (mut log, _) = SessionLogger::new("root".to_string(), "play geoxor", "stamp", 0);
    for chunk in &step.chunks {
        log.write(chunk);
    }
    let recorded = log.results();
    assert_eq!(recorded.iter().filter(|e| *e == "No tool found\n").count(), 1);
    assert_eq!(recorded.len(), 3);
}

#[test]
fn answer_without_content_uses_the_placeholder() {
    let pending = asked(Cycle::new("q".to_string(), 0).begin(false, 0));
    let step = pending.on_reply(Ok(r#"{"data":{}}"#.to_string()), false, 1);
    assert_eq!(texts(&step)[0], "D:No content\n");
}

#[test]
fn answer_that_is_no_string_is_written_as_json() {
    let pending = asked(Cycle::new("q".to_string(), 0).begin(false, 0));
    let step = pending.on_reply(Ok(r#"{"data":{"content":[1,"a"]}}"#.to_string()), false, 1);
    assert_eq!(texts(&step)[0], "D:[1,\"a\"]\n");
}

#[test]
fn tool_call_is_announced_and_handed_out() {
    let pending = asked(Cycle::new("q".to_string(), 0).begin(false, 0));
    let reply = r#"{"tool":"pc/play","data":{"author":"geoxor"},"query":"then stop"}"#;
    let step = pending.on_reply(Ok(reply.to_string()), false, 1);
    assert_eq!(texts(&step), vec!["D:[Handling]: pc/play {\"author\":\"geoxor\"}\n"]);
    let (waiting, call) = match step.next {
        Next::CallTool(w, c) => (w, c),
        other => panic!("no tool call: {other:?}"),
    };
    assert_eq!(call.name, "pc");
    assert_eq!(call.action, "play");
    assert!(matches!(&call.payload, JsonValue::Object(f) if f.len() == 1));
    assert_eq!(waiting.follow_up.as_deref(), Some("then stop"));

    let step = waiting.on_tool_end(Ok(()), false, 7);
    assert_eq!(texts(&step), vec!["D:\n", "D:\n", "D:[Processing]: then stop\n"]);
    let pending = asked(step);
    assert_eq!(pending.cycle.query, "then stop");
    assert_eq!(pending.cycle.depth, 2);
}

#[test]
fn tool_call_without_slash_is_fatal() {
    let pending = asked(Cycle::new("q".to_string(), 0).begin(false, 0));
    let step = pending.on_reply(Ok(r#"{"tool":"pc","data":{}}"#.to_string()), false, 3);
    assert_eq!(
        texts(&step),
        vec![
            "D:[Handling]: pc {}\n",
            "F:Tool error: Invalid tool call name 'pc', expected format: '{name}/{action}'.",
            "D:\n[Duration]: 3 ms",
            "D:\n[EOF]",
        ]
    );
    assert!(matches!(step.next, Next::Done));
}

#[test]
fn failed_tool_call_is_fatal() {
    let pending = asked(Cycle::new("q".to_string(), 0).begin(false, 0));
    let step = pending.on_reply(Ok(r#"{"tool":"pc/play","data":{},"query":"more"}"#.to_string()), false, 3);
    let waiting = match step.next {
        Next::CallTool(w, _) => w,
        other => panic!("no tool call: {other:?}"),
    };
    let step = waiting.on_tool_end(Err(Error::UnexpectToolName("pc".to_string())), false, 9);
    assert_eq!(
        texts(&step),
        vec![
            "F:Tool error: Tool named as 'pc' is not found.",
            "D:\n[Duration]: 9 ms",
            "D:\n[EOF]",
        ]
    );
    assert!(matches!(step.next, Next::Done));
}

#[test]
fn failed_model_call_is_fatal() {
    let pending = asked(Cycle::new("q".to_string(), 0).begin(false, 0));
    let step = pending.on_reply(Err("connection refused".to_string()), false, 3);
    assert_eq!(texts(&step)[0], "F:LM error: connection refused");
    assert!(matches!(step.next, Next::Done));
}

#[test]
fn malformed_answer_is_fatal() {
    let pending = asked(Cycle::new("q".to_string(), 0).begin(false, 0));
    let step = pending.on_reply(Ok("I think you should...".to_string()), false, 3);
    assert_eq!(texts(&step)[0], "F:LM error: Invalid model response format");
    assert_eq!(texts(&step).len(), 3);
    assert!(matches!(step.next, Next::Done));
}

#[test]
fn blank_follow_up_ends_the_stream() {
    let pending = asked(Cycle::new("q".to_string(), 0).begin(false, 0));
    let step = pending.on_reply(Ok(r#"{"data":{"content":"x"},"query":"  \n "}"#.to_string()), false, 3);
    assert!(matches!(step.next, Next::Done));
    assert_eq!(texts(&step).len(), 3);
}

fn follow_ups_until_refused(limit: u64, rounds: u64) -> (u64, Vec<String>) {
    let mut step = Cycle::new("q0".to_string(), limit).begin(false, 0);
    let mut asked_times = 0;
    loop {
        match step.next {
            Next::AskModel(pending) => {
                asked_times += 1;
                if asked_times > rounds {
                    return (asked_times, Vec::new());
                }
                let reply = r#"{"data":{"content":"x"},"query":"again"}"#;
                step = pending.on_reply(Ok(reply.to_string()), false, 0);
            }
            Next::Done => return (asked_times, texts(&step)),
            Next::CallTool(..) => panic!("no tool was asked for"),
        }
    }
}

#[test]
fn recursion_limit_refuses_the_step_after_the_last() {
    for limit in [1u64, 2, 3, 7] {
        let (asked_times, last) = follow_ups_until_refused(limit, 100);
        assert_eq!(asked_times, limit);
        assert!(last.contains(&"F:Recursion limit exceeded".to_string()));
        assert_eq!(last.last().unwrap(), "D:\n[EOF]");
    }
}

#[test]
fn no_limit_never_refuses() {
    let (asked_times, last) = follow_ups_until_refused(0, 200);
    assert_eq!(asked_times, 201);
    assert!(last.is_empty());
}

#[test]
fn gone_consumer_ends_the_cycle_at_every_transition() {
    let step = Cycle::new("q".to_string(), 0).begin(true, 5);
    assert!(matches!(step.next, Next::Done));
    assert_eq!(texts(&step)[0], "F:Client disconnected, aborting tool chain");

    let pending = asked(Cycle::new("q".to_string(), 0).begin(false, 0));
    let reply = r#"{"tool":"pc/play","data":{},"query":"more"}"#;
    let step = pending.on_reply(Ok(reply.to_string()), true, 5);
    assert!(matches!(step.next, Next::Done));
    assert_eq!(texts(&step)[0], "F:Client disconnected, aborting tool chain");

    let pending = asked(Cycle::new("q".to_string(), 0).begin(false, 0));
    let step = pending.on_reply(Ok(reply.to_string()), false, 5);
    let waiting = match step.next {
        Next::CallTool(w, _) => w,
        other => panic!("no tool call: {other:?}"),
    };
    let step = waiting.on_tool_end(Ok(()), true, 5);
    assert!(matches!(step.next, Next::Done));
    assert_eq!(
        texts(&step),
        vec![
            "D:\n",
            "F:Client disconnected, aborting tool chain",
            "D:\n[Duration]: 5 ms",
            "D:\n[EOF]",
        ]
    );
}

#[test]
fn prompt_takes_history_docs_and_examples() {
    let history = vec!["first".to_string(), "second".to_string()];
    let docs = vec!["doc a".to_string(), "doc b".to_string()];
    let examples = vec!["ex 1".to_string(), "ex 2".to_string()];
    let prompt = build_prompt("H:{HISTORY}|D:{DOCS}|E:{EXAMPLES}|{DOCS}", &history, 1000, &docs, &examples);
    assert_eq!(
        prompt,
        "H:first\nsecond|D:doc a\\n\\ndoc b|E:ex 1\\nex 2|doc a\\n\\ndoc b"
    );
}

#[test]
fn prompt_drops_the_oldest_history_first() {
    let history = vec!["one two three four five".to_string(), "six".to_string()];
    let prompt = build_prompt("{HISTORY}", &history, 1, &Vec::new(), &Vec::new());
    assert_eq!(prompt, "six");
}

#[test]
fn posted_query_opens_its_transcript_and_begins() {
    let data = QueryData { query: "play geoxor".to_string(), session_id: "root".to_string() };
    let (mut log, head, step) = handle(data, "2024-01-02T03:04:05.000000Z", 500, 3, false);
    assert_eq!(head, "Timestamp: 2024-01-02T03:04:05.000000Z\nQuery: play geoxor");
    assert_eq!(log.session_id, "root");
    assert_eq!(log.exec_time(750), 250);
    assert!(log.results().is_empty());
    assert_eq!(texts(&step), vec!["D:[Processing]: play geoxor\n"]);
    assert_eq!(log.record(&step.chunks), vec!["[Processing]: play geoxor\n"]);
    let pending = asked(step);
    assert_eq!(pending.cycle.limit, 3);
    assert_eq!(pending.cycle.depth, 1);

    let reply = r#"{"tool": null, "data": {"content": "No tool found"}, "query": null}"#;
    let step = pending.on_reply(Ok(reply.to_string()), false, 42);
    let written = log.record(&step.chunks);
    assert_eq!(written, vec!["No tool found\n", "\n[Duration]: 42 ms", "\n[EOF]"]);
    assert_eq!(
        log.results(),
        vec!["[Processing]: play geoxor\n", "No tool found\n", "\n[Duration]: 42 ms", "\n[EOF]"]
    );
    assert_eq!(log.results().iter().filter(|e| *e == "No tool found\n").count(), 1);
}

#[test]
fn posted_query_of_a_gone_consumer_ends_at_once() {
    let data = QueryData { query: "q".to_string(), session_id: "s".to_string() };
    let (mut log, _, step) = handle(data, "stamp", 0, 0, true);
    assert!(matches!(step.next, Next::Done));
    assert_eq!(
        log.record(&step.chunks),
        vec!["[Error]: Client disconnected, aborting tool chain", "\n[Duration]: 0 ms", "\n[EOF]"]
    );
}
