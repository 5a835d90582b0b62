use ovsy::dispatch::{check_exit, check_status, handle_tool, write_call_url, CallPlan};
use ovsy::error::Error;
use ovsy::json::parse_json;
use ovsy::manifest::Manifest;
use ovsy::process::{escalation, kill_arguments, listeners, lsof_arguments, Signal};
use ovsy::registry::Tools;
use ovsy::supervisor::Command;
use ovsy::tool::{
    freshness, needs_copy, needs_spawn, tolerated, CheckDecision, Launch, Observation, Poll,
    StartDecision, Tool, LOG_POLL_ATTEMPTS,
};

fn manifest_text(name: &str, enable: bool, port: Option<u16>) -> String {
    let server = match port {
        Some(p) => format!("[server]\nport = {p}\n"),
        None => String::new(),
    };
    format!(
        r#"[tool]
enable = {enable}
name = "{name}"
exec = "bin/{name}-server"

{server}
[actions.play]
enable = true
description = "Plays music"
examples = [["play geoxor", {{ author = "geoxor" }}]]

[actions.play.arguments.author]
format = "string"
optional = false

[actions.play.arguments.mode]
format = "string"
variants = ["loud", "quiet"]
optional = true

[actions.hidden]
enable = false
description = "Not offered"
examples = []

[actions.hidden.arguments]
"#
    )
}

fn launch(name: &str, port: Option<u16>) -> Launch {
    match Tool::run(Some(&manifest_text(name, true, port)), &Tools::new()) {
        StartDecision::Launch(l) => l,
        other => panic!("no launch: {other:?}"),
    }
}

fn tool(name: &str, port: Option<u16>, last_update: u64) -> Tool {
    launch(name, port).finish(format!("/tools/{name}"), Some(last_update), None, None)
}

#[test]
fn manifest_is_read_from_toml() {
    let m = Manifest::parse(&manifest_text("pc", true, Some(3030))).unwrap();
    assert!(m.tool.enable);
    assert_eq!(m.tool.name, "pc");
    assert_eq!(m.tool.executable, "bin/pc-server");
    assert_eq!(m.server.unwrap().port, 3030);
    assert_eq!(m.actions.len(), 2);
    let (name, play) = m.actions.iter().find(|a| a.0 == "play").unwrap();
    assert_eq!(name, "play");
    assert_eq!(play.description, "Plays music");
    assert_eq!(play.arguments.len(), 2);
    let mode = &play.arguments.iter().find(|a| a.0 == "mode").unwrap().1;
    assert_eq!(mode.variants.as_ref().unwrap(), &vec!["loud".to_string(), "quiet".to_string()]);
    assert!(mode.optional);
    let author = &play.arguments.iter().find(|a| a.0 == "author").unwrap().1;
    assert!(author.variants.is_none());
    assert_eq!(play.examples.len(), 1);
    assert_eq!(play.examples[0].0, "play geoxor");
    assert_eq!(play.examples[0].1[0].0, "author");
}

#[test]
fn manifest_without_server_has_none() {
    let m = Manifest::parse(&manifest_text("pc", false, None)).unwrap();
    assert!(m.server.is_none());
    assert!(!m.tool.enable);
}

#[test]
fn manifest_that_does_not_fit_is_refused() {
    assert!(Manifest::parse("this is = not toml [").is_none());
    assert!(Manifest::parse("").is_none());
    assert!(Manifest::parse("[tool]\nenable = true\nname = \"x\"\n[actions]\n").is_none());
    assert!(Manifest::parse("[tool]\nenable = 1\nname = \"x\"\nexec = \"x\"\n[actions]\n").is_none());
    let bad_port = "[tool]\nenable = true\nname = \"x\"\nexec = \"x\"\n[server]\nport = 70000\n[actions]\n";
    assert!(Manifest::parse(bad_port).is_none());
    let negative = "[tool]\nenable = true\nname = \"x\"\nexec = \"x\"\n[server]\nport = -1\n[actions]\n";
    assert!(Manifest::parse(negative).is_none());
    let fine = "[tool]\nenable = true\nname = \"x\"\nexec = \"x\"\n[server]\nport = 65535\n[actions]\n";
    assert_eq!(Manifest::parse(fine).unwrap().server.unwrap().port, 65535);
}

#[test]
fn manifest_decodes_what_was_parsed() {
    let doc = parse_json(r#"{"tool":{"enable":true,"name":"t","exec":"t"},"actions":{}}"#).unwrap();
    let m = Manifest::decode(&doc).unwrap();
    assert_eq!(m.tool.name, "t");
    assert!(m.actions.is_empty());
}

#[test]
fn start_of_an_unreadable_directory_is_not_ready() {
    assert!(matches!(Tool::run(None, &Tools::new()), StartDecision::NotReady));
    assert!(matches!(Tool::run(Some("garbage"), &Tools::new()), StartDecision::NotReady));
}

#[test]
fn start_of_a_disabled_tool_clears_its_port() {
    let text = manifest_text("pc", false, Some(3030));
    assert!(matches!(Tool::run(Some(&text), &Tools::new()), StartDecision::Disabled(Some(3030))));
    let text = manifest_text("pc", false, None);
    assert!(matches!(Tool::run(Some(&text), &Tools::new()), StartDecision::Disabled(None)));
}

#[test]
fn start_writes_docs_examples_and_staged_name() {
    let l = launch("pc", Some(3030));
    assert_eq!(l.staged_name, "ovsy-pc-server");
    assert_eq!(l.docs.len(), 1);
    let doc = &l.docs[0];
    assert!(doc.starts_with("* \"pc/play\":\\n  * description: Plays music\\n  * arguments: "));
    assert!(doc.contains("    * author: format string"));
    assert!(doc.contains("    * mode: format string, variants [\"loud\", \"quiet\"], optional"));
    assert!(doc.ends_with(
        "\\n  * examples:     * query: \"play geoxor\", result: [[\"pc/play\", {\"author\":\"geoxor\"}]]"
    ));
    assert_eq!(
        l.examples,
        vec!["    * query: \"play geoxor\", result: [[\"pc/play\", {\"author\":\"geoxor\"}]]".to_string()]
    );
}

#[test]
fn staged_name_falls_back_to_the_tool_name() {
    let text = "[tool]\nenable = true\nname = \"x\"\nexec = \"bin/\"\n[actions]\n";
    match Tool::run(Some(text), &Tools::new()) {
        StartDecision::Launch(l) => assert_eq!(l.staged_name, "ovsy-x"),
        other => panic!("no launch: {other:?}"),
    }
    let text = "[tool]\nenable = true\nname = \"x\"\nexec = \"run.sh\"\n[actions]\n";
    match Tool::run(Some(text), &Tools::new()) {
        StartDecision::Launch(l) => assert_eq!(l.staged_name, "ovsy-run.sh"),
        other => panic!("no launch: {other:?}"),
    }
}

#[test]
fn second_start_is_a_no_op() {
    let text = manifest_text("pc", true, Some(3030));
    let mut tools = Tools::new();
    let first = match Tool::run(Some(&text), &tools) {
        StartDecision::Launch(l) => l,
        other => panic!("no launch: {other:?}"),
    };
    tools.add(first.finish("/tools/pc".to_string(), Some(10), Some(20), None));
    assert_eq!(tools.len(), 1);
    assert!(matches!(Tool::run(Some(&text), &tools), StartDecision::AlreadyRunning));
    assert!(matches!(Tool::run(Some(&text), &tools), StartDecision::AlreadyRunning));
    assert_eq!(tools.len(), 1);
    assert_eq!(tools.get("pc").unwrap().last_update, Some(20));
}

#[test]
fn finish_records_the_newest_change() {
    let t = launch("pc", None).finish("/d".to_string(), Some(5), Some(3), Some("/log".to_string()));
    assert_eq!(t.last_update, Some(5));
    assert_eq!(t.dir, "/d");
    assert_eq!(t.trace.as_deref(), Some("/log"));
    assert_eq!(freshness(None, Some(3)), Some(3));
    assert_eq!(freshness(Some(4), None), Some(4));
    assert_eq!(freshness(Some(4), Some(9)), Some(9));
    assert_eq!(freshness(None, None), None);
}

#[test]
fn staging_and_spawning_follow_what_was_seen() {
    assert!(needs_copy(10, None));
    assert!(needs_copy(10, Some(9)));
    assert!(!needs_copy(10, Some(10)));
    assert!(!needs_copy(10, Some(11)));
    let server = Manifest::parse(&manifest_text("pc", true, Some(1))).unwrap().server;
    assert!(needs_spawn(server, false));
    assert!(!needs_spawn(server, true));
    assert!(!needs_spawn(None, false));
}

fn seen(text: Option<String>, manifest_mtime: Option<u64>, exec_mtime: Option<u64>) -> Observation {
    Observation { manifest: text, manifest_mtime, exec_mtime }
}

#[test]
fn check_decides_by_manifest_and_change_times() {
    let t = tool("pc", Some(3030), 100);
    let text = manifest_text("pc", true, Some(3030));
    assert_eq!(t.check(&seen(None, None, None)), CheckDecision::Stop);
    assert_eq!(t.check(&seen(Some("broken [".to_string()), Some(500), None)), CheckDecision::Stop);
    let disabled = manifest_text("pc", false, Some(3030));
    assert_eq!(t.check(&seen(Some(disabled), Some(100), Some(100))), CheckDecision::Stop);
    assert_eq!(t.check(&seen(Some(text.clone()), Some(100), Some(100))), CheckDecision::Keep);
    assert_eq!(t.check(&seen(Some(text.clone()), Some(99), None)), CheckDecision::Keep);
    assert_eq!(t.check(&seen(Some(text.clone()), Some(100), Some(101))), CheckDecision::Restart);
    assert_eq!(t.check(&seen(Some(text.clone()), Some(101), None)), CheckDecision::Restart);
    assert_eq!(t.check(&seen(Some(text), None, None)), CheckDecision::Keep);
}

#[test]
fn stop_names_the_port_to_clear() {
    assert_eq!(tool("pc", Some(3030), 1).stop(), Some(3030));
    assert_eq!(tool("pc", None, 1).stop(), None);
}

#[test]
fn registry_keeps_one_tool_per_name() {
    let mut tools = Tools::new();
    assert!(!tools.has("pc"));
    assert!(tools.get("pc").is_none());
    tools.add(tool("pc", Some(1), 10));
    tools.add(tool("home", None, 20));
    tools.add(tool("pc", Some(2), 30));
    assert_eq!(tools.len(), 2);
    assert!(tools.has("pc"));
    assert!(tools.has("home"));
    assert_eq!(tools.get("pc").unwrap().last_update, Some(30));
    assert_eq!(tools.at(0).unwrap().manifest.tool.name, "pc");
    assert_eq!(tools.at(1).unwrap().manifest.tool.name, "home");
    assert!(tools.at(2).is_none());
    assert_eq!(tools.docs().len(), 2);
    assert!(tools.docs()[0].starts_with("* \"pc/play\""));
    assert!(tools.docs()[1].starts_with("* \"home/play\""));
    assert_eq!(tools.exmpls().len(), 2);

    let gone = tools.stop("pc").unwrap();
    assert_eq!(gone.manifest.server.unwrap().port, 2);
    assert!(!tools.has("pc"));
    assert!(tools.stop("pc").is_none());
    assert_eq!(tools.len(), 1);
    assert_eq!(tools.docs().len(), 1);
}

fn names(commands: &[Command]) -> Vec<String> {
    commands
        .iter()
        .map(|c| match c {
            Command::Stop(t) => format!("stop {}", t.manifest.tool.name),
            Command::Start(d) => format!("start {d}"),
        })
        .collect()
}

#[test]
fn tick_stops_a_disabled_tool_and_leaves_it_stopped() {
    let mut tools = Tools::new();
    tools.add(tool("pc", Some(1), 10));
    tools.add(tool("home", Some(2), 10));
    let sights = vec![
        seen(Some(manifest_text("pc", false, Some(1))), Some(50), None),
        seen(Some(manifest_text("home", true, Some(2))), Some(10), None),
    ];
    let dirs = vec![("/tools/pc".to_string(), true), ("/tools/home".to_string(), true)];
    let commands = tools.manage(&sights, &dirs);
    assert_eq!(names(&commands), vec!["stop pc"]);
    assert!(!tools.has("pc"));
    assert!(tools.has("home"));
    assert!(matches!(
        Tool::run(Some(&manifest_text("pc", false, Some(1))), &tools),
        StartDecision::Disabled(Some(1))
    ));
}

#[test]
fn tick_restarts_exactly_the_outdated_tool() {
    let mut tools = Tools::new();
    tools.add(tool("a", Some(1), 10));
    tools.add(tool("b", Some(2), 10));
    tools.add(tool("c", Some(3), 10));
    let sights = vec![
        seen(Some(manifest_text("a", true, Some(1))), Some(10), Some(10)),
        seen(Some(manifest_text("b", true, Some(2))), Some(10), Some(11)),
        seen(Some(manifest_text("c", true, Some(3))), Some(9), Some(10)),
    ];
    let dirs = vec![
        ("/tools/a".to_string(), true),
        ("/tools/b".to_string(), true),
        ("/tools/c".to_string(), true),
    ];
    let commands = tools.manage(&sights, &dirs);
    assert_eq!(names(&commands), vec!["stop b", "start /tools/b"]);
    assert!(tools.has("a"));
    assert!(!tools.has("b"));
    assert!(tools.has("c"));
    assert_eq!(tools.get("a").unwrap().last_update, Some(10));
    assert_eq!(tools.get("c").unwrap().manifest.server.unwrap().port, 3);
}

#[test]
fn tick_starts_directories_that_hold_no_registered_tool() {
    let mut tools = Tools::new();
    tools.add(tool("a", None, 10));
    let sights = vec![seen(Some(manifest_text("a", true, None)), Some(10), None)];
    let dirs = vec![
        ("/tools/new".to_string(), true),
        ("/tools/a".to_string(), true),
        ("/tools/file.txt".to_string(), false),
        ("/tools/other".to_string(), true),
    ];
    let commands = tools.manage(&sights, &dirs);
    assert_eq!(names(&commands), vec!["start /tools/new", "start /tools/other"]);
    assert_eq!(tools.len(), 1);
}

#[test]
fn tick_keeps_a_tool_of_which_nothing_was_seen() {
    let mut tools = Tools::new();
    tools.add(tool("a", None, 10));
    tools.add(tool("b", None, 10));
    let sights = vec![seen(None, None, None)];
    let commands = tools.manage(&sights, &Vec::new());
    assert_eq!(names(&commands), vec!["stop a"]);
    assert!(tools.has("b"));
}

#[test]
fn listing_of_port_holders_is_read() {
    let output = "COMMAND     PID USER   FD   TYPE DEVICE SIZE/OFF NODE NAME\n\
ovsy-pc    4242 me     9u  IPv4 123456      0t0  TCP localhost:3030 (LISTEN)\n\
firefox    5151 me   101u  IPv4 123457      0t0  TCP localhost:50000->localhost:3030 (ESTABLISHED)\n\
ovsy-pc-se 4343 me    10u  IPv4 123458      0t0  TCP localhost:3030 (LISTEN)\r\n\
ovsy-init     1 root   3u  IPv4 1           0t0  TCP *:3030 (LISTEN)\n\
\n\
   ovsy-x\t+77 me\n\
ovsy-bad    12x me\n\
ovsy-only\n";
    assert_eq!(listeners(output), vec![4242, 4343, 77]);
}

#[test]
fn listing_without_holders_is_empty() {
    assert_eq!(listeners(""), Vec::<i32>::new());
    assert_eq!(listeners("COMMAND PID USER"), Vec::<i32>::new());
    assert_eq!(listeners("COMMAND PID USER\n"), Vec::<i32>::new());
    assert_eq!(listeners("ovsy-pc 4242\n"), Vec::<i32>::new());
    assert_eq!(listeners("HEAD\novsy-pc 2147483647\novsy-pc 2147483648\novsy-pc 0\novsy-pc -5"), vec![2147483647]);
}

#[test]
fn signals_escalate_after_a_failed_request() {
    assert_eq!(escalation(true), None);
    assert_eq!(escalation(false), Some(Signal::Kill));
    assert_eq!(kill_arguments(Signal::Terminate, 4242), vec!["-TERM", "4242"]);
    assert_eq!(kill_arguments(Signal::Kill, 2), vec!["-9", "2"]);
    assert_eq!(lsof_arguments(3030), vec!["-i", "TCP:3030", "-i", "UDP:3030"]);
    assert_eq!(lsof_arguments(0), vec!["-i", "TCP:0", "-i", "UDP:0"]);
}

#[test]
fn newest_log_file_in_the_window_is_followed() {
    let files = vec![
        ("old.log".to_string(), 90),
        ("a.log".to_string(), 103),
        ("b.log".to_string(), 104),
        ("c.log".to_string(), 104),
        ("future.log".to_string(), 106),
    ];
    assert_eq!(Tool::find_recent_file(&files, 100, 5).as_deref(), Some("b.log"));
    assert_eq!(Tool::find_recent_file(&files, 100, 3).as_deref(), Some("a.log"));
    assert_eq!(Tool::find_recent_file(&files, 100, 2), None);
    assert_eq!(Tool::find_recent_file(&files, 95, 5).as_deref(), Some("old.log"));
    assert_eq!(Tool::find_recent_file(&Vec::new(), 100, 5), None);
    let edge = vec![("x".to_string(), 0), ("y".to_string(), u64::MAX)];
    assert_eq!(Tool::find_recent_file(&edge, 2, 5).as_deref(), Some("x"));
    assert_eq!(Tool::find_recent_file(&edge, u64::MAX - 1, 5).as_deref(), Some("y"));
}

#[test]
fn log_poll_gives_up_after_the_last_look() {
    assert!(matches!(Tool::poll(Some("f".to_string()), 1), Poll::Attach(p) if p == "f"));
    assert!(matches!(Tool::poll(None, LOG_POLL_ATTEMPTS), Poll::Retry(9)));
    assert!(matches!(Tool::poll(None, 2), Poll::Retry(1)));
    assert!(matches!(Tool::poll(None, 1), Poll::GiveUp));
    assert!(matches!(Tool::poll(None, 0), Poll::GiveUp));
    let mut left = LOG_POLL_ATTEMPTS;
    let mut looks = 1;
    while let Poll::Retry(n) = Tool::poll(None, left) {
        left = n;
        looks += 1;
    }
    assert_eq!(looks, 10);
}

#[test]
fn call_of_an_unknown_tool_is_refused() {
    let tools = Tools::new();
    let payload = parse_json("{}").unwrap();
    match handle_tool(&tools, "pc", "play", &payload) {
        Err(Error::UnexpectToolName(n)) => assert_eq!(n, "pc"),
        other => panic!("unexpected: {other:?}"),
    }
}

#[test]
fn call_of_a_server_tool_goes_over_http() {
    let mut tools = Tools::new();
    tools.add(tool("pc", Some(3030), 1));
    let payload = parse_json(r#"{"author": "geoxor", "n": 2}"#).unwrap();
    match handle_tool(&tools, "pc", "play", &payload).unwrap() {
        CallPlan::Http { url, body } => {
            assert_eq!(url, "http://127.0.0.1:3030/play");
            assert_eq!(body, r#"{"author":"geoxor","n":2}"#);
        }
        other => panic!("unexpected: {other:?}"),
    }
    assert_eq!(write_call_url(7878, "pc", "play"), "http://127.0.0.1:7878/call/pc/play");
}

#[test]
fn call_of_a_plain_tool_runs_the_staged_executable() {
    let mut tools = Tools::new();
    tools.add(tool("pc", None, 1));
    let payload = parse_json(r#"{"a":1,"b":["x","y"]}"#).unwrap();
    match handle_tool(&tools, "pc", "play", &payload).unwrap() {
        CallPlan::Exec { dir, program, args } => {
            assert_eq!(dir, "/tools/pc");
            assert_eq!(program, "ovsy-pc-server");
            assert_eq!(args, vec!["a=1", "b=x,y"]);
        }
        other => panic!("unexpected: {other:?}"),
    }
}

#[test]
fn outcome_of_a_call_is_judged() {
    assert!(check_status(200, String::new()).is_ok());
    assert!(check_status(204, String::new()).is_ok());
    assert!(check_status(299, String::new()).is_ok());
    for status in [199u16, 300, 404, 500] {
        match check_status(status, "boom".to_string()) {
            Err(Error::ToolBadStatus(s, body)) => {
                assert_eq!(s, status);
                assert_eq!(body, "boom");
            }
            other => panic!("unexpected: {other:?}"),
        }
    }
    assert!(check_exit("pc".to_string(), true, "warn".to_string()).is_ok());
    match check_exit("pc".to_string(), false, "bad".to_string()) {
        Err(Error::ToolExecFailed(n, e)) => {
            assert_eq!(n, "pc");
            assert_eq!(e, "bad");
        }
        other => panic!("unexpected: {other:?}"),
    }
}

#[test]
fn loading_tells_an_unreadable_file_from_a_broken_one() {
    match Manifest::load("/t/Ovsy.toml", Err("permission denied".to_string())) {
        Err(Error::ManifestRead(path, cause)) => {
            assert_eq!(path, "/t/Ovsy.toml");
            assert_eq!(cause, "permission denied");
        }
        other => panic!("unexpected: {other:?}"),
    }
    match Manifest::load("/t/Ovsy.toml", Ok("= broken".to_string())) {
        Err(Error::ManifestParse(path, cause)) => {
            assert_eq!(path, "/t/Ovsy.toml");
            assert!(cause.starts_with("TOML parse error at line 1, column 1"), "{cause}");
        }
        other => panic!("unexpected: {other:?}"),
    }
    match Manifest::load("/t/Ovsy.toml", Ok("[tool]\nname = \"x\"\n".to_string())) {
        Err(Error::ManifestParse(_, cause)) => assert_eq!(cause, "the document does not fit the schema"),
        other => panic!("unexpected: {other:?}"),
    }
    let m = Manifest::load("/t/Ovsy.toml", Ok(manifest_text("pc", true, None))).unwrap();
    assert_eq!(m.tool.name, "pc");
}

#[test]
fn only_a_busy_file_is_passed_over() {
    assert!(tolerated(Some(32)));
    assert!(!tolerated(Some(2)));
    assert!(!tolerated(None));
}
