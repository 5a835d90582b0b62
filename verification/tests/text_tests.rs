use ovsy::app_data;
use ovsy::cycle::Chunk;
use ovsy::dispatch::{format_arguments, to_cmd_arg};
use ovsy::error::Error;
use ovsy::json::{find_field, parse_json, parse_toml, render, render_json, JsonValue};
use ovsy::session::SessionLogger;
use ovsy::settings::{LMKind, Settings, SLMSettings, ToolsSettings};
use ovsy::text::{
    chars_of, glue, decimal_string, find_char, is_space_char, join_strings, matches_at,
    next_token, parse_digits, replace_str, same_text, string_of, trim_str,
};
use ovsy::tokens::{count_tokens, cut_context_lines};

#[test]
fn payload_becomes_one_argument_per_key() {
    let payload = parse_json(r#"{"a":1,"b":["x","y"],"c":{"k":1}}"#).unwrap();
    let args = format_arguments(&payload);
    assert_eq!(args.len(), 3);
    for expected in ["a=1", "b=x,y", "c={\"k\":1}"] {
        assert_eq!(args.iter().filter(|a| *a == expected).count(), 1, "{expected}");
    }
}

#[test]
fn payload_that_is_no_object_gives_no_arguments() {
    for text in ["[1,2]", "\"x\"", "null", "3"] {
        assert!(format_arguments(&parse_json(text).unwrap()).is_empty());
    }
    assert!(format_arguments(&parse_json("{}").unwrap()).is_empty());
}

#[test]
fn values_are_formatted_as_arguments() {
    let cases = [
        ("null", "null"),
        ("true", "true"),
        ("false", "false"),
        ("12", "12"),
        ("-3", "-3"),
        ("1.5", "1.5"),
        ("\"plain text\"", "plain text"),
        ("\"\"", ""),
        ("[]", ""),
        ("[1]", "1"),
        ("[1,\"a\",null,true]", "1,a,null,true"),
        ("[[1,2],[3]]", "1,2,3"),
        ("[{\"k\":[1,2]},\"z\"]", "{\"k\":[1,2]},z"),
        ("{\"k\":\"v\",\"n\":null}", "{\"k\":\"v\",\"n\":null}"),
        ("{}", "{}"),
    ];
    for (json, expected) in cases {
        assert_eq!(to_cmd_arg(&parse_json(json).unwrap()), expected, "{json}");
    }
}

#[test]
fn object_with_a_malformed_number_has_no_text() {
    let broken = JsonValue::Object(vec![("n".to_string(), JsonValue::Number("12x".to_string()))]);
    assert!(render_json(&broken).is_none());
    assert_eq!(render(&broken), "");
    assert_eq!(to_cmd_arg(&broken), "");
    assert_eq!(to_cmd_arg(&JsonValue::Number("12x".to_string())), "12x");
}

#[test]
fn json_is_parsed_into_values() {
    let doc = parse_json(r#" {"s":"a\"b","n":-1.5e2,"l":[true,null],"o":{"x":1}} "#).unwrap();
    let fields = match &doc {
        JsonValue::Object(f) => f,
        other => panic!("no object: {other:?}"),
    };
    assert!(matches!(find_field(fields, "s"), Some(JsonValue::Str(s)) if s == "a\"b"));
    assert!(matches!(find_field(fields, "n"), Some(JsonValue::Number(n)) if n == "-150.0"));
    assert!(matches!(find_field(fields, "l"), Some(JsonValue::Array(l)) if l.len() == 2));
    assert!(matches!(find_field(fields, "o"), Some(JsonValue::Object(o)) if o.len() == 1));
    assert!(find_field(fields, "missing").is_none());
    assert!(parse_json("{").is_none());
    assert!(parse_json("").is_none());
    assert_eq!(render_json(&doc).unwrap(), r#"{"l":[true,null],"n":-150.0,"o":{"x":1},"s":"a\"b"}"#);
    let copy = doc.clone();
    assert_eq!(render_json(&copy), render_json(&doc));
}

#[test]
fn toml_is_parsed_into_values() {
    let doc = parse_toml("a = 1\nb = \"x\"\nc = [true, 2.5]\nd = 1979-05-27\n[t]\nk = -7\n").unwrap();
    let fields = match &doc {
        JsonValue::Object(f) => f,
        other => panic!("no object: {other:?}"),
    };
    assert!(matches!(find_field(fields, "a"), Some(JsonValue::Number(n)) if n == "1"));
    assert!(matches!(find_field(fields, "b"), Some(JsonValue::Str(s)) if s == "x"));
    assert!(matches!(find_field(fields, "c"), Some(JsonValue::Array(l)) if l.len() == 2));
    assert!(matches!(find_field(fields, "d"), Some(JsonValue::Str(s)) if s == "1979-05-27"));
    match find_field(fields, "t") {
        Some(JsonValue::Object(t)) => {
            assert!(matches!(find_field(t, "k"), Some(JsonValue::Number(n)) if n == "-7"))
        }
        other => panic!("no table: {other:?}"),
    }
    let report = parse_toml("a = ").unwrap_err();
    assert!(report.starts_with("TOML parse error at line 1, column 5"), "{report}");
    assert!(matches!(parse_toml(""), Ok(JsonValue::Object(f)) if f.is_empty()));
}

#[test]
fn tokens_are_counted() {
    assert_eq!(count_tokens(""), Some(0));
    assert_eq!(count_tokens("hello world"), Some(2));
    assert_eq!(count_tokens("hello"), Some(1));
    assert_eq!(count_tokens("<|endoftext|>"), Some(1));
}

#[test]
fn history_is_cut_from_the_oldest_end() {
    let lines: Vec<String> = ["hello world", "hello", "hello world hello", "hello"]
        .iter()
        .map(|s| s.to_string())
        .collect();
    assert_eq!(cut_context_lines(&lines, 100), "hello world\nhello\nhello world hello\nhello");
    assert_eq!(cut_context_lines(&lines, 7), "hello world\nhello\nhello world hello\nhello");
    assert_eq!(cut_context_lines(&lines, 6), "hello\nhello world hello\nhello");
    assert_eq!(cut_context_lines(&lines, 4), "hello world hello\nhello");
    assert_eq!(cut_context_lines(&lines, 3), "hello");
    assert_eq!(cut_context_lines(&lines, 1), "hello");
    assert_eq!(cut_context_lines(&lines, 0), "");
    assert_eq!(cut_context_lines(&Vec::new(), 10), "");
}

#[test]
fn history_stops_at_a_line_that_does_not_fit() {
    let lines: Vec<String> = ["hello", "hello world hello world hello", "hello"]
        .iter()
        .map(|s| s.to_string())
        .collect();
    assert_eq!(count_tokens(&lines[1]), Some(5));
    assert_eq!(cut_context_lines(&lines, 2), "hello");
    assert_eq!(cut_context_lines(&lines, 6), "hello world hello world hello\nhello");
    assert_eq!(cut_context_lines(&lines, 7), "hello\nhello world hello world hello\nhello");
}

#[test]
fn trimming_agrees_with_the_standard_library() {
    for s in ["", " ", "a", "  a b  ", "\t\n x \r\n", "\u{a0}x\u{3000}", "\u{200b}x", "x\u{85}", "\u{2028}\u{2029}y\u{205f}"] {
        assert_eq!(trim_str(s), s.trim(), "{s:?}");
    }
    for code in 0u32..0x3100 {
        if let Some(c) = char::from_u32(code) {
            assert_eq!(is_space_char(c), c.is_whitespace(), "{code:x}");
        }
    }
}

#[test]
fn replacing_agrees_with_the_standard_library() {
    let cases = [
        ("", "a", "b"),
        ("aaa", "a", "b"),
        ("aaa", "aa", "b"),
        ("abcabc", "bc", ""),
        ("abcabc", "abc", "abcabc"),
        ("a\nb\n", "\n", "\\n"),
        ("{X}{X}", "{X}", "{X}{X}"),
        ("ababa", "aba", "x"),
        ("héllo wörld", "ö", "oe"),
        ("abc", "abcd", "x"),
    ];
    for (s, pat, rep) in cases {
        assert_eq!(replace_str(s, pat, rep), s.replace(pat, rep), "{s:?} {pat:?} {rep:?}");
    }
    assert_eq!(replace_str("abc", "", "x"), "abc");
}

#[test]
fn numbers_are_written_and_read_in_decimal() {
    for n in [0u64, 1, 9, 10, 11, 99, 100, 65535, 1_000_000_007, u64::MAX] {
        let text = decimal_string(n);
        assert_eq!(text, n.to_string());
        let cs: Vec<char> = text.chars().collect();
        assert_eq!(parse_digits(&cs, u64::MAX), Some(n));
    }
    let cs = |s: &str| s.chars().collect::<Vec<char>>();
    assert_eq!(parse_digits(&cs("007"), 10), Some(7));
    assert_eq!(parse_digits(&cs("10"), 10), Some(10));
    assert_eq!(parse_digits(&cs("11"), 10), None);
    assert_eq!(parse_digits(&cs(""), 10), None);
    assert_eq!(parse_digits(&cs("1a"), 10), None);
    assert_eq!(parse_digits(&cs("-1"), 10), None);
    assert_eq!(parse_digits(&cs("18446744073709551615"), u64::MAX), Some(u64::MAX));
    assert_eq!(parse_digits(&cs("18446744073709551616"), u64::MAX), None);
    assert_eq!(parse_digits(&cs("99999999999999999999999"), u64::MAX), None);
    assert_eq!(parse_digits(&cs("٣"), 10), None);
}

#[test]
fn small_text_helpers_work() {
    assert_eq!(chars_of("añb"), vec!['a', 'ñ', 'b']);
    assert_eq!(string_of(&['x', 'ÿ']), "xÿ");
    assert_eq!(glue("ab", "cd"), "abcd");
    assert!(same_text("äb", "äb"));
    assert!(!same_text("ab", "abc"));
    assert!(!same_text("ab", "aB"));
    let cs = chars_of("a/b/c");
    assert_eq!(find_char(&cs, '/', 0), Some(1));
    assert_eq!(find_char(&cs, '/', 2), Some(3));
    assert_eq!(find_char(&cs, '/', 4), None);
    assert_eq!(find_char(&cs, '/', 5), None);
    assert!(matches_at(&cs, 1, &['/', 'b']));
    assert!(!matches_at(&cs, 1, &['/', 'c']));
    assert!(!matches_at(&cs, 4, &['c', 'd']));
    assert!(matches_at(&cs, 5, &[]));
    let line = chars_of("  one\ttwo ");
    assert_eq!(next_token(&line, 0), (2, 5));
    assert_eq!(next_token(&line, 5), (6, 9));
    assert_eq!(next_token(&line, 9), (10, 10));
    let parts = vec!["a".to_string(), "".to_string(), "c".to_string()];
    assert_eq!(join_strings(&parts, ", "), "a, , c");
    assert_eq!(join_strings(&Vec::new(), ", "), "");
    assert_eq!(join_strings(&vec!["x".to_string()], ", "), "x");
    assert_eq!(app_data("/home/me"), "/home/me/.config/ovsy");
}

#[test]
fn failures_have_their_texts() {
    let s = |t: &str| t.to_string();
    assert_eq!(Error::Io(s("disk full")).message(), "disk full");
    assert_eq!(
        Error::ToolsDirRead(s("/t"), s("denied")).message(),
        "Failed read tools dir \"/t\": denied"
    );
    assert_eq!(
        Error::ManifestRead(s("a \"b\"\\c"), s("gone")).message(),
        "Failed read manifest \"a \\\"b\\\"\\\\c\": gone"
    );
    assert_eq!(
        Error::ManifestParse(s("/t/Ovsy.toml"), s("line 1")).message(),
        "Failed parse manifest \"/t/Ovsy.toml\": line 1"
    );
    assert_eq!(
        Error::InvalidToolNameFormat(s("foo")).message(),
        "Invalid tool call name 'foo', expected format: '{name}/{action}'."
    );
    assert_eq!(Error::UnexpectToolName(s("pc")).message(), "Tool named as 'pc' is not found.");
    assert_eq!(
        Error::FailedRunTool(s("pc"), s("no such file")).message(),
        "Failed to start tool server: pc"
    );
    assert_eq!(
        Error::ToolBadStatus(500, s("boom")).message(),
        "Tool handled with status '500': boom"
    );
    assert_eq!(Error::ToolExecFailed(s("pc"), s("bad")).message(), "Tool exec 'pc' failed: bad");
    assert_eq!(Error::ClientDisconnected.message(), "Client disconnected, aborting tool chain");
    assert_eq!(Error::RecursionLimit.message(), "Recursion limit exceeded");
    assert_eq!(Error::InvalidResponseFormat.message(), "Invalid model response format");
}

#[test]
fn transcript_has_its_file_name_head_and_tail() {
    assert_eq!(
        SessionLogger::file_name("2024-01-02T03:04:05.123456Z"),
        "2024-01-02_03-04-05.123456.log"
    );
    let (mut log, head) = SessionLogger::new("root".to_string(), "play\ngeoxor", "2024-01-02T03:04:05.123456Z", 1000);
    assert_eq!(head, "Timestamp: 2024-01-02T03:04:05.123456Z\nQuery: play\\ngeoxor");
    assert_eq!(log.session_id, "root");
    assert_eq!(log.write_tool_calls("[[\"pc/play\",\n{}]]"), "\nTool calls: [[\"pc/play\",\\n{}]]\n\n");
    assert_eq!(log.write(&Chunk::Data("out\n".to_string())), "out\n");
    assert_eq!(log.write(&Chunk::Failure("bad".to_string())), "[Error]: bad");
    assert_eq!(log.results(), vec!["out\n", "[Error]: bad"]);
    assert_eq!(log.exec_time(1250), 250);
    assert_eq!(log.exec_time(999), 0);
    assert_eq!(log.finish(4000), "\n\nDuration: 3000 ms\n[EOF]");
}

const SETTINGS: &str = r#"
[server]
port = 8000

[tools]
dirs = ["/opt/tools/pc", "/opt/tools/home"]
check_timeout = 3000
trace_timeout = 250
autocheck = false
recurs_limit = 4

[lmstudio]
port = 1234
exec = "/usr/bin/lms"

[slm]
kind = "lm-studio"
token = "SECRET-REDACTED"
model = "small"
context = 2048

[llm]
kind = "lm-studio"
token = ""
model = "large"
context = 4294967295
"#;

#[test]
fn settings_are_read_from_toml() {
    let s = Settings::read(SETTINGS).unwrap();
    assert_eq!(s.server.port, 8000);
    assert_eq!(s.tools.dirs, vec!["/opt/tools/pc", "/opt/tools/home"]);
    assert_eq!(s.tools.check_timeout, 3000);
    assert_eq!(s.tools.trace_timeout, 250);
    assert!(!s.tools.autocheck);
    assert_eq!(s.tools.recurs_limit, 4);
    assert_eq!(s.lmstudio.port, 1234);
    assert_eq!(s.lmstudio.executable, "/usr/bin/lms");
    assert_eq!(s.slm.kind, LMKind::LMStudio);
    assert_eq!(s.slm.model, "small");
    assert_eq!(s.slm.context, 2048);
    assert_eq!(s.llm.model, "large");
    assert_eq!(s.llm.context, u32::MAX);
    let copy = s.get();
    assert_eq!(copy.tools.dirs, s.tools.dirs);
    assert_eq!(copy.llm.context, s.llm.context);
}

#[test]
fn settings_that_do_not_fit_are_refused() {
    assert!(Settings::read("").is_none());
    assert!(Settings::read("[server]\nport = 1\n").is_none());
    assert!(Settings::read(&SETTINGS.replace("lm-studio", "other")).is_none());
    assert!(Settings::read(&SETTINGS.replace("4294967295", "4294967296")).is_none());
    assert!(Settings::read(&SETTINGS.replace("autocheck = false", "autocheck = 0")).is_none());
    assert!(Settings::init(Some("")).is_none());
}

#[test]
fn settings_default_without_a_file() {
    let s = Settings::init(None).unwrap();
    assert_eq!(s.server.port, 7878);
    assert_eq!(s.tools.dirs, vec!["tools"]);
    assert_eq!(s.tools.check_timeout, 2500);
    assert!(s.tools.autocheck);
    assert_eq!(s.tools.recurs_limit, 0);
    assert_eq!(s.lmstudio.port, 9090);
    assert_eq!(s.lmstudio.executable, "/opt/lmstudio/LMStudio.AppImage");
    assert_eq!(s.slm.model, "qwen2.5-coder-3b-instruct");
    assert_eq!(s.slm.context, 4096);
    assert_eq!(s.llm.model, "qwen/qwen3-vl-8b");
    assert_eq!(s.llm.context, 8192);
    assert_eq!(SLMSettings::default().token, "");
    assert_eq!(ToolsSettings::default().trace_timeout, 500);
    assert_eq!(Settings::init(Some(SETTINGS)).unwrap().server.port, 8000);
}

#[test]
fn settings_are_updated_only_by_a_fitting_file() {
    let mut s = Settings::default();
    assert!(!s.update("broken"));
    assert_eq!(s.server.port, 7878);
    assert!(s.get_updated("broken").is_none());
    assert!(s.update(SETTINGS));
    assert_eq!(s.server.port, 8000);
    s.lock().server.port = 1;
    assert_eq!(s.server.port, 1);
    let fresh = s.get_updated(SETTINGS).unwrap();
    assert_eq!(fresh.server.port, 8000);
    assert_eq!(s.server.port, 8000);
}
