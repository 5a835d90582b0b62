//! One query's way through the model and the tools, step by step.

use crate::error::{Error, ErrorModel};
use crate::json::{
    clone_fields, fields_view, find_field, json_document, lookup, parse_json, JsonModel,
    JsonValue,
};
use crate::text::{
    chars_of, find_char, join, join_strings, replace, replace_str, slice_chars, string_of,
    text_view, trim, trim_str, views,
};
use crate::tokens::{cut_context_lines, kept_lines};
use vstd::prelude::*;
use vstd::string::StringExecFns;

verus! {

/// The text in which every match of a regular expression is replaced, where
/// the expression compiles.
pub uninterp spec fn regex_replaced(pattern: Seq<char>, text: Seq<char>, rep: Seq<char>) -> Option<
    Seq<char>,
>;

/// `regex::Regex::new` and `Regex::replace_all`: the outcome depends on the
/// three texts alone and is what [`regex_replaced`] names; `None` where the
/// expression does not compile.
#[verifier::external_body]
fn regex_replace_all(pattern: &str, text: &str, rep: &str) -> (r: Option<String>)
    ensures
        r matches Some(s) ==> regex_replaced(pattern@, text@, rep@) == Some(s@),
        r is None ==> regex_replaced(pattern@, text@, rep@) is None,
{
    match regex::Regex::new(pattern) {
        Ok(re) => Some(re.replace_all(text, rep).into_owned()),
        Err(_) => None,
    }
}

/// The expression that matches a Markdown code fence at the start or at the
/// end of a model's answer.
pub open spec fn fence_pattern() -> Seq<char> {
    "^\\s*```(?:\\S+\\b)?|\\n```\\s*$"@
}

/// What is posted to the daemon: the query, and the session it belongs to.
#[derive(Debug)]
pub struct QueryData {
    pub query: String,
    pub session_id: String,
}

/// The query and the session that a posted document names: both are needed,
/// as strings.
pub open spec fn query_of(doc: JsonModel) -> Option<(Seq<char>, Seq<char>)> {
    match doc {
        JsonModel::Object(f) => match (lookup(f, "query"@), lookup(f, "session_id"@)) {
            (Some(JsonModel::Str(query)), Some(JsonModel::Str(session))) => Some((query, session)),
            _ => None,
        },
        _ => None,
    }
}

impl QueryData {
    /// Reads what was posted to the daemon.
    pub fn decode(doc: &JsonValue) -> (r: Option<QueryData>)
        ensures
            match r {
                Some(q) => query_of(doc@) == Some((q.query@, q.session_id@)),
                None => query_of(doc@) is None,
            },
    {
        match doc {
            JsonValue::Object(f) => {
                assert(doc@ == JsonModel::Object(fields_view(f@)));
                let query = match find_field(f, "query") {
                    Some(JsonValue::Str(q)) => q.clone(),
                    _ => { return None; },
                };
                let session_id = match find_field(f, "session_id") {
                    Some(JsonValue::Str(s)) => s.clone(),
                    _ => { return None; },
                };
                Some(QueryData { query, session_id })
            },
            _ => None,
        }
    }
}

/// A model's parsed decision: an optional tool call `name/action`, its
/// payload, and an optional follow-up query.
#[derive(Debug)]
pub struct LmResponse {
    pub tool: Option<String>,
    pub data: Vec<(String, JsonValue)>,
    pub query: Option<String>,
}

/// The model of an [`LmResponse`].
pub struct LmDecision {
    pub tool: Option<Seq<char>>,
    pub data: Seq<(Seq<char>, JsonModel)>,
    pub query: Option<Seq<char>>,
}

impl View for LmResponse {
    type V = LmDecision;

    open spec fn view(&self) -> LmDecision {
        LmDecision {
            tool: text_view(self.tool),
            data: fields_view(self.data@),
            query: text_view(self.query),
        }
    }
}

/// An optional text field of a decision: absent and `null` both stand for
/// none; anything but a string breaks the schema (the outer `None`).
pub open spec fn optional_text(v: Option<JsonModel>) -> Option<Option<Seq<char>>> {
    match v {
        None => Some(None),
        Some(JsonModel::Null) => Some(None),
        Some(JsonModel::Str(s)) => Some(Some(s)),
        Some(_) => None,
    }
}

/// The decision that a document holds, if it fits the schema: an object
/// whose `tool` and `query` are strings, `null` or absent, and whose `data`
/// is an object.
pub open spec fn decoded(doc: JsonModel) -> Option<LmDecision> {
    match doc {
        JsonModel::Object(fields) => match (
            optional_text(lookup(fields, "tool"@)),
            lookup(fields, "data"@),
            optional_text(lookup(fields, "query"@)),
        ) {
            (Some(tool), Some(JsonModel::Object(data)), Some(query)) => Some(
                LmDecision { tool, data, query },
            ),
            _ => None,
        },
        _ => None,
    }
}

/// The decision that a model's raw answer holds: code fences stripped, white
/// space trimmed, read as JSON, decoded by the schema.
pub open spec fn response_of(raw: Seq<char>) -> Option<LmDecision> {
    match regex_replaced(fence_pattern(), raw, ""@) {
        Some(stripped) => match json_document(trim(stripped)) {
            Some(doc) => decoded(doc),
            None => None,
        },
        None => None,
    }
}

/// Reads an optional text field of a decision.
pub(crate) fn optional_field(fields: &Vec<(String, JsonValue)>, key: &str) -> (r: Option<Option<String>>)
    ensures
        match r {
            Some(t) => optional_text(lookup(fields_view(fields@), key@)) == Some(text_view(t)),
            None => optional_text(lookup(fields_view(fields@), key@)) is None,
        },
{
    match find_field(fields, key) {
        None => Some(None),
        Some(JsonValue::Null) => Some(None),
        Some(JsonValue::Str(s)) => Some(Some(s.clone())),
        Some(_) => None,
    }
}

impl LmResponse {
    /// Decodes a document by the decision schema.
    pub fn decode(doc: &JsonValue) -> (r: Option<LmResponse>)
        ensures
            match r {
                Some(resp) => decoded(doc@) == Some(resp@),
                None => decoded(doc@) is None,
            },
    {
        match doc {
            JsonValue::Object(fields) => {
                assert(doc@ == JsonModel::Object(fields_view(fields@)));
                let tool = match optional_field(fields, "tool") {
                    Some(t) => t,
                    None => { return None; },
                };
                let data = match find_field(fields, "data") {
                    Some(JsonValue::Object(d)) => {
                        assert(lookup(fields_view(fields@), "data"@)
                            == Some(JsonModel::Object(fields_view(d@))));
                        clone_fields(d)
                    },
                    _ => { return None; },
                };
                let query = match optional_field(fields, "query") {
                    Some(q) => q,
                    None => { return None; },
                };
                Some(LmResponse { tool, data, query })
            },
            _ => None,
        }
    }
}

/// Reads a model's raw answer as a decision.
pub fn parse_response(raw: &str) -> (r: Result<LmResponse, Error>)
    ensures
        match r {
            Ok(resp) => response_of(raw@) == Some(resp@),
            Err(e) => response_of(raw@) is None && e@ == ErrorModel::InvalidResponseFormat,
        },
{
    let stripped = match regex_replace_all("^\\s*```(?:\\S+\\b)?|\\n```\\s*$", raw, "") {
        Some(s) => s,
        None => { return Err(Error::InvalidResponseFormat); },
    };
    let trimmed = trim_str(stripped.as_str());
    let doc = match parse_json(trimmed.as_str()) {
        Some(d) => d,
        None => { return Err(Error::InvalidResponseFormat); },
    };
    match LmResponse::decode(&doc) {
        Some(resp) => Ok(resp),
        None => Err(Error::InvalidResponseFormat),
    }
}

/// The prompt for the model: the template with the conversation so far in
/// the place of `{HISTORY}`, the tools' documentation in the place of
/// `{DOCS}` and their usage examples in the place of `{EXAMPLES}`.
pub open spec fn prompt_of(
    template: Seq<char>,
    history: Seq<char>,
    docs: Seq<Seq<char>>,
    examples: Seq<Seq<char>>,
) -> Seq<char> {
    replace(
        replace(
            replace(template, "{HISTORY}"@, history),
            "{DOCS}"@,
            join(docs, "\\n\\n"@),
        ),
        "{EXAMPLES}"@,
        join(examples, "\\n"@),
    )
}

/// Builds the prompt for the model. `history` holds the conversation so
/// far, line by line, and is cut to `budget` tokens, oldest lines first.
pub fn build_prompt(
    template: &str,
    history: &Vec<String>,
    budget: usize,
    docs: &Vec<String>,
    examples: &Vec<String>,
) -> (out: String)
    ensures
        out@ == prompt_of(
            template@,
            join(kept_lines(views(history@), budget as nat), "\n"@),
            views(docs@),
            views(examples@),
        ),
{
    let past = cut_context_lines(history, budget);
    let docs = join_strings(docs, "\\n\\n");
    let examples = join_strings(examples, "\\n");
    let step = replace_str(template, "{HISTORY}", past.as_str());
    let step = replace_str(step.as_str(), "{DOCS}", docs.as_str());
    replace_str(step.as_str(), "{EXAMPLES}", examples.as_str())
}

/// Whether `i` is where the first `/` of `tool` stands.
pub open spec fn is_first_slash(tool: Seq<char>, i: int) -> bool {
    &&& 0 <= i < tool.len()
    &&& tool[i] == '/'
    &&& forall|j: int| 0 <= j < i ==> tool[j] != '/'
}

/// The two parts of a tool call's name `name/action`, split at its first
/// `/`; none where it holds no `/`.
pub open spec fn split_name(tool: Seq<char>) -> Option<(Seq<char>, Seq<char>)> {
    if exists|i: int| is_first_slash(tool, i) {
        let i = choose|i: int| is_first_slash(tool, i);
        Some((tool.take(i), tool.skip(i + 1)))
    } else {
        None
    }
}

/// A name splits at its first `/`, wherever that stands.
pub proof fn lemma_split_at_first_slash(tool: Seq<char>, i: int)
    requires
        is_first_slash(tool, i),
    ensures
        split_name(tool) == Some((tool.take(i), tool.skip(i + 1))),
{
    let k = choose|k: int| is_first_slash(tool, k);
    assert(is_first_slash(tool, k));
    if k < i {
        assert(tool[k] != '/');
    }
    if i < k {
        assert(tool[i] != '/');
    }
}

/// A name without `/` does not split.
pub proof fn lemma_no_slash_no_split(tool: Seq<char>)
    requires
        forall|i: int| 0 <= i < tool.len() ==> tool[i] != '/',
    ensures
        split_name(tool) is None,
{
    assert forall|i: int| !is_first_slash(tool, i) by {
        if 0 <= i < tool.len() {
            assert(tool[i] != '/');
        }
    }
}

/// Splits a tool call's name `name/action` at its first `/`.
pub fn split_tool_name(tool: &str) -> (r: Result<(String, String), Error>)
    ensures
        match r {
            Ok((name, action)) => split_name(tool@) == Some((name@, action@)),
            Err(e) => split_name(tool@) is None && e@ == ErrorModel::InvalidToolNameFormat(
                tool@,
            ),
        },
{
    let cs = chars_of(tool);
    match find_char(cs.as_slice(), '/', 0) {
        Some(i) => {
            let name = slice_chars(cs.as_slice(), 0, i);
            let action = slice_chars(cs.as_slice(), i + 1, cs.len());
            let name = string_of(name.as_slice());
            let action = string_of(action.as_slice());
            proof {
                assert(is_first_slash(tool@, i as int));
                lemma_split_at_first_slash(tool@, i as int);
                assert(tool@.take(i as int) == tool@.subrange(0, i as int));
                assert(tool@.skip(i + 1) == tool@.subrange(i + 1, tool@.len() as int));
            }
            Ok((name, action))
        },
        None => {
            proof {
                lemma_no_slash_no_split(tool@);
            }
            Err(Error::InvalidToolNameFormat(String::from_str(tool)))
        },
    }
}

} // verus!
