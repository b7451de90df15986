//! The Codex CLI backend adapter: building argument lists for normal and
//! read-only invocations, sentinel-based completion detection, and the
//! streaming output classifier that turns one raw output line into a
//! `ParsedLine`.

use vstd::prelude::*;

use crate::text::{contains_sub, find_str};

verus! {

/// Options recognized when building a backend command line.
#[derive(Clone, Copy, Debug)]
pub struct CommandOptions {
    /// When true, the built command suppresses the backend's
    /// working-directory-is-a-repo precondition.
    pub skip_git_repo_check: bool,
}

impl Default for CommandOptions {
    fn default() -> (r: Self)
        ensures
            !r.skip_git_repo_check,
    {
        CommandOptions { skip_git_repo_check: false }
    }
}

/// How one output line was classified.
#[derive(Clone, Copy, Debug, PartialEq, Eq, Structural)]
pub enum LineType {
    Json,
    Text,
}

/// The classification of one raw output line.
#[derive(Clone, Debug)]
pub struct ParsedLine {
    /// User-visible content; empty when the line carries no visible signal.
    pub content: String,
    /// Whether the line was structured (JSON) or plain text.
    pub line_type: LineType,
    /// Whether the content is attributable to the backend's reply.
    pub is_assistant: bool,
}

/// Mathematical value of a `ParsedLine`.
pub struct ParsedLineView {
    pub content: Seq<char>,
    pub line_type: LineType,
    pub is_assistant: bool,
}

impl View for ParsedLine {
    type V = ParsedLineView;

    open spec fn view(&self) -> ParsedLineView {
        ParsedLineView {
            content: self.content@,
            line_type: self.line_type,
            is_assistant: self.is_assistant,
        }
    }
}

/// What the JSON layer saw in one output line: whether it parsed at all,
/// whether it carried a top-level `type` string tag, and the `type` and
/// `text` fields of its `item` object, where present.
pub enum LineProbe {
    /// The line is not valid JSON.
    NotJson,
    /// The line is JSON but has no string `type` field at the top level.
    Untyped,
    /// The line is JSON with a top-level string `type` tag.
    Typed { tag: String, item_type: Option<String>, item_text: Option<String> },
}

/// Mathematical value of a `LineProbe`.
pub enum LineProbeView {
    NotJson,
    Untyped,
    Typed { tag: Seq<char>, item_type: Option<Seq<char>>, item_text: Option<Seq<char>> },
}

impl View for LineProbe {
    type V = LineProbeView;

    open spec fn view(&self) -> LineProbeView {
        match self {
            LineProbe::NotJson => LineProbeView::NotJson,
            LineProbe::Untyped => LineProbeView::Untyped,
            LineProbe::Typed { tag, item_type, item_text } => LineProbeView::Typed {
                tag: tag@,
                item_type: item_type.deep_view(),
                item_text: item_text.deep_view(),
            },
        }
    }
}

/// What the JSON layer reports for a given line. The probe is a pure
/// function of the line: the same line always probes the same way.
pub uninterp spec fn probe_of(l: Seq<char>) -> LineProbeView;

/// Relies on `serde_json::from_str::<Value>` to decide whether the line is
/// valid JSON, and on `serde_json::Value::get` and `Value::as_str` to read
/// the top-level `type` tag and the `type` and `text` string fields of the
/// `item` object. All of these are deterministic in the line alone, so the
/// result is named `probe_of(line@)`.
#[verifier::external_body]
fn probe_line(line: &str) -> (p: LineProbe)
    ensures
        p@ == probe_of(line@),
{
    let v = match serde_json::from_str::<serde_json::Value>(line) {
        Ok(v) => v,
        Err(_) => return LineProbe::NotJson,
    };
    let tag = match v.get("type").and_then(serde_json::Value::as_str) {
        Some(t) => t.to_owned(),
        None => return LineProbe::Untyped,
    };
    let item = v.get("item");
    let item_type = item.and_then(|i| i.get("type")).and_then(serde_json::Value::as_str);
    let item_text = item.and_then(|i| i.get("text")).and_then(serde_json::Value::as_str);
    LineProbe::Typed { tag, item_type: item_type.map(str::to_owned), item_text: item_text.map(str::to_owned) }
}

/// The silent classification: no visible content, not attributed to the
/// assistant.
pub open spec fn silent_line() -> ParsedLineView {
    ParsedLineView { content: Seq::<char>::empty(), line_type: LineType::Json, is_assistant: false }
}

/// The pass-through classification: the whole line, verbatim, as
/// assistant-visible plain text.
pub open spec fn passthrough_line(l: Seq<char>) -> ParsedLineView {
    ParsedLineView { content: l, line_type: LineType::Text, is_assistant: true }
}

/// The closed event taxonomy, over what the JSON layer saw of line `l`:
/// - a line that is not JSON, or is JSON without a `type` tag (an empty
///   tag counts as none), passes through verbatim as assistant-visible
///   text;
/// - an `item.completed` event whose item is an `agent_message` with a
///   string `text` yields that text as assistant-visible JSON content;
/// - every other typed event (lifecycle, control, error, unknown) is
///   suppressed: empty content, not assistant-visible.
pub open spec fn classify_spec(l: Seq<char>, p: LineProbeView) -> ParsedLineView {
    match p {
        LineProbeView::NotJson => passthrough_line(l),
        LineProbeView::Untyped => passthrough_line(l),
        LineProbeView::Typed { tag, item_type, item_text } => {
            if tag.len() == 0 {
                passthrough_line(l)
            } else if tag == "item.completed"@ && item_type == Some("agent_message"@) {
                match item_text {
                    Some(t) => ParsedLineView {
                        content: t,
                        line_type: LineType::Json,
                        is_assistant: true,
                    },
                    None => silent_line(),
                }
            } else {
                silent_line()
            }
        },
    }
}

/// What `parse_output_line` returns for a given line.
pub open spec fn parse_line_spec(l: Seq<char>) -> ParsedLineView {
    classify_spec(l, probe_of(l))
}

/// Classify one output line from what the JSON layer saw of it. This is
/// the whole of the classification logic; `parse_output_line` only feeds
/// it the probe of the line.
pub fn classify_line(line: &str, probe: &LineProbe) -> (r: ParsedLine)
    ensures
        r@ == classify_spec(line@, probe@),
{
    match probe {
        LineProbe::NotJson => ParsedLine {
            content: line.to_owned(),
            line_type: LineType::Text,
            is_assistant: true,
        },
        LineProbe::Untyped => ParsedLine {
            content: line.to_owned(),
            line_type: LineType::Text,
            is_assistant: true,
        },
        LineProbe::Typed { tag, item_type, item_text } => {
            if tag.as_str().unicode_len() == 0 {
                ParsedLine {
                    content: line.to_owned(),
                    line_type: LineType::Text,
                    is_assistant: true,
                }
            } else if crate::text::eq_str(tag.as_str(), "item.completed") {
                let is_agent_message = match item_type {
                    Some(it) => crate::text::eq_str(it.as_str(), "agent_message"),
                    None => false,
                };
                if is_agent_message {
                    match item_text {
                        Some(t) => ParsedLine {
                            content: t.clone(),
                            line_type: LineType::Json,
                            is_assistant: true,
                        },
                        None => empty_parsed_line(),
                    }
                } else {
                    empty_parsed_line()
                }
            } else {
                empty_parsed_line()
            }
        },
    }
}

/// The executable silent line.
fn empty_parsed_line() -> (r: ParsedLine)
    ensures
        r@ == silent_line(),
{
    ParsedLine { content: String::new(), line_type: LineType::Json, is_assistant: false }
}

/// The argument list of a normal-mode invocation: `exec`, the
/// approval/sandbox bypass, the optional repo-check suppression, then the
/// prompt.
pub open spec fn exec_args_spec(prompt: Seq<char>, skip: bool) -> Seq<Seq<char>> {
    let base = seq!["exec"@, "--dangerously-bypass-approvals-and-sandbox"@];
    (if skip {
        base.push("--skip-git-repo-check"@)
    } else {
        base
    }).push(prompt)
}

/// The argument list of a read-only invocation: as normal mode, with the
/// structured-output flag `--json` before the optional repo-check
/// suppression.
pub open spec fn readonly_args_spec(prompt: Seq<char>, skip: bool) -> Seq<Seq<char>> {
    let base = seq!["exec"@, "--dangerously-bypass-approvals-and-sandbox"@, "--json"@];
    (if skip {
        base.push("--skip-git-repo-check"@)
    } else {
        base
    }).push(prompt)
}

/// The adapter for the Codex-style backend. It holds the resolved
/// executable path, if the backend was found at construction, and is
/// otherwise a stateless bundle of behaviors.
pub struct CodexAdapter {
    path: Option<String>,
}

impl View for CodexAdapter {
    type V = Option<Seq<char>>;

    closed spec fn view(&self) -> Option<Seq<char>> {
        self.path.deep_view()
    }
}

impl CodexAdapter {
    /// Construct the adapter around an already-resolved executable path;
    /// `None` means the backend is not installed. Construction never
    /// fails.
    pub fn new(path: Option<String>) -> (r: Self)
        ensures
            r@ == path.deep_view(),
    {
        CodexAdapter { path }
    }

    /// Display identifier of this backend.
    pub fn name(&self) -> (r: &str)
        ensures
            r@ == "Codex CLI"@,
    {
        "Codex CLI"
    }

    /// True exactly when path resolution at construction succeeded.
    pub fn is_installed(&self) -> (r: bool)
        ensures
            r == (self@ is Some),
    {
        self.path.is_some()
    }

    /// The resolved executable path, if any.
    pub fn get_path(&self) -> (r: Option<String>)
        ensures
            r.deep_view() == self@,
    {
        match &self.path {
            Some(p) => Some(p.clone()),
            None => None,
        }
    }

    /// Build the argument list for a normal-mode ("mutate the world")
    /// invocation.
    pub fn exec_args(prompt: &str, options: CommandOptions) -> (r: Vec<String>)
        ensures
            r.deep_view() == exec_args_spec(prompt@, options.skip_git_repo_check),
    {
        let mut args: Vec<String> = Vec::new();
        args.push("exec".to_owned());
        args.push("--dangerously-bypass-approvals-and-sandbox".to_owned());
        if options.skip_git_repo_check {
            args.push("--skip-git-repo-check".to_owned());
        }
        args.push(prompt.to_owned());
        proof {
            assert(args.deep_view() =~~= exec_args_spec(prompt@, options.skip_git_repo_check));
        }
        args
    }

    /// Build the argument list for a read-only invocation, which requests
    /// machine-readable (JSON-Lines) output.
    pub fn readonly_args(prompt: &str, options: CommandOptions) -> (r: Vec<String>)
        ensures
            r.deep_view() == readonly_args_spec(prompt@, options.skip_git_repo_check),
    {
        let mut args: Vec<String> = Vec::new();
        args.push("exec".to_owned());
        args.push("--dangerously-bypass-approvals-and-sandbox".to_owned());
        args.push("--json".to_owned());
        if options.skip_git_repo_check {
            args.push("--skip-git-repo-check".to_owned());
        }
        args.push(prompt.to_owned());
        proof {
            assert(args.deep_view() =~~= readonly_args_spec(prompt@, options.skip_git_repo_check));
        }
        args
    }

    /// True exactly when the literal `signal` token appears anywhere in the
    /// accumulated `output`.
    pub fn detect_completion(&self, output: &str, signal: &str) -> (r: bool)
        ensures
            r == contains_sub(output@, signal@),
    {
        find_str(output, signal).is_some()
    }

    /// Classify one raw output line by the closed event taxonomy.
    pub fn parse_output_line(&self, line: &str) -> (r: ParsedLine)
        ensures
            r@ == parse_line_spec(line@),
    {
        let probe = probe_line(line);
        classify_line(line, &probe)
    }
}

/// The repo-check suppression flag stands in the built argument list, in
/// normal and in read-only mode, exactly when `skip_git_repo_check` was
/// set. (A prompt that is itself the literal flag is left out: it would
/// stand in the list as the prompt.)
pub proof fn lemma_skip_git_flag(prompt: Seq<char>, skip: bool)
    requires
        prompt != "--skip-git-repo-check"@,
    ensures
        exec_args_spec(prompt, skip).contains("--skip-git-repo-check"@) <==> skip,
        readonly_args_spec(prompt, skip).contains("--skip-git-repo-check"@) <==> skip,
{
    reveal_strlit("exec");
    reveal_strlit("--dangerously-bypass-approvals-and-sandbox");
    reveal_strlit("--json");
    reveal_strlit("--skip-git-repo-check");
    assert("exec"@.len() == 4);
    assert("--dangerously-bypass-approvals-and-sandbox"@.len() == 42);
    assert("--json"@.len() == 6);
    assert("--skip-git-repo-check"@.len() == 21);
    let e = exec_args_spec(prompt, skip);
    let r = readonly_args_spec(prompt, skip);
    if skip {
        assert(e[2] == "--skip-git-repo-check"@);
        assert(r[3] == "--skip-git-repo-check"@);
    } else {
        assert forall|i: int| 0 <= i < e.len() implies e[i] != "--skip-git-repo-check"@ by {
            assert(e[0] == "exec"@ && e[1] == "--dangerously-bypass-approvals-and-sandbox"@ && e[2]
                == prompt);
        }
        assert forall|i: int| 0 <= i < r.len() implies r[i] != "--skip-git-repo-check"@ by {
            assert(r[0] == "exec"@ && r[1] == "--dangerously-bypass-approvals-and-sandbox"@ && r[2]
                == "--json"@ && r[3] == prompt);
        }
    }
}

/// Read-only construction always includes the structured-output flag
/// `--json`.
pub proof fn lemma_readonly_has_json(prompt: Seq<char>, skip: bool)
    ensures
        readonly_args_spec(prompt, skip).contains("--json"@),
{
    let r = readonly_args_spec(prompt, skip);
    assert(r[2] == "--json"@);
}

/// Normal-mode construction never includes the structured-output flag.
/// (A prompt that is itself the literal `--json` is left out: it would
/// stand in the list as the prompt.)
pub proof fn lemma_exec_no_json(prompt: Seq<char>, skip: bool)
    requires
        prompt != "--json"@,
    ensures
        !exec_args_spec(prompt, skip).contains("--json"@),
{
    reveal_strlit("exec");
    reveal_strlit("--dangerously-bypass-approvals-and-sandbox");
    reveal_strlit("--json");
    reveal_strlit("--skip-git-repo-check");
    assert("exec"@.len() == 4);
    assert("--dangerously-bypass-approvals-and-sandbox"@.len() == 42);
    assert("--json"@.len() == 6);
    assert("--skip-git-repo-check"@.len() == 21);
    let e = exec_args_spec(prompt, skip);
    if skip {
        assert forall|i: int| 0 <= i < e.len() implies e[i] != "--json"@ by {
            assert(e[0] == "exec"@ && e[1] == "--dangerously-bypass-approvals-and-sandbox"@ && e[2]
                == "--skip-git-repo-check"@ && e[3] == prompt);
        }
    } else {
        assert forall|i: int| 0 <= i < e.len() implies e[i] != "--json"@ by {
            assert(e[0] == "exec"@ && e[1] == "--dangerously-bypass-approvals-and-sandbox"@ && e[2]
                == prompt);
        }
    }
}

/// Classification is a pure function of the line: any two results that the
/// contract of `parse_output_line` admits for the same line are equal.
pub proof fn lemma_parse_line_deterministic(l: Seq<char>, r1: ParsedLineView, r2: ParsedLineView)
    requires
        r1 == parse_line_spec(l),
        r2 == parse_line_spec(l),
    ensures
        r1 == r2,
{
}

/// Every event with a non-empty type tag, other than an `item.completed`
/// carrying an `agent_message` with a string `text` — lifecycle, control,
/// error, and unknown events alike — classifies as silent: empty content,
/// not assistant-visible, JSON-typed.
pub proof fn lemma_typed_events_silent(l: Seq<char>, p: LineProbeView)
    requires
        p matches LineProbeView::Typed { tag, item_type, item_text } && tag.len() > 0 && !(tag
            == "item.completed"@ && item_type == Some("agent_message"@) && item_text is Some),
    ensures
        classify_spec(l, p).content == Seq::<char>::empty(),
        !classify_spec(l, p).is_assistant,
        classify_spec(l, p).line_type == LineType::Json,
{
}

/// Every event type of the lifecycle/control/error table — thread, turn,
/// session and item lifecycle events, turn failures and generic errors —
/// classifies as silent, whatever else the event carried.
pub proof fn lemma_event_table_silent(
    l: Seq<char>,
    tag: Seq<char>,
    item_type: Option<Seq<char>>,
    item_text: Option<Seq<char>>,
)
    requires
        tag == "thread.started"@ || tag == "turn.started"@ || tag == "turn.completed"@ || tag
            == "item.delta"@ || tag == "item.started"@ || tag == "item.updated"@ || tag
            == "session.started"@ || tag == "session.completed"@ || tag == "turn.failed"@ || tag
            == "error"@,
    ensures
        classify_spec(l, LineProbeView::Typed { tag, item_type, item_text }).content == Seq::<
            char,
        >::empty(),
        !classify_spec(l, LineProbeView::Typed { tag, item_type, item_text }).is_assistant,
{
    reveal_strlit("item.completed");
    reveal_strlit("thread.started");
    reveal_strlit("turn.started");
    reveal_strlit("turn.completed");
    reveal_strlit("item.delta");
    reveal_strlit("item.started");
    reveal_strlit("item.updated");
    reveal_strlit("session.started");
    reveal_strlit("session.completed");
    reveal_strlit("turn.failed");
    reveal_strlit("error");
    assert("item.completed"@[0] == 'i');
    assert("thread.started"@[0] == 't');
    assert("turn.completed"@[0] == 't');
    assert(tag.len() > 0);
    assert(tag != "item.completed"@);
    lemma_typed_events_silent(l, LineProbeView::Typed { tag, item_type, item_text });
}

/// An `item.completed` event whose item is an `agent_message` with text
/// `t` classifies as that text, JSON-typed and assistant-visible.
pub proof fn lemma_agent_message_text(l: Seq<char>, t: Seq<char>, item_text: Option<Seq<char>>)
    requires
        item_text == Some(t),
    ensures
        classify_spec(
            l,
            LineProbeView::Typed {
                tag: "item.completed"@,
                item_type: Some("agent_message"@),
                item_text,
            },
        ) == (ParsedLineView { content: t, line_type: LineType::Json, is_assistant: true }),
{
    reveal_strlit("item.completed");
    assert("item.completed"@.len() == 14);
}

/// A JSON line with no `type` tag passes through verbatim as
/// assistant-visible text.
pub proof fn lemma_untyped_json_passthrough(l: Seq<char>)
    ensures
        classify_spec(l, LineProbeView::Untyped) == passthrough_line(l),
        classify_spec(l, LineProbeView::Untyped).content == l,
        classify_spec(l, LineProbeView::Untyped).is_assistant,
{
}

/// A line that is not JSON passes through verbatim as assistant-visible
/// text.
pub proof fn lemma_non_json_passthrough(l: Seq<char>)
    ensures
        classify_spec(l, LineProbeView::NotJson) == passthrough_line(l),
        classify_spec(l, LineProbeView::NotJson).content == l,
        classify_spec(l, LineProbeView::NotJson).line_type == LineType::Text,
{
}

/// Completion detection is exactly literal substring containment, and an
/// empty output contains no non-empty signal.
pub proof fn lemma_detect_completion_iff(output: Seq<char>, signal: Seq<char>)
    ensures
        contains_sub(output, signal) <==> exists|i: int| crate::text::match_at(output, signal, i),
        output.len() == 0 && signal.len() > 0 ==> !contains_sub(output, signal),
{
    crate::text::lemma_contains_iff_match(output, signal);
    if output.len() == 0 && signal.len() > 0 {
        assert forall|i: int| !crate::text::match_at(output, signal, i) by {}
    }
}

} // verus!
