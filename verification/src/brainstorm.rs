//! The brainstorm conversation driver's pure core: the data model of a
//! structured brainstorm response, prompt assembly from a conversation
//! history, and extraction of an embedded JSON payload from free-form
//! backend output.

use vstd::prelude::*;

use crate::text::{find_from, lemma_find_from_correct, rfind_char, trim_spec};
use crate::text::{find_str, rfind_char_str, trim_str};

verus! {

/// One option offered with a brainstorm question.
#[derive(Debug, Clone)]
pub struct QuestionOption {
    pub label: String,
    pub description: Option<String>,
    pub value: String,
}

/// A structured brainstorm response: either the next question to put to
/// the human, or, when `is_complete` is true, the finished generated
/// prompt.
#[derive(Debug, Clone)]
pub struct AiBrainstormResponse {
    /// The question text.
    pub question: String,
    /// Optional description.
    pub description: Option<String>,
    /// Available options (empty for text input).
    pub options: Vec<QuestionOption>,
    /// Whether multiple options can be selected.
    pub multi_select: bool,
    /// Whether to show an "Other" option for custom input.
    pub allow_other: bool,
    /// Whether brainstorming is complete.
    pub is_complete: bool,
    /// The generated prompt (only when `is_complete` is true).
    pub generated_prompt: Option<String>,
}

/// One turn of a brainstorm conversation.
#[derive(Debug, Clone)]
pub struct ConversationMessage {
    /// "user" or "assistant".
    pub role: String,
    pub content: String,
}

/// Mathematical value of a `ConversationMessage`.
pub struct ConversationMessageView {
    pub role: Seq<char>,
    pub content: Seq<char>,
}

impl View for ConversationMessage {
    type V = ConversationMessageView;

    open spec fn view(&self) -> ConversationMessageView {
        ConversationMessageView { role: self.role@, content: self.content@ }
    }
}

/// The views of a sequence of messages.
pub open spec fn messages_view(msgs: Seq<ConversationMessage>) -> Seq<ConversationMessageView> {
    msgs.map_values(|m: ConversationMessage| m@)
}

/// The fixed system instruction block put before every brainstorm turn:
/// the assistant's role, the required JSON response shapes, and the
/// completion sentinel convention.
pub const BRAINSTORM_SYSTEM_PROMPT: &'static str = "你是一个帮助用户明确编程任务需求的助手。你的目标是通过对话了解用户想要完成的任务，收集足够的信息后生成一个完整的任务 prompt。\n\n## 你的工作方式\n\n1. 首先理解用户的初始描述\n2. 提出问题来澄清需求，每次只问一个问题\n3. 根据用户回答，决定是否需要继续追问\n4. 当你认为已经收集到足够信息时，生成最终的任务 prompt\n\n## 输出格式\n\n你必须严格按照以下 JSON 格式输出，不要输出其他内容：\n\n如果需要提问（带选项）：\n```json\n{\n  \"question\": \"你的问题\",\n  \"description\": \"可选的问题描述\",\n  \"options\": [\n    {\"label\": \"选项标题\", \"description\": \"选项说明\", \"value\": \"选项值\"},\n    {\"label\": \"选项标题2\", \"description\": \"选项说明2\", \"value\": \"选项值2\"}\n  ],\n  \"multiSelect\": false,\n  \"allowOther\": true,\n  \"isComplete\": false\n}\n```\n\n如果需要用户输入文本（不带选项）：\n```json\n{\n  \"question\": \"你的问题\",\n  \"description\": \"可选的描述\",\n  \"options\": [],\n  \"multiSelect\": false,\n  \"allowOther\": false,\n  \"isComplete\": false\n}\n```\n\n如果已经收集够信息，准备生成 prompt：\n```json\n{\n  \"question\": \"需求收集完成\",\n  \"description\": \"我已经了解了你的需求\",\n  \"options\": [],\n  \"multiSelect\": false,\n  \"allowOther\": false,\n  \"isComplete\": true,\n  \"generatedPrompt\": \"完整的任务 prompt，包括任务描述、技术要求、具体功能列表、完成标准，最后加上完成信号：<done>COMPLETE</done>\"\n}\n```\n\n## 常见问题类型\n\n1. 任务类型：新项目/添加功能/重构/修复bug\n2. 技术栈选择\n3. 具体功能需求\n4. 测试要求\n5. 其他约束\n\n请用简洁友好的中文与用户对话。";

/// The rendering of one conversation turn: a role marker, the content,
/// and a blank line.
pub open spec fn rendered_message(m: ConversationMessageView) -> Seq<char> {
    (if m.role == "user"@ {
        "用户: "@
    } else {
        "助手: "@
    }) + m.content + "\n\n"@
}

/// The rendering of a whole conversation history, in order.
pub open spec fn rendered_context(msgs: Seq<ConversationMessageView>) -> Seq<char>
    decreases msgs.len(),
{
    if msgs.len() == 0 {
        Seq::<char>::empty()
    } else {
        rendered_context(msgs.drop_last()) + rendered_message(msgs.last())
    }
}

/// The full prompt of one brainstorm turn: the system block, the rendered
/// history, and the trailing JSON-only directive.
pub open spec fn brainstorm_prompt_spec(msgs: Seq<ConversationMessageView>) -> Seq<char> {
    BRAINSTORM_SYSTEM_PROMPT@ + "\n\n## 当前对话\n\n"@ + rendered_context(msgs)
        + "\n\n请根据对话历史，输出下一个问题的 JSON（或完成的 prompt）。只输出 JSON，不要其他内容。"@
}

/// Assemble the prompt for the next brainstorm turn from the conversation
/// so far.
pub fn build_brainstorm_prompt(conversation: &[ConversationMessage]) -> (r: String)
    ensures
        r@ == brainstorm_prompt_spec(messages_view(conversation@)),
{
    let ghost msgs = messages_view(conversation@);
    let mut context = String::new();
    let mut i: usize = 0;
    while i < conversation.len()
        invariant
            0 <= i <= conversation.len(),
            msgs == messages_view(conversation@),
            msgs.len() == conversation@.len(),
            context@ == rendered_context(msgs.take(i as int)),
        decreases conversation.len() - i,
    {
        let msg = &conversation[i];
        if crate::text::eq_str(msg.role.as_str(), "user") {
            context.append("用户: ");
        } else {
            context.append("助手: ");
        }
        context.append(msg.content.as_str());
        context.append("\n\n");
        proof {
            assert(msgs.take(i + 1).drop_last() =~= msgs.take(i as int));
            assert(msgs.take(i + 1).last() == msgs[i as int]);
            assert(msgs[i as int] == conversation@[i as int]@);
        }
        i += 1;
    }
    proof {
        assert(msgs.take(i as int) =~= msgs);
    }
    let mut prompt = BRAINSTORM_SYSTEM_PROMPT.to_owned();
    prompt.append("\n\n## 当前对话\n\n");
    prompt.append(context.as_str());
    prompt.append("\n\n请根据对话历史，输出下一个问题的 JSON（或完成的 prompt）。只输出 JSON，不要其他内容。");
    prompt
}

/// The content of a fenced block explicitly tagged as JSON: everything
/// between the opening fence-plus-tag and the next fence, trimmed.
pub open spec fn tagged_block(t: Seq<char>) -> Option<Seq<char>> {
    match find_from(t, "```json"@, 0) {
        Some(start) => {
            let js = start + "```json"@.len();
            match find_from(t.subrange(js, t.len() as int), "```"@, 0) {
                Some(end) => Some(trim_spec(t.subrange(js, js + end))),
                None => None,
            }
        },
        None => None,
    }
}

/// The content of the first fenced block with any tag: the fence's
/// language-identifier line is skipped if one is there, and everything up
/// to the next fence is taken, trimmed.
pub open spec fn plain_block(t: Seq<char>) -> Option<Seq<char>> {
    match find_from(t, "```"@, 0) {
        Some(start) => {
            let bs = start + "```"@.len();
            let js = match find_from(t.subrange(bs, t.len() as int), "\n"@, 0) {
                Some(nl) => bs + nl + 1,
                None => bs,
            };
            match find_from(t.subrange(js, t.len() as int), "```"@, 0) {
                Some(end) => Some(trim_spec(t.subrange(js, js + end))),
                None => None,
            }
        },
        None => None,
    }
}

/// The greedy outer brace match: from the first `{` to the last `}`, when
/// the `{` comes first.
pub open spec fn brace_span(t: Seq<char>) -> Option<Seq<char>> {
    match (find_from(t, "{"@, 0), rfind_char(t, '}')) {
        (Some(s), Some(e)) => if s <= e {
            Some(t.subrange(s, e + 1))
        } else {
            None
        },
        _ => None,
    }
}

/// What JSON extraction yields on a given raw output: the ordered
/// strategy over the trimmed output — a JSON-tagged fenced block, then
/// any fenced block, then the outer brace span — first match wins.
pub open spec fn extract_json_spec(out: Seq<char>) -> Option<Seq<char>> {
    let t = trim_spec(out);
    if tagged_block(t) is Some {
        tagged_block(t)
    } else if plain_block(t) is Some {
        plain_block(t)
    } else {
        brace_span(t)
    }
}

/// Extract the JSON payload embedded in free-form backend output, by the
/// ordered strategy of `extract_json_spec`. When no strategy matches, the
/// error carries the raw output for diagnosis.
pub fn extract_json(output: &str) -> (r: Result<String, String>)
    ensures
        match r {
            Ok(s) => extract_json_spec(output@) == Some(s@),
            Err(m) => extract_json_spec(output@) is None && m@ == "No JSON found in output: "@
                + output@,
        },
{
    proof {
        reveal_strlit("```json");
        reveal_strlit("```");
        reveal_strlit("\n");
        reveal_strlit("{");
        assert("```json"@.len() == 7);
        assert("```"@.len() == 3);
        assert("\n"@.len() == 1);
        assert("{"@.len() == 1);
    }
    let trimmed = trim_str(output);
    let n = trimmed.unicode_len();
    let ghost t = trimmed@;
    if let Some(start) = find_str(trimmed, "```json") {
        proof {
            lemma_find_from_correct(t, "```json"@, 0);
        }
        let js = start + 7;
        let rest = trimmed.substring_char(js, n);
        if let Some(end) = find_str(rest, "```") {
            proof {
                lemma_find_from_correct(rest@, "```"@, 0);
            }
            let body = trimmed.substring_char(js, js + end);
            let content = trim_str(body);
            return Ok(content.to_owned());
        }
    }
    if let Some(start) = find_str(trimmed, "```") {
        proof {
            lemma_find_from_correct(t, "```"@, 0);
        }
        let bs = start + 3;
        let rest = trimmed.substring_char(bs, n);
        let js = match find_str(rest, "\n") {
            Some(nl) => {
                proof {
                    lemma_find_from_correct(rest@, "\n"@, 0);
                }
                bs + nl + 1
            },
            None => bs,
        };
        let rest2 = trimmed.substring_char(js, n);
        if let Some(end) = find_str(rest2, "```") {
            proof {
                lemma_find_from_correct(rest2@, "```"@, 0);
            }
            let body = trimmed.substring_char(js, js + end);
            let content = trim_str(body);
            return Ok(content.to_owned());
        }
    }
    if let Some(s) = find_str(trimmed, "{") {
        proof {
            lemma_find_from_correct(t, "{"@, 0);
        }
        if let Some(e) = rfind_char_str(trimmed, '}') {
            proof {
                crate::text::lemma_rfind_char_correct(t, '}');
            }
            if s <= e {
                let body = trimmed.substring_char(s, e + 1);
                return Ok(body.to_owned());
            }
        }
    }
    let mut msg = "No JSON found in output: ".to_owned();
    msg.append(output);
    Err(msg)
}

} // verus!
