//! Model settings: their defaults, whether a real model call can be made,
//! and the prompt parts that are derived from them.

use vstd::prelude::*;

use crate::text::{chars_of, is_blank, owned, push_str, string_from_chars, trim_chars, trim_spec};
use crate::types::{AppSettings, IssueType};

verus! {

/// Output requirements appended to the user's system prompt template.
pub const PROMPT_OUTPUT_RULES: &'static str = "\n\n返回要求：\n1. 只返回 JSON，不要输出解释、Markdown、代码块。\n2. JSON 顶层必须是对象，结构为 {\"issues\": [...]}。\n3. 如果没有问题，返回 {\"issues\": []}。\n4. 每个 issue 必须包含字段：type、severity、start_offset、end_offset、quote、suggestion、explanation、normalized_replacement。\n5. normalized_replacement 没有明确替换值时返回 null。\n\n返回示例：\n{\"issues\":[{\"type\":\"typo\",\"severity\":\"medium\",\"start_offset\":12,\"end_offset\":14,\"quote\":\"示列\",\"suggestion\":\"示例\",\"explanation\":\"存在错别字，应改为“示例”\",\"normalized_replacement\":\"示例\"}]}";

/// The settings in force before any are saved.
pub open spec fn is_default_settings(r: AppSettings) -> bool {
    &&& r.base_url@ == "https://api.openai.com/v1"@
    &&& r.api_key@ == ""@
    &&& r.model@ == "gpt-4.1-mini"@
    &&& r.timeout_ms == 60_000
    &&& r.max_concurrency == 4
    &&& r.pdf_min_block_chars == 16
    &&& r.proofread_skip_pages == 0
    &&& r.temperature@ == "0.2"@
    &&& r.max_tokens == 1200
    &&& r.system_prompt_template@ == "你是一名中文文稿校对助手。请严格输出结构化 JSON，只返回明确存在的问题。"@
}

/// Settings used when none have been saved yet.
pub fn default_settings() -> (r: AppSettings)
    ensures
        is_default_settings(r),
{
    AppSettings {
        base_url: owned("https://api.openai.com/v1"),
        api_key: owned(""),
        model: owned("gpt-4.1-mini"),
        timeout_ms: 60_000,
        max_concurrency: 4,
        pdf_min_block_chars: crate::types::default_pdf_min_block_chars(),
        proofread_skip_pages: 0,
        temperature: owned("0.2"),
        max_tokens: 1200,
        system_prompt_template: owned(
            "你是一名中文文稿校对助手。请严格输出结构化 JSON，只返回明确存在的问题。",
        ),
    }
}

/// A real model call needs a base URL and a model name; the API key may be
/// empty.
pub open spec fn model_callable(settings: AppSettings) -> bool {
    trim_spec(settings.base_url@).len() > 0 && trim_spec(settings.model@).len() > 0
}

/// Whether the settings allow a real model call.
pub fn can_call_model(settings: &AppSettings) -> (r: bool)
    ensures
        r == model_callable(*settings),
{
    !is_blank(settings.base_url.as_str()) && !is_blank(settings.model.as_str())
}

/// Model name shown in logs and call records: `demo-skip` when no model is
/// configured.
pub fn display_model_name(settings: &AppSettings) -> (r: String)
    ensures
        trim_spec(settings.model@).len() == 0 ==> r@ == "demo-skip"@,
        trim_spec(settings.model@).len() > 0 ==> r == settings.model,
{
    if is_blank(settings.model.as_str()) {
        owned("demo-skip")
    } else {
        settings.model.clone()
    }
}

/// The system prompt: the trimmed template followed by the output rules.
pub fn build_system_prompt(settings: &AppSettings) -> (r: String)
    ensures
        r@ == trim_spec(settings.system_prompt_template@) + PROMPT_OUTPUT_RULES@,
{
    let chars = chars_of(settings.system_prompt_template.as_str());
    let trimmed = trim_chars(&chars);
    let mut out = string_from_chars(&trimmed);
    push_str(&mut out, PROMPT_OUTPUT_RULES);
    out
}

/// Prompt label of an issue type.
pub open spec fn issue_label_text(t: IssueType) -> Seq<char> {
    match t {
        IssueType::Typo => "错别字"@,
        IssueType::Punctuation => "标点符号错误"@,
        IssueType::Grammar => "语法不通顺"@,
        IssueType::Wording => "用词不当"@,
        IssueType::Redundancy => "重复啰嗦"@,
        IssueType::Consistency => "术语前后不一致"@,
    }
}

/// Labels of the given issue types joined by `、`.
pub open spec fn joined_labels(types: Seq<IssueType>) -> Seq<char>
    decreases types.len(),
{
    if types.len() == 0 {
        Seq::empty()
    } else if types.len() == 1 {
        issue_label_text(types[0])
    } else {
        joined_labels(types.drop_last()) + "、"@ + issue_label_text(types.last())
    }
}

/// Prompt label of an issue type.
pub fn issue_label(t: IssueType) -> (r: &'static str)
    ensures
        r@ == issue_label_text(t),
{
    match t {
        IssueType::Typo => "错别字",
        IssueType::Punctuation => "标点符号错误",
        IssueType::Grammar => "语法不通顺",
        IssueType::Wording => "用词不当",
        IssueType::Redundancy => "重复啰嗦",
        IssueType::Consistency => "术语前后不一致",
    }
}

/// The prompt rules for the issue types chosen by the user; the third
/// names the issue types to focus on.
pub open spec fn rules_for(issue_types: Seq<IssueType>) -> Seq<Seq<char>> {
    seq![
        "只找校对问题，不改写整体风格"@,
        "若无问题，返回 {\"issues\":[]}"@,
        "重点检查："@ + joined_labels(issue_types),
        "忽略标点问题、PDF 换行、分页断行、分隔线、空白字符导致的版式噪音"@,
        "不要把“于\\n是”“一\\n种”“句号后换行”这类提取断行当作问题"@,
        "每项必须返回 type、severity、start_offset、end_offset、quote、suggestion、explanation"@,
    ]
}

/// The focus rule names each chosen issue type by its own label: for one
/// type, the rule is "重点检查：" followed by that type's label (错别字,
/// 标点符号错误, 语法不通顺, 用词不当, 重复啰嗦 or 术语前后不一致); for two
/// types, by both labels in the order chosen, joined by "、".
pub proof fn focus_rule_law(a: IssueType, b: IssueType)
    ensures
        rules_for(seq![a])[2] == "重点检查："@ + label_of(a),
        rules_for(seq![a, b])[2] == "重点检查："@ + label_of(a) + "、"@ + label_of(b),
        rules_for(seq![a]).len() == 6,
{
    assert(seq![a, b].drop_last() =~= seq![a]);
}

/// The label of each issue type, as the prompt names it.
pub open spec fn label_of(t: IssueType) -> Seq<char> {
    match t {
        IssueType::Consistency => "术语前后不一致"@,
        IssueType::Redundancy => "重复啰嗦"@,
        IssueType::Wording => "用词不当"@,
        IssueType::Grammar => "语法不通顺"@,
        IssueType::Punctuation => "标点符号错误"@,
        IssueType::Typo => "错别字"@,
    }
}

/// The texts of a list of strings.
pub open spec fn texts_of(v: Seq<String>) -> Seq<Seq<char>> {
    v.map_values(|s: String| s@)
}

/// Turns the issue types chosen by the user into prompt rules.
pub fn build_rules(issue_types: &[IssueType]) -> (r: Vec<String>)
    ensures
        texts_of(r@) == rules_for(issue_types@),
{
    let mut labels = String::new();
    let mut i: usize = 0;
    while i < issue_types.len()
        invariant
            i <= issue_types@.len(),
            labels@ == joined_labels(issue_types@.take(i as int)),
        decreases issue_types@.len() - i,
    {
        let ghost before = labels@;
        if i > 0 {
            push_str(&mut labels, "、");
        }
        push_str(&mut labels, issue_label(issue_types[i]));
        proof {
            let t = issue_types@.take(i + 1);
            assert(t.drop_last() =~= issue_types@.take(i as int));
            assert(t.last() == issue_types@[i as int]);
            if i == 0 {
                assert(before =~= Seq::<char>::empty());
                assert(labels@ =~= issue_label_text(issue_types@[0]));
            } else {
                assert(labels@ =~= joined_labels(issue_types@.take(i as int)) + "、"@
                    + issue_label_text(issue_types@[i as int]));
            }
        }
        i = i + 1;
    }
    assert(issue_types@.take(issue_types@.len() as int) =~= issue_types@);
    let mut focus = owned("重点检查：");
    push_str(&mut focus, labels.as_str());
    let mut rules: Vec<String> = Vec::new();
    rules.push(owned("只找校对问题，不改写整体风格"));
    rules.push(owned("若无问题，返回 {\"issues\":[]}"));
    rules.push(focus);
    rules.push(owned("忽略标点问题、PDF 换行、分页断行、分隔线、空白字符导致的版式噪音"));
    rules.push(owned("不要把“于\\n是”“一\\n种”“句号后换行”这类提取断行当作问题"));
    rules.push(owned("每项必须返回 type、severity、start_offset、end_offset、quote、suggestion、explanation"));
    assert(texts_of(rules@) =~= rules_for(issue_types@));
    rules
}

} // verus!
