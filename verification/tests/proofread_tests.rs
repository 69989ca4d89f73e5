use proofdesk::error::AppError;
use proofdesk::json::{checked_model_payload_text, extract_json_object, model_payload_text};
use proofdesk::proofread::{
    chat_completions_url, current_job_status, finalize_job, first_choice, job_options_json,
    llm_response_error, require_model_config, reuse_existing_job, select_blocks,
    select_pending_blocks, should_proofread_block, sync_job_progress, to_proofreading_issues,
    uses_bearer_auth, worker_count, BlockQueue, Message, ModelPayload, ModelReply,
    ProofreadService, RunEnd, RunStart, StartedJob, Usage, WorkerContext, WorkerStep,
};
use proofdesk::repository::{Database, JobMetrics, ProofreadingRepository};
use proofdesk::sanitize::{
    map_offset_to_original, sanitize_model_input, text_prefix, text_suffix, ModelIssue,
};
use proofdesk::settings::{build_rules, build_system_prompt, can_call_model, default_settings, display_model_name};
use proofdesk::types::{
    AppSettings, BlockType, DocumentBlock, IssueSeverity, IssueStatus, IssueType, ProjectStatus,
    ProofreadOptions, ProofreadingCall, ProofreadingJob, ProofreadingMode, ProofreadingStatus,
};

fn settings(api_key: &str, model: &str) -> AppSettings {
    AppSettings {
        base_url: "https://api.openai.com/v1".to_string(),
        api_key: api_key.to_string(),
        model: model.to_string(),
        timeout_ms: 60_000,
        max_concurrency: 4,
        pdf_min_block_chars: 16,
        proofread_skip_pages: 0,
        temperature: "0.2".to_string(),
        max_tokens: 1200,
        system_prompt_template: "test".to_string(),
    }
}

fn block(id: &str, index: i64, page: Option<i64>, status: ProofreadingStatus) -> DocumentBlock {
    DocumentBlock {
        id: id.to_string(),
        project_id: "p".to_string(),
        block_index: index,
        block_type: BlockType::Paragraph,
        text_content: "正文".to_string(),
        json_payload: "{}".to_string(),
        source_page: page,
        source_locator: None,
        char_count: 2,
        proofreading_status: status,
        updated_at: "t".to_string(),
    }
}

fn job(status: ProofreadingStatus) -> ProofreadingJob {
    ProofreadingJob {
        id: "j".to_string(),
        project_id: "p".to_string(),
        mode: ProofreadingMode::Full,
        status,
        options_json: Some("{}".to_string()),
        auto_resume: true,
        started_at: Some("t0".to_string()),
        finished_at: None,
        total_blocks: 3,
        completed_blocks: 0,
        failed_blocks: 0,
        total_issues: 0,
        total_tokens_in: 0,
        total_tokens_out: 0,
        total_latency_ms: 0,
    }
}

fn metrics(pending: i64, running: i64, completed: i64, failed: i64) -> JobMetrics {
    JobMetrics {
        pending_blocks: pending,
        running_blocks: running,
        completed_blocks: completed,
        failed_blocks: failed,
        total_issues: 5,
        total_tokens_in: 10,
        total_tokens_out: 20,
        total_latency_ms: 30,
    }
}

fn context() -> WorkerContext {
    WorkerContext {
        settings: settings("sk", "gpt-4.1-mini"),
        job_id: "j".to_string(),
        project_id: "p".to_string(),
        issue_types: vec![IssueType::Typo, IssueType::Grammar],
    }
}

#[test]
fn should_extract_json_from_fenced_block() {
    let raw = "```json\n{\"issues\":[]}\n```";
    assert_eq!(extract_json_object(raw), "{\"issues\":[]}");
}

#[test]
fn should_allow_model_call_when_settings_complete() {
    let settings = settings("sk-test", "gpt-4.1-mini");
    assert!(can_call_model(&settings));
}

#[test]
fn should_allow_model_call_when_api_key_missing() {
    let settings = settings("", "gpt-4.1-mini");
    assert!(can_call_model(&settings));
}

#[test]
fn model_call_needs_base_url_and_model() {
    let mut s = settings("sk", "  ");
    assert!(!can_call_model(&s));
    assert_eq!(require_model_config(&s).unwrap_err().code, "missing_model_config");
    assert_eq!(display_model_name(&s), "demo-skip");
    s.model = "m".to_string();
    s.base_url = " ".to_string();
    assert!(!can_call_model(&s));
    assert_eq!(display_model_name(&s), "m");
}

#[test]
fn unicode_whitespace_counts_as_blank() {
    let s = settings("sk", "\u{3000}\u{a0}\t");
    assert!(!can_call_model(&s));
    let s = settings("sk", "\u{3000}m\u{2003}");
    assert!(can_call_model(&s));
    assert_eq!(display_model_name(&s), "\u{3000}m\u{2003}");
}

#[test]
fn stored_calls_are_listed_as_they_come() {
    let call = |id: &str, status: &str| ProofreadingCall {
        id: id.to_string(),
        job_id: "j".to_string(),
        project_id: "p".to_string(),
        block_id: "b".to_string(),
        model_name: "m".to_string(),
        base_url: "u".to_string(),
        request_json: "{}".to_string(),
        response_json: None,
        status: status.to_string(),
        started_at: "t".to_string(),
        finished_at: None,
        latency_ms: Some(3),
        prompt_tokens: None,
        completion_tokens: None,
        error_message: None,
    };
    let repo = ProofreadingRepository::new(Database::from_path(String::new()));
    let calls = repo.list_calls(vec![call("2", "failed"), call("1", "completed")]);
    assert_eq!(calls.len(), 2);
    assert_eq!(calls[0].id, "2");
    assert_eq!(calls[0].status, "failed");
    assert_eq!(calls[1].id, "1");
    assert_eq!(calls[1].latency_ms, Some(3));
}

#[test]
fn json_is_compacted_or_cut_out() {
    assert_eq!(extract_json_object("{ \"a\" : 1 }"), "{\"a\":1}");
    assert_eq!(extract_json_object("说明 {\"issues\": []} 结束"), "{\"issues\": []}");
    assert_eq!(extract_json_object("no json"), "no json");
    assert!(checked_model_payload_text("} oops {").is_none());
    assert_eq!(model_payload_text("   ").unwrap_err().code, "empty_model_content");
    assert_eq!(model_payload_text("x {\"issues\":[]} y").unwrap(), "{\"issues\":[]}");
}

#[test]
fn prompt_and_rules() {
    let prompt = build_system_prompt(&settings("", "m"));
    assert!(prompt.starts_with("test\n\n返回要求："));
    let rules = build_rules(&[IssueType::Typo, IssueType::Punctuation]);
    assert_eq!(rules.len(), 6);
    assert_eq!(rules[0], "只找校对问题，不改写整体风格");
    assert_eq!(rules[2], "重点检查：错别字、标点符号错误");
    assert_eq!(build_rules(&[])[2], "重点检查：");
}

#[test]
fn defaults() {
    let s = default_settings();
    assert_eq!(s.base_url, "https://api.openai.com/v1");
    assert_eq!(s.model, "gpt-4.1-mini");
    assert_eq!(s.max_concurrency, 4);
    assert_eq!(s.pdf_min_block_chars, 16);
}

#[test]
fn selection_by_mode_and_pages() {
    let blocks = vec![
        block("a", 0, Some(1), ProofreadingStatus::Completed),
        block("b", 1, Some(2), ProofreadingStatus::Failed),
        block("c", 2, None, ProofreadingStatus::Pending),
        block("d", 3, Some(3), ProofreadingStatus::Pending),
    ];
    let full = select_blocks(&blocks, ProofreadingMode::Full, 1).unwrap();
    assert_eq!(full.iter().map(|b| b.id.as_str()).collect::<Vec<_>>(), vec!["b", "c", "d"]);
    let all = select_blocks(&blocks, ProofreadingMode::Full, -5).unwrap();
    assert_eq!(all.len(), 4);
    let retry = select_blocks(&blocks, ProofreadingMode::RetryFailed, 0).unwrap();
    assert_eq!(retry.len(), 1);
    assert_eq!(retry[0].id, "b");
    let none = select_blocks(&blocks, ProofreadingMode::RetryFailed, 2).unwrap_err();
    assert_eq!(none.code, "no_failed_blocks");
    let pending = select_pending_blocks(&blocks, 0);
    assert_eq!(pending.iter().map(|b| b.id.as_str()).collect::<Vec<_>>(), vec!["c", "d"]);
    assert!(should_proofread_block(&blocks[2], 100));
    assert!(!should_proofread_block(&blocks[0], 2));
    assert!(!should_proofread_block(&blocks[0], 1));
    assert!(should_proofread_block(&blocks[1], 1));
    assert!(should_proofread_block(&blocks[0], 0));
}

#[test]
fn a_retry_runs_the_blocks_it_reset() {
    // After a retry job starts, its failed blocks are pending again.
    let blocks = vec![
        block("a", 0, Some(1), ProofreadingStatus::Completed),
        block("b", 1, Some(2), ProofreadingStatus::Pending),
        block("c", 2, None, ProofreadingStatus::Completed),
        block("d", 3, Some(1), ProofreadingStatus::Pending),
    ];
    let run = select_pending_blocks(&blocks, 1);
    assert_eq!(run.iter().map(|b| b.id.as_str()).collect::<Vec<_>>(), vec!["b"]);
    let run_all_pages = select_pending_blocks(&blocks, 0);
    assert_eq!(run_all_pages.iter().map(|b| b.id.as_str()).collect::<Vec<_>>(), vec!["b", "d"]);
}

#[test]
fn skipped_pages_do_not_hold_a_job_back() {
    let repo = ProofreadingRepository::new(Database::from_path(String::new()));
    let blocks = vec![
        block("a", 0, Some(1), ProofreadingStatus::Pending),
        block("b", 1, Some(2), ProofreadingStatus::Completed),
        block("c", 2, Some(3), ProofreadingStatus::Running),
        block("d", 3, None, ProofreadingStatus::Pending),
    ];
    let m = repo.job_metrics(metrics(9, 9, 2, 1), &blocks, 1, 7);
    assert_eq!(m.pending_blocks, 1);
    assert_eq!(m.running_blocks, 1);
    assert_eq!(m.completed_blocks, 2);
    assert_eq!(m.failed_blocks, 1);
    assert_eq!(m.total_issues, 7);
    assert_eq!(m.total_tokens_in, 10);
    let every_page = repo.job_metrics(metrics(0, 0, 2, 1), &blocks, 0, 7);
    assert_eq!(every_page.pending_blocks, 2);

    let done = vec![
        block("a", 0, Some(1), ProofreadingStatus::Pending),
        block("b", 1, Some(2), ProofreadingStatus::Completed),
    ];
    let m = repo.job_metrics(metrics(9, 9, 1, 0), &done, 1, 0);
    assert_eq!(m.pending_blocks, 0);
    assert_eq!(m.running_blocks, 0);
    let mut finished = job(ProofreadingStatus::Running);
    proofdesk::proofread::apply_metrics(&mut finished, m, "t9");
    assert_eq!(finished.status, ProofreadingStatus::Completed);
}

#[test]
fn starting_a_job() {
    let service = ProofreadService::new(Database::from_path(String::new()));
    let options = ProofreadOptions {
        mode: ProofreadingMode::Full,
        max_chunk_chars: 500,
        overlap_chars: 0,
        issue_types: vec![IssueType::Typo],
    };
    let blocks = vec![block("a", 0, Some(1), ProofreadingStatus::Pending), block("b", 1, Some(2), ProofreadingStatus::Pending)];
    match service
        .start_job("p", &options, None, &blocks, 1, "{\"mode\":\"full\"}".to_string(), "now")
        .unwrap()
    {
        StartedJob::Created(j) => {
            assert_eq!(j.total_blocks, 1);
            assert_eq!(j.status, ProofreadingStatus::Running);
            assert_eq!(j.project_id, "p");
            assert_eq!(j.started_at.as_deref(), Some("now"));
            assert_eq!(j.id.len(), 36);
            let id: Vec<char> = j.id.chars().collect();
            for (i, c) in id.iter().enumerate() {
                if i == 8 || i == 13 || i == 18 || i == 23 {
                    assert_eq!(*c, '-');
                } else {
                    assert!(c.is_ascii_digit() || ('a'..='f').contains(c));
                }
            }
            assert_eq!(id[14], '4');
            assert!(matches!(id[19], '8' | '9' | 'a' | 'b'));
            assert!(j.auto_resume);
        }
        StartedJob::Running(_) => panic!("expected a new job"),
    }
    match service
        .start_job("p", &options, Some(job(ProofreadingStatus::Running)), &blocks, i64::MAX, String::new(), "now")
        .unwrap()
    {
        StartedJob::Running(j) => assert_eq!(j.id, "j"),
        StartedJob::Created(_) => panic!("expected the running job"),
    }
    let err = service.start_job("p", &options, None, &blocks, 5, String::new(), "now").unwrap_err();
    assert_eq!(err.code, "empty_document");
}

#[test]
fn reuse_of_running_jobs() {
    assert_eq!(reuse_existing_job(Some(job(ProofreadingStatus::Running)), false, None).unwrap().id, "j");
    assert!(reuse_existing_job(None, false, Some(job(ProofreadingStatus::Completed))).is_none());
    assert_eq!(
        reuse_existing_job(None, true, Some(job(ProofreadingStatus::Completed))).unwrap().status,
        ProofreadingStatus::Completed
    );
    assert!(reuse_existing_job(None, true, None).is_none());
}

#[test]
fn finishing_a_job() {
    let mut j = job(ProofreadingStatus::Running);
    assert_eq!(finalize_job(&mut j, metrics(0, 0, 2, 1), "t9"), ProjectStatus::Completed);
    assert_eq!(j.status, ProofreadingStatus::Completed);
    assert_eq!(j.finished_at.as_deref(), Some("t9"));
    assert_eq!(j.total_tokens_out, 20);
    let mut j = job(ProofreadingStatus::Running);
    assert_eq!(finalize_job(&mut j, metrics(1, 0, 2, 0), "t9"), ProjectStatus::Failed);
    let mut j = job(ProofreadingStatus::Running);
    assert_eq!(finalize_job(&mut j, metrics(0, 0, 0, 3), "t9"), ProjectStatus::Failed);
    let service = ProofreadService::new(Database::from_path(String::new()));
    let failed = service.fail_job(job(ProofreadingStatus::Running), metrics(0, 0, 3, 0), "t9");
    assert_eq!(failed.status, ProofreadingStatus::Failed);
    assert_eq!(failed.completed_blocks, 3);
}

#[test]
fn progress_keeps_status() {
    let synced = sync_job_progress(Some(job(ProofreadingStatus::Running)), metrics(1, 1, 1, 0)).unwrap();
    assert_eq!(synced.status, ProofreadingStatus::Running);
    assert_eq!(synced.completed_blocks, 1);
    assert_eq!(synced.total_issues, 5);
    assert!(synced.finished_at.is_none());
    assert!(sync_job_progress(None, metrics(0, 0, 0, 0)).is_none());
}

#[test]
fn run_decisions() {
    let service = ProofreadService::new(Database::from_path(String::new()));
    assert!(matches!(service.run_start(&vec![], 4), RunStart::FinishNow));
    let pending = vec![block("a", 0, None, ProofreadingStatus::Pending)];
    assert!(matches!(service.run_start(&pending, 0), RunStart::Workers(1)));
    assert!(matches!(service.run_start(&pending, 99), RunStart::Workers(32)));
    assert!(matches!(service.run_end(Some(job(ProofreadingStatus::Paused))).unwrap(), RunEnd::LeavePaused));
    assert!(matches!(service.run_end(Some(job(ProofreadingStatus::Running))).unwrap(), RunEnd::Finish));
    assert_eq!(service.run_end(None).unwrap_err().code, "job_not_found");
    assert_eq!(current_job_status(None).unwrap_err().code, "job_not_found");
    assert_eq!(worker_count(7), 7);
    assert_eq!(worker_count(-3), 1);
}

#[test]
fn workers_take_blocks_in_order() {
    let ctx = context();
    let mut queue = BlockQueue::new(vec![
        block("a", 0, None, ProofreadingStatus::Pending),
        block("b", 1, None, ProofreadingStatus::Pending),
    ]);
    let running = Some(job(ProofreadingStatus::Running));
    match ctx.next_step(running.clone(), &mut queue) {
        WorkerStep::Process(b) => assert_eq!(b.id, "a"),
        WorkerStep::Stop => panic!("expected a block"),
    }
    assert!(matches!(ctx.next_step(Some(job(ProofreadingStatus::Paused)), &mut queue), WorkerStep::Stop));
    match ctx.next_step(running.clone(), &mut queue) {
        WorkerStep::Process(b) => assert_eq!(b.id, "b"),
        WorkerStep::Stop => panic!("expected a block"),
    }
    assert!(matches!(ctx.next_step(running, &mut queue), WorkerStep::Stop));
    assert!(!ctx.should_continue(None));
    assert!(ctx.calls_model());
}

#[test]
fn model_endpoint_and_auth() {
    assert_eq!(chat_completions_url("https://x/v1//"), "https://x/v1/chat/completions");
    assert_eq!(chat_completions_url(""), "/chat/completions");
    assert!(uses_bearer_auth("sk"));
    assert!(!uses_bearer_auth("  "));
    let e = llm_response_error("bad");
    assert_eq!(e.code, "llm_response_error");
    assert_eq!(e.message, "模型请求失败: bad");
}

#[test]
fn first_choice_of_a_reply() {
    assert_eq!(first_choice(vec![], None).unwrap_err().code, "empty_model_response");
    let r = first_choice(
        vec![Message { content: "a".to_string() }, Message { content: "b".to_string() }],
        None,
    )
    .unwrap();
    assert_eq!(r.message.content, "a");
    assert_eq!(r.usage.prompt_tokens, Some(0));
    assert_eq!(r.usage.completion_tokens, Some(0));
}

#[test]
fn job_options_snapshot() {
    let mut j = job(ProofreadingStatus::Running);
    assert_eq!(job_options_json(&j).unwrap(), "{}");
    j.options_json = None;
    assert_eq!(job_options_json(&j).unwrap_err().code, "missing_job_options");
}

#[test]
fn sanitizing_keeps_a_character_map() {
    let s = sanitize_model_input("第一 段—内容\n结束");
    assert_eq!(s.text, "第一段内容结束");
    assert_eq!(s.char_map, vec![0, 1, 3, 5, 6, 8, 9]);
    let plain = sanitize_model_input("a, b");
    assert_eq!(plain.text, "a, b");
    assert_eq!(map_offset_to_original(&s.char_map, 0, 10), Some(0));
    assert_eq!(map_offset_to_original(&s.char_map, 3, 10), Some(4));
    assert_eq!(map_offset_to_original(&s.char_map, 99, 10), Some(10));
    assert_eq!(map_offset_to_original(&[], 5, 10), Some(10));
    assert_eq!(map_offset_to_original(&s.char_map, -4, 10), Some(0));
}

#[test]
fn context_around_an_issue() {
    assert_eq!(text_prefix("0123456789ab", 10).as_deref(), Some("23456789"));
    assert_eq!(text_prefix("abc", 0), None);
    assert_eq!(text_suffix("0123456789ab", 1).as_deref(), Some("12345678"));
    assert_eq!(text_suffix("abc", 3), None);
}

#[test]
fn model_issues_become_open_issues() {
    let text = "第一 段示列内容";
    let sanitized = sanitize_model_input(text);
    let payload = ModelPayload {
        issues: vec![
            ModelIssue {
                issue_type: "grammar".to_string(),
                severity: "high".to_string(),
                start_offset: 3,
                end_offset: 5,
                quote: "示列".to_string(),
                suggestion: "示例".to_string(),
                explanation: "错别字".to_string(),
                normalized_replacement: Some("示例".to_string()),
            },
            ModelIssue {
                issue_type: "unknown".to_string(),
                severity: "odd".to_string(),
                start_offset: 4,
                end_offset: 4,
                quote: String::new(),
                suggestion: String::new(),
                explanation: String::new(),
                normalized_replacement: None,
            },
        ],
    };
    let issues = to_proofreading_issues("p", "j", "b", text, &sanitized, &payload, "t");
    assert_eq!(issues.len(), 1);
    let issue = &issues[0];
    assert_eq!(issue.issue_type, IssueType::Grammar);
    assert_eq!(issue.severity, IssueSeverity::High);
    assert_eq!((issue.start_offset, issue.end_offset), (4, 6));
    assert_eq!(issue.prefix_text.as_deref(), Some("第一 段"));
    assert_eq!(issue.suffix_text.as_deref(), Some("内容"));
    assert_eq!(issue.status, IssueStatus::Open);
    assert_eq!(issue.block_id, "b");
    assert_eq!(issue.id.len(), 36);
}

#[test]
fn block_outcomes() {
    let ctx = context();
    let ok = ctx.handle_remote(
        "b",
        "req".to_string(),
        "t0".to_string(),
        "t1".to_string(),
        12,
        Ok(ModelReply {
            response_json: "resp".to_string(),
            usage: Usage { prompt_tokens: Some(3), completion_tokens: None },
            issues: Ok(vec![]),
        }),
    );
    assert_eq!(ok.call.status, "completed");
    assert_eq!(ok.call.model_name, "gpt-4.1-mini");
    assert_eq!(ok.call.prompt_tokens, Some(3));
    assert_eq!(ok.block_status, ProofreadingStatus::Completed);
    assert!(ok.issues.is_some());

    let bad = ctx.handle_remote(
        "b",
        "req".to_string(),
        "t0".to_string(),
        "t1".to_string(),
        12,
        Ok(ModelReply {
            response_json: "resp".to_string(),
            usage: Usage { prompt_tokens: None, completion_tokens: None },
            issues: Err(AppError::new("model_payload_error", "broken".to_string())),
        }),
    );
    assert_eq!(bad.call.status, "failed");
    assert_eq!(bad.call.error_message.as_deref(), Some("broken"));
    assert_eq!(bad.call.response_json.as_deref(), Some("resp"));
    assert_eq!(bad.block_status, ProofreadingStatus::Failed);

    let down = ctx.handle_remote(
        "b",
        "req".to_string(),
        "t0".to_string(),
        "t1".to_string(),
        12,
        Err(AppError::new("llm_request_error", "offline".to_string())),
    );
    assert!(down.call.response_json.is_none());
    assert_eq!(down.block_status, ProofreadingStatus::Failed);

    let skipped = ctx.handle_skipped("b", "t0".to_string(), "t1".to_string(), "req".to_string());
    assert_eq!(skipped.call.status, "skipped");
    assert_eq!(skipped.call.response_json.as_deref(), Some("{\"issues\":[]}"));
    assert_eq!(skipped.issues.unwrap().len(), 0);
    assert_eq!(skipped.block_status, ProofreadingStatus::Completed);

    let broken = ctx.mark_internal_failure("b", "t0".to_string(), "t1".to_string(), "boom");
    assert_eq!(broken.call.request_json, "{}");
    assert_eq!(broken.call.error_message.as_deref(), Some("boom"));
    assert_eq!(broken.block_status, ProofreadingStatus::Failed);

    let (sent, payload) = ctx.request_payload(&block("x", 0, None, ProofreadingStatus::Pending));
    assert_eq!(sent.text, "正文");
    assert_eq!(payload.block_id, "x");
    assert_eq!(payload.rules[2], "重点检查：错别字、语法不通顺");
}
