use proofdesk::error::AppError;
use proofdesk::probe::{
    auth_header_mode, block_line, parse_command, parse_i64, project_line, read_option,
    select_block, truncate_line, usage_error, ProbeCommand, USAGE,
};
use proofdesk::repository::{
    Database, JobRow, ProjectRepository, ProofreadingRepository, AppSettingsRepository,
    SETTINGS_KEY,
};
use proofdesk::state::{check_deletable, health_check, ActiveProjects, AppState};
use proofdesk::types::{
    BlockType, DocumentBlock, IssueSeverity, IssueStatus, IssueType, ProjectStatus,
    ProjectSummary, ProofreadingIssue, ProofreadingJob, ProofreadingMode, ProofreadingStatus,
    SourceType,
};

fn args(list: &[&str]) -> Vec<String> {
    list.iter().map(|s| s.to_string()).collect()
}

fn block(id: &str, index: i64, text: &str) -> DocumentBlock {
    DocumentBlock {
        id: id.to_string(),
        project_id: "p".to_string(),
        block_index: index,
        block_type: BlockType::Paragraph,
        text_content: text.to_string(),
        json_payload: "{}".to_string(),
        source_page: None,
        source_locator: None,
        char_count: 0,
        proofreading_status: ProofreadingStatus::Failed,
        updated_at: "t".to_string(),
    }
}

#[test]
fn a_project_runs_one_job_at_a_time() {
    let mut active = ActiveProjects::new();
    assert!(!active.is_project_active("p1"));
    assert!(active.acquire_project("p1"));
    assert!(active.is_project_active("p1"));
    assert!(!active.acquire_project("p1"));
    assert!(active.acquire_project("p2"));
    active.release_project("p1");
    assert!(!active.is_project_active("p1"));
    assert!(active.is_project_active("p2"));
    active.release_project("p1");
    assert!(active.acquire_project("p1"));
}

#[test]
fn app_state_tracks_running_projects() {
    let mut state = AppState::new(Database::from_path("/tmp/x.sqlite3".to_string()));
    assert!(state.acquire_project("p"));
    assert!(state.is_project_active("p"));
    state.release_project("p");
    assert!(!state.is_project_active("p"));
    assert_eq!(state.project_repository().db.db_path, "/tmp/x.sqlite3");
    assert_eq!(state.proofreading_repository().db.db_path, "/tmp/x.sqlite3");
    assert_eq!(state.app_settings_repository().db.db_path, "/tmp/x.sqlite3");
}

#[test]
fn busy_projects_cannot_be_deleted() {
    assert_eq!(check_deletable(true).unwrap_err().code, "project_processing");
    assert!(check_deletable(false).is_ok());
}

#[test]
fn health_check_answers_ok() {
    let h = health_check("0.1.0");
    assert_eq!(h.name, "ProofDesk");
    assert_eq!(h.version, "0.1.0");
    assert_eq!(h.status, "ok");
}

#[test]
fn errors_describe_themselves() {
    let e = AppError::new("io_error", "磁盘已满".to_string());
    assert_eq!(e.describe(), "[io_error] 磁盘已满");
    let p = e.payload();
    assert_eq!(p.code, "io_error");
    assert_eq!(p.message, "磁盘已满");
}

#[test]
fn integers_parse_like_std() {
    for text in ["0", "42", "-7", "+5", "9223372036854775807", "-9223372036854775808", "007"] {
        assert_eq!(parse_i64(text), text.parse::<i64>().ok(), "{text}");
    }
    for text in ["", "-", "+", "1a", " 1", "9223372036854775808", "-9223372036854775809", "--1"] {
        assert_eq!(parse_i64(text), None, "{text}");
    }
}

#[test]
fn options_are_read_in_pairs() {
    let a = args(&["call-block", "--project", "p1", "--db"]);
    assert_eq!(read_option(&a, "--project").as_deref(), Some("p1"));
    assert_eq!(read_option(&a, "--db"), None);
    assert_eq!(read_option(&args(&["--x", "1", "--x", "2"]), "--x").as_deref(), Some("1"));
}

#[test]
fn probe_commands_parse() {
    assert!(matches!(parse_command(&args(&["print-db-path"]), "d".to_string()).unwrap(), ProbeCommand::PrintDbPath));
    match parse_command(&args(&["list-projects"]), "default.db".to_string()).unwrap() {
        ProbeCommand::ListProjects { db_path } => assert_eq!(db_path, "default.db"),
        _ => panic!("wrong command"),
    }
    match parse_command(&args(&["list-blocks", "--project", "p", "--db", "x.db"]), "d".to_string()).unwrap() {
        ProbeCommand::ListBlocks { db_path, project_id } => {
            assert_eq!(db_path, "x.db");
            assert_eq!(project_id, "p");
        }
        _ => panic!("wrong command"),
    }
    match parse_command(&args(&["call-block", "--project", "p", "--index", "-3"]), "d".to_string()).unwrap() {
        ProbeCommand::CallBlock { project_id, block_id, block_index, .. } => {
            assert_eq!(project_id, "p");
            assert_eq!(block_id, None);
            assert_eq!(block_index, Some(-3));
        }
        _ => panic!("wrong command"),
    }
    assert_eq!(parse_command(&args(&[]), "d".to_string()).unwrap_err().code, "invalid_args");
    assert_eq!(parse_command(&args(&["explode"]), "d".to_string()).unwrap_err().code, "invalid_args");
    assert_eq!(parse_command(&args(&["list-blocks"]), "d".to_string()).unwrap_err().code, "missing_project_id");
    assert_eq!(
        parse_command(&args(&["call-block", "--project", "p", "--index", "x"]), "d".to_string()).unwrap_err().code,
        "invalid_block_index"
    );
    assert_eq!(usage_error().message, USAGE);
}

#[test]
fn blocks_are_picked_by_id_then_index() {
    let blocks = vec![block("a", 0, "甲"), block("b", 1, "乙"), block("c", 1, "丙")];
    assert_eq!(select_block(&blocks, Some("b"), Some(0)).unwrap().id, "b");
    assert_eq!(select_block(&blocks, None, Some(1)).unwrap().id, "b");
    let e = select_block(&blocks, Some("z"), None).unwrap_err();
    assert_eq!(e.code, "block_not_found");
    assert_eq!(e.message, "未找到 block_id=z");
    let e = select_block(&blocks, None, Some(-12)).unwrap_err();
    assert_eq!(e.message, "未找到 block_index=-12");
    assert_eq!(select_block(&blocks, None, None).unwrap_err().code, "missing_block_selector");
}

#[test]
fn previews_fit_one_line() {
    assert_eq!(truncate_line("a\nb", 10), "a b");
    assert_eq!(truncate_line("一二三四", 2), "一二...");
    assert_eq!(truncate_line("abc", 3), "abc");
    assert_eq!(truncate_line("", 0), "");
}

#[test]
fn printed_lines() {
    let summary = ProjectSummary {
        id: "p1".to_string(),
        name: "书".to_string(),
        source_type: SourceType::Pdf,
        source_file_name: "书.pdf".to_string(),
        status: ProjectStatus::Ready,
        total_blocks: 1,
        completed_blocks: 0,
        failed_blocks: 0,
        created_at: "c".to_string(),
        updated_at: "u".to_string(),
    };
    assert_eq!(project_line(&summary), "p1\t书\tpdf\tu");
    let mut b = block("blk", 4, "第一行\n第二行");
    b.source_page = Some(3);
    assert_eq!(block_line(&b), "blk\t#4\tpage=3\tstatus=Failed\t第一行 第二行");
    assert_eq!(auth_header_mode(" "), "disabled");
    assert_eq!(auth_header_mode("sk"), "bearer");
}

#[test]
fn job_rows_round_trip() {
    let repo = ProofreadingRepository::new(Database::from_path(String::new()));
    let job = ProofreadingJob {
        id: "j".to_string(),
        project_id: "p".to_string(),
        mode: ProofreadingMode::RetryFailed,
        status: ProofreadingStatus::Paused,
        options_json: None,
        auto_resume: false,
        started_at: Some("s".to_string()),
        finished_at: None,
        total_blocks: 1,
        completed_blocks: 2,
        failed_blocks: 3,
        total_issues: 4,
        total_tokens_in: 5,
        total_tokens_out: 6,
        total_latency_ms: 7,
    };
    let row: JobRow = repo.job_record(&job);
    assert_eq!(row.mode, "retry_failed");
    assert_eq!(row.status, "paused");
    assert_eq!(row.auto_resume, 0);
    let back = repo.get_job(Some(row)).unwrap();
    assert_eq!(back.mode, ProofreadingMode::RetryFailed);
    assert_eq!(back.status, ProofreadingStatus::Paused);
    assert!(!back.auto_resume);
    assert_eq!(back.total_latency_ms, 7);
    assert!(repo.get_running_job(None).is_none());
    assert!(repo.project_exists(1));
    assert!(!repo.project_exists(0));
}

#[test]
fn block_statuses_are_counted() {
    let repo = ProofreadingRepository::new(Database::from_path(String::new()));
    let statuses = vec![
        ProofreadingStatus::Completed,
        ProofreadingStatus::Failed,
        ProofreadingStatus::Pending,
        ProofreadingStatus::Completed,
    ];
    assert_eq!(repo.count_block_statuses(&statuses), (2, 1));
    assert_eq!(repo.count_block_statuses(&vec![]), (0, 0));
}

#[test]
fn issues_are_stored_under_their_block() {
    let repo = ProofreadingRepository::new(Database::from_path(String::new()));
    let issue = ProofreadingIssue {
        id: "i".to_string(),
        project_id: "old".to_string(),
        job_id: "old".to_string(),
        block_id: "old".to_string(),
        issue_type: IssueType::Consistency,
        severity: IssueSeverity::Medium,
        start_offset: 1,
        end_offset: 2,
        quote_text: "q".to_string(),
        prefix_text: None,
        suffix_text: Some("s".to_string()),
        suggestion: "g".to_string(),
        explanation: "e".to_string(),
        normalized_replacement: None,
        status: IssueStatus::Ignored,
        created_at: "c".to_string(),
    };
    let rows = repo.replace_issues("p", "j", "b", &vec![issue]);
    assert_eq!(rows.len(), 1);
    assert_eq!(rows[0].issue_type, "consistency");
    assert_eq!(rows[0].severity, "medium");
    assert_eq!(rows[0].status, "ignored");
    let back = repo.list_issues(rows);
    assert_eq!(back[0].block_id, "b");
    assert_eq!(back[0].issue_type, IssueType::Consistency);
    assert_eq!(back[0].status, IssueStatus::Ignored);
    assert_eq!(back[0].suffix_text.as_deref(), Some("s"));
}

#[test]
fn projects_are_deleted_children_first() {
    let repo = ProjectRepository::new(Database::from_path(String::new()));
    let steps = repo.delete("p9");
    let tables: Vec<&str> = steps.iter().map(|d| d.table.as_str()).collect();
    assert_eq!(
        tables,
        vec!["proofreading_issues", "proofreading_calls", "proofreading_jobs", "document_blocks", "projects"]
    );
    assert_eq!(steps[4].key_column, "id");
    assert!(steps.iter().all(|d| d.key == "p9"));
}

#[test]
fn settings_fall_back_to_defaults() {
    let repo = AppSettingsRepository::new(Database::from_path(String::new()));
    assert_eq!(repo.get(None).model, "gpt-4.1-mini");
    let mut custom = repo.get(None);
    custom.model = "other".to_string();
    assert_eq!(repo.get(Some(custom)).model, "other");
    assert_eq!(SETTINGS_KEY, "proofread_settings");
}
