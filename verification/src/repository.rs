//! The stored form of projects, blocks, jobs and issues.
//!
//! The database itself is read and written by the application shell; the
//! library holds the rules by which stored rows become values and values
//! become rows: which text names each enumeration, how the resume flag is
//! stored, and how job statistics are assembled.

use vstd::prelude::*;

use crate::proofread::{in_page_range, should_proofread_block, skip_until_page};
use crate::text::owned;
use crate::types::{
    block_type_from_text, clone_opt_string, issue_status_from_text, issue_type_from_text,
    mode_from_text, mode_name, mode_text, parse_block_type, parse_issue_status, parse_issue_type,
    parse_mode, parse_project_status, parse_severity, parse_source_type, parse_status,
    project_status_from_text, severity_from_text, source_type_from_text, status_from_text,
    status_name, status_text, stored_names_round_trip, BlockType, DocumentBlock, IssueSeverity,
    IssueStatus, IssueType, ProjectDetail, ProjectStatus, ProjectSummary, ProofreadingIssue,
    ProofreadingCall, ProofreadingJob, ProofreadingStatus, SourceType, AppSettings, issue_type_name, severity_name,
    issue_status_name, issue_type_text, severity_text, issue_status_text,
};

verus! {

/// Location of the SQLite database file.
#[derive(Clone, Debug)]
pub struct Database {
    pub db_path: String,
}

impl Database {
    /// The database stored in the file at `db_path`.  (The schema is
    /// brought up to date by the application shell when it opens it.)
    pub fn from_path(db_path: String) -> (r: Self)
        ensures
            r.db_path == db_path,
    {
        Database { db_path }
    }

    /// Another handle on the same database file.
    pub fn copy(&self) -> (r: Self)
        ensures
            r == *self,
    {
        Database { db_path: self.db_path.clone() }
    }
}

/// Access to the `proofreading_*` and `document_blocks` tables.
#[derive(Clone, Debug)]
pub struct ProofreadingRepository {
    pub db: Database,
}

/// Access to the `projects` table.
#[derive(Clone, Debug)]
pub struct ProjectRepository {
    pub db: Database,
}

/// Access to the `app_settings` table.
#[derive(Clone, Debug)]
pub struct AppSettingsRepository {
    pub db: Database,
}

/// A row of `proofreading_calls` about to be written.
#[derive(Clone, Debug)]
pub struct NewCallRecord {
    /// Fresh identifier of the call.
    pub id: String,
    pub job_id: String,
    pub project_id: String,
    pub block_id: String,
    /// Model name shown for the call (`demo-skip` without a model).
    pub model_name: String,
    pub base_url: String,
    /// The request, as JSON.
    pub request_json: String,
    /// The reply, as JSON, when one came.
    pub response_json: Option<String>,
    /// `completed`, `failed` or `skipped`.
    pub status: String,
    pub started_at: String,
    pub finished_at: Option<String>,
    /// Time spent waiting for the reply.
    pub latency_ms: Option<i64>,
    pub prompt_tokens: Option<i64>,
    pub completion_tokens: Option<i64>,
    /// Why the call failed or was skipped.
    pub error_message: Option<String>,
}

/// Statistics of a job, aggregated over its project's blocks and the calls
/// and issues of the job.
#[derive(Clone, Copy, Debug)]
pub struct JobMetrics {
    /// Blocks still waiting.
    pub pending_blocks: i64,
    /// Blocks being processed.
    pub running_blocks: i64,
    /// Calls of the job that completed or were skipped.
    pub completed_blocks: i64,
    /// Calls of the job that failed.
    pub failed_blocks: i64,
    /// Issues recorded by the job.
    pub total_issues: i64,
    /// Prompt tokens over the job's calls.
    pub total_tokens_in: i64,
    /// Completion tokens over the job's calls.
    pub total_tokens_out: i64,
    /// Latency over the job's calls.
    pub total_latency_ms: i64,
}

/// A row of `proofreading_jobs` as stored.
#[derive(Clone, Debug)]
pub struct JobRow {
    pub id: String,
    pub project_id: String,
    pub mode: String,
    pub status: String,
    pub options_json: Option<String>,
    pub auto_resume: i64,
    pub started_at: Option<String>,
    pub finished_at: Option<String>,
    pub total_blocks: i64,
    pub completed_blocks: i64,
    pub failed_blocks: i64,
    pub total_issues: i64,
    pub total_tokens_in: i64,
    pub total_tokens_out: i64,
    pub total_latency_ms: i64,
}

/// A row of `document_blocks` as stored.
#[derive(Clone, Debug)]
pub struct BlockRow {
    pub id: String,
    pub project_id: String,
    pub block_index: i64,
    pub block_type: String,
    pub text_content: String,
    pub json_payload: String,
    pub source_page: Option<i64>,
    pub source_locator: Option<String>,
    pub char_count: i64,
    pub proofreading_status: String,
    pub updated_at: String,
}

/// A row of `proofreading_issues` as stored.
#[derive(Clone, Debug)]
pub struct IssueRow {
    pub id: String,
    pub project_id: String,
    pub job_id: String,
    pub block_id: String,
    pub issue_type: String,
    pub severity: String,
    pub start_offset: i64,
    pub end_offset: i64,
    pub quote_text: String,
    pub prefix_text: Option<String>,
    pub suffix_text: Option<String>,
    pub suggestion: String,
    pub explanation: String,
    pub normalized_replacement: Option<String>,
    pub status: String,
    pub created_at: String,
}

/// A row of `projects` as stored.
#[derive(Clone, Debug)]
pub struct ProjectRow {
    pub id: String,
    pub name: String,
    pub source_type: String,
    pub source_file_name: String,
    pub source_file_path: String,
    pub normalized_doc_path: String,
    pub status: String,
    pub total_blocks: i64,
    pub completed_blocks: i64,
    pub failed_blocks: i64,
    pub created_at: String,
    pub updated_at: String,
}

/// The job that a stored row describes.
pub open spec fn decode_job(row: JobRow) -> ProofreadingJob {
    ProofreadingJob {
        id: row.id,
        project_id: row.project_id,
        mode: mode_from_text(row.mode@),
        status: status_from_text(row.status@),
        options_json: row.options_json,
        auto_resume: row.auto_resume == 1,
        started_at: row.started_at,
        finished_at: row.finished_at,
        total_blocks: row.total_blocks,
        completed_blocks: row.completed_blocks,
        failed_blocks: row.failed_blocks,
        total_issues: row.total_issues,
        total_tokens_in: row.total_tokens_in,
        total_tokens_out: row.total_tokens_out,
        total_latency_ms: row.total_latency_ms,
    }
}

/// The block that a stored row describes.
pub open spec fn decode_block(row: BlockRow) -> DocumentBlock {
    DocumentBlock {
        id: row.id,
        project_id: row.project_id,
        block_index: row.block_index,
        block_type: block_type_from_text(row.block_type@),
        text_content: row.text_content,
        json_payload: row.json_payload,
        source_page: row.source_page,
        source_locator: row.source_locator,
        char_count: row.char_count,
        proofreading_status: status_from_text(row.proofreading_status@),
        updated_at: row.updated_at,
    }
}

/// The issue that a stored row describes.
pub open spec fn decode_issue(row: IssueRow) -> ProofreadingIssue {
    ProofreadingIssue {
        id: row.id,
        project_id: row.project_id,
        job_id: row.job_id,
        block_id: row.block_id,
        issue_type: issue_type_from_text(row.issue_type@),
        severity: severity_from_text(row.severity@),
        start_offset: row.start_offset,
        end_offset: row.end_offset,
        quote_text: row.quote_text,
        prefix_text: row.prefix_text,
        suffix_text: row.suffix_text,
        suggestion: row.suggestion,
        explanation: row.explanation,
        normalized_replacement: row.normalized_replacement,
        status: issue_status_from_text(row.status@),
        created_at: row.created_at,
    }
}

/// The project detail that a stored row describes.
pub open spec fn decode_project(row: ProjectRow) -> ProjectDetail {
    ProjectDetail {
        summary: ProjectSummary {
            id: row.id,
            name: row.name,
            source_type: source_type_from_text(row.source_type@),
            source_file_name: row.source_file_name,
            status: project_status_from_text(row.status@),
            total_blocks: row.total_blocks,
            completed_blocks: row.completed_blocks,
            failed_blocks: row.failed_blocks,
            created_at: row.created_at,
            updated_at: row.updated_at,
        },
        source_file_path: row.source_file_path,
        normalized_doc_path: row.normalized_doc_path,
    }
}

/// `row` is the stored form of `job`.
pub open spec fn job_row_encodes(row: JobRow, job: ProofreadingJob) -> bool {
    &&& row.id == job.id
    &&& row.project_id == job.project_id
    &&& row.mode@ == mode_text(job.mode)
    &&& row.status@ == status_text(job.status)
    &&& row.options_json == job.options_json
    &&& row.auto_resume == (if job.auto_resume {
        1int
    } else {
        0int
    })
    &&& row.started_at == job.started_at
    &&& row.finished_at == job.finished_at
    &&& row.total_blocks == job.total_blocks
    &&& row.completed_blocks == job.completed_blocks
    &&& row.failed_blocks == job.failed_blocks
    &&& row.total_issues == job.total_issues
    &&& row.total_tokens_in == job.total_tokens_in
    &&& row.total_tokens_out == job.total_tokens_out
    &&& row.total_latency_ms == job.total_latency_ms
}

/// Decodes a stored job row.
pub fn map_job_row(row: &JobRow) -> (r: ProofreadingJob)
    ensures
        r == decode_job(*row),
{
    ProofreadingJob {
        id: row.id.clone(),
        project_id: row.project_id.clone(),
        mode: parse_mode(row.mode.as_str()),
        status: parse_status(row.status.as_str()),
        options_json: clone_opt_string(&row.options_json),
        auto_resume: row.auto_resume == 1,
        started_at: clone_opt_string(&row.started_at),
        finished_at: clone_opt_string(&row.finished_at),
        total_blocks: row.total_blocks,
        completed_blocks: row.completed_blocks,
        failed_blocks: row.failed_blocks,
        total_issues: row.total_issues,
        total_tokens_in: row.total_tokens_in,
        total_tokens_out: row.total_tokens_out,
        total_latency_ms: row.total_latency_ms,
    }
}

/// Decodes an optional job row.
fn map_optional_job_row(row: Option<JobRow>) -> (r: Option<ProofreadingJob>)
    ensures
        row is None ==> r is None,
        row is Some ==> r == Some(decode_job(row->0)),
{
    match row {
        Some(row) => Some(map_job_row(&row)),
        None => None,
    }
}

/// Decodes a list of job rows, keeping their order.
fn map_job_rows(rows: Vec<JobRow>) -> (r: Vec<ProofreadingJob>)
    ensures
        r@ == rows@.map_values(|row: JobRow| decode_job(row)),
{
    let mut out: Vec<ProofreadingJob> = Vec::new();
    let mut i: usize = 0;
    while i < rows.len()
        invariant
            i <= rows.len(),
            out@ == rows@.take(i as int).map_values(|row: JobRow| decode_job(row)),
        decreases rows.len() - i,
    {
        out.push(map_job_row(&rows[i]));
        proof {
            assert(rows@.take(i + 1).map_values(|row: JobRow| decode_job(row)) =~= rows@.take(
                i as int,
            ).map_values(|row: JobRow| decode_job(row)).push(decode_job(rows@[i as int])));
        }
        i = i + 1;
    }
    assert(rows@.take(rows@.len() as int) =~= rows@);
    out
}

/// Decoding the stored form of a job gives the job back.
pub proof fn job_row_round_trip(job: ProofreadingJob, row: JobRow)
    requires
        job_row_encodes(row, job),
    ensures
        decode_job(row) == job,
{
    stored_names_round_trip(
        SourceType::Docx,
        ProjectStatus::Draft,
        BlockType::Paragraph,
        job.status,
        job.mode,
        IssueType::Typo,
        IssueSeverity::Low,
        IssueStatus::Open,
    );
}

/// Number of blocks among `statuses` that are in status `s`.
pub open spec fn count_status(statuses: Seq<ProofreadingStatus>, s: ProofreadingStatus) -> nat
    decreases statuses.len(),
{
    if statuses.len() == 0 {
        0
    } else {
        count_status(statuses.drop_last(), s) + if statuses.last() == s {
            1nat
        } else {
            0nat
        }
    }
}

/// Whether a status is `s`.
pub open spec fn is_status(s: ProofreadingStatus) -> spec_fn(ProofreadingStatus) -> bool {
    |x: ProofreadingStatus| x == s
}

/// A block's status is counted under `s` exactly when it is `s`: the count
/// is the number of entries equal to `s`, so a running or pending block is
/// never counted as completed or failed.
pub proof fn count_status_law(statuses: Seq<ProofreadingStatus>, s: ProofreadingStatus)
    ensures
        count_status(statuses, s) == statuses.filter(is_status(s)).len(),
        s != ProofreadingStatus::Running ==> count_status(statuses.push(ProofreadingStatus::Running), s)
            == count_status(statuses, s),
    decreases statuses.len(),
{
    reveal(Seq::filter);
    if statuses.len() > 0 {
        count_status_law(statuses.drop_last(), s);
    }
    assert(statuses.push(ProofreadingStatus::Running).drop_last() =~= statuses);
}

/// Number of blocks of `bs` in status `s` whose page is not among the
/// `skip_pages` leading pages that a job skips.
pub open spec fn count_in_range(bs: Seq<DocumentBlock>, skip_pages: int, s: ProofreadingStatus) -> nat
    decreases bs.len(),
{
    if bs.len() == 0 {
        0
    } else {
        count_in_range(bs.drop_last(), skip_pages, s) + if in_page_range(
            bs.last(),
            skip_until_page(skip_pages),
        ) && bs.last().proofreading_status == s {
            1nat
        } else {
            0nat
        }
    }
}

/// The pending (or running) count of a job is the number of the project's
/// blocks in that status whose page comes after the skipped pages (or that
/// have no page); blocks on skipped pages are never counted.
pub proof fn count_in_range_law(bs: Seq<DocumentBlock>, skip_pages: int, s: ProofreadingStatus)
    ensures
        count_in_range(bs, skip_pages, s) == bs.filter(
            |b: DocumentBlock|
                (match b.source_page {
                    Some(page) => page > (if skip_pages < 0 {
                        0
                    } else {
                        skip_pages
                    }),
                    None => true,
                }) && b.proofreading_status == s,
        ).len(),
    decreases bs.len(),
{
    reveal(Seq::filter);
    if bs.len() > 0 {
        count_in_range_law(bs.drop_last(), skip_pages, s);
    }
}

/// `row` is the stored form of `issue`, filed under the given project,
/// job and block.
pub open spec fn issue_row_encodes(
    row: IssueRow,
    issue: ProofreadingIssue,
    project_id: Seq<char>,
    job_id: Seq<char>,
    block_id: Seq<char>,
) -> bool {
    &&& row.id == issue.id
    &&& row.project_id@ == project_id
    &&& row.job_id@ == job_id
    &&& row.block_id@ == block_id
    &&& row.issue_type@ == issue_type_text(issue.issue_type)
    &&& row.severity@ == severity_text(issue.severity)
    &&& row.start_offset == issue.start_offset
    &&& row.end_offset == issue.end_offset
    &&& row.quote_text == issue.quote_text
    &&& row.prefix_text == issue.prefix_text
    &&& row.suffix_text == issue.suffix_text
    &&& row.suggestion == issue.suggestion
    &&& row.explanation == issue.explanation
    &&& row.normalized_replacement == issue.normalized_replacement
    &&& row.status@ == issue_status_text(issue.status)
    &&& row.created_at == issue.created_at
}

/// Reading back the stored form of an issue gives the issue, filed under
/// the project, job and block that it was written for.
pub proof fn issue_row_round_trip(
    issue: ProofreadingIssue,
    row: IssueRow,
    project_id: Seq<char>,
    job_id: Seq<char>,
    block_id: Seq<char>,
)
    requires
        issue_row_encodes(row, issue, project_id, job_id, block_id),
    ensures
        decode_issue(row).project_id@ == project_id,
        decode_issue(row).job_id@ == job_id,
        decode_issue(row).block_id@ == block_id,
        decode_issue(row) == (ProofreadingIssue {
            project_id: row.project_id,
            job_id: row.job_id,
            block_id: row.block_id,
            ..issue
        }),
{
    stored_names_round_trip(
        SourceType::Docx,
        ProjectStatus::Draft,
        BlockType::Paragraph,
        ProofreadingStatus::Pending,
        crate::types::ProofreadingMode::Full,
        issue.issue_type,
        issue.severity,
        issue.status,
    );
}

/// One `DELETE` of the rows of a table whose `key_column` equals `key`.
#[derive(Debug)]
pub struct RowDeletion {
    pub table: String,
    pub key_column: String,
    pub key: String,
}

/// `d` deletes the rows of `table` whose `column` is `key`.
pub open spec fn deletes(d: RowDeletion, table: Seq<char>, column: Seq<char>, key: Seq<char>) -> bool {
    d.table@ == table && d.key_column@ == column && d.key@ == key
}

/// A deletion of the rows of `table` keyed by `column`.
fn deletion(table: &str, column: &str, key: &str) -> (r: RowDeletion)
    ensures
        deletes(r, table@, column@, key@),
{
    RowDeletion { table: owned(table), key_column: owned(column), key: owned(key) }
}

impl ProofreadingRepository {
    /// A repository over the given database.
    pub fn new(db: Database) -> (r: Self)
        ensures
            r.db == db,
    {
        ProofreadingRepository { db }
    }

    /// The stored form of a job, as written by `create_job`.
    pub fn job_record(&self, job: &ProofreadingJob) -> (r: JobRow)
        ensures
            job_row_encodes(r, *job),
    {
        JobRow {
            id: job.id.clone(),
            project_id: job.project_id.clone(),
            mode: owned(mode_name(job.mode)),
            status: owned(status_name(job.status)),
            options_json: clone_opt_string(&job.options_json),
            auto_resume: if job.auto_resume {
                1
            } else {
                0
            },
            started_at: clone_opt_string(&job.started_at),
            finished_at: clone_opt_string(&job.finished_at),
            total_blocks: job.total_blocks,
            completed_blocks: job.completed_blocks,
            failed_blocks: job.failed_blocks,
            total_issues: job.total_issues,
            total_tokens_in: job.total_tokens_in,
            total_tokens_out: job.total_tokens_out,
            total_latency_ms: job.total_latency_ms,
        }
    }

    /// Jobs that may be resumed, decoded from the rows of running jobs with
    /// the resume flag set, newest first.
    pub fn list_resumable_jobs(&self, rows: Vec<JobRow>) -> (r: Vec<ProofreadingJob>)
        ensures
            r@ == rows@.map_values(|row: JobRow| decode_job(row)),
    {
        map_job_rows(rows)
    }

    /// The running job of a project, decoded from its row if there is one.
    pub fn get_running_job(&self, row: Option<JobRow>) -> (r: Option<ProofreadingJob>)
        ensures
            row is None ==> r is None,
            row is Some ==> r == Some(decode_job(row->0)),
    {
        map_optional_job_row(row)
    }

    /// A job, decoded from its row if there is one.
    pub fn get_job(&self, row: Option<JobRow>) -> (r: Option<ProofreadingJob>)
        ensures
            row is None ==> r is None,
            row is Some ==> r == Some(decode_job(row->0)),
    {
        map_optional_job_row(row)
    }

    /// The most recent job of a project, decoded from its row if there is
    /// one.
    pub fn get_latest_job(&self, row: Option<JobRow>) -> (r: Option<ProofreadingJob>)
        ensures
            row is None ==> r is None,
            row is Some ==> r == Some(decode_job(row->0)),
    {
        map_optional_job_row(row)
    }

    /// Whether the project exists, from the value of `EXISTS(...)`.
    pub fn project_exists(&self, exists: i64) -> (r: bool)
        ensures
            r == (exists == 1),
    {
        exists == 1
    }

    /// The blocks of a project, decoded from its rows in block order.
    pub fn list_blocks(&self, rows: Vec<BlockRow>) -> (r: Vec<DocumentBlock>)
        ensures
            r@ == rows@.map_values(|row: BlockRow| decode_block(row)),
    {
        let mut out: Vec<DocumentBlock> = Vec::new();
        let mut i: usize = 0;
        while i < rows.len()
            invariant
                i <= rows.len(),
                out@ == rows@.take(i as int).map_values(|row: BlockRow| decode_block(row)),
            decreases rows.len() - i,
        {
            let row = &rows[i];
            let block = DocumentBlock {
                id: row.id.clone(),
                project_id: row.project_id.clone(),
                block_index: row.block_index,
                block_type: parse_block_type(row.block_type.as_str()),
                text_content: row.text_content.clone(),
                json_payload: row.json_payload.clone(),
                source_page: row.source_page,
                source_locator: clone_opt_string(&row.source_locator),
                char_count: row.char_count,
                proofreading_status: parse_status(row.proofreading_status.as_str()),
                updated_at: row.updated_at.clone(),
            };
            out.push(block);
            proof {
                assert(rows@.take(i + 1).map_values(|row: BlockRow| decode_block(row))
                    =~= rows@.take(i as int).map_values(|row: BlockRow| decode_block(row)).push(
                    decode_block(rows@[i as int]),
                ));
            }
            i = i + 1;
        }
        assert(rows@.take(rows@.len() as int) =~= rows@);
        out
    }

    /// The statistics of a job.  The call aggregates come from the job's
    /// calls (`base`); the pending and running counts are taken over the
    /// project's blocks that the job's page range holds, so blocks on
    /// skipped pages do not hold the job back; the issue count is given.
    pub fn job_metrics(
        &self,
        base: JobMetrics,
        blocks: &Vec<DocumentBlock>,
        skip_pages: i64,
        total_issues: i64,
    ) -> (r: JobMetrics)
        requires
            blocks@.len() <= i64::MAX,
        ensures
            r.pending_blocks == count_in_range(blocks@, skip_pages as int, ProofreadingStatus::Pending),
            r.running_blocks == count_in_range(blocks@, skip_pages as int, ProofreadingStatus::Running),
            r.completed_blocks == base.completed_blocks,
            r.failed_blocks == base.failed_blocks,
            r.total_issues == total_issues,
            r.total_tokens_in == base.total_tokens_in,
            r.total_tokens_out == base.total_tokens_out,
            r.total_latency_ms == base.total_latency_ms,
    {
        let skip_until: i64 = if skip_pages < 0 {
            0
        } else {
            skip_pages
        };
        let mut pending: i64 = 0;
        let mut running: i64 = 0;
        let mut i: usize = 0;
        while i < blocks.len()
            invariant
                i <= blocks@.len() <= i64::MAX,
                skip_until == skip_until_page(skip_pages as int),
                pending == count_in_range(blocks@.take(i as int), skip_pages as int, ProofreadingStatus::Pending),
                running == count_in_range(blocks@.take(i as int), skip_pages as int, ProofreadingStatus::Running),
                pending + running <= i,
            decreases blocks@.len() - i,
        {
            proof {
                assert(blocks@.take(i + 1).drop_last() =~= blocks@.take(i as int));
            }
            let block = &blocks[i];
            if should_proofread_block(block, skip_until) {
                match block.proofreading_status {
                    ProofreadingStatus::Pending => {
                        pending = pending + 1;
                    },
                    ProofreadingStatus::Running => {
                        running = running + 1;
                    },
                    _ => {},
                }
            }
            i = i + 1;
        }
        assert(blocks@.take(blocks@.len() as int) =~= blocks@);
        JobMetrics {
            pending_blocks: pending,
            running_blocks: running,
            completed_blocks: base.completed_blocks,
            failed_blocks: base.failed_blocks,
            total_issues,
            total_tokens_in: base.total_tokens_in,
            total_tokens_out: base.total_tokens_out,
            total_latency_ms: base.total_latency_ms,
        }
    }

    /// The numbers of completed and of failed blocks of a project, from the
    /// statuses of its blocks.
    pub fn count_block_statuses(&self, statuses: &Vec<ProofreadingStatus>) -> (r: (i64, i64))
        requires
            statuses@.len() <= i64::MAX,
        ensures
            r.0 == count_status(statuses@, ProofreadingStatus::Completed),
            r.1 == count_status(statuses@, ProofreadingStatus::Failed),
    {
        let mut completed: i64 = 0;
        let mut failed: i64 = 0;
        let mut i: usize = 0;
        while i < statuses.len()
            invariant
                i <= statuses@.len() <= i64::MAX,
                completed == count_status(statuses@.take(i as int), ProofreadingStatus::Completed),
                failed == count_status(statuses@.take(i as int), ProofreadingStatus::Failed),
                completed + failed <= i,
            decreases statuses@.len() - i,
        {
            proof {
                assert(statuses@.take(i + 1).drop_last() =~= statuses@.take(i as int));
            }
            if statuses[i] == ProofreadingStatus::Completed {
                completed = completed + 1;
            } else if statuses[i] == ProofreadingStatus::Failed {
                failed = failed + 1;
            }
            i = i + 1;
        }
        assert(statuses@.take(statuses@.len() as int) =~= statuses@);
        (completed, failed)
    }

    /// The rows that replace the issues of a block: the block's issues are
    /// deleted and these rows written, one per issue, in order.
    pub fn replace_issues(
        &self,
        project_id: &str,
        job_id: &str,
        block_id: &str,
        issues: &Vec<ProofreadingIssue>,
    ) -> (r: Vec<IssueRow>)
        ensures
            r@.len() == issues@.len(),
            forall|k: int|
                0 <= k < r@.len() ==> issue_row_encodes(
                    #[trigger] r@[k],
                    issues@[k],
                    project_id@,
                    job_id@,
                    block_id@,
                ),
    {
        let mut rows: Vec<IssueRow> = Vec::new();
        let mut i: usize = 0;
        while i < issues.len()
            invariant
                i <= issues@.len(),
                rows@.len() == i,
                forall|k: int|
                    0 <= k < i ==> issue_row_encodes(
                        #[trigger] rows@[k],
                        issues@[k],
                        project_id@,
                        job_id@,
                        block_id@,
                    ),
            decreases issues@.len() - i,
        {
            let issue = &issues[i];
            rows.push(
                IssueRow {
                    id: issue.id.clone(),
                    project_id: owned(project_id),
                    job_id: owned(job_id),
                    block_id: owned(block_id),
                    issue_type: owned(issue_type_name(issue.issue_type)),
                    severity: owned(severity_name(issue.severity)),
                    start_offset: issue.start_offset,
                    end_offset: issue.end_offset,
                    quote_text: issue.quote_text.clone(),
                    prefix_text: clone_opt_string(&issue.prefix_text),
                    suffix_text: clone_opt_string(&issue.suffix_text),
                    suggestion: issue.suggestion.clone(),
                    explanation: issue.explanation.clone(),
                    normalized_replacement: clone_opt_string(&issue.normalized_replacement),
                    status: owned(issue_status_name(issue.status)),
                    created_at: issue.created_at.clone(),
                },
            );
            i = i + 1;
        }
        rows
    }

    /// The calls of a project, newest first as the rows come.  A stored
    /// call row has exactly the fields of a call (its status is kept as the
    /// stored text), so each row is the call itself, in the given order.
    pub fn list_calls(&self, rows: Vec<ProofreadingCall>) -> (r: Vec<ProofreadingCall>)
        ensures
            r@ == rows@,
    {
        rows
    }

    /// The issues of a project, decoded from its rows in the stored order.
    pub fn list_issues(&self, rows: Vec<IssueRow>) -> (r: Vec<ProofreadingIssue>)
        ensures
            r@ == rows@.map_values(|row: IssueRow| decode_issue(row)),
    {
        let mut out: Vec<ProofreadingIssue> = Vec::new();
        let mut i: usize = 0;
        while i < rows.len()
            invariant
                i <= rows.len(),
                out@ == rows@.take(i as int).map_values(|row: IssueRow| decode_issue(row)),
            decreases rows.len() - i,
        {
            let row = &rows[i];
            let issue = ProofreadingIssue {
                id: row.id.clone(),
                project_id: row.project_id.clone(),
                job_id: row.job_id.clone(),
                block_id: row.block_id.clone(),
                issue_type: parse_issue_type(row.issue_type.as_str()),
                severity: parse_severity(row.severity.as_str()),
                start_offset: row.start_offset,
                end_offset: row.end_offset,
                quote_text: row.quote_text.clone(),
                prefix_text: clone_opt_string(&row.prefix_text),
                suffix_text: clone_opt_string(&row.suffix_text),
                suggestion: row.suggestion.clone(),
                explanation: row.explanation.clone(),
                normalized_replacement: clone_opt_string(&row.normalized_replacement),
                status: parse_issue_status(row.status.as_str()),
                created_at: row.created_at.clone(),
            };
            out.push(issue);
            proof {
                assert(rows@.take(i + 1).map_values(|row: IssueRow| decode_issue(row))
                    =~= rows@.take(i as int).map_values(|row: IssueRow| decode_issue(row)).push(
                    decode_issue(rows@[i as int]),
                ));
            }
            i = i + 1;
        }
        assert(rows@.take(rows@.len() as int) =~= rows@);
        out
    }
}

impl ProjectRepository {
    /// A repository over the given database.
    pub fn new(db: Database) -> (r: Self)
        ensures
            r.db == db,
    {
        ProjectRepository { db }
    }

    /// The project list, decoded from the project rows in the stored order
    /// (most recently updated first).
    pub fn list(&self, rows: Vec<ProjectRow>) -> (r: Vec<ProjectSummary>)
        ensures
            r@ == rows@.map_values(|row: ProjectRow| decode_project(row).summary),
    {
        let mut out: Vec<ProjectSummary> = Vec::new();
        let mut i: usize = 0;
        while i < rows.len()
            invariant
                i <= rows.len(),
                out@ == rows@.take(i as int).map_values(
                    |row: ProjectRow| decode_project(row).summary,
                ),
            decreases rows.len() - i,
        {
            let row = &rows[i];
            out.push(
                ProjectSummary {
                    id: row.id.clone(),
                    name: row.name.clone(),
                    source_type: parse_source_type(row.source_type.as_str()),
                    source_file_name: row.source_file_name.clone(),
                    status: parse_project_status(row.status.as_str()),
                    total_blocks: row.total_blocks,
                    completed_blocks: row.completed_blocks,
                    failed_blocks: row.failed_blocks,
                    created_at: row.created_at.clone(),
                    updated_at: row.updated_at.clone(),
                },
            );
            proof {
                assert(rows@.take(i + 1).map_values(
                    |row: ProjectRow| decode_project(row).summary,
                ) =~= rows@.take(i as int).map_values(
                    |row: ProjectRow| decode_project(row).summary,
                ).push(decode_project(rows@[i as int]).summary));
            }
            i = i + 1;
        }
        assert(rows@.take(rows@.len() as int) =~= rows@);
        out
    }

    /// A project's detail, decoded from its row if there is one.
    pub fn get(&self, row: Option<ProjectRow>) -> (r: Option<ProjectDetail>)
        ensures
            row is None ==> r is None,
            row is Some ==> r == Some(decode_project(row->0)),
    {
        match row {
            Some(row) => {
                let source_type = parse_source_type(row.source_type.as_str());
                let status = parse_project_status(row.status.as_str());
                Some(
                    ProjectDetail {
                        summary: ProjectSummary {
                            id: row.id,
                            name: row.name,
                            source_type,
                            source_file_name: row.source_file_name,
                            status,
                            total_blocks: row.total_blocks,
                            completed_blocks: row.completed_blocks,
                            failed_blocks: row.failed_blocks,
                            created_at: row.created_at,
                            updated_at: row.updated_at,
                        },
                        source_file_path: row.source_file_path,
                        normalized_doc_path: row.normalized_doc_path,
                    },
                )
            },
            None => None,
        }
    }
}

impl ProjectRepository {
    /// The deletions that remove a project, in the order in which they run
    /// (in one transaction): its issues, calls, jobs and blocks first, the
    /// project row last.
    pub fn delete(&self, project_id: &str) -> (r: Vec<RowDeletion>)
        ensures
            r@.len() == 5,
            deletes(r@[0], "proofreading_issues"@, "project_id"@, project_id@),
            deletes(r@[1], "proofreading_calls"@, "project_id"@, project_id@),
            deletes(r@[2], "proofreading_jobs"@, "project_id"@, project_id@),
            deletes(r@[3], "document_blocks"@, "project_id"@, project_id@),
            deletes(r@[4], "projects"@, "id"@, project_id@),
    {
        let mut r: Vec<RowDeletion> = Vec::new();
        r.push(deletion("proofreading_issues", "project_id", project_id));
        r.push(deletion("proofreading_calls", "project_id", project_id));
        r.push(deletion("proofreading_jobs", "project_id", project_id));
        r.push(deletion("document_blocks", "project_id", project_id));
        r.push(deletion("projects", "id", project_id));
        r
    }
}

/// Key of the stored settings in `app_settings`.
pub const SETTINGS_KEY: &'static str = "proofread_settings";

impl AppSettingsRepository {
    /// A repository over the given database.
    pub fn new(db: Database) -> (r: Self)
        ensures
            r.db == db,
    {
        AppSettingsRepository { db }
    }

    /// The settings in force: those stored, else the defaults.
    pub fn get(&self, stored: Option<AppSettings>) -> (r: AppSettings)
        ensures
            stored matches Some(s) ==> r == s,
            stored is None ==> crate::settings::is_default_settings(r),
    {
        match stored {
            Some(s) => s,
            None => crate::settings::default_settings(),
        }
    }
}

} // verus!
