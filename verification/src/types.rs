//! The shared data model: projects, normalized documents, stored blocks,
//! proofreading jobs, model calls and issues, and the enumerations that
//! they carry.  The stored names of the enumerations live in `names` and
//! are re-exported here.

use vstd::prelude::*;

pub use crate::names::{
    source_type_text, source_type_from_text, source_type_name, parse_source_type,
    project_status_text, project_status_from_text, project_status_name, parse_project_status,
    block_type_text, block_type_from_text, block_type_name, parse_block_type, status_text,
    status_from_text, status_name, parse_status, mode_text, mode_from_text, mode_name,
    parse_mode, issue_type_text, issue_type_from_text, issue_type_name, parse_issue_type,
    severity_text, severity_from_text, severity_name, parse_severity, issue_status_text,
    issue_status_from_text, issue_status_name, parse_issue_status, stored_names_round_trip,
};

verus! {

/// Kind of the imported source document.
#[derive(Clone, Copy, Debug, PartialEq, Eq, Structural)]
pub enum SourceType {
    /// A Word document, read by the library.
    Docx,
    /// A PDF file, whose text is extracted by the front end.
    Pdf,
}

/// Overall state of a project.
#[derive(Clone, Copy, Debug, PartialEq, Eq, Structural)]
pub enum ProjectStatus {
    /// Not yet fully imported.
    Draft,
    /// Imported, not proofread yet.
    Ready,
    /// A job is under way.
    Processing,
    /// The last job completed.
    Completed,
    /// The last job failed.
    Failed,
}

/// Kind of a normalized block.
#[derive(Clone, Copy, Debug, PartialEq, Eq, Structural)]
pub enum BlockType {
    /// Body text.
    Paragraph,
    /// A heading (a paragraph style named `heading...`).
    Heading,
    /// The text of a table cell.
    TableCell,
}

/// Execution state of a job or of a single block.
#[derive(Clone, Copy, Debug, PartialEq, Eq, Structural)]
pub enum ProofreadingStatus {
    /// Waiting to be processed.
    Pending,
    /// Being processed.
    Running,
    /// Stopped by the user.
    Paused,
    /// Done.
    Completed,
    /// Given up on.
    Failed,
}

/// Which blocks a job proofreads.
#[derive(Clone, Copy, Debug, PartialEq, Eq, Structural)]
pub enum ProofreadingMode {
    /// Every block in the page range.
    Full,
    /// Only the blocks that failed before.
    RetryFailed,
    /// The blocks the user selected.
    Selection,
}

/// Category of a proofreading issue.
#[derive(Clone, Copy, Debug, PartialEq, Eq, Structural)]
pub enum IssueType {
    /// A wrongly written character.
    Typo,
    /// Wrong punctuation.
    Punctuation,
    /// A sentence that does not read well.
    Grammar,
    /// An ill-chosen word.
    Wording,
    /// Needless repetition.
    Redundancy,
    /// A term used inconsistently.
    Consistency,
}

/// Severity of a proofreading issue.
#[derive(Clone, Copy, Debug, PartialEq, Eq, Structural)]
pub enum IssueSeverity {
    /// Minor.
    Low,
    /// Worth fixing.
    Medium,
    /// Must be fixed.
    High,
}

/// How the user has handled an issue.
#[derive(Clone, Copy, Debug, PartialEq, Eq, Structural)]
pub enum IssueStatus {
    /// Not handled yet.
    Open,
    /// The suggestion was taken.
    Accepted,
    /// Dismissed.
    Ignored,
    /// Fixed by hand.
    Resolved,
}

/// Formatting mark of a text run.
#[derive(Clone, Copy, Debug, PartialEq, Eq, Structural)]
pub enum TextMark {
    /// `w:b`
    Bold,
    /// `w:i`
    Italic,
    /// `w:u`
    Underline,
    /// `w:strike`
    Strike,
    /// `w:vertAlign` superscript.
    Superscript,
    /// `w:vertAlign` subscript.
    Subscript,
}

/// Paragraph alignment.
#[derive(Clone, Copy, Debug, PartialEq, Eq, Structural)]
pub enum TextAlign {
    Left,
    Center,
    Right,
    Justify,
}

/// Summary of a project, as shown in the project list.
#[derive(Clone, Debug)]
pub struct ProjectSummary {
    /// Identifier of the project.
    pub id: String,
    /// Name shown to the user: the stem of the imported file.
    pub name: String,
    /// Kind of the imported file.
    pub source_type: SourceType,
    /// Name of the imported file.
    pub source_file_name: String,
    /// Where the project stands.
    pub status: ProjectStatus,
    /// Number of blocks of the project.
    pub total_blocks: i64,
    /// Number of blocks proofread so far.
    pub completed_blocks: i64,
    /// Number of blocks whose proofreading failed.
    pub failed_blocks: i64,
    /// When the project was created (RFC 3339).
    pub created_at: String,
    /// When the project last changed (RFC 3339).
    pub updated_at: String,
}

/// Project detail: the summary plus the stored file locations.
#[derive(Clone, Debug)]
pub struct ProjectDetail {
    pub summary: ProjectSummary,
    /// Location of the copy of the imported file.
    pub source_file_path: String,
    /// Location of the normalized document.
    pub normalized_doc_path: String,
}

/// A stretch of text of one paragraph with uniform formatting.
#[derive(Clone, Debug)]
pub struct BlockRun {
    pub text: String,
    /// Formatting marks, each at most once.
    pub marks: Vec<TextMark>,
}

/// Layout of a normalized block.
#[derive(Clone, Debug)]
pub struct BlockLayout {
    pub align: TextAlign,
    pub indent: i64,
    /// Line breaks before the block.
    pub line_break_before: i64,
    /// Line breaks after the block.
    pub line_break_after: i64,
}

/// Where a normalized block came from in the source document.
#[derive(Clone, Debug)]
pub struct SourceMap {
    pub source_type: SourceType,
    /// Index of the source paragraph (DOCX).
    pub paragraph_index: Option<i64>,
    /// First and last index of the runs that make up the block.
    pub run_range: Option<(i64, i64)>,
    /// Source page (PDF).
    pub page: Option<i64>,
    /// First and last index of the text items of the page (PDF).
    pub item_range: Option<(i64, i64)>,
    /// Human-readable position, such as `paragraph:3`.
    pub locator: Option<String>,
}

/// A block of the normalized document.
#[derive(Clone, Debug)]
pub struct NormalizedBlock {
    /// Identifier, such as `blk_000001`.
    pub id: String,
    pub block_type: BlockType,
    pub page: Option<i64>,
    pub runs: Vec<BlockRun>,
    /// The runs' text, concatenated.
    pub text: String,
    pub layout: BlockLayout,
    pub source_map: SourceMap,
}

/// The normalized document that every import produces.
#[derive(Clone, Debug)]
pub struct NormalizedDocument {
    /// Identifier of the document: that of its project.
    pub doc_id: String,
    pub source_type: SourceType,
    /// Version of the format.
    pub version: i64,
    pub blocks: Vec<NormalizedBlock>,
}

/// A stored block: the unit that a proofreading job works on.
#[derive(Clone, Debug)]
pub struct DocumentBlock {
    pub id: String,
    pub project_id: String,
    /// Position of the block in its document.
    pub block_index: i64,
    pub block_type: BlockType,
    pub text_content: String,
    /// The normalized block, as JSON.
    pub json_payload: String,
    pub source_page: Option<i64>,
    pub source_locator: Option<String>,
    /// Length of the text in characters.
    pub char_count: i64,
    /// Where the block stands in proofreading.
    pub proofreading_status: ProofreadingStatus,
    pub updated_at: String,
}

/// A proofreading job over the blocks of one project.
#[derive(Clone, Debug)]
pub struct ProofreadingJob {
    pub id: String,
    pub project_id: String,
    pub mode: ProofreadingMode,
    pub status: ProofreadingStatus,
    /// The options the job was started with, as JSON.
    pub options_json: Option<String>,
    /// Whether the job is resumed when the application starts again.
    pub auto_resume: bool,
    pub started_at: Option<String>,
    pub finished_at: Option<String>,
    /// Number of blocks the job covers.
    pub total_blocks: i64,
    pub completed_blocks: i64,
    pub failed_blocks: i64,
    /// Issues found so far.
    pub total_issues: i64,
    /// Prompt tokens used so far.
    pub total_tokens_in: i64,
    /// Completion tokens used so far.
    pub total_tokens_out: i64,
    /// Time spent waiting for the model so far.
    pub total_latency_ms: i64,
}

/// One recorded model call.
#[derive(Clone, Debug)]
pub struct ProofreadingCall {
    pub id: String,
    pub job_id: String,
    pub project_id: String,
    pub block_id: String,
    /// Model name shown for the call.
    pub model_name: String,
    pub base_url: String,
    /// What was sent, as JSON.
    pub request_json: String,
    /// What came back, as JSON, when anything did.
    pub response_json: Option<String>,
    /// `completed`, `failed` or `skipped`.
    pub status: String,
    pub started_at: String,
    pub finished_at: Option<String>,
    pub latency_ms: Option<i64>,
    pub prompt_tokens: Option<i64>,
    pub completion_tokens: Option<i64>,
    /// Why the call failed or was skipped.
    pub error_message: Option<String>,
}

/// One issue reported by the model for a block.
#[derive(Clone, Debug)]
pub struct ProofreadingIssue {
    pub id: String,
    pub project_id: String,
    pub job_id: String,
    pub block_id: String,
    pub issue_type: IssueType,
    pub severity: IssueSeverity,
    /// Start of the issue in the block's text, in characters.
    pub start_offset: i64,
    /// End of the issue (exclusive), in characters.
    pub end_offset: i64,
    /// The text the issue is about, as quoted by the model.
    pub quote_text: String,
    /// Up to eight characters before the issue.
    pub prefix_text: Option<String>,
    /// Up to eight characters after the issue.
    pub suffix_text: Option<String>,
    pub suggestion: String,
    pub explanation: String,
    /// Replacement text, when the model gives one.
    pub normalized_replacement: Option<String>,
    pub status: IssueStatus,
    pub created_at: String,
}

/// Options chosen when a job is started; stored with the job so that it
/// can be resumed.
#[derive(Clone, Debug)]
pub struct ProofreadOptions {
    pub mode: ProofreadingMode,
    /// Longest chunk sent at once, in characters.
    pub max_chunk_chars: i64,
    /// Characters shared by neighbouring chunks.
    pub overlap_chars: i64,
    /// The kinds of issue to look for.
    pub issue_types: Vec<IssueType>,
}

/// Model settings.  The sampling temperature is carried as the decimal
/// text of the number that the user entered.
#[derive(Clone, Debug)]
pub struct AppSettings {
    /// Base URL of an OpenAI-compatible API.
    pub base_url: String,
    /// API key; may be empty.
    pub api_key: String,
    pub model: String,
    /// Request timeout.
    pub timeout_ms: i64,
    /// Most workers of a job at once.
    pub max_concurrency: i64,
    /// Shortest PDF block kept, in characters.
    pub pdf_min_block_chars: i64,
    /// Leading PDF pages that are not proofread.
    pub proofread_skip_pages: i64,
    pub temperature: String,
    pub max_tokens: i64,
    /// The user's part of the system prompt.
    pub system_prompt_template: String,
}

/// Default for `AppSettings::pdf_min_block_chars` when older stored
/// settings lack it.
pub fn default_pdf_min_block_chars() -> (r: i64)
    ensures
        r == 16,
{
    16
}

/// A copy of an optional string.
pub fn clone_opt_string(value: &Option<String>) -> (r: Option<String>)
    ensures
        r == *value,
{
    match value {
        Some(s) => Some(s.clone()),
        None => None,
    }
}

} // verus!
