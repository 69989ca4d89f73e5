//! The lowercase names under which each enumeration is stored, and the
//! parsers that read those names back.

use vstd::prelude::*;

use crate::text::str_eq;
use crate::types::{
    BlockType, IssueSeverity, IssueStatus, IssueType, ProjectStatus, ProofreadingMode,
    ProofreadingStatus, SourceType,
};

verus! {

// ---------------------------------------------------------------------------
// Stored names of the enumerations
// ---------------------------------------------------------------------------

/// Stored name of a source type.
pub open spec fn source_type_text(t: SourceType) -> Seq<char> {
    match t {
        SourceType::Pdf => "pdf"@,
        SourceType::Docx => "docx"@,
    }
}

/// Source type read back from its stored name; anything unknown is DOCX.
pub open spec fn source_type_from_text(s: Seq<char>) -> SourceType {
    if s == "pdf"@ {
        SourceType::Pdf
    } else {
        SourceType::Docx
    }
}

impl SourceType {
    /// Lowercase name used in the database.
    pub fn as_str(self) -> (r: &'static str)
        ensures
            r@ == source_type_text(self),
    {
        source_type_name(self)
    }
}

/// Lowercase name of a source type.
pub fn source_type_name(source_type: SourceType) -> (r: &'static str)
    ensures
        r@ == source_type_text(source_type),
{
    match source_type {
        SourceType::Pdf => "pdf",
        SourceType::Docx => "docx",
    }
}

/// Reads a stored source type name.
pub fn parse_source_type(value: &str) -> (r: SourceType)
    ensures
        r == source_type_from_text(value@),
{
    if str_eq(value, "pdf") {
        SourceType::Pdf
    } else {
        SourceType::Docx
    }
}

/// Stored name of a project status.
pub open spec fn project_status_text(s: ProjectStatus) -> Seq<char> {
    match s {
        ProjectStatus::Failed => "failed"@,
        ProjectStatus::Completed => "completed"@,
        ProjectStatus::Processing => "processing"@,
        ProjectStatus::Ready => "ready"@,
        ProjectStatus::Draft => "draft"@,
    }
}

/// Project status read back from its stored name; anything unknown is a
/// draft.
pub open spec fn project_status_from_text(s: Seq<char>) -> ProjectStatus {
    if s == "ready"@ {
        ProjectStatus::Ready
    } else if s == "processing"@ {
        ProjectStatus::Processing
    } else if s == "completed"@ {
        ProjectStatus::Completed
    } else if s == "failed"@ {
        ProjectStatus::Failed
    } else {
        ProjectStatus::Draft
    }
}

/// Lowercase name of a project status.
pub fn project_status_name(status: ProjectStatus) -> (r: &'static str)
    ensures
        r@ == project_status_text(status),
{
    match status {
        ProjectStatus::Failed => "failed",
        ProjectStatus::Completed => "completed",
        ProjectStatus::Processing => "processing",
        ProjectStatus::Ready => "ready",
        ProjectStatus::Draft => "draft",
    }
}

/// Reads a stored project status name.
pub fn parse_project_status(value: &str) -> (r: ProjectStatus)
    ensures
        r == project_status_from_text(value@),
{
    if str_eq(value, "ready") {
        ProjectStatus::Ready
    } else if str_eq(value, "processing") {
        ProjectStatus::Processing
    } else if str_eq(value, "completed") {
        ProjectStatus::Completed
    } else if str_eq(value, "failed") {
        ProjectStatus::Failed
    } else {
        ProjectStatus::Draft
    }
}

/// Stored name of a block type.
pub open spec fn block_type_text(t: BlockType) -> Seq<char> {
    match t {
        BlockType::TableCell => "table_cell"@,
        BlockType::Heading => "heading"@,
        BlockType::Paragraph => "paragraph"@,
    }
}

/// Block type read back from its stored name; anything unknown is a
/// paragraph.
pub open spec fn block_type_from_text(s: Seq<char>) -> BlockType {
    if s == "heading"@ {
        BlockType::Heading
    } else if s == "table_cell"@ {
        BlockType::TableCell
    } else {
        BlockType::Paragraph
    }
}

/// Lowercase name of a block type.
pub fn block_type_name(block_type: BlockType) -> (r: &'static str)
    ensures
        r@ == block_type_text(block_type),
{
    match block_type {
        BlockType::TableCell => "table_cell",
        BlockType::Heading => "heading",
        BlockType::Paragraph => "paragraph",
    }
}

/// Reads a stored block type name.
pub fn parse_block_type(value: &str) -> (r: BlockType)
    ensures
        r == block_type_from_text(value@),
{
    if str_eq(value, "heading") {
        BlockType::Heading
    } else if str_eq(value, "table_cell") {
        BlockType::TableCell
    } else {
        BlockType::Paragraph
    }
}

/// Stored name of a job or block status.
pub open spec fn status_text(s: ProofreadingStatus) -> Seq<char> {
    match s {
        ProofreadingStatus::Failed => "failed"@,
        ProofreadingStatus::Completed => "completed"@,
        ProofreadingStatus::Paused => "paused"@,
        ProofreadingStatus::Running => "running"@,
        ProofreadingStatus::Pending => "pending"@,
    }
}

/// Status read back from its stored name; anything unknown is pending.
pub open spec fn status_from_text(s: Seq<char>) -> ProofreadingStatus {
    if s == "running"@ {
        ProofreadingStatus::Running
    } else if s == "paused"@ {
        ProofreadingStatus::Paused
    } else if s == "completed"@ {
        ProofreadingStatus::Completed
    } else if s == "failed"@ {
        ProofreadingStatus::Failed
    } else {
        ProofreadingStatus::Pending
    }
}

/// Lowercase name of a job or block status.
pub fn status_name(value: ProofreadingStatus) -> (r: &'static str)
    ensures
        r@ == status_text(value),
{
    match value {
        ProofreadingStatus::Failed => "failed",
        ProofreadingStatus::Completed => "completed",
        ProofreadingStatus::Paused => "paused",
        ProofreadingStatus::Running => "running",
        ProofreadingStatus::Pending => "pending",
    }
}

/// Reads a stored status name.
pub fn parse_status(value: &str) -> (r: ProofreadingStatus)
    ensures
        r == status_from_text(value@),
{
    if str_eq(value, "running") {
        ProofreadingStatus::Running
    } else if str_eq(value, "paused") {
        ProofreadingStatus::Paused
    } else if str_eq(value, "completed") {
        ProofreadingStatus::Completed
    } else if str_eq(value, "failed") {
        ProofreadingStatus::Failed
    } else {
        ProofreadingStatus::Pending
    }
}

/// Stored name of a job mode.
pub open spec fn mode_text(m: ProofreadingMode) -> Seq<char> {
    match m {
        ProofreadingMode::Selection => "selection"@,
        ProofreadingMode::RetryFailed => "retry_failed"@,
        ProofreadingMode::Full => "full"@,
    }
}

/// Job mode read back from its stored name; anything unknown is a full
/// run.
pub open spec fn mode_from_text(s: Seq<char>) -> ProofreadingMode {
    if s == "retry_failed"@ {
        ProofreadingMode::RetryFailed
    } else if s == "selection"@ {
        ProofreadingMode::Selection
    } else {
        ProofreadingMode::Full
    }
}

/// Lowercase name of a job mode.
pub fn mode_name(value: ProofreadingMode) -> (r: &'static str)
    ensures
        r@ == mode_text(value),
{
    match value {
        ProofreadingMode::Selection => "selection",
        ProofreadingMode::RetryFailed => "retry_failed",
        ProofreadingMode::Full => "full",
    }
}

/// Reads a stored job mode name.
pub fn parse_mode(value: &str) -> (r: ProofreadingMode)
    ensures
        r == mode_from_text(value@),
{
    if str_eq(value, "retry_failed") {
        ProofreadingMode::RetryFailed
    } else if str_eq(value, "selection") {
        ProofreadingMode::Selection
    } else {
        ProofreadingMode::Full
    }
}

/// Stored name of an issue type.
pub open spec fn issue_type_text(t: IssueType) -> Seq<char> {
    match t {
        IssueType::Consistency => "consistency"@,
        IssueType::Redundancy => "redundancy"@,
        IssueType::Wording => "wording"@,
        IssueType::Grammar => "grammar"@,
        IssueType::Punctuation => "punctuation"@,
        IssueType::Typo => "typo"@,
    }
}

/// Issue type read back from its name; anything unknown is a typo.
pub open spec fn issue_type_from_text(s: Seq<char>) -> IssueType {
    if s == "punctuation"@ {
        IssueType::Punctuation
    } else if s == "grammar"@ {
        IssueType::Grammar
    } else if s == "wording"@ {
        IssueType::Wording
    } else if s == "redundancy"@ {
        IssueType::Redundancy
    } else if s == "consistency"@ {
        IssueType::Consistency
    } else {
        IssueType::Typo
    }
}

/// Lowercase name of an issue type.
pub fn issue_type_name(value: IssueType) -> (r: &'static str)
    ensures
        r@ == issue_type_text(value),
{
    match value {
        IssueType::Consistency => "consistency",
        IssueType::Redundancy => "redundancy",
        IssueType::Wording => "wording",
        IssueType::Grammar => "grammar",
        IssueType::Punctuation => "punctuation",
        IssueType::Typo => "typo",
    }
}

/// Reads an issue type name, as stored or as returned by the model.
pub fn parse_issue_type(value: &str) -> (r: IssueType)
    ensures
        r == issue_type_from_text(value@),
{
    if str_eq(value, "punctuation") {
        IssueType::Punctuation
    } else if str_eq(value, "grammar") {
        IssueType::Grammar
    } else if str_eq(value, "wording") {
        IssueType::Wording
    } else if str_eq(value, "redundancy") {
        IssueType::Redundancy
    } else if str_eq(value, "consistency") {
        IssueType::Consistency
    } else {
        IssueType::Typo
    }
}

/// Stored name of a severity.
pub open spec fn severity_text(s: IssueSeverity) -> Seq<char> {
    match s {
        IssueSeverity::High => "high"@,
        IssueSeverity::Medium => "medium"@,
        IssueSeverity::Low => "low"@,
    }
}

/// Severity read back from its name; anything unknown is low.
pub open spec fn severity_from_text(s: Seq<char>) -> IssueSeverity {
    if s == "high"@ {
        IssueSeverity::High
    } else if s == "medium"@ {
        IssueSeverity::Medium
    } else {
        IssueSeverity::Low
    }
}

/// Lowercase name of a severity.
pub fn severity_name(value: IssueSeverity) -> (r: &'static str)
    ensures
        r@ == severity_text(value),
{
    match value {
        IssueSeverity::High => "high",
        IssueSeverity::Medium => "medium",
        IssueSeverity::Low => "low",
    }
}

/// Reads a severity name, as stored or as returned by the model.
pub fn parse_severity(value: &str) -> (r: IssueSeverity)
    ensures
        r == severity_from_text(value@),
{
    if str_eq(value, "high") {
        IssueSeverity::High
    } else if str_eq(value, "medium") {
        IssueSeverity::Medium
    } else {
        IssueSeverity::Low
    }
}

/// Stored name of an issue status.
pub open spec fn issue_status_text(s: IssueStatus) -> Seq<char> {
    match s {
        IssueStatus::Resolved => "resolved"@,
        IssueStatus::Ignored => "ignored"@,
        IssueStatus::Accepted => "accepted"@,
        IssueStatus::Open => "open"@,
    }
}

/// Issue status read back from its stored name; anything unknown is open.
pub open spec fn issue_status_from_text(s: Seq<char>) -> IssueStatus {
    if s == "accepted"@ {
        IssueStatus::Accepted
    } else if s == "ignored"@ {
        IssueStatus::Ignored
    } else if s == "resolved"@ {
        IssueStatus::Resolved
    } else {
        IssueStatus::Open
    }
}

/// Lowercase name of an issue status.
pub fn issue_status_name(value: IssueStatus) -> (r: &'static str)
    ensures
        r@ == issue_status_text(value),
{
    match value {
        IssueStatus::Resolved => "resolved",
        IssueStatus::Ignored => "ignored",
        IssueStatus::Accepted => "accepted",
        IssueStatus::Open => "open",
    }
}

/// Reads a stored issue status name.
pub fn parse_issue_status(value: &str) -> (r: IssueStatus)
    ensures
        r == issue_status_from_text(value@),
{
    if str_eq(value, "accepted") {
        IssueStatus::Accepted
    } else if str_eq(value, "ignored") {
        IssueStatus::Ignored
    } else if str_eq(value, "resolved") {
        IssueStatus::Resolved
    } else {
        IssueStatus::Open
    }
}

/// Every stored name reads back as the value that it names: each parser
/// undoes the corresponding name function.
pub proof fn stored_names_round_trip(
    source_type: SourceType,
    project_status: ProjectStatus,
    block_type: BlockType,
    status: ProofreadingStatus,
    mode: ProofreadingMode,
    issue_type: IssueType,
    severity: IssueSeverity,
    issue_status: IssueStatus,
)
    ensures
        source_type_from_text(source_type_text(source_type)) == source_type,
        project_status_from_text(project_status_text(project_status)) == project_status,
        block_type_from_text(block_type_text(block_type)) == block_type,
        status_from_text(status_text(status)) == status,
        mode_from_text(mode_text(mode)) == mode,
        issue_type_from_text(issue_type_text(issue_type)) == issue_type,
        severity_from_text(severity_text(severity)) == severity,
        issue_status_from_text(issue_status_text(issue_status)) == issue_status,
{
    // Names of different lengths differ; those of equal length that a
    // parser compares differ in their first character.
    reveal_strlit("accepted");
    reveal_strlit("completed");
    reveal_strlit("consistency");
    reveal_strlit("docx");
    reveal_strlit("draft");
    reveal_strlit("failed");
    reveal_strlit("full");
    reveal_strlit("grammar");
    reveal_strlit("heading");
    reveal_strlit("high");
    reveal_strlit("ignored");
    reveal_strlit("low");
    reveal_strlit("medium");
    reveal_strlit("open");
    reveal_strlit("paragraph");
    reveal_strlit("paused");
    reveal_strlit("pdf");
    reveal_strlit("pending");
    reveal_strlit("processing");
    reveal_strlit("punctuation");
    reveal_strlit("ready");
    reveal_strlit("redundancy");
    reveal_strlit("resolved");
    reveal_strlit("retry_failed");
    reveal_strlit("running");
    reveal_strlit("selection");
    reveal_strlit("table_cell");
    reveal_strlit("typo");
    reveal_strlit("wording");
    assert({
        &&& "accepted"@.len() == 8
        &&& "completed"@.len() == 9
        &&& "consistency"@.len() == 11
        &&& "docx"@.len() == 4
        &&& "draft"@.len() == 5
        &&& "failed"@.len() == 6
        &&& "full"@.len() == 4
        &&& "grammar"@.len() == 7
        &&& "heading"@.len() == 7
        &&& "high"@.len() == 4
        &&& "ignored"@.len() == 7
        &&& "low"@.len() == 3
        &&& "medium"@.len() == 6
        &&& "open"@.len() == 4
        &&& "paragraph"@.len() == 9
        &&& "paused"@.len() == 6
        &&& "pdf"@.len() == 3
        &&& "pending"@.len() == 7
        &&& "processing"@.len() == 10
        &&& "punctuation"@.len() == 11
        &&& "ready"@.len() == 5
        &&& "redundancy"@.len() == 10
        &&& "resolved"@.len() == 8
        &&& "retry_failed"@.len() == 12
        &&& "running"@.len() == 7
        &&& "selection"@.len() == 9
        &&& "table_cell"@.len() == 10
        &&& "typo"@.len() == 4
        &&& "wording"@.len() == 7
    });
    assert("draft"@[0] != "ready"@[0]);
    assert("pending"@[0] != "running"@[0]);
    assert("failed"@[0] != "paused"@[0]);
    assert("wording"@[0] != "grammar"@[0]);
    assert("consistency"@[0] != "punctuation"@[0]);
    assert("resolved"@[0] != "accepted"@[0]);
}

} // verus!
