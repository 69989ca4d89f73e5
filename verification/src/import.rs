//! Importing documents: which files are accepted, how a project is named
//! after its file, and the records that an import writes.
//!
//! The file system work (checking the path, copying the file, writing the
//! normalized document and the database rows) belongs to the application
//! shell.  The library decides, from the file's path and contents, what is
//! imported and what is refused.

use vstd::prelude::*;

use crate::docx::parse_docx;
use crate::error::AppError;
use crate::repository::{decode_block, decode_project, BlockRow, Database, ProjectRow};
use crate::text::{ascii_lower_seq, chars_of, owned, str_eq, string_from_chars, to_ascii_lowercase};
use crate::types::{
    block_type_name, block_type_text, clone_opt_string, project_status_name, project_status_text,
    source_type_name, source_type_text, status_text,
    stored_names_round_trip, BlockType, DocumentBlock, IssueSeverity, IssueStatus, IssueType,
    NormalizedDocument, ProjectDetail, ProjectStatus, ProjectSummary, ProofreadingMode,
    ProofreadingStatus, SourceType,
};

verus! {

// ---------------------------------------------------------------------------
// Paths
// ---------------------------------------------------------------------------

/// The final component of a path, as `std::path::Path::file_name` gives
/// it: `None` when the path ends in `..` or has no component.
pub uninterp spec fn path_file_name(path: Seq<char>) -> Option<Seq<char>>;

/// Position of the last `.` of a file name that is not its first
/// character, if there is one.
pub open spec fn embedded_dot(name: Seq<char>) -> Option<int> {
    if exists|i: int| 0 < i < name.len() && name[i] == '.' {
        Some(
            choose|i: int|
                0 < i < name.len() && name[i] == '.' && forall|j: int|
                    i < j < name.len() ==> name[j] != '.',
        )
    } else {
        None
    }
}

/// The extension of a file name, as the std documentation describes it:
/// none without an embedded `.` (a leading `.` does not count), else what
/// follows the last `.`.
pub open spec fn name_extension(name: Option<Seq<char>>) -> Option<Seq<char>> {
    match name {
        None => None,
        Some(n) => match embedded_dot(n) {
            None => None,
            Some(i) => Some(n.subrange(i + 1, n.len() as int)),
        },
    }
}

/// The stem of a file name, as the std documentation describes it: the
/// whole name without an embedded `.`, else what precedes the last `.`.
pub open spec fn name_stem(name: Option<Seq<char>>) -> Option<Seq<char>> {
    match name {
        None => None,
        Some(n) => match embedded_dot(n) {
            None => Some(n),
            Some(i) => Some(n.subrange(0, i)),
        },
    }
}

/// Calls `std::path::Path::file_name` on `path`.  The contract names the
/// result; a path given as `&str` has UTF-8 components, so `to_str` never
/// fails on them.
#[verifier::external_body]
fn file_name_of(path: &str) -> (r: Option<String>)
    ensures
        r is None <==> path_file_name(path@) is None,
        r matches Some(s) ==> path_file_name(path@) == Some(s@),
{
    match std::path::Path::new(path).file_name() {
        Some(name) => match name.to_str() {
            Some(s) => Some(s.to_string()),
            None => None,
        },
        None => None,
    }
}

/// Calls `std::path::Path::extension` on `path`.  The contract states the
/// documented result in terms of the file name.
#[verifier::external_body]
fn extension_of(path: &str) -> (r: Option<String>)
    ensures
        r is None <==> name_extension(path_file_name(path@)) is None,
        r matches Some(s) ==> name_extension(path_file_name(path@)) == Some(s@),
{
    match std::path::Path::new(path).extension() {
        Some(ext) => match ext.to_str() {
            Some(s) => Some(s.to_string()),
            None => None,
        },
        None => None,
    }
}

/// Calls `std::path::Path::file_stem` on `path`.  The contract states the
/// documented result in terms of the file name.
#[verifier::external_body]
fn file_stem_of(path: &str) -> (r: Option<String>)
    ensures
        r is None <==> name_stem(path_file_name(path@)) is None,
        r matches Some(s) ==> name_stem(path_file_name(path@)) == Some(s@),
{
    match std::path::Path::new(path).file_stem() {
        Some(stem) => match stem.to_str() {
            Some(s) => Some(s.to_string()),
            None => None,
        },
        None => None,
    }
}

/// The source type that a lowercased extension names.
pub open spec fn source_type_of(ext: Seq<char>) -> Option<SourceType> {
    if ext == "docx"@ {
        Some(SourceType::Docx)
    } else if ext == "pdf"@ {
        Some(SourceType::Pdf)
    } else {
        None
    }
}

/// The lowercased extension of a path (`missing_extension` without one).
pub fn extension(path: &str) -> (r: Result<String, AppError>)
    ensures
        r is Err <==> name_extension(path_file_name(path@)) is None,
        r matches Err(e) ==> e.code@ == "missing_extension"@,
        r matches Ok(s) ==> s@ == ascii_lower_seq(name_extension(path_file_name(path@))->0),
{
    match extension_of(path) {
        Some(ext) => {
            let chars = chars_of(ext.as_str());
            let lower = to_ascii_lowercase(&chars);
            Ok(string_from_chars(&lower))
        },
        None => Err(AppError::new("missing_extension", owned("文件缺少扩展名"))),
    }
}

/// The source type named by a lowercased extension: `docx` or `pdf`
/// (`unsupported_extension` otherwise).
pub fn source_type_of_extension(ext: &str) -> (r: Result<SourceType, AppError>)
    ensures
        r is Ok <==> source_type_of(ext@) is Some,
        r matches Ok(t) ==> source_type_of(ext@) == Some(t),
        r matches Err(e) ==> e.code@ == "unsupported_extension"@,
{
    if str_eq(ext, "docx") {
        Ok(SourceType::Docx)
    } else if str_eq(ext, "pdf") {
        Ok(SourceType::Pdf)
    } else {
        Err(AppError::new("unsupported_extension", owned("当前仅支持导入 DOCX 或 PDF")))
    }
}

/// The source type of a file, by its extension alone (ignoring ASCII case).
pub open spec fn detected_type(path: Seq<char>) -> Option<SourceType> {
    match name_extension(path_file_name(path)) {
        None => None,
        Some(ext) => source_type_of(ascii_lower_seq(ext)),
    }
}

/// The source type of a file, judged by its extension alone.  A path
/// without an extension fails with `missing_extension`, one whose
/// extension is neither `docx` nor `pdf` (in any ASCII case) with
/// `unsupported_extension`.
pub fn detect_source_type(path: &str) -> (r: Result<SourceType, AppError>)
    ensures
        r is Ok <==> detected_type(path@) is Some,
        r matches Ok(t) ==> detected_type(path@) == Some(t),
        name_extension(path_file_name(path@)) is None ==> (r matches Err(e) && e.code@
            == "missing_extension"@),
        (name_extension(path_file_name(path@)) is Some && detected_type(path@) is None) ==> (
        r matches Err(e) && e.code@ == "unsupported_extension"@),
{
    let ext = extension(path)?;
    source_type_of_extension(ext.as_str())
}

/// The project name taken from a path: its file stem
/// (`invalid_file_name` without one).
pub fn file_stem(path: &str) -> (r: Result<String, AppError>)
    ensures
        r is Err <==> path_file_name(path@) is None,
        r matches Err(e) ==> e.code@ == "invalid_file_name"@,
        r matches Ok(s) ==> Some(s@) == name_stem(path_file_name(path@)),
{
    match file_stem_of(path) {
        Some(stem) => Ok(stem),
        None => Err(AppError::new("invalid_file_name", owned("无法解析项目名称"))),
    }
}

/// Name under which the imported file is kept in the project's
/// `original` directory.
pub fn original_file_name(source_type: SourceType) -> (r: &'static str)
    ensures
        source_type == SourceType::Docx ==> r@ == "source.docx"@,
        source_type == SourceType::Pdf ==> r@ == "source.pdf"@,
{
    match source_type {
        SourceType::Docx => "source.docx",
        SourceType::Pdf => "source.pdf",
    }
}

// ---------------------------------------------------------------------------
// Projects
// ---------------------------------------------------------------------------

/// `s` is the summary of a freshly imported project.
pub open spec fn fresh_summary(
    s: ProjectSummary,
    project_id: Seq<char>,
    name: Seq<char>,
    file_name: Seq<char>,
    source_type: SourceType,
    total_blocks: int,
    now: Seq<char>,
) -> bool {
    &&& s.id@ == project_id
    &&& s.name@ == name
    &&& s.source_type == source_type
    &&& s.source_file_name@ == file_name
    &&& s.status == ProjectStatus::Ready
    &&& s.total_blocks == total_blocks
    &&& s.completed_blocks == 0
    &&& s.failed_blocks == 0
    &&& s.created_at@ == now
    &&& s.updated_at@ == now
}

/// The summary of a freshly imported project: ready, with no block done
/// yet, created and updated at `now`, and showing the file name of
/// `source_path`.
pub fn build_project_summary(
    project_id: &str,
    project_name: &str,
    source_path: &str,
    source_type: SourceType,
    total_blocks: i64,
    now: &str,
) -> (r: ProjectSummary)
    requires
        path_file_name(source_path@) is Some,
    ensures
        fresh_summary(
            r,
            project_id@,
            project_name@,
            path_file_name(source_path@)->0,
            source_type,
            total_blocks as int,
            now@,
        ),
{
    let file_name = match file_name_of(source_path) {
        Some(name) => name,
        None => String::new(),
    };
    ProjectSummary {
        id: owned(project_id),
        name: owned(project_name),
        source_type,
        source_file_name: file_name,
        status: ProjectStatus::Ready,
        total_blocks,
        completed_blocks: 0,
        failed_blocks: 0,
        created_at: owned(now),
        updated_at: owned(now),
    }
}

/// What an import produces: the project's summary and its normalized
/// document.
#[derive(Debug)]
pub struct ImportedProject {
    pub summary: ProjectSummary,
    pub document: NormalizedDocument,
}

/// Imports documents into projects of one database.
#[derive(Clone, Debug)]
pub struct ImportService {
    pub db: Database,
}

impl ImportService {
    /// The service over the given database.
    pub fn new(db: Database) -> (r: Self)
        ensures
            r.db == db,
    {
        ImportService { db }
    }

    /// Whether a file is imported here.  DOCX files are read by the
    /// library; PDF files have to be turned into a normalized document
    /// first (`pdf_frontend_required`); other paths fail as in
    /// `detect_source_type`.
    pub fn import_route(&self, file_path: &str) -> (r: Result<(), AppError>)
        ensures
            r is Ok <==> detected_type(file_path@) == Some(SourceType::Docx),
            detected_type(file_path@) == Some(SourceType::Pdf) ==> (r matches Err(e) && e.code@
                == "pdf_frontend_required"@),
            detected_type(file_path@) is None ==> (r matches Err(e) && (e.code@
                == "missing_extension"@ || e.code@ == "unsupported_extension"@)),
    {
        let source_type = detect_source_type(file_path)?;
        match source_type {
            SourceType::Docx => Ok(()),
            SourceType::Pdf => Err(
                AppError::new("pdf_frontend_required", owned("PDF 需先由前端提取文本后再导入")),
            ),
        }
    }

    /// Imports a DOCX file whose bytes are `archive` as the project
    /// `project_id`, created at `now`.  The project is named after the
    /// file's stem (`invalid_file_name` without one); the document is read
    /// as `parse_docx` reads it, and its errors are passed on.
    pub fn import_docx(&self, project_id: &str, now: &str, source_path: &str, archive: &[u8]) -> (r:
        Result<ImportedProject, AppError>)
        ensures
            path_file_name(source_path@) is None ==> (r matches Err(e) && e.code@
                == "invalid_file_name"@),
            path_file_name(source_path@) is Some ==> crate::docx::docx_result(
                archive@,
                project_id@,
                match r {
                    Ok(p) => Ok(p.document),
                    Err(e) => Err(e),
                },
            ),
            r matches Ok(p) ==> {
                &&& p.document.doc_id@ == project_id@
                &&& p.document.source_type == SourceType::Docx
                &&& fresh_summary(
                    p.summary,
                    project_id@,
                    name_stem(path_file_name(source_path@))->0,
                    path_file_name(source_path@)->0,
                    SourceType::Docx,
                    p.document.blocks@.len() as int,
                    now@,
                )
            },
    {
        let project_name = file_stem(source_path)?;
        let document = parse_docx(project_id, archive)?;
        let summary = build_project_summary(
            project_id,
            project_name.as_str(),
            source_path,
            SourceType::Docx,
            document.blocks.len() as i64,
            now,
        );
        Ok(ImportedProject { summary, document })
    }

    /// Imports a document that was normalized elsewhere (the PDF route) as
    /// the project `project_id`, created at `now`.  The file's own type must
    /// be the declared one (`source_type_mismatch`); the document keeps its
    /// version and blocks and takes the project's id and the declared type.
    pub fn import_normalized_document(
        &self,
        file_path: &str,
        source_type: SourceType,
        normalized: NormalizedDocument,
        project_id: &str,
        now: &str,
    ) -> (r: Result<ImportedProject, AppError>)
        requires
            normalized.blocks@.len() <= i64::MAX,
        ensures
            r is Ok <==> (detected_type(file_path@) == Some(source_type) && path_file_name(
                file_path@,
            ) is Some),
            detected_type(file_path@) is None ==> (r matches Err(e) && (e.code@
                == "missing_extension"@ || e.code@ == "unsupported_extension"@)),
            (detected_type(file_path@) is Some && detected_type(file_path@) != Some(source_type))
                ==> (r matches Err(e) && e.code@ == "source_type_mismatch"@),
            (detected_type(file_path@) == Some(source_type) && path_file_name(file_path@) is None)
                ==> (r matches Err(e) && e.code@ == "invalid_file_name"@),
            r matches Ok(p) ==> {
                &&& p.document.doc_id@ == project_id@
                &&& p.document.source_type == source_type
                &&& p.document.version == normalized.version
                &&& p.document.blocks == normalized.blocks
                &&& fresh_summary(
                    p.summary,
                    project_id@,
                    name_stem(path_file_name(file_path@))->0,
                    path_file_name(file_path@)->0,
                    source_type,
                    normalized.blocks@.len() as int,
                    now@,
                )
            },
    {
        let detected = detect_source_type(file_path)?;
        if detected != source_type {
            return Err(
                AppError::new("source_type_mismatch", owned("文件类型与标准化文档类型不匹配")),
            );
        }
        let project_name = file_stem(file_path)?;
        let total = normalized.blocks.len() as i64;
        let document = NormalizedDocument {
            doc_id: owned(project_id),
            source_type,
            version: normalized.version,
            blocks: normalized.blocks,
        };
        let summary = build_project_summary(
            project_id,
            project_name.as_str(),
            file_path,
            source_type,
            total,
            now,
        );
        Ok(ImportedProject { summary, document })
    }
}

// ---------------------------------------------------------------------------
// Stored records
// ---------------------------------------------------------------------------

/// The `projects` row of an imported project, with the locations of its
/// copied original and of its normalized document.  Reading it back gives
/// the project's summary and those locations.
pub fn project_record(summary: &ProjectSummary, original_path: &str, normalized_path: &str) -> (r:
    ProjectRow)
    ensures
        decode_project(r).summary == *summary,
        decode_project(r).source_file_path@ == original_path@,
        decode_project(r).normalized_doc_path@ == normalized_path@,
        r.source_type@ == source_type_text(summary.source_type),
        r.status@ == project_status_text(summary.status),
{
    proof {
        stored_names_round_trip(
            summary.source_type,
            summary.status,
            BlockType::Paragraph,
            ProofreadingStatus::Pending,
            ProofreadingMode::Full,
            IssueType::Typo,
            IssueSeverity::Low,
            IssueStatus::Open,
        );
    }
    ProjectRow {
        id: summary.id.clone(),
        name: summary.name.clone(),
        source_type: owned(source_type_name(summary.source_type)),
        source_file_name: summary.source_file_name.clone(),
        source_file_path: owned(original_path),
        normalized_doc_path: owned(normalized_path),
        status: owned(project_status_name(summary.status)),
        total_blocks: summary.total_blocks,
        completed_blocks: summary.completed_blocks,
        failed_blocks: summary.failed_blocks,
        created_at: summary.created_at.clone(),
        updated_at: summary.updated_at.clone(),
    }
}

/// The stored block that the `k`-th block of an imported document reads
/// back as: pending, at index `k`, with its text's length in characters.
pub open spec fn stored_block(
    summary: ProjectSummary,
    document: NormalizedDocument,
    payloads: Seq<String>,
    k: int,
) -> DocumentBlock {
    let b = document.blocks@[k];
    DocumentBlock {
        id: b.id,
        project_id: summary.id,
        block_index: k as i64,
        block_type: b.block_type,
        text_content: b.text,
        json_payload: payloads[k],
        source_page: b.page,
        source_locator: b.source_map.locator,
        char_count: b.text@.len() as i64,
        proofreading_status: ProofreadingStatus::Pending,
        updated_at: summary.updated_at,
    }
}

/// The stored form of a block keeps what the document says of it: its id,
/// its text, its page and locator, the project it belongs to, its position
/// as its index, its length in characters, and it starts pending.
pub proof fn stored_block_keeps_the_block(
    summary: ProjectSummary,
    document: NormalizedDocument,
    payloads: Seq<String>,
    k: int,
)
    requires
        0 <= k < document.blocks@.len() <= i64::MAX,
        document.blocks@[k].text@.len() <= i64::MAX,
    ensures
        ({
            let stored = stored_block(summary, document, payloads, k);
            let b = document.blocks@[k];
            &&& stored.id == b.id
            &&& stored.project_id == summary.id
            &&& stored.block_index == k
            &&& stored.block_type == b.block_type
            &&& stored.text_content == b.text
            &&& stored.source_page == b.page
            &&& stored.source_locator == b.source_map.locator
            &&& stored.char_count == b.text@.len()
            &&& stored.proofreading_status == ProofreadingStatus::Pending
        }),
{
}

/// The `document_blocks` rows of an imported document, one per block in
/// order; `payloads[k]` is the stored JSON form of block `k`.
pub fn block_records(
    summary: &ProjectSummary,
    document: &NormalizedDocument,
    payloads: &Vec<String>,
) -> (r: Vec<BlockRow>)
    requires
        payloads@.len() == document.blocks@.len(),
        document.blocks@.len() <= i64::MAX,
        forall|k: int|
            0 <= k < document.blocks@.len() ==> (#[trigger] document.blocks@[k]).text@.len()
                <= i64::MAX,
    ensures
        r@.len() == document.blocks@.len(),
        forall|k: int|
            0 <= k < r@.len() ==> decode_block(#[trigger] r@[k]) == stored_block(
                *summary,
                *document,
                payloads@,
                k,
            ),
        forall|k: int|
            0 <= k < r@.len() ==> (#[trigger] r@[k]).proofreading_status@ == status_text(
                ProofreadingStatus::Pending,
            ) && r@[k].block_type@ == block_type_text(document.blocks@[k].block_type),
        forall|k: int|
            0 <= k < r@.len() ==> {
                let row = #[trigger] r@[k];
                let b = document.blocks@[k];
                &&& row.id == b.id
                &&& row.project_id == summary.id
                &&& row.block_index == k
                &&& row.text_content == b.text
                &&& row.source_page == b.page
                &&& row.source_locator == b.source_map.locator
                &&& row.char_count == b.text@.len()
                &&& row.json_payload == payloads@[k]
            },
{
    let mut rows: Vec<BlockRow> = Vec::new();
    let mut i: usize = 0;
    while i < document.blocks.len()
        invariant
            i <= document.blocks@.len() <= i64::MAX,
            payloads@.len() == document.blocks@.len(),
            forall|k: int|
                0 <= k < document.blocks@.len() ==> (#[trigger] document.blocks@[k]).text@.len()
                    <= i64::MAX,
            rows@.len() == i,
            forall|k: int|
                0 <= k < i ==> decode_block(#[trigger] rows@[k]) == stored_block(
                    *summary,
                    *document,
                    payloads@,
                    k,
                ),
            forall|k: int|
                0 <= k < i ==> (#[trigger] rows@[k]).proofreading_status@ == status_text(
                    ProofreadingStatus::Pending,
                ) && rows@[k].block_type@ == block_type_text(document.blocks@[k].block_type),
        decreases document.blocks@.len() - i,
    {
        let block = &document.blocks[i];
        proof {
            stored_names_round_trip(
                SourceType::Docx,
                ProjectStatus::Draft,
                block.block_type,
                ProofreadingStatus::Pending,
                ProofreadingMode::Full,
                IssueType::Typo,
                IssueSeverity::Low,
                IssueStatus::Open,
            );
        }
        let char_count = chars_of(block.text.as_str()).len() as i64;
        let row = BlockRow {
            id: block.id.clone(),
            project_id: summary.id.clone(),
            block_index: i as i64,
            block_type: owned(block_type_name(block.block_type)),
            text_content: block.text.clone(),
            json_payload: payloads[i].clone(),
            source_page: block.page,
            source_locator: clone_opt_string(&block.source_map.locator),
            char_count,
            proofreading_status: owned(crate::types::status_name(ProofreadingStatus::Pending)),
            updated_at: summary.updated_at.clone(),
        };
        assert(decode_block(row) == stored_block(*summary, *document, payloads@, i as int));
        rows.push(row);
        i = i + 1;
    }
    rows
}

/// In a strictly ascending sequence of block indexes, the `k`-th index is
/// at least its distance from the start plus the first index.
proof fn lemma_ascending_from_start(rows: Seq<BlockRow>, k: int)
    requires
        0 <= k < rows.len(),
        forall|i: int, j: int|
            0 <= i < j < rows.len() ==> (#[trigger] rows[i]).block_index < (#[trigger] rows[
                j
            ]).block_index,
    ensures
        rows[k].block_index >= rows[0].block_index + k,
    decreases k,
{
    if k > 0 {
        lemma_ascending_from_start(rows, k - 1);
        assert(rows[k - 1].block_index < rows[k].block_index);
    }
}

/// In a strictly ascending sequence of block indexes, the `k`-th index is
/// at most the last index less its distance from the end.
proof fn lemma_ascending_to_end(rows: Seq<BlockRow>, k: int)
    requires
        0 <= k < rows.len(),
        forall|i: int, j: int|
            0 <= i < j < rows.len() ==> (#[trigger] rows[i]).block_index < (#[trigger] rows[
                j
            ]).block_index,
    ensures
        rows[k].block_index <= rows[rows.len() - 1].block_index - (rows.len() - 1 - k),
    decreases rows.len() - k,
{
    if k < rows.len() - 1 {
        lemma_ascending_to_end(rows, k + 1);
        assert(rows[k].block_index < rows[k + 1].block_index);
    }
}

/// What an import writes is what a read of the project's blocks gives
/// back.  When the rows that `block_records` wrote are read back ordered
/// by block index (every row read is one that was written, as many rows
/// are read as were written, and the indexes ascend), `list_blocks`
/// decodes them, in order, to the stored blocks of the document: the
/// `k`-th has the document's `k`-th id and text, block index `k`, and is
/// pending.
pub proof fn imported_blocks_read_back(
    summary: ProjectSummary,
    document: NormalizedDocument,
    payloads: Seq<String>,
    written: Seq<BlockRow>,
    read: Seq<BlockRow>,
)
    requires
        document.blocks@.len() <= i64::MAX,
        written.len() == document.blocks@.len(),
        forall|k: int|
            0 <= k < written.len() ==> decode_block(#[trigger] written[k]) == stored_block(
                summary,
                document,
                payloads,
                k,
            ),
        read.len() == written.len(),
        forall|i: int| 0 <= i < read.len() ==> written.contains(#[trigger] read[i]),
        forall|i: int, j: int|
            0 <= i < j < read.len() ==> (#[trigger] read[i]).block_index < (#[trigger] read[
                j
            ]).block_index,
    ensures
        forall|k: int|
            0 <= k < read.len() ==> decode_block(#[trigger] read[k]) == stored_block(
                summary,
                document,
                payloads,
                k,
            ),
        forall|k: int|
            0 <= k < read.len() ==> {
                let b = decode_block(#[trigger] read[k]);
                &&& b.id == document.blocks@[k].id
                &&& b.block_index == k
                &&& b.text_content == document.blocks@[k].text
                &&& b.proofreading_status == ProofreadingStatus::Pending
            },
{
    let n = read.len() as int;
    assert forall|j: int| 0 <= j < n implies (#[trigger] written[j]).block_index == j by {
        assert(decode_block(written[j]).block_index == stored_block(summary, document, payloads, j).block_index);
    }
    assert forall|k: int| 0 <= k < n implies read[k] == written[k] by {
        let j = choose|j: int| 0 <= j < written.len() && written[j] == read[k];
        assert(written[j].block_index == j);
        let j0 = choose|j0: int| 0 <= j0 < written.len() && written[j0] == read[0];
        assert(written[j0].block_index == j0);
        let j1 = choose|j1: int| 0 <= j1 < written.len() && written[j1] == read[n - 1];
        assert(written[j1].block_index == j1);
        lemma_ascending_from_start(read, k);
        lemma_ascending_to_end(read, k);
        assert(j == k);
    }
    assert forall|k: int| 0 <= k < n implies decode_block(#[trigger] read[k]) == stored_block(
        summary,
        document,
        payloads,
        k,
    ) by {
        assert(read[k] == written[k]);
    }
}

} // verus!
