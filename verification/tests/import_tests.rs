use std::io::{Cursor, Write};

use proofdesk::docx::parse_docx;
use proofdesk::import::{
    block_records, build_project_summary, detect_source_type, extension, file_stem,
    project_record, source_type_of_extension, ImportService,
};
use proofdesk::repository::{Database, ProjectRepository, ProofreadingRepository};
use proofdesk::types::{
    BlockType, NormalizedDocument, ProjectStatus, ProofreadingStatus, SourceType, TextMark,
};

fn zip_with(name: &str, contents: &str) -> Vec<u8> {
    let mut zip = zip::ZipWriter::new(Cursor::new(Vec::new()));
    zip.start_file(name, zip::write::SimpleFileOptions::default()).unwrap();
    zip.write_all(contents.as_bytes()).unwrap();
    zip.finish().unwrap().into_inner()
}

fn zip_with_bytes(name: &str, contents: &[u8]) -> Vec<u8> {
    let mut zip = zip::ZipWriter::new(Cursor::new(Vec::new()));
    zip.start_file(name, zip::write::SimpleFileOptions::default()).unwrap();
    zip.write_all(contents).unwrap();
    zip.finish().unwrap().into_inner()
}

fn test_docx() -> Vec<u8> {
    let xml = r#"<?xml version="1.0" encoding="UTF-8" standalone="yes"?>
            <w:document xmlns:w="http://schemas.openxmlformats.org/wordprocessingml/2006/main">
              <w:body>
                <w:p><w:r><w:t>第一段</w:t></w:r></w:p>
                <w:p>
                  <w:r><w:t>第二段</w:t></w:r>
                  <w:r><w:tab/></w:r>
                  <w:r><w:t>带 tab</w:t></w:r>
                </w:p>
              </w:body>
            </w:document>"#;
    zip_with("word/document.xml", xml)
}

fn service() -> ImportService {
    ImportService::new(Database::from_path("/tmp/proofdesk-test.sqlite3".to_string()))
}

#[test]
fn should_detect_docx_source_type() {
    let source_type = detect_source_type("/tmp/sample.docx").unwrap();
    assert!(matches!(source_type, SourceType::Docx));
}

#[test]
fn should_parse_docx_into_blocks() {
    let document = parse_docx("proj_test", &test_docx()).unwrap();
    assert_eq!(document.blocks.len(), 2);
    assert_eq!(document.blocks[0].text, "第一段");
    assert_eq!(document.blocks[1].text, "第二段\t带 tab");
}

#[test]
fn detects_pdf_and_ignores_case() {
    assert_eq!(detect_source_type("/tmp/a.pdf").unwrap(), SourceType::Pdf);
    assert_eq!(detect_source_type("/tmp/Report.DOCX").unwrap(), SourceType::Docx);
    assert_eq!(extension("/tmp/Report.DocX").unwrap(), "docx");
}

#[test]
fn refuses_unknown_and_missing_extensions() {
    assert_eq!(detect_source_type("/tmp/notes.txt").unwrap_err().code, "unsupported_extension");
    assert_eq!(detect_source_type("/tmp/notes").unwrap_err().code, "missing_extension");
    assert_eq!(detect_source_type("/tmp/.docx").unwrap_err().code, "missing_extension");
    assert_eq!(source_type_of_extension("doc").unwrap_err().code, "unsupported_extension");
}

#[test]
fn project_name_is_the_file_stem() {
    assert_eq!(file_stem("/tmp/书稿.final.docx").unwrap(), "书稿.final");
    assert_eq!(file_stem("/tmp/..").unwrap_err().code, "invalid_file_name");
}

#[test]
fn import_route_sends_pdf_to_the_front_end() {
    let s = service();
    assert!(s.import_route("/tmp/a.docx").is_ok());
    assert_eq!(s.import_route("/tmp/a.pdf").unwrap_err().code, "pdf_frontend_required");
    assert_eq!(s.import_route("/tmp/a.png").unwrap_err().code, "unsupported_extension");
}

#[test]
fn docx_import_builds_a_ready_project() {
    let imported = service()
        .import_docx("p1", "2024-01-01T00:00:00Z", "/tmp/书稿.docx", &test_docx())
        .unwrap();
    let s = &imported.summary;
    assert_eq!(s.id, "p1");
    assert_eq!(s.name, "书稿");
    assert_eq!(s.source_file_name, "书稿.docx");
    assert_eq!(s.source_type, SourceType::Docx);
    assert_eq!(s.status, ProjectStatus::Ready);
    assert_eq!(s.total_blocks, 2);
    assert_eq!(s.completed_blocks, 0);
    assert_eq!(s.failed_blocks, 0);
    assert_eq!(s.created_at, "2024-01-01T00:00:00Z");
    assert_eq!(s.updated_at, "2024-01-01T00:00:00Z");
    assert_eq!(imported.document.doc_id, "p1");
}

#[test]
fn normalized_import_checks_the_declared_type() {
    let doc = parse_docx("other", &test_docx()).unwrap();
    let err = service()
        .import_normalized_document("/tmp/a.docx", SourceType::Pdf, doc, "p2", "now")
        .unwrap_err();
    assert_eq!(err.code, "source_type_mismatch");

    let doc = parse_docx("other", &test_docx()).unwrap();
    let imported = service()
        .import_normalized_document("/tmp/a.pdf", SourceType::Pdf, doc, "p2", "now")
        .unwrap();
    assert_eq!(imported.document.doc_id, "p2");
    assert_eq!(imported.document.source_type, SourceType::Pdf);
    assert_eq!(imported.document.version, 1);
    assert_eq!(imported.summary.total_blocks, 2);
    assert_eq!(imported.summary.name, "a");
}

#[test]
fn docx_blocks_are_numbered_in_order() {
    let document = parse_docx("proj", &test_docx()).unwrap();
    assert_eq!(document.blocks[0].id, "blk_000001");
    assert_eq!(document.blocks[1].id, "blk_000002");
    assert_eq!(document.blocks[0].source_map.paragraph_index, Some(0));
    assert_eq!(document.blocks[1].source_map.locator.as_deref(), Some("paragraph:1"));
    assert_eq!(document.blocks[1].source_map.run_range, Some((0, 2)));
    assert_eq!(document.blocks[1].runs[1].text, "\t");
    assert_eq!(document.version, 1);
    assert_eq!(document.source_type, SourceType::Docx);
}

#[test]
fn docx_headings_and_marks() {
    let xml = r#"<w:document xmlns:w="w"><w:body>
      <w:p><w:pPr><w:pStyle w:val="Heading1"/></w:pPr><w:r><w:t>标题</w:t></w:r></w:p>
      <w:p><w:r><w:rPr><w:b></w:b><w:i></w:i><w:b></w:b><w:vertAlign w:val="superscript"></w:vertAlign></w:rPr><w:t>粗</w:t></w:r><w:r><w:rPr><w:u/></w:rPr><w:t>常</w:t></w:r><w:r><w:br/></w:r></w:p>
      <w:p></w:p>
    </w:body></w:document>"#;
    let document = parse_docx("proj", &zip_with("word/document.xml", xml)).unwrap();
    assert_eq!(document.blocks.len(), 3);
    assert_eq!(document.blocks[0].block_type, BlockType::Heading);
    assert_eq!(document.blocks[1].block_type, BlockType::Paragraph);
    assert_eq!(document.blocks[1].runs[0].marks, vec![TextMark::Bold, TextMark::Italic, TextMark::Superscript]);
    assert_eq!(document.blocks[1].runs[1].marks, vec![TextMark::Underline]);
    assert_eq!(document.blocks[1].text, "粗常\n");
    assert_eq!(document.blocks[2].text, "");
    assert_eq!(document.blocks[2].source_map.run_range, None);
}

#[test]
fn docx_empty_paragraph_makes_a_block() {
    let xml = r#"<w:document xmlns:w="w"><w:body><w:p><w:r><w:t>A</w:t></w:r></w:p><w:p/><w:p><w:r><w:t>B</w:t></w:r></w:p></w:body></w:document>"#;
    let document = parse_docx("proj", &zip_with("word/document.xml", xml)).unwrap();
    assert_eq!(document.blocks.len(), 3);
    assert_eq!(document.blocks[0].text, "A");
    assert_eq!(document.blocks[1].text, "");
    assert!(document.blocks[1].runs.is_empty());
    assert_eq!(document.blocks[1].id, "blk_000002");
    assert_eq!(document.blocks[1].source_map.paragraph_index, Some(1));
    assert_eq!(document.blocks[2].text, "B");
    assert_eq!(document.blocks[2].id, "blk_000003");
    assert_eq!(document.blocks[2].source_map.paragraph_index, Some(2));
}

#[test]
fn docx_self_closing_marks() {
    let xml = r#"<w:document xmlns:w="w"><w:body><w:p><w:r><w:rPr><w:b/><w:i/></w:rPr><w:t>X</w:t></w:r><w:r><w:rPr><w:strike/><w:u/><w:vertAlign w:val="superscript"/></w:rPr><w:t>Y</w:t></w:r><w:r><w:t>Z</w:t></w:r></w:p></w:body></w:document>"#;
    let document = parse_docx("proj", &zip_with("word/document.xml", xml)).unwrap();
    assert_eq!(document.blocks.len(), 1);
    assert_eq!(document.blocks[0].runs.len(), 3);
    assert_eq!(document.blocks[0].runs[0].text, "X");
    assert_eq!(document.blocks[0].runs[0].marks, vec![TextMark::Bold, TextMark::Italic]);
    assert_eq!(
        document.blocks[0].runs[1].marks,
        vec![TextMark::Strike, TextMark::Underline, TextMark::Superscript]
    );
    assert!(document.blocks[0].runs[2].marks.is_empty());
    assert_eq!(document.blocks[0].text, "XYZ");
}

#[test]
fn docx_errors_are_reported() {
    assert_eq!(parse_docx("p", b"not a zip").unwrap_err().code, "zip_error");
    let wrong_entry = zip_with("word/other.xml", "<a/>");
    assert_eq!(parse_docx("p", &wrong_entry).unwrap_err().code, "zip_error");
    let not_text = zip_with_bytes("word/document.xml", &[0x3c, 0xff, 0xfe, 0x3e]);
    assert_eq!(parse_docx("p", &not_text).unwrap_err().code, "io_error");
    let bad_xml = zip_with("word/document.xml", "<w:p><w:r></w:p>");
    assert_eq!(parse_docx("p", &bad_xml).unwrap_err().code, "docx_parse_error");
}

#[test]
fn stored_project_reads_back() {
    let summary = build_project_summary("p1", "名", "/x/名.docx", SourceType::Pdf, 3, "t0");
    let row = project_record(&summary, "/o/source.pdf", "/o/document.json");
    assert_eq!(row.source_type, "pdf");
    assert_eq!(row.status, "ready");
    let detail = ProjectRepository::new(Database::from_path(String::new()))
        .get(Some(row))
        .unwrap();
    assert_eq!(detail.summary.id, "p1");
    assert_eq!(detail.summary.source_type, SourceType::Pdf);
    assert_eq!(detail.summary.status, ProjectStatus::Ready);
    assert_eq!(detail.summary.total_blocks, 3);
    assert_eq!(detail.source_file_path, "/o/source.pdf");
    assert_eq!(detail.normalized_doc_path, "/o/document.json");
}

#[test]
fn stored_blocks_read_back_pending() {
    let document: NormalizedDocument = parse_docx("p1", &test_docx()).unwrap();
    let summary = build_project_summary("p1", "n", "/x/n.docx", SourceType::Docx, 2, "t1");
    let payloads = vec!["{}".to_string(), "{\"x\":1}".to_string()];
    let rows = block_records(&summary, &document, &payloads);
    assert_eq!(rows.len(), 2);
    assert_eq!(rows[1].char_count, 9);
    assert_eq!(rows[0].proofreading_status, "pending");
    assert_eq!(rows[1].proofreading_status, "pending");
    assert_eq!(rows[0].block_type, "paragraph");
    let blocks = ProofreadingRepository::new(Database::from_path(String::new())).list_blocks(rows);
    assert_eq!(blocks[1].block_index, 1);
    assert_eq!(blocks[1].proofreading_status, ProofreadingStatus::Pending);
    assert_eq!(blocks[1].json_payload, "{\"x\":1}");
    assert_eq!(blocks[1].text_content, "第二段\t带 tab");
    assert_eq!(blocks[0].project_id, "p1");
    assert_eq!(blocks[0].updated_at, "t1");
    assert_eq!(blocks[0].source_locator.as_deref(), Some("paragraph:0"));
}
