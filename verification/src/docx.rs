//! Reading the paragraphs of a DOCX document.
//!
//! `word/document.xml` is taken out of the archive and read as a stream of
//! XML events.  A small state machine turns the stream into normalized
//! blocks: every paragraph end yields one block, `w:t` text, tabs and line
//! breaks become runs carrying the formatting marks of their run, and a
//! paragraph style whose name starts with "heading" makes the block a
//! heading.

use vstd::prelude::*;

use crate::error::AppError;
use crate::text::{
    ascii_lower_seq, chars_of, chars_start_with, decimal, decimal_padded, has_prefix, owned,
    push_decimal, push_decimal_padded, push_str, str_eq, string_from_range, to_ascii_lowercase,
};
use quick_xml::events::Event;

use crate::types::{
    BlockLayout, BlockRun, BlockType, NormalizedBlock, NormalizedDocument, SourceMap, SourceType,
    TextAlign, TextMark,
};

verus! {

// ---------------------------------------------------------------------------
// Outside readers
// ---------------------------------------------------------------------------

/// A start or empty-element tag with its attributes, each a key and its
/// value as written (not unescaped).
#[derive(Clone, Debug)]
pub struct XmlTag {
    pub name: String,
    pub attributes: Vec<(String, String)>,
}

/// One event of the XML reader.
#[derive(Clone, Debug)]
pub enum XmlEvent {
    /// `<name ...>`
    Start(XmlTag),
    /// `<name .../>`
    Empty(XmlTag),
    /// Character data between tags, as written.
    Text(String),
    /// `</name>`
    End(String),
    /// Comments, declarations, CDATA, entity references and the like.
    Other,
}

/// Why an archive entry could not be read.
#[derive(Debug)]
pub enum ArchiveError {
    /// The archive could not be opened, or has no such entry.
    Zip(String),
    /// The entry could not be read as UTF-8 text.
    Io(String),
}

/// The text of the entry `name` of the ZIP archive `archive`, when the
/// archive opens, has that entry, and the entry reads without error as
/// UTF-8 text.
pub uninterp spec fn zip_entry_text(archive: Seq<u8>, name: Seq<char>) -> Option<Seq<char>>;

/// Opens `archive` with `zip::ZipArchive::new`, looks up the entry with
/// `ZipArchive::by_name` and reads it with `Read::read_to_string`.  The
/// contract names the text: a function of the archive bytes and the entry
/// name.  Which of the two error kinds a failure gives is not stated.
#[verifier::external_body]
fn read_zip_entry(archive: &[u8], name: &str) -> (r: Result<String, ArchiveError>)
    ensures
        r is Ok <==> zip_entry_text(archive@, name@) is Some,
        r matches Ok(text) ==> Some(text@) == zip_entry_text(archive@, name@),
{
    let mut zip = match zip::ZipArchive::new(std::io::Cursor::new(archive)) {
        Ok(zip) => zip,
        Err(error) => return Err(ArchiveError::Zip(error.to_string())),
    };
    let mut entry = match zip.by_name(name) {
        Ok(entry) => entry,
        Err(error) => return Err(ArchiveError::Zip(error.to_string())),
    };
    let mut text = String::new();
    match std::io::Read::read_to_string(&mut entry, &mut text) {
        Ok(_) => Ok(text),
        Err(error) => Err(ArchiveError::Io(error.to_string())),
    }
}

/// What one read of an XML reader gives.
#[derive(Debug)]
pub enum XmlRead {
    /// A start tag (`false`) or an empty-element tag (`true`), with its
    /// name and attributes.
    Tag(bool, String, Vec<(String, String)>),
    /// Character data, as written.
    Text(String),
    /// An end tag, with its name.
    End(String),
    /// Any other event.
    Other,
    /// The end of the document.
    Eof,
    /// A syntax error, with its message.
    Failed(String),
}

/// A read that gives an event (neither the end nor an error).
pub open spec fn is_event_read(r: XmlRead) -> bool {
    !(r is Eof) && !(r is Failed)
}

/// The event that a read gives.
pub open spec fn event_of_read(r: XmlRead) -> XmlEvent {
    match r {
        XmlRead::Tag(self_closing, name, attributes) => if self_closing {
            XmlEvent::Empty(XmlTag { name, attributes })
        } else {
            XmlEvent::Start(XmlTag { name, attributes })
        },
        XmlRead::Text(t) => XmlEvent::Text(t),
        XmlRead::End(n) => XmlEvent::End(n),
        _ => XmlEvent::Other,
    }
}

/// The event of a read that gives one.
fn event_from_read(r: XmlRead) -> (e: XmlEvent)
    requires
        is_event_read(r),
    ensures
        e == event_of_read(r),
{
    match r {
        XmlRead::Tag(self_closing, name, attributes) => if self_closing {
            XmlEvent::Empty(XmlTag { name, attributes })
        } else {
            XmlEvent::Start(XmlTag { name, attributes })
        },
        XmlRead::Text(t) => XmlEvent::Text(t),
        XmlRead::End(n) => XmlEvent::End(n),
        _ => XmlEvent::Other,
    }
}

/// What the `k`-th call of `quick_xml::Reader::read_event` gives on a
/// reader made by `Reader::from_str(xml)` with text trimming off.
pub uninterp spec fn xml_read_at(xml: Seq<char>, k: nat) -> XmlRead;

/// A `quick_xml` reader over a document part, with the part that it reads
/// and the number of reads made so far.
pub struct XmlCursor<'a> {
    reader: quick_xml::Reader<&'a [u8]>,
    pub source: Ghost<Seq<char>>,
    pub read: Ghost<nat>,
}

/// `quick_xml::Reader`, carried opaquely.
#[verifier::external_type_specification]
#[verifier::external_body]
#[verifier::reject_recursive_types(R)]
pub struct ExXmlReader<R>(quick_xml::Reader<R>);

/// Makes a reader with `quick_xml::Reader::from_str` and turns text
/// trimming off (`Config::trim_text(false)`); no read is made yet.
#[verifier::external_body]
fn open_xml<'a>(xml: &'a str) -> (r: XmlCursor<'a>)
    ensures
        r.source@ == xml@,
        r.read@ == 0,
{
    let mut reader = quick_xml::Reader::from_str(xml);
    reader.config_mut().trim_text(false);
    XmlCursor { reader, source: Ghost(xml@), read: Ghost(0) }
}

/// Calls `Reader::read_event` once and converts what it gives: start,
/// empty-element, text and end events keep their raw text (tag names and
/// attribute values as written, the attributes that `Attributes` yields
/// without error); other events are `Other`.  The contract names the
/// result as the next read on the same part.
#[verifier::external_body]
fn next_xml_event(cursor: &mut XmlCursor) -> (r: XmlRead)
    ensures
        r == xml_read_at(old(cursor).source@, old(cursor).read@),
        final(cursor).source == old(cursor).source,
        final(cursor).read@ == old(cursor).read@ + 1,
{
    let (empty, tag) = match cursor.reader.read_event() {
        Ok(Event::Start(t)) => (false, t),
        Ok(Event::Empty(t)) => (true, t),
        Ok(Event::Text(t)) => return XmlRead::Text(t.to_string()),
        Ok(Event::End(t)) => return XmlRead::End(t.to_string()),
        Ok(Event::Eof) => return XmlRead::Eof,
        Ok(_) => return XmlRead::Other,
        Err(e) => return XmlRead::Failed(e.to_string()),
    };
    let pairs = tag.attributes().flatten().map(|a| (a.key.as_ref().to_string(), a.value.to_string()));
    XmlRead::Tag(empty, tag.name().as_ref().to_string(), pairs.collect())
}

/// The first `n` reads on `xml` all give events.
pub open spec fn reads_events_until(xml: Seq<char>, n: nat) -> bool {
    forall|k: nat| k < n ==> is_event_read(#[trigger] xml_read_at(xml, k))
}

/// The events of the first `n` reads on `xml`.
pub open spec fn events_read(xml: Seq<char>, n: nat) -> Seq<XmlEvent> {
    Seq::new(n, |k: int| event_of_read(xml_read_at(xml, k as nat)))
}

// ---------------------------------------------------------------------------
// Names and attributes
// ---------------------------------------------------------------------------

/// The local part of a qualified name: what follows its last `:`.
pub open spec fn local_name_spec(name: Seq<char>) -> Seq<char> {
    if exists|i: int| 0 <= i < name.len() && name[i] == ':' {
        let i = choose|i: int|
            0 <= i < name.len() && name[i] == ':' && forall|j: int| i < j < name.len() ==> name[j]
                != ':';
        name.subrange(i + 1, name.len() as int)
    } else {
        name
    }
}

/// Strips the namespace prefix of a tag or attribute name.
pub fn local_name(name: &str) -> (r: String)
    ensures
        r@ == local_name_spec(name@),
{
    let chars = chars_of(name);
    let mut k = chars.len();
    while k > 0
        invariant
            k <= chars.len(),
            chars@ == name@,
            forall|j: int| k <= j < chars@.len() ==> chars@[j] != ':',
        decreases k,
    {
        if chars[k - 1] == ':' {
            proof {
                let i = (k - 1) as int;
                assert(0 <= i < name@.len() && name@[i] == ':' && forall|j: int|
                    i < j < name@.len() ==> name@[j] != ':');
                let c = choose|i: int|
                    0 <= i < name@.len() && name@[i] == ':' && forall|j: int|
                        i < j < name@.len() ==> name@[j] != ':';
                if c < i {
                    assert(name@[i] != ':');
                }
                if c > i {
                    assert(name@[c] != ':');
                }
            }
            return string_from_range(&chars, k, chars.len());
        }
        k = k - 1;
    }
    proof {
        assert(chars@.subrange(0, chars@.len() as int) =~= chars@);
    }
    string_from_range(&chars, 0, chars.len())
}

/// The value of the first attribute whose local name is `expected`.
pub open spec fn attr_value_spec(attrs: Seq<(String, String)>, expected: Seq<char>) -> Option<
    Seq<char>,
>
    decreases attrs.len(),
{
    if attrs.len() == 0 {
        None
    } else if local_name_spec(attrs[0].0@) == expected {
        Some(attrs[0].1@)
    } else {
        attr_value_spec(attrs.drop_first(), expected)
    }
}

/// Reads an attribute of a tag by its local name.
pub fn attr_value(tag: &XmlTag, expected: &str) -> (r: Result<Option<String>, AppError>)
    ensures
        r is Ok,
        r matches Ok(v) ==> (match attr_value_spec(tag.attributes@, expected@) {
            Some(s) => v is Some && v->0@ == s,
            None => v is None,
        }),
{
    let mut i: usize = 0;
    assert(tag.attributes@.subrange(0, tag.attributes@.len() as int) =~= tag.attributes@);
    while i < tag.attributes.len()
        invariant
            i <= tag.attributes@.len(),
            attr_value_spec(tag.attributes@, expected@) == attr_value_spec(
                tag.attributes@.subrange(i as int, tag.attributes@.len() as int),
                expected@,
            ),
        decreases tag.attributes@.len() - i,
    {
        let attr = &tag.attributes[i];
        let key = local_name(attr.0.as_str());
        let ghost rest = tag.attributes@.subrange(i as int, tag.attributes@.len() as int);
        assert(rest[0] == tag.attributes@[i as int]);
        if str_eq(key.as_str(), expected) {
            return Ok(Some(attr.1.clone()));
        }
        assert(rest.drop_first() =~= tag.attributes@.subrange(
            i + 1,
            tag.attributes@.len() as int,
        ));
        i = i + 1;
    }
    Ok(None)
}

// ---------------------------------------------------------------------------
// The state machine, stated
// ---------------------------------------------------------------------------

/// A run as plain values.
#[verifier::ext_equal]
pub struct RunView {
    pub text: Seq<char>,
    pub marks: Seq<TextMark>,
}

/// The plain values of a run.
pub open spec fn run_view(r: BlockRun) -> RunView {
    RunView { text: r.text@, marks: r.marks@ }
}

/// The plain values of a sequence of runs.
pub open spec fn runs_view(rs: Seq<BlockRun>) -> Seq<RunView> {
    rs.map_values(|r: BlockRun| run_view(r))
}

/// State of the reader between two events.
#[verifier::ext_equal]
pub struct DocxState {
    /// Number of paragraphs finished so far.
    pub index: int,
    pub block_type: BlockType,
    /// Inside a `w:t` element.
    pub in_text: bool,
    /// Runs collected for the current paragraph.
    pub runs: Seq<RunView>,
    /// Marks of the current run.
    pub marks: Seq<TextMark>,
    /// Inside the run properties `w:rPr`.
    pub in_run_props: bool,
}

/// A finished paragraph.
pub struct ParagraphView {
    pub index: int,
    pub block_type: BlockType,
    pub runs: Seq<RunView>,
}

/// State before the first event.
pub open spec fn initial_state() -> DocxState {
    DocxState {
        index: 0,
        block_type: BlockType::Paragraph,
        in_text: false,
        runs: Seq::empty(),
        marks: Seq::empty(),
        in_run_props: false,
    }
}

/// `marks` with `m` added unless it is already there.
pub open spec fn with_mark(marks: Seq<TextMark>, m: TextMark) -> Seq<TextMark> {
    if marks.contains(m) {
        marks
    } else {
        marks.push(m)
    }
}

/// A paragraph style makes a heading when its `val`, lowercased, starts
/// with "heading".
pub open spec fn is_heading_style(tag: XmlTag) -> bool {
    let v = match attr_value_spec(tag.attributes@, "val"@) {
        Some(v) => v,
        None => Seq::empty(),
    };
    has_prefix(ascii_lower_seq(v), "heading"@)
}

/// Marks after a `w:vertAlign` tag: superscript or subscript by its `val`.
pub open spec fn vert_align_marks(marks: Seq<TextMark>, tag: XmlTag) -> Seq<TextMark> {
    let v = match attr_value_spec(tag.attributes@, "val"@) {
        Some(v) => v,
        None => Seq::empty(),
    };
    if v == "superscript"@ {
        with_mark(marks, TextMark::Superscript)
    } else if v == "subscript"@ {
        with_mark(marks, TextMark::Subscript)
    } else {
        marks
    }
}

/// Adding a mark with `with_mark` adds that mark and no other.
pub proof fn with_mark_contains(marks: Seq<TextMark>, x: TextMark, m: TextMark)
    ensures
        with_mark(marks, x).contains(m) <==> (marks.contains(m) || m == x),
{
    if !marks.contains(x) {
        let p = marks.push(x);
        if p.contains(m) && m != x {
            let i = choose|i: int| 0 <= i < p.len() && p[i] == m;
            assert(i < marks.len());
            assert(marks[i] == m);
        }
        if marks.contains(m) {
            let i = choose|i: int| 0 <= i < marks.len() && marks[i] == m;
            assert(p[i] == m);
        }
        assert(p[marks.len() as int] == x);
    }
}

/// A `w:vertAlign` tag adds exactly the mark that its `val` names: the
/// value `subscript` adds `Subscript`, the value `superscript` adds
/// `Superscript`, and any other value (or none) leaves the marks as they
/// were.  No other mark is ever added, so a subscript run never becomes
/// superscript.
pub proof fn vert_align_law(marks: Seq<TextMark>, tag: XmlTag, m: TextMark)
    ensures
        ({
            let v = match attr_value_spec(tag.attributes@, "val"@) {
                Some(v) => v,
                None => Seq::empty(),
            };
            vert_align_marks(marks, tag).contains(m) <==> (marks.contains(m) || (m
                == TextMark::Subscript && v == "subscript"@) || (m == TextMark::Superscript && v
                == "superscript"@))
        }),
{
    reveal_strlit("subscript");
    reveal_strlit("superscript");
    assert("subscript"@.len() == 9);
    assert("superscript"@.len() == 11);
    with_mark_contains(marks, TextMark::Subscript, m);
    with_mark_contains(marks, TextMark::Superscript, m);
}

/// State after a start tag.
pub open spec fn after_start(s: DocxState, tag: XmlTag) -> DocxState {
    let n = local_name_spec(tag.name@);
    if n == "p"@ {
        DocxState { runs: Seq::empty(), block_type: BlockType::Paragraph, in_text: false, ..s }
    } else if n == "r"@ {
        DocxState { marks: Seq::empty(), ..s }
    } else if n == "rPr"@ {
        DocxState { in_run_props: true, ..s }
    } else if n == "t"@ {
        DocxState { in_text: true, ..s }
    } else if n == "pStyle"@ {
        if is_heading_style(tag) {
            DocxState { block_type: BlockType::Heading, ..s }
        } else {
            s
        }
    } else if n == "b"@ && s.in_run_props {
        DocxState { marks: with_mark(s.marks, TextMark::Bold), ..s }
    } else if n == "i"@ && s.in_run_props {
        DocxState { marks: with_mark(s.marks, TextMark::Italic), ..s }
    } else if n == "u"@ && s.in_run_props {
        DocxState { marks: with_mark(s.marks, TextMark::Underline), ..s }
    } else if n == "strike"@ && s.in_run_props {
        DocxState { marks: with_mark(s.marks, TextMark::Strike), ..s }
    } else if n == "vertAlign"@ && s.in_run_props {
        DocxState { marks: vert_align_marks(s.marks, tag), ..s }
    } else {
        s
    }
}

/// State after an empty-element tag.  An empty paragraph `<w:p/>` is a
/// whole (empty) paragraph; tabs and line breaks become runs; a paragraph
/// style, and the formatting marks inside run properties, count as in their
/// start-tag form.
pub open spec fn after_empty(s: DocxState, tag: XmlTag) -> DocxState {
    let n = local_name_spec(tag.name@);
    if n == "p"@ {
        DocxState {
            index: s.index + 1,
            runs: Seq::empty(),
            block_type: BlockType::Paragraph,
            in_text: false,
            ..s
        }
    } else if n == "tab"@ {
        DocxState { runs: s.runs.push(RunView { text: "\t"@, marks: s.marks }), ..s }
    } else if n == "br"@ {
        DocxState { runs: s.runs.push(RunView { text: "\n"@, marks: s.marks }), ..s }
    } else if n == "pStyle"@ {
        if is_heading_style(tag) {
            DocxState { block_type: BlockType::Heading, ..s }
        } else {
            s
        }
    } else if n == "b"@ && s.in_run_props {
        DocxState { marks: with_mark(s.marks, TextMark::Bold), ..s }
    } else if n == "i"@ && s.in_run_props {
        DocxState { marks: with_mark(s.marks, TextMark::Italic), ..s }
    } else if n == "u"@ && s.in_run_props {
        DocxState { marks: with_mark(s.marks, TextMark::Underline), ..s }
    } else if n == "strike"@ && s.in_run_props {
        DocxState { marks: with_mark(s.marks, TextMark::Strike), ..s }
    } else if n == "vertAlign"@ && s.in_run_props {
        DocxState { marks: vert_align_marks(s.marks, tag), ..s }
    } else {
        s
    }
}

/// State after character data: kept only inside `w:t`.
pub open spec fn after_text(s: DocxState, text: Seq<char>) -> DocxState {
    if s.in_text {
        DocxState { runs: s.runs.push(RunView { text, marks: s.marks }), ..s }
    } else {
        s
    }
}

/// State after an end tag; a paragraph end finishes the paragraph.
pub open spec fn after_end(s: DocxState, name: Seq<char>) -> DocxState {
    let n = local_name_spec(name);
    if n == "t"@ {
        DocxState { in_text: false, ..s }
    } else if n == "rPr"@ {
        DocxState { in_run_props: false, ..s }
    } else if n == "p"@ {
        DocxState {
            index: s.index + 1,
            runs: Seq::empty(),
            block_type: BlockType::Paragraph,
            in_text: false,
            ..s
        }
    } else if n == "r"@ {
        DocxState { marks: Seq::empty(), ..s }
    } else {
        s
    }
}

/// The paragraph that an end tag finishes, if it is a paragraph end.
pub open spec fn finished_paragraph(s: DocxState, name: Seq<char>) -> Option<ParagraphView> {
    if local_name_spec(name) == "p"@ {
        Some(ParagraphView { index: s.index, block_type: s.block_type, runs: s.runs })
    } else {
        None
    }
}

/// The paragraph that an event finishes: a paragraph end finishes the
/// paragraph collected so far, an empty paragraph `<w:p/>` is a paragraph
/// of its own, without runs.
pub open spec fn finished_by(s: DocxState, e: XmlEvent) -> Option<ParagraphView> {
    match e {
        XmlEvent::End(name) => finished_paragraph(s, name@),
        XmlEvent::Empty(tag) => if local_name_spec(tag.name@) == "p"@ {
            Some(ParagraphView { index: s.index, block_type: BlockType::Paragraph, runs: Seq::empty() })
        } else {
            None
        },
        _ => None,
    }
}

/// State after one event.
pub open spec fn after_event(s: DocxState, e: XmlEvent) -> DocxState {
    match e {
        XmlEvent::Start(tag) => after_start(s, tag),
        XmlEvent::Empty(tag) => after_empty(s, tag),
        XmlEvent::Text(text) => after_text(s, text@),
        XmlEvent::End(name) => after_end(s, name@),
        XmlEvent::Other => s,
    }
}

/// The paragraphs finished by the first `n` events, and the state after
/// them.
pub open spec fn read_events(events: Seq<XmlEvent>, n: nat) -> (DocxState, Seq<ParagraphView>)
    decreases n,
{
    if n == 0 {
        (initial_state(), Seq::empty())
    } else {
        let (s, ps) = read_events(events, (n - 1) as nat);
        let e = events[n - 1];
        let ps2 = match finished_by(s, e) {
            Some(p) => ps.push(p),
            None => ps,
        };
        (after_event(s, e), ps2)
    }
}

/// Paragraphs are numbered in the order they end: after any prefix of the
/// events, the `k`-th finished paragraph has index `k`, and the state's
/// index counts the paragraphs finished so far.
pub proof fn paragraphs_numbered_in_order(events: Seq<XmlEvent>, n: nat)
    ensures
        read_events(events, n).0.index == read_events(events, n).1.len(),
        read_events(events, n).1.len() <= n,
        forall|k: int|
            0 <= k < read_events(events, n).1.len() ==> (#[trigger] read_events(events, n).1[k]).index
                == k,
    decreases n,
{
    if n > 0 {
        paragraphs_numbered_in_order(events, (n - 1) as nat);
        let s = read_events(events, (n - 1) as nat).0;
        match events[n - 1] {
            XmlEvent::Start(tag) => {
                assert(after_start(s, tag).index == s.index);
            },
            XmlEvent::Empty(tag) => {
                if local_name_spec(tag.name@) == "p"@ {
                    assert(after_empty(s, tag).index == s.index + 1);
                } else {
                    assert(after_empty(s, tag).index == s.index);
                }
            },
            XmlEvent::End(name) => {
                if local_name_spec(name@) == "p"@ {
                    reveal_strlit("t");
                    reveal_strlit("rPr");
                    reveal_strlit("p");
                    assert("t"@[0] != "p"@[0]);
                    assert("rPr"@.len() != "p"@.len());
                    assert(after_end(s, name@).index == s.index + 1);
                } else {
                    assert(after_end(s, name@).index == s.index);
                }
            },
            _ => {},
        }
    }
}

/// Concatenated text of a sequence of runs.
pub open spec fn runs_text(runs: Seq<RunView>) -> Seq<char>
    decreases runs.len(),
{
    if runs.len() == 0 {
        Seq::empty()
    } else {
        runs_text(runs.drop_last()) + runs.last().text
    }
}

/// `b` is the normalized block of the finished paragraph `p`.
pub open spec fn block_of_paragraph(b: NormalizedBlock, p: ParagraphView) -> bool {
    &&& b.id@ == "blk_"@ + decimal_padded((p.index + 1) as nat, 6)
    &&& b.block_type == p.block_type
    &&& b.page is None
    &&& runs_view(b.runs@) == p.runs
    &&& b.text@ == runs_text(p.runs)
    &&& b.layout.align == TextAlign::Left
    &&& b.layout.indent == 0
    &&& b.layout.line_break_before == 0
    &&& b.layout.line_break_after == 1
    &&& b.source_map.source_type == SourceType::Docx
    &&& b.source_map.paragraph_index == Some(p.index as i64)
    &&& b.source_map.run_range == (if p.runs.len() == 0 {
        None
    } else {
        Some((0i64, (p.runs.len() - 1) as i64))
    })
    &&& b.source_map.page is None
    &&& b.source_map.item_range is None
    &&& b.source_map.locator is Some
    &&& b.source_map.locator->0@ == "paragraph:"@ + decimal(p.index as nat)
}

// ---------------------------------------------------------------------------
// The state machine, run
// ---------------------------------------------------------------------------

/// A paragraph being collected from the event stream.
#[derive(Debug)]
pub(crate) struct ParagraphBuilder {
    pub(crate) index: i64,
    pub(crate) block_type: BlockType,
    pub(crate) in_text: bool,
    pub(crate) runs: Vec<BlockRun>,
}

/// The stated state that the builder and the current run's marks stand for.
pub(crate) open spec fn state_of(p: ParagraphBuilder, marks: Seq<TextMark>, in_run_props: bool) -> DocxState {
    DocxState {
        index: p.index as int,
        block_type: p.block_type,
        in_text: p.in_text,
        runs: runs_view(p.runs@),
        marks,
        in_run_props,
    }
}

/// A copy of a list of marks.
pub fn copy_marks(marks: &Vec<TextMark>) -> (r: Vec<TextMark>)
    ensures
        r@ == marks@,
{
    let mut out: Vec<TextMark> = Vec::new();
    let mut i: usize = 0;
    while i < marks.len()
        invariant
            i <= marks.len(),
            out@ == marks@.take(i as int),
        decreases marks.len() - i,
    {
        out.push(marks[i]);
        assert(marks@.take(i + 1) =~= marks@.take(i as int).push(marks@[i as int]));
        i = i + 1;
    }
    assert(marks@.take(marks@.len() as int) =~= marks@);
    out
}

/// A copy of a run.
pub fn copy_run(run: &BlockRun) -> (r: BlockRun)
    ensures
        run_view(r) == run_view(*run),
{
    BlockRun { text: run.text.clone(), marks: copy_marks(&run.marks) }
}

/// Adds a mark unless it is already present.
pub fn push_mark(marks: &mut Vec<TextMark>, mark: TextMark)
    ensures
        final(marks)@ == with_mark(old(marks)@, mark),
{
    let mut i: usize = 0;
    while i < marks.len()
        invariant
            i <= marks.len(),
            marks@ == old(marks)@,
            forall|j: int| 0 <= j < i ==> marks@[j] != mark,
        decreases marks.len() - i,
    {
        if marks[i] == mark {
            assert(marks@.contains(mark));
            return;
        }
        i = i + 1;
    }
    assert(!marks@.contains(mark));
    marks.push(mark);
}

impl ParagraphBuilder {
    /// A builder for the paragraph with the given index.
    pub(crate) fn new(index: i64) -> (r: Self)
        ensures
            r.index == index,
            r.block_type == BlockType::Paragraph,
            !r.in_text,
            r.runs@.len() == 0,
    {
        ParagraphBuilder { index, block_type: BlockType::Paragraph, in_text: false, runs: Vec::new() }
    }

    /// Resets the builder for a new paragraph.
    pub(crate) fn start_next(&mut self)
        ensures
            final(self).index == old(self).index,
            final(self).block_type == BlockType::Paragraph,
            !final(self).in_text,
            final(self).runs@.len() == 0,
    {
        self.runs.clear();
        self.block_type = BlockType::Paragraph;
        self.in_text = false;
    }

    /// A paragraph style whose `val` starts with "heading" (ignoring ASCII
    /// case) makes the paragraph a heading.
    pub(crate) fn capture_style(&mut self, tag: &XmlTag) -> (r: Result<(), AppError>)
        ensures
            r is Ok,
            final(self).index == old(self).index,
            final(self).in_text == old(self).in_text,
            final(self).runs == old(self).runs,
            final(self).block_type == (if is_heading_style(*tag) {
                BlockType::Heading
            } else {
                old(self).block_type
            }),
    {
        let value = attr_value(tag, "val")?;
        let style = match value {
            Some(v) => v,
            None => String::new(),
        };
        let chars = chars_of(style.as_str());
        let lower = to_ascii_lowercase(&chars);
        if chars_start_with(&lower, "heading") {
            self.block_type = BlockType::Heading;
        }
        Ok(())
    }

    /// A `w:vertAlign` of "superscript" or "subscript" adds that mark.
    pub(crate) fn capture_vert_align(&mut self, tag: &XmlTag, marks: &mut Vec<TextMark>) -> (r: Result<
        (),
        AppError,
    >)
        ensures
            r is Ok,
            *final(self) == *old(self),
            final(marks)@ == vert_align_marks(old(marks)@, *tag),
    {
        let value = attr_value(tag, "val")?;
        let align = match value {
            Some(v) => v,
            None => String::new(),
        };
        if str_eq(align.as_str(), "superscript") {
            push_mark(marks, TextMark::Superscript);
        } else if str_eq(align.as_str(), "subscript") {
            push_mark(marks, TextMark::Subscript);
        }
        Ok(())
    }

    /// Adds a run to the paragraph.
    pub(crate) fn push_text(&mut self, text: String, marks: Vec<TextMark>)
        ensures
            final(self).index == old(self).index,
            final(self).block_type == old(self).block_type,
            final(self).in_text == old(self).in_text,
            final(self).runs@ == old(self).runs@.push(BlockRun { text, marks }),
    {
        self.runs.push(BlockRun { text, marks });
    }

    /// The range of run indices of the paragraph, if it has runs.
    pub(crate) fn run_range(&self) -> (r: Option<(i64, i64)>)
        ensures
            r == (if self.runs@.len() == 0 {
                None
            } else {
                Some((0i64, (self.runs@.len() - 1) as i64))
            }),
    {
        if self.runs.len() == 0 {
            None
        } else {
            #[verifier::truncate]
            let last = (self.runs.len() - 1) as i64;
            Some((0, last))
        }
    }

    /// Moves on to the next paragraph.
    pub(crate) fn advance(&mut self)
        requires
            old(self).index < i64::MAX,
        ensures
            final(self).index == old(self).index + 1,
            final(self).block_type == BlockType::Paragraph,
            !final(self).in_text,
            final(self).runs@.len() == 0,
    {
        self.index = self.index + 1;
        self.start_next();
    }

    /// The normalized block of the collected paragraph.
    pub(crate) fn build(&self) -> (r: Result<NormalizedBlock, AppError>)
        requires
            0 <= self.index < i64::MAX,
        ensures
            r matches Ok(b) && block_of_paragraph(
                b,
                ParagraphView {
                    index: self.index as int,
                    block_type: self.block_type,
                    runs: runs_view(self.runs@),
                },
            ),
    {
        let mut block_id = owned("blk_");
        push_decimal_padded(&mut block_id, (self.index + 1) as u64, 6);
        let mut text = String::new();
        let mut runs: Vec<BlockRun> = Vec::new();
        let mut i: usize = 0;
        while i < self.runs.len()
            invariant
                i <= self.runs@.len(),
                runs_view(runs@) == runs_view(self.runs@.take(i as int)),
                text@ == runs_text(runs_view(self.runs@.take(i as int))),
            decreases self.runs@.len() - i,
        {
            let run = copy_run(&self.runs[i]);
            push_str(&mut text, run.text.as_str());
            runs.push(run);
            proof {
                let before = runs_view(self.runs@.take(i as int));
                let after = runs_view(self.runs@.take(i + 1));
                assert(after =~= before.push(run_view(self.runs@[i as int])));
                assert(after.drop_last() =~= before);
                assert(runs_view(runs@) =~= after);
            }
            i = i + 1;
        }
        proof {
            assert(self.runs@.take(self.runs@.len() as int) =~= self.runs@);
        }
        let mut locator = owned("paragraph:");
        push_decimal(&mut locator, self.index as u64);
        Ok(
            NormalizedBlock {
                id: block_id,
                block_type: self.block_type,
                page: None,
                runs,
                text,
                layout: BlockLayout {
                    align: TextAlign::Left,
                    indent: 0,
                    line_break_before: 0,
                    line_break_after: 1,
                },
                source_map: SourceMap {
                    source_type: SourceType::Docx,
                    paragraph_index: Some(self.index),
                    run_range: self.run_range(),
                    page: None,
                    item_range: None,
                    locator: Some(locator),
                },
            },
        )
    }
}

/// Handles a start tag.
pub(crate) fn handle_start(
    event: &XmlTag,
    paragraph: &mut ParagraphBuilder,
    current_marks: &mut Vec<TextMark>,
    in_run_props: &mut bool,
) -> (r: Result<(), AppError>)
    ensures
        r is Ok,
        state_of(*final(paragraph), final(current_marks)@, *final(in_run_props)) == after_start(
            state_of(*old(paragraph), old(current_marks)@, *old(in_run_props)),
            *event,
        ),
{
    proof {
        reveal_strlit("p");
        reveal_strlit("r");
        reveal_strlit("rPr");
        reveal_strlit("t");
        reveal_strlit("pStyle");
        reveal_strlit("b");
        reveal_strlit("i");
        reveal_strlit("u");
        reveal_strlit("strike");
        reveal_strlit("vertAlign");
    }
    let name = local_name(event.name.as_str());
    let n = name.as_str();
    if str_eq(n, "p") {
        paragraph.start_next();
        assert(runs_view(paragraph.runs@) =~= Seq::<RunView>::empty());
    } else if str_eq(n, "r") {
        current_marks.clear();
    } else if str_eq(n, "rPr") {
        *in_run_props = true;
    } else if str_eq(n, "t") {
        paragraph.in_text = true;
    } else if str_eq(n, "pStyle") {
        paragraph.capture_style(event)?;
    } else if str_eq(n, "b") && *in_run_props {
        push_mark(current_marks, TextMark::Bold);
    } else if str_eq(n, "i") && *in_run_props {
        push_mark(current_marks, TextMark::Italic);
    } else if str_eq(n, "u") && *in_run_props {
        push_mark(current_marks, TextMark::Underline);
    } else if str_eq(n, "strike") && *in_run_props {
        push_mark(current_marks, TextMark::Strike);
    } else if str_eq(n, "vertAlign") && *in_run_props {
        paragraph.capture_vert_align(event, current_marks)?;
    }
    Ok(())
}

/// Handles an empty-element tag such as `<w:tab/>`; an empty paragraph
/// adds its (empty) block.
pub(crate) fn handle_empty(
    event: &XmlTag,
    paragraph: &mut ParagraphBuilder,
    current_marks: &mut Vec<TextMark>,
    in_run_props: bool,
    blocks: &mut Vec<NormalizedBlock>,
) -> (r: Result<(), AppError>)
    requires
        0 <= old(paragraph).index < i64::MAX,
    ensures
        r is Ok,
        state_of(*final(paragraph), final(current_marks)@, in_run_props) == after_empty(
            state_of(*old(paragraph), old(current_marks)@, in_run_props),
            *event,
        ),
        match finished_by(
            state_of(*old(paragraph), old(current_marks)@, in_run_props),
            XmlEvent::Empty(*event),
        ) {
            Some(p) => final(blocks)@.len() == old(blocks)@.len() + 1 && final(blocks)@.take(
                old(blocks)@.len() as int,
            ) == old(blocks)@ && block_of_paragraph(final(blocks)@.last(), p),
            None => final(blocks)@ == old(blocks)@,
        },
{
    proof {
        reveal_strlit("p");
        reveal_strlit("tab");
        reveal_strlit("br");
        reveal_strlit("pStyle");
        reveal_strlit("b");
        reveal_strlit("i");
        reveal_strlit("u");
        reveal_strlit("strike");
        reveal_strlit("vertAlign");
    }
    let name = local_name(event.name.as_str());
    let n = name.as_str();
    if str_eq(n, "p") {
        paragraph.start_next();
        assert(runs_view(paragraph.runs@) =~= Seq::<RunView>::empty());
        let block = paragraph.build()?;
        paragraph.advance();
        assert(runs_view(paragraph.runs@) =~= Seq::<RunView>::empty());
        blocks.push(block);
        assert(blocks@.take(old(blocks)@.len() as int) =~= old(blocks)@);
    } else if str_eq(n, "tab") {
        paragraph.push_text(owned("\t"), copy_marks(current_marks));
        proof {
            assert(runs_view(paragraph.runs@) =~= runs_view(old(paragraph).runs@).push(
                RunView { text: "\t"@, marks: current_marks@ },
            ));
        }
    } else if str_eq(n, "br") {
        paragraph.push_text(owned("\n"), copy_marks(current_marks));
        proof {
            assert(runs_view(paragraph.runs@) =~= runs_view(old(paragraph).runs@).push(
                RunView { text: "\n"@, marks: current_marks@ },
            ));
        }
    } else if str_eq(n, "pStyle") {
        paragraph.capture_style(event)?;
    } else if str_eq(n, "b") && in_run_props {
        push_mark(current_marks, TextMark::Bold);
    } else if str_eq(n, "i") && in_run_props {
        push_mark(current_marks, TextMark::Italic);
    } else if str_eq(n, "u") && in_run_props {
        push_mark(current_marks, TextMark::Underline);
    } else if str_eq(n, "strike") && in_run_props {
        push_mark(current_marks, TextMark::Strike);
    } else if str_eq(n, "vertAlign") && in_run_props {
        paragraph.capture_vert_align(event, current_marks)?;
    }
    Ok(())
}

/// Handles an end tag; a paragraph end adds the paragraph's block.
pub(crate) fn handle_end(
    name: &str,
    paragraph: &mut ParagraphBuilder,
    current_marks: &mut Vec<TextMark>,
    in_run_props: &mut bool,
    blocks: &mut Vec<NormalizedBlock>,
) -> (r: Result<(), AppError>)
    requires
        0 <= old(paragraph).index < i64::MAX,
    ensures
        r is Ok,
        state_of(*final(paragraph), final(current_marks)@, *final(in_run_props)) == after_end(
            state_of(*old(paragraph), old(current_marks)@, *old(in_run_props)),
            name@,
        ),
        match finished_paragraph(
            state_of(*old(paragraph), old(current_marks)@, *old(in_run_props)),
            name@,
        ) {
            Some(p) => final(blocks)@.len() == old(blocks)@.len() + 1 && final(blocks)@.take(
                old(blocks)@.len() as int,
            ) == old(blocks)@ && block_of_paragraph(final(blocks)@.last(), p),
            None => final(blocks)@ == old(blocks)@,
        },
{
    proof {
        reveal_strlit("t");
        reveal_strlit("rPr");
        reveal_strlit("p");
        reveal_strlit("r");
        assert("t"@[0] != "p"@[0]);
        assert("rPr"@.len() != "p"@.len());
    }
    let local = local_name(name);
    let n = local.as_str();
    if str_eq(n, "t") {
        paragraph.in_text = false;
    } else if str_eq(n, "rPr") {
        *in_run_props = false;
    } else if str_eq(n, "p") {
        let block = paragraph.build()?;
        paragraph.advance();
        assert(runs_view(paragraph.runs@) =~= Seq::<RunView>::empty());
        blocks.push(block);
        assert(blocks@.take(old(blocks)@.len() as int) =~= old(blocks)@);
    } else if str_eq(n, "r") {
        current_marks.clear();
    }
    Ok(())
}

/// Reading the same events gives the same paragraphs: `read_events` only
/// looks at the first `n` events.
pub proof fn lemma_read_events_prefix(a: Seq<XmlEvent>, b: Seq<XmlEvent>, n: nat)
    requires
        n <= a.len(),
        n <= b.len(),
        forall|k: int| 0 <= k < n ==> a[k] == b[k],
    ensures
        read_events(a, n) == read_events(b, n),
    decreases n,
{
    if n > 0 {
        lemma_read_events_prefix(a, b, (n - 1) as nat);
    }
}

/// `doc` is the document read from the first `n` events of `xml`, with
/// the given id.
pub open spec fn document_of(doc: NormalizedDocument, project_id: Seq<char>, xml: Seq<char>, n: nat) -> bool {
    let paragraphs = read_events(events_read(xml, n), n).1;
    &&& doc.doc_id@ == project_id
    &&& doc.source_type == SourceType::Docx
    &&& doc.version == 1
    &&& doc.blocks@.len() == paragraphs.len()
    &&& forall|k: int|
        0 <= k < paragraphs.len() ==> block_of_paragraph(#[trigger] doc.blocks@[k], paragraphs[k])
}

/// What reading the DOCX archive `archive` as the document `project_id`
/// gives, as `parse_docx` states it.
pub open spec fn docx_result(
    archive: Seq<u8>,
    project_id: Seq<char>,
    r: Result<NormalizedDocument, AppError>,
) -> bool {
    &&& r matches Ok(doc) ==> doc.blocks@.len() < i64::MAX && doc.doc_id@ == project_id
        && doc.source_type == SourceType::Docx && doc.version == 1
    &&& match zip_entry_text(archive, "word/document.xml"@) {
        None => r matches Err(e) && (e.code@ == "zip_error"@ || e.code@ == "io_error"@),
        Some(xml) => forall|n: nat|
            #![trigger xml_read_at(xml, n)]
            reads_events_until(xml, n) ==> {
                &&& xml_read_at(xml, n) is Failed ==> (r matches Err(e) && e.code@
                    == "docx_parse_error"@)
                &&& (xml_read_at(xml, n) is Eof && n < i64::MAX) ==> (r matches Ok(doc)
                    && document_of(doc, project_id, xml, n))
            },
    }
}

/// Reads the paragraphs of a DOCX archive (its bytes) into a normalized
/// document with the given id.  An archive that does not open or lacks
/// `word/document.xml` fails with `zip_error` (or `io_error` when the entry
/// is not UTF-8 text); XML on which the reader stops with an error fails
/// with `docx_parse_error`.  When the reader reaches the end of the
/// document, every paragraph end yields a block, in order.  (A document of
/// `i64::MAX` events or more, which no memory holds, is refused with
/// `docx_parse_error` too.)
pub fn parse_docx(project_id: &str, archive: &[u8]) -> (r: Result<NormalizedDocument, AppError>)
    ensures
        docx_result(archive@, project_id@, r),
{
    let xml = match read_zip_entry(archive, "word/document.xml") {
        Ok(text) => text,
        Err(ArchiveError::Zip(message)) => {
            return Err(AppError::new("zip_error", message));
        },
        Err(ArchiveError::Io(message)) => {
            return Err(AppError::new("io_error", message));
        },
    };
    let ghost src = xml@;
    let mut cursor = open_xml(xml.as_str());
    let mut blocks: Vec<NormalizedBlock> = Vec::new();
    let mut paragraph = ParagraphBuilder::new(0);
    let mut in_run_props = false;
    let mut current_marks: Vec<TextMark> = Vec::new();
    proof {
        assert(runs_view(paragraph.runs@) =~= Seq::<RunView>::empty());
        assert(state_of(paragraph, current_marks@, in_run_props) == read_events(
            events_read(src, 0),
            0,
        ).0);
    }
    let mut i: u64 = 0;
    loop
        invariant
            zip_entry_text(archive@, "word/document.xml"@) == Some(src),
            cursor.source@ == src,
            cursor.read@ == i,
            i < i64::MAX,
            reads_events_until(src, i as nat),
            0 <= paragraph.index <= i,
            state_of(paragraph, current_marks@, in_run_props) == read_events(
                events_read(src, i as nat),
                i as nat,
            ).0,
            blocks@.len() == read_events(events_read(src, i as nat), i as nat).1.len(),
            forall|k: int|
                0 <= k < blocks@.len() ==> block_of_paragraph(
                    #[trigger] blocks@[k],
                    read_events(events_read(src, i as nat), i as nat).1[k],
                ),
        decreases i64::MAX - i,
    {
        let ghost es = events_read(src, i as nat);
        let ghost before = read_events(es, i as nat);
        let ghost old_blocks = blocks@;
        let read = next_xml_event(&mut cursor);
        let event = match read {
            XmlRead::Eof => {
                proof {
                    paragraphs_numbered_in_order(es, i as nat);
                    assert forall|n: nat|
                        #![trigger xml_read_at(src, n)]
                        reads_events_until(src, n) && !is_event_read(xml_read_at(src, n)) implies n
                        == i by {
                        if n < i {
                            assert(is_event_read(xml_read_at(src, n)));
                        }
                        if n > i {
                            assert(is_event_read(xml_read_at(src, i as nat)));
                        }
                    }
                }
                return Ok(
                    NormalizedDocument {
                        doc_id: owned(project_id),
                        source_type: SourceType::Docx,
                        version: 1,
                        blocks,
                    },
                );
            },
            XmlRead::Failed(message) => {
                proof {
                    assert forall|n: nat|
                        #![trigger xml_read_at(src, n)]
                        reads_events_until(src, n) && !is_event_read(xml_read_at(src, n)) implies n
                        == i by {
                        if n < i {
                            assert(is_event_read(xml_read_at(src, n)));
                        }
                        if n > i {
                            assert(is_event_read(xml_read_at(src, i as nat)));
                        }
                    }
                }
                return Err(AppError::new("docx_parse_error", message));
            },
            other => event_from_read(other),
        };
        let ghost es2 = events_read(src, (i + 1) as nat);
        proof {
            assert(es2[i as int] == event);
            lemma_read_events_prefix(es, es2, i as nat);
        }
        match &event {
            XmlEvent::Start(tag) => {
                handle_start(tag, &mut paragraph, &mut current_marks, &mut in_run_props)?;
            },
            XmlEvent::Empty(tag) => {
                handle_empty(tag, &mut paragraph, &mut current_marks, in_run_props, &mut blocks)?;
            },
            XmlEvent::Text(text) => {
                if paragraph.in_text {
                    let ghost old_runs = paragraph.runs@;
                    paragraph.push_text(text.clone(), copy_marks(&current_marks));
                    proof {
                        assert(runs_view(paragraph.runs@) =~= runs_view(old_runs).push(
                            RunView { text: text@, marks: current_marks@ },
                        ));
                    }
                }
            },
            XmlEvent::End(name) => {
                handle_end(
                    name.as_str(),
                    &mut paragraph,
                    &mut current_marks,
                    &mut in_run_props,
                    &mut blocks,
                )?;
            },
            XmlEvent::Other => {},
        }
        proof {
            let after = read_events(es2, (i + 1) as nat);
            assert(after.0 == after_event(before.0, es2[i as int]));
            assert forall|k: int| 0 <= k < blocks@.len() implies block_of_paragraph(
                #[trigger] blocks@[k],
                after.1[k],
            ) by {
                if k < old_blocks.len() {
                    assert(blocks@[k] == old_blocks[k]);
                    assert(after.1[k] == before.1[k]);
                }
            }
            assert forall|k: nat| k < i + 1 implies is_event_read(#[trigger] xml_read_at(src, k)) by {
                if k < i {
                    assert(is_event_read(xml_read_at(src, k)));
                }
            }
        }
        i = i + 1;
        if i == 9223372036854775807u64 {
            return Err(AppError::new("docx_parse_error", owned("XML 事件过多")));
        }
    }
}

} // verus!
