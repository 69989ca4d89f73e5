//! The command-line probe: a debugging tool that reads the database and
//! calls the model for one block without going through jobs and workers.
//!
//! The library parses the probe's arguments, picks the block to call and
//! renders the lines it prints; reading the database, calling the model and
//! printing are left to the application shell.

use vstd::prelude::*;

use crate::error::AppError;
use crate::proofread::copy_block;
use crate::text::{
    chars_of, decimal, owned, push_signed_decimal, push_str, signed_decimal, str_eq,
    string_from_chars, trim_spec,
};
use crate::types::{DocumentBlock, ProjectSummary, ProofreadingStatus};

verus! {

/// Usage text of the probe.
pub const USAGE: &'static str = "用法:
  cargo run --bin proofread_probe -- print-db-path
  cargo run --bin proofread_probe -- list-projects [--db /path/to/proofdesk.sqlite3]
  cargo run --bin proofread_probe -- list-blocks --project <project_id> [--db /path/to/proofdesk.sqlite3]
  cargo run --bin proofread_probe -- call-block --project <project_id> (--block <block_id> | --index <block_index>) [--db /path/to/proofdesk.sqlite3]";

/// A probe command.
#[derive(Debug)]
pub enum ProbeCommand {
    PrintDbPath,
    ListProjects { db_path: String },
    ListBlocks { db_path: String, project_id: String },
    CallBlock {
        db_path: String,
        project_id: String,
        block_id: Option<String>,
        block_index: Option<i64>,
    },
}

// ---------------------------------------------------------------------------
// Integers
// ---------------------------------------------------------------------------

/// An ASCII decimal digit.
pub open spec fn is_digit(c: char) -> bool {
    '0' <= c && c <= '9'
}

/// The value of a string of decimal digits.
pub open spec fn digits_value(d: Seq<char>) -> int
    decreases d.len(),
{
    if d.len() == 0 {
        0
    } else {
        digits_value(d.drop_last()) * 10 + (d.last() as int - '0' as int)
    }
}

/// Length of the sign in front of the digits: one for a leading `+` or
/// `-`, else zero.
pub open spec fn sign_len(s: Seq<char>) -> int {
    if s.len() > 0 && (s[0] == '-' || s[0] == '+') {
        1
    } else {
        0
    }
}

/// Every character is an ASCII digit.
pub open spec fn all_digits(d: Seq<char>) -> bool {
    forall|i: int| 0 <= i < d.len() ==> is_digit(#[trigger] d[i])
}

/// What `str::parse::<i64>` accepts: an optional `+` or `-`, then one or
/// more ASCII digits, whose value fits in an `i64`.
pub open spec fn parsed_i64(s: Seq<char>) -> Option<int> {
    let d = s.skip(sign_len(s));
    if d.len() == 0 || !all_digits(d) {
        None
    } else {
        let v = if s[0] == '-' {
            -digits_value(d)
        } else {
            digits_value(d)
        };
        if i64::MIN <= v && v <= i64::MAX {
            Some(v)
        } else {
            None
        }
    }
}

proof fn lemma_digits_step(d: Seq<char>, k: int)
    requires
        0 <= k < d.len(),
    ensures
        digits_value(d.take(k + 1)) == digits_value(d.take(k)) * 10 + (d[k] as int - '0' as int),
{
    assert(d.take(k + 1).drop_last() =~= d.take(k));
}

/// Parses a decimal `i64` as `str::parse::<i64>` does.
pub fn parse_i64(s: &str) -> (r: Option<i64>)
    ensures
        match parsed_i64(s@) {
            Some(v) => r == Some(v as i64),
            None => r is None,
        },
{
    let chars = chars_of(s);
    let n = chars.len();
    let negative = n > 0 && chars[0] == '-';
    let start: usize = if n > 0 && (chars[0] == '-' || chars[0] == '+') {
        1
    } else {
        0
    };
    let ghost d = s@.skip(start as int);
    assert(start as int == sign_len(s@));
    if start == n {
        return None;
    }
    let limit: u64 = if negative {
        9223372036854775808u64
    } else {
        9223372036854775807u64
    };
    let mut acc: u64 = 0;
    let mut big = false;
    let mut j: usize = start;
    while j < n
        invariant
            start <= j <= n == chars@.len(),
            chars@ == s@,
            d == s@.skip(start as int),
            start as int == sign_len(s@),
            limit == (if s@[0] == '-' {
                9223372036854775808u64
            } else {
                9223372036854775807u64
            }),
            forall|i: int| 0 <= i < j - start ==> is_digit(#[trigger] d[i]),
            !big ==> acc == digits_value(d.take(j - start)) && acc <= limit,
            big ==> digits_value(d.take(j - start)) > limit,
            digits_value(d.take(j - start)) >= 0,
        decreases n - j,
    {
        let c = chars[j];
        if !('0' <= c && c <= '9') {
            proof {
                assert(d[j - start] == c);
                assert(!all_digits(d));
            }
            return None;
        }
        let dv: u64 = ((c as u32) - ('0' as u32)) as u64;
        proof {
            assert(d[j - start] == c);
            lemma_digits_step(d, j - start);
        }
        if !big {
            let next: u128 = (acc as u128) * 10 + (dv as u128);
            if next > limit as u128 {
                big = true;
            } else {
                acc = next as u64;
            }
        }
        j = j + 1;
    }
    assert(d.take(n - start) =~= d);
    assert(all_digits(d));
    if big {
        return None;
    }
    if negative {
        if acc == 9223372036854775808u64 {
            Some(i64::MIN)
        } else {
            Some(-(acc as i64))
        }
    } else {
        Some(acc as i64)
    }
}

// ---------------------------------------------------------------------------
// Arguments
// ---------------------------------------------------------------------------

/// The value of a `--key value` option: the argument after the first
/// occurrence of `key` that has an argument after it.
pub open spec fn option_value(args: Seq<String>, key: Seq<char>) -> Option<String>
    decreases args.len(),
{
    if args.len() < 2 {
        None
    } else if args[0]@ == key {
        Some(args[1])
    } else {
        option_value(args.drop_first(), key)
    }
}

/// Reads a `--key value` option.
pub fn read_option(args: &Vec<String>, key: &str) -> (r: Option<String>)
    ensures
        r == option_value(args@, key@),
{
    let mut i: usize = 0;
    assert(args@.subrange(0, args@.len() as int) =~= args@);
    while i < args.len() && args.len() - i >= 2
        invariant
            i <= args@.len(),
            option_value(args@, key@) == option_value(
                args@.subrange(i as int, args@.len() as int),
                key@,
            ),
        decreases args@.len() - i,
    {
        let ghost rest = args@.subrange(i as int, args@.len() as int);
        assert(rest[0] == args@[i as int]);
        if str_eq(args[i].as_str(), key) {
            assert(rest[1] == args@[i + 1]);
            return Some(args[i + 1].clone());
        }
        assert(rest.drop_first() =~= args@.subrange(i + 1, args@.len() as int));
        i = i + 1;
    }
    None
}

/// The usage error.
pub fn usage_error() -> (r: AppError)
    ensures
        r.code@ == "invalid_args"@,
        r.message@ == USAGE@,
{
    AppError::new("invalid_args", owned(USAGE))
}

/// The command that the arguments name, or the code of the error that
/// refuses them.  `default_db` is the database used without `--db`.
pub open spec fn command_of(args: Seq<String>, default_db: String) -> Result<
    ProbeCommand,
    Seq<char>,
> {
    let db_path = match option_value(args, "--db"@) {
        Some(p) => p,
        None => default_db,
    };
    if args.len() == 0 {
        Err("invalid_args"@)
    } else if args[0]@ == "print-db-path"@ {
        Ok(ProbeCommand::PrintDbPath)
    } else if args[0]@ == "list-projects"@ {
        Ok(ProbeCommand::ListProjects { db_path })
    } else if args[0]@ == "list-blocks"@ {
        match option_value(args, "--project"@) {
            None => Err("missing_project_id"@),
            Some(project_id) => Ok(ProbeCommand::ListBlocks { db_path, project_id }),
        }
    } else if args[0]@ == "call-block"@ {
        match option_value(args, "--project"@) {
            None => Err("missing_project_id"@),
            Some(project_id) => match option_value(args, "--index"@) {
                None => Ok(
                    ProbeCommand::CallBlock {
                        db_path,
                        project_id,
                        block_id: option_value(args, "--block"@),
                        block_index: None,
                    },
                ),
                Some(text) => match parsed_i64(text@) {
                    None => Err("invalid_block_index"@),
                    Some(v) => Ok(
                        ProbeCommand::CallBlock {
                            db_path,
                            project_id,
                            block_id: option_value(args, "--block"@),
                            block_index: Some(v as i64),
                        },
                    ),
                },
            },
        }
    } else {
        Err("invalid_args"@)
    }
}

/// Parses the probe's arguments (without the program name).
pub fn parse_command(args: &Vec<String>, default_db: String) -> (r: Result<ProbeCommand, AppError>)
    ensures
        match command_of(args@, default_db) {
            Ok(c) => r == Ok::<ProbeCommand, AppError>(c),
            Err(code) => r matches Err(e) && e.code@ == code,
        },
{
    if args.len() == 0 {
        return Err(usage_error());
    }
    let db_path = match read_option(args, "--db") {
        Some(p) => p,
        None => default_db,
    };
    let command = args[0].as_str();
    if str_eq(command, "print-db-path") {
        Ok(ProbeCommand::PrintDbPath)
    } else if str_eq(command, "list-projects") {
        Ok(ProbeCommand::ListProjects { db_path })
    } else if str_eq(command, "list-blocks") {
        match read_option(args, "--project") {
            None => Err(AppError::new("missing_project_id", owned("请提供 --project"))),
            Some(project_id) => Ok(ProbeCommand::ListBlocks { db_path, project_id }),
        }
    } else if str_eq(command, "call-block") {
        let project_id = match read_option(args, "--project") {
            None => {
                return Err(AppError::new("missing_project_id", owned("请提供 --project")));
            },
            Some(p) => p,
        };
        let block_id = read_option(args, "--block");
        let block_index = match read_option(args, "--index") {
            None => None,
            Some(text) => match parse_i64(text.as_str()) {
                None => {
                    return Err(
                        AppError::new("invalid_block_index", owned("--index 必须是整数")),
                    );
                },
                Some(v) => Some(v),
            },
        };
        Ok(ProbeCommand::CallBlock { db_path, project_id, block_id, block_index })
    } else {
        Err(usage_error())
    }
}

// ---------------------------------------------------------------------------
// Choosing a block
// ---------------------------------------------------------------------------

/// The first block with the given id.
pub open spec fn first_with_id(bs: Seq<DocumentBlock>, id: Seq<char>) -> Option<DocumentBlock>
    decreases bs.len(),
{
    if bs.len() == 0 {
        None
    } else if bs[0].id@ == id {
        Some(bs[0])
    } else {
        first_with_id(bs.drop_first(), id)
    }
}

/// The first block at the given index.
pub open spec fn first_with_index(bs: Seq<DocumentBlock>, index: i64) -> Option<DocumentBlock>
    decreases bs.len(),
{
    if bs.len() == 0 {
        None
    } else if bs[0].block_index == index {
        Some(bs[0])
    } else {
        first_with_index(bs.drop_first(), index)
    }
}

fn find_by_id(blocks: &Vec<DocumentBlock>, block_id: &str) -> (r: Option<DocumentBlock>)
    ensures
        r == first_with_id(blocks@, block_id@),
{
    let mut i: usize = 0;
    assert(blocks@.subrange(0, blocks@.len() as int) =~= blocks@);
    while i < blocks.len()
        invariant
            i <= blocks@.len(),
            first_with_id(blocks@, block_id@) == first_with_id(
                blocks@.subrange(i as int, blocks@.len() as int),
                block_id@,
            ),
        decreases blocks@.len() - i,
    {
        let ghost rest = blocks@.subrange(i as int, blocks@.len() as int);
        assert(rest[0] == blocks@[i as int]);
        if str_eq(blocks[i].id.as_str(), block_id) {
            return Some(copy_block(&blocks[i]));
        }
        assert(rest.drop_first() =~= blocks@.subrange(i + 1, blocks@.len() as int));
        i = i + 1;
    }
    None
}

fn find_by_index(blocks: &Vec<DocumentBlock>, block_index: i64) -> (r: Option<DocumentBlock>)
    ensures
        r == first_with_index(blocks@, block_index),
{
    let mut i: usize = 0;
    assert(blocks@.subrange(0, blocks@.len() as int) =~= blocks@);
    while i < blocks.len()
        invariant
            i <= blocks@.len(),
            first_with_index(blocks@, block_index) == first_with_index(
                blocks@.subrange(i as int, blocks@.len() as int),
                block_index,
            ),
        decreases blocks@.len() - i,
    {
        let ghost rest = blocks@.subrange(i as int, blocks@.len() as int);
        assert(rest[0] == blocks@[i as int]);
        if blocks[i].block_index == block_index {
            return Some(copy_block(&blocks[i]));
        }
        assert(rest.drop_first() =~= blocks@.subrange(i + 1, blocks@.len() as int));
        i = i + 1;
    }
    None
}

/// Picks the block to call: by id when one is given, else by index
/// (`block_not_found` when no block matches), and fails with
/// `missing_block_selector` when neither is given.
pub fn select_block(blocks: &Vec<DocumentBlock>, block_id: Option<&str>, block_index: Option<i64>) -> (r:
    Result<DocumentBlock, AppError>)
    ensures
        block_id matches Some(id) ==> match first_with_id(blocks@, id@) {
            Some(b) => r == Ok::<DocumentBlock, AppError>(b),
            None => r matches Err(e) && e.code@ == "block_not_found"@ && e.message@
                == "未找到 block_id="@ + id@,
        },
        (block_id is None && block_index is Some) ==> match first_with_index(
            blocks@,
            block_index->0,
        ) {
            Some(b) => r == Ok::<DocumentBlock, AppError>(b),
            None => r matches Err(e) && e.code@ == "block_not_found"@ && e.message@
                == "未找到 block_index="@ + signed_decimal(block_index->0 as int),
        },
        (block_id is None && block_index is None) ==> (r matches Err(e) && e.code@
            == "missing_block_selector"@),
{
    if let Some(id) = block_id {
        return match find_by_id(blocks, id) {
            Some(b) => Ok(b),
            None => {
                let mut message = owned("未找到 block_id=");
                push_str(&mut message, id);
                Err(AppError::new("block_not_found", message))
            },
        };
    }
    if let Some(index) = block_index {
        return match find_by_index(blocks, index) {
            Some(b) => Ok(b),
            None => {
                let mut message = owned("未找到 block_index=");
                push_signed_decimal(&mut message, index);
                Err(AppError::new("block_not_found", message))
            },
        };
    }
    Err(AppError::new("missing_block_selector", owned("请通过 --block 或 --index 指定要测试的段落")))
}

// ---------------------------------------------------------------------------
// Printed lines
// ---------------------------------------------------------------------------

/// `t` with each line feed turned into a space.
pub open spec fn one_line(t: Seq<char>) -> Seq<char> {
    t.map_values(|c: char|
        if c == '\n' {
            ' '
        } else {
            c
        })
}

/// The one-line preview of a text: at most `max_chars` characters, and
/// `...` after them when the text was cut.
pub open spec fn preview(t: Seq<char>, max_chars: nat) -> Seq<char> {
    if one_line(t).len() > max_chars {
        one_line(t).take(max_chars as int) + "..."@
    } else {
        one_line(t)
    }
}

/// Squeezes a text into a one-line preview of at most `max_chars`
/// characters (followed by `...` when it was cut).
pub fn truncate_line(text: &str, max_chars: usize) -> (r: String)
    ensures
        r@ == preview(text@, max_chars as nat),
{
    let chars = chars_of(text);
    let mut out: Vec<char> = Vec::new();
    let mut i: usize = 0;
    while i < chars.len() && i < max_chars
        invariant
            i <= chars@.len(),
            i <= max_chars,
            chars@ == text@,
            out@ == one_line(text@).take(i as int),
        decreases chars@.len() - i,
    {
        let c = if chars[i] == '\n' {
            ' '
        } else {
            chars[i]
        };
        out.push(c);
        assert(one_line(text@).take(i + 1) =~= one_line(text@).take(i as int).push(c));
        i = i + 1;
    }
    let mut r = string_from_chars(&out);
    if chars.len() > max_chars {
        push_str(&mut r, "...");
    } else {
        assert(one_line(text@).take(i as int) =~= one_line(text@));
    }
    r
}

/// The name under which a block status is printed.
pub open spec fn status_label(s: ProofreadingStatus) -> Seq<char> {
    match s {
        ProofreadingStatus::Pending => "Pending"@,
        ProofreadingStatus::Running => "Running"@,
        ProofreadingStatus::Paused => "Paused"@,
        ProofreadingStatus::Completed => "Completed"@,
        ProofreadingStatus::Failed => "Failed"@,
    }
}

fn status_label_of(s: ProofreadingStatus) -> (r: &'static str)
    ensures
        r@ == status_label(s),
{
    match s {
        ProofreadingStatus::Pending => "Pending",
        ProofreadingStatus::Running => "Running",
        ProofreadingStatus::Paused => "Paused",
        ProofreadingStatus::Completed => "Completed",
        ProofreadingStatus::Failed => "Failed",
    }
}

/// The line printed for a project: id, name, source type and last update,
/// separated by tabs.
pub fn project_line(project: &ProjectSummary) -> (r: String)
    ensures
        r@ == project.id@ + "\t"@ + project.name@ + "\t"@ + crate::types::source_type_text(
            project.source_type,
        ) + "\t"@ + project.updated_at@,
{
    let mut out = owned(project.id.as_str());
    push_str(&mut out, "\t");
    push_str(&mut out, project.name.as_str());
    push_str(&mut out, "\t");
    push_str(&mut out, project.source_type.as_str());
    push_str(&mut out, "\t");
    push_str(&mut out, project.updated_at.as_str());
    proof {
        assert(out@ =~= project.id@ + "\t"@ + project.name@ + "\t"@
            + crate::types::source_type_text(project.source_type) + "\t"@ + project.updated_at@);
    }
    out
}

/// The line printed for a block: id, index, page (0 without one), status
/// and an 80-character preview of the text, separated by tabs.
pub fn block_line(block: &DocumentBlock) -> (r: String)
    ensures
        r@ == block.id@ + "\t#"@ + signed_decimal(block.block_index as int) + "\tpage="@
            + signed_decimal(
            match block.source_page {
                Some(p) => p as int,
                None => 0,
            },
        ) + "\tstatus="@ + status_label(block.proofreading_status) + "\t"@ + preview(
            block.text_content@,
            80,
        ),
{
    let mut out = owned(block.id.as_str());
    push_str(&mut out, "\t#");
    push_signed_decimal(&mut out, block.block_index);
    push_str(&mut out, "\tpage=");
    let page: i64 = match block.source_page {
        Some(p) => p,
        None => 0,
    };
    push_signed_decimal(&mut out, page);
    push_str(&mut out, "\tstatus=");
    push_str(&mut out, status_label_of(block.proofreading_status));
    push_str(&mut out, "\t");
    let shown = truncate_line(block.text_content.as_str(), 80);
    push_str(&mut out, shown.as_str());
    proof {
        assert(out@ =~= block.id@ + "\t#"@ + signed_decimal(block.block_index as int)
            + "\tpage="@ + signed_decimal(page as int) + "\tstatus="@ + status_label(
            block.proofreading_status,
        ) + "\t"@ + preview(block.text_content@, 80));
    }
    out
}

/// How a request authenticates: `bearer` with a non-blank API key,
/// `disabled` otherwise.
pub fn auth_header_mode(api_key: &str) -> (r: &'static str)
    ensures
        trim_spec(api_key@).len() > 0 ==> r@ == "bearer"@,
        trim_spec(api_key@).len() == 0 ==> r@ == "disabled"@,
{
    if crate::proofread::uses_bearer_auth(api_key) {
        "bearer"
    } else {
        "disabled"
    }
}

} // verus!
