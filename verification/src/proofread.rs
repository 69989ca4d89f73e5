//! Proofreading jobs: which blocks a job covers, how a job's statistics
//! decide its final status, and the records written for each block that a
//! worker processes.

use vstd::prelude::*;

use crate::error::AppError;
use crate::repository::{count_in_range, Database, JobMetrics, NewCallRecord};
use crate::sanitize::{
    char_map_valid, issue_span, map_issue_offsets, prefix_context, sanitize_model_input,
    suffix_context, text_prefix, text_suffix, ModelIssue, SanitizedText,
};
use crate::settings::{build_rules, display_model_name};
use crate::text::{owned, trim_spec};
use crate::types::{
    clone_opt_string, issue_type_from_text, parse_issue_type, parse_severity, severity_from_text,
    AppSettings, DocumentBlock, IssueStatus, IssueType, ProjectStatus, ProofreadOptions,
    ProofreadingIssue, ProofreadingJob, ProofreadingMode, ProofreadingStatus,
};

verus! {

/// A copy of a stored block.
pub fn copy_block(b: &DocumentBlock) -> (r: DocumentBlock)
    ensures
        r == *b,
{
    DocumentBlock {
        id: b.id.clone(),
        project_id: b.project_id.clone(),
        block_index: b.block_index,
        block_type: b.block_type,
        text_content: b.text_content.clone(),
        json_payload: b.json_payload.clone(),
        source_page: b.source_page,
        source_locator: clone_opt_string(&b.source_locator),
        char_count: b.char_count,
        proofreading_status: b.proofreading_status,
        updated_at: b.updated_at.clone(),
    }
}

/// The last page skipped when `skip_pages` leading pages are skipped; zero
/// (no page) when `skip_pages` is zero or negative.
pub open spec fn skip_until_page(skip_pages: int) -> int {
    if skip_pages < 0 {
        0
    } else {
        skip_pages
    }
}

/// A block is in range when it has no page, or its page comes after the
/// last skipped page.
pub open spec fn in_page_range(b: DocumentBlock, skip_until: int) -> bool {
    match b.source_page {
        Some(page) => page > skip_until,
        None => true,
    }
}

/// Whether a job in `mode` covers block `b`: retrying covers only failed
/// blocks, every other mode covers every block in range.
pub open spec fn covers(b: DocumentBlock, mode: ProofreadingMode, skip_until: int) -> bool {
    in_page_range(b, skip_until) && (mode == ProofreadingMode::RetryFailed ==> b.proofreading_status
        == ProofreadingStatus::Failed)
}

/// The blocks among the first `n` of `bs` that a job covers, in order.
pub open spec fn covered_prefix(
    bs: Seq<DocumentBlock>,
    mode: ProofreadingMode,
    skip_until: int,
    n: nat,
) -> Seq<DocumentBlock>
    decreases n,
{
    if n == 0 {
        Seq::empty()
    } else {
        let p = covered_prefix(bs, mode, skip_until, (n - 1) as nat);
        if covers(bs[n - 1], mode, skip_until) {
            p.push(bs[n - 1])
        } else {
            p
        }
    }
}

/// The blocks of `bs` that a job covers, in order.
pub open spec fn covered_blocks(
    bs: Seq<DocumentBlock>,
    mode: ProofreadingMode,
    skip_pages: int,
) -> Seq<DocumentBlock> {
    covered_prefix(bs, mode, skip_until_page(skip_pages), bs.len())
}

/// The pending blocks among the first `n` of `bs`, in order.
pub open spec fn pending_prefix(bs: Seq<DocumentBlock>, n: nat) -> Seq<DocumentBlock>
    decreases n,
{
    if n == 0 {
        Seq::empty()
    } else {
        let p = pending_prefix(bs, (n - 1) as nat);
        if bs[n - 1].proofreading_status == ProofreadingStatus::Pending {
            p.push(bs[n - 1])
        } else {
            p
        }
    }
}

/// The pending blocks of `bs`, in order.
pub open spec fn pending_blocks(bs: Seq<DocumentBlock>) -> Seq<DocumentBlock> {
    pending_prefix(bs, bs.len())
}

/// Whether a block is proofread, given the last skipped page: a bound of 1
/// skips page 1, so proofreading starts at page 2.  A block without a page
/// is always proofread.
pub fn should_proofread_block(block: &DocumentBlock, skip_until_page: i64) -> (r: bool)
    ensures
        r == in_page_range(*block, skip_until_page as int),
{
    match block.source_page {
        Some(page) => page > skip_until_page,
        None => true,
    }
}

/// The blocks that a job in `mode` covers.  Retrying when no block has
/// failed is refused with `no_failed_blocks`.
pub fn select_blocks(blocks: &Vec<DocumentBlock>, mode: ProofreadingMode, skip_pages: i64) -> (r:
    Result<Vec<DocumentBlock>, AppError>)
    ensures
        (mode == ProofreadingMode::RetryFailed && covered_blocks(
            blocks@,
            mode,
            skip_pages as int,
        ).len() == 0) <==> r is Err,
        r matches Err(e) ==> e.code@ == "no_failed_blocks"@,
        r matches Ok(v) ==> v@ == covered_blocks(blocks@, mode, skip_pages as int),
{
    let skip_until: i64 = if skip_pages < 0 {
        0
    } else {
        skip_pages
    };
    let retry = match mode {
        ProofreadingMode::RetryFailed => true,
        _ => false,
    };
    let mut selected: Vec<DocumentBlock> = Vec::new();
    let mut i: usize = 0;
    while i < blocks.len()
        invariant
            i <= blocks.len(),
            skip_until == skip_until_page(skip_pages as int),
            retry == (mode == ProofreadingMode::RetryFailed),
            selected@ == covered_prefix(blocks@, mode, skip_until as int, i as nat),
        decreases blocks.len() - i,
    {
        let block = &blocks[i];
        if should_proofread_block(block, skip_until) {
            let failed = match block.proofreading_status {
                ProofreadingStatus::Failed => true,
                _ => false,
            };
            if !retry || failed {
                selected.push(copy_block(block));
            }
        }
        i = i + 1;
    }
    if retry && selected.len() == 0 {
        return Err(AppError::new("no_failed_blocks", crate::text::owned("当前没有可重试的失败块")));
    }
    Ok(selected)
}

/// The blocks that a run of a job processes: the pending blocks in page
/// range, in order.  A job resets the blocks it covers to pending when it
/// starts (a retry resets its failed blocks), so a run takes every pending
/// block in range whatever the job's mode.
pub fn select_pending_blocks(blocks: &Vec<DocumentBlock>, skip_pages: i64) -> (r: Vec<
    DocumentBlock,
>)
    ensures
        r@ == pending_blocks(covered_blocks(blocks@, ProofreadingMode::Full, skip_pages as int)),
{
    let selected = match select_blocks(blocks, ProofreadingMode::Full, skip_pages) {
        Ok(v) => v,
        Err(_) => Vec::new(),
    };
    let mut pending: Vec<DocumentBlock> = Vec::new();
    let mut i: usize = 0;
    while i < selected.len()
        invariant
            i <= selected.len(),
            selected@ == covered_blocks(blocks@, ProofreadingMode::Full, skip_pages as int),
            pending@ == pending_prefix(selected@, i as nat),
        decreases selected.len() - i,
    {
        let is_pending = match selected[i].proofreading_status {
            ProofreadingStatus::Pending => true,
            _ => false,
        };
        if is_pending {
            pending.push(copy_block(&selected[i]));
        }
        i = i + 1;
    }
    pending
}

/// Every block that a job covers comes from the input, is in range, and
/// (when retrying) has failed; every block in pending selection is pending
/// and among those covered.
pub proof fn lemma_covered_blocks(
    bs: Seq<DocumentBlock>,
    mode: ProofreadingMode,
    skip_until: int,
    n: nat,
)
    requires
        n <= bs.len(),
    ensures
        covered_prefix(bs, mode, skip_until, n).len() <= n,
        forall|k: int|
            0 <= k < covered_prefix(bs, mode, skip_until, n).len() ==> covers(
                #[trigger] covered_prefix(bs, mode, skip_until, n)[k],
                mode,
                skip_until,
            ) && bs.take(n as int).contains(covered_prefix(bs, mode, skip_until, n)[k]),
    decreases n,
{
    if n > 0 {
        lemma_covered_blocks(bs, mode, skip_until, (n - 1) as nat);
        let p = covered_prefix(bs, mode, skip_until, (n - 1) as nat);
        let q = covered_prefix(bs, mode, skip_until, n);
        assert forall|k: int| 0 <= k < q.len() implies covers(#[trigger] q[k], mode, skip_until)
            && bs.take(n as int).contains(q[k]) by {
            if k < p.len() {
                assert(q[k] == p[k]);
                let j = choose|j: int| 0 <= j < n - 1 && #[trigger] bs.take(n - 1)[j] == p[k];
                assert(bs.take(n as int)[j] == p[k]);
            } else {
                assert(bs.take(n as int)[n - 1] == bs[n - 1]);
            }
        }
    }
}

/// Every block of the first `n` that a job should cover is covered.
proof fn lemma_covered_complete(
    bs: Seq<DocumentBlock>,
    mode: ProofreadingMode,
    skip_until: int,
    n: nat,
)
    requires
        n <= bs.len(),
    ensures
        forall|k: int|
            0 <= k < n && covers(#[trigger] bs[k], mode, skip_until) ==> covered_prefix(
                bs,
                mode,
                skip_until,
                n,
            ).contains(bs[k]),
    decreases n,
{
    if n > 0 {
        lemma_covered_complete(bs, mode, skip_until, (n - 1) as nat);
        let p = covered_prefix(bs, mode, skip_until, (n - 1) as nat);
        let q = covered_prefix(bs, mode, skip_until, n);
        assert forall|k: int| 0 <= k < n && covers(#[trigger] bs[k], mode, skip_until) implies q.contains(
            bs[k],
        ) by {
            if k < n - 1 {
                let j = choose|j: int| 0 <= j < p.len() && p[j] == bs[k];
                assert(q[j] == p[j]);
            } else {
                assert(q[q.len() - 1] == bs[k]);
            }
        }
    }
}

/// The blocks that a job covers are exactly those that it should cover, and
/// those it runs are the pending ones among them.
pub proof fn selection_law(bs: Seq<DocumentBlock>, mode: ProofreadingMode, skip_pages: int)
    ensures
        forall|k: int|
            0 <= k < bs.len() && covers(#[trigger] bs[k], mode, skip_until_page(skip_pages))
                ==> covered_blocks(bs, mode, skip_pages).contains(bs[k]),
        forall|k: int|
            0 <= k < covered_blocks(bs, mode, skip_pages).len() ==> covers(
                #[trigger] covered_blocks(bs, mode, skip_pages)[k],
                mode,
                skip_until_page(skip_pages),
            ) && bs.contains(covered_blocks(bs, mode, skip_pages)[k]),
        forall|k: int|
            0 <= k < pending_blocks(covered_blocks(bs, mode, skip_pages)).len() ==> (
            #[trigger] pending_blocks(covered_blocks(bs, mode, skip_pages))[k]).proofreading_status
                == ProofreadingStatus::Pending && covered_blocks(bs, mode, skip_pages).contains(
                pending_blocks(covered_blocks(bs, mode, skip_pages))[k],
            ),
{
    lemma_covered_blocks(bs, mode, skip_until_page(skip_pages), bs.len());
    lemma_covered_complete(bs, mode, skip_until_page(skip_pages), bs.len());
    assert(bs.take(bs.len() as int) =~= bs);
    let c = covered_blocks(bs, mode, skip_pages);
    lemma_pending_blocks(c, c.len());
    assert(c.take(c.len() as int) =~= c);
}

proof fn lemma_pending_blocks(bs: Seq<DocumentBlock>, n: nat)
    requires
        n <= bs.len(),
    ensures
        forall|k: int|
            0 <= k < pending_prefix(bs, n).len() ==> (#[trigger] pending_prefix(
                bs,
                n,
            )[k]).proofreading_status == ProofreadingStatus::Pending && bs.take(n as int).contains(
                pending_prefix(bs, n)[k],
            ),
    decreases n,
{
    if n > 0 {
        lemma_pending_blocks(bs, (n - 1) as nat);
        let p = pending_prefix(bs, (n - 1) as nat);
        let q = pending_prefix(bs, n);
        assert forall|k: int| 0 <= k < q.len() implies (#[trigger] q[k]).proofreading_status
            == ProofreadingStatus::Pending && bs.take(n as int).contains(q[k]) by {
            if k < p.len() {
                assert(q[k] == p[k]);
                let j = choose|j: int| 0 <= j < n - 1 && #[trigger] bs.take(n - 1)[j] == p[k];
                assert(bs.take(n as int)[j] == p[k]);
            } else {
                assert(bs.take(n as int)[n - 1] == bs[n - 1]);
            }
        }
    }
}

/// Every pending block among the first `n` is kept by the pending
/// selection.
proof fn lemma_pending_complete(bs: Seq<DocumentBlock>, n: nat)
    requires
        n <= bs.len(),
    ensures
        forall|k: int|
            0 <= k < n && (#[trigger] bs[k]).proofreading_status == ProofreadingStatus::Pending
                ==> pending_prefix(bs, n).contains(bs[k]),
    decreases n,
{
    if n > 0 {
        lemma_pending_complete(bs, (n - 1) as nat);
        let p = pending_prefix(bs, (n - 1) as nat);
        let q = pending_prefix(bs, n);
        assert forall|k: int|
            0 <= k < n && (#[trigger] bs[k]).proofreading_status == ProofreadingStatus::Pending
                implies q.contains(bs[k]) by {
            if k < n - 1 {
                let j = choose|j: int| 0 <= j < p.len() && p[j] == bs[k];
                assert(q[j] == p[j]);
            } else {
                assert(q[q.len() - 1] == bs[k]);
            }
        }
    }
}

/// A run processes every pending block in page range, whatever the job's
/// mode.  In particular a retry, which resets its failed blocks to pending
/// when it starts, processes every block it reset.
pub proof fn run_takes_every_pending_block(bs: Seq<DocumentBlock>, skip_pages: int)
    ensures
        forall|k: int|
            0 <= k < bs.len() && in_page_range(#[trigger] bs[k], skip_until_page(skip_pages))
                && bs[k].proofreading_status == ProofreadingStatus::Pending ==> pending_blocks(
                covered_blocks(bs, ProofreadingMode::Full, skip_pages),
            ).contains(bs[k]),
{
    let c = covered_blocks(bs, ProofreadingMode::Full, skip_pages);
    lemma_covered_complete(bs, ProofreadingMode::Full, skip_until_page(skip_pages), bs.len());
    lemma_pending_complete(c, c.len());
    assert forall|k: int|
        0 <= k < bs.len() && in_page_range(#[trigger] bs[k], skip_until_page(skip_pages))
            && bs[k].proofreading_status == ProofreadingStatus::Pending implies pending_blocks(
        c,
    ).contains(bs[k]) by {
        assert(covers(bs[k], ProofreadingMode::Full, skip_until_page(skip_pages)));
        let j = choose|j: int| 0 <= j < c.len() && c[j] == bs[k];
        assert(c[j].proofreading_status == ProofreadingStatus::Pending);
    }
}

proof fn lemma_covered_is_filter(bs: Seq<DocumentBlock>, mode: ProofreadingMode, skip_until: int, n: nat)
    requires
        n <= bs.len(),
    ensures
        covered_prefix(bs, mode, skip_until, n) == bs.take(n as int).filter(
            |b: DocumentBlock| covers(b, mode, skip_until),
        ),
    decreases n,
{
    reveal(Seq::filter);
    let t = bs.take(n as int);
    if n == 0 {
        assert(t =~= Seq::<DocumentBlock>::empty());
    } else {
        lemma_covered_is_filter(bs, mode, skip_until, (n - 1) as nat);
        assert(t.drop_last() =~= bs.take(n - 1));
        assert(t.last() == bs[n - 1]);
    }
}

proof fn lemma_pending_is_filter(bs: Seq<DocumentBlock>, n: nat)
    requires
        n <= bs.len(),
    ensures
        pending_prefix(bs, n) == bs.take(n as int).filter(
            |b: DocumentBlock| b.proofreading_status == ProofreadingStatus::Pending,
        ),
    decreases n,
{
    reveal(Seq::filter);
    let t = bs.take(n as int);
    if n == 0 {
        assert(t =~= Seq::<DocumentBlock>::empty());
    } else {
        lemma_pending_is_filter(bs, (n - 1) as nat);
        assert(t.drop_last() =~= bs.take(n - 1));
        assert(t.last() == bs[n - 1]);
    }
}

/// The blocks a job covers are the blocks that are in page range (a page
/// after the skipped ones, or no page) and, when retrying, failed: all of
/// them, in their order.  A run takes, of these, exactly the pending ones.
pub proof fn selection_is_filter(bs: Seq<DocumentBlock>, mode: ProofreadingMode, skip_pages: int)
    ensures
        covered_blocks(bs, mode, skip_pages) == bs.filter(
            |b: DocumentBlock|
                (match b.source_page {
                    Some(page) => page > (if skip_pages < 0 {
                        0
                    } else {
                        skip_pages
                    }),
                    None => true,
                }) && (mode == ProofreadingMode::RetryFailed ==> b.proofreading_status
                    == ProofreadingStatus::Failed),
        ),
        pending_blocks(covered_blocks(bs, mode, skip_pages)) == covered_blocks(
            bs,
            mode,
            skip_pages,
        ).filter(|b: DocumentBlock| b.proofreading_status == ProofreadingStatus::Pending),
{
    lemma_covered_is_filter(bs, mode, skip_until_page(skip_pages), bs.len());
    assert(bs.take(bs.len() as int) =~= bs);
    let c = covered_blocks(bs, mode, skip_pages);
    lemma_pending_is_filter(c, c.len());
    assert(c.take(c.len() as int) =~= c);
    let f1 = |b: DocumentBlock| covers(b, mode, skip_until_page(skip_pages));
    let f2 = |b: DocumentBlock|
        (match b.source_page {
            Some(page) => page > (if skip_pages < 0 {
                0
            } else {
                skip_pages
            }),
            None => true,
        }) && (mode == ProofreadingMode::RetryFailed ==> b.proofreading_status
            == ProofreadingStatus::Failed);
    assert(f1 =~= f2);
}

// ---------------------------------------------------------------------------
// Job statistics and final status
// ---------------------------------------------------------------------------

/// Status of a job once its workers have stopped: it failed when blocks are
/// left pending or running, or when blocks failed and none completed;
/// otherwise it completed.
pub open spec fn final_status(m: JobMetrics) -> ProofreadingStatus {
    if m.pending_blocks > 0 || m.running_blocks > 0 {
        ProofreadingStatus::Failed
    } else if m.failed_blocks > 0 && m.completed_blocks == 0 {
        ProofreadingStatus::Failed
    } else {
        ProofreadingStatus::Completed
    }
}

/// A status that no block in range holds is counted zero times.
proof fn lemma_count_in_range_zero(bs: Seq<DocumentBlock>, skip_pages: int, s: ProofreadingStatus)
    requires
        forall|k: int|
            0 <= k < bs.len() && in_page_range(#[trigger] bs[k], skip_until_page(skip_pages))
                ==> bs[k].proofreading_status != s,
    ensures
        count_in_range(bs, skip_pages, s) == 0,
    decreases bs.len(),
{
    if bs.len() > 0 {
        let d = bs.drop_last();
        assert forall|k: int|
            0 <= k < d.len() && in_page_range(#[trigger] d[k], skip_until_page(skip_pages))
                implies d[k].proofreading_status != s by {
            assert(d[k] == bs[k]);
        }
        lemma_count_in_range_zero(d, skip_pages, s);
        assert(bs.last() == bs[bs.len() - 1]);
    }
}

/// Blocks on skipped pages never hold a job back: when every block in the
/// job's page range has finished (none is pending or running) and some
/// call of the job completed, statistics assembled as `job_metrics` does
/// give the status `Completed`, whatever the blocks on skipped pages hold.
pub proof fn skipped_pages_law(bs: Seq<DocumentBlock>, skip_pages: int, m: JobMetrics)
    requires
        forall|k: int|
            0 <= k < bs.len() && in_page_range(#[trigger] bs[k], skip_until_page(skip_pages))
                ==> bs[k].proofreading_status != ProofreadingStatus::Pending
                && bs[k].proofreading_status != ProofreadingStatus::Running,
        m.pending_blocks == count_in_range(bs, skip_pages, ProofreadingStatus::Pending),
        m.running_blocks == count_in_range(bs, skip_pages, ProofreadingStatus::Running),
        m.completed_blocks > 0,
    ensures
        final_status(m) == ProofreadingStatus::Completed,
{
    lemma_count_in_range_zero(bs, skip_pages, ProofreadingStatus::Pending);
    lemma_count_in_range_zero(bs, skip_pages, ProofreadingStatus::Running);
}

/// The fields of a job that statistics never change.
pub open spec fn same_job(a: ProofreadingJob, b: ProofreadingJob) -> bool {
    &&& a.id == b.id
    &&& a.project_id == b.project_id
    &&& a.mode == b.mode
    &&& a.options_json == b.options_json
    &&& a.auto_resume == b.auto_resume
    &&& a.started_at == b.started_at
    &&& a.total_blocks == b.total_blocks
}

/// The counters of `job` are those of `m`.
pub open spec fn counters_from(job: ProofreadingJob, m: JobMetrics) -> bool {
    &&& job.completed_blocks == m.completed_blocks
    &&& job.failed_blocks == m.failed_blocks
    &&& job.total_issues == m.total_issues
    &&& job.total_tokens_in == m.total_tokens_in
    &&& job.total_tokens_out == m.total_tokens_out
    &&& job.total_latency_ms == m.total_latency_ms
}

/// Fills a finished job with its statistics, its final status and the time
/// at which it finished.
pub fn apply_metrics(job: &mut ProofreadingJob, metrics: JobMetrics, finished_at: &str)
    ensures
        same_job(*final(job), *old(job)),
        counters_from(*final(job), metrics),
        final(job).status == final_status(metrics),
        final(job).finished_at is Some,
        final(job).finished_at->0@ == finished_at@,
{
    job.completed_blocks = metrics.completed_blocks;
    job.failed_blocks = metrics.failed_blocks;
    job.total_issues = metrics.total_issues;
    job.total_tokens_in = metrics.total_tokens_in;
    job.total_tokens_out = metrics.total_tokens_out;
    job.total_latency_ms = metrics.total_latency_ms;
    let has_unfinished = metrics.pending_blocks > 0 || metrics.running_blocks > 0;
    job.status = if has_unfinished {
        ProofreadingStatus::Failed
    } else if metrics.failed_blocks > 0 && metrics.completed_blocks == 0 {
        ProofreadingStatus::Failed
    } else {
        ProofreadingStatus::Completed
    };
    job.finished_at = Some(owned(finished_at));
}

/// Refreshes the statistics of a running job; its status and finishing
/// time stay as they are.
pub fn sync_job_metrics(job: &mut ProofreadingJob, metrics: JobMetrics)
    ensures
        same_job(*final(job), *old(job)),
        counters_from(*final(job), metrics),
        final(job).status == old(job).status,
        final(job).finished_at == old(job).finished_at,
{
    job.completed_blocks = metrics.completed_blocks;
    job.failed_blocks = metrics.failed_blocks;
    job.total_issues = metrics.total_issues;
    job.total_tokens_in = metrics.total_tokens_in;
    job.total_tokens_out = metrics.total_tokens_out;
    job.total_latency_ms = metrics.total_latency_ms;
}

/// Finishes a job: fills in its statistics and final status, and gives the
/// status of its project, which fails exactly when the job fails.
pub fn finalize_job(job: &mut ProofreadingJob, metrics: JobMetrics, finished_at: &str) -> (r:
    ProjectStatus)
    ensures
        same_job(*final(job), *old(job)),
        counters_from(*final(job), metrics),
        final(job).status == final_status(metrics),
        final(job).finished_at is Some,
        final(job).finished_at->0@ == finished_at@,
        r == (if final_status(metrics) == ProofreadingStatus::Failed {
            ProjectStatus::Failed
        } else {
            ProjectStatus::Completed
        }),
{
    apply_metrics(job, metrics, finished_at);
    match job.status {
        ProofreadingStatus::Failed => ProjectStatus::Failed,
        _ => ProjectStatus::Completed,
    }
}

/// A finished job completed exactly when nothing is left unfinished and
/// not every processed block failed; a job or project is never left
/// pending, running or paused by finishing it.
pub proof fn final_status_law(m: JobMetrics)
    ensures
        (final_status(m) == ProofreadingStatus::Completed) <==> (m.pending_blocks <= 0
            && m.running_blocks <= 0 && !(m.failed_blocks > 0 && m.completed_blocks == 0)),
        final_status(m) == ProofreadingStatus::Completed || final_status(m)
            == ProofreadingStatus::Failed,
{
}

/// The configured concurrency clamped to `1..=32`.
pub open spec fn worker_count_spec(max_concurrency: int) -> int {
    if max_concurrency < 1 {
        1
    } else if max_concurrency > 32 {
        32
    } else {
        max_concurrency
    }
}

/// Number of concurrent workers: the configured concurrency clamped to
/// `1..=32`.
pub fn worker_count(max_concurrency: i64) -> (r: usize)
    ensures
        r == worker_count_spec(max_concurrency as int),
        1 <= r <= 32,
{
    if max_concurrency < 1 {
        1
    } else if max_concurrency > 32 {
        32
    } else {
        max_concurrency as usize
    }
}

/// The job stored for a job's progress: its counters refreshed, its status
/// and finishing time kept.  A job that is no longer stored is left alone
/// (`None`), and then neither is its project's progress touched.
pub fn sync_job_progress(job: Option<ProofreadingJob>, metrics: JobMetrics) -> (r: Option<
    ProofreadingJob,
>)
    ensures
        job is None <==> r is None,
        r matches Some(j) ==> {
            &&& same_job(j, job->0)
            &&& counters_from(j, metrics)
            &&& j.status == job->0.status
            &&& j.finished_at == job->0.finished_at
        },
{
    match job {
        Some(job) => {
            let mut job = job;
            sync_job_metrics(&mut job, metrics);
            Some(job)
        },
        None => None,
    }
}

/// The status of a job, from its stored row (`job_not_found` when there is
/// none).
pub fn current_job_status(job: Option<ProofreadingJob>) -> (r: Result<ProofreadingStatus, AppError>)
    ensures
        job is None <==> r is Err,
        r matches Ok(s) ==> s == job->0.status,
        r matches Err(e) ==> e.code@ == "job_not_found"@,
{
    match job {
        Some(job) => Ok(job.status),
        None => Err(AppError::new("job_not_found", owned("未找到对应校对任务"))),
    }
}

/// What a job's run does once its pending blocks are known.
#[derive(Debug)]
pub enum RunStart {
    /// Nothing is left to process: the job is finished right away.
    FinishNow,
    /// The given number of workers process the blocks.
    Workers(usize),
}

/// What a job's run does after its workers stopped.
#[derive(Debug)]
pub enum RunEnd {
    /// The job was paused meanwhile: it is left as it is.
    LeavePaused,
    /// The job is finished.
    Finish,
}

/// Blocks handed out to the workers of a job, first come first served.
#[derive(Debug)]
pub struct BlockQueue {
    pub blocks: Vec<DocumentBlock>,
    pub next: usize,
}

impl BlockQueue {
    /// The blocks not yet handed out, in order.
    pub open spec fn remaining(&self) -> Seq<DocumentBlock> {
        self.blocks@.subrange(self.next as int, self.blocks@.len() as int)
    }

    /// The position of the next block is within the list.
    pub open spec fn wf(&self) -> bool {
        self.next <= self.blocks@.len()
    }

    /// A queue of the given blocks, in their order.
    pub fn new(blocks: Vec<DocumentBlock>) -> (r: Self)
        ensures
            r.wf(),
            r.remaining() == blocks@,
    {
        let r = BlockQueue { blocks, next: 0 };
        assert(r.remaining() =~= r.blocks@);
        r
    }

    /// Hands out the next block, if any is left.
    pub fn next_block(&mut self) -> (r: Option<DocumentBlock>)
        requires
            old(self).wf(),
        ensures
            final(self).wf(),
            old(self).remaining().len() == 0 ==> r is None && final(self).remaining()
                == old(self).remaining(),
            old(self).remaining().len() > 0 ==> r == Some(old(self).remaining()[0])
                && final(self).remaining() == old(self).remaining().drop_first(),
    {
        if self.next >= self.blocks.len() {
            return None;
        }
        let block = copy_block(&self.blocks[self.next]);
        self.next = self.next + 1;
        assert(self.remaining() =~= old(self).remaining().drop_first());
        Some(block)
    }
}

/// What a worker does next.
#[derive(Debug)]
pub enum WorkerStep {
    /// The worker stops.
    Stop,
    /// The worker processes this block.
    Process(DocumentBlock),
}

/// Handing out blocks one at a time gives each block of the queue exactly
/// once, in the queue's order: after `k` blocks were handed out, the rest
/// are those that follow.
pub proof fn queue_hands_out_in_order(blocks: Seq<DocumentBlock>, k: int)
    requires
        0 <= k <= blocks.len(),
    ensures
        blocks.subrange(k, blocks.len() as int) == blocks.skip(k),
        k < blocks.len() ==> blocks.subrange(k, blocks.len() as int)[0] == blocks[k],
        k < blocks.len() ==> blocks.subrange(k, blocks.len() as int).drop_first()
            == blocks.subrange(k + 1, blocks.len() as int),
{
    assert(blocks.subrange(k, blocks.len() as int) =~= blocks.skip(k));
    if k < blocks.len() {
        assert(blocks.subrange(k, blocks.len() as int).drop_first() =~= blocks.subrange(
            k + 1,
            blocks.len() as int,
        ));
    }
}

// ---------------------------------------------------------------------------
// Identifiers
// ---------------------------------------------------------------------------

/// Whether `s` is the hyphenated lower-case text of a random (version 4)
/// UUID: 36 characters, hyphens at positions 8, 13, 18 and 23 and nowhere
/// else, the version digit `4` at position 14, a variant digit among `8`,
/// `9`, `a` and `b` at position 19, and lower-case hexadecimal digits in
/// the other places.
pub open spec fn is_uuid_v4_text(s: Seq<char>) -> bool {
    &&& s.len() == 36
    &&& forall|i: int|
        0 <= i < 36 ==> ((i == 8 || i == 13 || i == 18 || i == 23) <==> #[trigger] s[i] == '-')
    &&& forall|i: int|
        0 <= i < 36 && i != 8 && i != 13 && i != 18 && i != 23 ==> ('0' <= #[trigger] s[i] <= '9'
            || 'a' <= s[i] <= 'f')
    &&& s[14] == '4'
    &&& (s[19] == '8' || s[19] == '9' || s[19] == 'a' || s[19] == 'b')
}

/// Calls `uuid::Uuid::new_v4` and renders the identifier with `to_string`,
/// which writes the hyphenated lower-case form.  The identifier is random:
/// the contract states its shape, with the version and variant digits that
/// `new_v4` sets, and nothing of its other digits.
#[verifier::external_body]
fn new_uuid() -> (r: String)
    ensures
        is_uuid_v4_text(r@),
{
    uuid::Uuid::new_v4().to_string()
}

// ---------------------------------------------------------------------------
// The service
// ---------------------------------------------------------------------------

/// Proofreading jobs of the projects in one database.
#[derive(Clone, Debug)]
pub struct ProofreadService {
    pub db: Database,
}

/// Outcome of asking to start a job.
#[derive(Debug)]
pub enum StartedJob {
    /// The project already has a running job, which is reused.
    Running(ProofreadingJob),
    /// A new job, to be stored and run.
    Created(ProofreadingJob),
}

impl ProofreadService {
    /// The service over the given database.
    pub fn new(db: Database) -> (r: Self)
        ensures
            r.db == db,
    {
        ProofreadService { db }
    }

    /// Decides how a request to proofread a project is answered.  A running
    /// job of the project is reused.  Otherwise the blocks that the job would
    /// cover are selected; retrying with no failed block is refused with
    /// `no_failed_blocks`, and a selection without blocks with
    /// `empty_document`.  Otherwise a new running job over the selected
    /// blocks is created, started at `now`, with the given option snapshot.
    pub fn start_job(
        &self,
        project_id: &str,
        options: &ProofreadOptions,
        running: Option<ProofreadingJob>,
        blocks: &Vec<DocumentBlock>,
        skip_pages: i64,
        options_json: String,
        now: &str,
    ) -> (r: Result<StartedJob, AppError>)
        requires
            blocks.len() <= i64::MAX,
        ensures
            running is Some ==> (r matches Ok(StartedJob::Running(job)) && job == running->0),
            running is None ==> {
                let covered = covered_blocks(blocks@, options.mode, skip_pages as int);
                &&& (options.mode == ProofreadingMode::RetryFailed && covered.len() == 0) ==> (
                r matches Err(e) && e.code@ == "no_failed_blocks"@)
                &&& (options.mode != ProofreadingMode::RetryFailed && covered.len() == 0) ==> (
                r matches Err(e) && e.code@ == "empty_document"@)
                &&& covered.len() > 0 ==> (r matches Ok(StartedJob::Created(job)) && {
                    &&& is_uuid_v4_text(job.id@)
                    &&& job.project_id@ == project_id@
                    &&& job.mode == options.mode
                    &&& job.status == ProofreadingStatus::Running
                    &&& job.options_json == Some(options_json)
                    &&& job.auto_resume
                    &&& job.started_at is Some && job.started_at->0@ == now@
                    &&& job.finished_at is None
                    &&& job.total_blocks == covered.len()
                    &&& job.completed_blocks == 0 && job.failed_blocks == 0
                    &&& job.total_issues == 0 && job.total_tokens_in == 0
                    &&& job.total_tokens_out == 0 && job.total_latency_ms == 0
                })
            },
    {
        if let Some(job) = running {
            return Ok(StartedJob::Running(job));
        }
        let selected = select_blocks(blocks, options.mode, skip_pages)?;
        proof {
            lemma_covered_blocks(
                blocks@,
                options.mode,
                skip_until_page(skip_pages as int),
                blocks@.len(),
            );
        }
        if selected.len() == 0 {
            return Err(
                AppError::new("empty_document", owned("当前项目没有可校对的正文块")),
            );
        }
        let job = ProofreadingJob {
            id: new_uuid(),
            project_id: owned(project_id),
            mode: options.mode,
            status: ProofreadingStatus::Running,
            options_json: Some(options_json),
            auto_resume: true,
            started_at: Some(owned(now)),
            finished_at: None,
            total_blocks: selected.len() as i64,
            completed_blocks: 0,
            failed_blocks: 0,
            total_issues: 0,
            total_tokens_in: 0,
            total_tokens_out: 0,
            total_latency_ms: 0,
        };
        Ok(StartedJob::Created(job))
    }

    /// How a job's run starts: with nothing pending it finishes at once,
    /// otherwise the configured number of workers (clamped to `1..=32`)
    /// take the pending blocks.
    pub fn run_start(&self, pending: &Vec<DocumentBlock>, max_concurrency: i64) -> (r: RunStart)
        ensures
            pending@.len() == 0 <==> r is FinishNow,
            r matches RunStart::Workers(n) ==> n == worker_count_spec(max_concurrency as int),
    {
        if pending.len() == 0 {
            return RunStart::FinishNow;
        }
        RunStart::Workers(worker_count(max_concurrency))
    }

    /// How a job's run ends, from the job's stored status once its workers
    /// stopped: a paused job is left as it is, any other is finished; a job
    /// that is no longer stored fails the run with `job_not_found`.
    pub fn run_end(&self, job: Option<ProofreadingJob>) -> (r: Result<RunEnd, AppError>)
        ensures
            job is None <==> r is Err,
            r matches Err(e) ==> e.code@ == "job_not_found"@,
            r matches Ok(end) ==> (end is LeavePaused <==> job->0.status
                == ProofreadingStatus::Paused),
    {
        let status = current_job_status(job)?;
        match status {
            ProofreadingStatus::Paused => Ok(RunEnd::LeavePaused),
            _ => Ok(RunEnd::Finish),
        }
    }

    /// A job whose run failed as a whole: its statistics are filled in as
    /// for a finished job, and its status is failed whatever they say.
    pub fn fail_job(&self, job: ProofreadingJob, metrics: JobMetrics, finished_at: &str) -> (r:
        ProofreadingJob)
        ensures
            same_job(r, job),
            counters_from(r, metrics),
            r.status == ProofreadingStatus::Failed,
            r.finished_at is Some,
            r.finished_at->0@ == finished_at@,
    {
        let mut job = job;
        apply_metrics(&mut job, metrics, finished_at);
        job.status = ProofreadingStatus::Failed;
        job
    }
}

/// The option snapshot stored with a job, without which it cannot be
/// resumed (`missing_job_options`).
pub fn job_options_json(job: &ProofreadingJob) -> (r: Result<String, AppError>)
    ensures
        job.options_json is None <==> r is Err,
        r matches Err(e) ==> e.code@ == "missing_job_options"@,
        r matches Ok(s) ==> job.options_json == Some(s),
{
    match &job.options_json {
        Some(s) => Ok(s.clone()),
        None => Err(
            AppError::new("missing_job_options", owned("缺少任务参数快照，无法恢复任务")),
        ),
    }
}

/// The job to hand back for a request to start proofreading a project,
/// when one is already under way: a running job stored for the project, or
/// else, while the project is active in this process, its latest job.
/// `None` means that a new job is to be started.
pub fn reuse_existing_job(
    running: Option<ProofreadingJob>,
    active: bool,
    latest: Option<ProofreadingJob>,
) -> (r: Option<ProofreadingJob>)
    ensures
        running is Some ==> r == running,
        running is None && active ==> r == latest,
        running is None && !active ==> r is None,
{
    if running.is_some() {
        return running;
    }
    if active {
        return latest;
    }
    None
}

// ---------------------------------------------------------------------------
// Model replies
// ---------------------------------------------------------------------------

/// The message of a model reply.
#[derive(Clone, Debug)]
pub struct Message {
    pub content: String,
}

/// Token usage reported with a model reply.
#[derive(Clone, Copy, Debug)]
pub struct Usage {
    pub prompt_tokens: Option<i64>,
    pub completion_tokens: Option<i64>,
}

/// The part of a model reply that is kept: the first message and the usage.
#[derive(Clone, Debug)]
pub struct ModelCallResult {
    pub message: Message,
    pub usage: Usage,
}

/// What the model returned for one block: its issues.
#[derive(Debug)]
pub struct ModelPayload {
    pub issues: Vec<ModelIssue>,
}

/// Result of a direct model call made from the command line.
#[derive(Debug)]
pub struct DebugModelCall {
    pub request_json: String,
    pub response_json: String,
    pub prompt_tokens: i64,
    pub completion_tokens: i64,
}

/// `s` with every trailing `/` removed.
pub open spec fn without_trailing_slashes(s: Seq<char>) -> Seq<char>
    decreases s.len(),
{
    if s.len() > 0 && s.last() == '/' {
        without_trailing_slashes(s.drop_last())
    } else {
        s
    }
}

/// URL of the chat completions endpoint under a base URL.
pub fn chat_completions_url(base_url: &str) -> (r: String)
    ensures
        r@ == without_trailing_slashes(base_url@) + "/chat/completions"@,
{
    let chars = crate::text::chars_of(base_url);
    let mut end = chars.len();
    assert(chars@.subrange(0, chars@.len() as int) =~= chars@);
    while end > 0 && chars[end - 1] == '/'
        invariant
            end <= chars.len(),
            without_trailing_slashes(chars@) == without_trailing_slashes(
                chars@.subrange(0, end as int),
            ),
        decreases end,
    {
        proof {
            assert(chars@.subrange(0, end as int).drop_last() =~= chars@.subrange(
                0,
                end - 1,
            ));
        }
        end = end - 1;
    }
    let mut url = crate::text::string_from_range(&chars, 0, end);
    crate::text::push_str(&mut url, "/chat/completions");
    url
}

/// Whether a request carries the API key as a bearer token: only when the
/// key is not blank.
pub fn uses_bearer_auth(api_key: &str) -> (r: bool)
    ensures
        r == (trim_spec(api_key@).len() > 0),
{
    !crate::text::is_blank(api_key)
}

/// The error for a reply whose HTTP status is not a success.
pub fn llm_response_error(body: &str) -> (r: AppError)
    ensures
        r.code@ == "llm_response_error"@,
        r.message@ == "模型请求失败: "@ + body@,
{
    let mut message = owned("模型请求失败: ");
    crate::text::push_str(&mut message, body);
    AppError::new("llm_response_error", message)
}

/// Keeps the first choice of a reply, with its usage (zero tokens when the
/// reply reports none); a reply without choices is refused with
/// `empty_model_response`.
pub fn first_choice(choices: Vec<Message>, usage: Option<Usage>) -> (r: Result<
    ModelCallResult,
    AppError,
>)
    ensures
        choices@.len() == 0 <==> r is Err,
        r matches Err(e) ==> e.code@ == "empty_model_response"@,
        r matches Ok(res) ==> res.message == choices@[0] && res.usage == (match usage {
            Some(u) => u,
            None => Usage { prompt_tokens: Some(0), completion_tokens: Some(0) },
        }),
{
    if choices.len() == 0 {
        return Err(AppError::new("empty_model_response", owned("模型未返回有效结果")));
    }
    let message = Message { content: choices[0].content.clone() };
    let usage = match usage {
        Some(u) => u,
        None => Usage { prompt_tokens: Some(0), completion_tokens: Some(0) },
    };
    Ok(ModelCallResult { message, usage })
}

/// The call result reported by a direct command-line model call; missing
/// token counts are reported as zero.
pub fn debug_call_result(request_json: String, response_json: String, usage: Usage) -> (r:
    DebugModelCall)
    ensures
        r.request_json == request_json,
        r.response_json == response_json,
        r.prompt_tokens == (match usage.prompt_tokens {
            Some(t) => t,
            None => 0,
        }),
        r.completion_tokens == (match usage.completion_tokens {
            Some(t) => t,
            None => 0,
        }),
{
    DebugModelCall {
        request_json,
        response_json,
        prompt_tokens: match usage.prompt_tokens {
            Some(t) => t,
            None => 0,
        },
        completion_tokens: match usage.completion_tokens {
            Some(t) => t,
            None => 0,
        },
    }
}

/// A direct model call needs a base URL and a model name
/// (`missing_model_config` otherwise).
pub fn require_model_config(settings: &AppSettings) -> (r: Result<(), AppError>)
    ensures
        r is Ok <==> crate::settings::model_callable(*settings),
        r matches Err(e) ==> e.code@ == "missing_model_config"@,
{
    if !crate::settings::can_call_model(settings) {
        return Err(
            AppError::new(
                "missing_model_config",
                owned("本地测试至少需要填写 Base URL 和 Model，API Key 可为空"),
            ),
        );
    }
    Ok(())
}

// ---------------------------------------------------------------------------
// Issues reported by the model
// ---------------------------------------------------------------------------

/// Whether a model issue keeps a non-empty span in the original text.
pub open spec fn issue_kept(mi: ModelIssue, m: Seq<usize>, len: nat) -> bool {
    issue_span(m, len, mi.start_offset as int, mi.end_offset as int) is Some
}

/// The model issues among the first `n` that keep a span, in order.
pub open spec fn kept_model_issues(
    issues: Seq<ModelIssue>,
    m: Seq<usize>,
    len: nat,
    n: nat,
) -> Seq<ModelIssue>
    decreases n,
{
    if n == 0 {
        Seq::empty()
    } else {
        let p = kept_model_issues(issues, m, len, (n - 1) as nat);
        if issue_kept(issues[n - 1], m, len) {
            p.push(issues[n - 1])
        } else {
            p
        }
    }
}

/// Whether the span of a model issue, mapped onto the original text, is
/// non-empty.
pub open spec fn span_non_empty(m: Seq<usize>, len: nat) -> spec_fn(ModelIssue) -> bool {
    |mi: ModelIssue| issue_span(m, len, mi.start_offset as int, mi.end_offset as int) is Some
}

proof fn lemma_kept_is_filter(issues: Seq<ModelIssue>, m: Seq<usize>, len: nat, n: nat)
    requires
        n <= issues.len(),
    ensures
        kept_model_issues(issues, m, len, n) == issues.take(n as int).filter(span_non_empty(m, len)),
    decreases n,
{
    reveal(Seq::filter);
    let t = issues.take(n as int);
    if n == 0 {
        assert(t =~= Seq::<ModelIssue>::empty());
    } else {
        lemma_kept_is_filter(issues, m, len, (n - 1) as nat);
        assert(t.drop_last() =~= issues.take(n - 1));
        assert(t.last() == issues[n - 1]);
    }
}

/// Which model issues become stored issues: exactly those whose span,
/// mapped onto the block's original text, is non-empty; every one of them,
/// each once, in the order the model gave them.
pub proof fn kept_issues_law(issues: Seq<ModelIssue>, m: Seq<usize>, len: nat)
    ensures
        kept_model_issues(issues, m, len, issues.len()) == issues.filter(span_non_empty(m, len)),
{
    lemma_kept_is_filter(issues, m, len, issues.len());
    assert(issues.take(issues.len() as int) =~= issues);
}

/// An optional context string: absent when empty.
pub open spec fn context_matches(o: Option<String>, c: Seq<char>) -> bool {
    if c.len() == 0 {
        o is None
    } else {
        o is Some && o->0@ == c
    }
}

/// `issue` is the stored form of the model issue `mi` found in `text`.
pub open spec fn issue_converted(
    issue: ProofreadingIssue,
    mi: ModelIssue,
    m: Seq<usize>,
    text: Seq<char>,
    project_id: Seq<char>,
    job_id: Seq<char>,
    block_id: Seq<char>,
    created_at: Seq<char>,
) -> bool {
    let span = issue_span(m, text.len(), mi.start_offset as int, mi.end_offset as int)->0;
    &&& is_uuid_v4_text(issue.id@)
    &&& issue.project_id@ == project_id
    &&& issue.job_id@ == job_id
    &&& issue.block_id@ == block_id
    &&& issue.issue_type == issue_type_from_text(mi.issue_type@)
    &&& issue.severity == severity_from_text(mi.severity@)
    &&& issue.start_offset == span.0
    &&& issue.end_offset == span.1
    &&& issue.quote_text == mi.quote
    &&& context_matches(issue.prefix_text, prefix_context(text, span.0))
    &&& context_matches(issue.suffix_text, suffix_context(text, span.1))
    &&& issue.suggestion == mi.suggestion
    &&& issue.explanation == mi.explanation
    &&& issue.normalized_replacement == mi.normalized_replacement
    &&& issue.status == IssueStatus::Open
    &&& issue.created_at@ == created_at
}

/// Every stored issue covers a non-empty stretch of the block's original
/// text: its offsets satisfy `0 <= start < end <= len`.
pub proof fn converted_issue_lies_in_text(
    issue: ProofreadingIssue,
    mi: ModelIssue,
    m: Seq<usize>,
    text: Seq<char>,
    project_id: Seq<char>,
    job_id: Seq<char>,
    block_id: Seq<char>,
    created_at: Seq<char>,
)
    requires
        char_map_valid(m, text.len()),
        issue_kept(mi, m, text.len()),
        issue_converted(issue, mi, m, text, project_id, job_id, block_id, created_at),
    ensures
        0 <= issue.start_offset < issue.end_offset <= text.len(),
{
    crate::sanitize::lemma_mapped_offset_monotone(
        m,
        text.len(),
        mi.start_offset as int,
        mi.start_offset as int,
    );
    crate::sanitize::lemma_mapped_offset_monotone(
        m,
        text.len(),
        mi.end_offset as int,
        mi.end_offset as int,
    );
}

/// Turns the model's issues for a block into stored issues.  Offsets are
/// mapped back onto the original text; issues whose span is empty are
/// dropped; each kept issue is open, gets a fresh identifier, and carries
/// up to eight characters of context on each side.
pub fn to_proofreading_issues(
    project_id: &str,
    job_id: &str,
    block_id: &str,
    text: &str,
    sanitized: &SanitizedText,
    payload: &ModelPayload,
    created_at: &str,
) -> (r: Vec<ProofreadingIssue>)
    requires
        char_map_valid(sanitized.char_map@, text@.len()),
        text@.len() <= i64::MAX,
    ensures
        r@.len() == kept_model_issues(
            payload.issues@,
            sanitized.char_map@,
            text@.len(),
            payload.issues@.len(),
        ).len(),
        forall|k: int|
            0 <= k < r@.len() ==> issue_converted(
                #[trigger] r@[k],
                kept_model_issues(
                    payload.issues@,
                    sanitized.char_map@,
                    text@.len(),
                    payload.issues@.len(),
                )[k],
                sanitized.char_map@,
                text@,
                project_id@,
                job_id@,
                block_id@,
                created_at@,
            ),
{
    let mut out: Vec<ProofreadingIssue> = Vec::new();
    let ghost m = sanitized.char_map@;
    let ghost len = text@.len();
    let mut i: usize = 0;
    while i < payload.issues.len()
        invariant
            i <= payload.issues@.len(),
            m == sanitized.char_map@,
            len == text@.len(),
            len <= i64::MAX,
            char_map_valid(m, len),
            out@.len() == kept_model_issues(payload.issues@, m, len, i as nat).len(),
            forall|k: int|
                0 <= k < out@.len() ==> issue_converted(
                    #[trigger] out@[k],
                    kept_model_issues(payload.issues@, m, len, i as nat)[k],
                    m,
                    text@,
                    project_id@,
                    job_id@,
                    block_id@,
                    created_at@,
                ),
        decreases payload.issues@.len() - i,
    {
        let mi = &payload.issues[i];
        let ghost before = kept_model_issues(payload.issues@, m, len, i as nat);
        match map_issue_offsets(sanitized, text, mi) {
            Some((start_offset, end_offset)) => {
                let ghost sp = issue_span(m, len, mi.start_offset as int, mi.end_offset as int);
                assert(sp is Some);
                let ghost span = sp->0;
                assert(start_offset as int == span.0 && end_offset as int == span.1);
                let issue = ProofreadingIssue {
                    id: new_uuid(),
                    project_id: owned(project_id),
                    job_id: owned(job_id),
                    block_id: owned(block_id),
                    issue_type: parse_issue_type(mi.issue_type.as_str()),
                    severity: parse_severity(mi.severity.as_str()),
                    start_offset,
                    end_offset,
                    quote_text: mi.quote.clone(),
                    prefix_text: text_prefix(text, start_offset),
                    suffix_text: text_suffix(text, end_offset),
                    suggestion: mi.suggestion.clone(),
                    explanation: mi.explanation.clone(),
                    normalized_replacement: clone_opt_string(&mi.normalized_replacement),
                    status: IssueStatus::Open,
                    created_at: owned(created_at),
                };
                assert(issue_converted(
                    issue,
                    payload.issues@[i as int],
                    m,
                    text@,
                    project_id@,
                    job_id@,
                    block_id@,
                    created_at@,
                ));
                out.push(issue);
                proof {
                    let after = kept_model_issues(payload.issues@, m, len, (i + 1) as nat);
                    assert(after == before.push(payload.issues@[i as int]));
                    assert forall|k: int| 0 <= k < out@.len() implies issue_converted(
                        #[trigger] out@[k],
                        after[k],
                        m,
                        text@,
                        project_id@,
                        job_id@,
                        block_id@,
                        created_at@,
                    ) by {
                        if k < before.len() {
                            assert(after[k] == before[k]);
                        }
                    }
                }
            },
            None => {
                proof {
                    let after = kept_model_issues(payload.issues@, m, len, (i + 1) as nat);
                    assert(after == before);
                }
            },
        }
        i = i + 1;
    }
    out
}

// ---------------------------------------------------------------------------
// Workers
// ---------------------------------------------------------------------------

/// What every worker of a job shares.
#[derive(Clone, Debug)]
pub struct WorkerContext {
    pub settings: AppSettings,
    pub job_id: String,
    pub project_id: String,
    pub issue_types: Vec<IssueType>,
}

/// The user message sent to the model for one block.
#[derive(Debug)]
pub struct RequestPayload {
    pub block_id: String,
    pub text: String,
    pub rules: Vec<String>,
}

/// A model reply for one block: its recorded form, its usage, and the
/// issues parsed from it (or why they could not be).
#[derive(Debug)]
pub struct ModelReply {
    pub response_json: String,
    pub usage: Usage,
    pub issues: Result<Vec<ProofreadingIssue>, AppError>,
}

/// What processing one block leaves behind: the call record, the issues
/// that replace the block's issues (when they do), and the block's status.
#[derive(Debug)]
pub struct BlockOutcome {
    pub call: NewCallRecord,
    pub issues: Option<Vec<ProofreadingIssue>>,
    pub block_status: ProofreadingStatus,
}

/// The model name shown for `settings`.
pub open spec fn shown_model_name(settings: AppSettings, name: Seq<char>) -> bool {
    if trim_spec(settings.model@).len() == 0 {
        name == "demo-skip"@
    } else {
        name == settings.model@
    }
}

/// The identifying part of a call record of this worker for a block.
pub open spec fn call_of(c: NewCallRecord, ctx: WorkerContext, block_id: Seq<char>) -> bool {
    &&& c.job_id == ctx.job_id
    &&& c.project_id == ctx.project_id
    &&& c.block_id@ == block_id
    &&& shown_model_name(ctx.settings, c.model_name@)
    &&& c.base_url == ctx.settings.base_url
}

impl WorkerContext {
    /// Whether a worker goes on: only while its job is stored as running.
    pub fn should_continue(&self, job: Option<ProofreadingJob>) -> (r: bool)
        ensures
            r == (job is Some && job->0.status == ProofreadingStatus::Running),
    {
        match current_job_status(job) {
            Ok(ProofreadingStatus::Running) => true,
            _ => false,
        }
    }

    /// A worker's next step: it stops when its job no longer runs or no
    /// block is left, and otherwise takes the next block of the queue.
    pub fn next_step(&self, job: Option<ProofreadingJob>, queue: &mut BlockQueue) -> (r: WorkerStep)
        requires
            old(queue).wf(),
        ensures
            final(queue).wf(),
            !(job is Some && job->0.status == ProofreadingStatus::Running) ==> (r is Stop
                && final(queue).remaining() == old(queue).remaining()),
            (job is Some && job->0.status == ProofreadingStatus::Running
                && old(queue).remaining().len() == 0) ==> (r is Stop
                && final(queue).remaining() == old(queue).remaining()),
            (job is Some && job->0.status == ProofreadingStatus::Running
                && old(queue).remaining().len() > 0) ==> (r == WorkerStep::Process(
                old(queue).remaining()[0],
            ) && final(queue).remaining() == old(queue).remaining().drop_first()),
    {
        if !self.should_continue(job) {
            return WorkerStep::Stop;
        }
        match queue.next_block() {
            Some(block) => WorkerStep::Process(block),
            None => WorkerStep::Stop,
        }
    }

    /// Whether blocks are sent to the model: only when the settings allow a
    /// real call; otherwise they are skipped.
    pub fn calls_model(&self) -> (r: bool)
        ensures
            r == crate::settings::model_callable(self.settings),
    {
        crate::settings::can_call_model(&self.settings)
    }

    fn shown_model(&self) -> (r: String)
        ensures
            shown_model_name(self.settings, r@),
    {
        display_model_name(&self.settings)
    }

    /// The text sent for a block, with its character map, and the user
    /// message: the block's id, that text, and the rules for the job's issue
    /// types.
    pub fn request_payload(&self, block: &DocumentBlock) -> (r: (SanitizedText, RequestPayload))
        ensures
            r.0.char_map@ == crate::sanitize::kept_indices(
                block.text_content@,
                block.text_content@.len(),
            ),
            r.0.text@ == crate::sanitize::sent_text(
                block.text_content@,
                block.text_content@.len(),
            ),
            char_map_valid(r.0.char_map@, block.text_content@.len()),
            r.1.block_id == block.id,
            r.1.text@ == r.0.text@,
            crate::settings::texts_of(r.1.rules@) == crate::settings::rules_for(
                self.issue_types@,
            ),
    {
        let sanitized = sanitize_model_input(block.text_content.as_str());
        let payload = RequestPayload {
            block_id: block.id.clone(),
            text: sanitized.text.clone(),
            rules: build_rules(self.issue_types.as_slice()),
        };
        (sanitized, payload)
    }

    /// The outcome of a model call for a block.  When the call succeeded and
    /// its issues were read, the call is recorded as completed, the issues
    /// replace those of the block, and the block completes.  When the
    /// issues could not be read, the call is recorded as failed with the
    /// reply and the reason, and the block fails.  When the call itself
    /// failed, it is recorded as failed without reply or usage, and the
    /// block fails.
    pub fn handle_remote(
        &self,
        block_id: &str,
        request_json: String,
        started_at: String,
        finished_at: String,
        latency_ms: i64,
        reply: Result<ModelReply, AppError>,
    ) -> (r: BlockOutcome)
        ensures
            call_of(r.call, *self, block_id@),
            is_uuid_v4_text(r.call.id@),
            r.call.request_json == request_json,
            r.call.started_at == started_at,
            r.call.finished_at == Some(finished_at),
            r.call.latency_ms == Some(latency_ms),
            match reply {
                Ok(rep) => match rep.issues {
                    Ok(issues) => {
                        &&& r.call.status@ == "completed"@
                        &&& r.call.response_json == Some(rep.response_json)
                        &&& r.call.prompt_tokens == rep.usage.prompt_tokens
                        &&& r.call.completion_tokens == rep.usage.completion_tokens
                        &&& r.call.error_message is None
                        &&& r.issues == Some(issues)
                        &&& r.block_status == ProofreadingStatus::Completed
                    },
                    Err(e) => {
                        &&& r.call.status@ == "failed"@
                        &&& r.call.response_json == Some(rep.response_json)
                        &&& r.call.prompt_tokens == rep.usage.prompt_tokens
                        &&& r.call.completion_tokens == rep.usage.completion_tokens
                        &&& r.call.error_message == Some(e.message)
                        &&& r.issues is None
                        &&& r.block_status == ProofreadingStatus::Failed
                    },
                },
                Err(e) => {
                    &&& r.call.status@ == "failed"@
                    &&& r.call.response_json is None
                    &&& r.call.prompt_tokens is None
                    &&& r.call.completion_tokens is None
                    &&& r.call.error_message == Some(e.message)
                    &&& r.issues is None
                    &&& r.block_status == ProofreadingStatus::Failed
                },
            },
    {
        let model_name = self.shown_model();
        match reply {
            Ok(rep) => match rep.issues {
                Ok(issues) => BlockOutcome {
                    call: NewCallRecord {
                        id: new_uuid(),
                        job_id: self.job_id.clone(),
                        project_id: self.project_id.clone(),
                        block_id: owned(block_id),
                        model_name,
                        base_url: self.settings.base_url.clone(),
                        request_json,
                        response_json: Some(rep.response_json),
                        status: owned("completed"),
                        started_at,
                        finished_at: Some(finished_at),
                        latency_ms: Some(latency_ms),
                        prompt_tokens: rep.usage.prompt_tokens,
                        completion_tokens: rep.usage.completion_tokens,
                        error_message: None,
                    },
                    issues: Some(issues),
                    block_status: ProofreadingStatus::Completed,
                },
                Err(error) => BlockOutcome {
                    call: NewCallRecord {
                        id: new_uuid(),
                        job_id: self.job_id.clone(),
                        project_id: self.project_id.clone(),
                        block_id: owned(block_id),
                        model_name,
                        base_url: self.settings.base_url.clone(),
                        request_json,
                        response_json: Some(rep.response_json),
                        status: owned("failed"),
                        started_at,
                        finished_at: Some(finished_at),
                        latency_ms: Some(latency_ms),
                        prompt_tokens: rep.usage.prompt_tokens,
                        completion_tokens: rep.usage.completion_tokens,
                        error_message: Some(error.message),
                    },
                    issues: None,
                    block_status: ProofreadingStatus::Failed,
                },
            },
            Err(error) => BlockOutcome {
                call: NewCallRecord {
                    id: new_uuid(),
                    job_id: self.job_id.clone(),
                    project_id: self.project_id.clone(),
                    block_id: owned(block_id),
                    model_name,
                    base_url: self.settings.base_url.clone(),
                    request_json,
                    response_json: None,
                    status: owned("failed"),
                    started_at,
                    finished_at: Some(finished_at),
                    latency_ms: Some(latency_ms),
                    prompt_tokens: None,
                    completion_tokens: None,
                    error_message: Some(error.message),
                },
                issues: None,
                block_status: ProofreadingStatus::Failed,
            },
        }
    }

    /// The outcome for a block when no model is configured: the call is
    /// recorded as skipped with an empty issue list as reply and zero usage,
    /// the block's issues are cleared, and the block completes.
    pub fn handle_skipped(
        &self,
        block_id: &str,
        started_at: String,
        finished_at: String,
        request_json: String,
    ) -> (r: BlockOutcome)
        ensures
            call_of(r.call, *self, block_id@),
            is_uuid_v4_text(r.call.id@),
            r.call.request_json == request_json,
            r.call.started_at == started_at,
            r.call.finished_at == Some(finished_at),
            r.call.status@ == "skipped"@,
            r.call.response_json is Some && r.call.response_json->0@ == "{\"issues\":[]}"@,
            r.call.latency_ms == Some(0i64),
            r.call.prompt_tokens == Some(0i64),
            r.call.completion_tokens == Some(0i64),
            r.call.error_message is Some && r.call.error_message->0@
                == "未配置完整模型参数，当前以演示模式跳过真实调用"@,
            r.issues is Some && r.issues->0@.len() == 0,
            r.block_status == ProofreadingStatus::Completed,
    {
        BlockOutcome {
            call: NewCallRecord {
                id: new_uuid(),
                job_id: self.job_id.clone(),
                project_id: self.project_id.clone(),
                block_id: owned(block_id),
                model_name: self.shown_model(),
                base_url: self.settings.base_url.clone(),
                request_json,
                response_json: Some(owned("{\"issues\":[]}")),
                status: owned("skipped"),
                started_at,
                finished_at: Some(finished_at),
                latency_ms: Some(0),
                prompt_tokens: Some(0),
                completion_tokens: Some(0),
                error_message: Some(owned("未配置完整模型参数，当前以演示模式跳过真实调用")),
            },
            issues: Some(Vec::new()),
            block_status: ProofreadingStatus::Completed,
        }
    }

    /// The outcome for a block whose processing broke down inside the
    /// application: a failed call with an empty request and no reply, and
    /// the block fails, so that it is never left running.
    pub fn mark_internal_failure(
        &self,
        block_id: &str,
        started_at: String,
        finished_at: String,
        error_message: &str,
    ) -> (r: BlockOutcome)
        ensures
            call_of(r.call, *self, block_id@),
            is_uuid_v4_text(r.call.id@),
            r.call.request_json@ == "{}"@,
            r.call.started_at == started_at,
            r.call.finished_at == Some(finished_at),
            r.call.status@ == "failed"@,
            r.call.response_json is None,
            r.call.latency_ms == Some(0i64),
            r.call.prompt_tokens is None,
            r.call.completion_tokens is None,
            r.call.error_message is Some && r.call.error_message->0@ == error_message@,
            r.issues is None,
            r.block_status == ProofreadingStatus::Failed,
    {
        BlockOutcome {
            call: NewCallRecord {
                id: new_uuid(),
                job_id: self.job_id.clone(),
                project_id: self.project_id.clone(),
                block_id: owned(block_id),
                model_name: self.shown_model(),
                base_url: self.settings.base_url.clone(),
                request_json: owned("{}"),
                response_json: None,
                status: owned("failed"),
                started_at,
                finished_at: Some(finished_at),
                latency_ms: Some(0),
                prompt_tokens: None,
                completion_tokens: None,
                error_message: Some(owned(error_message)),
            },
            issues: None,
            block_status: ProofreadingStatus::Failed,
        }
    }
}

} // verus!
