//! Segment planning: how many parallel ranges a download uses and which
//! byte ranges they cover.

use vstd::prelude::*;
use crate::db::SegmentRow;

verus! {

pub open spec fn clamp(x: int, lo: int, hi: int) -> int {
    if x < lo {
        lo
    } else if x > hi {
        hi
    } else {
        x
    }
}

/// threads = clamp(floor(file_size_MB / 50), 4, 64)
pub open spec fn thread_count_for(file_size_bytes: nat) -> int {
    clamp(((file_size_bytes / (1024 * 1024)) / 50) as int, 4, 64)
}

/// Thread count for a file of `file_size_bytes` bytes: one thread per 50 MiB,
/// at least 4 and at most 64.
pub fn calc_thread_count(file_size_bytes: u64) -> (r: u8)
    ensures
        r as int == thread_count_for(file_size_bytes as nat),
        4 <= r <= 64,
{
    let mb = file_size_bytes / (1024 * 1024);
    let t = mb / 50;
    if t < 4 {
        4
    } else if t > 64 {
        64
    } else {
        t as u8
    }
}

/// A contiguous inclusive byte range `[start_byte, end_byte]` of a download.
#[derive(Debug, Clone)]
pub struct Segment {
    pub index: usize,
    pub start_byte: u64,
    pub end_byte: u64,
    pub completed: bool,
}

impl Segment {
    /// Number of bytes in the segment.
    pub fn len(&self) -> (r: u64)
        requires
            self.start_byte <= self.end_byte,
            self.end_byte - self.start_byte < u64::MAX,
        ensures
            r == self.end_byte - self.start_byte + 1,
    {
        self.end_byte - self.start_byte + 1
    }
}

/// Start of segment `i` when `total` bytes are split into `n` segments.
pub open spec fn seg_start(total: int, n: int, i: int) -> int {
    i * (total / n)
}

/// Inclusive end of segment `i`; the last segment absorbs the remainder.
pub open spec fn seg_end(total: int, n: int, i: int) -> int {
    if i == n - 1 {
        total - 1
    } else {
        (i + 1) * (total / n) - 1
    }
}

/// The segments `build_segments(total, n)` returns, as a sequence.
pub open spec fn planned(total: int, n: int, segs: Seq<Segment>) -> bool {
    &&& segs.len() == n
    &&& forall|i: int|
        0 <= i < n ==> {
            &&& #[trigger] segs[i].index == i
            &&& segs[i].start_byte == seg_start(total, n, i)
            &&& segs[i].end_byte == seg_end(total, n, i)
            &&& !segs[i].completed
        }
}

/// Sum of the lengths of the first `k` segments.
pub open spec fn covered(segs: Seq<Segment>, k: int) -> int
    decreases k,
{
    if k <= 0 {
        0
    } else {
        covered(segs, k - 1) + (segs[k - 1].end_byte - segs[k - 1].start_byte + 1)
    }
}

proof fn lemma_chunk_bounds(total: int, n: int, i: int)
    requires
        1 <= n <= total,
        0 <= i <= n,
    ensures
        0 <= i * (total / n) <= total,
        (i + 1) * (total / n) == i * (total / n) + total / n,
        i == 0 ==> i * (total / n) == 0,
        total / n >= 1,
        n * (total / n) <= total,
{
    assert(total / n >= 1) by (nonlinear_arith)
        requires
            1 <= n <= total,
    ;
    assert(n * (total / n) <= total) by (nonlinear_arith)
        requires
            1 <= n,
            0 <= total,
    ;
    assert(0 <= i * (total / n) <= n * (total / n)) by (nonlinear_arith)
        requires
            0 <= i <= n,
            total / n >= 1,
    ;
    assert((i + 1) * (total / n) == i * (total / n) + total / n) by (nonlinear_arith);
}

/// Split `total_bytes` into `thread_count` contiguous, non-overlapping byte ranges.
pub fn build_segments(total_bytes: u64, thread_count: u8) -> (segs: Vec<Segment>)
    requires
        1 <= thread_count,
        thread_count <= total_bytes,
    ensures
        planned(total_bytes as int, thread_count as int, segs@),
{
    let n = thread_count as u64;
    let chunk = total_bytes / n;
    let mut segs: Vec<Segment> = Vec::new();
    let mut i: u64 = 0;
    while i < n
        invariant
            1 <= n <= total_bytes,
            n == thread_count,
            chunk == total_bytes / n,
            i <= n,
            segs.len() == i,
            forall|k: int|
                0 <= k < i ==> {
                    &&& #[trigger] segs@[k].index == k
                    &&& segs@[k].start_byte == seg_start(total_bytes as int, n as int, k)
                    &&& segs@[k].end_byte == seg_end(total_bytes as int, n as int, k)
                    &&& !segs@[k].completed
                },
        decreases n - i,
    {
        proof {
            lemma_chunk_bounds(total_bytes as int, n as int, i as int);
            lemma_chunk_bounds(total_bytes as int, n as int, (i + 1) as int);
        }
        let start = i * chunk;
        let end = if i == n - 1 {
            total_bytes - 1
        } else {
            (i + 1) * chunk - 1
        };
        let ghost old_segs = segs@;
        segs.push(Segment { index: i as usize, start_byte: start, end_byte: end, completed: false });
        proof {
            assert(i < 256);
            assert(segs@[i as int].index == i);
            assert(segs@[i as int].start_byte == seg_start(total_bytes as int, n as int, i as int));
            assert(segs@[i as int].end_byte == seg_end(total_bytes as int, n as int, i as int));
            assert forall|k: int| 0 <= k < i implies #[trigger] segs@[k] == old_segs[k] by {}
        }
        i = i + 1;
    }
    segs
}

/// Law: the planned segments tile `[0, total)` exactly — the first starts at
/// byte 0, the last ends at byte `total - 1`, each segment is non-empty, each
/// one starts right after the previous one ends, and their lengths add up to
/// `total`.
pub proof fn lemma_segments_partition(total: u64, n: u8, segs: Seq<Segment>)
    requires
        1 <= n <= total,
        planned(total as int, n as int, segs),
    ensures
        segs[0].start_byte == 0,
        segs[n - 1].end_byte == total - 1,
        forall|i: int| 0 <= i < n ==> #[trigger] segs[i].start_byte <= segs[i].end_byte,
        forall|i: int| 0 <= i < n - 1 ==> #[trigger] segs[i].end_byte + 1 == segs[i + 1].start_byte,
        covered(segs, n as int) == total,
{
    let t = total as int;
    let m = n as int;
    assert(segs[0].index == 0);
    lemma_chunk_bounds(t, m, 0);
    assert forall|i: int| 0 <= i < n implies #[trigger] segs[i].start_byte <= segs[i].end_byte by {
        assert(segs[i].index == i);
        lemma_chunk_bounds(t, m, i);
        lemma_chunk_bounds(t, m, i + 1);
    }
    assert forall|i: int| 0 <= i < n - 1 implies #[trigger] segs[i].end_byte + 1 == segs[i + 1].start_byte by {
        assert(segs[i].index == i);
        assert(segs[i + 1].index == i + 1);
        lemma_chunk_bounds(t, m, i);
    }
    lemma_covered(t, m, segs, m);
    assert(segs[m - 1].index == m - 1);
}

proof fn lemma_covered(total: int, n: int, segs: Seq<Segment>, k: int)
    requires
        1 <= n <= total,
        planned(total, n, segs),
        1 <= k <= n,
    ensures
        covered(segs, k) == segs[k - 1].end_byte + 1,
    decreases k,
{
    assert(segs[k - 1].index == k - 1);
    lemma_chunk_bounds(total, n, k - 1);
    if k == 1 {
        assert(covered(segs, 0) == 0);
    } else {
        lemma_covered(total, n, segs, k - 1);
        assert(segs[k - 2].index == k - 2);
        lemma_chunk_bounds(total, n, k - 2);
    }
}

/// Most threads a download of `total_bytes` may use so that every segment
/// holds at least 1 MiB: one per whole MiB, at least 1 and at most 64.
pub open spec fn max_threads_for_size(total_bytes: nat) -> int {
    clamp((total_bytes / 1048576) as int, 1, 64)
}

/// Thread count actually used for a download of `total_bytes`: the override
/// (or the formula) clamped to 1..=64, and never more than the 1 MiB
/// minimum segment size allows.
pub open spec fn resolved_threads(total_bytes: nat, override_threads: Option<u8>) -> int {
    let requested = clamp(
        match override_threads {
            Some(t) => t as int,
            None => thread_count_for(total_bytes),
        },
        1,
        64,
    );
    if total_bytes == 0 {
        1
    } else if requested <= max_threads_for_size(total_bytes) {
        requested
    } else {
        max_threads_for_size(total_bytes)
    }
}

pub fn resolved_thread_count(total_bytes: u64, override_threads: Option<u8>) -> (r: u8)
    ensures
        r as int == resolved_threads(total_bytes as nat, override_threads),
        1 <= r <= 64,
        total_bytes > 0 ==> r <= total_bytes,
        r == 1 || r * 1048576 <= total_bytes,
{
    let base = match override_threads {
        Some(t) => t,
        None => calc_thread_count(total_bytes),
    };
    let requested: u8 = if base < 1 {
        1
    } else if base > 64 {
        64
    } else {
        base
    };
    if total_bytes == 0 {
        return 1;
    }
    let whole_mib = total_bytes / 1048576;
    let max_by_min_segment: u8 = if whole_mib < 1 {
        1
    } else if whole_mib > 64 {
        64
    } else {
        whole_mib as u8
    };
    assert(max_by_min_segment == 1 || max_by_min_segment * 1048576 <= total_bytes) by (nonlinear_arith)
        requires
            whole_mib == total_bytes / 1048576,
            max_by_min_segment == 1 || (2 <= max_by_min_segment <= 64 && max_by_min_segment <= whole_mib),
    ;
    if requested <= max_by_min_segment {
        requested
    } else {
        max_by_min_segment
    }
}

/// Whether the stored segment rows match the expected `(start, end)` pairs
/// one for one, so that an interrupted download can resume on them.
pub open spec fn rows_match(existing: Seq<SegmentRow>, expected: Seq<(u64, u64)>) -> bool {
    &&& existing.len() == expected.len()
    &&& forall|i: int|
        0 <= i < existing.len() ==> (#[trigger] existing[i]).start_byte as u64 == expected[i].0
            && existing[i].end_byte as u64 == expected[i].1
}

pub fn can_reuse_segments(existing: &[SegmentRow], expected: &[(u64, u64)]) -> (r: bool)
    ensures
        r == rows_match(existing@, expected@),
{
    if existing.len() != expected.len() {
        return false;
    }
    let mut i: usize = 0;
    while i < existing.len()
        invariant
            i <= existing.len(),
            existing.len() == expected.len(),
            forall|j: int|
                0 <= j < i ==> (#[trigger] existing@[j]).start_byte as u64 == expected@[j].0
                    && existing@[j].end_byte as u64 == expected@[j].1,
        decreases existing.len() - i,
    {
        let row = &existing[i];
        let (start, end) = expected[i];
        if !(row.start_byte as u64 == start && row.end_byte as u64 == end) {
            return false;
        }
        i = i + 1;
    }
    true
}

/// The `(start, end)` pairs of a segment plan, in order.
pub fn segment_pairs(segs: &[Segment]) -> (r: Vec<(u64, u64)>)
    ensures
        r@.len() == segs@.len(),
        forall|i: int|
            0 <= i < segs@.len() ==> #[trigger] r@[i] == (segs@[i].start_byte, segs@[i].end_byte),
{
    let mut r: Vec<(u64, u64)> = Vec::new();
    let mut i: usize = 0;
    while i < segs.len()
        invariant
            i <= segs.len(),
            r@.len() == i,
            forall|k: int| 0 <= k < i ==> #[trigger] r@[k] == (segs@[k].start_byte, segs@[k].end_byte),
        decreases segs.len() - i,
    {
        r.push((segs[i].start_byte, segs[i].end_byte));
        i = i + 1;
    }
    r
}

/// The single completed range recorded after a streaming download wrote
/// `written` bytes; nothing is recorded for an empty file.
pub fn streamed_range(written: u64) -> (r: Option<(u64, u64)>)
    ensures
        written == 0 ==> r.is_none(),
        written > 0 ==> r == Some((0u64, (written - 1) as u64)),
{
    if written > 0 {
        Some((0, written - 1))
    } else {
        None
    }
}

} // verus!
