use vstd::prelude::*;

verus! {

/// The maximum number of rows that a single page holds.
pub const LIMIT: usize = 100;

pub open spec fn min_int(x: int, y: int) -> int {
    if x <= y { x } else { y }
}

pub open spec fn max_int(x: int, y: int) -> int {
    if x >= y { x } else { y }
}

/// The range `[start, end)` that the cursors allow, before `first` and `last`.
///
/// `after = a` starts the range at `a + 1`. `before = b` ends it at `b - 1`
/// (clamped at zero) and moves its start to at most `LIMIT` rows before that
/// end, whatever `after` said. The end never passes `total`, and a start past
/// the end collapses onto it.
#[verifier::opaque]
pub open spec fn cursor_range(total: int, after: Option<usize>, before: Option<usize>) -> (int, int) {
    let start_after = match after {
        Some(a) => a + 1,
        None => 0,
    };
    let (start, end) = match before {
        Some(b) => {
            let e = max_int(b - 1, 0);
            (max_int(e - LIMIT, 0), e)
        },
        None => (start_after, total),
    };
    let end = min_int(end, total);
    (min_int(start, end), end)
}

/// The window `(limit, offset)` for a request.
///
/// `first = f` keeps at most the first `f` rows of the cursor range, then
/// `last = l` keeps at most the last `l` rows of what is left; the limit is
/// what remains, capped at `LIMIT`.
pub open spec fn window_of(
    total: int,
    after: Option<usize>,
    before: Option<usize>,
    first: Option<usize>,
    last: Option<usize>,
) -> (int, int) {
    let (start, end) = cursor_range(total, after, before);
    let end = match first {
        Some(f) => start + min_int(f as int, end - start),
        None => end,
    };
    let start = match last {
        Some(l) => end - min_int(l as int, end - start),
        None => start,
    };
    (min_int(end - start, LIMIT as int), start)
}

/// The cursor range `[start, end)` as machine integers.
fn cursor_bounds(total_count: usize, after: Option<usize>, before: Option<usize>) -> (r: (usize, usize))
    ensures
        r.0 as int == cursor_range(total_count as int, after, before).0,
        r.1 as int == cursor_range(total_count as int, after, before).1,
{
    proof {
        reveal(cursor_range);
    }
    let mut start: usize = 0;
    let mut end: usize = total_count;

    if let Some(a) = after {
        // Saturating is exact here: a start past `total_count` collapses below.
        start = a.saturating_add(1);
    }
    if let Some(b) = before {
        end = b.saturating_sub(1);
        start = end.saturating_sub(LIMIT);
    }
    if end > total_count {
        end = total_count;
    }
    if start > end {
        start = end;
    }
    (start, end)
}

/// Resolves the pagination arguments into a `(limit, offset)` window over
/// `total_count` rows.
pub fn calculate_limit_offset(
    total_count: usize,
    after: Option<usize>,
    before: Option<usize>,
    first: Option<usize>,
    last: Option<usize>,
) -> (r: (usize, usize))
    ensures
        r.0 as int == window_of(total_count as int, after, before, first, last).0,
        r.1 as int == window_of(total_count as int, after, before, first, last).1,
        r.0 <= LIMIT,
        r.1 as int + r.0 as int <= total_count as int,
{
    let (mut start, mut end) = cursor_bounds(total_count, after, before);
    proof {
        lemma_cursor_range_bounds(total_count as int, after, before);
    }

    // Apply first/last
    if let Some(f) = first {
        if f < end - start {
            end = start + f;
        }
    }
    if let Some(l) = last {
        if l < end - start {
            start = end - l;
        }
    }

    let span: usize = end - start;
    let limit: usize = if span < LIMIT { span } else { LIMIT };
    (limit, start)
}

/// The cursor range lies within `[0, total]`.
pub proof fn lemma_cursor_range_bounds(total: int, after: Option<usize>, before: Option<usize>)
    requires
        total >= 0,
    ensures
        0 <= cursor_range(total, after, before).0 <= cursor_range(total, after, before).1 <= total,
{
    reveal(cursor_range);
}

/// Without any argument the window is the first `LIMIT` rows, or all of them
/// when there are fewer.
pub proof fn lemma_no_arguments(total: usize)
    ensures
        window_of(total as int, None, None, None, None) == (min_int(total as int, LIMIT as int), 0int),
{
    reveal(cursor_range);
}

/// With `after = a` alone the window holds at most `LIMIT` of the rows that
/// follow `a`, and starts at `a + 1` whenever that is not past the end.
pub proof fn lemma_after_only(total: usize, a: usize)
    ensures
        window_of(total as int, Some(a), None, None, None).0 == min_int(
            max_int(total - (a + 1), 0),
            LIMIT as int,
        ),
        a + 1 <= total ==> window_of(total as int, Some(a), None, None, None).1 == a + 1,
{
    reveal(cursor_range);
}

/// With `before = b` alone, and `b - 1` within the rows, the window holds the
/// (at most `LIMIT`) rows that end just before `b - 1`.
pub proof fn lemma_before_only(total: usize, b: usize)
    requires
        b <= total + 1,
    ensures
        ({
            let end = max_int(b - 1, 0);
            let w = window_of(total as int, None, Some(b), None, None);
            &&& w.1 == max_int(end - LIMIT, 0)
            &&& w.0 == min_int(end - w.1, LIMIT as int)
        }),
{
    reveal(cursor_range);
}

/// `first = f` keeps the start that the cursors gave and only cuts the window
/// at its end: the limit becomes at most `f`.
pub proof fn lemma_first_shrinks_from_end(
    total: usize,
    after: Option<usize>,
    before: Option<usize>,
    f: usize,
)
    ensures
        window_of(total as int, after, before, Some(f), None).1 == window_of(
            total as int,
            after,
            before,
            None,
            None,
        ).1,
        window_of(total as int, after, before, Some(f), None).0 == min_int(
            f as int,
            window_of(total as int, after, before, None, None).0,
        ),
{
    lemma_cursor_range_bounds(total as int, after, before);
}

/// `last = l` keeps the end that the cursors gave and only moves the start
/// forward: the window becomes the last `min(l, n)` of the `n` rows in range.
pub proof fn lemma_last_shrinks_from_start(
    total: usize,
    after: Option<usize>,
    before: Option<usize>,
    l: usize,
)
    ensures
        ({
            let (start, end) = cursor_range(total as int, after, before);
            let kept = min_int(l as int, end - start);
            let w = window_of(total as int, after, before, None, Some(l));
            &&& w.1 >= window_of(total as int, after, before, None, None).1
            &&& w.1 == end - kept
            &&& w.0 == min_int(kept, LIMIT as int)
        }),
{
    lemma_cursor_range_bounds(total as int, after, before);
}

/// Whatever the arguments, the window never holds more than `LIMIT` rows and
/// lies within the range that the cursors allow; with `first = f` it lies
/// within the first `f` rows of that range, and with `last = l` it holds at
/// most `l` rows.
pub proof fn lemma_window_bounded(
    total: usize,
    after: Option<usize>,
    before: Option<usize>,
    first: Option<usize>,
    last: Option<usize>,
)
    ensures
        ({
            let (start, end) = cursor_range(total as int, after, before);
            let w = window_of(total as int, after, before, first, last);
            &&& 0 <= w.0 <= LIMIT
            &&& start <= w.1
            &&& w.1 + w.0 <= end
            &&& (first is Some ==> w.1 + w.0 <= start + first->0)
            &&& (last is Some ==> w.0 <= last->0)
        }),
{
    lemma_cursor_range_bounds(total as int, after, before);
}

/// Resolving the same arguments twice gives the same window.
pub proof fn lemma_resolution_deterministic(
    total: usize,
    after: Option<usize>,
    before: Option<usize>,
    first: Option<usize>,
    last: Option<usize>,
    r1: (usize, usize),
    r2: (usize, usize),
)
    requires
        r1.0 as int == window_of(total as int, after, before, first, last).0,
        r1.1 as int == window_of(total as int, after, before, first, last).1,
        r2.0 as int == window_of(total as int, after, before, first, last).0,
        r2.1 as int == window_of(total as int, after, before, first, last).1,
    ensures
        r1 == r2,
{
}

} // verus!
