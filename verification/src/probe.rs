//! Process probe: decides from a process listing whether the target
//! executable is running.
//!
//! The surrounding application invokes the OS process-listing facility and
//! hands the raw output here as bytes. A line of that output reports the
//! target when it names the target executable and is not the filtering
//! command's own invocation (self-exclusion): a probe must never match
//! itself. The target runs exactly when at least one line reports it.

use vstd::prelude::*;

verus! {

/// The byte that separates lines of the process listing.
pub const LINE_FEED: u8 = 10;

/// The target executable's name, "SNAP.exe", as bytes.
pub open spec fn target_name() -> Seq<u8> {
    seq![83u8, 78u8, 65u8, 80u8, 46u8, 101u8, 120u8, 101u8]
}

/// The marker of the filtering command's own invocation, "grep", as bytes.
pub open spec fn filter_marker() -> Seq<u8> {
    seq![103u8, 114u8, 101u8, 112u8]
}

/// `pat` occurs in `s` starting at position `i`.
pub open spec fn occurs_at(s: Seq<u8>, pat: Seq<u8>, i: int) -> bool {
    &&& 0 <= i
    &&& i + pat.len() <= s.len()
    &&& s.subrange(i, i + pat.len()) == pat
}

/// `pat` occurs somewhere in `s`.
pub open spec fn contains_seq(s: Seq<u8>, pat: Seq<u8>) -> bool {
    exists|i: int| occurs_at(s, pat, i)
}

/// `s[lo..hi]` is one whole line of `s`: bounded by line separators or the
/// ends of `s`, with no separator inside.
pub open spec fn is_line(s: Seq<u8>, lo: int, hi: int) -> bool {
    &&& 0 <= lo <= hi <= s.len()
    &&& (lo == 0 || s[lo - 1] == LINE_FEED)
    &&& (hi == s.len() || s[hi] == LINE_FEED)
    &&& forall|k: int| lo <= k < hi ==> s[k] != LINE_FEED
}

/// The line reports the target process: it names the target executable and
/// is not the filtering command's own invocation.
pub open spec fn line_reports_target(line: Seq<u8>) -> bool {
    contains_seq(line, target_name()) && !contains_seq(line, filter_marker())
}

/// Some whole line of the process listing reports the target.
pub open spec fn listing_reports_target(s: Seq<u8>) -> bool {
    exists|lo: int, hi: int| #[trigger] is_line(s, lo, hi) && line_reports_target(s.subrange(lo, hi))
}

/// `pat` occurs in `hay` at exactly the position `at`.
fn match_at(hay: &[u8], pat: &[u8], at: usize) -> (r: bool)
    requires
        at + pat@.len() <= hay@.len(),
    ensures
        r == occurs_at(hay@, pat@, at as int),
{
    let n = hay.len();
    let m = pat.len();
    let mut j: usize = 0;
    while j < m
        invariant
            at + m <= n,
            n == hay@.len(),
            m == pat@.len(),
            j <= m,
            forall|k: int| 0 <= k < j ==> hay@[at + k] == pat@[k],
        decreases m - j,
    {
        if hay[at + j] != pat[j] {
            proof {
                assert(hay@.subrange(at as int, at + m as int)[j as int] != pat@[j as int]);
            }
            return false;
        }
        j += 1;
    }
    proof {
        assert(hay@.subrange(at as int, at + m as int) =~= pat@);
    }
    true
}

/// `pat` occurs somewhere in `hay`.
fn contains_pattern(hay: &[u8], pat: &[u8]) -> (r: bool)
    ensures
        r == contains_seq(hay@, pat@),
{
    let n = hay.len();
    let m = pat.len();
    if m > n {
        return false;
    }
    if m == 0 {
        proof {
            assert(hay@.subrange(0, 0) =~= pat@);
            assert(occurs_at(hay@, pat@, 0));
        }
        return true;
    }
    let bound = n - m;
    let mut i: usize = 0;
    while i <= bound
        invariant
            1 <= m <= n,
            n == hay@.len(),
            m == pat@.len(),
            bound == n - m,
            i <= bound + 1,
            forall|p: int| 0 <= p < i ==> !occurs_at(hay@, pat@, p),
        decreases bound + 1 - i,
    {
        if match_at(hay, pat, i) {
            return true;
        }
        i += 1;
    }
    false
}

/// The target executable's name as executable bytes.
fn target_name_bytes() -> (v: Vec<u8>)
    ensures
        v@ == target_name(),
{
    let v: Vec<u8> = vec![83u8, 78u8, 65u8, 80u8, 46u8, 101u8, 120u8, 101u8];
    proof {
        assert(v@ =~= target_name());
    }
    v
}

/// The filtering command's marker as executable bytes.
fn filter_marker_bytes() -> (v: Vec<u8>)
    ensures
        v@ == filter_marker(),
{
    let v: Vec<u8> = vec![103u8, 114u8, 101u8, 112u8];
    proof {
        assert(v@ =~= filter_marker());
    }
    v
}

/// A whole line that ends at or after `start` within the scanned stretch is
/// exactly the stretch `[start, end)` itself.
proof fn lemma_line_is_scanned_stretch(s: Seq<u8>, start: int, end: int, lo: int, hi: int)
    requires
        0 <= start <= end <= s.len(),
        start == 0 || s[start - 1] == LINE_FEED,
        forall|k: int| start <= k < end ==> s[k] != LINE_FEED,
        end == s.len() || s[end] == LINE_FEED,
        is_line(s, lo, hi),
        start <= hi <= end,
    ensures
        lo == start,
        hi == end,
{
    if hi < end {
        assert(s[hi] != LINE_FEED);
        assert(false);
    }
    if lo > start {
        assert(s[lo - 1] != LINE_FEED);
        assert(false);
    }
    if lo < start {
        assert(s[start - 1] == LINE_FEED);
        assert(false);
    }
}

/// Whether the process listing handed in as `ps_output` shows the target
/// executable running: true exactly when some line of the listing names the
/// target and is not the filtering command's own invocation.
pub fn is_marvel_snap_running(ps_output: &[u8]) -> (r: bool)
    ensures
        r == listing_reports_target(ps_output@),
{
    let n = ps_output.len();
    let target = target_name_bytes();
    let marker = filter_marker_bytes();
    let mut start: usize = 0;
    loop
        invariant
            n == ps_output@.len(),
            target@ == target_name(),
            marker@ == filter_marker(),
            start <= n,
            start == 0 || ps_output@[start - 1] == LINE_FEED,
            forall|lo: int, hi: int|
                #[trigger] is_line(ps_output@, lo, hi) && hi < start
                    ==> !line_reports_target(ps_output@.subrange(lo, hi)),
        decreases n - start,
    {
        let mut end: usize = start;
        while end < n && ps_output[end] != LINE_FEED
            invariant
                n == ps_output@.len(),
                start <= end <= n,
                forall|k: int| start <= k < end ==> ps_output@[k] != LINE_FEED,
            decreases n - end,
        {
            end += 1;
        }
        proof {
            assert(is_line(ps_output@, start as int, end as int));
        }
        let line = &ps_output[start..end];
        if contains_pattern(line, target.as_slice()) && !contains_pattern(line, marker.as_slice()) {
            proof {
                assert(line_reports_target(ps_output@.subrange(start as int, end as int)));
            }
            return true;
        }
        if end == n {
            proof {
                assert forall|lo: int, hi: int| #[trigger] is_line(ps_output@, lo, hi)
                    implies !line_reports_target(ps_output@.subrange(lo, hi)) by {
                    if hi >= start {
                        lemma_line_is_scanned_stretch(
                            ps_output@,
                            start as int,
                            end as int,
                            lo,
                            hi,
                        );
                    }
                }
            }
            return false;
        }
        proof {
            assert forall|lo: int, hi: int|
                #[trigger] is_line(ps_output@, lo, hi) && hi < start + (end - start) + 1
                    implies !line_reports_target(ps_output@.subrange(lo, hi)) by {
                if hi >= start {
                    lemma_line_is_scanned_stretch(ps_output@, start as int, end as int, lo, hi);
                }
            }
        }
        start = end + 1;
    }
}

/// Self-exclusion: a listing in which every line that names the target also
/// carries the filtering command's marker — such as a listing showing only
/// the probe's own invocation — never reports the target as running.
pub proof fn lemma_self_exclusion(s: Seq<u8>)
    requires
        forall|lo: int, hi: int|
            #[trigger] is_line(s, lo, hi) && contains_seq(s.subrange(lo, hi), target_name())
                ==> contains_seq(s.subrange(lo, hi), filter_marker()),
    ensures
        !listing_reports_target(s),
{
}

} // verus!
