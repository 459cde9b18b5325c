//! The dispatch plan: from an input stream to a bounded set of scan jobs.
//!
//! Host identifiers arrive one per line. Each line is trimmed of surrounding
//! whitespace; the first blank line (or the end of the stream) ends the scan
//! at once, whatever may still be buffered behind it, and every non-blank
//! line before it becomes exactly one job, in input order. The worker pool
//! that runs the jobs is an external collaborator; the plan fixes what it is
//! given.

use vstd::prelude::*;
use vstd::string::StrSliceExecFns;

use crate::text::{is_space, skip_spaces};

verus! {

/// One past the last non-space character strictly before `i`, or zero when
/// only spaces are there.
pub open spec fn scan_back(s: Seq<char>, i: int) -> int
    decreases i,
{
    if i <= 0 {
        0
    } else if is_space(s[i - 1]) {
        scan_back(s, i - 1)
    } else {
        i
    }
}

pub proof fn lemma_scan_back_bounds(s: Seq<char>, i: int)
    requires
        0 <= i <= s.len(),
    ensures
        0 <= scan_back(s, i) <= i,
        scan_back(s, i) > 0 ==> !is_space(s[scan_back(s, i) - 1]),
        forall|j: int| scan_back(s, i) <= j < i ==> is_space(s[j]),
    decreases i,
{
    if i > 0 && is_space(s[i - 1]) {
        lemma_scan_back_bounds(s, i - 1);
    }
}

/// The line with surrounding whitespace removed.
pub open spec fn trim_spec(s: Seq<char>) -> Seq<char> {
    let a = skip_spaces(s, 0);
    let b = scan_back(s, s.len() as int);
    if a >= b {
        Seq::empty()
    } else {
        s.subrange(a, b)
    }
}

/// A line that trims to nothing: the scan's terminator.
pub open spec fn is_blank(s: Seq<char>) -> bool {
    trim_spec(s).len() == 0
}

/// Removes surrounding whitespace from a line.
pub fn trim(s: &str) -> (r: &str)
    ensures
        r@ == trim_spec(s@),
{
    proof {
        crate::text::lemma_skip_spaces_bounds(s@, 0);
        lemma_scan_back_bounds(s@, s@.len() as int);
    }
    let n = s.unicode_len();
    let a = crate::text::find_skip_spaces(s, 0);
    let mut b: usize = n;
    while b > 0 && is_space_back(s, b)
        invariant
            b <= n,
            n == s@.len(),
            scan_back(s@, n as int) == scan_back(s@, b as int),
        decreases b,
    {
        b = b - 1;
    }
    assert(b == scan_back(s@, n as int));
    if a >= b {
        let empty = s.substring_char(a, a);
        assert(empty@ =~= trim_spec(s@));
        empty
    } else {
        s.substring_char(a, b)
    }
}

/// Whether the character just before `b` is whitespace.
fn is_space_back(s: &str, b: usize) -> (r: bool)
    requires
        0 < b <= s@.len(),
    ensures
        r == is_space(s@[b - 1]),
{
    crate::text::is_space_char(s.get_char(b - 1))
}

/// The dispatcher's decision on one line read from the stream: the host to
/// submit a job for, or `None` when the blank line ends the scan.
pub fn host_from_line(line: &str) -> (r: Option<String>)
    ensures
        (match r {
            Some(h) => !is_blank(line@) && h@ == trim_spec(line@),
            None => is_blank(line@),
        }),
{
    let t = trim(line);
    if t.unicode_len() == 0 {
        None
    } else {
        Some(t.to_owned())
    }
}

/// The hosts the stream submits for scanning: the trimmed lines of the
/// longest prefix that holds no blank line, in input order.
pub open spec fn plan_spec(lines: Seq<Seq<char>>) -> Seq<Seq<char>>
    decreases lines.len(),
{
    if lines.len() == 0 {
        Seq::empty()
    } else if is_blank(lines[0]) {
        Seq::empty()
    } else {
        seq![trim_spec(lines[0])] + plan_spec(lines.skip(1))
    }
}

/// A stream whose first `i` lines are non-blank and that then ends or goes
/// blank plans exactly one job per non-blank line, in input order: the
/// count of jobs equals the count of hosts submitted, none is dropped and
/// none is duplicated.
pub proof fn lemma_plan_exact(lines: Seq<Seq<char>>, i: int)
    requires
        0 <= i <= lines.len(),
        forall|j: int| 0 <= j < i ==> !is_blank(#[trigger] lines[j]),
        i < lines.len() ==> is_blank(lines[i]),
    ensures
        plan_spec(lines) =~= Seq::new(i as nat, |j: int| trim_spec(lines[j])),
    decreases i,
{
    if i == 0 {
    } else {
        lemma_plan_exact(lines.skip(1), i - 1);
        assert(forall|j: int| 0 <= j < i - 1 ==> lines.skip(1)[j] == lines[j + 1]);
        assert(plan_spec(lines) =~= seq![trim_spec(lines[0])] + Seq::new(
            (i - 1) as nat,
            |j: int| trim_spec(lines.skip(1)[j]),
        ));
    }
}

/// A blank line ends the scan at once: whatever follows it in the stream,
/// buffered or not, changes nothing about which jobs run.
pub proof fn lemma_blank_line_stops_scan(prefix: Seq<Seq<char>>, rest: Seq<Seq<char>>)
    requires
        exists|i: int| 0 <= i < prefix.len() && is_blank(#[trigger] prefix[i]),
    ensures
        plan_spec(prefix + rest) == plan_spec(prefix),
    decreases prefix.len(),
{
    let i = choose|i: int| 0 <= i < prefix.len() && is_blank(#[trigger] prefix[i]);
    assert((prefix + rest).len() > 0);
    assert((prefix + rest)[0] == prefix[0]);
    if is_blank(prefix[0]) {
    } else {
        assert(i != 0);
        assert(0 <= i - 1 < prefix.skip(1).len() && is_blank(prefix.skip(1)[i - 1]));
        lemma_blank_line_stops_scan(prefix.skip(1), rest);
        assert((prefix + rest).skip(1) =~= prefix.skip(1) + rest);
    }
}

/// Turns the lines of an input stream into the scan plan: one host per
/// non-blank line up to the first blank line or the stream's end.
pub fn plan_jobs(lines: &Vec<String>) -> (r: Vec<String>)
    ensures
        r.deep_view() =~= plan_spec(lines.deep_view()),
{
    let ghost ldv = lines.deep_view();
    let n = lines.len();
    let mut out: Vec<String> = Vec::new();
    let mut stopped = false;
    let mut i: usize = 0;
    while i < n && !stopped
        invariant
            i <= n,
            n == ldv.len(),
            ldv == lines.deep_view(),
            out@.len() == i,
            forall|j: int| 0 <= j < i ==> (#[trigger] out@[j])@ == trim_spec(ldv[j]),
            forall|j: int| 0 <= j < i ==> !is_blank(#[trigger] ldv[j]),
            stopped ==> i < n && is_blank(ldv[i as int]),
        decreases n - i + (if stopped { 0int } else { 1int }),
    {
        proof {
            assert(ldv[i as int] == lines@[i as int]@);
        }
        match host_from_line(lines[i].as_str()) {
            None => {
                stopped = true;
            },
            Some(h) => {
                out.push(h);
                i = i + 1;
            },
        }
    }
    proof {
        lemma_plan_exact(ldv, i as int);
        assert forall|j: int| 0 <= j < i implies out.deep_view()[j] == trim_spec(ldv[j]) by {
            assert(out.deep_view()[j] == out@[j].deep_view());
        }
        assert(out.deep_view() =~= plan_spec(ldv));
    }
    out
}

} // verus!
