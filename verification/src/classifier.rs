//! Statement classifier: decides, without parsing SQL, whether a
//! batch can return rows or only an affected-row count.
//!
//! The text is first stripped of comments (line comments vanish up to
//! the newline, block comments collapse to a single space so token
//! boundaries survive). A batch returns rows when any `;`-separated
//! statement starts with `select`, `with`, `exec` or `execute`
//! (case-insensitive), or when `select` occurs anywhere as a
//! whitespace-delimited token — the latter catches subqueries inside
//! other statements. The rule is a conservative heuristic: a
//! row-returning statement it misses is routed to the count path,
//! an accepted limitation rather than a parsing bug.

use vstd::prelude::*;
use vstd::slice::slice_subrange;
use vstd::string::StringSliceAdditionalSpecFns;
use crate::bytes_util::{is_sp, lo, byte_is_space, lower_byte, find_byte, find_needle, needle_at};

verus! {

/// Whether a batch can return rows or only an affected-row count.
#[derive(Clone, Copy, Debug, PartialEq, Eq, Structural)]
pub enum StatementKind {
    /// At least one statement of the batch may produce a result set.
    ReturnsRows,
    /// No statement of the batch is recognized as row-returning.
    NoRows,
}

// --- comment stripping ---------------------------------------------------

/// Index of the first line feed, or the length when none occurs.
pub open spec fn first_nl(s: Seq<u8>) -> int
    decreases s.len(),
{
    if s.len() == 0 {
        0
    } else if s[0] == 10 {
        0
    } else {
        1 + first_nl(s.skip(1))
    }
}

/// Index of the first `*/`, or the length when none occurs.
pub open spec fn first_close(s: Seq<u8>) -> int
    decreases s.len(),
{
    if s.len() < 2 {
        s.len() as int
    } else if s[0] == 42 && s[1] == 47 {
        0
    } else {
        1 + first_close(s.skip(1))
    }
}

/// The comment-stripped text: a line comment (`--`) is dropped up to
/// the next line feed, which is kept; a block comment (`/* */`)
/// becomes one space; everything else passes through.
pub open spec fn strip_spec(s: Seq<u8>) -> Seq<u8>
    decreases s.len(),
    via strip_spec_decreases
{
    if s.len() == 0 {
        Seq::empty()
    } else if s.len() >= 2 && s[0] == 45 && s[1] == 45 {
        strip_spec(s.skip(first_nl(s)))
    } else if s.len() >= 2 && s[0] == 47 && s[1] == 42 {
        if first_close(s.skip(2)) + 4 <= s.len() {
            seq![32u8] + strip_spec(s.skip(first_close(s.skip(2)) + 4))
        } else {
            seq![32u8]
        }
    } else {
        seq![s[0]] + strip_spec(s.skip(1))
    }
}

#[via_fn]
proof fn strip_spec_decreases(s: Seq<u8>) {
    lemma_first_nl_bounds(s);
    if s.len() >= 2 {
        lemma_first_close_bounds(s.skip(2));
        if s[0] == 45 && s[1] == 45 {
            assert(first_nl(s) == 1 + first_nl(s.skip(1)));
            lemma_first_nl_bounds(s.skip(1));
        }
    }
}

proof fn lemma_first_nl_bounds(s: Seq<u8>)
    ensures
        0 <= first_nl(s) <= s.len(),
        forall|k: int| 0 <= k < first_nl(s) ==> s[k] != 10,
        first_nl(s) < s.len() ==> s[first_nl(s)] == 10,
    decreases s.len(),
{
    if s.len() == 0 {
    } else if s[0] == 10 {
    } else {
        lemma_first_nl_bounds(s.skip(1));
        assert forall|k: int| 0 <= k < first_nl(s) implies s[k] != 10 by {
            if k > 0 {
                assert(s.skip(1)[k - 1] == s[k]);
            }
        }
        if first_nl(s) < s.len() {
            assert(s.skip(1)[first_nl(s) - 1] == s[first_nl(s)]);
        }
    }
}

proof fn lemma_first_nl_unique(s: Seq<u8>, k: int)
    requires
        0 <= k <= s.len(),
        forall|j: int| 0 <= j < k ==> s[j] != 10,
        k < s.len() ==> s[k] == 10,
    ensures
        first_nl(s) == k,
    decreases s.len(),
{
    if s.len() == 0 {
    } else if s[0] == 10 {
        assert(k == 0);
    } else {
        assert(k >= 1);
        assert forall|j: int| 0 <= j < k - 1 implies s.skip(1)[j] != 10 by {
            assert(s.skip(1)[j] == s[j + 1]);
        }
        if k - 1 < s.skip(1).len() {
            assert(s.skip(1)[k - 1] == s[k]);
        }
        lemma_first_nl_unique(s.skip(1), k - 1);
    }
}

proof fn lemma_first_close_bounds(s: Seq<u8>)
    ensures
        0 <= first_close(s) <= s.len(),
        forall|k: int| #![trigger s[k]] 0 <= k < first_close(s) && k + 2 <= s.len() ==> !(s[k]
            == 42 && s[k + 1] == 47),
        first_close(s) + 2 <= s.len() ==> s[first_close(s)] == 42 && s[first_close(s) + 1] == 47,
    decreases s.len(),
{
    if s.len() < 2 {
    } else if s[0] == 42 && s[1] == 47 {
    } else {
        lemma_first_close_bounds(s.skip(1));
        assert forall|k: int| #![trigger s[k]]
            0 <= k < first_close(s) && k + 2 <= s.len() implies !(s[k] == 42 && s[k + 1]
            == 47) by {
            if k > 0 {
                assert(s.skip(1)[k - 1] == s[k]);
                assert(s.skip(1)[k] == s[k + 1]);
            }
        }
        if first_close(s) + 2 <= s.len() {
            assert(s.skip(1)[first_close(s) - 1] == s[first_close(s)]);
            assert(s.skip(1)[first_close(s)] == s[first_close(s) + 1]);
        }
    }
}

proof fn lemma_first_close_unique(s: Seq<u8>, k: int)
    requires
        0 <= k,
        k + 2 <= s.len(),
        s[k] == 42 && s[k + 1] == 47,
        forall|j: int| #![trigger s[j]] 0 <= j < k ==> !(s[j] == 42 && s[j + 1] == 47),
    ensures
        first_close(s) == k,
    decreases s.len(),
{
    if s[0] == 42 && s[1] == 47 {
        assert(k == 0);
    } else {
        assert(k >= 1);
        assert forall|j: int| #![trigger s.skip(1)[j]] 0 <= j < k - 1 implies !(s.skip(1)[j] == 42
            && s.skip(1)[j + 1] == 47) by {
            assert(s.skip(1)[j] == s[j + 1]);
            assert(s.skip(1)[j + 1] == s[j + 2]);
        }
        assert(s.skip(1)[k - 1] == s[k]);
        assert(s.skip(1)[k] == s[k + 1]);
        lemma_first_close_unique(s.skip(1), k - 1);
    }
}

proof fn lemma_first_close_none(s: Seq<u8>)
    requires
        forall|j: int| #![trigger s[j]] 0 <= j && j + 2 <= s.len() ==> !(s[j] == 42 && s[j + 1]
            == 47),
    ensures
        first_close(s) == s.len(),
    decreases s.len(),
{
    if s.len() < 2 {
    } else if s[0] == 42 && s[1] == 47 {
        assert(!(s[0] == 42 && s[1] == 47));
    } else {
        assert forall|j: int| #![trigger s.skip(1)[j]]
            0 <= j && j + 2 <= s.skip(1).len() implies !(s.skip(1)[j] == 42 && s.skip(1)[j + 1]
            == 47) by {
            assert(s.skip(1)[j] == s[j + 1]);
            assert(s.skip(1)[j + 1] == s[j + 2]);
        }
        lemma_first_close_none(s.skip(1));
    }
}

/// Removes SQL comments from `src`: the text after the cut is what
/// [`strip_spec`] describes.
pub fn strip_comments(src: &[u8]) -> (out: Vec<u8>)
    ensures
        out@ == strip_spec(src@),
{
    let n = src.len();
    let mut out: Vec<u8> = Vec::new();
    let mut i: usize = 0;
    proof {
        assert(src@.skip(0) =~= src@);
    }
    while i < n
        invariant
            n == src@.len(),
            i <= n,
            out@ + strip_spec(src@.skip(i as int)) == strip_spec(src@),
        decreases n - i,
    {
        let ghost t = src@.skip(i as int);
        proof {
            assert(t.len() == n - i);
            assert forall|j: int| 0 <= j < t.len() implies t[j] == src@[i + j] by {}
        }
        let b = *vstd::slice::slice_index_get(src, i);
        if b == 45 && i + 1 < n && *vstd::slice::slice_index_get(src, i + 1) == 45 {
            // line comment: drop up to the newline, which stays
            let rest = slice_subrange(src, i, n);
            proof {
                assert(rest@ =~= t);
            }
            let found = find_byte(rest, 10);
            match found {
                Some(k) => {
                    proof {
                        lemma_first_nl_unique(t, k as int);
                        assert(src@.skip(i + k as int) =~= t.skip(k as int));
                    }
                    i = i + k;
                },
                None => {
                    proof {
                        lemma_first_nl_unique(t, t.len() as int);
                        assert(src@.skip(n as int) =~= t.skip(t.len() as int));
                        assert(strip_spec(src@.skip(n as int)) =~= Seq::<u8>::empty());
                    }
                    i = n;
                },
            }
        } else if b == 47 && i + 1 < n && *vstd::slice::slice_index_get(src, i + 1) == 42 {
            // block comment: replace through the close marker by a space
            let rest = slice_subrange(src, i + 2, n);
            proof {
                assert(rest@ =~= t.skip(2));
            }
            let mut needle: Vec<u8> = Vec::new();
            needle.push(42);
            needle.push(47);
            let found = find_needle(rest, needle.as_slice());
            proof {
                assert(needle@ =~= seq![42u8, 47u8]);
            }
            match found {
                Some(k) => {
                    proof {
                        assert(needle_at(rest@, needle@, k as int));
                        assert(rest@[k as int] == 42 && rest@[k as int + 1] == 47) by {
                            assert(rest@[k as int] == needle@[0]);
                            assert(rest@[k as int + 1] == needle@[1]);
                        }
                        assert forall|j: int| #![trigger rest@[j]] 0 <= j < k implies !(rest@[j]
                            == 42 && rest@[j + 1] == 47) by {
                            if j + 2 <= rest@.len() {
                                assert(!needle_at(rest@, needle@, j));
                            }
                        }
                        lemma_first_close_unique(t.skip(2), k as int);
                        assert(src@.skip(i + k as int + 4) =~= t.skip(k as int + 4));
                    }
                    out.push(32);
                    i = i + 2 + k + 2;
                },
                None => {
                    proof {
                        assert forall|j: int| #![trigger t.skip(2)[j]]
                            0 <= j && j + 2 <= t.skip(2).len() implies !(t.skip(2)[j] == 42
                            && t.skip(2)[j + 1] == 47) by {
                            assert(!needle_at(rest@, needle@, j));
                        }
                        lemma_first_close_none(t.skip(2));
                    }
                    out.push(32);
                    i = n;
                },
            }
        } else {
            proof {
                assert(strip_spec(t) == seq![t[0]] + strip_spec(t.skip(1)));
                assert(src@.skip(i as int + 1) =~= t.skip(1));
            }
            out.push(b);
            i = i + 1;
        }
    }
    proof {
        assert(src@.skip(n as int) =~= Seq::<u8>::empty());
        assert(out@ =~= strip_spec(src@));
    }
    out
}

// --- classification ------------------------------------------------------

/// The keyword `select`, lower case.
pub open spec fn kw_select() -> Seq<u8> {
    seq![115u8, 101u8, 108u8, 101u8, 99u8, 116u8]
}

/// The keyword `with`, lower case.
pub open spec fn kw_with() -> Seq<u8> {
    seq![119u8, 105u8, 116u8, 104u8]
}

/// The keyword `exec`, lower case.
pub open spec fn kw_exec() -> Seq<u8> {
    seq![101u8, 120u8, 101u8, 99u8]
}

/// The keyword `execute`, lower case.
pub open spec fn kw_execute() -> Seq<u8> {
    seq![101u8, 120u8, 101u8, 99u8, 117u8, 116u8, 101u8]
}

/// The lower-cased keyword stands at position `i` of `s`,
/// case-insensitively.
pub open spec fn kw_at(s: Seq<u8>, i: int, kw: Seq<u8>) -> bool {
    0 <= i && i + kw.len() <= s.len() && (forall|j: int| 0 <= j < kw.len() ==> lo(s[i + j]) == kw[j])
}

/// Position `i` is the head of a `;`-separated statement: only
/// whitespace stands between it and the previous separator (or the
/// start of the batch).
/// All of `s[b..i]` is whitespace and `b` sits at the start of the
/// batch or right after a `;`.
pub open spec fn head_run(s: Seq<u8>, b: int, i: int) -> bool {
    &&& 0 <= b <= i
    &&& (b == 0 || s[b - 1] == 59)
    &&& (forall|k: int| b <= k < i ==> is_sp(#[trigger] s[k]))
}

/// Position `i` is the head of a `;`-separated statement: only
/// whitespace stands between it and the previous separator (or the
/// start of the batch).
pub open spec fn head_at(s: Seq<u8>, i: int) -> bool {
    0 <= i <= s.len() && exists|b: int| head_run(s, b, i)
}

/// `select` stands at `i` as a whitespace-delimited token.
pub open spec fn select_token_at(s: Seq<u8>, i: int) -> bool {
    &&& kw_at(s, i, kw_select())
    &&& (i == 0 || is_sp(s[i - 1]))
    &&& (i + 6 == s.len() || is_sp(s[i + 6]))
}

/// The stripped batch is recognized as row-returning: some statement
/// head carries one of the four keywords, or `select` occurs as a
/// free-standing token.
pub open spec fn spec_returns_rows(s: Seq<u8>) -> bool {
    ||| exists|i: int| #![auto] head_at(s, i) && (kw_at(s, i, kw_select()) || kw_at(s, i, kw_with())
        || kw_at(s, i, kw_exec()) || kw_at(s, i, kw_execute()))
    ||| exists|i: int| select_token_at(s, i)
}

/// What the classifier decides about a raw (uncomment-stripped) batch.
pub open spec fn spec_classify(sql: Seq<u8>) -> StatementKind {
    if spec_returns_rows(strip_spec(sql)) {
        StatementKind::ReturnsRows
    } else {
        StatementKind::NoRows
    }
}

/// Case-insensitive keyword match at a position; false when the
/// keyword does not fit.
fn kw_match_at(s: &[u8], i: usize, kw: &[u8]) -> (r: bool)
    requires
        i <= s@.len(),
    ensures
        r == kw_at(s@, i as int, kw@),
{
    let n = s.len();
    let m = kw.len();
    if i > n || m > n - i {
        return false;
    }
    let mut j: usize = 0;
    while j < m
        invariant
            n == s@.len(),
            i + m <= n,
            m == kw@.len(),
            j <= m,
            forall|q: int| 0 <= q < j ==> lo(s@[i + q]) == kw@[q],
        decreases m - j,
    {
        let sb = *vstd::slice::slice_index_get(s, i + j);
        let kb = *vstd::slice::slice_index_get(kw, j);
        if lower_byte(sb) != kb {
            return false;
        }
        j = j + 1;
    }
    true
}

fn kw_select_vec() -> (r: Vec<u8>)
    ensures
        r@ == kw_select(),
{
    let mut v: Vec<u8> = Vec::new();
    v.push(115);
    v.push(101);
    v.push(108);
    v.push(101);
    v.push(99);
    v.push(116);
    proof {
        assert(v@ =~= kw_select());
    }
    v
}

fn kw_with_vec() -> (r: Vec<u8>)
    ensures
        r@ == kw_with(),
{
    let mut v: Vec<u8> = Vec::new();
    v.push(119);
    v.push(105);
    v.push(116);
    v.push(104);
    proof {
        assert(v@ =~= kw_with());
    }
    v
}

fn kw_exec_vec() -> (r: Vec<u8>)
    ensures
        r@ == kw_exec(),
{
    let mut v: Vec<u8> = Vec::new();
    v.push(101);
    v.push(120);
    v.push(101);
    v.push(99);
    proof {
        assert(v@ =~= kw_exec());
    }
    v
}

fn kw_execute_vec() -> (r: Vec<u8>)
    ensures
        r@ == kw_execute(),
{
    let mut v: Vec<u8> = Vec::new();
    v.push(101);
    v.push(120);
    v.push(101);
    v.push(99);
    v.push(117);
    v.push(116);
    v.push(101);
    proof {
        assert(v@ =~= kw_execute());
    }
    v
}

/// Scans a stripped batch for the row-returning patterns.
fn scan_stripped(s: &[u8]) -> (r: bool)
    ensures
        r == spec_returns_rows(s@),
{
    let ksel = kw_select_vec();
    let kwith = kw_with_vec();
    let kexec = kw_exec_vec();
    let kexecute = kw_execute_vec();
    let n = s.len();
    let mut i: usize = 0;
    let ghost mut hs: int = 0;
    let mut in_head: bool = true;
    while i < n
        invariant
            n == s@.len(),
            i <= n,
            0 <= hs <= i as int,
            hs == 0 || s@[hs - 1] == 59,
            forall|k: int| hs <= k < i as int ==> s@[k] != 59,
            in_head <==> (forall|k: int| hs <= k < i as int ==> is_sp(#[trigger] s@[k])),
            ksel@ == kw_select(),
            kwith@ == kw_with(),
            kexec@ == kw_exec(),
            kexecute@ == kw_execute(),
            forall|p: int| 0 <= p < i as int ==> !select_token_at(s@, p),
            forall|p: int| #![auto] 0 <= p < i as int && head_at(s@, p) ==> !(kw_at(
                s@,
                p,
                kw_select(),
            ) || kw_at(s@, p, kw_with()) || kw_at(s@, p, kw_exec()) || kw_at(
                s@,
                p,
                kw_execute(),
            )),
        decreases n - i,
    {
        if in_head {
            proof {
                assert(head_run(s@, hs, i as int));
            }
            if kw_match_at(s, i, ksel.as_slice()) || kw_match_at(s, i, kwith.as_slice())
                || kw_match_at(s, i, kexec.as_slice()) || kw_match_at(s, i, kexecute.as_slice()) {
                proof {
                    assert(head_at(s@, i as int));
                    assert(spec_returns_rows(s@));
                }
                return true;
            }
        }
        // the free-standing `select` token rule
        let before_ok = i == 0 || byte_is_space(*vstd::slice::slice_index_get(s, i - 1));
        if before_ok && kw_match_at(s, i, ksel.as_slice()) {
            if i + 6 == n || byte_is_space(*vstd::slice::slice_index_get(s, i + 6)) {
                proof {
                    assert(select_token_at(s@, i as int));
                    assert(spec_returns_rows(s@));
                }
                return true;
            }
        }
        // maintain the statement-head bookkeeping
        let b = *vstd::slice::slice_index_get(s, i);
        proof {
            // a statement head at `i` would force `in_head`
            if head_at(s@, i as int) {
                let wb = choose|wb: int| head_run(s@, wb, i as int);
                assert(wb <= hs);
                assert(forall|k: int| hs <= k < i as int ==> is_sp(#[trigger] s@[k]));
            }
        }
        if b == 59 {
            proof {
                hs = i as int + 1;
            }
            in_head = true;
        } else {
            if !byte_is_space(b) {
                in_head = false;
            }
        }
        i = i + 1;
    }
    proof {
        assert forall|p: int| !select_token_at(s@, p) by {
            if 0 <= p && p + 6 <= s@.len() {
                assert(p < i as int);
            } else {
                assert(!kw_at(s@, p, kw_select()));
            }
        }
        assert forall|p: int| #![auto]
            head_at(s@, p) implies !(kw_at(s@, p, kw_select()) || kw_at(s@, p, kw_with()) || kw_at(
            s@,
            p,
            kw_exec(),
        ) || kw_at(s@, p, kw_execute())) by {
            if p < i as int {
            } else {
                assert(p == i as int && i == n);
                assert(!kw_at(s@, p, kw_select()));
                assert(!kw_at(s@, p, kw_with()));
                assert(!kw_at(s@, p, kw_exec()));
                assert(!kw_at(s@, p, kw_execute()));
            }
        }
    }
    false
}

/// Classifies a raw batch, stripping comments first.
pub fn classify_bytes(sql: &[u8]) -> (k: StatementKind)
    ensures
        k == spec_classify(sql@),
{
    let stripped = strip_comments(sql);
    if scan_stripped(stripped.as_slice()) {
        StatementKind::ReturnsRows
    } else {
        StatementKind::NoRows
    }
}

/// Classifies a raw batch given as text.
pub fn classify(sql: &str) -> (k: StatementKind)
    ensures
        k == spec_classify(sql.spec_bytes()),
{
    classify_bytes(sql.as_bytes())
}

// --- the stated guarantees ------------------------------------------------

/// A batch whose comment-stripped text begins, after leading
/// whitespace, with `select`, `with`, `exec` or `execute` is always
/// classified as row-returning.
pub proof fn lemma_leading_keyword_returns_rows(sql: Seq<u8>, i: int)
    requires
        0 <= i <= strip_spec(sql).len(),
        forall|k: int| 0 <= k < i ==> is_sp(#[trigger] strip_spec(sql)[k]),
        kw_at(strip_spec(sql), i, kw_select()) || kw_at(strip_spec(sql), i, kw_with()) || kw_at(
            strip_spec(sql),
            i,
            kw_exec(),
        ) || kw_at(strip_spec(sql), i, kw_execute()),
    ensures
        spec_classify(sql) == StatementKind::ReturnsRows,
{
    let t = strip_spec(sql);
    assert(head_at(t, i)) by {
        assert(head_run(t, 0, i));
    }
}

/// A batch in which `select` stands anywhere as a whitespace-delimited
/// token of the comment-stripped text is always classified as
/// row-returning, whatever statement it is buried in.
pub proof fn lemma_select_token_returns_rows(sql: Seq<u8>, i: int)
    requires
        select_token_at(strip_spec(sql), i),
    ensures
        spec_classify(sql) == StatementKind::ReturnsRows,
{
}

} // verus!
