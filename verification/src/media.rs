//! Decision rules of the media-acquisition helper: which trimmed file can be
//! reused for a request, which trim window is in force once the filename's
//! own tags are honoured, and how a second count splits into the
//! hours/minutes/seconds form the trimming command is given. The helper's
//! subprocess and file-system work stays outside the library.

use vstd::arithmetic::div_mod::lemma_fundamental_div_mod;
use vstd::arithmetic::div_mod::lemma_mod_bound;
use vstd::arithmetic::div_mod::lemma_mod_mod;
use vstd::prelude::*;

verus! {

/// The first of two options that is present, if either is.
pub open spec fn or_else_spec(a: Option<u64>, b: Option<u64>) -> Option<u64> {
    if a is Some {
        a
    } else {
        b
    }
}

/// The option's value, or 0 when absent.
pub open spec fn opt_val_spec(a: Option<u64>) -> int {
    match a {
        Option::Some(v) => v as int,
        Option::None => 0,
    }
}

/// Whether a trimmed file on disk may stand in for the requested trim: its
/// start tag and end tag must match the request exactly — a tag may neither
/// be missing where the request has a bound nor present where it has none.
pub open spec fn should_reuse_spec(
    start_time: Option<u64>,
    end_time: Option<u64>,
    file_start: Option<u64>,
    file_end: Option<u64>,
    has_start: bool,
    has_end: bool,
) -> bool {
    let start_match = start_time == file_start && (start_time is Some) == has_start;
    let end_match = end_time == file_end && (end_time is Some) == has_end;
    match (start_time, end_time) {
        (Option::Some(_), Option::Some(_)) => start_match && end_match,
        (Option::Some(_), Option::None) => start_match && !has_end,
        (Option::None, Option::Some(_)) => end_match && !has_start,
        (Option::None, Option::None) => !has_start && !has_end,
    }
}

/// Compares two optional second counts.
fn opt_eq(a: &Option<u64>, b: &Option<u64>) -> (r: bool)
    ensures
        r == (a == b),
{
    match (a, b) {
        (Option::None, Option::None) => true,
        (Option::Some(x), Option::Some(y)) => x == y,
        _ => false,
    }
}

/// Decides whether the trimmed file already on disk matches the requested
/// trim exactly and may be reused instead of trimming again.
pub fn should_reuse_trimmed(
    start_time: Option<u64>,
    end_time: Option<u64>,
    file_start: Option<u64>,
    file_end: Option<u64>,
    has_start: bool,
    has_end: bool,
) -> (r: bool)
    ensures
        r == should_reuse_spec(start_time, end_time, file_start, file_end, has_start, has_end),
{
    let start_match = opt_eq(&start_time, &file_start) && start_time.is_some() == has_start;
    let end_match = opt_eq(&end_time, &file_end) && end_time.is_some() == has_end;
    match (&start_time, &end_time) {
        (Option::Some(_), Option::Some(_)) => start_match && end_match,
        (Option::Some(_), Option::None) => start_match && !has_end,
        (Option::None, Option::Some(_)) => end_match && !has_start,
        (Option::None, Option::None) => !has_start && !has_end,
    }
}

/// The trim window actually in force: a start or end tag parsed from the
/// file's own name overrides the requested one, and a requested duration
/// supplies the end bound when none is present.
pub fn resolve_trim_window(
    req_start: Option<u64>,
    req_end: Option<u64>,
    duration: Option<u64>,
    file_start: Option<u64>,
    file_end: Option<u64>,
) -> (r: (Option<u64>, Option<u64>))
    requires
        duration matches Some(d) ==> (or_else_spec(file_end, req_end) is None ==> opt_val_spec(
            or_else_spec(file_start, req_start),
        ) + d <= u64::MAX),
    ensures
        r.0 == or_else_spec(file_start, req_start),
        or_else_spec(file_end, req_end) is Some ==> r.1 == or_else_spec(file_end, req_end),
        (or_else_spec(file_end, req_end) is None && duration is None) ==> r.1 is None,
        duration matches Some(d) ==> (or_else_spec(file_end, req_end) is None ==> r.1 == Some(
            (opt_val_spec(or_else_spec(file_start, req_start)) + d) as u64,
        )),
{
    let start = match file_start {
        Option::Some(v) => Some(v),
        Option::None => req_start,
    };
    let end = match file_end {
        Option::Some(v) => Some(v),
        Option::None => req_end,
    };
    let end = match (end, duration) {
        (Option::None, Option::Some(d)) => {
            let s = match start {
                Option::Some(v) => v,
                Option::None => 0,
            };
            Some(s + d)
        },
        (e, _) => e,
    };
    (start, end)
}

/// An ASCII decimal digit.
pub open spec fn is_digit_spec(b: u8) -> bool {
    48 <= b <= 57
}

/// The tag occurs at position `i` of the stem, immediately followed by at
/// least one digit.
pub open spec fn tag_match_at_spec(stem: Seq<u8>, tag: Seq<u8>, i: int) -> bool {
    &&& 0 <= i
    &&& i + tag.len() < stem.len()
    &&& stem.subrange(i, i + tag.len()) == tag
    &&& is_digit_spec(stem[i + tag.len()])
}

/// The tag occurs somewhere in the stem, followed by a digit.
pub open spec fn has_tag_spec(stem: Seq<u8>, tag: Seq<u8>) -> bool {
    exists|i: int| tag_match_at_spec(stem, tag, i)
}

/// First position at or after `i` where the tag matches; `stem.len()` when
/// none does.
pub open spec fn first_tag_match_from_spec(stem: Seq<u8>, tag: Seq<u8>, i: int) -> int
    decreases stem.len() - i,
{
    if i >= stem.len() {
        stem.len() as int
    } else if tag_match_at_spec(stem, tag, i) {
        i
    } else {
        first_tag_match_from_spec(stem, tag, i + 1)
    }
}

/// End of the run of digits that starts at `j`.
pub open spec fn digit_run_end_spec(stem: Seq<u8>, j: int) -> int
    decreases stem.len() - j,
{
    if j >= stem.len() {
        stem.len() as int
    } else if is_digit_spec(stem[j]) {
        digit_run_end_spec(stem, j + 1)
    } else {
        j
    }
}

/// Decimal value of a digit sequence.
pub open spec fn digits_value_spec(s: Seq<u8>) -> int
    decreases s.len(),
{
    if s.len() == 0 {
        0
    } else {
        digits_value_spec(s.drop_last()) * 10 + (s.last() - 48)
    }
}

/// The scan never finds the tag at or after `i` once too few bytes remain
/// for the tag and a digit.
proof fn lemma_first_from_tail(stem: Seq<u8>, tag: Seq<u8>, i: int)
    requires
        0 <= i,
        i + tag.len() + 1 > stem.len(),
    ensures
        first_tag_match_from_spec(stem, tag, i) == stem.len(),
    decreases stem.len() - i,
{
    if i >= stem.len() {
    } else {
        lemma_first_from_tail(stem, tag, i + 1);
    }
}

/// The first match position is the least one: the tag matches there (when
/// the position is inside the stem) and nowhere earlier.
proof fn lemma_first_match_from(stem: Seq<u8>, tag: Seq<u8>, i: int)
    requires
        0 <= i <= stem.len(),
    ensures
        i <= first_tag_match_from_spec(stem, tag, i) <= stem.len(),
        first_tag_match_from_spec(stem, tag, i) < stem.len() ==> tag_match_at_spec(
            stem,
            tag,
            first_tag_match_from_spec(stem, tag, i),
        ),
        forall|j: int|
            i <= j < first_tag_match_from_spec(stem, tag, i) ==> !tag_match_at_spec(
                stem,
                tag,
                j,
            ),
    decreases stem.len() - i,
{
    if i >= stem.len() {
    } else if tag_match_at_spec(stem, tag, i) {
    } else {
        lemma_first_match_from(stem, tag, i + 1);
    }
}

/// Whether the tag, followed by a digit, stands at position `i`.
fn tag_matches_at(stem: &Vec<u8>, tag: &Vec<u8>, i: usize) -> (m: bool)
    requires
        i + tag@.len() < stem@.len(),
    ensures
        m == tag_match_at_spec(stem@, tag@, i as int),
{
    let tl = tag.len();
    let sl = stem.len();
    assert(sl == stem@.len());
    let mut k: usize = 0;
    while k < tl
        invariant
            k <= tl,
            tl == tag@.len(),
            sl == stem@.len(),
            i + tl < stem@.len(),
            forall|t: int| 0 <= t < k ==> stem@[i + t] == tag@[t],
        decreases tl - k,
    {
        if stem[i + k] != tag[k] {
            proof {
                assert(stem@.subrange(i as int, i + tl)[k as int] == stem@[i + k]);
            }
            return false;
        }
        k = k + 1;
    }
    proof {
        assert forall|t: int| 0 <= t < tl implies stem@.subrange(i as int, i + tl)[t]
            == tag@[t] by {
            assert(stem@.subrange(i as int, i + tl)[t] == stem@[i + t]);
        }
        assert(stem@.subrange(i as int, i + tl) =~= tag@);
    }
    let b = stem[i + tl];
    48 <= b && b <= 57
}

/// Scans a file stem for the given tag followed by a run of decimal digits,
/// exactly as the reuse rule reads `_start` and `_end` tags out of a
/// trimmed file's name. Returns whether the tag occurs at all, and the
/// value of the digit run after its first occurrence — absent when that
/// value does not fit the counter.
pub fn find_tag(stem: &Vec<u8>, tag: &Vec<u8>) -> (r: (bool, Option<u64>))
    ensures
        r.0 == has_tag_spec(stem@, tag@),
        !r.0 ==> r.1 is None,
        r.0 ==> ({
            let i0 = first_tag_match_from_spec(stem@, tag@, 0);
            let d0 = i0 + tag@.len();
            let e = digit_run_end_spec(stem@, d0);
            let v = digits_value_spec(stem@.subrange(d0, e));
            &&& (v <= u64::MAX ==> r.1 == Some(v as u64))
            &&& (v > u64::MAX ==> r.1 is None)
        }),
{
    let n = stem.len();
    let tl = tag.len();
    if tl >= n {
        proof {
            lemma_first_from_tail(stem@, tag@, 0);
            lemma_first_match_from(stem@, tag@, 0);
        }
        return (false, None);
    }
    let limit = n - tl;
    let mut i: usize = 0;
    while i < limit
        invariant
            i <= limit,
            limit == n - tl,
            n == stem@.len(),
            tl == tag@.len(),
            tl < n,
            first_tag_match_from_spec(stem@, tag@, 0) == first_tag_match_from_spec(
                stem@,
                tag@,
                i as int,
            ),
        decreases limit - i,
    {
        let m = tag_matches_at(stem, tag, i);
        if m {
            proof {
                assert(first_tag_match_from_spec(stem@, tag@, i as int) == i);
            }
            let d0 = i + tl;
            let mut j = d0;
            let mut val: u64 = 0;
            let mut overflow = false;
            while j < n
                invariant
                    d0 <= j <= n,
                    n == stem@.len(),
                    digit_run_end_spec(stem@, d0 as int) == digit_run_end_spec(stem@, j as int),
                    !overflow ==> val == digits_value_spec(
                        stem@.subrange(d0 as int, j as int),
                    ),
                    overflow ==> digits_value_spec(stem@.subrange(d0 as int, j as int))
                        > u64::MAX,
                ensures
                    d0 <= j <= n,
                    j == digit_run_end_spec(stem@, d0 as int),
                    !overflow ==> val == digits_value_spec(
                        stem@.subrange(d0 as int, j as int),
                    ),
                    overflow ==> digits_value_spec(stem@.subrange(d0 as int, j as int))
                        > u64::MAX,
                decreases n - j,
            {
                let b = stem[j];
                if b < 48 || b > 57 {
                    proof {
                        assert(digit_run_end_spec(stem@, j as int) == j);
                    }
                    break;
                }
                let d = (b - 48) as u64;
                let ghost before = stem@.subrange(d0 as int, j as int);
                let ghost after = stem@.subrange(d0 as int, j + 1);
                proof {
                    assert(after.drop_last() =~= before);
                    assert(after.last() == stem@[j as int]);
                }
                if !overflow {
                    match val.checked_mul(10) {
                        None => {
                            overflow = true;
                        },
                        Some(p) => {
                            match p.checked_add(d) {
                                None => {
                                    overflow = true;
                                },
                                Some(q) => {
                                    val = q;
                                },
                            }
                        },
                    }
                }
                j = j + 1;
            }
            if overflow {
                return (true, None);
            } else {
                return (true, Some(val));
            }
        }
        proof {
            assert(first_tag_match_from_spec(stem@, tag@, i as int)
                == first_tag_match_from_spec(stem@, tag@, i + 1));
        }
        i = i + 1;
    }
    proof {
        lemma_first_from_tail(stem@, tag@, limit as int);
        lemma_first_match_from(stem@, tag@, 0);
    }
    (false, None)
}

/// Splits a second count into the hours, minutes and seconds that the
/// `HH:MM:SS` position argument of the trimming command is written from.
pub fn split_hms(total_secs: u64) -> (r: (u64, u8, u8))
    ensures
        r.0 == total_secs as int / 3600,
        r.1 == (total_secs as int % 3600) / 60,
        r.2 == total_secs as int % 60,
        r.0 * 3600 + r.1 * 60 + r.2 == total_secs,
        r.1 < 60,
        r.2 < 60,
{
    let h = total_secs / 3600;
    let m = (total_secs % 3600) / 60;
    let s = total_secs % 60;
    proof {
        let t = total_secs as int;
        lemma_fundamental_div_mod(t, 3600);
        lemma_mod_bound(t, 3600);
        lemma_fundamental_div_mod(t % 3600, 60);
        lemma_mod_bound(t % 3600, 60);
        lemma_mod_mod(t, 60, 60);
        assert((t % 3600) % 60 == t % 60);
    }
    (h, m as u8, s as u8)
}

} // verus!
