//! Condition matching: stateless matchers over the buffer's current bytes.
//!
//! A condition decides when enough bytes have accumulated to constitute a
//! complete reply, and how to slice the result. Three conditions are used:
//! the device's boot-ready marker, the "ready for payload" prompt, and the
//! completion scan for one of the three terminal tokens (`OK`, `ERROR`,
//! `FAIL`). The completion scan is a first-occurrence subsequence search, not
//! a suffix check, so trailing noise after the terminal token is tolerated.

use vstd::prelude::*;

verus! {

/// `pat` occurs in `s` at position `i`.
pub open spec fn matches_at(s: Seq<u8>, pat: Seq<u8>, i: int) -> bool {
    0 <= i && i + pat.len() <= s.len() && s.subrange(i, i + pat.len()) == pat
}

/// `pat` occurs somewhere in `s`.
pub open spec fn contains_seq(s: Seq<u8>, pat: Seq<u8>) -> bool {
    exists|i: int| matches_at(s, pat, i)
}

/// `s` ends with `pat`.
pub open spec fn ends_with(s: Seq<u8>, pat: Seq<u8>) -> bool {
    pat.len() <= s.len() && matches_at(s, pat, s.len() - pat.len())
}

/// The position of the first occurrence of `pat` in `s` at or after `i`.
pub open spec fn first_match_from(s: Seq<u8>, pat: Seq<u8>, i: int) -> Option<int>
    recommends
        0 <= i,
    decreases s.len() - i + 1,
{
    if i < 0 || i + pat.len() > s.len() {
        None
    } else if matches_at(s, pat, i) {
        Some(i)
    } else {
        first_match_from(s, pat, i + 1)
    }
}

/// The position of the first occurrence of `pat` in `s`.
pub open spec fn first_match(s: Seq<u8>, pat: Seq<u8>) -> Option<int> {
    first_match_from(s, pat, 0)
}

/// `first_match_from` finds exactly the earliest occurrence at or after `i`.
pub proof fn lemma_first_match_from(s: Seq<u8>, pat: Seq<u8>, i: int)
    requires
        0 <= i,
    ensures
        match first_match_from(s, pat, i) {
            Some(k) => i <= k && matches_at(s, pat, k) && (forall|j: int|
                i <= j < k ==> !matches_at(s, pat, j)),
            None => forall|j: int| j >= i ==> !matches_at(s, pat, j),
        },
    decreases s.len() - i + 1,
{
    if i < 0 || i + pat.len() > s.len() {
    } else if matches_at(s, pat, i) {
    } else {
        lemma_first_match_from(s, pat, i + 1);
    }
}

/// The marker that ends the device's boot banner: the line `ready`.
pub open spec fn ready_marker() -> Seq<u8> {
    seq![
        'r' as u8,
        'e' as u8,
        'a' as u8,
        'd' as u8,
        'y' as u8,
        '\r' as u8,
        '\n' as u8,
    ]
}

/// The "ready for payload" prompt: the two bytes `> ` with no line break.
pub open spec fn prompt_marker() -> Seq<u8> {
    seq!['>' as u8, ' ' as u8]
}

/// The success terminator `OK` with its line break.
pub open spec fn ok_marker() -> Seq<u8> {
    seq!['O' as u8, 'K' as u8, '\r' as u8, '\n' as u8]
}

/// The generic error terminator `ERROR` with its line break.
pub open spec fn error_marker() -> Seq<u8> {
    seq![
        'E' as u8,
        'R' as u8,
        'R' as u8,
        'O' as u8,
        'R' as u8,
        '\r' as u8,
        '\n' as u8,
    ]
}

/// The explicit failure terminator `FAIL` with its line break.
pub open spec fn fail_marker() -> Seq<u8> {
    seq!['F' as u8, 'A' as u8, 'I' as u8, 'L' as u8, '\r' as u8, '\n' as u8]
}

/// Whether `pat` occurs in `haystack` at position `i`; a helper for the
/// subsequence search.
fn occurs_at(haystack: &[u8], needle: &[u8], i: usize) -> (r: bool)
    requires
        i <= haystack@.len(),
    ensures
        r == matches_at(haystack@, needle@, i as int),
{
    let h_len = haystack.len();
    if h_len - i < needle.len() {
        return false;
    }
    let mut k: usize = 0;
    while k < needle.len()
        invariant
            0 <= k <= needle@.len(),
            h_len == haystack@.len(),
            i + needle@.len() <= haystack@.len(),
            forall|m: int| 0 <= m < k ==> haystack@[i + m] == needle@[m],
        decreases needle@.len() - k,
    {
        if haystack[i + k] != needle[k] {
            assert(!matches_at(haystack@, needle@, i as int)) by {
                if matches_at(haystack@, needle@, i as int) {
                    assert(haystack@.subrange(i as int, i + needle@.len())[k as int]
                        == needle@[k as int]);
                }
            }
            return false;
        }
        k = k + 1;
    }
    assert(haystack@.subrange(i as int, i + needle@.len()) =~= needle@);
    true
}

/// The position of the first occurrence of `needle` in `haystack`, scanning
/// left to right, or none when `needle` never occurs.
pub fn find_subsequence(haystack: &[u8], needle: &[u8]) -> (r: Option<usize>)
    requires
        needle@.len() > 0,
    ensures
        match r {
            Some(i) => matches_at(haystack@, needle@, i as int)
                && first_match(haystack@, needle@) == Some(i as int),
            None => first_match(haystack@, needle@) is None,
        },
{
    let mut i: usize = 0;
    loop
        invariant
            needle@.len() > 0,
            0 <= i <= haystack@.len(),
            forall|j: int| 0 <= j < i ==> !matches_at(haystack@, needle@, j),
        decreases haystack@.len() - i,
    {
        if i >= haystack.len() || haystack.len() - i < needle.len() {
            assert forall|j: int| 0 <= j implies !matches_at(haystack@, needle@, j) by {
                if j < i {
                } else {
                    assert(j + needle@.len() > haystack@.len());
                }
            }
            proof {
                lemma_first_match_from(haystack@, needle@, 0);
                if first_match(haystack@, needle@) is Some {
                    let k = first_match(haystack@, needle@)->Some_0;
                    assert(matches_at(haystack@, needle@, k));
                }
            }
            return None;
        }
        if occurs_at(haystack, needle, i) {
            proof {
                lemma_first_match_from(haystack@, needle@, 0);
                match first_match(haystack@, needle@) {
                    Some(k) => {
                        if k < i as int {
                            assert(!matches_at(haystack@, needle@, k));
                        }
                        if k > i as int {
                            assert(!matches_at(haystack@, needle@, i as int));
                        }
                    },
                    None => {
                        assert(!matches_at(haystack@, needle@, i as int));
                    },
                }
            }
            return Some(i);
        }
        i = i + 1;
    }
}

/// A typed, stateless matcher over the buffer's current bytes. It decides
/// "match now?" and, once true, which sub-range to expose and whether the
/// reply reports success.
#[derive(Debug, Clone, Copy, PartialEq, Eq, Structural)]
pub enum Condition {
    /// Matches when the buffer ends with the device's boot-ready marker.
    Ready,
    /// Matches when the buffer ends with the "ready for payload" prompt.
    Prompt,
    /// Matches when the buffer contains one of the terminal tokens, not
    /// necessarily at the very end.
    Completion,
}

/// The sliced reply a condition hands out once it matched.
#[derive(Debug, PartialEq, Eq)]
pub enum MatchedOutput {
    /// The bytes before a ready or prompt marker.
    Content(Vec<u8>),
    /// The bytes before a success terminator.
    Success(Vec<u8>),
    /// The bytes before an error or failure terminator.
    Failure(Vec<u8>),
}

/// The mathematical shape of a `MatchedOutput`.
pub enum OutputModel {
    Content(Seq<u8>),
    Success(Seq<u8>),
    Failure(Seq<u8>),
}

impl View for MatchedOutput {
    type V = OutputModel;

    open spec fn view(&self) -> OutputModel {
        match self {
            MatchedOutput::Content(v) => OutputModel::Content(v@),
            MatchedOutput::Success(v) => OutputModel::Success(v@),
            MatchedOutput::Failure(v) => OutputModel::Failure(v@),
        }
    }
}

/// The earlier of two tagged terminator positions; on a tie the first
/// argument wins.
pub open spec fn earlier_scan(a: Option<(int, bool)>, b: Option<(int, bool)>) -> Option<
    (int, bool),
> {
    match (a, b) {
        (Option::None, _) => b,
        (_, Option::None) => a,
        (Option::Some(x), Option::Some(y)) => if x.0 <= y.0 {
            a
        } else {
            b
        },
    }
}

/// Pairs a found position with a success tag.
pub open spec fn tag_scan(p: Option<int>, success: bool) -> Option<(int, bool)> {
    match p {
        Option::Some(i) => Option::Some((i, success)),
        Option::None => Option::None,
    }
}

/// The earliest terminal token in `s`, with whether it reports success. All
/// three terminators are scanned and the earliest byte offset wins; the
/// success and generic-error tokens are preferred on (impossible) ties.
pub open spec fn completion_scan(s: Seq<u8>) -> Option<(int, bool)> {
    earlier_scan(
        earlier_scan(
            tag_scan(first_match(s, ok_marker()), true),
            tag_scan(first_match(s, error_marker()), false),
        ),
        tag_scan(first_match(s, fail_marker()), false),
    )
}

/// Whether the condition holds of buffer contents `s`.
pub open spec fn condition_matched(c: Condition, s: Seq<u8>) -> bool {
    match c {
        Condition::Ready => ends_with(s, ready_marker()),
        Condition::Prompt => ends_with(s, prompt_marker()),
        Condition::Completion => contains_seq(s, ok_marker()) || contains_seq(s, error_marker())
            || contains_seq(s, fail_marker()),
    }
}

/// What the condition slices out of buffer contents `s`, once matched: the
/// content preceding the marker, excluding the marker itself.
pub open spec fn condition_output(c: Condition, s: Seq<u8>) -> OutputModel
    recommends
        condition_matched(c, s),
{
    match c {
        Condition::Ready => OutputModel::Content(s.take(s.len() - ready_marker().len())),
        Condition::Prompt => OutputModel::Content(s.take(s.len() - prompt_marker().len())),
        Condition::Completion => match completion_scan(s) {
            Option::Some((p, success)) => if success {
                OutputModel::Success(s.take(p))
            } else {
                OutputModel::Failure(s.take(p))
            },
            Option::None => OutputModel::Content(Seq::<u8>::empty()),
        },
    }
}

/// The boot-ready marker as bytes.
fn ready_marker_vec() -> (r: Vec<u8>)
    ensures
        r@ == ready_marker(),
{
    let mut v: Vec<u8> = Vec::new();
    v.push('r' as u8);
    v.push('e' as u8);
    v.push('a' as u8);
    v.push('d' as u8);
    v.push('y' as u8);
    v.push('\r' as u8);
    v.push('\n' as u8);
    assert(v@ =~= ready_marker());
    v
}

/// The payload prompt marker as bytes.
fn prompt_marker_vec() -> (r: Vec<u8>)
    ensures
        r@ == prompt_marker(),
{
    let mut v: Vec<u8> = Vec::new();
    v.push('>' as u8);
    v.push(' ' as u8);
    assert(v@ =~= prompt_marker());
    v
}

/// The success terminator as bytes.
fn ok_marker_vec() -> (r: Vec<u8>)
    ensures
        r@ == ok_marker(),
{
    let mut v: Vec<u8> = Vec::new();
    v.push('O' as u8);
    v.push('K' as u8);
    v.push('\r' as u8);
    v.push('\n' as u8);
    assert(v@ =~= ok_marker());
    v
}

/// The generic error terminator as bytes.
fn error_marker_vec() -> (r: Vec<u8>)
    ensures
        r@ == error_marker(),
{
    let mut v: Vec<u8> = Vec::new();
    v.push('E' as u8);
    v.push('R' as u8);
    v.push('R' as u8);
    v.push('O' as u8);
    v.push('R' as u8);
    v.push('\r' as u8);
    v.push('\n' as u8);
    assert(v@ =~= error_marker());
    v
}

/// The explicit failure terminator as bytes.
fn fail_marker_vec() -> (r: Vec<u8>)
    ensures
        r@ == fail_marker(),
{
    let mut v: Vec<u8> = Vec::new();
    v.push('F' as u8);
    v.push('A' as u8);
    v.push('I' as u8);
    v.push('L' as u8);
    v.push('\r' as u8);
    v.push('\n' as u8);
    assert(v@ =~= fail_marker());
    v
}

/// Whether `buf` ends with `marker`.
fn ends_with_exec(buf: &[u8], marker: &[u8]) -> (r: bool)
    ensures
        r == ends_with(buf@, marker@),
{
    if marker.len() > buf.len() {
        return false;
    }
    occurs_at(buf, marker, buf.len() - marker.len())
}

impl Condition {
    /// Whether enough bytes have accumulated for this condition to match.
    pub fn is_performed(&self, buf: &[u8]) -> (r: bool)
        ensures
            r == condition_matched(*self, buf@),
    {
        match self {
            Condition::Ready => {
                let m = ready_marker_vec();
                ends_with_exec(buf, m.as_slice())
            },
            Condition::Prompt => {
                let m = prompt_marker_vec();
                ends_with_exec(buf, m.as_slice())
            },
            Condition::Completion => {
                let ok_m = ok_marker_vec();
                let err_m = error_marker_vec();
                let fail_m = fail_marker_vec();
                let found = find_subsequence(buf, ok_m.as_slice()).is_some()
                    || find_subsequence(buf, err_m.as_slice()).is_some()
                    || find_subsequence(buf, fail_m.as_slice()).is_some();
                proof {
                    lemma_first_match_from(buf@, ok_marker(), 0);
                    lemma_first_match_from(buf@, error_marker(), 0);
                    lemma_first_match_from(buf@, fail_marker(), 0);
                }
                found
            },
        }
    }

    /// Slices the matched region out of `buf`, excluding the marker itself.
    /// For the completion condition the result is tagged success or failure
    /// by the earliest terminal token.
    pub fn output(&self, buf: &[u8]) -> (r: MatchedOutput)
        requires
            condition_matched(*self, buf@),
        ensures
            r@ == condition_output(*self, buf@),
    {
        match self {
            Condition::Ready => {
                let m = ready_marker_vec();
                let content = vstd::slice::slice_subrange(buf, 0, buf.len() - m.len());
                assert(content@ =~= buf@.take(buf@.len() - ready_marker().len()));
                MatchedOutput::Content(vstd::slice::slice_to_vec(content))
            },
            Condition::Prompt => {
                let m = prompt_marker_vec();
                let content = vstd::slice::slice_subrange(buf, 0, buf.len() - m.len());
                assert(content@ =~= buf@.take(buf@.len() - prompt_marker().len()));
                MatchedOutput::Content(vstd::slice::slice_to_vec(content))
            },
            Condition::Completion => {
                let ok_m = ok_marker_vec();
                let err_m = error_marker_vec();
                let fail_m = fail_marker_vec();
                let ok_pos = find_subsequence(buf, ok_m.as_slice());
                let err_pos = find_subsequence(buf, err_m.as_slice());
                let fail_pos = find_subsequence(buf, fail_m.as_slice());
                proof {
                    lemma_first_match_from(buf@, ok_marker(), 0);
                    lemma_first_match_from(buf@, error_marker(), 0);
                    lemma_first_match_from(buf@, fail_marker(), 0);
                }
                let (pos, success) = earliest_tagged(ok_pos, err_pos, fail_pos);
                let content = vstd::slice::slice_subrange(buf, 0, pos);
                assert(content@ =~= buf@.take(pos as int));
                if success {
                    MatchedOutput::Success(vstd::slice::slice_to_vec(content))
                } else {
                    MatchedOutput::Failure(vstd::slice::slice_to_vec(content))
                }
            },
        }
    }
}

/// Picks the earliest of the three terminator positions, preferring the
/// success and generic-error tokens on ties.
fn earliest_tagged(
    ok_pos: Option<usize>,
    err_pos: Option<usize>,
    fail_pos: Option<usize>,
) -> (r: (usize, bool))
    requires
        ok_pos is Some || err_pos is Some || fail_pos is Some,
        earlier_scan(
            earlier_scan(
                tag_scan(
                    match ok_pos {
                        Option::Some(i) => Option::Some(i as int),
                        Option::None => Option::None,
                    },
                    true,
                ),
                tag_scan(
                    match err_pos {
                        Option::Some(i) => Option::Some(i as int),
                        Option::None => Option::None,
                    },
                    false,
                ),
            ),
            tag_scan(
                match fail_pos {
                    Option::Some(i) => Option::Some(i as int),
                    Option::None => Option::None,
                },
                false,
            ),
        ) is Some,
    ensures
        Option::Some((r.0 as int, r.1)) == earlier_scan(
            earlier_scan(
                tag_scan(
                    match ok_pos {
                        Option::Some(i) => Option::Some(i as int),
                        Option::None => Option::None,
                    },
                    true,
                ),
                tag_scan(
                    match err_pos {
                        Option::Some(i) => Option::Some(i as int),
                        Option::None => Option::None,
                    },
                    false,
                ),
            ),
            tag_scan(
                match fail_pos {
                    Option::Some(i) => Option::Some(i as int),
                    Option::None => Option::None,
                },
                false,
            ),
        ),
{
    let first_two: (Option<usize>, bool) = match (ok_pos, err_pos) {
        (Option::Some(o), Option::Some(e)) => if o <= e {
            (Option::Some(o), true)
        } else {
            (Option::Some(e), false)
        },
        (Option::Some(o), Option::None) => (Option::Some(o), true),
        (Option::None, Option::Some(e)) => (Option::Some(e), false),
        (Option::None, Option::None) => (Option::None, false),
    };
    match (first_two.0, fail_pos) {
        (Option::Some(p), Option::Some(f)) => if p <= f {
            (p, first_two.1)
        } else {
            (f, false)
        },
        (Option::Some(p), Option::None) => (p, first_two.1),
        (Option::None, Option::Some(f)) => (f, false),
        (Option::None, Option::None) => (0, false),
    }
}


/// A buffer that satisfies the completion condition always yields a tagged
/// output: the scan finds a terminator, so the output is success or failure,
/// never plain content.
pub proof fn lemma_completion_output_tagged(s: Seq<u8>)
    requires
        condition_matched(Condition::Completion, s),
    ensures
        completion_scan(s) is Some,
        condition_output(Condition::Completion, s) is Success || condition_output(
            Condition::Completion,
            s,
        ) is Failure,
{
    lemma_first_match_from(s, ok_marker(), 0);
    lemma_first_match_from(s, error_marker(), 0);
    lemma_first_match_from(s, fail_marker(), 0);
    if contains_seq(s, ok_marker()) {
        let i = choose|i: int| matches_at(s, ok_marker(), i);
        if first_match(s, ok_marker()) is None {
            assert(!matches_at(s, ok_marker(), i));
        }
    }
    if contains_seq(s, error_marker()) {
        let i = choose|i: int| matches_at(s, error_marker(), i);
        if first_match(s, error_marker()) is None {
            assert(!matches_at(s, error_marker(), i));
        }
    }
    if contains_seq(s, fail_marker()) {
        let i = choose|i: int| matches_at(s, fail_marker(), i);
        if first_match(s, fail_marker()) is None {
            assert(!matches_at(s, fail_marker(), i));
        }
    }
}


} // verus!
