//! Streaming recognizers for the device's asynchronous notifications and its
//! IP-configuration reply.
//!
//! The buffer may hold a prefix of a longer notification, so every recognizer
//! distinguishes "not enough bytes yet" from "does not match". Numbers are
//! unsigned decimal; a digit run is only complete once a non-digit byte
//! follows it.

use vstd::prelude::*;

verus! {

/// Whether `b` is an ASCII decimal digit.
pub open spec fn is_digit(b: u8) -> bool {
    ('0' as u8) <= b <= ('9' as u8)
}

/// Whether every byte of `s` is an ASCII decimal digit.
pub open spec fn all_digits(s: Seq<u8>) -> bool {
    forall|k: int| 0 <= k < s.len() ==> is_digit(s[k])
}

/// The value of `s` read as an unsigned decimal numeral.
pub open spec fn dec_val(s: Seq<u8>) -> int
    decreases s.len(),
{
    if s.len() == 0 {
        0
    } else {
        dec_val(s.drop_last()) * 10 + (s.last() - ('0' as u8))
    }
}

/// A decimal numeral's value never shrinks as more digits are appended.
proof fn lemma_dec_val_prefix_le(s: Seq<u8>, k: int)
    requires
        0 <= k <= s.len(),
        all_digits(s),
    ensures
        dec_val(s.take(k)) <= dec_val(s),
        dec_val(s) >= 0,
    decreases s.len() - k,
{
    if k == s.len() {
        assert(s.take(k) =~= s);
        lemma_dec_val_nonneg(s);
    } else {
        lemma_dec_val_prefix_le(s, k + 1);
        assert(s.take(k + 1).drop_last() =~= s.take(k));
        assert(dec_val(s.take(k + 1)) == dec_val(s.take(k)) * 10 + (s.take(k + 1).last()
            - ('0' as u8)));
        lemma_dec_val_nonneg(s.take(k));
    }
}

/// A decimal numeral's value is never negative.
proof fn lemma_dec_val_nonneg(s: Seq<u8>)
    requires
        all_digits(s),
    ensures
        dec_val(s) >= 0,
    decreases s.len(),
{
    if s.len() > 0 {
        assert(all_digits(s.drop_last()));
        lemma_dec_val_nonneg(s.drop_last());
    }
}

/// Reads an unsigned decimal numeral. Returns its value exactly when the
/// input is a non-empty, all-digit byte string whose value fits in a `u64`.
pub fn atoi(digits: &[u8]) -> (r: Option<u64>)
    ensures
        r is Some <==> digits@.len() > 0 && all_digits(digits@) && dec_val(digits@) <= u64::MAX,
        r matches Some(v) ==> v == dec_val(digits@),
{
    if digits.len() == 0 {
        return None;
    }
    let mut acc: u64 = 0;
    let mut k: usize = 0;
    while k < digits.len()
        invariant
            0 <= k <= digits@.len(),
            all_digits(digits@.take(k as int)),
            acc == dec_val(digits@.take(k as int)),
        decreases digits@.len() - k,
    {
        let b = digits[k];
        if b < ('0' as u8) || b > ('9' as u8) {
            assert(!all_digits(digits@));
            return None;
        }
        let d: u64 = (b - ('0' as u8)) as u64;
        assert(digits@.take(k + 1).drop_last() =~= digits@.take(k as int));
        assert(all_digits(digits@.take(k + 1)));
        if acc > u64::MAX / 10 {
            proof {
                lemma_dec_val_nonneg(digits@.take(k + 1));
                assert(dec_val(digits@.take(k + 1)) > u64::MAX);
                if all_digits(digits@) {
                    lemma_dec_val_prefix_le(digits@, k + 1);
                }
            }
            return None;
        }
        let acc10: u64 = acc * 10;
        if d > u64::MAX - acc10 {
            proof {
                assert(dec_val(digits@.take(k + 1)) > u64::MAX);
                if all_digits(digits@) {
                    lemma_dec_val_prefix_le(digits@, k + 1);
                }
            }
            return None;
        }
        acc = acc10 + d;
        k = k + 1;
    }
    assert(digits@.take(k as int) =~= digits@);
    Some(acc)
}

/// One step of a streaming recognizer: it advanced to a new position, it
/// needs more bytes, or the input does not match.
pub enum Step {
    Adv(usize),
    More,
    Fail,
}

/// The mathematical shape of a [`Step`].
pub enum StepModel {
    Adv(int),
    More,
    Fail,
}

impl View for Step {
    type V = StepModel;

    open spec fn view(&self) -> StepModel {
        match self {
            Step::Adv(i) => StepModel::Adv(*i as int),
            Step::More => StepModel::More,
            Step::Fail => StepModel::Fail,
        }
    }
}

/// The line terminator.
pub open spec fn crlf() -> Seq<u8> {
    seq!['\r' as u8, '\n' as u8]
}

/// Bytes of `s` from `i` on agree with the first `n` bytes of `pat`.
pub open spec fn agree_upto(s: Seq<u8>, i: int, pat: Seq<u8>, n: int) -> bool {
    forall|k: int| 0 <= k < n ==> s[i + k] == pat[k]
}

/// A streaming literal match at position `i`: advances past `pat` when all of
/// it is present, asks for more bytes while the input is a proper prefix, and
/// fails on the first disagreeing byte.
pub open spec fn tag_step(s: Seq<u8>, i: int, pat: Seq<u8>) -> StepModel
    recommends
        0 <= i <= s.len(),
{
    if s.len() - i >= pat.len() {
        if agree_upto(s, i, pat, pat.len() as int) {
            StepModel::Adv(i + pat.len())
        } else {
            StepModel::Fail
        }
    } else {
        if agree_upto(s, i, pat, s.len() - i) {
            StepModel::More
        } else {
            StepModel::Fail
        }
    }
}

/// An optional line terminator: consumed when present, skipped when absent;
/// more bytes are demanded while the input ends in a bare carriage return.
pub open spec fn opt_crlf_step(s: Seq<u8>, i: int) -> StepModel
    recommends
        0 <= i <= s.len(),
{
    match tag_step(s, i, crlf()) {
        StepModel::Adv(j) => StepModel::Adv(j),
        StepModel::More => StepModel::More,
        StepModel::Fail => StepModel::Adv(i),
    }
}

/// The end of the digit run starting at `i`.
pub open spec fn digit_run_end(s: Seq<u8>, i: int) -> int
    recommends
        0 <= i <= s.len(),
    decreases s.len() - i + 1,
{
    if i < 0 || i >= s.len() {
        i
    } else if !is_digit(s[i]) {
        i
    } else {
        digit_run_end(s, i + 1)
    }
}

/// The digit run end lies between `i` and the end of `s`, everything in the
/// run is a digit, and the run stops at the first non-digit.
proof fn lemma_digit_run_end(s: Seq<u8>, i: int)
    requires
        0 <= i <= s.len(),
    ensures
        i <= digit_run_end(s, i) <= s.len(),
        forall|k: int| i <= k < digit_run_end(s, i) ==> is_digit(s[k]),
        digit_run_end(s, i) < s.len() ==> !is_digit(s[digit_run_end(s, i)]),
    decreases s.len() - i + 1,
{
    if i < s.len() && is_digit(s[i]) {
        lemma_digit_run_end(s, i + 1);
    }
}

/// A streaming digit run: fails unless a digit starts at `i`, demands more
/// bytes while digits run to the very end of the input (more digits may
/// still arrive), and otherwise advances to the first non-digit byte.
pub open spec fn digits_step(s: Seq<u8>, i: int) -> StepModel
    recommends
        0 <= i <= s.len(),
{
    if i >= s.len() {
        StepModel::More
    } else if !is_digit(s[i]) {
        StepModel::Fail
    } else if digit_run_end(s, i) == s.len() {
        StepModel::More
    } else {
        StepModel::Adv(digit_run_end(s, i))
    }
}

/// A streaming single-byte match.
pub open spec fn byte_step(s: Seq<u8>, i: int, c: u8) -> StepModel
    recommends
        0 <= i <= s.len(),
{
    if i >= s.len() {
        StepModel::More
    } else if s[i] == c {
        StepModel::Adv(i + 1)
    } else {
        StepModel::Fail
    }
}

/// Matches the literal `pat` at position `i`, streaming.
fn tag_exec(s: &[u8], i: usize, pat: &[u8]) -> (r: Step)
    requires
        i <= s@.len(),
    ensures
        r@ == tag_step(s@, i as int, pat@),
        r matches Step::Adv(j) ==> i <= j <= s@.len(),
{
    let s_len = s.len();
    let avail = s_len - i;
    let upto = if avail >= pat.len() {
        pat.len()
    } else {
        avail
    };
    let mut k: usize = 0;
    while k < upto
        invariant
            0 <= k <= upto,
            i <= s@.len(),
            s_len == s@.len(),
            upto <= pat@.len(),
            i + upto <= s@.len(),
            upto == if s@.len() - i >= pat@.len() {
                pat@.len() as int
            } else {
                s@.len() - i
            },
            forall|m: int| 0 <= m < k ==> s@[i + m] == pat@[m],
        decreases upto - k,
    {
        if s[i + k] != pat[k] {
            assert(!agree_upto(s@, i as int, pat@, upto as int));
            assert(!agree_upto(s@, i as int, pat@, pat@.len() as int)) by {
                if agree_upto(s@, i as int, pat@, pat@.len() as int) {
                    assert(s@[i + k] == pat@[k as int]);
                }
            }
            return Step::Fail;
        }
        k = k + 1;
    }
    if avail >= pat.len() {
        Step::Adv(i + pat.len())
    } else {
        Step::More
    }
}

/// Consumes an optional line terminator at position `i`.
fn opt_crlf_exec(s: &[u8], i: usize) -> (r: Step)
    requires
        i <= s@.len(),
    ensures
        r@ == opt_crlf_step(s@, i as int),
        r matches Step::Adv(j) ==> i <= j <= s@.len(),
{
    let mut pat: Vec<u8> = Vec::new();
    pat.push('\r' as u8);
    pat.push('\n' as u8);
    assert(pat@ =~= crlf());
    match tag_exec(s, i, pat.as_slice()) {
        Step::Adv(j) => Step::Adv(j),
        Step::More => Step::More,
        Step::Fail => Step::Adv(i),
    }
}

/// Consumes a digit run at position `i`, streaming.
fn digits_exec(s: &[u8], i: usize) -> (r: Step)
    requires
        i <= s@.len(),
    ensures
        r@ == digits_step(s@, i as int),
        r matches Step::Adv(j) ==> i <= j <= s@.len(),
{
    let s_len = s.len();
    if i >= s_len {
        return Step::More;
    }
    if s[i] < ('0' as u8) || s[i] > ('9' as u8) {
        return Step::Fail;
    }
    let mut j: usize = i;
    while j < s_len && s[j] >= ('0' as u8) && s[j] <= ('9' as u8)
        invariant
            i <= j <= s@.len(),
            s_len == s@.len(),
            forall|k: int| i <= k < j ==> is_digit(s@[k]),
            digit_run_end(s@, i as int) == digit_run_end(s@, j as int),
        decreases s@.len() - j,
    {
        j = j + 1;
    }
    proof {
        lemma_digit_run_end(s@, j as int);
    }
    if j == s_len {
        Step::More
    } else {
        Step::Adv(j)
    }
}

/// Matches one byte at position `i`, streaming.
fn byte_exec(s: &[u8], i: usize, c: u8) -> (r: Step)
    requires
        i <= s@.len(),
    ensures
        r@ == byte_step(s@, i as int, c),
        r matches Step::Adv(j) ==> i <= j <= s@.len(),
{
    if i >= s.len() {
        Step::More
    } else if s[i] == c {
        Step::Adv(i + 1)
    } else {
        Step::Fail
    }
}

/// A decoded asynchronous notification from the device.
#[derive(Debug, Clone, Copy, PartialEq, Eq, Structural)]
pub enum CommandResponse {
    /// A peer opened connection `link_id`.
    Connected { link_id: u16 },
    /// Connection `link_id` was closed.
    Closed { link_id: u16 },
    /// `size` bytes for connection `link_id` follow the notification header.
    DataAvailable { link_id: u16, size: u64 },
    /// The link-layer WiFi association was lost.
    WifiDisconnect,
}

/// Result of running a recognizer over a whole buffer: a match together with
/// the number of bytes consumed, a demand for more bytes, or a mismatch.
pub enum ParseModel {
    Matched(int, CommandResponse),
    More,
    Fail,
}

/// Exec-level counterpart of [`ParseModel`].
pub enum ParseOutcome {
    Matched(usize, CommandResponse),
    More,
    Fail,
}

impl View for ParseOutcome {
    type V = ParseModel;

    open spec fn view(&self) -> ParseModel {
        match self {
            ParseOutcome::Matched(n, resp) => ParseModel::Matched(*n as int, *resp),
            ParseOutcome::More => ParseModel::More,
            ParseOutcome::Fail => ParseModel::Fail,
        }
    }
}

/// The literal `,CONNECT`.
pub open spec fn connect_tag() -> Seq<u8> {
    seq![
        ',' as u8,
        'C' as u8,
        'O' as u8,
        'N' as u8,
        'N' as u8,
        'E' as u8,
        'C' as u8,
        'T' as u8,
    ]
}

/// The literal `,CLOSED`.
pub open spec fn closed_tag() -> Seq<u8> {
    seq![',' as u8, 'C' as u8, 'L' as u8, 'O' as u8, 'S' as u8, 'E' as u8, 'D' as u8]
}

/// The literal `+IPD,`.
pub open spec fn ipd_tag() -> Seq<u8> {
    seq!['+' as u8, 'I' as u8, 'P' as u8, 'D' as u8, ',' as u8]
}

/// The literal `WIFI DISCONNECT`.
pub open spec fn disconnect_tag() -> Seq<u8> {
    seq![
        'W' as u8,
        'I' as u8,
        'F' as u8,
        'I' as u8,
        ' ' as u8,
        'D' as u8,
        'I' as u8,
        'S' as u8,
        'C' as u8,
        'O' as u8,
        'N' as u8,
        'N' as u8,
        'E' as u8,
        'C' as u8,
        'T' as u8,
    ]
}

/// The connection-opened notification: an optional line break, a link
/// identifier, `,CONNECT`, and a line break.
pub open spec fn connected_spec(s: Seq<u8>) -> ParseModel {
    match opt_crlf_step(s, 0) {
        StepModel::More => ParseModel::More,
        StepModel::Fail => ParseModel::Fail,
        StepModel::Adv(i1) => match digits_step(s, i1) {
            StepModel::More => ParseModel::More,
            StepModel::Fail => ParseModel::Fail,
            StepModel::Adv(i2) => if dec_val(s.subrange(i1, i2)) > u16::MAX {
                ParseModel::Fail
            } else {
                match tag_step(s, i2, connect_tag()) {
                    StepModel::More => ParseModel::More,
                    StepModel::Fail => ParseModel::Fail,
                    StepModel::Adv(i3) => match tag_step(s, i3, crlf()) {
                        StepModel::More => ParseModel::More,
                        StepModel::Fail => ParseModel::Fail,
                        StepModel::Adv(i4) => ParseModel::Matched(
                            i4,
                            CommandResponse::Connected {
                                link_id: dec_val(s.subrange(i1, i2)) as u16,
                            },
                        ),
                    },
                }
            },
        },
    }
}

/// The connection-closed notification: an optional line break, a link
/// identifier, `,CLOSED`, and a line break.
pub open spec fn closed_spec(s: Seq<u8>) -> ParseModel {
    match opt_crlf_step(s, 0) {
        StepModel::More => ParseModel::More,
        StepModel::Fail => ParseModel::Fail,
        StepModel::Adv(i1) => match digits_step(s, i1) {
            StepModel::More => ParseModel::More,
            StepModel::Fail => ParseModel::Fail,
            StepModel::Adv(i2) => if dec_val(s.subrange(i1, i2)) > u16::MAX {
                ParseModel::Fail
            } else {
                match tag_step(s, i2, closed_tag()) {
                    StepModel::More => ParseModel::More,
                    StepModel::Fail => ParseModel::Fail,
                    StepModel::Adv(i3) => match tag_step(s, i3, crlf()) {
                        StepModel::More => ParseModel::More,
                        StepModel::Fail => ParseModel::Fail,
                        StepModel::Adv(i4) => ParseModel::Matched(
                            i4,
                            CommandResponse::Closed {
                                link_id: dec_val(s.subrange(i1, i2)) as u16,
                            },
                        ),
                    },
                }
            },
        },
    }
}

/// The data-available notification: an optional line break, `+IPD,`, a link
/// identifier, a comma, a declared payload size, a colon, and an optional
/// line break. The payload itself follows the header and is not part of the
/// notification.
pub open spec fn data_available_spec(s: Seq<u8>) -> ParseModel {
    match opt_crlf_step(s, 0) {
        StepModel::More => ParseModel::More,
        StepModel::Fail => ParseModel::Fail,
        StepModel::Adv(i1) => match tag_step(s, i1, ipd_tag()) {
            StepModel::More => ParseModel::More,
            StepModel::Fail => ParseModel::Fail,
            StepModel::Adv(i2) => match digits_step(s, i2) {
                StepModel::More => ParseModel::More,
                StepModel::Fail => ParseModel::Fail,
                StepModel::Adv(i3) => if dec_val(s.subrange(i2, i3)) > u16::MAX {
                    ParseModel::Fail
                } else {
                    match byte_step(s, i3, ',' as u8) {
                        StepModel::More => ParseModel::More,
                        StepModel::Fail => ParseModel::Fail,
                        StepModel::Adv(i4) => match digits_step(s, i4) {
                            StepModel::More => ParseModel::More,
                            StepModel::Fail => ParseModel::Fail,
                            StepModel::Adv(i5) => if dec_val(s.subrange(i4, i5)) > u64::MAX {
                                ParseModel::Fail
                            } else {
                                match byte_step(s, i5, ':' as u8) {
                                    StepModel::More => ParseModel::More,
                                    StepModel::Fail => ParseModel::Fail,
                                    StepModel::Adv(i6) => match opt_crlf_step(s, i6) {
                                        StepModel::More => ParseModel::More,
                                        StepModel::Fail => ParseModel::Fail,
                                        StepModel::Adv(i7) => ParseModel::Matched(
                                            i7,
                                            CommandResponse::DataAvailable {
                                                link_id: dec_val(s.subrange(i2, i3)) as u16,
                                                size: dec_val(s.subrange(i4, i5)) as u64,
                                            },
                                        ),
                                    },
                                }
                            },
                        },
                    }
                },
            },
        },
    }
}

/// The link-layer disconnect signal: `WIFI DISCONNECT` between optional line
/// breaks.
pub open spec fn disconnect_spec(s: Seq<u8>) -> ParseModel {
    match opt_crlf_step(s, 0) {
        StepModel::More => ParseModel::More,
        StepModel::Fail => ParseModel::Fail,
        StepModel::Adv(i1) => match tag_step(s, i1, disconnect_tag()) {
            StepModel::More => ParseModel::More,
            StepModel::Fail => ParseModel::Fail,
            StepModel::Adv(i2) => match opt_crlf_step(s, i2) {
                StepModel::More => ParseModel::More,
                StepModel::Fail => ParseModel::Fail,
                StepModel::Adv(i3) => ParseModel::Matched(i3, CommandResponse::WifiDisconnect),
            },
        },
    }
}

/// Recognizers are tried in a fixed priority order; the first structural
/// match wins, and a recognizer that demands more bytes stops the search.
pub open spec fn parse_spec(s: Seq<u8>) -> ParseModel {
    match connected_spec(s) {
        ParseModel::Matched(n, r) => ParseModel::Matched(n, r),
        ParseModel::More => ParseModel::More,
        ParseModel::Fail => match closed_spec(s) {
            ParseModel::Matched(n, r) => ParseModel::Matched(n, r),
            ParseModel::More => ParseModel::More,
            ParseModel::Fail => match data_available_spec(s) {
                ParseModel::Matched(n, r) => ParseModel::Matched(n, r),
                ParseModel::More => ParseModel::More,
                ParseModel::Fail => match disconnect_spec(s) {
                    ParseModel::Matched(n, r) => ParseModel::Matched(n, r),
                    ParseModel::More => ParseModel::More,
                    ParseModel::Fail => ParseModel::Fail,
                },
            },
        },
    }
}

/// The literal `,CONNECT` as bytes.
fn connect_tag_vec() -> (r: Vec<u8>)
    ensures
        r@ == connect_tag(),
{
    let mut v: Vec<u8> = Vec::new();
    v.push(',' as u8);
    v.push('C' as u8);
    v.push('O' as u8);
    v.push('N' as u8);
    v.push('N' as u8);
    v.push('E' as u8);
    v.push('C' as u8);
    v.push('T' as u8);
    assert(v@ =~= connect_tag());
    v
}

/// The literal `,CLOSED` as bytes.
fn closed_tag_vec() -> (r: Vec<u8>)
    ensures
        r@ == closed_tag(),
{
    let mut v: Vec<u8> = Vec::new();
    v.push(',' as u8);
    v.push('C' as u8);
    v.push('L' as u8);
    v.push('O' as u8);
    v.push('S' as u8);
    v.push('E' as u8);
    v.push('D' as u8);
    assert(v@ =~= closed_tag());
    v
}

/// The literal `+IPD,` as bytes.
fn ipd_tag_vec() -> (r: Vec<u8>)
    ensures
        r@ == ipd_tag(),
{
    let mut v: Vec<u8> = Vec::new();
    v.push('+' as u8);
    v.push('I' as u8);
    v.push('P' as u8);
    v.push('D' as u8);
    v.push(',' as u8);
    assert(v@ =~= ipd_tag());
    v
}

/// The literal `WIFI DISCONNECT` as bytes.
fn disconnect_tag_vec() -> (r: Vec<u8>)
    ensures
        r@ == disconnect_tag(),
{
    let mut v: Vec<u8> = Vec::new();
    v.push('W' as u8);
    v.push('I' as u8);
    v.push('F' as u8);
    v.push('I' as u8);
    v.push(' ' as u8);
    v.push('D' as u8);
    v.push('I' as u8);
    v.push('S' as u8);
    v.push('C' as u8);
    v.push('O' as u8);
    v.push('N' as u8);
    v.push('N' as u8);
    v.push('E' as u8);
    v.push('C' as u8);
    v.push('T' as u8);
    assert(v@ =~= disconnect_tag());
    v
}

/// The line terminator as bytes.
fn crlf_vec() -> (r: Vec<u8>)
    ensures
        r@ == crlf(),
{
    let mut v: Vec<u8> = Vec::new();
    v.push('\r' as u8);
    v.push('\n' as u8);
    assert(v@ =~= crlf());
    v
}

/// Reads the digit run `[i1, i2)` of `s` as a link identifier, failing on
/// values that do not fit in a `u16`.
fn link_id_value(s: &[u8], i1: usize, i2: usize) -> (r: Option<u16>)
    requires
        i1 <= i2 <= s@.len(),
        digits_step(s@, i1 as int) == StepModel::Adv(i2 as int),
    ensures
        r is Some <==> dec_val(s@.subrange(i1 as int, i2 as int)) <= u16::MAX,
        r matches Some(v) ==> v == dec_val(s@.subrange(i1 as int, i2 as int)),
{
    proof {
        lemma_digit_run_end(s@, i1 as int);
        assert(i2 == digit_run_end(s@, i1 as int));
        assert(is_digit(s@[i1 as int]));
        assert(i2 > i1);
        assert(forall|k: int| 0 <= k < i2 - i1 ==> is_digit(
            #[trigger] s@.subrange(i1 as int, i2 as int)[k],
        ));
    }
    let digits = vstd::slice::slice_subrange(s, i1, i2);
    match atoi(digits) {
        Some(v) => if v <= 65535 {
            Some(v as u16)
        } else {
            None
        },
        None => {
            proof {
                lemma_dec_val_nonneg(s@.subrange(i1 as int, i2 as int));
            }
            None
        },
    }
}

/// Reads the digit run `[i1, i2)` of `s` as a payload size, failing on
/// values that do not fit in a `u64`.
fn size_value(s: &[u8], i1: usize, i2: usize) -> (r: Option<u64>)
    requires
        i1 <= i2 <= s@.len(),
        digits_step(s@, i1 as int) == StepModel::Adv(i2 as int),
    ensures
        r is Some <==> dec_val(s@.subrange(i1 as int, i2 as int)) <= u64::MAX,
        r matches Some(v) ==> v == dec_val(s@.subrange(i1 as int, i2 as int)),
{
    proof {
        lemma_digit_run_end(s@, i1 as int);
        assert(i2 == digit_run_end(s@, i1 as int));
        assert(is_digit(s@[i1 as int]));
        assert(i2 > i1);
        assert(forall|k: int| 0 <= k < i2 - i1 ==> is_digit(
            #[trigger] s@.subrange(i1 as int, i2 as int)[k],
        ));
    }
    let digits = vstd::slice::slice_subrange(s, i1, i2);
    atoi(digits)
}

/// Runs the connection-opened recognizer.
fn parse_connected(s: &[u8]) -> (r: ParseOutcome)
    ensures
        r@ == connected_spec(s@),
        r matches ParseOutcome::Matched(n, _) ==> n <= s@.len(),
{
    let i1 = match opt_crlf_exec(s, 0) {
        Step::Adv(j) => j,
        Step::More => { return ParseOutcome::More; },
        Step::Fail => { return ParseOutcome::Fail; },
    };
    let i2 = match digits_exec(s, i1) {
        Step::Adv(j) => j,
        Step::More => { return ParseOutcome::More; },
        Step::Fail => { return ParseOutcome::Fail; },
    };
    let link_id = match link_id_value(s, i1, i2) {
        Some(v) => v,
        None => { return ParseOutcome::Fail; },
    };
    let tag = connect_tag_vec();
    let i3 = match tag_exec(s, i2, tag.as_slice()) {
        Step::Adv(j) => j,
        Step::More => { return ParseOutcome::More; },
        Step::Fail => { return ParseOutcome::Fail; },
    };
    let eol = crlf_vec();
    let i4 = match tag_exec(s, i3, eol.as_slice()) {
        Step::Adv(j) => j,
        Step::More => { return ParseOutcome::More; },
        Step::Fail => { return ParseOutcome::Fail; },
    };
    ParseOutcome::Matched(i4, CommandResponse::Connected { link_id })
}

/// Runs the connection-closed recognizer.
fn parse_closed(s: &[u8]) -> (r: ParseOutcome)
    ensures
        r@ == closed_spec(s@),
        r matches ParseOutcome::Matched(n, _) ==> n <= s@.len(),
{
    let i1 = match opt_crlf_exec(s, 0) {
        Step::Adv(j) => j,
        Step::More => { return ParseOutcome::More; },
        Step::Fail => { return ParseOutcome::Fail; },
    };
    let i2 = match digits_exec(s, i1) {
        Step::Adv(j) => j,
        Step::More => { return ParseOutcome::More; },
        Step::Fail => { return ParseOutcome::Fail; },
    };
    let link_id = match link_id_value(s, i1, i2) {
        Some(v) => v,
        None => { return ParseOutcome::Fail; },
    };
    let tag = closed_tag_vec();
    let i3 = match tag_exec(s, i2, tag.as_slice()) {
        Step::Adv(j) => j,
        Step::More => { return ParseOutcome::More; },
        Step::Fail => { return ParseOutcome::Fail; },
    };
    let eol = crlf_vec();
    let i4 = match tag_exec(s, i3, eol.as_slice()) {
        Step::Adv(j) => j,
        Step::More => { return ParseOutcome::More; },
        Step::Fail => { return ParseOutcome::Fail; },
    };
    ParseOutcome::Matched(i4, CommandResponse::Closed { link_id })
}

/// Runs the data-available recognizer.
fn parse_data_available(s: &[u8]) -> (r: ParseOutcome)
    ensures
        r@ == data_available_spec(s@),
        r matches ParseOutcome::Matched(n, _) ==> n <= s@.len(),
{
    let i1 = match opt_crlf_exec(s, 0) {
        Step::Adv(j) => j,
        Step::More => { return ParseOutcome::More; },
        Step::Fail => { return ParseOutcome::Fail; },
    };
    let tag = ipd_tag_vec();
    let i2 = match tag_exec(s, i1, tag.as_slice()) {
        Step::Adv(j) => j,
        Step::More => { return ParseOutcome::More; },
        Step::Fail => { return ParseOutcome::Fail; },
    };
    let i3 = match digits_exec(s, i2) {
        Step::Adv(j) => j,
        Step::More => { return ParseOutcome::More; },
        Step::Fail => { return ParseOutcome::Fail; },
    };
    let link_id = match link_id_value(s, i2, i3) {
        Some(v) => v,
        None => { return ParseOutcome::Fail; },
    };
    let i4 = match byte_exec(s, i3, ',' as u8) {
        Step::Adv(j) => j,
        Step::More => { return ParseOutcome::More; },
        Step::Fail => { return ParseOutcome::Fail; },
    };
    let i5 = match digits_exec(s, i4) {
        Step::Adv(j) => j,
        Step::More => { return ParseOutcome::More; },
        Step::Fail => { return ParseOutcome::Fail; },
    };
    let size = match size_value(s, i4, i5) {
        Some(v) => v,
        None => { return ParseOutcome::Fail; },
    };
    let i6 = match byte_exec(s, i5, ':' as u8) {
        Step::Adv(j) => j,
        Step::More => { return ParseOutcome::More; },
        Step::Fail => { return ParseOutcome::Fail; },
    };
    let i7 = match opt_crlf_exec(s, i6) {
        Step::Adv(j) => j,
        Step::More => { return ParseOutcome::More; },
        Step::Fail => { return ParseOutcome::Fail; },
    };
    ParseOutcome::Matched(i7, CommandResponse::DataAvailable { link_id, size })
}

/// Runs the link-layer disconnect recognizer.
fn parse_disconnect(s: &[u8]) -> (r: ParseOutcome)
    ensures
        r@ == disconnect_spec(s@),
        r matches ParseOutcome::Matched(n, _) ==> n <= s@.len(),
{
    let i1 = match opt_crlf_exec(s, 0) {
        Step::Adv(j) => j,
        Step::More => { return ParseOutcome::More; },
        Step::Fail => { return ParseOutcome::Fail; },
    };
    let tag = disconnect_tag_vec();
    let i2 = match tag_exec(s, i1, tag.as_slice()) {
        Step::Adv(j) => j,
        Step::More => { return ParseOutcome::More; },
        Step::Fail => { return ParseOutcome::Fail; },
    };
    let i3 = match opt_crlf_exec(s, i2) {
        Step::Adv(j) => j,
        Step::More => { return ParseOutcome::More; },
        Step::Fail => { return ParseOutcome::Fail; },
    };
    ParseOutcome::Matched(i3, CommandResponse::WifiDisconnect)
}

/// Tries the recognizers in priority order over the whole buffer.
pub fn parse_outcome(s: &[u8]) -> (r: ParseOutcome)
    ensures
        r@ == parse_spec(s@),
        r matches ParseOutcome::Matched(n, _) ==> n <= s@.len(),
{
    match parse_connected(s) {
        ParseOutcome::Matched(n, resp) => ParseOutcome::Matched(n, resp),
        ParseOutcome::More => ParseOutcome::More,
        ParseOutcome::Fail => match parse_closed(s) {
            ParseOutcome::Matched(n, resp) => ParseOutcome::Matched(n, resp),
            ParseOutcome::More => ParseOutcome::More,
            ParseOutcome::Fail => match parse_data_available(s) {
                ParseOutcome::Matched(n, resp) => ParseOutcome::Matched(n, resp),
                ParseOutcome::More => ParseOutcome::More,
                ParseOutcome::Fail => match parse_disconnect(s) {
                    ParseOutcome::Matched(n, resp) => ParseOutcome::Matched(n, resp),
                    ParseOutcome::More => ParseOutcome::More,
                    ParseOutcome::Fail => ParseOutcome::Fail,
                },
            },
        },
    }
}

impl CommandResponse {
    /// Recognizes a notification at the front of `input`. On a match the
    /// unconsumed remainder is returned alongside the notification; both a
    /// mismatch and a prefix that merely needs more bytes yield `None`.
    pub fn parse(input: &[u8]) -> (r: Option<(&[u8], CommandResponse)>)
        ensures
            match parse_spec(input@) {
                ParseModel::Matched(n, resp) => r matches Some(p) && p.0@ == input@.skip(n)
                    && p.1 == resp,
                ParseModel::More => r is None,
                ParseModel::Fail => r is None,
            },
    {
        match parse_outcome(input) {
            ParseOutcome::Matched(n, resp) => {
                let rest = vstd::slice::slice_subrange(input, n, input.len());
                assert(rest@ =~= input@.skip(
                    match parse_spec(input@) {
                        ParseModel::Matched(m, _) => m,
                        _ => 0,
                    },
                ));
                Some((rest, resp))
            },
            ParseOutcome::More => None,
            ParseOutcome::Fail => None,
        }
    }
}


/// A dotted-quad IPv4 address, one field per octet.
#[derive(Debug, Clone, Copy, PartialEq, Eq, Structural)]
pub struct Ipv4Addr {
    pub a: u8,
    pub b: u8,
    pub c: u8,
    pub d: u8,
}

/// The device's reply to an IP-configuration query: the optional
/// access-point-facing address and the optional station-facing address.
#[derive(Debug, Clone, Copy, PartialEq, Eq)]
pub struct CifsrResponse {
    pub ap_ip: Option<Ipv4Addr>,
    pub sta_ip: Option<Ipv4Addr>,
}

/// A recognized number field: its end position and value.
pub enum NumStepModel {
    Done(int, int),
    More,
    Fail,
}

/// A recognized address field: its end position and value.
pub enum IpStepModel {
    Done(int, Ipv4Addr),
    More,
    Fail,
}

/// Result of running the IP-configuration recognizer over a whole buffer.
pub enum CifsrModel {
    Matched(int, CifsrResponse),
    More,
    Fail,
}

/// A decimal octet: a digit run whose value fits in a `u8`.
pub open spec fn octet_step(s: Seq<u8>, i: int) -> NumStepModel
    recommends
        0 <= i <= s.len(),
{
    match digits_step(s, i) {
        StepModel::More => NumStepModel::More,
        StepModel::Fail => NumStepModel::Fail,
        StepModel::Adv(j) => if dec_val(s.subrange(i, j)) > u8::MAX {
            NumStepModel::Fail
        } else {
            NumStepModel::Done(j, dec_val(s.subrange(i, j)))
        },
    }
}

/// A dotted-quad IPv4 address, preceded by an optional line break.
pub open spec fn ip4_step(s: Seq<u8>, i: int) -> IpStepModel
    recommends
        0 <= i <= s.len(),
{
    match opt_crlf_step(s, i) {
        StepModel::More => IpStepModel::More,
        StepModel::Fail => IpStepModel::Fail,
        StepModel::Adv(i1) => match octet_step(s, i1) {
            NumStepModel::More => IpStepModel::More,
            NumStepModel::Fail => IpStepModel::Fail,
            NumStepModel::Done(i2, a) => match byte_step(s, i2, '.' as u8) {
                StepModel::More => IpStepModel::More,
                StepModel::Fail => IpStepModel::Fail,
                StepModel::Adv(i3) => match octet_step(s, i3) {
                    NumStepModel::More => IpStepModel::More,
                    NumStepModel::Fail => IpStepModel::Fail,
                    NumStepModel::Done(i4, b) => match byte_step(s, i4, '.' as u8) {
                        StepModel::More => IpStepModel::More,
                        StepModel::Fail => IpStepModel::Fail,
                        StepModel::Adv(i5) => match octet_step(s, i5) {
                            NumStepModel::More => IpStepModel::More,
                            NumStepModel::Fail => IpStepModel::Fail,
                            NumStepModel::Done(i6, c) => match byte_step(s, i6, '.' as u8) {
                                StepModel::More => IpStepModel::More,
                                StepModel::Fail => IpStepModel::Fail,
                                StepModel::Adv(i7) => match octet_step(s, i7) {
                                    NumStepModel::More => IpStepModel::More,
                                    NumStepModel::Fail => IpStepModel::Fail,
                                    NumStepModel::Done(i8, d) => IpStepModel::Done(
                                        i8,
                                        Ipv4Addr {
                                            a: a as u8,
                                            b: b as u8,
                                            c: c as u8,
                                            d: d as u8,
                                        },
                                    ),
                                },
                            },
                        },
                    },
                },
            },
        },
    }
}

/// The literal `+CIFSR:APIP,`.
pub open spec fn apip_tag() -> Seq<u8> {
    seq![
        '+' as u8,
        'C' as u8,
        'I' as u8,
        'F' as u8,
        'S' as u8,
        'R' as u8,
        ':' as u8,
        'A' as u8,
        'P' as u8,
        'I' as u8,
        'P' as u8,
        ',' as u8,
    ]
}

/// The literal `+CIFSR:STAIP,`.
pub open spec fn staip_tag() -> Seq<u8> {
    seq![
        '+' as u8,
        'C' as u8,
        'I' as u8,
        'F' as u8,
        'S' as u8,
        'R' as u8,
        ':' as u8,
        'S' as u8,
        'T' as u8,
        'A' as u8,
        'I' as u8,
        'P' as u8,
        ',' as u8,
    ]
}

/// One quoted address line, `<tag>"a.b.c.d"`, between optional line breaks.
pub open spec fn addr_line_step(s: Seq<u8>, i: int, tag: Seq<u8>) -> IpStepModel
    recommends
        0 <= i <= s.len(),
{
    match opt_crlf_step(s, i) {
        StepModel::More => IpStepModel::More,
        StepModel::Fail => IpStepModel::Fail,
        StepModel::Adv(i1) => match tag_step(s, i1, tag) {
            StepModel::More => IpStepModel::More,
            StepModel::Fail => IpStepModel::Fail,
            StepModel::Adv(i2) => match byte_step(s, i2, '"' as u8) {
                StepModel::More => IpStepModel::More,
                StepModel::Fail => IpStepModel::Fail,
                StepModel::Adv(i3) => match ip4_step(s, i3) {
                    IpStepModel::More => IpStepModel::More,
                    IpStepModel::Fail => IpStepModel::Fail,
                    IpStepModel::Done(i4, ip) => match byte_step(s, i4, '"' as u8) {
                        StepModel::More => IpStepModel::More,
                        StepModel::Fail => IpStepModel::Fail,
                        StepModel::Adv(i5) => match opt_crlf_step(s, i5) {
                            StepModel::More => IpStepModel::More,
                            StepModel::Fail => IpStepModel::Fail,
                            StepModel::Adv(i6) => IpStepModel::Done(i6, ip),
                        },
                    },
                },
            },
        },
    }
}

/// The IP-configuration reply: an optional line break, then an optional
/// access-point address line, then an optional station address line. An
/// address line that mismatches is treated as absent; one that merely needs
/// more bytes keeps the whole reply incomplete.
pub open spec fn cifsr_spec(s: Seq<u8>) -> CifsrModel {
    match opt_crlf_step(s, 0) {
        StepModel::More => CifsrModel::More,
        StepModel::Fail => CifsrModel::Fail,
        StepModel::Adv(i1) => match addr_line_step(s, i1, apip_tag()) {
            IpStepModel::More => CifsrModel::More,
            IpStepModel::Fail => match addr_line_step(s, i1, staip_tag()) {
                IpStepModel::More => CifsrModel::More,
                IpStepModel::Fail => CifsrModel::Matched(
                    i1,
                    CifsrResponse { ap_ip: Option::None, sta_ip: Option::None },
                ),
                IpStepModel::Done(i2, sta) => CifsrModel::Matched(
                    i2,
                    CifsrResponse { ap_ip: Option::None, sta_ip: Option::Some(sta) },
                ),
            },
            IpStepModel::Done(i2, ap) => match addr_line_step(s, i2, staip_tag()) {
                IpStepModel::More => CifsrModel::More,
                IpStepModel::Fail => CifsrModel::Matched(
                    i2,
                    CifsrResponse { ap_ip: Option::Some(ap), sta_ip: Option::None },
                ),
                IpStepModel::Done(i3, sta) => CifsrModel::Matched(
                    i3,
                    CifsrResponse { ap_ip: Option::Some(ap), sta_ip: Option::Some(sta) },
                ),
            },
        },
    }
}

/// Exec-level counterpart of [`NumStepModel`], carrying an octet.
enum OctetStep {
    Done(usize, u8),
    More,
    Fail,
}

/// Exec-level counterpart of [`IpStepModel`].
enum IpStep {
    Done(usize, Ipv4Addr),
    More,
    Fail,
}

/// Recognizes a decimal octet at position `i`.
fn octet_exec(s: &[u8], i: usize) -> (r: OctetStep)
    requires
        i <= s@.len(),
    ensures
        match r {
            OctetStep::Done(j, v) => octet_step(s@, i as int) == NumStepModel::Done(
                j as int,
                v as int,
            ) && i <= j <= s@.len(),
            OctetStep::More => octet_step(s@, i as int) == NumStepModel::More,
            OctetStep::Fail => octet_step(s@, i as int) == NumStepModel::Fail,
        },
{
    let j = match digits_exec(s, i) {
        Step::Adv(j) => j,
        Step::More => { return OctetStep::More; },
        Step::Fail => { return OctetStep::Fail; },
    };
    proof {
        lemma_digit_run_end(s@, i as int);
        assert(forall|k: int| 0 <= k < j - i ==> is_digit(
            #[trigger] s@.subrange(i as int, j as int)[k],
        ));
        lemma_dec_val_nonneg(s@.subrange(i as int, j as int));
    }
    let digits = vstd::slice::slice_subrange(s, i, j);
    match atoi(digits) {
        Some(v) => if v <= 255 {
            OctetStep::Done(j, v as u8)
        } else {
            OctetStep::Fail
        },
        None => OctetStep::Fail,
    }
}

/// Recognizes a dotted-quad IPv4 address at position `i`.
fn ip4_exec(s: &[u8], i: usize) -> (r: IpStep)
    requires
        i <= s@.len(),
    ensures
        match r {
            IpStep::Done(j, ip) => ip4_step(s@, i as int) == IpStepModel::Done(j as int, ip)
                && i <= j <= s@.len(),
            IpStep::More => ip4_step(s@, i as int) == IpStepModel::More,
            IpStep::Fail => ip4_step(s@, i as int) == IpStepModel::Fail,
        },
{
    let i1 = match opt_crlf_exec(s, i) {
        Step::Adv(j) => j,
        Step::More => { return IpStep::More; },
        Step::Fail => { return IpStep::Fail; },
    };
    let (i2, a) = match octet_exec(s, i1) {
        OctetStep::Done(j, v) => (j, v),
        OctetStep::More => { return IpStep::More; },
        OctetStep::Fail => { return IpStep::Fail; },
    };
    let i3 = match byte_exec(s, i2, '.' as u8) {
        Step::Adv(j) => j,
        Step::More => { return IpStep::More; },
        Step::Fail => { return IpStep::Fail; },
    };
    let (i4, b) = match octet_exec(s, i3) {
        OctetStep::Done(j, v) => (j, v),
        OctetStep::More => { return IpStep::More; },
        OctetStep::Fail => { return IpStep::Fail; },
    };
    let i5 = match byte_exec(s, i4, '.' as u8) {
        Step::Adv(j) => j,
        Step::More => { return IpStep::More; },
        Step::Fail => { return IpStep::Fail; },
    };
    let (i6, c) = match octet_exec(s, i5) {
        OctetStep::Done(j, v) => (j, v),
        OctetStep::More => { return IpStep::More; },
        OctetStep::Fail => { return IpStep::Fail; },
    };
    let i7 = match byte_exec(s, i6, '.' as u8) {
        Step::Adv(j) => j,
        Step::More => { return IpStep::More; },
        Step::Fail => { return IpStep::Fail; },
    };
    let (i8, d) = match octet_exec(s, i7) {
        OctetStep::Done(j, v) => (j, v),
        OctetStep::More => { return IpStep::More; },
        OctetStep::Fail => { return IpStep::Fail; },
    };
    IpStep::Done(i8, Ipv4Addr { a, b, c, d })
}

/// The literal `+CIFSR:APIP,` as bytes.
fn apip_tag_vec() -> (r: Vec<u8>)
    ensures
        r@ == apip_tag(),
{
    let mut v: Vec<u8> = Vec::new();
    v.push('+' as u8);
    v.push('C' as u8);
    v.push('I' as u8);
    v.push('F' as u8);
    v.push('S' as u8);
    v.push('R' as u8);
    v.push(':' as u8);
    v.push('A' as u8);
    v.push('P' as u8);
    v.push('I' as u8);
    v.push('P' as u8);
    v.push(',' as u8);
    assert(v@ =~= apip_tag());
    v
}

/// The literal `+CIFSR:STAIP,` as bytes.
fn staip_tag_vec() -> (r: Vec<u8>)
    ensures
        r@ == staip_tag(),
{
    let mut v: Vec<u8> = Vec::new();
    v.push('+' as u8);
    v.push('C' as u8);
    v.push('I' as u8);
    v.push('F' as u8);
    v.push('S' as u8);
    v.push('R' as u8);
    v.push(':' as u8);
    v.push('S' as u8);
    v.push('T' as u8);
    v.push('A' as u8);
    v.push('I' as u8);
    v.push('P' as u8);
    v.push(',' as u8);
    assert(v@ =~= staip_tag());
    v
}

/// Recognizes one quoted address line at position `i`.
fn addr_line_exec(s: &[u8], i: usize, tag: &[u8]) -> (r: IpStep)
    requires
        i <= s@.len(),
    ensures
        match r {
            IpStep::Done(j, ip) => addr_line_step(s@, i as int, tag@) == IpStepModel::Done(
                j as int,
                ip,
            ) && i <= j <= s@.len(),
            IpStep::More => addr_line_step(s@, i as int, tag@) == IpStepModel::More,
            IpStep::Fail => addr_line_step(s@, i as int, tag@) == IpStepModel::Fail,
        },
{
    let i1 = match opt_crlf_exec(s, i) {
        Step::Adv(j) => j,
        Step::More => { return IpStep::More; },
        Step::Fail => { return IpStep::Fail; },
    };
    let i2 = match tag_exec(s, i1, tag) {
        Step::Adv(j) => j,
        Step::More => { return IpStep::More; },
        Step::Fail => { return IpStep::Fail; },
    };
    let i3 = match byte_exec(s, i2, '"' as u8) {
        Step::Adv(j) => j,
        Step::More => { return IpStep::More; },
        Step::Fail => { return IpStep::Fail; },
    };
    let (i4, ip) = match ip4_exec(s, i3) {
        IpStep::Done(j, ip) => (j, ip),
        IpStep::More => { return IpStep::More; },
        IpStep::Fail => { return IpStep::Fail; },
    };
    let i5 = match byte_exec(s, i4, '"' as u8) {
        Step::Adv(j) => j,
        Step::More => { return IpStep::More; },
        Step::Fail => { return IpStep::Fail; },
    };
    let i6 = match opt_crlf_exec(s, i5) {
        Step::Adv(j) => j,
        Step::More => { return IpStep::More; },
        Step::Fail => { return IpStep::Fail; },
    };
    IpStep::Done(i6, ip)
}

impl CifsrResponse {
    /// Recognizes the IP-configuration reply at the front of `input`. On a
    /// match the unconsumed remainder is returned alongside the reply; a
    /// prefix that merely needs more bytes yields `None`.
    pub fn parse(input: &[u8]) -> (r: Option<(&[u8], CifsrResponse)>)
        ensures
            match cifsr_spec(input@) {
                CifsrModel::Matched(n, resp) => r matches Some(p) && p.0@ == input@.skip(n)
                    && p.1 == resp,
                CifsrModel::More => r is None,
                CifsrModel::Fail => r is None,
            },
    {
        let i1 = match opt_crlf_exec(input, 0) {
            Step::Adv(j) => j,
            Step::More => { return None; },
            Step::Fail => { return None; },
        };
        let apip = apip_tag_vec();
        let staip = staip_tag_vec();
        let (i2, ap_ip) = match addr_line_exec(input, i1, apip.as_slice()) {
            IpStep::Done(j, ip) => (j, Some(ip)),
            IpStep::More => { return None; },
            IpStep::Fail => (i1, None),
        };
        let (i3, sta_ip) = match addr_line_exec(input, i2, staip.as_slice()) {
            IpStep::Done(j, ip) => (j, Some(ip)),
            IpStep::More => { return None; },
            IpStep::Fail => (i2, None),
        };
        let rest = vstd::slice::slice_subrange(input, i3, input.len());
        assert(rest@ =~= input@.skip(
            match cifsr_spec(input@) {
                CifsrModel::Matched(m, _) => m,
                _ => 0,
            },
        ));
        Some((rest, CifsrResponse { ap_ip, sta_ip }))
    }
}


} // verus!
