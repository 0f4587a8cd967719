//! Byte-level scanning of service responses: pattern search, decimal numbers,
//! quoted strings and bracket matching.
use vstd::prelude::*;

verus! {

pub open spec fn is_digit(b: u8) -> bool {
    48 <= b <= 57
}

pub open spec fn is_blank(b: u8) -> bool {
    b == 32 || b == 9
}

/// `pattern` occurs in `data` starting at index `i`.
pub open spec fn occurs_at(data: Seq<u8>, pattern: Seq<u8>, i: int) -> bool {
    0 <= i && i + pattern.len() <= data.len() && data.subrange(i, i + pattern.len()) == pattern
}

/// Index of the first occurrence of `pattern` at or after `i`, searching
/// upward from `i`.
pub open spec fn first_occurrence(data: Seq<u8>, pattern: Seq<u8>, i: int) -> Option<int>
    decreases data.len() - i,
{
    if pattern.len() == 0 || i < 0 || i + pattern.len() > data.len() {
        None
    } else if occurs_at(data, pattern, i) {
        Some(i)
    } else {
        first_occurrence(data, pattern, i + 1)
    }
}

/// Where `find_bytes` finds `pattern` searching from `from`: nothing for an
/// empty pattern, else the first occurrence at or after `from`.
pub open spec fn find_spec(data: Seq<u8>, pattern: Seq<u8>, from: int) -> Option<int> {
    if pattern.len() == 0 {
        None
    } else {
        first_occurrence(data, pattern, from)
    }
}

/// Index of the first byte at or after `i` that is not a space or tab.
pub open spec fn skip_blanks(data: Seq<u8>, i: int) -> int
    decreases data.len() - i,
{
    if 0 <= i < data.len() && is_blank(data[i]) {
        skip_blanks(data, i + 1)
    } else {
        i
    }
}

/// Index of the first byte at or after `i` that is not a decimal digit.
pub open spec fn digits_end(data: Seq<u8>, i: int) -> int
    decreases data.len() - i,
{
    if 0 <= i < data.len() && is_digit(data[i]) {
        digits_end(data, i + 1)
    } else {
        i
    }
}

/// The number written by the digits `data[start..end]`.
pub open spec fn digits_value(data: Seq<u8>, start: int, end: int) -> nat
    decreases end - start,
{
    if end <= start {
        0
    } else {
        digits_value(data, start, end - 1) * 10 + (data[end - 1] - 48) as nat
    }
}

/// What `parse_u32_at` reads at `pos`: after blanks, a run of digits, whose
/// value is taken modulo 2^32 (the accumulator wraps), and the index after it.
pub open spec fn parse_u32_spec(data: Seq<u8>, pos: int) -> Option<(u32, int)> {
    let s = skip_blanks(data, pos);
    let e = digits_end(data, s);
    if e == s {
        None
    } else {
        Some(((digits_value(data, s, e) % 0x1_0000_0000) as u32, e))
    }
}

/// `v` clamped to the range of `i16`.
pub open spec fn clamp_i16(v: int) -> i16 {
    if v > 32767 {
        32767
    } else if v < -32768 {
        -32768i16
    } else {
        v as i16
    }
}

/// A decimal number rounded half away from zero to an integer and clamped to `i16`.
pub open spec fn rounded_decimal(negative: bool, int_part: nat, round_up: bool) -> i16 {
    let magnitude = int_part + if round_up {
        1int
    } else {
        0int
    };
    clamp_i16(
        if negative {
            -magnitude
        } else {
            magnitude
        },
    )
}

/// What `parse_rounded_at` reads at `pos`: after blanks, an optional minus
/// sign, integer digits, and optionally a point with fraction digits; fails
/// when neither digits nor a point follow the sign. The value is rounded half
/// away from zero, so it rounds up exactly when the first fraction digit is 5
/// or more.
pub open spec fn parse_rounded_spec(data: Seq<u8>, pos: int) -> Option<(i16, int)> {
    let s = skip_blanks(data, pos);
    let negative = 0 <= s < data.len() && data[s] == 45;
    let start = if negative {
        s + 1
    } else {
        s
    };
    let ie = digits_end(data, start);
    let has_point = 0 <= ie < data.len() && data[ie] == 46;
    let end = if has_point {
        digits_end(data, ie + 1)
    } else {
        ie
    };
    let round_up = has_point && end > ie + 1 && data[ie + 1] >= 53;
    if end == start {
        None
    } else {
        Some((rounded_decimal(negative, digits_value(data, start, ie), round_up), end))
    }
}

/// What `extract_string_after` finds: the quoted value that follows `key`
/// and a colon, as (first byte, end, index after the closing quote).
pub open spec fn extract_spec(data: Seq<u8>, key: Seq<u8>, from: int) -> Option<(int, int, int)> {
    match find_spec(data, key, from) {
        None => None,
        Some(key_pos) => match find_spec(data, seq![58u8], key_pos + key.len()) {
            None => None,
            Some(colon) => match find_spec(data, seq![34u8], colon + 1) {
                None => None,
                Some(open_q) => match find_spec(data, seq![34u8], open_q + 1) {
                    None => None,
                    Some(close_q) => Some((open_q + 1, close_q, close_q + 1)),
                },
            },
        },
    }
}

/// Index of the `]` that closes the bracket nesting counted from `i` with
/// `depth` brackets open, if any.
pub open spec fn bracket_close(data: Seq<u8>, i: int, depth: int) -> Option<int>
    decreases data.len() - i,
{
    if i < 0 || i >= data.len() {
        None
    } else if data[i] == 91 {
        bracket_close(data, i + 1, depth + 1)
    } else if data[i] == 93 && depth - 1 == 0 {
        Some(i)
    } else if data[i] == 93 {
        bracket_close(data, i + 1, depth - 1)
    } else {
        bracket_close(data, i + 1, depth)
    }
}

// ───────────────────────── lemmas ─────────────────────────

proof fn lemma_first_occurrence_bounds(data: Seq<u8>, pattern: Seq<u8>, i: int)
    ensures
        first_occurrence(data, pattern, i) matches Some(k) ==> i <= k && occurs_at(
            data,
            pattern,
            k,
        ),
    decreases data.len() - i,
{
    if !(pattern.len() == 0 || i < 0 || i + pattern.len() > data.len()) && !occurs_at(
        data,
        pattern,
        i,
    ) {
        lemma_first_occurrence_bounds(data, pattern, i + 1);
    }
}

/// A found pattern lies at or after the search start, inside the data.
pub proof fn lemma_find_bounds(data: Seq<u8>, pattern: Seq<u8>, from: int)
    ensures
        find_spec(data, pattern, from) matches Some(k) ==> from <= k && k + pattern.len()
            <= data.len() && pattern.len() > 0 && occurs_at(data, pattern, k),
{
    lemma_first_occurrence_bounds(data, pattern, from);
}

proof fn lemma_skip_blanks_bounds(data: Seq<u8>, i: int)
    ensures
        skip_blanks(data, i) >= i,
        i <= data.len() ==> skip_blanks(data, i) <= data.len(),
    decreases data.len() - i,
{
    if 0 <= i < data.len() && is_blank(data[i]) {
        lemma_skip_blanks_bounds(data, i + 1);
    }
}

proof fn lemma_digits_end_bounds(data: Seq<u8>, i: int)
    ensures
        digits_end(data, i) >= i,
        0 <= i <= data.len() ==> digits_end(data, i) <= data.len(),
    decreases data.len() - i,
{
    if 0 <= i < data.len() && is_digit(data[i]) {
        lemma_digits_end_bounds(data, i + 1);
    }
}

proof fn lemma_wrapping_step(acc: u32, v: nat, d: nat)
    requires
        acc == v % 0x1_0000_0000,
        d < 10,
    ensures
        (acc as int * 10 + d) % 0x1_0000_0000 == (v * 10 + d) % 0x1_0000_0000,
{
    let m: int = 0x1_0000_0000;
    let vi: int = v as int;
    let q: int = vi / m;
    assert(vi == q * m + acc) by (nonlinear_arith)
        requires
            acc as int == vi % m,
            q == vi / m,
            m > 0,
    ;
    assert(vi * 10 + d == (acc as int * 10 + d) + (q * 10) * m) by (nonlinear_arith)
        requires
            vi == q * m + acc,
    ;
    vstd::arithmetic::div_mod::lemma_mod_multiples_vanish(q * 10, acc as int * 10 + d, m);
}

// ───────────────────────── executable code ─────────────────────────

/// Find `pattern` in `data` at or after `from`.
pub fn find_bytes(data: &[u8], pattern: &[u8], from: usize) -> (r: Option<usize>)
    ensures
        r == (match find_spec(data@, pattern@, from as int) {
            Some(k) => Some(k as usize),
            None => None::<usize>,
        }),
{
    let n = data.len();
    if pattern.len() == 0 || from > n || pattern.len() > n - from {
        return None;
    }
    let last = data.len() - pattern.len();
    let mut i = from;
    while i <= last
        invariant
            from <= i <= last + 1,
            last + pattern@.len() == data@.len(),
            last < data@.len(),
            n == data@.len(),
            pattern@.len() > 0,
            first_occurrence(data@, pattern@, from as int) == first_occurrence(
                data@,
                pattern@,
                i as int,
            ),
        decreases last + 1 - i,
    {
        let mut j: usize = 0;
        let mut same = true;
        while j < pattern.len()
            invariant
                i + pattern@.len() <= data@.len(),
                n == data@.len(),
                j <= pattern@.len(),
                same == (forall|k: int| 0 <= k < j ==> data@[i + k] == pattern@[k]),
            decreases pattern@.len() - j,
        {
            assert(i + j < data@.len());
            if data[i + j] != pattern[j] {
                same = false;
            }
            j = j + 1;
        }
        if same {
            assert(data@.subrange(i as int, i + pattern@.len()) =~= pattern@);
            return Some(i);
        }
        assert(!occurs_at(data@, pattern@, i as int)) by {
            if occurs_at(data@, pattern@, i as int) {
                let k = choose|k: int| 0 <= k < pattern@.len() && data@[i + k] != pattern@[k];
                assert(data@.subrange(i as int, i + pattern@.len())[k] == data@[i + k]);
            }
        }
        i = i + 1;
    }
    None
}

fn skip_blanks_exec(data: &[u8], pos: usize) -> (r: usize)
    ensures
        r == skip_blanks(data@, pos as int),
{
    let mut i = pos;
    while i < data.len() && (data[i] == 32 || data[i] == 9)
        invariant
            pos <= i,
            skip_blanks(data@, pos as int) == skip_blanks(data@, i as int),
        decreases data@.len() - i,
    {
        i = i + 1;
    }
    i
}

/// Parse a decimal `u32` at `pos`, after spaces and tabs; returns the value
/// and the index after the digits.
pub fn parse_u32_at(data: &[u8], pos: usize) -> (r: Option<(u32, usize)>)
    ensures
        r == (match parse_u32_spec(data@, pos as int) {
            Some((v, e)) => Some((v, e as usize)),
            None => None::<(u32, usize)>,
        }),
        r matches Some((_, e)) ==> pos < e <= data@.len(),
{
    let start = skip_blanks_exec(data, pos);
    let mut i = start;
    let mut val: u32 = 0;
    proof {
        lemma_skip_blanks_bounds(data@, pos as int);
    }
    while i < data.len() && data[i] >= 48 && data[i] <= 57
        invariant
            start <= i,
            i <= data@.len() || i == start,
            digits_end(data@, start as int) == digits_end(data@, i as int),
            val == digits_value(data@, start as int, i as int) % 0x1_0000_0000,
        decreases data@.len() - i,
    {
        let d = (data[i] - 48) as u32;
        proof {
            lemma_wrapping_step(val, digits_value(data@, start as int, i as int), d as nat);
        }
        val = val.wrapping_mul(10).wrapping_add(d);
        i = i + 1;
    }
    if i == start {
        None
    } else {
        Some((val, i))
    }
}

fn digits_end_exec(data: &[u8], pos: usize) -> (r: usize)
    ensures
        r == digits_end(data@, pos as int),
{
    let mut i = pos;
    while i < data.len() && data[i] >= 48 && data[i] <= 57
        invariant
            pos <= i,
            digits_end(data@, pos as int) == digits_end(data@, i as int),
        decreases data@.len() - i,
    {
        i = i + 1;
    }
    i
}

/// The number written by `data[start..end]`, saturated at 40000.
fn capped_digits_value(data: &[u8], start: usize, end: usize) -> (r: u32)
    requires
        start <= end <= data@.len(),
        forall|k: int| start <= k < end ==> is_digit(data@[k]),
    ensures
        r == (if digits_value(data@, start as int, end as int) < 40000 {
            digits_value(data@, start as int, end as int)
        } else {
            40000
        }),
{
    let mut v: u32 = 0;
    let mut i = start;
    while i < end
        invariant
            start <= i <= end <= data@.len(),
            forall|k: int| start <= k < end ==> is_digit(data@[k]),
            v == (if digits_value(data@, start as int, i as int) < 40000 {
                digits_value(data@, start as int, i as int)
            } else {
                40000
            }),
        decreases end - i,
    {
        let d = (data[i] - 48) as u32;
        let next = v * 10 + d;
        v = if next < 40000 {
            next
        } else {
            40000
        };
        i = i + 1;
    }
    v
}

proof fn lemma_digits_all(data: Seq<u8>, i: int, k: int)
    requires
        i <= k < digits_end(data, i),
    ensures
        is_digit(data[k]),
        0 <= k < data.len(),
    decreases data.len() - i,
{
    if 0 <= i < data.len() && is_digit(data[i]) {
        if k > i {
            lemma_digits_all(data, i + 1, k);
        }
    }
}

/// Parse a decimal number at `pos` (spaces and tabs first, optional minus
/// sign, digits, optional fraction) and round it half away from zero to an
/// `i16`, saturating at the ends of its range. Returns the rounded value and
/// the index after the number.
pub fn parse_rounded_at(data: &[u8], pos: usize) -> (r: Option<(i16, usize)>)
    ensures
        r == (match parse_rounded_spec(data@, pos as int) {
            Some((v, e)) => Some((v, e as usize)),
            None => None::<(i16, usize)>,
        }),
        r matches Some((_, e)) ==> pos < e <= data@.len(),
{
    let s = skip_blanks_exec(data, pos);
    proof {
        lemma_skip_blanks_bounds(data@, pos as int);
    }
    let negative = s < data.len() && data[s] == 45;
    let start = if negative {
        s + 1
    } else {
        s
    };
    let ie = digits_end_exec(data, start);
    proof {
        lemma_digits_end_bounds(data@, start as int);
    }
    let has_point = ie < data.len() && data[ie] == 46;
    let end = if has_point {
        digits_end_exec(data, ie + 1)
    } else {
        ie
    };
    proof {
        if has_point {
            lemma_digits_end_bounds(data@, ie + 1);
        }
    }
    if end == start {
        return None;
    }
    let round_up = has_point && end > ie + 1 && data[ie + 1] >= 53;
    proof {
        if start < ie {
            assert forall|k: int| start <= k < ie implies is_digit(data@[k]) by {
                lemma_digits_all(data@, start as int, k);
            }
        }
    }
    let int_part = if start < ie {
        capped_digits_value(data, start, ie)
    } else {
        0
    };
    let magnitude: u32 = int_part + if round_up {
        1
    } else {
        0
    };
    let v: i16 = if negative {
        if magnitude > 32768 {
            -32768
        } else {
            (0 - magnitude as i32) as i16
        }
    } else {
        if magnitude > 32767 {
            32767
        } else {
            magnitude as i16
        }
    };
    Some((v, end))
}

/// The quoted value that follows `key` and a colon, searching from `from`:
/// the index of its first byte, the index of the closing quote, and the index
/// after the closing quote.
pub fn extract_string_after(data: &[u8], key: &[u8], from: usize) -> (r: Option<
    (usize, usize, usize),
>)
    ensures
        r == (match extract_spec(data@, key@, from as int) {
            Some((a, b, c)) => Some((a as usize, b as usize, c as usize)),
            None => None::<(usize, usize, usize)>,
        }),
        r matches Some((a, b, c)) ==> from < a <= b < c <= data@.len(),
{
    let colon_pat: [u8; 1] = [58];
    let quote_pat: [u8; 1] = [34];
    assert(colon_pat@ =~= seq![58u8]);
    assert(quote_pat@ =~= seq![34u8]);
    let n = data.len();
    let key_pos = match find_bytes(data, key, from) {
        Some(p) => p,
        None => return None,
    };
    proof {
        lemma_find_bounds(data@, key@, from as int);
    }
    let colon = match find_bytes(data, &colon_pat, key_pos + key.len()) {
        Some(p) => p,
        None => return None,
    };
    proof {
        lemma_find_bounds(data@, colon_pat@, key_pos + key@.len());
    }
    let open_q = match find_bytes(data, &quote_pat, colon + 1) {
        Some(p) => p,
        None => return None,
    };
    proof {
        lemma_find_bounds(data@, quote_pat@, colon + 1);
    }
    let close_q = match find_bytes(data, &quote_pat, open_q + 1) {
        Some(p) => p,
        None => return None,
    };
    proof {
        lemma_find_bounds(data@, quote_pat@, open_q + 1);
    }
    Some((open_q + 1, close_q, close_q + 1))
}

/// Index of the `]` that closes the `[` at `open`.
pub fn matching_bracket(data: &[u8], open: usize) -> (r: Option<usize>)
    requires
        open < data@.len(),
        data@[open as int] == 91,
    ensures
        r == (match bracket_close(data@, open as int, 0) {
            Some(k) => Some(k as usize),
            None => None::<usize>,
        }),
{
    let mut depth: usize = 0;
    let mut i = open;
    while i < data.len()
        invariant
            open <= i <= data@.len(),
            i == open ==> depth == 0,
            i > open ==> depth >= 1,
            depth <= i - open,
            bracket_close(data@, open as int, 0) == bracket_close(data@, i as int, depth as int),
            i == open ==> data@[open as int] == 91,
        decreases data@.len() - i,
    {
        let b = data[i];
        if b == 91 {
            depth = depth + 1;
        } else if b == 93 {
            depth = depth - 1;
            if depth == 0 {
                return Some(i);
            }
        }
        i = i + 1;
    }
    None
}

} // verus!
