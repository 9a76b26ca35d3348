//! Byte-level text utilities for the console protocol: substring search,
//! whitespace trimming, field extraction, and string equality.
//!
//! Console output is handled as raw bytes. Prompts and success markers are
//! ASCII, so byte-level substring matching coincides with text matching.

use vstd::prelude::*;
use vstd::string::StringSliceAdditionalSpecFns;

verus! {

/// The bytes of `pat` occur in `text` starting at position `i`.
pub open spec fn is_match_at(text: Seq<u8>, pat: Seq<u8>, i: int) -> bool {
    0 <= i && i + pat.len() <= text.len() && text.subrange(i, i + pat.len() as int) == pat
}

/// `pat` occurs somewhere in `text` as a contiguous run of bytes.
pub open spec fn contains_seq(text: Seq<u8>, pat: Seq<u8>) -> bool {
    exists|i: int| is_match_at(text, pat, i)
}

/// Whether `b` counts as surrounding whitespace when console text is trimmed.
pub open spec fn is_space_byte(b: u8) -> bool {
    b == 32 || b == 9 || b == 10 || b == 13
}

/// `text` with leading and trailing whitespace bytes removed.
pub open spec fn trim_spec(text: Seq<u8>) -> Seq<u8>
    decreases text.len(),
{
    if text.len() == 0 {
        text
    } else if is_space_byte(text.first()) {
        trim_spec(text.drop_first())
    } else if is_space_byte(text.last()) {
        trim_spec(text.drop_last())
    } else {
        text
    }
}

/// What stripping ANSI escape sequences leaves of a byte sequence. The
/// stripper is a fixed parser, so the result is a function of the input
/// bytes alone; the crate states nothing further about its shape.
pub uninterp spec fn ansi_stripped(raw: Seq<u8>) -> Seq<u8>;

/// Relies on strip_ansi_escapes::strip: a fresh parser walks the input, so
/// the output depends on the input bytes alone, and empty input yields
/// empty output.
#[verifier::external_body]
pub(crate) fn strip_ansi(raw: &[u8]) -> (r: Vec<u8>)
    ensures
        r@ == ansi_stripped(raw@),
        raw@.len() == 0 ==> r@.len() == 0,
{
    strip_ansi_escapes::strip(raw)
}

/// Prepares one received buffer for prompt matching: strips ANSI escape
/// sequences, then trims surrounding whitespace.
pub fn clean_console_text(raw: &[u8]) -> (r: Vec<u8>)
    ensures
        r@ == trim_spec(ansi_stripped(raw@)),
        raw@.len() == 0 ==> r@.len() == 0,
{
    let stripped = strip_ansi(raw);
    trim_bytes(stripped.as_slice())
}

/// Reports whether the two byte slices hold the same bytes.
pub fn bytes_eq(a: &[u8], b: &[u8]) -> (r: bool)
    ensures
        r == (a@ == b@),
{
    if a.len() != b.len() {
        assert(a@ != b@) by {
            assert(a@.len() != b@.len());
        }
        return false;
    }
    let n: usize = a.len();
    let mut i: usize = 0;
    while i < n
        invariant
            n == a@.len() == b@.len(),
            0 <= i <= n,
            forall|j: int| 0 <= j < i ==> a@[j] == b@[j],
        decreases n - i,
    {
        if a[i] != b[i] {
            return false;
        }
        i = i + 1;
    }
    assert(a@ =~= b@);
    true
}

/// Reports whether two strings hold the same bytes, hence the same text.
pub fn str_eq(a: &str, b: &str) -> (r: bool)
    ensures
        r == (a.spec_bytes() == b.spec_bytes()),
{
    bytes_eq(a.as_bytes(), b.as_bytes())
}

/// Reports whether `pat` occurs in `text` starting exactly at `i`.
fn matches_at(text: &[u8], pat: &[u8], i: usize) -> (r: bool)
    requires
        i + pat@.len() <= text@.len(),
    ensures
        r == is_match_at(text@, pat@, i as int),
{
    let m: usize = pat.len();
    let n: usize = text.len();
    let mut k: usize = 0;
    while k < m
        invariant
            m == pat@.len(),
            n == text@.len(),
            i + m <= n,
            0 <= k <= m,
            forall|j: int| 0 <= j < k ==> text@[i + j] == pat@[j],
        decreases m - k,
    {
        if text[i + k] != pat[k] {
            assert(!is_match_at(text@, pat@, i as int)) by {
                assert(text@.subrange(i as int, i + m) != pat@) by {
                    assert(text@.subrange(i as int, i + m)[k as int] == text@[i + k]);
                }
            }
            return false;
        }
        k = k + 1;
    }
    assert(text@.subrange(i as int, i + m) =~= pat@);
    true
}

/// Returns the first position at which `pat` occurs in `text`, if any.
pub fn find_seq(text: &[u8], pat: &[u8]) -> (r: Option<usize>)
    ensures
        match r {
            Some(i) => is_match_at(text@, pat@, i as int) && forall|j: int|
                0 <= j < i ==> !is_match_at(text@, pat@, j),
            None => !contains_seq(text@, pat@),
        },
{
    if pat.len() > text.len() {
        assert(forall|j: int| !is_match_at(text@, pat@, j));
        return None;
    }
    if pat.len() == 0 {
        assert(text@.subrange(0, 0) =~= pat@);
        return Some(0);
    }
    let last: usize = text.len() - pat.len();
    let mut i: usize = 0;
    while i <= last
        invariant
            1 <= pat@.len() <= text@.len(),
            last == text@.len() - pat@.len(),
            last < usize::MAX,
            0 <= i <= last + 1,
            forall|j: int| 0 <= j < i ==> !is_match_at(text@, pat@, j),
        decreases last + 1 - i,
    {
        if matches_at(text, pat, i) {
            return Some(i);
        }
        i = i + 1;
    }
    assert(forall|j: int| i <= j ==> !is_match_at(text@, pat@, j));
    None
}

/// Reports whether `pat` occurs somewhere in `text`.
pub fn contains_sub(text: &[u8], pat: &[u8]) -> (r: bool)
    ensures
        r == contains_seq(text@, pat@),
{
    find_seq(text, pat).is_some()
}

/// Returns the last position at which the byte `b` occurs in `text`, if any.
pub fn rfind_byte(text: &[u8], b: u8) -> (r: Option<usize>)
    ensures
        match r {
            Some(i) => i < text@.len() && text@[i as int] == b && forall|j: int|
                i < j < text@.len() ==> text@[j] != b,
            None => forall|j: int| 0 <= j < text@.len() ==> text@[j] != b,
        },
{
    let mut i: usize = text.len();
    while i > 0
        invariant
            i <= text@.len(),
            forall|j: int| i <= j < text@.len() ==> text@[j] != b,
        decreases i,
    {
        i = i - 1;
        if text[i] == b {
            return Some(i);
        }
    }
    None
}

/// Copies the byte range `[from, to)` of `text` into a fresh vector.
pub fn slice_range(text: &[u8], from: usize, to: usize) -> (r: Vec<u8>)
    requires
        from <= to <= text@.len(),
    ensures
        r@ == text@.subrange(from as int, to as int),
{
    let mut out: Vec<u8> = Vec::new();
    let mut i: usize = from;
    while i < to
        invariant
            from <= i <= to <= text@.len(),
            out@ == text@.subrange(from as int, i as int),
        decreases to - i,
    {
        out.push(text[i]);
        assert(out@ =~= text@.subrange(from as int, i + 1));
        i = i + 1;
    }
    out
}

/// Removes leading and trailing whitespace bytes from console text.
pub fn trim_bytes(text: &[u8]) -> (r: Vec<u8>)
    ensures
        r@ == trim_spec(text@),
{
    let mut lo: usize = 0;
    let mut hi: usize = text.len();
    proof {
        assert(text@.subrange(0, text@.len() as int) =~= text@);
    }
    while lo < hi && is_space(text[lo])
        invariant
            0 <= lo <= hi <= text@.len(),
            trim_spec(text@) == trim_spec(text@.subrange(lo as int, hi as int)),
            hi == text@.len(),
        decreases hi - lo,
    {
        proof {
            assert(text@.subrange(lo as int, hi as int).drop_first() =~= text@.subrange(
                lo + 1,
                hi as int,
            ));
        }
        lo = lo + 1;
    }
    while lo < hi && is_space(text[hi - 1])
        invariant
            0 <= lo <= hi <= text@.len(),
            trim_spec(text@) == trim_spec(text@.subrange(lo as int, hi as int)),
            lo < hi ==> !is_space_byte(text@[lo as int]),
        decreases hi,
    {
        proof {
            assert(text@.subrange(lo as int, hi as int).drop_last() =~= text@.subrange(
                lo as int,
                hi - 1,
            ));
        }
        hi = hi - 1;
    }
    proof {
        lemma_trim_fixed(text@.subrange(lo as int, hi as int));
    }
    slice_range(text, lo, hi)
}

/// Executable test for a whitespace byte.
fn is_space(b: u8) -> (r: bool)
    ensures
        r == is_space_byte(b),
{
    b == 32 || b == 9 || b == 10 || b == 13
}

/// Trimming leaves a sequence unchanged once neither end is whitespace.
proof fn lemma_trim_fixed(s: Seq<u8>)
    requires
        s.len() > 0 ==> !is_space_byte(s.first()) && !is_space_byte(s.last()),
    ensures
        trim_spec(s) == s,
{
}

/// A `close` byte follows an `open` byte somewhere in `text`.
pub open spec fn has_delimited_pair(text: Seq<u8>, open: u8, close: u8) -> bool {
    exists|i: int, j: int| 0 <= i < j < text.len() && text[i] == open && text[j] == close
}

/// Returns the bytes strictly between the first `open` byte and the first
/// `close` byte that follows it, as the device's identity banner frames the
/// board variant in parentheses. `None` exactly when no `close` follows any
/// `open`.
pub fn extract_between(text: &[u8], open: u8, close: u8) -> (r: Option<Vec<u8>>)
    ensures
        match r {
            Some(v) => exists|i: int, j: int|
                {
                    &&& 0 <= i < j < text@.len()
                    &&& text@[i] == open
                    &&& text@[j] == close
                    &&& v@ == text@.subrange(i + 1, j)
                },
            None => !has_delimited_pair(text@, open, close),
        },
{
    let n: usize = text.len();
    let start = match find_byte(text, open, 0) {
        Some(i) => i,
        None => {
            assert(!has_delimited_pair(text@, open, close)) by {
                assert(forall|i: int| 0 <= i < text@.len() ==> text@[i] != open);
            }
            return None;
        },
    };
    assert(start < n);
    let end = match find_byte(text, close, start + 1) {
        Some(j) => j,
        None => {
            assert(!has_delimited_pair(text@, open, close)) by {
                assert forall|i: int, j: int|
                    0 <= i < j < text@.len() && text@[i] == open implies text@[j] != close by {
                    assert(i >= start);
                    assert(j >= start + 1);
                }
            }
            return None;
        },
    };
    Some(slice_range(text, start + 1, end))
}

/// The bytes of a path with every backslash turned into a forward slash.
pub open spec fn to_slashes(s: Seq<u8>) -> Seq<u8> {
    s.map_values(|b: u8| if b == 92 { 47u8 } else { b })
}

/// Shortens a path for display: everything from the path component named
/// `app_name` on, with forward slashes. A path that does not pass through
/// such a component, or an empty name, is shown as it is.
pub fn get_relative_path(path: &[u8], app_name: &[u8]) -> (r: Vec<u8>)
    ensures
        app_name@.len() == 0 ==> r@ == path@,
        app_name@.len() > 0 ==> {
            let pat = seq![92u8] + app_name@ + seq![92u8];
            if contains_seq(path@, pat) {
                exists|i: int|
                    {
                        &&& is_match_at(path@, pat, i)
                        &&& (forall|j: int| 0 <= j < i ==> !is_match_at(path@, pat, j))
                        &&& r@ == app_name@ + seq![47u8] + to_slashes(
                            path@.skip(i + app_name@.len() + 1),
                        )
                    }
            } else {
                r@ == path@
            }
        },
{
    if app_name.len() == 0 {
        return slice_to_vec(path);
    }
    let mut pattern: Vec<u8> = Vec::new();
    pattern.push(92);
    let mut k: usize = 0;
    while k < app_name.len()
        invariant
            0 <= k <= app_name@.len(),
            pattern@ == seq![92u8] + app_name@.take(k as int),
        decreases app_name@.len() - k,
    {
        pattern.push(app_name[k]);
        proof {
            assert(pattern@ =~= seq![92u8] + app_name@.take(k + 1));
        }
        k = k + 1;
    }
    pattern.push(92);
    proof {
        assert(app_name@.take(app_name@.len() as int) =~= app_name@);
        assert(pattern@ =~= seq![92u8] + app_name@ + seq![92u8]);
    }
    let pos = match find_seq(path, pattern.as_slice()) {
        Some(i) => i,
        None => {
            return slice_to_vec(path);
        },
    };
    let mut out: Vec<u8> = Vec::new();
    let mut k: usize = 0;
    while k < app_name.len()
        invariant
            0 <= k <= app_name@.len(),
            out@ == app_name@.take(k as int),
        decreases app_name@.len() - k,
    {
        out.push(app_name[k]);
        proof {
            assert(out@ =~= app_name@.take(k + 1));
        }
        k = k + 1;
    }
    out.push(47);
    proof {
        assert(app_name@.take(app_name@.len() as int) =~= app_name@);
        assert(out@ =~= app_name@ + seq![47u8]);
    }
    let n: usize = path.len();
    proof {
        assert(is_match_at(path@, pattern@, pos as int));
        assert(pos + app_name@.len() + 2 <= n);
    }
    let from: usize = pos + app_name.len() + 1;
    assert(from <= path@.len());
    let ghost tail = path@.skip(from as int);
    let mut i: usize = from;
    while i < path.len()
        invariant
            from <= i <= path@.len(),
            tail == path@.skip(from as int),
            out@ == app_name@ + seq![47u8] + to_slashes(tail.take(i - from)),
        decreases path@.len() - i,
    {
        let b = path[i];
        out.push(if b == 92 {
            47
        } else {
            b
        });
        proof {
            assert(tail.take(i + 1 - from) =~= tail.take(i - from).push(path@[i as int]));
            assert(to_slashes(tail.take(i + 1 - from)) =~= to_slashes(tail.take(i - from)).push(
                if path@[i as int] == 92 {
                    47u8
                } else {
                    path@[i as int]
                },
            ));
            assert(out@ =~= app_name@ + seq![47u8] + to_slashes(tail.take(i + 1 - from)));
        }
        i = i + 1;
    }
    proof {
        assert(tail.take(path@.len() - from) =~= tail);
    }
    out
}

/// Copies a byte slice into a fresh vector.
fn slice_to_vec(s: &[u8]) -> (r: Vec<u8>)
    ensures
        r@ == s@,
{
    let r = slice_range(s, 0, s.len());
    proof {
        assert(s@.subrange(0, s@.len() as int) =~= s@);
    }
    r
}

/// Returns the first position `>= from` at which byte `b` occurs in `text`.
pub fn find_byte(text: &[u8], b: u8, from: usize) -> (r: Option<usize>)
    ensures
        match r {
            Some(i) => from <= i < text@.len() && text@[i as int] == b && forall|j: int|
                from <= j < i ==> text@[j] != b,
            None => forall|j: int| from <= j < text@.len() ==> text@[j] != b,
        },
{
    let n: usize = text.len();
    let mut i: usize = from;
    while i < n
        invariant
            n == text@.len(),
            from <= i,
            forall|j: int| from <= j < i && j < n ==> text@[j] != b,
        decreases n - i,
    {
        if text[i] == b {
            return Some(i);
        }
        i = i + 1;
    }
    None
}

} // verus!
