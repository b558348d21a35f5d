use vstd::prelude::*;

verus! {

/// Relies on `str::chars`: the characters of a string, in order.
#[verifier::external_body]
pub fn chars_of(s: &str) -> (r: Vec<char>)
    ensures
        r@ == s@,
{
    s.chars().collect()
}

/// Relies on `String: FromIterator<&char>`: the string of these characters.
#[verifier::external_body]
pub fn text_of(v: &Vec<char>) -> (r: String)
    ensures
        r@ == v@,
{
    v.iter().collect()
}

/// The view of an optional string.
pub open spec fn opt_view(o: Option<String>) -> Option<Seq<char>> {
    match o {
        Some(s) => Some(s@),
        None => None,
    }
}

/// Whether `p` occurs in `h` starting at position `i`.
pub open spec fn occurs_at(h: Seq<char>, p: Seq<char>, i: int) -> bool {
    0 <= i && i + p.len() <= h.len() && h.subrange(i, i + p.len()) == p
}

/// The first position at or after `from` where `p` occurs in `h`.
pub open spec fn find_spec(h: Seq<char>, p: Seq<char>, from: int) -> Option<int>
    decreases h.len() + 1 - from,
{
    if from < 0 || from + p.len() > h.len() {
        None
    } else if occurs_at(h, p, from) {
        Some(from)
    } else {
        find_spec(h, p, from + 1)
    }
}

/// The last position before `end` that holds `c`.
pub open spec fn rfind_char_spec(h: Seq<char>, c: char, end: int) -> Option<int>
    decreases end,
{
    if end <= 0 || end > h.len() {
        None
    } else if h[end - 1] == c {
        Some(end - 1)
    } else {
        rfind_char_spec(h, c, end - 1)
    }
}

/// Whether `p` occurs in `h` at position `i`.
pub fn matches_at(h: &Vec<char>, p: &Vec<char>, i: usize) -> (r: bool)
    ensures
        r == occurs_at(h@, p@, i as int),
{
    if i > h.len() || p.len() > h.len() - i {
        return false;
    }
    let hl = h.len();
    let mut k: usize = 0;
    while k < p.len()
        invariant
            hl == h@.len(),
            i + p@.len() <= h@.len(),
            k <= p@.len(),
            forall|j: int| 0 <= j < k ==> h@[i + j] == p@[j],
        decreases p@.len() - k,
    {
        if h[i + k] != p[k] {
            assert(h@.subrange(i as int, i + p@.len())[k as int] != p@[k as int]);
            return false;
        }
        k = k + 1;
    }
    assert(h@.subrange(i as int, i + p@.len()) =~= p@);
    true
}

/// The first position at or after `from` where `p` occurs in `h`.
pub fn find_from(h: &Vec<char>, p: &Vec<char>, from: usize) -> (r: Option<usize>)
    ensures
        match r {
            Some(i) => find_spec(h@, p@, from as int) == Some(i as int),
            None => find_spec(h@, p@, from as int) is None,
        },
{
    if p.len() > h.len() {
        return None;
    }
    let last = h.len() - p.len();
    if from > last {
        return None;
    }
    let mut i = from;
    loop
        invariant
            last == h@.len() - p@.len(),
            from <= i <= last,
            find_spec(h@, p@, from as int) == find_spec(h@, p@, i as int),
        decreases last - i,
    {
        if matches_at(h, p, i) {
            return Some(i);
        }
        if i == last {
            assert(find_spec(h@, p@, i as int + 1) is None);
            return None;
        }
        i = i + 1;
    }
}

/// The last position before `end` that holds `c`.
pub fn rfind_char(h: &Vec<char>, c: char, end: usize) -> (r: Option<usize>)
    requires
        end <= h@.len(),
    ensures
        match r {
            Some(i) => rfind_char_spec(h@, c, end as int) == Some(i as int),
            None => rfind_char_spec(h@, c, end as int) is None,
        },
{
    let mut e = end;
    while e > 0
        invariant
            e <= end <= h@.len(),
            rfind_char_spec(h@, c, end as int) == rfind_char_spec(h@, c, e as int),
        decreases e,
    {
        if h[e - 1] == c {
            return Some(e - 1);
        }
        e = e - 1;
    }
    None
}

/// The characters of `h` from `from` up to `to`.
pub fn slice(h: &Vec<char>, from: usize, to: usize) -> (r: Vec<char>)
    requires
        from <= to <= h@.len(),
    ensures
        r@ == h@.subrange(from as int, to as int),
{
    let mut out: Vec<char> = Vec::new();
    let mut i = from;
    while i < to
        invariant
            from <= i <= to <= h@.len(),
            out@ == h@.subrange(from as int, i as int),
        decreases to - i,
    {
        out.push(h[i]);
        assert(h@.subrange(from as int, i + 1) == h@.subrange(from as int, i as int).push(h@[i as int]));
        i = i + 1;
    }
    out
}

/// `a` followed by `b`.
pub fn concat(a: &Vec<char>, b: &Vec<char>) -> (r: Vec<char>)
    ensures
        r@ == a@ + b@,
{
    let mut out = slice(a, 0, a.len());
    let mut i: usize = 0;
    while i < b.len()
        invariant
            i <= b@.len(),
            out@ == a@ + b@.take(i as int),
        decreases b@.len() - i,
    {
        out.push(b[i]);
        assert(b@.take(i + 1) == b@.take(i as int).push(b@[i as int]));
        i = i + 1;
    }
    assert(b@.take(b@.len() as int) == b@);
    assert(a@.subrange(0, a@.len() as int) == a@);
    out
}

/// The parts of `s` from position `i` on, separated by `sep`: one more part
/// than there are separators, empty parts included.
pub open spec fn split_from(s: Seq<char>, sep: char, i: int) -> Seq<Seq<char>>
    decreases s.len() - i,
{
    if i < 0 || i > s.len() {
        Seq::empty()
    } else {
        match find_spec(s, seq![sep], i) {
            Some(j) => if i <= j < s.len() {
                seq![s.subrange(i, j)] + split_from(s, sep, j + 1)
            } else {
                Seq::empty()
            },
            None => seq![s.subrange(i, s.len() as int)],
        }
    }
}

/// The parts of `s` separated by `sep`.
pub fn split_parts(s: &Vec<char>, sep: char) -> (r: Vec<Vec<char>>)
    ensures
        r@.map_values(|p: Vec<char>| p@) == split_from(s@, sep, 0),
{
    let n = s.len();
    let mut pat: Vec<char> = Vec::new();
    pat.push(sep);
    assert(pat@ =~= seq![sep]);
    let mut out: Vec<Vec<char>> = Vec::new();
    let mut start: usize = 0;
    loop
        invariant_except_break
            out@.map_values(|p: Vec<char>| p@) + split_from(s@, sep, start as int) == split_from(
                s@,
                sep,
                0,
            ),
        invariant
            n == s@.len(),
            start <= n,
            pat@ == seq![sep],
        ensures
            out@.map_values(|p: Vec<char>| p@) == split_from(s@, sep, 0),
        decreases n - start,
    {
        let ghost before = out@.map_values(|p: Vec<char>| p@);
        match find_from(s, &pat, start) {
            Some(j) => {
                proof {
                    lemma_find_bounds(s@, pat@, start as int);
                }
                let piece = slice(s, start, j);
                out.push(piece);
                assert(out@.map_values(|p: Vec<char>| p@) == before.push(piece@));
                assert(before.push(piece@) + split_from(s@, sep, j + 1) == before + (seq![piece@]
                    + split_from(s@, sep, j + 1)));
                start = j + 1;
            },
            None => {
                let piece = slice(s, start, n);
                out.push(piece);
                assert(out@.map_values(|p: Vec<char>| p@) == before.push(piece@));
                assert(before.push(piece@) == before + seq![piece@]);
                break;
            },
        }
    }
    out
}

/// Where `find_spec` finds `p`, it does occur there, at or after `from`.
pub proof fn lemma_find_bounds(h: Seq<char>, p: Seq<char>, from: int)
    ensures
        find_spec(h, p, from) matches Some(i) ==> from <= i && i + p.len() <= h.len()
            && h.subrange(i, i + p.len()) == p,
    decreases h.len() + 1 - from,
{
    if !(from < 0 || from + p.len() > h.len()) && !(0 <= from && from + p.len() <= h.len()
        && h.subrange(from, from + p.len()) == p) {
        lemma_find_bounds(h, p, from + 1);
    }
}

/// Whether `c` is white space in Unicode's sense (the `White_Space`
/// property), which is what `char::is_whitespace` and `str::trim` go by.
pub open spec fn is_white_space(c: char) -> bool {
    ||| ('\u{9}' <= c && c <= '\u{d}')
    ||| c == ' '
    ||| c == '\u{85}'
    ||| c == '\u{a0}'
    ||| c == '\u{1680}'
    ||| ('\u{2000}' <= c && c <= '\u{200a}')
    ||| c == '\u{2028}'
    ||| c == '\u{2029}'
    ||| c == '\u{202f}'
    ||| c == '\u{205f}'
    ||| c == '\u{3000}'
}

pub fn white_space(c: char) -> (r: bool)
    ensures
        r == is_white_space(c),
{
    ('\u{9}' <= c && c <= '\u{d}') || c == ' ' || c == '\u{85}' || c == '\u{a0}' || c == '\u{1680}'
        || ('\u{2000}' <= c && c <= '\u{200a}') || c == '\u{2028}' || c == '\u{2029}' || c
        == '\u{202f}' || c == '\u{205f}' || c == '\u{3000}'
}

/// Position of the first non-white character at or after `i`, or the end.
pub open spec fn trim_start_at(s: Seq<char>, i: int) -> int
    decreases s.len() - i,
{
    if i < 0 || i >= s.len() || !is_white_space(s[i]) {
        i
    } else {
        trim_start_at(s, i + 1)
    }
}

/// Position just after the last non-white character before `e`, not below `lo`.
pub open spec fn trim_end_at(s: Seq<char>, lo: int, e: int) -> int
    decreases e - lo,
{
    if e <= lo || e > s.len() || !is_white_space(s[e - 1]) {
        e
    } else {
        trim_end_at(s, lo, e - 1)
    }
}

/// `s` without white space at either end.
pub open spec fn trim_spec(s: Seq<char>) -> Seq<char> {
    let lo = trim_start_at(s, 0);
    s.subrange(lo, trim_end_at(s, lo, s.len() as int))
}

/// `s` without white space at either end.
pub fn trim(s: &Vec<char>) -> (r: Vec<char>)
    ensures
        r@ == trim_spec(s@),
{
    let mut lo: usize = 0;
    while lo < s.len() && white_space(s[lo])
        invariant
            lo <= s@.len(),
            trim_start_at(s@, 0) == trim_start_at(s@, lo as int),
        decreases s@.len() - lo,
    {
        lo = lo + 1;
    }
    let mut hi: usize = s.len();
    while hi > lo && white_space(s[hi - 1])
        invariant
            lo <= hi <= s@.len(),
            trim_end_at(s@, lo as int, s@.len() as int) == trim_end_at(s@, lo as int, hi as int),
        decreases hi,
    {
        hi = hi - 1;
    }
    slice(s, lo, hi)
}

/// Whether every character of a non-empty `s` is an ASCII digit.
pub open spec fn all_digits(s: Seq<char>) -> bool {
    s.len() > 0 && forall|i: int| 0 <= i < s.len() ==> '0' <= #[trigger] s[i] <= '9'
}

/// The value of a string of ASCII digits.
pub open spec fn digits_value(s: Seq<char>) -> int
    decreases s.len(),
{
    if s.len() == 0 {
        0
    } else {
        digits_value(s.drop_last()) * 10 + (s.last() as int - '0' as int)
    }
}

/// The integer that `s` writes in decimal: an optional `+` or `-`, then one
/// or more ASCII digits.
pub open spec fn decimal_value(s: Seq<char>) -> Option<int> {
    if s.len() > 0 && (s[0] == '+' || s[0] == '-') {
        if all_digits(s.drop_first()) {
            Some(
                if s[0] == '-' {
                    -digits_value(s.drop_first())
                } else {
                    digits_value(s.drop_first())
                },
            )
        } else {
            None
        }
    } else if all_digits(s) {
        Some(digits_value(s))
    } else {
        None
    }
}

/// The `i64` that `s` writes, if it writes one in range.
pub open spec fn i64_value(s: Seq<char>) -> Option<i64> {
    match decimal_value(s) {
        Some(v) => if i64::MIN <= v <= i64::MAX {
            Some(v as i64)
        } else {
            None
        },
        None => None,
    }
}

/// The `i32` that `s` writes, if it writes one in range.
pub open spec fn i32_value(s: Seq<char>) -> Option<i32> {
    match decimal_value(s) {
        Some(v) => if i32::MIN <= v <= i32::MAX {
            Some(v as i32)
        } else {
            None
        },
        None => None,
    }
}

/// The `bool` that `s` writes: exactly `true` or `false`.
pub open spec fn bool_value(s: Seq<char>) -> Option<bool> {
    if s == true_text() {
        Some(true)
    } else if s == false_text() {
        Some(false)
    } else {
        None
    }
}

/// Relies on `i64::from_str`: an optional sign and decimal digits, refused
/// when empty, malformed or out of range.
#[verifier::external_body]
pub fn parse_i64(s: &str) -> (r: Option<i64>)
    ensures
        r == i64_value(s@),
{
    s.parse::<i64>().ok()
}

/// Relies on `i32::from_str`: an optional sign and decimal digits, refused
/// when empty, malformed or out of range.
#[verifier::external_body]
pub fn parse_i32(s: &str) -> (r: Option<i32>)
    ensures
        r == i32_value(s@),
{
    s.parse::<i32>().ok()
}

pub open spec fn true_text() -> Seq<char> {
    seq!['t', 'r', 'u', 'e']
}

pub open spec fn false_text() -> Seq<char> {
    seq!['f', 'a', 'l', 's', 'e']
}

/// Relies on `bool::from_str`: exactly `true` or `false`.
#[verifier::external_body]
pub fn parse_bool(s: &str) -> (r: Option<bool>)
    ensures
        r == bool_value(s@),
{
    s.parse::<bool>().ok()
}

/// The decimal digits of `n`.
pub open spec fn nat_digits(n: nat) -> Seq<char>
    decreases n,
{
    if n < 10 {
        seq![(n + '0' as nat) as char]
    } else {
        nat_digits(n / 10).push(((n % 10) + '0' as nat) as char)
    }
}

/// The decimal text of `v`, with a leading `-` when negative.
pub open spec fn decimal_text(v: int) -> Seq<char> {
    if v < 0 {
        seq!['-'] + nat_digits((-v) as nat)
    } else {
        nat_digits(v as nat)
    }
}

/// Relies on `i64: Display`: the decimal text of the value.
#[verifier::external_body]
pub fn i64_text(v: i64) -> (r: String)
    ensures
        r@ == decimal_text(v as int),
{
    v.to_string()
}

/// Relies on `i32: Display`: the decimal text of the value.
#[verifier::external_body]
pub fn i32_text(v: i32) -> (r: String)
    ensures
        r@ == decimal_text(v as int),
{
    v.to_string()
}

} // verus!
