//! Character-level helpers on strings: prefixes, substrings, separators and
//! whitespace trimming, each with the specification it is proved against.

use vstd::prelude::*;
use vstd::string::*;

verus! {

/// Unicode `White_Space` characters, the set that `char::is_whitespace` and
/// `str::trim` use.
pub open spec fn is_white_space(c: char) -> bool {
    let n = c as u32;
    ||| 0x9 <= n <= 0xd
    ||| n == 0x20
    ||| n == 0x85
    ||| n == 0xa0
    ||| n == 0x1680
    ||| 0x2000 <= n <= 0x200a
    ||| n == 0x2028
    ||| n == 0x2029
    ||| n == 0x202f
    ||| n == 0x205f
    ||| n == 0x3000
}

/// Whether `c` has the Unicode `White_Space` property.
pub fn is_white_space_char(c: char) -> (r: bool)
    ensures
        r == is_white_space(c),
{
    let n = c as u32;
    (0x9 <= n && n <= 0xd) || n == 0x20 || n == 0x85 || n == 0xa0 || n == 0x1680 || (0x2000 <= n
        && n <= 0x200a) || n == 0x2028 || n == 0x2029 || n == 0x202f || n == 0x205f || n == 0x3000
}

/// ASCII hexadecimal digit: `0-9`, `a-f` or `A-F`.
pub open spec fn is_hex_digit(c: char) -> bool {
    ||| '0' <= c <= '9'
    ||| 'a' <= c <= 'f'
    ||| 'A' <= c <= 'F'
}

/// Whether `c` is an ASCII hexadecimal digit.
pub fn is_hex_digit_char(c: char) -> (r: bool)
    ensures
        r == is_hex_digit(c),
{
    ('0' <= c && c <= '9') || ('a' <= c && c <= 'f') || ('A' <= c && c <= 'F')
}

/// `s` with leading white space removed.
pub open spec fn trim_start(s: Seq<char>) -> Seq<char>
    decreases s.len(),
{
    if s.len() > 0 && is_white_space(s[0]) {
        trim_start(s.drop_first())
    } else {
        s
    }
}

/// `s` with trailing white space removed.
pub open spec fn trim_end(s: Seq<char>) -> Seq<char>
    decreases s.len(),
{
    if s.len() > 0 && is_white_space(s.last()) {
        trim_end(s.drop_last())
    } else {
        s
    }
}

/// `s` with leading and trailing white space removed, as `str::trim` does.
pub open spec fn trim(s: Seq<char>) -> Seq<char> {
    trim_end(trim_start(s))
}

/// Number of characters of `s` before the first one that occurs in `stops`
/// (all of `s` when none does).
pub open spec fn stop_index(s: Seq<char>, stops: Seq<char>) -> nat
    decreases s.len(),
{
    if s.len() == 0 {
        0
    } else if stops.contains(s[0]) {
        0
    } else {
        1 + stop_index(s.drop_first(), stops)
    }
}

/// The part of `s` before the first character that occurs in `stops`.
pub open spec fn before_stop(s: Seq<char>, stops: Seq<char>) -> Seq<char> {
    s.take(stop_index(s, stops) as int)
}

/// The part of `s` after the first character that occurs in `stops`, if any.
pub open spec fn after_stop(s: Seq<char>, stops: Seq<char>) -> Option<Seq<char>> {
    let k = stop_index(s, stops);
    if k < s.len() {
        Some(s.skip(k as int + 1))
    } else {
        None
    }
}

/// `pat` occurs in `s` starting at position `i`.
pub open spec fn occurs_at(s: Seq<char>, pat: Seq<char>, i: int) -> bool {
    0 <= i && i + pat.len() <= s.len() && s.subrange(i, i + pat.len()) == pat
}

/// `pat` occurs somewhere in `s`, as `str::contains` tests.
pub open spec fn contains_text(s: Seq<char>, pat: Seq<char>) -> bool {
    exists|i: int| occurs_at(s, pat, i)
}

proof fn lemma_stop_index(s: Seq<char>, stops: Seq<char>, k: int)
    requires
        0 <= k <= s.len(),
        forall|i: int| 0 <= i < k ==> !stops.contains(#[trigger] s[i]),
        k < s.len() ==> stops.contains(s[k]),
    ensures
        stop_index(s, stops) == k,
    decreases k,
{
    if k > 0 {
        assert(!stops.contains(s[0]));
        let t = s.drop_first();
        assert forall|i: int| 0 <= i < k - 1 implies !stops.contains(#[trigger] t[i]) by {
            assert(t[i] == s[i + 1]);
        }
        if k - 1 < t.len() {
            assert(t[k - 1] == s[k]);
        }
        lemma_stop_index(t, stops, k - 1);
    }
}

proof fn lemma_trim_start(s: Seq<char>, k: int)
    requires
        0 <= k <= s.len(),
        forall|i: int| 0 <= i < k ==> is_white_space(#[trigger] s[i]),
        k < s.len() ==> !is_white_space(s[k]),
    ensures
        trim_start(s) == s.skip(k),
    decreases k,
{
    if k == 0 {
        assert(s.skip(0) =~= s);
    } else {
        assert(is_white_space(s[0]));
        let t = s.drop_first();
        assert forall|i: int| 0 <= i < k - 1 implies is_white_space(#[trigger] t[i]) by {
            assert(t[i] == s[i + 1]);
        }
        if k - 1 < t.len() {
            assert(t[k - 1] == s[k]);
        }
        lemma_trim_start(t, k - 1);
        assert(t.skip(k - 1) =~= s.skip(k));
    }
}

proof fn lemma_trim_end(s: Seq<char>, k: int)
    requires
        0 <= k <= s.len(),
        forall|i: int| k <= i < s.len() ==> is_white_space(#[trigger] s[i]),
        k > 0 ==> !is_white_space(s[k - 1]),
    ensures
        trim_end(s) == s.take(k),
    decreases s.len() - k,
{
    if k == s.len() {
        assert(s.take(k) =~= s);
    } else {
        assert(is_white_space(s.last()));
        let t = s.drop_last();
        assert forall|i: int| k <= i < t.len() implies is_white_space(#[trigger] t[i]) by {
            assert(t[i] == s[i]);
        }
        if k > 0 {
            assert(t[k - 1] == s[k - 1]);
        }
        lemma_trim_end(t, k);
        assert(t.take(k) =~= s.take(k));
    }
}

/// The characters of `s`, in order.
pub fn chars_of(s: &str) -> (v: Vec<char>)
    ensures
        v@ == s@,
{
    let n = s.unicode_len();
    let mut v: Vec<char> = Vec::new();
    let mut i: usize = 0;
    while i < n
        invariant
            n == s@.len(),
            i <= n,
            v@ == s@.take(i as int),
        decreases n - i,
    {
        let c = s.get_char(i);
        v.push(c);
        i = i + 1;
        assert(v@ =~= s@.take(i as int));
    }
    assert(v@ =~= s@);
    v
}

/// Whether `s` begins with `prefix`, as `str::starts_with` tests.
pub fn starts_with(s: &str, prefix: &str) -> (r: bool)
    ensures
        r == prefix@.is_prefix_of(s@),
{
    let sc = chars_of(s);
    let pc = chars_of(prefix);
    if pc.len() > sc.len() {
        return false;
    }
    let mut i: usize = 0;
    while i < pc.len()
        invariant
            sc@ == s@,
            pc@ == prefix@,
            pc.len() <= sc.len(),
            i <= pc.len(),
            forall|j: int| 0 <= j < i ==> pc@[j] == sc@[j],
        decreases pc.len() - i,
    {
        if pc[i] != sc[i] {
            assert(s@.subrange(0, prefix@.len() as int)[i as int] == sc@[i as int]);
            return false;
        }
        i = i + 1;
    }
    assert(prefix@ =~= s@.subrange(0, prefix@.len() as int));
    true
}

/// Whether `pat` occurs in `s`, as `str::contains` tests.
pub fn contains(s: &str, pat: &str) -> (r: bool)
    ensures
        r == contains_text(s@, pat@),
{
    let sc = chars_of(s);
    let pc = chars_of(pat);
    if pc.len() > sc.len() {
        return false;
    }
    let last = sc.len() - pc.len();
    let mut i: usize = 0;
    while i <= last
        invariant
            sc@ == s@,
            pc@ == pat@,
            last == sc.len() - pc.len(),
            pc.len() <= sc.len(),
            i <= last + 1,
            forall|k: int| 0 <= k < i ==> !occurs_at(s@, pat@, k),
        decreases last + 1 - i,
    {
        let mut j: usize = 0;
        let mut same = true;
        while j < pc.len()
            invariant
                sc@ == s@,
                pc@ == pat@,
                i + pc.len() <= sc.len(),
                j <= pc.len(),
                same == (forall|m: int| 0 <= m < j ==> pc@[m] == sc@[i + m]),
            decreases pc.len() - j,
        {
            if pc[j] != sc[i + j] {
                same = false;
            }
            j = j + 1;
        }
        if same {
            assert(s@.subrange(i as int, i + pat@.len()) =~= pat@);
            assert(occurs_at(s@, pat@, i as int));
            return true;
        }
        assert(!occurs_at(s@, pat@, i as int)) by {
            if occurs_at(s@, pat@, i as int) {
                assert forall|m: int| 0 <= m < pc.len() implies pc@[m] == sc@[i + m] by {
                    assert(s@.subrange(i as int, i + pat@.len())[m] == sc@[i + m]);
                }
            }
        }
        i = i + 1;
    }
    assert(!contains_text(s@, pat@)) by {
        if exists|k: int| occurs_at(s@, pat@, k) {
            let k = choose|k: int| occurs_at(s@, pat@, k);
            assert(k <= last);
        }
    }
    false
}

/// Whether `c` occurs in `set`.
pub fn char_in(c: char, set: &Vec<char>) -> (r: bool)
    ensures
        r == set@.contains(c),
{
    let mut j: usize = 0;
    while j < set.len()
        invariant
            j <= set.len(),
            forall|m: int| 0 <= m < j ==> set@[m] != c,
        decreases set.len() - j,
    {
        if set[j] == c {
            return true;
        }
        j = j + 1;
    }
    false
}

/// Index of the first character of `s[from..to]` that occurs in `stops`,
/// counted from the start of `s` (`to` when none does).
pub fn find_stop(s: &Vec<char>, from: usize, to: usize, stops: &Vec<char>) -> (k: usize)
    requires
        from <= to <= s.len(),
    ensures
        from <= k <= to,
        k - from == stop_index(s@.subrange(from as int, to as int), stops@),
{
    let mut k: usize = from;
    while k < to && !char_in(s[k], stops)
        invariant
            from <= k <= to <= s.len(),
            forall|i: int| from <= i < k ==> !stops@.contains(#[trigger] s@[i]),
        decreases to - k,
    {
        k = k + 1;
    }
    proof {
        let t = s@.subrange(from as int, to as int);
        assert forall|i: int| 0 <= i < k - from implies !stops@.contains(#[trigger] t[i]) by {
            assert(t[i] == s@[from + i]);
        }
        if k < to {
            assert(t[k - from] == s@[k as int]);
        }
        lemma_stop_index(t, stops@, k - from);
    }
    k
}

/// Bounds `(a, b)` such that `s[a..b]` is `s[from..to]` with surrounding white
/// space removed.
pub fn trim_bounds(s: &Vec<char>, from: usize, to: usize) -> (r: (usize, usize))
    requires
        from <= to <= s.len(),
    ensures
        from <= r.0 <= r.1 <= to,
        s@.subrange(r.0 as int, r.1 as int) == trim(s@.subrange(from as int, to as int)),
{
    let ghost w = s@.subrange(from as int, to as int);
    let mut a: usize = from;
    while a < to && is_white_space_char(s[a])
        invariant
            from <= a <= to <= s.len(),
            forall|i: int| from <= i < a ==> is_white_space(#[trigger] s@[i]),
        decreases to - a,
    {
        a = a + 1;
    }
    proof {
        assert forall|i: int| 0 <= i < a - from implies is_white_space(#[trigger] w[i]) by {
            assert(w[i] == s@[from + i]);
        }
        if a < to {
            assert(w[a - from] == s@[a as int]);
        }
        lemma_trim_start(w, a - from);
    }
    let mut b: usize = to;
    while b > a && is_white_space_char(s[b - 1])
        invariant
            a <= b <= to <= s.len(),
            forall|i: int| b <= i < to ==> is_white_space(#[trigger] s@[i]),
        decreases b - a,
    {
        b = b - 1;
    }
    proof {
        let ws = w.skip(a - from);
        assert(ws =~= s@.subrange(a as int, to as int));
        assert forall|i: int| b - a <= i < ws.len() implies is_white_space(#[trigger] ws[i]) by {
            assert(ws[i] == s@[a + i]);
        }
        if b > a {
            assert(ws[b - a - 1] == s@[b - 1]);
        }
        lemma_trim_end(ws, b - a);
        assert(ws.take(b - a) =~= s@.subrange(a as int, b as int));
    }
    (a, b)
}

/// A new `String` holding `s[from..to]`, counted in characters.
pub fn substring(s: &str, from: usize, to: usize) -> (r: String)
    requires
        from <= to <= s@.len(),
    ensures
        r@ == s@.subrange(from as int, to as int),
{
    String::from_str(s.substring_char(from, to))
}

/// `s` with leading and trailing white space removed, as `str::trim` does.
pub fn trim_text(s: &str) -> (r: String)
    ensures
        r@ == trim(s@),
{
    let cs = chars_of(s);
    let (a, b) = trim_bounds(&cs, 0, cs.len());
    assert(cs@.subrange(0, cs.len() as int) =~= s@);
    substring(s, a, b)
}

/// Decimal text of a natural number, without leading zeros.
pub open spec fn decimal(n: nat) -> Seq<char>
    decreases n,
{
    if n < 10 {
        seq![((n as u32) + ('0' as u32)) as char]
    } else {
        decimal(n / 10) + seq![(((n % 10) as u32) + ('0' as u32)) as char]
    }
}

/// The one-character text of a digit below ten.
fn digit_str(d: usize) -> (r: &'static str)
    requires
        d < 10,
    ensures
        r@ == seq![((d as u32) + ('0' as u32)) as char],
{
    if d == 0 {
        proof { reveal_strlit("0"); }
        "0"
    } else if d == 1 {
        proof { reveal_strlit("1"); }
        "1"
    } else if d == 2 {
        proof { reveal_strlit("2"); }
        "2"
    } else if d == 3 {
        proof { reveal_strlit("3"); }
        "3"
    } else if d == 4 {
        proof { reveal_strlit("4"); }
        "4"
    } else if d == 5 {
        proof { reveal_strlit("5"); }
        "5"
    } else if d == 6 {
        proof { reveal_strlit("6"); }
        "6"
    } else if d == 7 {
        proof { reveal_strlit("7"); }
        "7"
    } else if d == 8 {
        proof { reveal_strlit("8"); }
        "8"
    } else {
        proof { reveal_strlit("9"); }
        "9"
    }
}

/// Decimal text of `n`, as `usize`'s `Display` writes it.
pub fn decimal_string(n: usize) -> (r: String)
    ensures
        r@ == decimal(n as nat),
    decreases n,
{
    if n < 10 {
        String::from_str(digit_str(n))
    } else {
        let mut s = decimal_string(n / 10);
        s.append(digit_str(n % 10));
        s
    }
}

} // verus!
