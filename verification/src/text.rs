//! Character-sequence helpers shared by the string logic of the crate:
//! copying, trimming, searching, ASCII case folding and decimal rendering,
//! each specified over the `Seq<char>` view of the strings involved.
use vstd::prelude::*;

verus! {

/// `s` with every trailing occurrence of `c` removed.
pub open spec fn trim_end_char(s: Seq<char>, c: char) -> Seq<char>
    decreases s.len(),
{
    if s.len() > 0 && s.last() == c {
        trim_end_char(s.drop_last(), c)
    } else {
        s
    }
}

/// Whether `s` ends with `p`.
pub open spec fn ends_with(s: Seq<char>, p: Seq<char>) -> bool {
    p.len() <= s.len() && s.subrange(s.len() - p.len(), s.len() as int) == p
}

/// `s` with every trailing occurrence of the non-empty pattern `p` removed,
/// one suffix at a time.
pub open spec fn trim_end_seq(s: Seq<char>, p: Seq<char>) -> Seq<char>
    decreases s.len(),
{
    if p.len() > 0 && ends_with(s, p) {
        trim_end_seq(s.subrange(0, s.len() - p.len()), p)
    } else {
        s
    }
}

/// ASCII lower-casing of one character; other characters are unchanged.
pub open spec fn ascii_lower(c: char) -> char {
    if 'A' <= c && c <= 'Z' {
        ((c as int) + 32) as char
    } else {
        c
    }
}

/// ASCII lower-casing of every character of `s`.
pub open spec fn ascii_lower_seq(s: Seq<char>) -> Seq<char> {
    s.map_values(|c: char| ascii_lower(c))
}

/// Whether `n` occurs in `h` starting at index `i`.
pub open spec fn occurs_at(h: Seq<char>, n: Seq<char>, i: int) -> bool {
    0 <= i && i + n.len() <= h.len() && h.subrange(i, i + n.len()) == n
}

/// Whether `n` occurs anywhere in `h`.
pub open spec fn occurs_in(h: Seq<char>, n: Seq<char>) -> bool {
    exists|i: int| occurs_at(h, n, i)
}

/// The decimal digit character for `d < 10`.
pub open spec fn digit_char(d: nat) -> char {
    ((d as int) + ('0' as int)) as char
}

/// Decimal rendering of `n`, most significant digit first, no leading zeros.
pub open spec fn decimal(n: nat) -> Seq<char>
    decreases n,
{
    if n < 10 {
        seq![digit_char(n)]
    } else {
        decimal(n / 10).push(digit_char(n % 10))
    }
}

/// What std's `Debug` formatting (`format!("{:?}", s)`) renders a string
/// as: the string in double quotes, with escapes.
pub uninterp spec fn debug_text(s: Seq<char>) -> Seq<char>;

/// Whether every character of `s` is printable ASCII other than a quote
/// or a backslash: characters that `Debug` writes as they are.
pub open spec fn plain_text(s: Seq<char>) -> bool {
    forall|i: int| 0 <= i < s.len() ==> ' ' <= #[trigger] s[i] && s[i] <= '~' && s[i] != '"' && s[i]
        != '\\' && s[i] != '\''
}

/// Renders `s` with std's `Debug` formatting, `format!("{:?}", s)`. The
/// contract names the result `debug_text(s@)`; of the escaping rules, which
/// are std's, it states only that a string of characters `Debug` leaves
/// unescaped (printable ASCII other than quotes and backslash, per the
/// documentation of `char::escape_debug`) comes out between double quotes.
#[verifier::external_body]
pub fn debug_quoted(s: &str) -> (r: String)
    ensures
        r@ == debug_text(s@),
        plain_text(s@) ==> r@ == seq!['"'] + s@ + seq!['"'],
{
    format!("{:?}", s)
}

/// Copies the characters of `s` into a vector.
pub fn chars_of(s: &str) -> (v: Vec<char>)
    ensures
        v@ == s@,
{
    let n = s.unicode_len();
    let mut v: Vec<char> = Vec::new();
    let mut i: usize = 0;
    while i < n
        invariant
            n == s@.len(),
            i <= n,
            v@ == s@.subrange(0, i as int),
        decreases n - i,
    {
        let c = s.get_char(i);
        v.push(c);
        i = i + 1;
        assert(v@ =~= s@.subrange(0, i as int));
    }
    assert(v@ =~= s@);
    v
}

/// The concatenation of `a` and `b`.
pub fn join2(a: &str, b: &str) -> (r: String)
    ensures
        r@ == a@ + b@,
{
    let mut r = String::from_str(a);
    r.append(b);
    r
}

/// The concatenation of `a`, `b` and `c`.
pub fn join3(a: &str, b: &str, c: &str) -> (r: String)
    ensures
        r@ == a@ + b@ + c@,
{
    let mut r = String::from_str(a);
    r.append(b);
    r.append(c);
    r
}

/// The concatenation of `a`, `b`, `c` and `d`.
pub fn join4(a: &str, b: &str, c: &str, d: &str) -> (r: String)
    ensures
        r@ == a@ + b@ + c@ + d@,
{
    let mut r = String::from_str(a);
    r.append(b);
    r.append(c);
    r.append(d);
    r
}

/// Whether two strings hold the same characters.
pub fn same_text(a: &str, b: &str) -> (r: bool)
    ensures
        r == (a@ == b@),
{
    let x = String::from_str(a);
    let y = String::from_str(b);
    x == y
}

/// `s` with every trailing `/` removed.
pub fn trim_trailing_slashes(s: &str) -> (r: String)
    ensures
        r@ == trim_end_char(s@, '/'),
{
    let v = chars_of(s);
    assert(v@.subrange(0, v@.len() as int) =~= v@);
    let k = trim_end_char_len(&v, v.len(), '/');
    String::from_str(s.substring_char(0, k))
}

/// Length of the prefix of `v@.subrange(0, end)` left once every trailing
/// `c` is removed.
pub fn trim_end_char_len(v: &Vec<char>, end: usize, c: char) -> (k: usize)
    requires
        end <= v@.len(),
    ensures
        k <= end,
        v@.subrange(0, k as int) == trim_end_char(v@.subrange(0, end as int), c),
{
    let mut k = end;
    while k > 0 && v[k - 1] == c
        invariant
            k <= end <= v@.len(),
            trim_end_char(v@.subrange(0, k as int), c) == trim_end_char(
                v@.subrange(0, end as int),
                c,
            ),
        decreases k,
    {
        assert(v@.subrange(0, k as int).drop_last() =~= v@.subrange(0, k - 1));
        k = k - 1;
    }
    k
}

/// Whether `v@.subrange(0, end)` ends with `p@`.
pub fn ends_with_at(v: &Vec<char>, end: usize, p: &Vec<char>) -> (r: bool)
    requires
        end <= v@.len(),
    ensures
        r == ends_with(v@.subrange(0, end as int), p@),
{
    let plen = p.len();
    if plen > end {
        return false;
    }
    let start = end - plen;
    let mut j: usize = 0;
    while j < plen
        invariant
            plen == p@.len(),
            start + plen == end <= v@.len(),
            j <= plen,
            forall|t: int| 0 <= t < j ==> v@[start + t] == p@[t],
        decreases plen - j,
    {
        if v[start + j] != p[j] {
            assert(v@.subrange(0, end as int).subrange(start as int, end as int)[j as int]
                != p@[j as int]);
            return false;
        }
        j = j + 1;
    }
    assert(v@.subrange(0, end as int).subrange(start as int, end as int) =~= p@);
    true
}

/// Length of the prefix of `v@.subrange(0, end)` left once every trailing
/// copy of the non-empty pattern `p@` is removed.
pub fn trim_end_seq_len(v: &Vec<char>, end: usize, p: &Vec<char>) -> (k: usize)
    requires
        end <= v@.len(),
        p@.len() > 0,
    ensures
        k <= end,
        v@.subrange(0, k as int) == trim_end_seq(v@.subrange(0, end as int), p@),
{
    let mut k = end;
    while ends_with_at(v, k, p)
        invariant
            k <= end <= v@.len(),
            p@.len() > 0,
            trim_end_seq(v@.subrange(0, k as int), p@) == trim_end_seq(
                v@.subrange(0, end as int),
                p@,
            ),
        decreases k,
    {
        let ghost s = v@.subrange(0, k as int);
        assert(s.subrange(0, s.len() - p@.len()) =~= v@.subrange(0, k - p@.len()));
        k = k - p.len();
    }
    k
}

/// ASCII lower-casing of one character.
pub fn lower_char(c: char) -> (r: char)
    ensures
        r == ascii_lower(c),
{
    if 'A' <= c && c <= 'Z' {
        let w = c as u32;
        let b = w as u8;
        ((b + 32) as char)
    } else {
        c
    }
}

/// ASCII lower-casing of every character of `v`.
pub fn lower_all(v: &Vec<char>) -> (r: Vec<char>)
    ensures
        r@ == ascii_lower_seq(v@),
{
    let mut r: Vec<char> = Vec::new();
    let mut i: usize = 0;
    while i < v.len()
        invariant
            i <= v@.len(),
            r@ == ascii_lower_seq(v@.subrange(0, i as int)),
        decreases v@.len() - i,
    {
        r.push(lower_char(v[i]));
        i = i + 1;
        assert(r@ =~= ascii_lower_seq(v@.subrange(0, i as int)));
    }
    assert(v@.subrange(0, v@.len() as int) =~= v@);
    r
}

/// Whether `n@` occurs in `h@` at index `i`.
fn occurs_at_exec(h: &Vec<char>, n: &Vec<char>, i: usize) -> (r: bool)
    requires
        i + n@.len() <= h@.len(),
    ensures
        r == occurs_at(h@, n@, i as int),
{
    let mut j: usize = 0;
    while j < n.len()
        invariant
            i + n@.len() <= h.len(),
            j <= n@.len(),
            forall|t: int| 0 <= t < j ==> h@[i + t] == n@[t],
        decreases n@.len() - j,
    {
        if h[i + j] != n[j] {
            assert(h@.subrange(i as int, i + n@.len())[j as int] != n@[j as int]);
            return false;
        }
        j = j + 1;
    }
    assert(h@.subrange(i as int, i + n@.len()) =~= n@);
    true
}

/// Whether `n@` occurs anywhere in `h@`.
pub fn occurs_in_exec(h: &Vec<char>, n: &Vec<char>) -> (r: bool)
    ensures
        r == occurs_in(h@, n@),
{
    if n.len() == 0 {
        assert(h@.subrange(0, 0) =~= n@);
        assert(occurs_at(h@, n@, 0));
        return true;
    }
    if n.len() > h.len() {
        assert forall|i: int| !occurs_at(h@, n@, i) by {}
        return false;
    }
    let last = h.len() - n.len();
    let mut i: usize = 0;
    while i <= last
        invariant
            0 < n@.len(),
            last + n@.len() == h.len(),
            i <= last + 1,
            forall|t: int| 0 <= t < i ==> !occurs_at(h@, n@, t),
        decreases last + 1 - i,
    {
        if occurs_at_exec(h, n, i) {
            return true;
        }
        i = i + 1;
    }
    assert forall|t: int| !occurs_at(h@, n@, t) by {
        if 0 <= t && t < i {
        }
    }
    false
}

/// The one-character string of the decimal digit `d`.
fn digit_str(d: usize) -> (s: &'static str)
    requires
        d < 10,
    ensures
        s@ == seq![digit_char(d as nat)],
{
    proof {
        reveal_strlit("0");
        reveal_strlit("1");
        reveal_strlit("2");
        reveal_strlit("3");
        reveal_strlit("4");
        reveal_strlit("5");
        reveal_strlit("6");
        reveal_strlit("7");
        reveal_strlit("8");
        reveal_strlit("9");
    }
    match d {
        0 => "0",
        1 => "1",
        2 => "2",
        3 => "3",
        4 => "4",
        5 => "5",
        6 => "6",
        7 => "7",
        8 => "8",
        _ => "9",
    }
}

/// Decimal rendering of `n`, as `n.to_string()` prints it.
pub fn decimal_string(n: usize) -> (s: String)
    ensures
        s@ == decimal(n as nat),
    decreases n,
{
    if n < 10 {
        String::from_str(digit_str(n))
    } else {
        let mut s = decimal_string(n / 10);
        s.append(digit_str(n % 10));
        s
    }
}

} // verus!
