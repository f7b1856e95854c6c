//! Verified string helpers: character-level equality, ASCII-insensitive
//! containment, `;`-joined keyword lists and decimal rendering of ids.
//!
//! Case folding and whitespace throughout this crate are ASCII-only: the
//! data these helpers see (desktop-file ids, keyword lists, window roles)
//! is ASCII in practice.

use vstd::prelude::*;
use vstd::string::StrSliceExecFns;
use vstd::string::StringExecFns;

verus! {

/// Character-for-character equality of two string slices.
pub fn str_eq(a: &str, b: &str) -> (r: bool)
    ensures
        r == (a@ == b@),
{
    let na = a.unicode_len();
    let nb = b.unicode_len();
    if na != nb {
        return false;
    }
    let mut i: usize = 0;
    while i < na
        invariant
            na == a@.len(),
            nb == b@.len(),
            na == nb,
            i <= na,
            forall|j: int| 0 <= j < i ==> a@[j] == b@[j],
        decreases na - i,
    {
        if a.get_char(i) != b.get_char(i) {
            return false;
        }
        i = i + 1;
    }
    proof {
        assert(a@ =~= b@);
    }
    true
}

/// The characters of a string slice, as a vector.
pub fn chars_vec(s: &str) -> (v: Vec<char>)
    ensures
        v@ == s@,
{
    let n = s.unicode_len();
    let mut v: Vec<char> = Vec::new();
    let mut i: usize = 0;
    while i < n
        invariant
            n == s@.len(),
            i <= n,
            v@ == s@.subrange(0, i as int),
        decreases n - i,
    {
        v.push(s.get_char(i));
        i = i + 1;
        proof {
            assert(v@ =~= s@.subrange(0, i as int));
        }
    }
    proof {
        assert(s@.subrange(0, n as int) =~= s@);
    }
    v
}

/// The code point of a character after ASCII lower-casing.
pub open spec fn lc(c: char) -> int {
    if 65 <= c as int && c as int <= 90 {
        c as int + 32
    } else {
        c as int
    }
}

/// Two characters are equal up to ASCII case.
pub open spec fn ieq_char(a: char, b: char) -> bool {
    lc(a) == lc(b)
}

/// Two character sequences are equal up to ASCII case.
pub open spec fn ieq(a: Seq<char>, b: Seq<char>) -> bool {
    a.len() == b.len() && (forall|i: int| 0 <= i < a.len() ==> ieq_char(a[i], b[i]))
}

/// `needle` occurs within `hay`, compared up to ASCII case.
pub open spec fn icontains(hay: Seq<char>, needle: Seq<char>) -> bool {
    exists|k: int|
        0 <= k && k + needle.len() <= hay.len() && ieq(
            #[trigger] hay.subrange(k, k + needle.len() as int),
            needle,
        )
}

fn lc_exec(c: char) -> (r: u32)
    ensures
        r == lc(c),
{
    let x = c as u32;
    if 65 <= x && x <= 90 {
        x + 32
    } else {
        x
    }
}

/// Whether the slice of `hay` starting at `k` equals `needle` up to case.
fn ieq_at(hay: &Vec<char>, needle: &Vec<char>, k: usize) -> (r: bool)
    requires
        k + needle@.len() <= hay@.len(),
    ensures
        r == ieq(hay@.subrange(k as int, k + needle@.len() as int), needle@),
{
    let n = needle.len();
    let nh = hay.len();
    let mut i: usize = 0;
    while i < n
        invariant
            n == needle@.len(),
            nh == hay@.len(),
            k + n <= nh,
            i <= n,
            forall|j: int| 0 <= j < i ==> ieq_char(hay@[k + j], needle@[j]),
        decreases n - i,
    {
        if lc_exec(hay[k + i]) != lc_exec(needle[i]) {
            proof {
                let sub = hay@.subrange(k as int, k + needle@.len() as int);
                assert(sub[i as int] == hay@[k + i]);
            }
            return false;
        }
        i = i + 1;
    }
    proof {
        let sub = hay@.subrange(k as int, k + needle@.len() as int);
        assert(forall|j: int| 0 <= j < n ==> sub[j] == hay@[k + j]);
    }
    true
}

/// Appends the characters of `s` to `v`.
pub fn push_str_chars(v: &mut Vec<char>, s: &str)
    ensures
        final(v)@ == old(v)@ + s@,
{
    let ghost init = v@;
    let n = s.unicode_len();
    let mut i: usize = 0;
    while i < n
        invariant
            n == s@.len(),
            i <= n,
            v@ == init + s@.subrange(0, i as int),
        decreases n - i,
    {
        v.push(s.get_char(i));
        i = i + 1;
        proof {
            assert(v@ =~= init + s@.subrange(0, i as int));
        }
    }
    proof {
        assert(init + s@.subrange(0, n as int) =~= init + s@);
    }
}

/// The keyword list as one string, the entries separated by `;` — the shape
/// the role filter searches in.
pub open spec fn spec_join_semi(ks: Seq<String>) -> Seq<char>
    decreases ks.len(),
{
    if ks.len() == 0 {
        Seq::empty()
    } else if ks.len() == 1 {
        ks[0]@
    } else {
        spec_join_semi(ks.drop_last()) + seq![';'] + ks.last()@
    }
}

/// Joins the keywords with `;`, as a character vector.
pub fn join_semi_chars(ks: &Vec<String>) -> (v: Vec<char>)
    ensures
        v@ == spec_join_semi(ks@),
{
    let mut v: Vec<char> = Vec::new();
    let n = ks.len();
    let mut i: usize = 0;
    while i < n
        invariant
            n == ks@.len(),
            i <= n,
            v@ == spec_join_semi(ks@.subrange(0, i as int)),
        decreases n - i,
    {
        if i > 0 {
            v.push(';');
        }
        let s: &String = &ks[i];
        push_str_chars(&mut v, s.as_str());
        i = i + 1;
        proof {
            let p = ks@.subrange(0, i as int);
            assert(p.last() == ks@[i - 1]);
            if i > 1 {
                assert(p.drop_last() =~= ks@.subrange(0, i - 1));
                assert(v@ =~= spec_join_semi(p.drop_last()) + seq![';'] + p.last()@);
            } else {
                assert(v@ =~= p[0]@);
            }
        }
    }
    proof {
        assert(ks@.subrange(0, n as int) =~= ks@);
    }
    v
}

/// ASCII whitespace, the characters `trim` strips from the data this crate
/// sees.
pub open spec fn is_ascii_space(c: char) -> bool {
    c == ' ' || c == '\t' || c == '\n' || c == '\r'
}

/// The string shows something once trimmed: it has a non-whitespace
/// character.
pub open spec fn has_visible(s: Seq<char>) -> bool {
    exists|i: int| 0 <= i < s.len() && !is_ascii_space(#[trigger] s[i])
}

/// Whether the string has a non-whitespace character.
pub fn has_visible_exec(s: &str) -> (r: bool)
    ensures
        r == has_visible(s@),
{
    let n = s.unicode_len();
    let mut i: usize = 0;
    while i < n
        invariant
            n == s@.len(),
            i <= n,
            forall|j: int| 0 <= j < i ==> is_ascii_space(#[trigger] s@[j]),
        decreases n - i,
    {
        let c = s.get_char(i);
        if !(c == ' ' || c == '\t' || c == '\n' || c == '\r') {
            return true;
        }
        i = i + 1;
    }
    false
}

/// The decimal digit characters.
pub open spec fn spec_digit(d: int) -> char {
    if d == 0 {
        '0'
    } else if d == 1 {
        '1'
    } else if d == 2 {
        '2'
    } else if d == 3 {
        '3'
    } else if d == 4 {
        '4'
    } else if d == 5 {
        '5'
    } else if d == 6 {
        '6'
    } else if d == 7 {
        '7'
    } else if d == 8 {
        '8'
    } else {
        '9'
    }
}

/// The decimal rendering of a non-negative number, most significant digit
/// first, without leading zeros.
pub open spec fn spec_dec(n: nat) -> Seq<char>
    decreases n,
{
    if n < 10 {
        seq![spec_digit(n as int)]
    } else {
        spec_dec(n / 10) + seq![spec_digit((n % 10) as int)]
    }
}

/// The decimal rendering of a signed number: a `-` sign where negative.
pub open spec fn spec_dec_i64(n: int) -> Seq<char> {
    if n < 0 {
        seq!['-'] + spec_dec((-n) as nat)
    } else {
        spec_dec(n as nat)
    }
}

fn digit_str(d: u64) -> (s: &'static str)
    requires
        d < 10,
    ensures
        s@ == seq![spec_digit(d as int)],
{
    let r: &'static str = if d == 0 {
        "0"
    } else if d == 1 {
        "1"
    } else if d == 2 {
        "2"
    } else if d == 3 {
        "3"
    } else if d == 4 {
        "4"
    } else if d == 5 {
        "5"
    } else if d == 6 {
        "6"
    } else if d == 7 {
        "7"
    } else if d == 8 {
        "8"
    } else {
        "9"
    };
    proof {
        reveal_strlit("0");
        reveal_strlit("1");
        reveal_strlit("2");
        reveal_strlit("3");
        reveal_strlit("4");
        reveal_strlit("5");
        reveal_strlit("6");
        reveal_strlit("7");
        reveal_strlit("8");
        reveal_strlit("9");
        assert(r@ =~= seq![spec_digit(d as int)]);
    }
    r
}

/// Renders an unsigned number in decimal.
pub fn u64_dec(n: u64) -> (s: String)
    ensures
        s@ == spec_dec(n as nat),
    decreases n,
{
    if n < 10 {
        let d = digit_str(n);
        d.to_owned()
    } else {
        let mut s = u64_dec(n / 10);
        s.append(digit_str(n % 10));
        proof {
            assert(s@ =~= spec_dec((n / 10) as nat) + seq![spec_digit((n % 10) as int)]);
        }
        s
    }
}

/// Renders a signed number in decimal.
pub fn i64_dec(n: i64) -> (s: String)
    ensures
        s@ == spec_dec_i64(n as int),
{
    if n >= 0 {
        u64_dec(n as u64)
    } else {
        let m: u64 = if n == i64::MIN {
            9223372036854775808u64
        } else {
            (-n) as u64
        };
        proof {
            assert(m as int == -(n as int));
        }
        let mut s = String::from_str("-");
        let d = u64_dec(m);
        s.append(d.as_str());
        proof {
            reveal_strlit("-");
            assert(s@ =~= seq!['-'] + spec_dec((-(n as int)) as nat));
        }
        s
    }
}

/// Equality of two string slices up to ASCII case.
pub fn ieq_str(a: &str, b: &str) -> (r: bool)
    ensures
        r == ieq(a@, b@),
{
    let na = a.unicode_len();
    let nb = b.unicode_len();
    if na != nb {
        return false;
    }
    let mut i: usize = 0;
    while i < na
        invariant
            na == a@.len(),
            nb == b@.len(),
            na == nb,
            i <= na,
            forall|j: int| 0 <= j < i ==> ieq_char(#[trigger] a@[j], b@[j]),
        decreases na - i,
    {
        if lc_exec(a.get_char(i)) != lc_exec(b.get_char(i)) {
            return false;
        }
        i = i + 1;
    }
    true
}

/// Whether `needle` occurs within `hay`, up to ASCII case.
pub fn icontains_exec(hay: &Vec<char>, needle: &Vec<char>) -> (r: bool)
    ensures
        r == icontains(hay@, needle@),
{
    let nh = hay.len();
    let nn = needle.len();
    if nn > nh {
        return false;
    }
    let mut k: usize = 0;
    while k <= nh - nn
        invariant
            nh == hay@.len(),
            nn == needle@.len(),
            nn <= nh,
            k <= nh - nn + 1,
            forall|j: int|
                0 <= j < k ==> !ieq(#[trigger] hay@.subrange(j, j + needle@.len() as int), needle@),
        decreases nh - nn - k + 1,
    {
        if ieq_at(hay, needle, k) {
            return true;
        }
        k = k + 1;
    }
    false
}

} // verus!
