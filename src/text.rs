//! Small text helpers shared by the converters.

use vstd::prelude::*;

verus! {

/// Relies on `String::push`: appends one character at the end.
#[verifier::external_body]
pub(crate) fn push_char(s: &mut String, c: char)
    ensures
        final(s)@ == old(s)@.push(c),
{
    s.push(c)
}

/// Appends every character of `t` to `s`.
pub fn push_str(s: &mut String, t: &str)
    ensures
        final(s)@ == old(s)@ + t@,
{
    let n = t.unicode_len();
    let mut i: usize = 0;
    while i < n
        invariant
            n == t@.len(),
            i <= n,
            s@ == old(s)@ + t@.subrange(0, i as int),
        decreases n - i,
    {
        let c = t.get_char(i);
        push_char(s, c);
        i = i + 1;
        assert(t@.subrange(0, i as int) =~= t@.subrange(0, i - 1).push(c));
    }
    assert(t@.subrange(0, n as int) =~= t@);
}

/// Whether two strings hold the same characters.
pub fn text_eq(s: &str, t: &str) -> (r: bool)
    ensures
        r == (s@ == t@),
{
    let n = s.unicode_len();
    if n != t.unicode_len() {
        return false;
    }
    let mut i: usize = 0;
    while i < n
        invariant
            n == s@.len(),
            n == t@.len(),
            i <= n,
            s@.take(i as int) == t@.take(i as int),
        decreases n - i,
    {
        let c = s.get_char(i);
        let d = t.get_char(i);
        if c != d {
            return false;
        }
        assert(s@.take(i + 1) =~= s@.take(i as int).push(c));
        assert(t@.take(i + 1) =~= t@.take(i as int).push(d));
        i = i + 1;
    }
    assert(s@ =~= s@.take(n as int));
    assert(t@ =~= t@.take(n as int));
    true
}

/// The characters of `s` from `from` up to, not including, `to`.
pub fn substring(s: &str, from: usize, to: usize) -> (r: String)
    requires
        from <= to <= s@.len(),
    ensures
        r@ == s@.subrange(from as int, to as int),
{
    let mut out = String::new();
    let mut i: usize = from;
    while i < to
        invariant
            from <= i <= to,
            to <= s@.len(),
            out@ == s@.subrange(from as int, i as int),
        decreases to - i,
    {
        let c = s.get_char(i);
        push_char(&mut out, c);
        i = i + 1;
        assert(out@ =~= s@.subrange(from as int, i as int));
    }
    out
}

/// The text a converter hands back for input it cannot read.
pub open spec fn nan_text() -> Seq<char> {
    seq!['N', 'A', 'N']
}

pub fn nan() -> (r: String)
    ensures
        r@ == nan_text(),
{
    let mut out = String::new();
    push_char(&mut out, 'N');
    push_char(&mut out, 'A');
    push_char(&mut out, 'N');
    assert(out@ =~= nan_text());
    out
}

/// Three characters from `j` on are the separator ` + ` of a complex number.
pub open spec fn separator_at(s: Seq<char>, j: int) -> bool {
    0 <= j && j + 3 <= s.len() && s[j] == ' ' && s[j + 1] == '+' && s[j + 2] == ' '
}

/// Where the first separator at or after `j` starts; `s.len()` if none does.
pub open spec fn find_separator(s: Seq<char>, j: int) -> int
    decreases s.len() - j,
{
    if j < 0 || j + 3 > s.len() {
        s.len() as int
    } else if separator_at(s, j) {
        j
    } else {
        find_separator(s, j + 1)
    }
}

/// The real and imaginary numerals of `<real> + <imag>i`: the text before
/// the first ` + `, and the text after it up to the closing `i`.
pub open spec fn complex_parts(s: Seq<char>) -> Option<(Seq<char>, Seq<char>)> {
    let j = find_separator(s, 0);
    if j + 3 < s.len() && s.last() == 'i' {
        Some((s.take(j), s.subrange(j + 3, s.len() - 1)))
    } else {
        None
    }
}

/// Splits `<real> + <imag>i` into its two numerals.
pub fn split_complex(s: &str) -> (r: Option<(String, String)>)
    ensures
        match complex_parts(s@) {
            Some((a, b)) => r.is_some() && r.unwrap().0@ == a && r.unwrap().1@ == b,
            None => r.is_none(),
        },
{
    let n = s.unicode_len();
    let mut j: usize = 0;
    let mut found: usize = n;
    while n >= 3 && j <= n - 3 && found == n
        invariant
            n == s@.len(),
            j <= n,
            found == n ==> find_separator(s@, 0) == find_separator(s@, j as int),
            found != n ==> found == find_separator(s@, 0),
        decreases n - j + (if found == n { 1int } else { 0int }),
    {
        if s.get_char(j) == ' ' && s.get_char(j + 1) == '+' && s.get_char(j + 2) == ' ' {
            found = j;
        } else {
            j = j + 1;
        }
    }
    assert(found == find_separator(s@, 0));
    if found < n && n - found > 3 && s.get_char(n - 1) == 'i' {
        let re = substring(s, 0, found);
        let im = substring(s, found + 3, n - 1);
        assert(re@ =~= s@.take(found as int));
        Some((re, im))
    } else {
        None
    }
}

/// `<real> + <imag>i` from the two numerals.
pub fn complex_text(re: &str, im: &str) -> (r: String)
    ensures
        r@ == re@ + seq![' ', '+', ' '] + im@ + seq!['i'],
{
    let mut out = String::new();
    push_str(&mut out, re);
    push_char(&mut out, ' ');
    push_char(&mut out, '+');
    push_char(&mut out, ' ');
    push_str(&mut out, im);
    push_char(&mut out, 'i');
    assert(out@ =~= re@ + seq![' ', '+', ' '] + im@ + seq!['i']);
    out
}

} // verus!
