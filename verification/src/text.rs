//! Character-level helpers the verb grammar is built from: whitespace
//! trimming, literal comparison, searching for a separator, and the quoted
//! rendering of a string used in error messages.

use vstd::prelude::*;

verus! {

/// Whether `c` has the Unicode `White_Space` property, which is what
/// `char::is_whitespace` and `str::trim` go by.
pub open spec fn white_space(c: char) -> bool {
    let n = c as u32;
    ||| 0x09 <= n <= 0x0d
    ||| n == 0x20
    ||| n == 0x85
    ||| n == 0xa0
    ||| n == 0x1680
    ||| 0x2000 <= n <= 0x200a
    ||| n == 0x2028
    ||| n == 0x2029
    ||| n == 0x202f
    ||| n == 0x205f
    ||| n == 0x3000
}

/// The text `{:?}` renders for a string slice whose characters are `s`.
pub uninterp spec fn debug_str(s: Seq<char>) -> Seq<char>;

/// Whether `c` is whitespace.
fn is_whitespace(c: char) -> (r: bool)
    ensures
        r == white_space(c),
{
    let n = c as u32;
    (0x09 <= n && n <= 0x0d) || n == 0x20 || n == 0x85 || n == 0xa0 || n == 0x1680 || (0x2000
        <= n && n <= 0x200a) || n == 0x2028 || n == 0x2029 || n == 0x202f || n == 0x205f || n
        == 0x3000
}

/// Renders `s` with `{:?}`, the `Debug` formatting of `str` (quoted, with
/// escapes). Claims only that the text depends on the characters of `s`
/// alone, and names it `debug_str`.
#[verifier::external_body]
pub(crate) fn debug_quoted(s: &str) -> (r: String)
    ensures
        r@ == debug_str(s@),
{
    format!("{s:?}")
}

/// The characters of `s`, in order.
fn chars_of(s: &str) -> (r: Vec<char>)
    ensures
        r@ == s@,
{
    let mut r: Vec<char> = Vec::new();
    for c in it: s.chars()
        invariant
            it.seq() == s@,
            r@ == it.seq().take(it.index() as int),
    {
        r.push(c);
    }
    assert(r@ =~= s@);
    r
}

/// `s` without its leading and trailing whitespace, as `str::trim` defines it.
pub open spec fn trim_spec(s: Seq<char>) -> Seq<char>
    decreases s.len(),
{
    if s.len() == 0 {
        s
    } else if white_space(s[0]) {
        trim_spec(s.drop_first())
    } else if white_space(s.last()) {
        trim_spec(s.drop_last())
    } else {
        s
    }
}

/// The character bounds of the trimmed part of `s`.
fn trim_bounds(s: &str) -> (r: (usize, usize))
    ensures
        r.0 <= r.1 <= s@.len(),
        s@.subrange(r.0 as int, r.1 as int) == trim_spec(s@),
{
    let cs = chars_of(s);
    let n = cs.len();
    let mut i: usize = 0;
    assert(s@.subrange(0, n as int) =~= s@);
    loop
        invariant
            cs@ == s@,
            n == s@.len(),
            i <= n,
            trim_spec(s@) == trim_spec(s@.subrange(i as int, n as int)),
        ensures
            i <= n,
            trim_spec(s@) == trim_spec(s@.subrange(i as int, n as int)),
            i == n || !white_space(s@[i as int]),
        decreases n - i,
    {
        if i == n {
            break;
        }
        if !is_whitespace(cs[i]) {
            break;
        }
        assert(s@.subrange(i as int, n as int).drop_first() =~= s@.subrange(i + 1, n as int));
        i = i + 1;
    }
    let mut j: usize = n;
    loop
        invariant
            cs@ == s@,
            n == s@.len(),
            i <= j <= n,
            i == n || !white_space(s@[i as int]),
            trim_spec(s@) == trim_spec(s@.subrange(i as int, j as int)),
        ensures
            i <= j <= n,
            trim_spec(s@) == s@.subrange(i as int, j as int),
        decreases j - i,
    {
        if j == i {
            assert(s@.subrange(i as int, j as int) =~= Seq::<char>::empty());
            break;
        }
        let c = cs[j - 1];
        let ghost sub = s@.subrange(i as int, j as int);
        assert(sub[0] == s@[i as int]);
        assert(sub.last() == s@[j - 1]);
        if !is_whitespace(c) {
            break;
        }
        assert(sub.drop_last() =~= s@.subrange(i as int, j - 1));
        j = j - 1;
    }
    (i, j)
}

/// `s` without leading and trailing whitespace.
pub(crate) fn trim(s: &str) -> (r: &str)
    ensures
        r@ == trim_spec(s@),
{
    let (start, end) = trim_bounds(s);
    s.substring_char(start, end)
}

/// Whether two strings hold the same characters.
pub(crate) fn str_eq(a: &str, b: &str) -> (r: bool)
    ensures
        r == (a@ == b@),
{
    let ac = chars_of(a);
    let bc = chars_of(b);
    let n = ac.len();
    if n != bc.len() {
        return false;
    }
    let mut i: usize = 0;
    while i < n
        invariant
            ac@ == a@,
            bc@ == b@,
            n == a@.len(),
            n == b@.len(),
            i <= n,
            forall|k: int| 0 <= k < i ==> a@[k] == b@[k],
        decreases n - i,
    {
        if ac[i] != bc[i] {
            return false;
        }
        i = i + 1;
    }
    assert(a@ =~= b@);
    true
}

/// The index of the first occurrence of `c` in `s`, if any.
pub(crate) fn find_char(s: &str, c: char) -> (r: Option<usize>)
    ensures
        r matches Some(i) ==> s@.index_of_first(c) == Some(i as int),
        r is None ==> s@.index_of_first(c) is None,
{
    let cs = chars_of(s);
    let n = cs.len();
    let mut i: usize = 0;
    proof {
        s@.index_of_first_ensures(c);
    }
    while i < n
        invariant
            cs@ == s@,
            n == s@.len(),
            i <= n,
            forall|k: int| 0 <= k < i ==> s@[k] != c,
        decreases n - i,
    {
        if cs[i] == c {
            proof {
                s@.index_of_first_ensures(c);
                assert(s@[i as int] == c);
                assert(s@.contains(c));
                let idx = s@.index_of_first(c)->0;
                if idx < i {
                    assert(s@[idx] != c);
                } else if idx > i {
                    assert(s@[i as int] != c);
                }
            }
            return Some(i);
        }
        i = i + 1;
    }
    proof {
        if s@.contains(c) {
            let k = choose|k: int| 0 <= k < s@.len() && s@[k] == c;
            assert(s@[k] == c);
        }
    }
    None
}

} // verus!
