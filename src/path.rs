use vstd::prelude::*;

verus! {

/// The string with every leading `/` removed.
pub open spec fn trim_start(s: Seq<char>) -> Seq<char>
    decreases s.len(),
{
    if s.len() > 0 && s[0] == '/' {
        trim_start(s.drop_first())
    } else {
        s
    }
}

/// The string with every trailing `/` removed.
pub open spec fn trim_end(s: Seq<char>) -> Seq<char>
    decreases s.len(),
{
    if s.len() > 0 && s.last() == '/' {
        trim_end(s.drop_last())
    } else {
        s
    }
}

/// The resource key that a request path names: the path without its
/// leading and trailing slashes.
pub open spec fn key_of(path: Seq<char>) -> Seq<char> {
    trim_end(trim_start(path))
}

/// Whether the string ends with `/`.
pub open spec fn ends_with_slash(s: Seq<char>) -> bool {
    s.len() > 0 && s.last() == '/'
}

/// Index of the first `/` in `s`, or its length when there is none.
pub open spec fn slash_index(s: Seq<char>) -> nat
    decreases s.len(),
{
    if s.len() == 0 || s[0] == '/' {
        0
    } else {
        1 + slash_index(s.drop_first())
    }
}

/// The first segment of a relative path: everything before the first `/`.
pub open spec fn first_segment(s: Seq<char>) -> Seq<char> {
    s.subrange(0, slash_index(s) as int)
}

/// Whether the string holds a `/`.
pub open spec fn has_slash(s: Seq<char>) -> bool {
    exists|i: int| 0 <= i < s.len() && s[i] == '/'
}

/// Every character in `s` from `i` on, as an owned string.
fn tail_from(s: &str, i: usize) -> (r: String)
    requires
        i <= s@.len(),
    ensures
        r@ == s@.subrange(i as int, s@.len() as int),
{
    let n = s.unicode_len();
    String::from_str(s.substring_char(i, n))
}

/// Removes every leading `/`.
pub fn trim_leading_slashes(s: &str) -> (r: String)
    ensures
        r@ == trim_start(s@),
{
    let n = s.unicode_len();
    let mut i: usize = 0;
    proof {
        assert(s@.subrange(0, n as int) =~= s@);
    }
    while i < n && s.get_char(i) == '/'
        invariant
            n == s@.len(),
            i <= n,
            trim_start(s@) == trim_start(s@.subrange(i as int, n as int)),
        decreases n - i,
    {
        assert(s@.subrange(i as int, n as int).drop_first() =~= s@.subrange(i + 1, n as int));
        i = i + 1;
    }
    tail_from(s, i)
}

/// Removes every trailing `/`.
pub fn trim_trailing_slashes(s: &str) -> (r: String)
    ensures
        r@ == trim_end(s@),
{
    let n = s.unicode_len();
    let mut j: usize = n;
    proof {
        assert(s@.subrange(0, n as int) =~= s@);
    }
    while j > 0 && s.get_char(j - 1) == '/'
        invariant
            n == s@.len(),
            j <= n,
            trim_end(s@) == trim_end(s@.subrange(0, j as int)),
        decreases j,
    {
        assert(s@.subrange(0, j as int).drop_last() =~= s@.subrange(0, j - 1));
        j = j - 1;
    }
    String::from_str(s.substring_char(0, j))
}

/// The resource key of a request path: the path with its leading and
/// trailing slashes removed.
pub fn key_from_path(path: &str) -> (r: String)
    ensures
        r@ == key_of(path@),
{
    let t = trim_leading_slashes(path);
    trim_trailing_slashes(t.as_str())
}

/// Whether the string ends with `/`.
pub fn ends_with_slash_exec(s: &str) -> (r: bool)
    ensures
        r == ends_with_slash(s@),
{
    let n = s.unicode_len();
    n > 0 && s.get_char(n - 1) == '/'
}

/// Whether the string holds a `/`.
pub fn contains_slash(s: &str) -> (r: bool)
    ensures
        r == has_slash(s@),
{
    let n = s.unicode_len();
    let mut i: usize = 0;
    while i < n
        invariant
            n == s@.len(),
            i <= n,
            forall|k: int| 0 <= k < i ==> s@[k] != '/',
        decreases n - i,
    {
        if s.get_char(i) == '/' {
            return true;
        }
        i = i + 1;
    }
    false
}

/// The part of a relative path before its first `/`.
pub fn first_path_segment(s: &str) -> (r: String)
    ensures
        r@ == first_segment(s@),
{
    let n = s.unicode_len();
    let mut i: usize = 0;
    proof {
        assert(s@.subrange(0, n as int) =~= s@);
    }
    while i < n && s.get_char(i) != '/'
        invariant
            n == s@.len(),
            i <= n,
            slash_index(s@) == i + slash_index(s@.subrange(i as int, n as int)),
        decreases n - i,
    {
        assert(s@.subrange(i as int, n as int).drop_first() =~= s@.subrange(i + 1, n as int));
        i = i + 1;
    }
    String::from_str(s.substring_char(0, i))
}

} // verus!
