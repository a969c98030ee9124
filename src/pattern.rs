use vstd::prelude::*;

verus! {

/// `part` occurs in `s` starting at position `i`.
pub open spec fn occurs_at(s: Seq<char>, part: Seq<char>, i: int) -> bool {
    0 <= i && i + part.len() <= s.len() && s.subrange(i, i + part.len()) == part
}

pub open spec fn has_prefix(s: Seq<char>, part: Seq<char>) -> bool {
    occurs_at(s, part, 0)
}

pub open spec fn has_suffix(s: Seq<char>, part: Seq<char>) -> bool {
    occurs_at(s, part, s.len() - part.len())
}

pub open spec fn has_infix(s: Seq<char>, part: Seq<char>) -> bool {
    exists|i: int| occurs_at(s, part, i)
}

/// A name against a pattern with at most one leading and one trailing `*`:
/// `*text*` asks for containment, `*text` for a suffix, `text*` for a prefix,
/// and a pattern without a star for equality.
pub open spec fn glob_matches(name: Seq<char>, pat: Seq<char>) -> bool {
    let n = pat.len() as int;
    let lead = n > 0 && pat[0] == '*';
    let trail = n > 0 && pat[n - 1] == '*';
    if lead && trail && n >= 2 {
        has_infix(name, pat.subrange(1, n - 1))
    } else if lead {
        has_suffix(name, pat.subrange(1, n))
    } else if trail {
        has_prefix(name, pat.subrange(0, n - 1))
    } else {
        name == pat
    }
}

/// Compares `part` with the characters of `s` from `start` on.
fn occurs_here(s: &str, s_len: usize, part: &str, part_len: usize, start: usize) -> (r: bool)
    requires
        s_len == s@.len(),
        part_len == part@.len(),
        start + part_len <= s_len,
    ensures
        r == occurs_at(s@, part@, start as int),
{
    let mut j: usize = 0;
    while j < part_len
        invariant
            s_len == s@.len(),
            part_len == part@.len(),
            start + part_len <= s_len,
            j <= part_len,
            forall|k: int| 0 <= k < j ==> s@[start + k] == part@[k],
        decreases part_len - j,
    {
        if s.get_char(start + j) != part.get_char(j) {
            assert(s@.subrange(start as int, start + part_len)[j as int] != part@[j as int]);
            return false;
        }
        j = j + 1;
    }
    assert(s@.subrange(start as int, start + part_len) =~= part@);
    true
}

/// Whether `name` matches `pattern` (see `glob_matches`).
pub fn name_matches(name: &str, pattern: &str) -> (r: bool)
    ensures
        r == glob_matches(name@, pattern@),
{
    let n = pattern.unicode_len();
    let name_len = name.unicode_len();
    let lead = n > 0 && pattern.get_char(0) == '*';
    let trail = n > 0 && pattern.get_char(n - 1) == '*';
    if lead && trail && n >= 2 {
        let part = pattern.substring_char(1, n - 1);
        let m = n - 2;
        if m > name_len {
            return false;
        }
        let last = name_len - m;
        let mut i: usize = 0;
        loop
            invariant
                name_len == name@.len(),
                m == part@.len(),
                n == pattern@.len(),
                n >= 2,
                pattern@[0] == '*',
                pattern@[n - 1] == '*',
                part@ == pattern@.subrange(1, n - 1),
                last == name_len - m,
                i <= last,
                forall|k: int| 0 <= k < i ==> !occurs_at(name@, part@, k),
            ensures
                forall|k: int| 0 <= k <= last ==> !occurs_at(name@, part@, k),
            decreases last - i,
        {
            if occurs_here(name, name_len, part, m, i) {
                assert(occurs_at(name@, part@, i as int));
                return true;
            }
            if i == last {
                break;
            }
            i = i + 1;
        }
        assert forall|k: int| !occurs_at(name@, part@, k) by {
            if 0 <= k && k <= last {
            }
        }
        false
    } else if lead {
        let part = pattern.substring_char(1, n);
        let m = n - 1;
        if m > name_len {
            false
        } else {
            occurs_here(name, name_len, part, m, name_len - m)
        }
    } else if trail {
        let part = pattern.substring_char(0, n - 1);
        let m = n - 1;
        if m > name_len {
            false
        } else {
            occurs_here(name, name_len, part, m, 0)
        }
    } else {
        if n != name_len {
            return false;
        }
        let r = occurs_here(name, name_len, pattern, n, 0);
        assert(name@.subrange(0, name_len as int) =~= name@);
        r
    }
}

/// Whether `a` and `b` hold the same characters.
pub fn text_equals(a: &str, b: &str) -> (r: bool)
    ensures
        r == (a@ == b@),
{
    let n = a.unicode_len();
    let m = b.unicode_len();
    if n != m {
        return false;
    }
    let r = occurs_here(a, n, b, m, 0);
    assert(a@.subrange(0, n as int) =~= a@);
    r
}

} // verus!
