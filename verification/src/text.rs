//! Verified text primitives used by the rule engine: substring search and
//! global substring replacement over the character sequences of `&str` values.

use vstd::prelude::*;
use vstd::string::StrSliceExecFns;
use vstd::string::StringExecFns;

verus! {

/// The views of a sequence of strings, element by element.
pub open spec fn string_views(s: Seq<String>) -> Seq<Seq<char>> {
    s.map_values(|x: String| x@)
}

/// The needle `p` occurs in `s` starting at character position `i`.
pub open spec fn substring_at(s: Seq<char>, p: Seq<char>, i: int) -> bool {
    0 <= i && i + p.len() <= s.len() && s.subrange(i, i + p.len() as int) == p
}

/// The needle `p` occurs somewhere in `s` (any string contains the empty one).
pub open spec fn has_substring(s: Seq<char>, p: Seq<char>) -> bool {
    exists|i: int| substring_at(s, p, i)
}

/// Every occurrence of `old` in `s`, scanned left to right without overlap, is
/// replaced by `new`. An empty `old` is special-cased: the replacement is
/// prepended exactly once, rather than inserted at every position.
pub open spec fn replace_all(s: Seq<char>, old: Seq<char>, new: Seq<char>) -> Seq<char>
    decreases s.len(),
{
    if old.len() == 0 {
        new + s
    } else if s.len() < old.len() {
        s
    } else if s.subrange(0, old.len() as int) == old {
        new + replace_all(s.skip(old.len() as int), old, new)
    } else {
        seq![s[0]] + replace_all(s.skip(1), old, new)
    }
}

/// Compares the needle `p` against `s` at character position `i`.
fn match_at(s: &str, p: &str, i: usize) -> (r: bool)
    requires
        i + p@.len() <= s@.len(),
        s@.len() <= usize::MAX,
    ensures
        r == substring_at(s@, p@, i as int),
{
    let m = p.unicode_len();
    let mut j: usize = 0;
    while j < m
        invariant
            j <= m,
            m == p@.len(),
            i + m <= s@.len(),
            s@.len() <= usize::MAX,
            forall|k: int| 0 <= k < j ==> s@[i + k] == p@[k],
        decreases m - j,
    {
        if s.get_char(i + j) != p.get_char(j) {
            proof {
                assert(!substring_at(s@, p@, i as int)) by {
                    if s@.subrange(i as int, i + m as int) == p@ {
                        assert(s@.subrange(i as int, i + m as int)[j as int] == s@[i + j]);
                    }
                }
            }
            return false;
        }
        j += 1;
    }
    proof {
        assert(s@.subrange(i as int, i + m as int) =~= p@);
    }
    true
}

/// Whether two string slices hold the same character sequence.
pub fn str_eq(a: &str, b: &str) -> (r: bool)
    ensures
        r == (a@ == b@),
{
    let n = a.unicode_len();
    if n != b.unicode_len() {
        return false;
    }
    let mut i: usize = 0;
    while i < n
        invariant
            i <= n,
            n == a@.len(),
            n == b@.len(),
            forall|k: int| 0 <= k < i ==> a@[k] == b@[k],
        decreases n - i,
    {
        if a.get_char(i) != b.get_char(i) {
            proof {
                assert(a@[i as int] != b@[i as int]);
            }
            return false;
        }
        i += 1;
    }
    proof {
        assert(a@ =~= b@);
    }
    true
}

/// Whether `needle` occurs in `hay`, comparing character sequences.
pub fn str_contains(hay: &str, needle: &str) -> (r: bool)
    ensures
        r == has_substring(hay@, needle@),
{
    let n = hay.unicode_len();
    let m = needle.unicode_len();
    if m == 0 {
        proof {
            assert(hay@.subrange(0, 0) =~= needle@);
            assert(substring_at(hay@, needle@, 0));
        }
        return true;
    }
    if m > n {
        proof {
            assert(!has_substring(hay@, needle@)) by {
                if has_substring(hay@, needle@) {
                    let i = choose|i: int| substring_at(hay@, needle@, i);
                    assert(i + needle@.len() <= hay@.len());
                }
            }
        }
        return false;
    }
    let mut i: usize = 0;
    while i <= n - m
        invariant
            0 < m <= n,
            n == hay@.len(),
            m == needle@.len(),
            i <= n - m + 1,
            forall|k: int| 0 <= k < i ==> !substring_at(hay@, needle@, k),
        decreases n - m + 1 - i,
    {
        if match_at(hay, needle, i) {
            return true;
        }
        i += 1;
    }
    proof {
        assert(!has_substring(hay@, needle@)) by {
            if has_substring(hay@, needle@) {
                let k = choose|k: int| substring_at(hay@, needle@, k);
                assert(0 <= k < i);
            }
        }
    }
    false
}

/// Replaces every occurrence of `old` in `s` by `new`, scanning left to right
/// without overlap. With an empty `old`, prepends `new` exactly once.
pub fn str_replace(s: &str, old: &str, new: &str) -> (r: String)
    ensures
        r@ == replace_all(s@, old@, new@),
{
    let n = s.unicode_len();
    let m = old.unicode_len();
    let mut r = String::new();
    if m == 0 {
        r.append(new);
        r.append(s);
        proof {
            assert(r@ =~= replace_all(s@, old@, new@));
        }
        return r;
    }
    proof {
        assert(s@.skip(0) =~= s@);
        assert(r@ + replace_all(s@.skip(0), old@, new@) =~= replace_all(s@, old@, new@));
    }
    let mut i: usize = 0;
    while i < n
        invariant
            i <= n,
            n == s@.len(),
            m == old@.len(),
            m > 0,
            r@ + replace_all(s@.skip(i as int), old@, new@) == replace_all(s@, old@, new@),
        decreases n - i,
    {
        let ghost rest = s@.skip(i as int);
        if m <= n - i && match_at(s, old, i) {
            r.append(new);
            proof {
                assert(rest.len() >= m);
                assert(rest.subrange(0, m as int) =~= s@.subrange(i as int, i + m as int));
                assert(rest.subrange(0, m as int) == old@);
                assert(rest.skip(m as int) =~= s@.skip(i + m as int));
                assert(replace_all(rest, old@, new@) == new@ + replace_all(
                    s@.skip(i + m as int),
                    old@,
                    new@,
                ));
            }
            i += m;
        } else {
            let c = s.substring_char(i, i + 1);
            r.append(c);
            proof {
                assert(c@ =~= seq![s@[i as int]]);
                assert(rest[0] == s@[i as int]);
                assert(rest.skip(1) =~= s@.skip(i + 1));
                if rest.len() < m {
                    assert(replace_all(rest, old@, new@) == rest);
                    assert(replace_all(rest.skip(1), old@, new@) == rest.skip(1));
                    assert(rest =~= seq![rest[0]] + rest.skip(1));
                } else {
                    assert(i + m <= n);
                    assert(rest.subrange(0, m as int) =~= s@.subrange(i as int, i + m as int));
                    assert(rest.subrange(0, m as int) != old@);
                    assert(replace_all(rest, old@, new@) == seq![rest[0]] + replace_all(
                        rest.skip(1),
                        old@,
                        new@,
                    ));
                }
            }
            i += 1;
        }
    }
    proof {
        assert(s@.skip(n as int) =~= Seq::<char>::empty());
        assert(replace_all(s@.skip(n as int), old@, new@) == s@.skip(n as int));
        assert(r@ =~= r@ + s@.skip(n as int));
    }
    r
}

} // verus!
