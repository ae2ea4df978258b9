//! Textual path helpers.
//!
//! Paths are modeled as plain strings. Template substitution of the
//! `$ORIGIN` token and parent-directory computation are purely textual:
//! no path normalization is performed and `/` is the only separator
//! recognized.

use vstd::prelude::*;

verus! {

/// The characters of the `$ORIGIN` template token.
pub open spec fn origin_token() -> Seq<char> {
    seq!['$', 'O', 'R', 'I', 'G', 'I', 'N']
}

/// `s` carries the `$ORIGIN` token at its front.
pub open spec fn starts_with_token(s: Seq<char>) -> bool {
    s.len() >= 7 && s.subrange(0, 7) == origin_token()
}

/// Literal, left-to-right substitution of every occurrence of `$ORIGIN`
/// in `s` by `origin`. Substitution is textual: the result is not
/// simplified in any way.
pub open spec fn replace_origin(s: Seq<char>, origin: Seq<char>) -> Seq<char>
    decreases s.len(),
{
    if s.len() == 0 {
        Seq::empty()
    } else if starts_with_token(s) {
        origin + replace_origin(s.skip(7), origin)
    } else {
        seq![s[0]] + replace_origin(s.skip(1), origin)
    }
}

/// The index of the last `/` in `s`, if any.
pub open spec fn last_separator(s: Seq<char>) -> Option<int>
    decreases s.len(),
{
    if s.len() == 0 {
        None
    } else if s[s.len() - 1] == '/' {
        Some(s.len() - 1)
    } else {
        last_separator(s.take(s.len() - 1))
    }
}

/// `s` with every trailing `/` removed.
pub open spec fn strip_trailing_separators(s: Seq<char>) -> Seq<char>
    decreases s.len(),
{
    if s.len() > 0 && s[s.len() - 1] == '/' {
        strip_trailing_separators(s.take(s.len() - 1))
    } else {
        s
    }
}

/// The parent directory of the path `s`: the text before its last
/// component. Trailing separators are ignored; the parent of a root-level
/// component is `/`; a lone relative component has the empty path as
/// parent; the root itself and the empty path have none. The computation
/// is textual: dot components are not interpreted.
pub open spec fn parent_of(s: Seq<char>) -> Option<Seq<char>> {
    let t = strip_trailing_separators(s);
    if t.len() == 0 {
        None
    } else {
        match last_separator(t) {
            None => Some(Seq::empty()),
            Some(k) => {
                let p = strip_trailing_separators(t.take(k));
                if p.len() == 0 {
                    Some(seq!['/'])
                } else {
                    Some(p)
                }
            },
        }
    }
}

/// With every character from `e` on a `/` and the one before `e` (if any)
/// not a `/`, stripping the trailing separators of `s` keeps exactly its
/// first `e` characters.
proof fn lemma_strip_at(s: Seq<char>, e: int)
    requires
        0 <= e <= s.len(),
        forall|m: int| e <= m < s.len() ==> s[m] == '/',
        e > 0 ==> s[e - 1] != '/',
    ensures
        strip_trailing_separators(s) == s.take(e),
    decreases s.len(),
{
    if s.len() == e {
        assert(s.take(e) =~= s);
    } else {
        lemma_strip_at(s.take(s.len() - 1), e);
        assert(s.take(s.len() - 1).take(e) =~= s.take(e));
    }
}

/// The last separator of `s`, when present, lies inside `s` and every
/// later character differs from `/`.
pub proof fn lemma_last_separator_bounds(s: Seq<char>)
    ensures
        last_separator(s) matches Some(k) ==> 0 <= k < s.len() && s[k] == '/',
        last_separator(s) matches Some(k) ==> forall|j: int| k < j < s.len() ==> s[j] != '/',
        last_separator(s) is None ==> forall|j: int| 0 <= j < s.len() ==> s[j] != '/',
    decreases s.len(),
{
    if s.len() > 0 && s[s.len() - 1] != '/' {
        lemma_last_separator_bounds(s.take(s.len() - 1));
        assert forall|j: int| 0 <= j < s.len() - 1 implies s.take(s.len() - 1)[j] == s[j] by {}
    }
}

/// Replaces every occurrence of `$ORIGIN` in `s` with `origin`.
pub fn replace_origin_str(s: &str, origin: &str) -> (r: String)
    ensures
        r@ == replace_origin(s@, origin@),
{
    let n: usize = s.unicode_len();
    let mut r: String = String::new();
    let mut i: usize = 0;
    proof {
        assert(s@.skip(0) =~= s@);
        assert(r@ + replace_origin(s@, origin@) =~= replace_origin(s@, origin@));
    }
    while i < n
        invariant
            n == s@.len(),
            i <= n,
            replace_origin(s@, origin@) == r@ + replace_origin(s@.skip(i as int), origin@),
        decreases n - i,
    {
        let ghost prev = r@;
        let ghost rest = s@.skip(i as int);
        if token_at(s, i, n) {
            r.append(origin);
            proof {
                assert(rest.len() >= 7);
            }
            i = i + 7;
            proof {
                assert(rest.skip(7) =~= s@.skip(i as int));
                assert(replace_origin(rest, origin@) == origin@ + replace_origin(
                    s@.skip(i as int),
                    origin@,
                ));
                assert(r@ + replace_origin(s@.skip(i as int), origin@) =~= prev + replace_origin(
                    rest,
                    origin@,
                ));
            }
        } else {
            let piece = s.substring_char(i, i + 1);
            r.append(piece);
            i = i + 1;
            proof {
                assert(rest.skip(1) =~= s@.skip(i as int));
                assert(piece@ =~= seq![rest[0]]);
                assert(replace_origin(rest, origin@) == seq![rest[0]] + replace_origin(
                    s@.skip(i as int),
                    origin@,
                ));
                assert(r@ + replace_origin(s@.skip(i as int), origin@) =~= prev + replace_origin(
                    rest,
                    origin@,
                ));
            }
        }
    }
    proof {
        assert(s@.skip(n as int) =~= Seq::<char>::empty());
        assert(r@ =~= replace_origin(s@, origin@));
    }
    r
}

/// The `$ORIGIN` token stands in `s` at character position `i`.
fn token_at(s: &str, i: usize, n: usize) -> (r: bool)
    requires
        n == s@.len(),
        i < n,
    ensures
        r == starts_with_token(s@.skip(i as int)),
{
    if n - i < 7 {
        proof {
            assert(s@.skip(i as int).len() < 7);
        }
        return false;
    }
    let r = s.get_char(i) == '$' && s.get_char(i + 1) == 'O' && s.get_char(i + 2) == 'R'
        && s.get_char(i + 3) == 'I' && s.get_char(i + 4) == 'G' && s.get_char(i + 5) == 'I'
        && s.get_char(i + 6) == 'N';
    proof {
        let rest = s@.skip(i as int);
        assert forall|j: int| 0 <= j < 7 implies rest.subrange(0, 7)[j] == s@[i + j] by {}
        if r {
            assert(rest.subrange(0, 7) =~= origin_token());
        } else {
            assert(rest.subrange(0, 7) != origin_token()) by {
                if rest.subrange(0, 7) == origin_token() {
                    assert(s@[i as int] == origin_token()[0]);
                    assert(s@[i + 1] == origin_token()[1]);
                    assert(s@[i + 2] == origin_token()[2]);
                    assert(s@[i + 3] == origin_token()[3]);
                    assert(s@[i + 4] == origin_token()[4]);
                    assert(s@[i + 5] == origin_token()[5]);
                    assert(s@[i + 6] == origin_token()[6]);
                }
            }
        }
    }
    r
}

/// The parent directory of `s`; `None` for the root or the empty path.
#[verifier::loop_isolation(false)]
pub fn parent_of_str(s: &str) -> (r: Option<String>)
    ensures
        r is Some <==> parent_of(s@) is Some,
        r matches Some(p) ==> parent_of(s@) matches Some(q) && p@ == q,
{
    let n: usize = s.unicode_len();
    let mut e: usize = n;
    while e > 0 && s.get_char(e - 1) == '/'
        invariant
            n == s@.len(),
            e <= n,
            forall|m: int| e <= m < n ==> s@[m] == '/',
        decreases e,
    {
        e = e - 1;
    }
    proof {
        lemma_strip_at(s@, e as int);
    }
    let ghost t = strip_trailing_separators(s@);
    if e == 0 {
        proof {
            assert(t.len() == 0);
        }
        return None;
    }
    let mut j: usize = e;
    while j > 0
        invariant
            n == s@.len(),
            j <= e <= n,
            t == s@.take(e as int),
            forall|m: int| j <= m < e ==> s@[m] != '/',
        decreases j,
    {
        if s.get_char(j - 1) == '/' {
            proof {
                lemma_last_separator_bounds(t);
                assert(last_separator(t) is Some) by {
                    if last_separator(t) is None {
                        assert(t[j - 1] != '/');
                    }
                }
                let k = last_separator(t).unwrap();
                assert(k == j - 1) by {
                    if k < j - 1 {
                        assert(t[j - 1] != '/');
                    }
                    if k > j - 1 {
                        assert(t[k] != '/');
                    }
                }
                assert(t.take(j - 1) =~= s@.take(j - 1));
            }
            let mut m: usize = j - 1;
            while m > 0 && s.get_char(m - 1) == '/'
                invariant
                    n == s@.len(),
                    m <= j - 1 <= n,
                    forall|q: int| m <= q < j - 1 ==> s@[q] == '/',
                decreases m,
            {
                m = m - 1;
            }
            proof {
                lemma_strip_at(s@.take(j - 1), m as int);
                assert(s@.take(j - 1).take(m as int) =~= s@.take(m as int));
            }
            if m == 0 {
                let root = slash_string();
                proof {
                    assert(root@ =~= seq!['/']);
                }
                return Some(root);
            }
            let p = s.substring_char(0, m);
            proof {
                assert(p@ =~= s@.take(m as int));
            }
            return Some(String::from_str(p));
        }
        j = j - 1;
    }
    proof {
        lemma_last_separator_bounds(t);
        assert(last_separator(t) is None) by {
            if last_separator(t) is Some {
                let k = last_separator(t).unwrap();
                assert(t[k] != '/');
            }
        }
    }
    let empty = String::new();
    proof {
        assert(empty@ =~= Seq::<char>::empty());
    }
    Some(empty)
}

/// Clones a vector of strings, character for character.
pub fn clone_strings(v: &Vec<String>) -> (r: Vec<String>)
    ensures
        r@.len() == v@.len(),
        forall|i: int| 0 <= i < v@.len() ==> r@[i]@ == v@[i]@,
{
    let mut r: Vec<String> = Vec::new();
    let mut i: usize = 0;
    while i < v.len()
        invariant
            i <= v@.len(),
            r@.len() == i,
            forall|j: int| 0 <= j < i ==> r@[j]@ == v@[j]@,
        decreases v@.len() - i,
    {
        r.push(v[i].clone());
        i = i + 1;
    }
    r
}

/// A string holding the single separator character.
fn slash_string() -> (r: String)
    ensures
        r@ == seq!['/'],
{
    proof {
        reveal_strlit("/");
        assert("/"@ =~= seq!['/']);
    }
    String::from_str("/")
}

} // verus!
