//! Small verified helpers on strings: equality, prefix stripping,
//! whitespace trimming, and '/'-separated path joining and parents.

use vstd::prelude::*;

verus! {

/// Index of the last `'/'` in `s`, or `-1` if there is none.
pub open spec fn last_slash(s: Seq<char>) -> int
    decreases s.len(),
{
    if s.len() == 0 {
        -1
    } else if s[s.len() - 1] == '/' {
        s.len() - 1
    } else {
        last_slash(s.drop_last())
    }
}

pub proof fn lemma_last_slash(s: Seq<char>)
    ensures
        -1 <= last_slash(s) < s.len(),
        last_slash(s) >= 0 ==> s[last_slash(s)] == '/',
        forall|j: int| last_slash(s) < j < s.len() ==> s[j] != '/',
    decreases s.len(),
{
    if s.len() == 0 {
    } else if s[s.len() - 1] == '/' {
    } else {
        lemma_last_slash(s.drop_last());
        assert forall|j: int| last_slash(s) < j < s.len() implies s[j] != '/' by {
            if j < s.len() - 1 {
                assert(s.drop_last()[j] == s[j]);
            }
        }
    }
}

/// The path one component above `s`, where components are separated by `'/'`:
/// `None` for a path with no separator and for the filesystem root itself.
pub open spec fn parent_spec(s: Seq<char>) -> Option<Seq<char>> {
    let i = last_slash(s);
    if i < 0 {
        None
    } else if i == 0 {
        if s.len() == 1 {
            None
        } else {
            Some(seq!['/'])
        }
    } else {
        Some(s.subrange(0, i))
    }
}

pub proof fn lemma_parent_shorter(s: Seq<char>)
    ensures
        parent_spec(s) matches Some(p) ==> p.len() < s.len(),
{
    lemma_last_slash(s);
}

/// `dir` and `file` joined with a single `'/'` between them.
pub open spec fn join_spec(dir: Seq<char>, file: Seq<char>) -> Seq<char> {
    if dir.len() > 0 && dir[dir.len() - 1] == '/' {
        dir + file
    } else {
        dir + seq!['/'] + file
    }
}

pub fn join(dir: &str, file: &str) -> (r: String)
    ensures
        r@ == join_spec(dir@, file@),
{
    let n = dir.unicode_len();
    let mut s = String::from_str(dir);
    if n == 0 || dir.get_char(n - 1) != '/' {
        s.append("/");
        proof {
            reveal_strlit("/");
            assert(s@ =~= dir@ + seq!['/']);
        }
    }
    s.append(file);
    proof {
        assert(s@ =~= join_spec(dir@, file@));
    }
    s
}

/// Locates the last `'/'` of `s`, scanning from the end.
fn find_last_slash(s: &str) -> (r: Option<usize>)
    ensures
        r matches Some(i) ==> i == last_slash(s@),
        r is None ==> last_slash(s@) == -1,
{
    let n = s.unicode_len();
    let mut i: usize = n;
    while i > 0
        invariant
            i <= n,
            n == s@.len(),
            forall|j: int| i <= j < n ==> s@[j] != '/',
        decreases i,
    {
        if s.get_char(i - 1) == '/' {
            proof {
                lemma_last_slash(s@);
                let l = last_slash(s@);
                assert(s@[i - 1] == '/');
                if l < i - 1 {
                    assert(s@[i - 1] != '/');
                }
                if l > i - 1 {
                    assert(s@[l] != '/');
                }
            }
            return Some(i - 1);
        }
        i = i - 1;
    }
    proof {
        lemma_last_slash(s@);
        let l = last_slash(s@);
        if l >= 0 {
            assert(s@[l] != '/');
        }
    }
    None
}

pub fn parent(s: &str) -> (r: Option<String>)
    ensures
        r.deep_view() == parent_spec(s@),
{
    match find_last_slash(s) {
        None => None,
        Some(i) => {
            if i == 0 {
                if s.unicode_len() == 1 {
                    None
                } else {
                    let root = String::from_str("/");
                    proof {
                        reveal_strlit("/");
                        assert(root@ =~= seq!['/']);
                    }
                    Some(root)
                }
            } else {
                proof {
                    lemma_last_slash(s@);
                }
                let p = s.substring_char(0, i);
                Some(p.to_owned())
            }
        },
    }
}

/// Character-by-character string equality.
pub fn str_eq(a: &str, b: &str) -> (r: bool)
    ensures
        r == (a@ == b@),
{
    let na = a.unicode_len();
    let nb = b.unicode_len();
    if na != nb {
        return false;
    }
    let mut i: usize = 0;
    while i < na
        invariant
            i <= na,
            na == a@.len(),
            na == b@.len(),
            forall|j: int| 0 <= j < i ==> a@[j] == b@[j],
        decreases na - i,
    {
        if a.get_char(i) != b.get_char(i) {
            return false;
        }
        i = i + 1;
    }
    proof {
        assert(a@ =~= b@);
    }
    true
}

pub open spec fn has_prefix(s: Seq<char>, p: Seq<char>) -> bool {
    p.len() <= s.len() && s.subrange(0, p.len() as int) == p
}

/// `s` with the leading `p` removed, when `s` starts with `p`.
pub fn strip_prefix(s: &str, p: &str) -> (r: Option<String>)
    ensures
        has_prefix(s@, p@) ==> (r matches Some(t) && t@ == s@.subrange(p@.len() as int, s@.len() as int)),
        !has_prefix(s@, p@) ==> r is None,
{
    let ns = s.unicode_len();
    let np = p.unicode_len();
    if np > ns {
        return None;
    }
    let mut i: usize = 0;
    while i < np
        invariant
            i <= np <= ns,
            np == p@.len(),
            ns == s@.len(),
            forall|j: int| 0 <= j < i ==> s@[j] == p@[j],
        decreases np - i,
    {
        if s.get_char(i) != p.get_char(i) {
            proof {
                assert(s@.subrange(0, np as int)[i as int] != p@[i as int]);
            }
            return None;
        }
        i = i + 1;
    }
    proof {
        assert(s@.subrange(0, np as int) =~= p@);
    }
    Some(s.substring_char(np, ns).to_owned())
}

/// `s` with a leading `~`, alone or before a `/`, replaced by `home`; any
/// other text, `~user` forms included, stays as it is.
pub open spec fn expand_tilde_spec(s: Seq<char>, home: Seq<char>) -> Seq<char> {
    if s == "~"@ {
        home
    } else if has_prefix(s, "~/"@) {
        home + s.skip(1)
    } else {
        s
    }
}

pub fn expand_tilde(s: &str, home: &str) -> (r: String)
    ensures
        r@ == expand_tilde_spec(s@, home@),
{
    if str_eq(s, "~") {
        return String::from_str(home);
    }
    match strip_prefix(s, "~/") {
        Some(rest) => {
            let mut r = String::from_str(home);
            r.append("/");
            r.append(rest.as_str());
            proof {
                reveal_strlit("~/");
                reveal_strlit("/");
                assert(s@.subrange(0, 2)[1] == s@[1]);
                assert(s@[1] == '/');
                assert(r@ =~= home@ + s@.skip(1));
            }
            r
        },
        None => String::from_str(s),
    }
}

/// The Unicode White_Space set, the characters char::is_whitespace accepts.
pub open spec fn is_space(c: char) -> bool {
    (c as u32) == 0x09 || (c as u32) == 0x0A || (c as u32) == 0x0B || (c as u32) == 0x0C || (
    c as u32) == 0x0D || (c as u32) == 0x20 || (c as u32) == 0x85 || (c as u32) == 0xA0 || (
    c as u32) == 0x1680 || (0x2000 <= (c as u32) && (c as u32) <= 0x200A) || (c as u32) == 0x2028
        || (c as u32) == 0x2029 || (c as u32) == 0x202F || (c as u32) == 0x205F || (c as u32)
        == 0x3000
}

/// `s` with leading and trailing whitespace removed.
pub open spec fn trim_spec(s: Seq<char>) -> Seq<char>
    decreases s.len(),
{
    if s.len() == 0 {
        s
    } else if is_space(s[0]) {
        trim_spec(s.drop_first())
    } else if is_space(s[s.len() - 1]) {
        trim_spec(s.drop_last())
    } else {
        s
    }
}

fn is_space_char(c: char) -> (r: bool)
    ensures
        r == is_space(c),
{
    let u = c as u32;
    u == 0x09 || u == 0x0A || u == 0x0B || u == 0x0C || u == 0x0D || u == 0x20 || u == 0x85 || u
        == 0xA0 || u == 0x1680 || (0x2000 <= u && u <= 0x200A) || u == 0x2028 || u == 0x2029 || u
        == 0x202F || u == 0x205F || u == 0x3000
}

pub fn trim(s: &str) -> (r: String)
    ensures
        r@ == trim_spec(s@),
{
    let n = s.unicode_len();
    proof {
        assert(s@.subrange(0, n as int) =~= s@);
    }
    let mut a: usize = 0;
    while a < n && is_space_char(s.get_char(a))
        invariant
            a <= n,
            n == s@.len(),
            trim_spec(s@.subrange(a as int, n as int)) == trim_spec(s@),
        decreases n - a,
    {
        proof {
            let t = s@.subrange(a as int, n as int);
            assert(t.drop_first() =~= s@.subrange(a + 1, n as int));
        }
        a = a + 1;
    }
    let mut b: usize = n;
    while b > a && is_space_char(s.get_char(b - 1))
        invariant
            a <= b <= n,
            n == s@.len(),
            trim_spec(s@.subrange(a as int, b as int)) == trim_spec(s@),
            a < n ==> !is_space(s@[a as int]),
        decreases b,
    {
        proof {
            let t = s@.subrange(a as int, b as int);
            assert(t.drop_last() =~= s@.subrange(a as int, b - 1));
        }
        b = b - 1;
    }
    let r = s.substring_char(a, b).to_owned();
    proof {
        let t = s@.subrange(a as int, b as int);
        if a == b {
            assert(t =~= Seq::<char>::empty());
        }
        assert(r@ == trim_spec(s@));
    }
    r
}

} // verus!
