//! Upward search for a marker file: from a starting directory toward the
//! filesystem root, the nearest ancestor holding a file of a given name wins.

use vstd::prelude::*;

use crate::strutil::{join, join_spec, lemma_parent_shorter, parent, parent_spec, str_eq};

verus! {

/// Relies on std::path::Path::exists: whether anything exists on disk at
/// this path right now. The outcome depends on the filesystem, so nothing
/// is promised of it.
#[verifier::external_body]
pub(crate) fn path_exists(p: &str) -> bool {
    std::path::Path::new(p).exists()
}

/// The candidate marker paths `dir/filename`, `parent(dir)/filename`, ...,
/// nearest directory first, up to and including the filesystem root.
pub open spec fn chain_candidates(filename: Seq<char>, dir: Seq<char>) -> Seq<Seq<char>>
    decreases dir.len(),
{
    seq![join_spec(dir, filename)] + (match parent_spec(dir) {
        Some(p) => {
            proof {
                lemma_parent_shorter(dir);
            }
            chain_candidates(filename, p)
        },
        None => Seq::<Seq<char>>::empty(),
    })
}

/// The nearest candidate that is a member of `present`, searching from `dir`
/// upward; `None` when no ancestor's candidate is in `present`.
pub open spec fn search_among_spec(
    filename: Seq<char>,
    dir: Seq<char>,
    present: Seq<Seq<char>>,
) -> Option<Seq<char>>
    decreases dir.len(),
{
    let c = join_spec(dir, filename);
    if present.contains(c) {
        Some(c)
    } else {
        match parent_spec(dir) {
            Some(p) => {
                proof {
                    lemma_parent_shorter(dir);
                }
                search_among_spec(filename, p, present)
            },
            None => None,
        }
    }
}

/// Walks from `start` toward the filesystem root and returns the path of the
/// first (nearest) `filename` found on disk; `None` when no ancestor, the
/// root included, holds one. Which probe succeeds depends on the disk, so the
/// contract only pins the shape of a successful result; the selection rule
/// itself is verified on `search_up_among`.
pub fn search_up(filename: &str, start: &str) -> (r: Option<String>)
    ensures
        r matches Some(p) ==> chain_candidates(filename@, start@).contains(p@),
{
    let mut dir = String::from_str(start);
    loop
        invariant
            forall|i: int|
                0 <= i < chain_candidates(filename@, dir@).len() ==> chain_candidates(
                    filename@,
                    start@,
                ).contains(chain_candidates(filename@, dir@)[i]),
        decreases dir@.len(),
    {
        let file = join(dir.as_str(), filename);
        if path_exists(file.as_str()) {
            proof {
                assert(chain_candidates(filename@, dir@)[0] == file@);
            }
            return Some(file);
        }
        match parent(dir.as_str()) {
            Some(p) => {
                proof {
                    lemma_parent_shorter(dir@);
                    assert(parent_spec(dir@) == Some(p@));
                    assert forall|i: int|
                        0 <= i < chain_candidates(filename@, p@).len() implies chain_candidates(
                        filename@,
                        start@,
                    ).contains(chain_candidates(filename@, p@)[i]) by {
                        assert(chain_candidates(filename@, dir@)[i + 1] == chain_candidates(
                            filename@,
                            p@,
                        )[i]);
                    }
                }
                dir = p;
            },
            None => {
                return None;
            },
        }
    }
}

/// Membership of `x` in a list of strings.
fn contains_str(v: &Vec<String>, x: &str) -> (r: bool)
    ensures
        r == v.deep_view().contains(x@),
{
    let n = v.len();
    let mut i: usize = 0;
    while i < n
        invariant
            i <= n,
            n == v@.len(),
            forall|j: int| 0 <= j < i ==> v.deep_view()[j] != x@,
        decreases n - i,
    {
        if str_eq(v[i].as_str(), x) {
            proof {
                assert(v.deep_view()[i as int] == x@);
            }
            return true;
        }
        i = i + 1;
    }
    proof {
        if v.deep_view().contains(x@) {
            let j = choose|j: int| 0 <= j < v.deep_view().len() && v.deep_view()[j] == x@;
            assert(v.deep_view()[j] != x@);
        }
    }
    false
}

/// The same upward search as `search_up`, with the set of files that exist
/// given outright as `present`: the nearest ancestor whose candidate path is
/// listed there wins. This form carries the full selection contract.
pub fn search_up_among(filename: &str, start: &str, present: &Vec<String>) -> (r: Option<String>)
    ensures
        r.deep_view() == search_among_spec(filename@, start@, present.deep_view()),
{
    let mut dir = String::from_str(start);
    loop
        invariant
            search_among_spec(filename@, dir@, present.deep_view()) == search_among_spec(
                filename@,
                start@,
                present.deep_view(),
            ),
        decreases dir@.len(),
    {
        let file = join(dir.as_str(), filename);
        if contains_str(present, file.as_str()) {
            return Some(file);
        }
        match parent(dir.as_str()) {
            Some(p) => {
                proof {
                    lemma_parent_shorter(dir@);
                    assert(parent_spec(dir@) == Some(p@));
                }
                dir = p;
            },
            None => {
                return None;
            },
        }
    }
}

/// No candidate present at any ancestor: the search comes back empty.
pub proof fn lemma_search_up_none(filename: Seq<char>, start: Seq<char>, present: Seq<Seq<char>>)
    requires
        forall|i: int|
            0 <= i < chain_candidates(filename, start).len() ==> !present.contains(
                chain_candidates(filename, start)[i],
            ),
    ensures
        search_among_spec(filename, start, present) is None,
    decreases start.len(),
{
    assert(chain_candidates(filename, start)[0] == join_spec(start, filename));
    match parent_spec(start) {
        Some(p) => {
            lemma_parent_shorter(start);
            assert forall|i: int|
                0 <= i < chain_candidates(filename, p).len() implies !present.contains(
                chain_candidates(filename, p)[i],
            ) by {
                assert(chain_candidates(filename, start)[i + 1] == chain_candidates(
                    filename,
                    p,
                )[i]);
            }
            lemma_search_up_none(filename, p, present);
        },
        None => {},
    }
}

/// When some ancestor's candidate is present, the search returns the nearest
/// present candidate: one at or above index `i`, with every nearer candidate
/// absent.
pub proof fn lemma_search_up_nearest(
    filename: Seq<char>,
    start: Seq<char>,
    present: Seq<Seq<char>>,
    i: int,
)
    requires
        0 <= i < chain_candidates(filename, start).len(),
        present.contains(chain_candidates(filename, start)[i]),
    ensures
        exists|k: int|
            0 <= k <= i && search_among_spec(filename, start, present) == Some(
                chain_candidates(filename, start)[k],
            ) && present.contains(chain_candidates(filename, start)[k]) && (forall|m: int|
                0 <= m < k ==> !present.contains(chain_candidates(filename, start)[m])),
    decreases start.len(),
{
    let chain = chain_candidates(filename, start);
    let c = join_spec(start, filename);
    assert(chain[0] == c);
    if present.contains(c) {
        assert(0 <= 0 <= i && search_among_spec(filename, start, present) == Some(chain[0])
            && present.contains(chain[0]) && (forall|m: int|
            0 <= m < 0 ==> !present.contains(chain[m])));
    } else {
        match parent_spec(start) {
            Some(p) => {
                lemma_parent_shorter(start);
                assert forall|j: int|
                    0 <= j < chain_candidates(filename, p).len() implies chain_candidates(
                    filename,
                    p,
                )[j] == chain[j + 1] by {}
                assert(i >= 1);
                lemma_search_up_nearest(filename, p, present, i - 1);
                let k = choose|k: int|
                    0 <= k <= i - 1 && search_among_spec(filename, p, present) == Some(
                        chain_candidates(filename, p)[k],
                    ) && present.contains(chain_candidates(filename, p)[k]) && (forall|m: int|
                        0 <= m < k ==> !present.contains(chain_candidates(filename, p)[m]));
                assert(0 <= k + 1 <= i && search_among_spec(filename, start, present) == Some(
                    chain[k + 1],
                ) && present.contains(chain[k + 1]) && (forall|m: int|
                    0 <= m < k + 1 ==> !present.contains(chain[m])));
            },
            None => {
                assert(chain.len() == 1);
                assert(false);
            },
        }
    }
}

} // verus!
