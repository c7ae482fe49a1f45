//! Pattern search over lines of text: which lines contain a pattern as a
//! contiguous run of characters, and in the order they appear.

use vstd::prelude::*;
use crate::wordcount::line_views;

verus! {

/// The pattern occurs in the haystack starting at position `i`.
pub open spec fn occurs_at(hay: Seq<char>, pat: Seq<char>, i: int) -> bool {
    &&& 0 <= i
    &&& i + pat.len() <= hay.len()
    &&& hay.subrange(i, i + pat.len() as int) == pat
}

/// The pattern occurs somewhere in the haystack. The empty pattern occurs
/// in every line.
pub open spec fn contains_pattern(hay: Seq<char>, pat: Seq<char>) -> bool {
    exists|i: int| occurs_at(hay, pat, i)
}

/// The lines that contain the pattern, in their original order.
pub open spec fn matching_lines(lines: Seq<Seq<char>>, pat: Seq<char>) -> Seq<Seq<char>>
    decreases lines.len(),
{
    if lines.len() == 0 {
        Seq::empty()
    } else {
        matching_lines(lines.drop_last(), pat) + if contains_pattern(lines.last(), pat) {
            seq![lines.last()]
        } else {
            Seq::empty()
        }
    }
}

/// Whether the pattern occurs in the line as a contiguous run of
/// characters.
pub fn line_contains(line: &str, pattern: &str) -> (found: bool)
    ensures
        found == contains_pattern(line@, pattern@),
{
    let n = line.unicode_len();
    let m = pattern.unicode_len();
    if m == 0 {
        proof {
            assert(line@.subrange(0, 0) =~= pattern@);
            assert(occurs_at(line@, pattern@, 0));
        }
        return true;
    }
    if m > n {
        proof {
            assert(forall|i: int| !occurs_at(line@, pattern@, i));
        }
        return false;
    }
    let mut i: usize = 0;
    while i <= n - m
        invariant
            n == line@.len(),
            m == pattern@.len(),
            0 < m <= n,
            0 <= i <= n - m + 1,
            forall|k: int| 0 <= k < i ==> !occurs_at(line@, pattern@, k),
        decreases n - i,
    {
        let mut j: usize = 0;
        let mut mismatch = false;
        while j < m
            invariant
                n == line@.len(),
                m == pattern@.len(),
                0 < m <= n,
                0 <= i <= n - m,
                0 <= j <= m,
                !mismatch ==> forall|t: int| 0 <= t < j ==> line@[i + t] == pattern@[t],
                mismatch ==> !occurs_at(line@, pattern@, i as int),
            decreases m - j,
        {
            let a = line.get_char(i + j);
            let b = pattern.get_char(j);
            if a == b {
                j = j + 1;
            } else {
                proof {
                    assert(!occurs_at(line@, pattern@, i as int)) by {
                        if line@.subrange(i as int, i + m as int) == pattern@ {
                            assert(line@.subrange(i as int, i + m as int)[j as int] == line@[i
                                + j]);
                        }
                    }
                }
                mismatch = true;
                j = m;
            }
        }
        if !mismatch {
            proof {
                assert(line@.subrange(i as int, i + m as int) =~= pattern@);
                assert(occurs_at(line@, pattern@, i as int));
            }
            return true;
        }
        i = i + 1;
    }
    proof {
        assert(forall|k: int| !occurs_at(line@, pattern@, k));
    }
    false
}

/// The lines that contain the pattern, in their original order — the
/// search half of displaying every line of a file that holds a pattern.
pub fn find_matching_lines(lines: &Vec<String>, pattern: &str) -> (found: Vec<String>)
    ensures
        line_views(found@) == matching_lines(line_views(lines@), pattern@),
{
    let ghost all = line_views(lines@);
    let mut found: Vec<String> = Vec::new();
    proof {
        assert(line_views(found@) =~= matching_lines(all.subrange(0, 0), pattern@));
    }
    let mut i: usize = 0;
    while i < lines.len()
        invariant
            0 <= i <= lines.len(),
            all == line_views(lines@),
            line_views(found@) == matching_lines(all.subrange(0, i as int), pattern@),
        decreases lines.len() - i,
    {
        let ghost pre = all.subrange(0, i as int);
        let ghost post = all.subrange(0, i as int + 1);
        proof {
            assert(post.drop_last() =~= pre);
            assert(post.last() == all[i as int]);
            assert(all[i as int] == lines@[i as int]@);
        }
        if line_contains(lines[i].as_str(), pattern) {
            let ghost old_found = found@;
            found.push(String::from_str(lines[i].as_str()));
            proof {
                assert(line_views(found@) =~= line_views(old_found).push(lines@[i as int]@));
                assert(line_views(found@) =~= matching_lines(post, pattern@));
            }
        } else {
            proof {
                assert(matching_lines(post, pattern@) =~= matching_lines(pre, pattern@));
            }
        }
        i = i + 1;
    }
    proof {
        assert(all.subrange(0, lines@.len() as int) =~= all);
    }
    found
}

} // verus!
