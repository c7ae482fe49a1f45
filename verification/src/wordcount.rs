//! Word counting over lines of text: each line contributes one more word
//! than it has space characters (splitting a line at every single space, an
//! empty line counts as one empty word).

use vstd::prelude::*;

verus! {

/// How many space characters a line holds.
pub open spec fn space_count(s: Seq<char>) -> nat
    decreases s.len(),
{
    if s.len() == 0 {
        0
    } else {
        space_count(s.drop_last()) + if s.last() == ' ' {
            1nat
        } else {
            0nat
        }
    }
}

/// The words of one line when it is split at every single space: one more
/// than the spaces, so the empty line counts one (empty) word.
pub open spec fn line_word_count(s: Seq<char>) -> nat {
    space_count(s) + 1
}

/// The views of a sequence of lines.
pub open spec fn line_views(lines: Seq<String>) -> Seq<Seq<char>> {
    lines.map_values(|s: String| s@)
}

/// The words of all lines together.
pub open spec fn total_word_count(lines: Seq<Seq<char>>) -> nat
    decreases lines.len(),
{
    if lines.len() == 0 {
        0
    } else {
        total_word_count(lines.drop_last()) + line_word_count(lines.last())
    }
}

/// Every prefix of a line sequence counts at most as many words as the
/// whole.
proof fn lemma_total_prefix(lines: Seq<Seq<char>>, i: int)
    requires
        0 <= i <= lines.len(),
    ensures
        total_word_count(lines.subrange(0, i)) <= total_word_count(lines),
    decreases lines.len(),
{
    if i == lines.len() {
        assert(lines.subrange(0, i) =~= lines);
    } else {
        assert(lines.drop_last().subrange(0, i) =~= lines.subrange(0, i));
        lemma_total_prefix(lines.drop_last(), i);
    }
}

/// Counts the words of the given lines: each line split at every single
/// space, every piece counted, empty pieces included.
pub fn words_in_buf_reader(lines: &Vec<String>) -> (count: usize)
    requires
        total_word_count(line_views(lines@)) <= usize::MAX,
    ensures
        count == total_word_count(line_views(lines@)),
{
    let ghost all = line_views(lines@);
    let mut count: usize = 0;
    let mut i: usize = 0;
    while i < lines.len()
        invariant
            0 <= i <= lines.len(),
            all == line_views(lines@),
            total_word_count(all) <= usize::MAX,
            count == total_word_count(all.subrange(0, i as int)),
        decreases lines.len() - i,
    {
        let line = lines[i].as_str();
        let n = line.unicode_len();
        let mut spaces: usize = 0;
        let mut j: usize = 0;
        while j < n
            invariant
                0 <= j <= n,
                n == line@.len(),
                spaces <= j,
                spaces == space_count(line@.subrange(0, j as int)),
            decreases n - j,
        {
            let c = line.get_char(j);
            proof {
                let pre = line@.subrange(0, j as int);
                let post = line@.subrange(0, j as int + 1);
                assert(post.drop_last() =~= pre);
                assert(post.last() == line@[j as int]);
            }
            if c == ' ' {
                spaces = spaces + 1;
            }
            j = j + 1;
        }
        proof {
            assert(line@.subrange(0, n as int) =~= line@);
            let pre = all.subrange(0, i as int);
            let post = all.subrange(0, i as int + 1);
            assert(post.drop_last() =~= pre);
            assert(post.last() == all[i as int]);
            assert(all[i as int] == lines@[i as int]@);
            lemma_total_prefix(all, i as int + 1);
        }
        count = count + spaces + 1;
        i = i + 1;
    }
    proof {
        assert(all.subrange(0, lines@.len() as int) =~= all);
    }
    count
}

} // verus!
