//! Letter-count vectors: 26-slot tallies of letter occurrences, indexed by
//! the letter index, together with the mathematical counting function that
//! every tally is measured against.

use vstd::prelude::*;

use crate::letters::{char_to_index, lemma_letter_index_bijection, spec_char_index, spec_letter};

verus! {

/// A tally of letter occurrences: one slot per letter, in letter-index
/// order. Wide enough that no accumulation in this domain can overflow.
pub type LetterCounts = [usize; 26];

/// How many characters of `s` equal `c`.
pub open spec fn count_of(s: Seq<char>, c: char) -> nat
    decreases s.len(),
{
    if s.len() == 0 {
        0
    } else {
        count_of(s.drop_last(), c) + (if s.last() == c {
            1nat
        } else {
            0nat
        })
    }
}

/// How many of the first `k` characters of `s` equal `c`. Counting from the
/// front lets a concrete sequence be counted by plain unfolding.
pub open spec fn count_upto(s: Seq<char>, k: int, c: char) -> nat
    decreases k,
{
    if k <= 0 {
        0
    } else {
        count_upto(s, k - 1, c) + (if s[k - 1] == c {
            1nat
        } else {
            0nat
        })
    }
}

proof fn lemma_count_upto_drop_last(s: Seq<char>, k: int, c: char)
    requires
        0 <= k <= s.len() - 1,
    ensures
        count_upto(s.drop_last(), k, c) == count_upto(s, k, c),
    decreases k,
{
    if k > 0 {
        lemma_count_upto_drop_last(s, k - 1, c);
    }
}

pub proof fn lemma_count_of_is_count_upto(s: Seq<char>, c: char)
    ensures
        count_of(s, c) == count_upto(s, s.len() as int, c),
    decreases s.len(),
{
    if s.len() > 0 {
        lemma_count_of_is_count_upto(s.drop_last(), c);
        lemma_count_upto_drop_last(s, s.len() - 1, c);
    }
}

pub proof fn lemma_count_of_single(x: char, c: char)
    ensures
        count_of(seq![x], c) == (if x == c {
            1nat
        } else {
            0nat
        }),
{
    assert(seq![x].len() == 1);
    assert(seq![x].last() == x);
    assert(seq![x].drop_last() =~= Seq::<char>::empty());
    assert(count_of(Seq::<char>::empty(), c) == 0);
}

pub proof fn lemma_count_of_le_len(s: Seq<char>, c: char)
    ensures
        count_of(s, c) <= s.len(),
    decreases s.len(),
{
    if s.len() > 0 {
        lemma_count_of_le_len(s.drop_last(), c);
    }
}

pub proof fn lemma_count_of_concat(a: Seq<char>, b: Seq<char>, c: char)
    ensures
        count_of(a + b, c) == count_of(a, c) + count_of(b, c),
    decreases b.len(),
{
    if b.len() == 0 {
        assert(a + b =~= a);
    } else {
        assert((a + b).drop_last() =~= a + b.drop_last());
        lemma_count_of_concat(a, b.drop_last(), c);
    }
}

/// Tallies the lowercase letters of `s` into a fresh count vector.
/// Characters outside 'a'..'z' contribute to no slot.
pub fn tally_letters(s: &str) -> (r: LetterCounts)
    ensures
        forall|i: int| 0 <= i < 26 ==> r@[i] == count_of(s@, spec_letter(i)),
{
    let n = s.unicode_len();
    let mut counts: LetterCounts = [0; 26];
    assert(s@.subrange(0, 0) =~= Seq::<char>::empty());
    let mut k: usize = 0;
    while k < n
        invariant
            k <= n,
            n == s@.len(),
            forall|i: int| 0 <= i < 26 ==> #[trigger] counts@[i] <= k,
            forall|i: int|
                0 <= i < 26 ==> counts@[i] == count_of(
                    s@.subrange(0, k as int),
                    #[trigger] spec_letter(i),
                ),
        decreases n - k,
    {
        let ch = s.get_char(k);
        proof {
            lemma_letter_index_bijection();
            assert(s@.subrange(0, k + 1).drop_last() =~= s@.subrange(0, k as int));
            assert(s@.subrange(0, k + 1).last() == ch);
        }
        match char_to_index(&ch) {
            Some(i) => {
                counts[i] = counts[i] + 1;
            },
            None => {},
        }
        k = k + 1;
    }
    assert(s@.subrange(0, n as int) =~= s@);
    counts
}

/// Sums two letter tallies element-wise.
pub fn add_letter_counts(counts1: &LetterCounts, counts2: &LetterCounts) -> (r: LetterCounts)
    requires
        forall|i: int| 0 <= i < 26 ==> counts1@[i] + counts2@[i] <= usize::MAX,
    ensures
        forall|i: int| 0 <= i < 26 ==> r@[i] == counts1@[i] + counts2@[i],
{
    let mut result: LetterCounts = [0; 26];
    let mut k: usize = 0;
    while k < 26
        invariant
            k <= 26,
            forall|i: int| 0 <= i < 26 ==> counts1@[i] + counts2@[i] <= usize::MAX,
            forall|i: int| 0 <= i < k ==> result@[i] == counts1@[i] + counts2@[i],
        decreases 26 - k,
    {
        result[k] = counts1[k] + counts2[k];
        k = k + 1;
    }
    result
}

} // verus!
