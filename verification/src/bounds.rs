//! The bound calculator: a partial assignment is infeasible when a
//! committed count has already fallen below what the committed clauses
//! guarantee, or has climbed above what the still-unassigned letters could
//! possibly contribute. Both checks are sound over-approximations: a pruned
//! branch can hold no solution.

use vstd::prelude::*;

use crate::counts::{
    count_of, lemma_count_of_concat, lemma_count_of_single, LetterCounts,
};
use crate::classify::letter_in_number_words;
use crate::letters::{lemma_letter_index_bijection, spec_letter};
use crate::words::{
    lemma_number_word_cap, lemma_tally_one, lemma_tally_plural_marker, lemma_tally_space,
    spec_clause, spec_in_number_words,
};

verus! {

/// The most one future clause can add to the count of a letter other than
/// the clause's own: the letter's cap within a single number word, plus one
/// for the pluralizing "s" when the letter is 's' itself.
pub open spec fn spec_uncertain_max(i: int) -> nat {
    if i == 4 || i == 13 {
        4
    } else if i == 19 || i == 5 || i == 18 {
        3
    } else if i == 14 || i == 8 || i == 17 || i == 7 || i == 22 || i == 6 || i == 21 || i == 23 {
        2
    } else if i == 11 || i == 20 || i == 24 {
        1
    } else {
        0
    }
}

/// The letters of the word "one": the only letters a zero-or-one letter's
/// clause can add to the rest of the alphabet.
pub open spec fn spec_one_letter(i: int) -> bool {
    i == 4 || i == 13 || i == 14
}

/// The per-clause cap is sound: a clause for letter `j` with any count from
/// 1 to 99 contributes at most `spec_uncertain_max(i)` to any other letter
/// `i`.
pub proof fn lemma_clause_contribution(n: int, j: int, i: int)
    requires
        1 <= n <= 99,
        0 <= j < 26,
        0 <= i < 26,
        i != j,
    ensures
        count_of(spec_clause(n, j), spec_letter(i)) <= spec_uncertain_max(i),
{
    let c = spec_letter(i);
    lemma_letter_index_bijection();
    lemma_number_word_cap(n, i);
    lemma_tally_space(c);
    lemma_count_of_single(spec_letter(j), c);
    lemma_tally_plural_marker(c);
    lemma_count_of_concat(
        spec_number_word_part(n) + " "@ + seq![spec_letter(j)],
        spec_clause_tail(n),
        c,
    );
    lemma_count_of_concat(spec_number_word_part(n) + " "@, seq![spec_letter(j)], c);
    lemma_count_of_concat(spec_number_word_part(n), " "@, c);
}

/// The exact contribution of a zero-or-one letter's clause "one <letter j>"
/// to any other letter `i`: one for each of 'e', 'n' and 'o', nothing else.
pub proof fn lemma_one_clause_contribution(j: int, i: int)
    requires
        0 <= j < 26,
        0 <= i < 26,
        i != j,
    ensures
        count_of(spec_clause(1, j), spec_letter(i)) == (if spec_one_letter(i) {
            1nat
        } else {
            0nat
        }),
{
    let c = spec_letter(i);
    lemma_letter_index_bijection();
    lemma_tally_one(c);
    lemma_tally_space(c);
    lemma_count_of_single(spec_letter(j), c);
    lemma_count_of_concat(
        spec_number_word_part(1) + " "@ + seq![spec_letter(j)],
        spec_clause_tail(1),
        c,
    );
    lemma_count_of_concat(spec_number_word_part(1) + " "@, seq![spec_letter(j)], c);
    lemma_count_of_concat(spec_number_word_part(1), " "@, c);
    assert(count_of(Seq::<char>::empty(), c) == 0);
}

/// A letter that occurs in no number word (other than 's') is produced
/// exactly once by its own clause: as the named letter.
pub proof fn lemma_own_clause_contribution(n: int, i: int)
    requires
        1 <= n <= 99,
        0 <= i < 26,
        !spec_in_number_words(i),
        i != 18,
    ensures
        count_of(spec_clause(n, i), spec_letter(i)) == 1,
{
    let c = spec_letter(i);
    lemma_letter_index_bijection();
    lemma_number_word_cap(n, i);
    lemma_tally_space(c);
    lemma_count_of_single(spec_letter(i), c);
    lemma_tally_plural_marker(c);
    lemma_count_of_concat(
        spec_number_word_part(n) + " "@ + seq![spec_letter(i)],
        spec_clause_tail(n),
        c,
    );
    lemma_count_of_concat(spec_number_word_part(n) + " "@, seq![spec_letter(i)], c);
    lemma_count_of_concat(spec_number_word_part(n), " "@, c);
    assert(count_of(Seq::<char>::empty(), c) == 0);
}

/// The spelled-count part of a clause.
spec fn spec_number_word_part(n: int) -> Seq<char> {
    crate::words::spec_number_word(n)
}

/// The plural marker of a clause: empty for a count of one.
spec fn spec_clause_tail(n: int) -> Seq<char> {
    if n == 1 {
        Seq::<char>::empty()
    } else {
        "'s"@
    }
}

/// Some committed count lies strictly below its guaranteed minimum. Such a
/// deficit can never be repaired: the calculated counts only grow.
pub open spec fn spec_has_low(alphabet: Seq<Option<u8>>, calc: Seq<usize>) -> bool {
    exists|i: int| 0 <= i < 26 && (#[trigger] alphabet[i] matches Some(c) && (c as int) < calc[i])
}

/// Determines whether a partial (or complete) assignment holds a committed
/// count that is already guaranteed to be too low.
pub fn has_low_counts(static_counts: &[Option<u8>; 26], calculated: &LetterCounts) -> (r: bool)
    ensures
        r == spec_has_low(static_counts@, calculated@),
{
    let mut i: usize = 0;
    while i < 26
        invariant
            i <= 26,
            forall|k: int|
                0 <= k < i ==> !(#[trigger] static_counts@[k] matches Some(c) && (c as int)
                    < calculated@[k]),
        decreases 26 - i,
    {
        if let Some(c) = static_counts[i] {
            if (c as usize) < calculated[i] {
                return true;
            }
        }
        i = i + 1;
    }
    false
}

/// Some committed count of a number-word letter exceeds the most that the
/// still-unassigned letters could contribute on top of what is already
/// guaranteed.
pub open spec fn spec_excessive(
    alphabet: Seq<Option<u8>>,
    calc: Seq<usize>,
    uncertain_remaining: int,
    zero_or_one_remaining: int,
) -> bool {
    exists|i: int|
        0 <= i < 26 && spec_in_number_words(i) && (#[trigger] alphabet[i] matches Some(c) && (
        c as int) > calc[i] + spec_uncertain_max(i) * uncertain_remaining + (if spec_one_letter(i) {
            zero_or_one_remaining
        } else {
            0
        }))
}

/// The per-letter cap on what one still-unassigned uncertain letter's
/// clause can contribute.
pub fn uncertain_max_per_word(index: usize) -> (r: usize)
    requires
        index < 26,
    ensures
        r == spec_uncertain_max(index as int),
{
    match index {
        4 | 13 => 4,
        19 | 5 | 18 => 3,
        14 | 8 | 17 | 7 | 22 | 6 | 21 | 23 => 2,
        11 | 20 | 24 => 1,
        _ => 0,
    }
}

/// Determines whether a committed count can no longer be reached: it
/// exceeds its guaranteed minimum plus the cap per remaining uncertain
/// letter, plus — for the letters of the word "one" — one per remaining
/// zero-or-one letter.
pub fn contains_excessive_counts(
    new_static_alphabet: &[Option<u8>; 26],
    new_calculated_counts: &LetterCounts,
    uncertain_remaining: usize,
    zero_or_one_remaining: usize,
) -> (r: bool)
    requires
        forall|i: int|
            0 <= i < 26 ==> #[trigger] new_calculated_counts@[i] + 4 * (uncertain_remaining as int)
                + (zero_or_one_remaining as int) <= usize::MAX,
    ensures
        r == spec_excessive(
            new_static_alphabet@,
            new_calculated_counts@,
            uncertain_remaining as int,
            zero_or_one_remaining as int,
        ),
{
    let mut i: usize = 0;
    while i < 26
        invariant
            i <= 26,
            forall|k: int|
                0 <= k < 26 ==> #[trigger] new_calculated_counts@[k] + 4 * (
                uncertain_remaining as int) + (zero_or_one_remaining as int) <= usize::MAX,
            forall|k: int|
                0 <= k < i ==> !(spec_in_number_words(k)
                    && (#[trigger] new_static_alphabet@[k] matches Some(c) && (c as int)
                    > new_calculated_counts@[k] + spec_uncertain_max(k) * uncertain_remaining + (
                if spec_one_letter(k) {
                    zero_or_one_remaining as int
                } else {
                    0
                }))),
        decreases 26 - i,
    {
        if letter_in_number_words(i) {
            if let Some(static_count) = new_static_alphabet[i] {
                let cap = uncertain_max_per_word(i);
                let calc_count = new_calculated_counts[i];
                let slack = if i == 4 || i == 13 || i == 14 {
                    zero_or_one_remaining
                } else {
                    0
                };
                proof {
                    assert(cap * uncertain_remaining <= 4 * uncertain_remaining)
                        by (nonlinear_arith)
                        requires
                            cap <= 4,
                    ;
                }
                let max_possible_count = cap * uncertain_remaining + slack + calc_count;
                if (static_count as usize) > max_possible_count {
                    return true;
                }
            }
        }
        i = i + 1;
    }
    false
}

/// Runs both bound checks: a partial assignment stays alive only when no
/// committed count is too low and none is unreachably high.
pub fn partial_solution_valid(
    new_static_alphabet: &[Option<u8>; 26],
    new_calculated_counts: &LetterCounts,
    uncertain_remaining: usize,
    zero_or_one_remaining: usize,
) -> (r: bool)
    requires
        forall|i: int|
            0 <= i < 26 ==> #[trigger] new_calculated_counts@[i] + 4 * (uncertain_remaining as int)
                + (zero_or_one_remaining as int) <= usize::MAX,
    ensures
        r == (!spec_has_low(new_static_alphabet@, new_calculated_counts@) && !spec_excessive(
            new_static_alphabet@,
            new_calculated_counts@,
            uncertain_remaining as int,
            zero_or_one_remaining as int,
        )),
{
    if has_low_counts(new_static_alphabet, new_calculated_counts) {
        return false;
    }
    if contains_excessive_counts(
        new_static_alphabet,
        new_calculated_counts,
        uncertain_remaining,
        zero_or_one_remaining,
    ) {
        return false;
    }
    true
}

} // verus!
