//! The letter classifier: tallies the preamble, anticipates the plural
//! markers of the committed clauses, and partitions the 26 letters into the
//! Solvable, ZeroOrOne and Uncertain categories.

use vstd::prelude::*;

use crate::counts::{
    count_of, lemma_count_of_concat, lemma_count_of_le_len, tally_letters, LetterCounts,
};
use crate::letters::{lemma_letter_index_bijection, lowercase_letters, spec_char_index, spec_letter};
use crate::table::{lemma_projection_le, projection_counts, spec_projection};
use crate::words::{lemma_tally_and, spec_in_number_words};

verus! {

/// A preamble character must be a lowercase letter or a space.
pub open spec fn spec_valid_char(c: char) -> bool {
    ('a' <= c <= 'z') || c == ' '
}

pub open spec fn spec_valid_preamble(s: Seq<char>) -> bool {
    forall|k: int| 0 <= k < s.len() ==> spec_valid_char(#[trigger] s[k])
}

/// The input error: some preamble character is neither a lowercase letter
/// nor a space.
#[derive(Debug, Clone, Copy, PartialEq, Eq)]
pub enum PreambleError {
    InvalidCharacter(char),
}

impl PreambleError {
    /// A short description, for callers that report the error.
    pub fn message(&self) -> String {
        String::from_str("the preamble may hold only the letters 'a' to 'z' and spaces")
    }
}

/// Accepts a preamble exactly when every character is a lowercase letter or
/// a space; otherwise reports an offending character.
pub fn validate_preamble(preamble: &str) -> (r: Result<(), PreambleError>)
    ensures
        r is Ok <==> spec_valid_preamble(preamble@),
        r matches Err(PreambleError::InvalidCharacter(c)) ==> !spec_valid_char(c) && exists|
            k: int,
        |
            0 <= k < preamble@.len() && preamble@[k] == c && (forall|m: int|
                0 <= m < k ==> spec_valid_char(#[trigger] preamble@[m])),
{
    let n = preamble.unicode_len();
    let mut k: usize = 0;
    while k < n
        invariant
            k <= n,
            n == preamble@.len(),
            forall|m: int| 0 <= m < k ==> spec_valid_char(#[trigger] preamble@[m]),
        decreases n - k,
    {
        let c = preamble.get_char(k);
        if !((c >= 'a' && c <= 'z') || c == ' ') {
            return Err(PreambleError::InvalidCharacter(c));
        }
        k = k + 1;
    }
    Ok(())
}

/// Entry `i` of the raw tally of the preamble with the mandatory connective
/// word "and" appended.
pub open spec fn spec_initial_count(preamble: Seq<char>, i: int) -> nat {
    count_of(preamble + "and"@, spec_letter(i))
}

/// Tallies the letters of the preamble, plus the literal word "and" that
/// always precedes the final clause. Spaces contribute nothing.
pub fn count_initial_static_letters(preamble: &str) -> (r: LetterCounts)
    requires
        preamble@.len() + 3 <= usize::MAX,
    ensures
        forall|i: int| 0 <= i < 26 ==> r@[i] == spec_initial_count(preamble@, i),
{
    let mut counts = tally_letters(preamble);
    proof {
        assert forall|i: int| 0 <= i < 26 implies count_of(
            preamble@ + "and"@,
            #[trigger] spec_letter(i),
        ) == count_of(preamble@, spec_letter(i)) + count_of("and"@, spec_letter(i)) && count_of(
            preamble@,
            spec_letter(i),
        ) <= preamble@.len() && count_of("and"@, spec_letter(i)) == (if i == 0 || i == 3 || i
            == 13 {
            1nat
        } else {
            0nat
        }) by {
            lemma_count_of_concat(preamble@, "and"@, spec_letter(i));
            lemma_count_of_le_len(preamble@, spec_letter(i));
            lemma_tally_and(spec_letter(i));
        }
    }
    counts[0] = counts[0] + 1;
    counts[13] = counts[13] + 1;
    counts[3] = counts[3] + 1;
    counts
}

/// How many of the first `k` slots hold a count above one.
pub open spec fn spec_count_above_one(counts: Seq<usize>, k: int) -> nat
    decreases k,
{
    if k <= 0 {
        0
    } else {
        spec_count_above_one(counts, k - 1) + (if counts[k - 1] > 1 {
            1nat
        } else {
            0nat
        })
    }
}

pub proof fn lemma_count_above_one_le(counts: Seq<usize>, k: int)
    requires
        0 <= k,
    ensures
        spec_count_above_one(counts, k) <= k,
    decreases k,
{
    if k > 0 {
        lemma_count_above_one_le(counts, k - 1);
    }
}

/// Adds one anticipated plural "s" for every letter whose raw tally exceeds
/// one: that letter's clause will read "<count> <letter>'s" and so carries
/// an "s" of its own.
pub fn add_minimum_s_count(initial_static_counts: &LetterCounts) -> (r: LetterCounts)
    requires
        initial_static_counts@[18] + 26 <= usize::MAX,
    ensures
        forall|i: int|
            0 <= i < 26 && i != 18 ==> r@[i] == initial_static_counts@[i],
        r@[18] == initial_static_counts@[18] + spec_count_above_one(initial_static_counts@, 26),
{
    let mut counts = *initial_static_counts;
    let mut s_count: usize = 0;
    let mut k: usize = 0;
    while k < 26
        invariant
            k <= 26,
            s_count == spec_count_above_one(initial_static_counts@, k as int),
            s_count <= k,
            counts@ == initial_static_counts@,
        decreases 26 - k,
    {
        if initial_static_counts[k] > 1 {
            s_count = s_count + 1;
        }
        k = k + 1;
    }
    counts[18] = counts[18] + s_count;
    counts
}

/// A letter is solvable when it occurs in the adjusted preamble tally but
/// in no spelled number word: its final count is fixed before the search.
pub open spec fn spec_solvable(plural_counts: Seq<usize>, i: int) -> bool {
    plural_counts[i] > 0 && !spec_in_number_words(i)
}

/// A letter is zero-or-one when it occurs neither in the adjusted preamble
/// tally nor in any number word: only its own clause "one <letter>" can
/// ever produce it.
pub open spec fn spec_zero_or_one(plural_counts: Seq<usize>, i: int) -> bool {
    plural_counts[i] == 0 && !spec_in_number_words(i)
}

/// The three letter categories are pairwise disjoint and together cover
/// each of the 26 letters: every letter is exactly one of solvable,
/// zero-or-one, or uncertain (that is, it occurs in some number word).
pub proof fn lemma_category_partition(plural_counts: Seq<usize>)
    ensures
        forall|i: int|
            0 <= i < 26 ==> (spec_solvable(plural_counts, i) || spec_zero_or_one(plural_counts, i)
                || #[trigger] spec_in_number_words(i)),
        forall|i: int|
            0 <= i < 26 ==> !(spec_solvable(plural_counts, i) && spec_zero_or_one(
                plural_counts,
                i,
            )),
        forall|i: int|
            0 <= i < 26 ==> !(spec_solvable(plural_counts, i)
                && #[trigger] spec_in_number_words(i)),
        forall|i: int|
            0 <= i < 26 ==> !(spec_zero_or_one(plural_counts, i)
                && #[trigger] spec_in_number_words(i)),
{
}

/// Whether the letter at an offset occurs in some spelled number word.
pub fn letter_in_number_words(index: usize) -> (r: bool)
    requires
        index < 26,
    ensures
        r == spec_in_number_words(index as int),
{
    match index {
        4 | 5 | 6 | 7 | 8 | 11 | 13 | 14 | 17 | 18 | 19 | 20 | 21 | 22 | 23 | 24 => true,
        _ => false,
    }
}

/// Marks the solvable letters: those in the adjusted tally but in no
/// number word.
pub fn determine_solvable_letters(plural_static_counts: &LetterCounts) -> (r: [bool; 26])
    ensures
        forall|i: int| 0 <= i < 26 ==> r@[i] == spec_solvable(plural_static_counts@, i),
{
    let mut solvable_letters: [bool; 26] = [false; 26];
    let mut i: usize = 0;
    while i < 26
        invariant
            i <= 26,
            forall|k: int| 0 <= k < i ==> solvable_letters@[k] == spec_solvable(
                plural_static_counts@,
                k,
            ),
        decreases 26 - i,
    {
        solvable_letters[i] = plural_static_counts[i] > 0 && !letter_in_number_words(i);
        i = i + 1;
    }
    solvable_letters
}

/// The zero-or-one letters below `k`, in ascending letter order.
pub open spec fn spec_zero_or_one_list(plural_counts: Seq<usize>, k: int) -> Seq<char>
    decreases k,
{
    if k <= 0 {
        Seq::empty()
    } else {
        spec_zero_or_one_list(plural_counts, k - 1) + (if spec_zero_or_one(plural_counts, k - 1) {
            seq![spec_letter(k - 1)]
        } else {
            Seq::empty()
        })
    }
}

/// Lists the letters that occur in no number word and are not solvable:
/// their clause can only be absent or read "one <letter>".
pub fn determine_zero_or_one_only_letters(
    solvable_letters: &[bool; 26],
    plural_static_counts: &LetterCounts,
) -> (r: Vec<char>)
    requires
        forall|i: int| 0 <= i < 26 ==> solvable_letters@[i] == spec_solvable(
            plural_static_counts@,
            i,
        ),
    ensures
        r@ == spec_zero_or_one_list(plural_static_counts@, 26),
{
    let char_list = lowercase_letters();
    let mut chars: Vec<char> = Vec::new();
    let mut i: usize = 0;
    while i < 26
        invariant
            i <= 26,
            char_list@.len() == 26,
            forall|k: int| 0 <= k < 26 ==> char_list@[k] == spec_letter(k),
            forall|k: int| 0 <= k < 26 ==> solvable_letters@[k] == spec_solvable(
                plural_static_counts@,
                k,
            ),
            chars@ == spec_zero_or_one_list(plural_static_counts@, i as int),
        decreases 26 - i,
    {
        if !letter_in_number_words(i) && !solvable_letters[i] {
            chars.push(char_list[i]);
        } else {
            proof {
                assert(spec_zero_or_one_list(plural_static_counts@, i + 1) =~= chars@);
            }
        }
        i = i + 1;
    }
    chars
}

/// Every listed zero-or-one letter is a letter of its category below `k`,
/// and the list ascends strictly: its entries name distinct slots.
pub proof fn lemma_zero_or_one_list_props(counts: Seq<usize>, k: int)
    requires
        0 <= k <= 26,
    ensures
        spec_zero_or_one_list(counts, k).len() <= k,
        forall|m: int|
            0 <= m < spec_zero_or_one_list(counts, k).len() ==> (spec_char_index(
                #[trigger] spec_zero_or_one_list(counts, k)[m],
            ) matches Some(i) && 0 <= i < k && spec_zero_or_one(counts, i)),
        forall|m1: int, m2: int|
            0 <= m1 < m2 < spec_zero_or_one_list(counts, k).len() ==> spec_char_index(
                #[trigger] spec_zero_or_one_list(counts, k)[m1],
            )->0 < spec_char_index(#[trigger] spec_zero_or_one_list(counts, k)[m2])->0,
    decreases k,
{
    lemma_letter_index_bijection();
    if k > 0 {
        lemma_zero_or_one_list_props(counts, k - 1);
        let prev = spec_zero_or_one_list(counts, k - 1);
        let full = spec_zero_or_one_list(counts, k);
        if spec_zero_or_one(counts, k - 1) {
            assert(full =~= prev + seq![spec_letter(k - 1)]);
            assert(forall|m: int| 0 <= m < prev.len() ==> full[m] == prev[m]);
            assert(full[full.len() - 1] == spec_letter(k - 1));
        } else {
            assert(full =~= prev);
        }
    }
}

/// The partial assignment a search starts from: solvable letters committed
/// to their derived count, every other slot unassigned.
pub fn initialize_static_alphabet(
    plural_static_counts: &LetterCounts,
    solvable_letters: &[bool; 26],
) -> (r: [Option<u8>; 26])
    requires
        forall|i: int|
            0 <= i < 26 && #[trigger] solvable_letters@[i] ==> plural_static_counts@[i] < 99,
    ensures
        forall|i: int|
            0 <= i < 26 ==> r@[i] == (if solvable_letters@[i] {
                Some((plural_static_counts@[i] + 1) as u8)
            } else {
                None::<u8>
            }),
{
    let mut static_alphabet: [Option<u8>; 26] = [None; 26];
    let mut i: usize = 0;
    while i < 26
        invariant
            i <= 26,
            forall|k: int|
                0 <= k < 26 && #[trigger] solvable_letters@[k] ==> plural_static_counts@[k] < 99,
            forall|k: int|
                0 <= k < i ==> static_alphabet@[k] == (if solvable_letters@[k] {
                    Some((plural_static_counts@[k] + 1) as u8)
                } else {
                    None::<u8>
                }),
            forall|k: int| i <= k < 26 ==> static_alphabet@[k] == None::<u8>,
        decreases 26 - i,
    {
        if solvable_letters[i] {
            static_alphabet[i] = Some((plural_static_counts[i] + 1) as u8);
        }
        i = i + 1;
    }
    static_alphabet
}

/// Entry `i` of the summed clause projections of every committed letter
/// below `k`.
pub open spec fn spec_evaluated(alphabet: Seq<Option<u8>>, k: int, i: int) -> nat
    decreases k,
{
    if k <= 0 {
        0
    } else {
        spec_evaluated(alphabet, k - 1, i) + (match alphabet[k - 1] {
            Some(c) => if c > 0 {
                spec_projection(c as int, k - 1, i)
            } else {
                0nat
            },
            None => 0nat,
        })
    }
}

/// Sums, over every committed letter, the letters produced by writing that
/// letter's clause out.
pub fn evaluate_static_alphabet(static_alphabet: &[Option<u8>; 26]) -> (r: LetterCounts)
    requires
        forall|i: int|
            0 <= i < 26 ==> (#[trigger] static_alphabet@[i] matches Some(c) ==> 1 <= c <= 99),
    ensures
        forall|i: int| 0 <= i < 26 ==> r@[i] == spec_evaluated(static_alphabet@, 26, i),
{
    let mut accumulator: LetterCounts = [0; 26];
    let mut k: usize = 0;
    while k < 26
        invariant
            k <= 26,
            forall|i: int|
                0 <= i < 26 ==> (#[trigger] static_alphabet@[i] matches Some(c) ==> 1 <= c <= 99),
            forall|i: int| 0 <= i < 26 ==> #[trigger] accumulator@[i] == spec_evaluated(
                static_alphabet@,
                k as int,
                i,
            ),
            forall|i: int| 0 <= i < 26 ==> #[trigger] accumulator@[i] <= 17 * k,
        decreases 26 - k,
    {
        if let Some(static_letter_count) = static_alphabet[k] {
            let contribution = projection_counts(static_letter_count, k);
            let mut i: usize = 0;
            while i < 26
                invariant
                    i <= 26,
                    k < 26,
                    static_alphabet@[k as int] matches Some(c) && 1 <= c <= 99 && c
                        == static_letter_count,
                    forall|j: int| 0 <= j < 26 ==> #[trigger] contribution@[j] == spec_projection(
                        static_letter_count as int,
                        k as int,
                        j,
                    ),
                    forall|j: int|
                        i <= j < 26 ==> #[trigger] accumulator@[j] == spec_evaluated(
                            static_alphabet@,
                            k as int,
                            j,
                        ) && accumulator@[j] <= 17 * k,
                    forall|j: int|
                        0 <= j < i ==> #[trigger] accumulator@[j] == spec_evaluated(
                            static_alphabet@,
                            k + 1,
                            j,
                        ) && accumulator@[j] <= 17 * (k + 1),
                decreases 26 - i,
            {
                proof {
                    lemma_projection_le(static_letter_count as int, k as int, i as int);
                }
                accumulator[i] = accumulator[i] + contribution[i];
                i = i + 1;
            }
        }
        k = k + 1;
    }
    accumulator
}

} // verus!
