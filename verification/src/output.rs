//! Rendering a completed assignment as the literal sentence text: the
//! preamble, then one clause per letter with a nonzero committed count, in
//! ascending letter order, joined by ", " except the last clause, which is
//! joined by " and " and closed with ".".

use vstd::prelude::*;

use crate::letters::{letter_str, spec_letter};
use crate::words::{lookup_number_word, spec_clause};

verus! {

/// A letter appears in the sentence exactly when it carries a committed,
/// nonzero count.
pub open spec fn spec_printable(alphabet: Seq<Option<u8>>, i: int) -> bool {
    alphabet[i] matches Some(c) && c > 0
}

pub open spec fn spec_last_printable_from(alphabet: Seq<Option<u8>>, i: int) -> int
    decreases i,
{
    if i <= 0 {
        0
    } else if spec_printable(alphabet, i) {
        i
    } else {
        spec_last_printable_from(alphabet, i - 1)
    }
}

/// The index of the last letter that appears in the sentence, or 0 when
/// none does.
pub open spec fn spec_last_printable(alphabet: Seq<Option<u8>>) -> int {
    spec_last_printable_from(alphabet, 25)
}

proof fn lemma_last_printable_from(alphabet: Seq<Option<u8>>, i: int)
    requires
        0 <= i < 26,
    ensures
        0 <= spec_last_printable_from(alphabet, i) <= i,
        forall|j: int|
            spec_last_printable_from(alphabet, i) < j <= i ==> !spec_printable(alphabet, j),
        (exists|j: int| 0 <= j <= i && spec_printable(alphabet, j)) ==> spec_printable(
            alphabet,
            spec_last_printable_from(alphabet, i),
        ),
    decreases i,
{
    if i > 0 && !spec_printable(alphabet, i) {
        lemma_last_printable_from(alphabet, i - 1);
    }
}

/// Where the sentence has a last letter at all, its index is printable and
/// nothing after it is.
pub proof fn lemma_last_printable(alphabet: Seq<Option<u8>>)
    ensures
        0 <= spec_last_printable(alphabet) < 26,
        forall|j: int|
            spec_last_printable(alphabet) < j < 26 ==> !spec_printable(alphabet, j),
        (exists|j: int| 0 <= j < 26 && spec_printable(alphabet, j)) ==> spec_printable(
            alphabet,
            spec_last_printable(alphabet),
        ),
{
    lemma_last_printable_from(alphabet, 25);
}

/// What follows the clause of letter `i`: ", " while a later clause still
/// comes before the final one, a single space just before " and ".
pub open spec fn spec_separator(alphabet: Seq<Option<u8>>, i: int, end: int) -> Seq<char> {
    if exists|j: int| i < j < end && spec_printable(alphabet, j) {
        ", "@
    } else {
        " "@
    }
}

/// The clauses of all printable letters below `upto`, each followed by its
/// separator.
pub open spec fn spec_rendered_clauses(alphabet: Seq<Option<u8>>, upto: int, end: int) -> Seq<
    char,
>
    decreases upto,
{
    if upto <= 0 {
        Seq::empty()
    } else {
        spec_rendered_clauses(alphabet, upto - 1, end) + (if spec_printable(alphabet, upto - 1) {
            spec_clause(alphabet[upto - 1]->0 as int, upto - 1) + spec_separator(
                alphabet,
                upto - 1,
                end,
            )
        } else {
            Seq::empty()
        })
    }
}

/// The full sentence text for a completed assignment: the preamble, the
/// clauses of every printable letter but the last, and finally "and" with
/// the last clause and the closing period.
pub open spec fn spec_rendered(alphabet: Seq<Option<u8>>, preamble: Seq<char>) -> Seq<char> {
    let end = spec_last_printable(alphabet);
    preamble + " "@ + spec_rendered_clauses(alphabet, end, end) + "and "@ + spec_clause(
        alphabet[end]->0 as int,
        end,
    ) + "."@
}

/// The clause text for one letter: "one <letter>" for a count of one,
/// "<spelled count> <letter>'s" otherwise.
pub fn count_to_string(letter_index: usize, count: u8) -> (r: String)
    requires
        letter_index < 26,
        1 <= count <= 99,
    ensures
        r@ == spec_clause(count as int, letter_index as int),
{
    let character = letter_str(letter_index);
    if count == 1 {
        let mut answer = String::from_str("one");
        answer.append(" ");
        answer.append(character);
        proof {
            assert(answer@ + Seq::<char>::empty() =~= answer@);
        }
        return answer;
    }
    let word_number = lookup_number_word(count);
    let mut answer = String::from_str(word_number);
    answer.append(" ");
    answer.append(character);
    answer.append("'s");
    answer
}

/// The index of the last letter with a committed nonzero count, or 0 when
/// there is none.
pub fn find_last_printable_letter(static_alphabet: &[Option<u8>; 26]) -> (r: usize)
    ensures
        r as int == spec_last_printable(static_alphabet@),
{
    let mut n: usize = 25;
    while n > 0
        invariant
            n <= 25,
            spec_last_printable(static_alphabet@) == spec_last_printable_from(
                static_alphabet@,
                n as int,
            ),
        decreases n,
    {
        if let Some(l) = static_alphabet[n] {
            if l > 0 {
                return n;
            }
        }
        n = n - 1;
    }
    0
}

/// Whether some letter strictly between `lo` and `hi` is printable.
fn has_printable_between(static_alphabet: &[Option<u8>; 26], lo: usize, hi: usize) -> (r: bool)
    requires
        lo < 26,
        hi <= 26,
    ensures
        r == exists|j: int| lo < j < hi && spec_printable(static_alphabet@, j),
{
    let mut j: usize = lo + 1;
    while j < hi
        invariant
            lo < j,
            hi <= 26,
            forall|k: int| lo < k < j ==> !spec_printable(static_alphabet@, k),
        decreases hi - j,
    {
        if let Some(c) = static_alphabet[j] {
            if c > 0 {
                assert(spec_printable(static_alphabet@, j as int));
                return true;
            }
        }
        j = j + 1;
    }
    false
}

/// Renders a completed assignment together with the preamble as the final
/// sentence.
pub fn build_written_solution(static_alphabet: &[Option<u8>; 26], preamble: &str) -> (r: String)
    requires
        forall|i: int|
            0 <= i < 26 ==> (#[trigger] static_alphabet@[i] matches Some(c) ==> c <= 99),
        exists|i: int| 0 <= i < 26 && spec_printable(static_alphabet@, i),
    ensures
        r@ == spec_rendered(static_alphabet@, preamble@),
{
    proof {
        lemma_last_printable(static_alphabet@);
    }
    let end = find_last_printable_letter(static_alphabet);
    let mut answer = String::from_str(preamble);
    answer.append(" ");
    let mut i: usize = 0;
    while i < end
        invariant
            i <= end,
            end < 26,
            end as int == spec_last_printable(static_alphabet@),
            spec_printable(static_alphabet@, end as int),
            forall|k: int|
                0 <= k < 26 ==> (#[trigger] static_alphabet@[k] matches Some(c) ==> c <= 99),
            answer@ == preamble@ + " "@ + spec_rendered_clauses(
                static_alphabet@,
                i as int,
                end as int,
            ),
        decreases end - i,
    {
        if let Some(count) = static_alphabet[i] {
            if count > 0 {
                let word = count_to_string(i, count);
                answer.append(word.as_str());
                if has_printable_between(static_alphabet, i, end) {
                    answer.append(", ");
                } else {
                    answer.append(" ");
                }
            }
        }
        proof {
            if !spec_printable(static_alphabet@, i as int) {
                assert(spec_rendered_clauses(static_alphabet@, i + 1, end as int)
                    =~= spec_rendered_clauses(static_alphabet@, i as int, end as int));
            }
        }
        i = i + 1;
    }
    let final_count = static_alphabet[end].unwrap();
    answer.append("and ");
    let final_word = count_to_string(end, final_count);
    answer.append(final_word.as_str());
    answer.append(".");
    answer
}

} // verus!
