//! The number-word projection table: for every count from 1 to 99 and every
//! letter, the tally of letters produced by writing that letter's clause.
//! Computed once at startup and indexed by `(n - 1) * 26 + letter_index`.

use vstd::prelude::*;

use crate::counts::{count_of, lemma_count_of_le_len, tally_letters, LetterCounts};
use crate::letters::spec_letter;
use crate::output::count_to_string;
use crate::words::{lemma_clause_len, spec_clause};

verus! {

/// Entry `i` of the projection of `(n, j)`: how many of letter `i` the
/// clause "<n spelled out> <letter j>['s]" contains.
pub open spec fn spec_projection(n: int, j: int, i: int) -> nat {
    count_of(spec_clause(n, j), spec_letter(i))
}

/// No clause produces more than 17 of any letter.
pub proof fn lemma_projection_le(n: int, j: int, i: int)
    requires
        1 <= n <= 99,
    ensures
        spec_projection(n, j, i) <= 17,
{
    lemma_clause_len(n, j);
    lemma_count_of_le_len(spec_clause(n, j), spec_letter(i));
}

/// The letter tally of a single clause.
pub fn projection_counts(count: u8, letter_index: usize) -> (r: LetterCounts)
    requires
        1 <= count <= 99,
        letter_index < 26,
    ensures
        forall|i: int|
            0 <= i < 26 ==> r@[i] == spec_projection(count as int, letter_index as int, i),
{
    let clause = count_to_string(letter_index, count);
    tally_letters(clause.as_str())
}

/// The precomputed projection of every (count, letter) pair.
pub struct ProjectionTable {
    pub entries: Vec<LetterCounts>,
}

impl ProjectionTable {
    /// Every entry of the table equals the projection it stands for.
    pub open spec fn wf(&self) -> bool {
        &&& self.entries@.len() == 99 * 26
        &&& forall|n: int, j: int, i: int|
            1 <= n <= 99 && 0 <= j < 26 && 0 <= i < 26 ==> self.entries@[(n - 1) * 26 + j]@[i]
                == #[trigger] spec_projection(n, j, i)
    }

    /// Builds the table by tallying every clause once.
    pub fn build() -> (r: ProjectionTable)
        ensures
            r.wf(),
    {
        let mut entries: Vec<LetterCounts> = Vec::new();
        let mut n: u8 = 1;
        while n <= 99
            invariant
                1 <= n <= 100,
                entries@.len() == (n - 1) * 26,
                forall|m: int, j: int, i: int|
                    1 <= m < n && 0 <= j < 26 && 0 <= i < 26 ==> entries@[(m - 1) * 26 + j]@[i]
                        == #[trigger] spec_projection(m, j, i),
            decreases 100 - n,
        {
            let mut j: usize = 0;
            while j < 26
                invariant
                    1 <= n <= 99,
                    j <= 26,
                    entries@.len() == (n - 1) * 26 + j,
                    forall|m: int, jj: int, i: int|
                        1 <= m < n && 0 <= jj < 26 && 0 <= i < 26 ==> entries@[(m - 1) * 26
                            + jj]@[i] == #[trigger] spec_projection(m, jj, i),
                    forall|jj: int, i: int|
                        0 <= jj < j && 0 <= i < 26 ==> entries@[(n - 1) * 26 + jj]@[i]
                            == #[trigger] spec_projection(n as int, jj, i),
                decreases 26 - j,
            {
                entries.push(projection_counts(n, j));
                j = j + 1;
            }
            n = n + 1;
        }
        ProjectionTable { entries }
    }

    /// Looks one clause projection up.
    pub fn lookup(&self, count: u8, letter_index: usize) -> (r: &LetterCounts)
        requires
            self.wf(),
            1 <= count <= 99,
            letter_index < 26,
        ensures
            forall|i: int|
                0 <= i < 26 ==> r@[i] == spec_projection(count as int, letter_index as int, i),
    {
        &self.entries[(count as usize - 1) * 26 + letter_index]
    }
}

} // verus!
