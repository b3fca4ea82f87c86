//! The backtracking search engine: assigns counts to the uncertain letters
//! in a fixed descending-frequency order, folds each committed clause's
//! letters into the calculated counts, prunes branches that violate the
//! bounds, and emits every leaf assignment that validates as a fixed point.
//!
//! The specification of the search is the unpruned enumeration
//! [`spec_search_results`]: every candidate count of every pending letter
//! in order, keeping exactly the leaves whose committed counts equal their
//! calculated counts. The implementation prunes; the pruning lemmas show
//! that a pruned branch holds no leaf that the enumeration keeps.

use vstd::prelude::*;

use crate::bounds::{
    lemma_clause_contribution, lemma_one_clause_contribution, partial_solution_valid,
    spec_excessive, spec_has_low, spec_one_letter, spec_uncertain_max,
};
use crate::counts::{add_letter_counts, LetterCounts};
use crate::letters::{char_to_index, spec_char_index};
use crate::table::{lemma_projection_le, spec_projection, ProjectionTable};
use crate::words::spec_in_number_words;

verus! {

/// A 26-slot partial assignment: each slot is unassigned or a committed
/// count.
pub type StaticAlphabet = [Option<u8>; 26];

/// A pending search variable: either an uncertain letter with the width of
/// its candidate range, or a zero-or-one letter.
#[derive(Debug, Clone, Copy)]
pub enum UncertainLetter {
    Variable(u8),
    ZeroOrOne,
}

/// The slot a pending entry stands for.
pub open spec fn spec_pending_index(e: (char, UncertainLetter)) -> int {
    spec_char_index(e.0)->0
}

/// How far above its guaranteed minimum a pending letter's candidate counts
/// may reach.
pub open spec fn spec_max_count(e: (char, UncertainLetter)) -> int {
    match e.1 {
        UncertainLetter::Variable(m) => m as int,
        UncertainLetter::ZeroOrOne => 1,
    }
}

/// How many of the pending entries are uncertain letters.
pub open spec fn spec_num_variable(pending: Seq<(char, UncertainLetter)>) -> int
    decreases pending.len(),
{
    if pending.len() == 0 {
        0
    } else {
        (if pending[0].1 is Variable {
            1int
        } else {
            0int
        }) + spec_num_variable(pending.drop_first())
    }
}

/// How many of the pending entries are zero-or-one letters.
pub open spec fn spec_num_zero_or_one(pending: Seq<(char, UncertainLetter)>) -> int
    decreases pending.len(),
{
    if pending.len() == 0 {
        0
    } else {
        (if pending[0].1 is ZeroOrOne {
            1int
        } else {
            0int
        }) + spec_num_zero_or_one(pending.drop_first())
    }
}

/// Every committed count equals its calculated count. On a complete
/// assignment this is the fixed-point test.
pub open spec fn spec_assignment_matches(alphabet: Seq<Option<u8>>, calc: Seq<usize>) -> bool {
    forall|i: int|
        0 <= i < 26 ==> (#[trigger] alphabet[i] matches Some(c) ==> c as int == calc[i])
}

/// Every committed count can be spelled by the projection table.
pub open spec fn spec_spellable(alphabet: Seq<Option<u8>>) -> bool {
    forall|i: int| 0 <= i < 26 ==> (#[trigger] alphabet[i] matches Some(c) ==> c <= 99)
}

/// Committing a count writes it into the pending letter's slot.
pub open spec fn spec_descend_alphabet(
    alphabet: Seq<Option<u8>>,
    count: u8,
    index: int,
) -> Seq<Option<u8>> {
    alphabet.update(index, Some(count))
}

/// Committing a nonzero count folds the clause's letters into the
/// calculated counts; a count of zero contributes no clause.
pub open spec fn spec_descend_calc(calc: Seq<usize>, count: u8, index: int) -> Seq<usize> {
    if count == 0 {
        calc
    } else {
        Seq::new(calc.len(), |i: int| (calc[i] + spec_projection(count as int, index, i)) as usize)
    }
}

/// The top of a pending letter's candidate range: its guaranteed minimum
/// plus its range width, capped at 99, the largest spellable count.
pub open spec fn spec_candidate_hi(calc: Seq<usize>, e: (char, UncertainLetter)) -> int {
    let lo = calc[spec_pending_index(e)] as int;
    if lo + spec_max_count(e) <= 99 {
        lo + spec_max_count(e)
    } else {
        99
    }
}

/// The unpruned search: every leaf reached by trying, for each pending
/// letter in order, every candidate count from its guaranteed minimum to
/// the top of its range, keeping the complete assignments that equal their
/// own calculated counts.
pub open spec fn spec_search_results(
    alphabet: Seq<Option<u8>>,
    pending: Seq<(char, UncertainLetter)>,
    calc: Seq<usize>,
) -> Seq<Seq<Option<u8>>>
    decreases pending.len(), 200int,
{
    if pending.len() == 0 {
        if spec_assignment_matches(alphabet, calc) && spec_spellable(alphabet) {
            seq![alphabet]
        } else {
            Seq::empty()
        }
    } else {
        spec_search_range(
            alphabet,
            pending,
            calc,
            calc[spec_pending_index(pending[0])] as int,
            spec_candidate_hi(calc, pending[0]),
        )
    }
}

/// The results of the remaining candidates `count..=hi` of the first
/// pending letter, in increasing candidate order.
pub open spec fn spec_search_range(
    alphabet: Seq<Option<u8>>,
    pending: Seq<(char, UncertainLetter)>,
    calc: Seq<usize>,
    count: int,
    hi: int,
) -> Seq<Seq<Option<u8>>>
    decreases pending.len(), (if count > hi {
        0int
    } else {
        hi + 1 - count
    }),
{
    if pending.len() == 0 || count > hi || count < 0 || hi > 99 {
        Seq::empty()
    } else {
        spec_search_results(
            spec_descend_alphabet(alphabet, count as u8, spec_pending_index(pending[0])),
            pending.drop_first(),
            spec_descend_calc(calc, count as u8, spec_pending_index(pending[0])),
        ) + spec_search_range(alphabet, pending, calc, count + 1, hi)
    }
}

/// What every search frame maintains: the pending letters name distinct,
/// still-unassigned slots; committed counts are spellable; a pending
/// zero-or-one letter has calculated count zero and occurs in no number
/// word; and the calculated counts sit far enough below the integer
/// ceiling that folding in the remaining clauses cannot overflow.
pub open spec fn spec_wf_frame(
    alphabet: Seq<Option<u8>>,
    pending: Seq<(char, UncertainLetter)>,
    calc: Seq<usize>,
) -> bool {
    &&& alphabet.len() == 26
    &&& calc.len() == 26
    &&& pending.len() <= 42
    &&& forall|k: int|
        0 <= k < pending.len() ==> spec_char_index((#[trigger] pending[k]).0) is Some
    &&& forall|k: int| 0 <= k < pending.len() ==> 0 <= spec_pending_index(#[trigger] pending[k])
        < 26
    &&& forall|k1: int, k2: int|
        0 <= k1 < k2 < pending.len() ==> spec_pending_index(#[trigger] pending[k1])
            != spec_pending_index(#[trigger] pending[k2])
    &&& forall|k: int|
        0 <= k < pending.len() ==> alphabet[spec_pending_index(#[trigger] pending[k])] is None
    &&& spec_spellable(alphabet)
    &&& forall|k: int|
        0 <= k < pending.len() ==> ((#[trigger] pending[k]).1 is ZeroOrOne ==> calc[
            spec_pending_index(pending[k])
        ] == 0 && !spec_in_number_words(spec_pending_index(pending[k])))
    &&& forall|k: int|
        0 <= k < pending.len() ==> ((#[trigger] pending[k]).1 matches UncertainLetter::Variable(m)
            ==> m <= 100)
    &&& forall|i: int| 0 <= i < 26 ==> #[trigger] calc[i] + 20 * pending.len() <= usize::MAX
}

/// Committing a candidate count preserves the frame invariant, and the
/// calculated counts never decrease: the monotonicity of the search.
pub proof fn lemma_descend_wf(
    alphabet: Seq<Option<u8>>,
    pending: Seq<(char, UncertainLetter)>,
    calc: Seq<usize>,
    count: u8,
)
    requires
        spec_wf_frame(alphabet, pending, calc),
        pending.len() > 0,
        count <= 99,
    ensures
        spec_wf_frame(
            spec_descend_alphabet(alphabet, count, spec_pending_index(pending[0])),
            pending.drop_first(),
            spec_descend_calc(calc, count, spec_pending_index(pending[0])),
        ),
        count == 0 ==> spec_descend_calc(calc, count, spec_pending_index(pending[0])) == calc,
        count > 0 ==> forall|i: int|
            0 <= i < 26 ==> #[trigger] spec_descend_calc(
                calc,
                count,
                spec_pending_index(pending[0]),
            )[i] == calc[i] + spec_projection(count as int, spec_pending_index(pending[0]), i),
        forall|i: int|
            0 <= i < 26 ==> calc[i] <= #[trigger] spec_descend_calc(
                calc,
                count,
                spec_pending_index(pending[0]),
            )[i],
{
    let idx0 = spec_pending_index(pending[0]);
    let rest = pending.drop_first();
    let alphabet2 = spec_descend_alphabet(alphabet, count, idx0);
    let calc2 = spec_descend_calc(calc, count, idx0);
    assert(forall|k: int| 0 <= k < rest.len() ==> #[trigger] rest[k] == pending[k + 1]);
    if count > 0 {
        assert forall|i: int| 0 <= i < 26 implies spec_projection(count as int, idx0, i) <= 17 by {
            lemma_projection_le(count as int, idx0, i);
        }
        assert forall|k: int|
            0 <= k < rest.len() && (#[trigger] rest[k]).1 is ZeroOrOne implies calc2[
            spec_pending_index(rest[k])] == 0 by {
            let ik = spec_pending_index(rest[k]);
            lemma_clause_contribution(count as int, idx0, ik);
        }
    }
}

/// A branch whose committed counts already violate a bound holds no
/// solution: the unpruned enumeration of its whole subtree keeps no leaf.
/// This is the soundness of the pruning.
pub proof fn lemma_pruned_subtree_empty(
    alphabet: Seq<Option<u8>>,
    pending: Seq<(char, UncertainLetter)>,
    calc: Seq<usize>,
)
    requires
        spec_wf_frame(alphabet, pending, calc),
        spec_has_low(alphabet, calc) || spec_excessive(
            alphabet,
            calc,
            spec_num_variable(pending),
            spec_num_zero_or_one(pending),
        ),
    ensures
        spec_search_results(alphabet, pending, calc) == Seq::<Seq<Option<u8>>>::empty(),
    decreases pending.len(), 200int,
{
    if pending.len() == 0 {
        assert(!spec_assignment_matches(alphabet, calc));
    } else {
        lemma_pruned_range_empty(
            alphabet,
            pending,
            calc,
            calc[spec_pending_index(pending[0])] as int,
            spec_candidate_hi(calc, pending[0]),
        );
    }
}

/// No candidate in the remaining range of the first pending letter can
/// repair a violated bound: every one of their subtrees is empty.
proof fn lemma_pruned_range_empty(
    alphabet: Seq<Option<u8>>,
    pending: Seq<(char, UncertainLetter)>,
    calc: Seq<usize>,
    count: int,
    hi: int,
)
    requires
        spec_wf_frame(alphabet, pending, calc),
        pending.len() > 0,
        hi <= spec_candidate_hi(calc, pending[0]),
        spec_has_low(alphabet, calc) || spec_excessive(
            alphabet,
            calc,
            spec_num_variable(pending),
            spec_num_zero_or_one(pending),
        ),
    ensures
        spec_search_range(alphabet, pending, calc, count, hi) == Seq::<Seq<Option<u8>>>::empty(),
    decreases pending.len(), (if count > hi {
        0int
    } else {
        hi + 1 - count
    }),
{
    if count > hi || count < 0 || hi > 99 {
    } else {
        let idx0 = spec_pending_index(pending[0]);
        let c8 = count as u8;
        lemma_descend_wf(alphabet, pending, calc, c8);
        let alphabet2 = spec_descend_alphabet(alphabet, c8, idx0);
        let calc2 = spec_descend_calc(calc, c8, idx0);
        let rest = pending.drop_first();
        let u = spec_num_variable(pending);
        let z = spec_num_zero_or_one(pending);
        let u2 = spec_num_variable(rest);
        let z2 = spec_num_zero_or_one(rest);
        if spec_has_low(alphabet, calc) {
            let i = choose|i: int|
                0 <= i < 26 && (#[trigger] alphabet[i] matches Some(cc) && (cc as int) < calc[i]);
            assert(alphabet2[i] == alphabet[i]);
            assert(spec_has_low(alphabet2, calc2));
        } else {
            let i = choose|i: int|
                0 <= i < 26 && spec_in_number_words(i) && (#[trigger] alphabet[i] matches Some(cc)
                    && (cc as int) > calc[i] + spec_uncertain_max(i) * spec_num_variable(pending)
                    + (if spec_one_letter(i) {
                    spec_num_zero_or_one(pending)
                } else {
                    0
                }));
            assert(alphabet[idx0] is None);
            assert(i != idx0);
            assert(alphabet2[i] == alphabet[i]);
            let cap = spec_uncertain_max(i) as int;
            let one_term = if spec_one_letter(i) {
                1int
            } else {
                0int
            };
            if pending[0].1 is Variable {
                assert(u2 == u - 1 && z2 == z);
                if c8 == 0 {
                    assert(cap * u2 == cap * u - cap) by (nonlinear_arith)
                        requires
                            u2 == u - 1,
                    ;
                } else {
                    lemma_clause_contribution(count, idx0, i);
                    assert(calc2[i] <= calc[i] + cap);
                    assert(cap * u2 == cap * u - cap) by (nonlinear_arith)
                        requires
                            u2 == u - 1,
                    ;
                }
            } else {
                assert(u2 == u && z2 == z - 1);
                if c8 == 0 {
                } else {
                    assert(calc[idx0] == 0);
                    assert(count == 1);
                    lemma_one_clause_contribution(idx0, i);
                    assert(calc2[i] == calc[i] + one_term * (if spec_one_letter(i) {
                        1int
                    } else {
                        0int
                    }));
                }
            }
            assert(spec_excessive(alphabet2, calc2, u2, z2));
        }
        lemma_pruned_subtree_empty(alphabet2, rest, calc2);
        lemma_pruned_range_empty(alphabet, pending, calc, count + 1, hi);
        assert(spec_search_range(alphabet, pending, calc, count, hi) =~= Seq::<
            Seq<Option<u8>>,
        >::empty());
    }
}

/// The calculated counts never decrease when a count is committed: along
/// any path from the search root to a leaf they are component-wise
/// non-decreasing.
pub proof fn lemma_descend_monotonic(calc: Seq<usize>, count: u8, index: int)
    requires
        calc.len() == 26,
        count <= 99,
        forall|i: int| 0 <= i < 26 ==> #[trigger] calc[i] + 17 <= usize::MAX,
    ensures
        forall|i: int|
            0 <= i < 26 ==> calc[i] <= #[trigger] spec_descend_calc(calc, count, index)[i],
{
    if count > 0 {
        assert forall|i: int| 0 <= i < 26 implies spec_projection(count as int, index, i) <= 17 by {
            lemma_projection_le(count as int, index, i);
        }
    }
}

/// Writing any single letter's committed count to a value other than the
/// one the calculated counts imply makes the validator reject the
/// assignment. Instantiated with the recomputed counts of the mutated
/// assignment, this says the validator rejects every mutation away from
/// the fixed point.
pub proof fn lemma_validator_rejects_mismatch(
    alphabet: Seq<Option<u8>>,
    calc: Seq<usize>,
    i: int,
    c: u8,
)
    requires
        alphabet.len() == 26,
        calc.len() == 26,
        0 <= i < 26,
        c as int != calc[i],
    ensures
        !spec_assignment_matches(alphabet.update(i, Some(c)), calc),
{
    assert(alphabet.update(i, Some(c))[i] == Some(c));
}

/// Recomputes whether a complete assignment is a fixed point: every
/// committed count must equal its calculated count exactly.
pub fn validate_solution(
    calculated_counts: &LetterCounts,
    static_alphabet: &StaticAlphabet,
) -> (r: bool)
    ensures
        r == spec_assignment_matches(static_alphabet@, calculated_counts@),
{
    let mut i: usize = 0;
    while i < 26
        invariant
            i <= 26,
            forall|k: int|
                0 <= k < i ==> (#[trigger] static_alphabet@[k] matches Some(c) ==> c as int
                    == calculated_counts@[k]),
        decreases 26 - i,
    {
        if let Some(c) = static_alphabet[i] {
            if (c as usize) != calculated_counts[i] {
                return false;
            }
        }
        i = i + 1;
    }
    true
}

/// Commits one candidate count: writes the slot and, for a nonzero count,
/// folds the clause's projected letters into the calculated counts.
pub fn descend(
    static_alphabet: &StaticAlphabet,
    calculated_counts: &LetterCounts,
    count: u8,
    index: usize,
    table: &ProjectionTable,
) -> (r: (StaticAlphabet, LetterCounts))
    requires
        table.wf(),
        index < 26,
        count <= 99,
        forall|i: int| 0 <= i < 26 ==> #[trigger] calculated_counts@[i] + 17 <= usize::MAX,
    ensures
        r.0@ == spec_descend_alphabet(static_alphabet@, count, index as int),
        r.1@ == spec_descend_calc(calculated_counts@, count, index as int),
{
    let mut new_static_alphabet = *static_alphabet;
    new_static_alphabet[index] = Some(count);
    let new_calculated_counts = if count > 0 {
        proof {
            assert forall|i: int| 0 <= i < 26 implies spec_projection(
                count as int,
                index as int,
                i,
            ) <= 17 by {
                lemma_projection_le(count as int, index as int, i);
            }
        }
        let evaluated_counts = table.lookup(count, index);
        let summed = add_letter_counts(evaluated_counts, calculated_counts);
        proof {
            assert(summed@ =~= spec_descend_calc(calculated_counts@, count, index as int));
        }
        summed
    } else {
        *calculated_counts
    };
    (new_static_alphabet, new_calculated_counts)
}

/// Reads the next pending letter off the frame: its slot, its candidate
/// range, and how many uncertain and zero-or-one letters remain after it.
pub fn setup_descent(
    uncertain_alphabet: &Vec<(char, UncertainLetter)>,
    position: usize,
    calculated_counts: &LetterCounts,
) -> (r: (usize, usize, usize, usize, usize))
    requires
        position < uncertain_alphabet@.len(),
        spec_char_index(uncertain_alphabet@[position as int].0) is Some,
    ensures
        r.0 == spec_pending_index(uncertain_alphabet@[position as int]),
        r.0 < 26,
        r.1 == calculated_counts@[r.0 as int],
        r.2 == spec_candidate_hi(calculated_counts@, uncertain_alphabet@[position as int]),
        r.3 == spec_num_variable(uncertain_alphabet@.skip(position + 1)),
        r.4 == spec_num_zero_or_one(uncertain_alphabet@.skip(position + 1)),
        r.3 + r.4 == uncertain_alphabet@.len() - position - 1,
{
    let (character, uncertain_letter) = uncertain_alphabet[position];
    let index = match char_to_index(&character) {
        Some(i) => i,
        None => {
            proof {
                assert(false);
            }
            0
        },
    };
    let max_count: usize = match uncertain_letter {
        UncertainLetter::Variable(c) => c as usize,
        UncertainLetter::ZeroOrOne => 1,
    };
    let current_count = calculated_counts[index];
    let hi: usize = if current_count > 99 {
        99
    } else {
        let reach = current_count + max_count;
        if reach <= 99 {
            reach
        } else {
            99
        }
    };
    let len = uncertain_alphabet.len();
    let mut uncertain_remaining: usize = 0;
    let mut zero_or_one_remaining: usize = 0;
    let mut k: usize = len;
    proof {
        assert(uncertain_alphabet@.skip(len as int) =~= Seq::<(char, UncertainLetter)>::empty());
    }
    while k > position + 1
        invariant
            position + 1 <= k <= len,
            len == uncertain_alphabet@.len(),
            uncertain_remaining == spec_num_variable(uncertain_alphabet@.skip(k as int)),
            zero_or_one_remaining == spec_num_zero_or_one(uncertain_alphabet@.skip(k as int)),
            uncertain_remaining + zero_or_one_remaining == len - k,
        decreases k,
    {
        k = k - 1;
        proof {
            assert(uncertain_alphabet@.skip(k as int).drop_first() =~= uncertain_alphabet@.skip(
                k + 1,
            ));
        }
        match uncertain_alphabet[k].1 {
            UncertainLetter::Variable(_) => {
                uncertain_remaining = uncertain_remaining + 1;
            },
            UncertainLetter::ZeroOrOne => {
                zero_or_one_remaining = zero_or_one_remaining + 1;
            },
        }
    }
    (index, current_count, hi, uncertain_remaining, zero_or_one_remaining)
}

/// Splitting a candidate range at its first count changes nothing: the
/// results of a range are the first candidate's subtree followed by the
/// rest. Applied count by count, this says that running the candidates of
/// the topmost letter as independent branches and concatenating their
/// outputs in increasing candidate order yields exactly the sequential
/// search's results.
pub proof fn lemma_branch_split(
    alphabet: Seq<Option<u8>>,
    pending: Seq<(char, UncertainLetter)>,
    calc: Seq<usize>,
    count: int,
    hi: int,
)
    requires
        pending.len() > 0,
        0 <= count <= hi <= 99,
    ensures
        spec_search_range(alphabet, pending, calc, count, hi) == spec_search_range(
            alphabet,
            pending,
            calc,
            count,
            count,
        ) + spec_search_range(alphabet, pending, calc, count + 1, hi),
{
    let idx0 = spec_pending_index(pending[0]);
    let sub = spec_search_results(
        spec_descend_alphabet(alphabet, count as u8, idx0),
        pending.drop_first(),
        spec_descend_calc(calc, count as u8, idx0),
    );
    assert(spec_search_range(alphabet, pending, calc, count + 1, count) == Seq::<
        Seq<Option<u8>>,
    >::empty());
    assert(spec_search_range(alphabet, pending, calc, count, count) == sub + spec_search_range(
        alphabet,
        pending,
        calc,
        count + 1,
        count,
    ));
    assert(spec_search_range(alphabet, pending, calc, count, hi) == sub + spec_search_range(
        alphabet,
        pending,
        calc,
        count + 1,
        hi,
    ));
    assert((sub + Seq::<Seq<Option<u8>>>::empty()) + spec_search_range(
        alphabet,
        pending,
        calc,
        count + 1,
        hi,
    ) =~= sub + spec_search_range(alphabet, pending, calc, count + 1, hi));
}

/// The assignments a list of emitted solutions stands for.
pub open spec fn spec_views(solutions: Seq<StaticAlphabet>) -> Seq<Seq<Option<u8>>> {
    solutions.map_values(|a: StaticAlphabet| a@)
}

/// The pruned backtracking search from one frame. It returns exactly the
/// solutions that the unpruned enumeration over the same candidate ranges
/// keeps, in the same candidate order: the pruning drops no solution and
/// adds none.
pub fn solve(
    static_alphabet: &StaticAlphabet,
    uncertain_alphabet: &Vec<(char, UncertainLetter)>,
    position: usize,
    calculated_counts: &LetterCounts,
    table: &ProjectionTable,
) -> (r: Vec<StaticAlphabet>)
    requires
        table.wf(),
        position <= uncertain_alphabet@.len(),
        spec_wf_frame(
            static_alphabet@,
            uncertain_alphabet@.skip(position as int),
            calculated_counts@,
        ),
    ensures
        spec_views(r@) == spec_search_results(
            static_alphabet@,
            uncertain_alphabet@.skip(position as int),
            calculated_counts@,
        ),
    decreases uncertain_alphabet@.len() - position,
{
    let ghost pending = uncertain_alphabet@.skip(position as int);
    if position == uncertain_alphabet.len() {
        proof {
            assert(pending =~= Seq::<(char, UncertainLetter)>::empty());
        }
        let mut out: Vec<StaticAlphabet> = Vec::new();
        if validate_solution(calculated_counts, static_alphabet) {
            out.push(*static_alphabet);
            proof {
                assert(spec_views(out@) =~= seq![static_alphabet@]);
            }
        } else {
            proof {
                assert(spec_views(out@) =~= Seq::<Seq<Option<u8>>>::empty());
            }
        }
        return out;
    }
    proof {
        assert(pending[0] == uncertain_alphabet@[position as int]);
    }
    let (index, current_count, hi, uncertain_remaining, zero_or_one_remaining) = setup_descent(
        uncertain_alphabet,
        position,
        calculated_counts,
    );
    let ghost lo = current_count as int;
    let mut out: Vec<StaticAlphabet> = Vec::new();
    if current_count > 99 {
        proof {
            assert(spec_candidate_hi(calculated_counts@, pending[0]) == 99);
            assert(spec_views(out@) =~= Seq::<Seq<Option<u8>>>::empty());
        }
        return out;
    }
    let next_position = position + 1;
    let mut count: usize = current_count;
    while count <= hi
        invariant
            table.wf(),
            position < uncertain_alphabet@.len(),
            pending == uncertain_alphabet@.skip(position as int),
            next_position == position + 1,
            spec_wf_frame(static_alphabet@, pending, calculated_counts@),
            index == spec_pending_index(pending[0]),
            index < 26,
            lo == calculated_counts@[index as int],
            hi as int == spec_candidate_hi(calculated_counts@, pending[0]),
            hi <= 99,
            lo <= count,
            count <= hi + 1,
            uncertain_remaining as int == spec_num_variable(
                uncertain_alphabet@.skip(position + 1),
            ),
            zero_or_one_remaining as int == spec_num_zero_or_one(
                uncertain_alphabet@.skip(position + 1),
            ),
            uncertain_remaining + zero_or_one_remaining == uncertain_alphabet@.len() - position
                - 1,
            spec_search_range(static_alphabet@, pending, calculated_counts@, lo, hi as int)
                == spec_views(out@) + spec_search_range(
                static_alphabet@,
                pending,
                calculated_counts@,
                count as int,
                hi as int,
            ),
        decreases hi + 1 - count,
    {
        proof {
            lemma_descend_wf(static_alphabet@, pending, calculated_counts@, count as u8);
            assert(pending.drop_first() =~= uncertain_alphabet@.skip(position + 1));
        }
        let (new_static_alphabet, new_calculated_counts) = descend(
            static_alphabet,
            calculated_counts,
            count as u8,
            index,
            table,
        );
        let ghost sub_results = spec_search_results(
            new_static_alphabet@,
            uncertain_alphabet@.skip(position + 1),
            new_calculated_counts@,
        );
        if partial_solution_valid(
            &new_static_alphabet,
            &new_calculated_counts,
            uncertain_remaining,
            zero_or_one_remaining,
        ) {
            let ghost out_before = out@;
            let mut sub = solve(
                &new_static_alphabet,
                uncertain_alphabet,
                next_position,
                &new_calculated_counts,
                table,
            );
            proof {
                assert(spec_views(out_before + sub@) =~= spec_views(out_before) + spec_views(
                    sub@,
                ));
            }
            out.append(&mut sub);
        } else {
            proof {
                lemma_pruned_subtree_empty(
                    new_static_alphabet@,
                    uncertain_alphabet@.skip(position + 1),
                    new_calculated_counts@,
                );
            }
        }
        proof {
            assert(spec_search_range(
                static_alphabet@,
                pending,
                calculated_counts@,
                count as int,
                hi as int,
            ) == sub_results + spec_search_range(
                static_alphabet@,
                pending,
                calculated_counts@,
                count + 1,
                hi as int,
            ));
        }
        count = count + 1;
    }
    proof {
        assert(spec_views(out@) + Seq::<Seq<Option<u8>>>::empty() =~= spec_views(out@));
    }
    out
}

} // verus!
