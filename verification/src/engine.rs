//! Wiring the classifier, the projection table and the search together:
//! building the initial frame for a preamble, running the search, and the
//! top-level statements that every emitted solution is a fixed point of the
//! render-and-recount operator.

use vstd::prelude::*;

use crate::bounds::{lemma_clause_contribution, partial_solution_valid};
use crate::classify::{
    add_minimum_s_count, count_initial_static_letters, determine_solvable_letters,
    determine_zero_or_one_only_letters, evaluate_static_alphabet, initialize_static_alphabet,
    lemma_zero_or_one_list_props, spec_count_above_one, spec_evaluated, spec_initial_count,
    spec_solvable, spec_valid_char, spec_valid_preamble, spec_zero_or_one, spec_zero_or_one_list,
    validate_preamble, PreambleError,
};
use crate::counts::{add_letter_counts, lemma_count_of_le_len, LetterCounts};
use crate::letters::{lemma_letter_index_bijection, spec_char_index, spec_letter};
use crate::table::{lemma_projection_le, projection_counts, spec_projection, ProjectionTable};
use crate::search::{
    descend, lemma_descend_wf, lemma_pruned_subtree_empty, setup_descent, solve, validate_solution,
    spec_candidate_hi, spec_descend_alphabet, spec_descend_calc, spec_pending_index,
    spec_search_range, spec_search_results, spec_spellable, spec_views, spec_wf_frame,
    StaticAlphabet, UncertainLetter,
};
use crate::words::spec_in_number_words;

verus! {

/// The raw tally of the preamble plus "and", as a count vector.
pub open spec fn spec_initial_tally(preamble: Seq<char>) -> Seq<usize> {
    Seq::new(26, |i: int| spec_initial_count(preamble, i) as usize)
}

/// The plural-adjusted tally: one anticipated "s" for every letter whose
/// raw tally exceeds one.
pub open spec fn spec_adjusted_tally(preamble: Seq<char>) -> Seq<usize> {
    let t = spec_initial_tally(preamble);
    t.update(18, (t[18] + spec_count_above_one(t, 26)) as usize)
}

/// The initial partial assignment: every solvable letter committed to its
/// adjusted tally plus one (for being named in its own clause), everything
/// else unassigned.
pub open spec fn spec_initial_alphabet(preamble: Seq<char>) -> Seq<Option<u8>> {
    let adjusted = spec_adjusted_tally(preamble);
    Seq::new(
        26,
        |i: int|
            if spec_solvable(adjusted, i) {
                Some((adjusted[i] + 1) as u8)
            } else {
                None
            },
    )
}

/// Every solvable letter's derived count can be spelled: it stays within
/// the projection table's domain of 1 to 99. A preamble that forces some
/// letter past that holds no spellable solution.
pub open spec fn spec_solvable_fit(preamble: Seq<char>) -> bool {
    let adjusted = spec_adjusted_tally(preamble);
    forall|i: int| 0 <= i < 26 && #[trigger] spec_solvable(adjusted, i) ==> adjusted[i] < 99
}

/// The minimum counts the search starts from: the raw tally plus the
/// letters of every solvable letter's clause.
pub open spec fn spec_initial_calc(preamble: Seq<char>) -> Seq<usize> {
    Seq::new(
        26,
        |i: int|
            (spec_initial_tally(preamble)[i] + spec_evaluated(
                spec_initial_alphabet(preamble),
                26,
                i,
            )) as usize,
    )
}

/// The sixteen uncertain letters in descending order of English letter
/// frequency, each with the width of its candidate range: at least the
/// letter's per-clause cap times the number of uncertain letters from it
/// onward, plus — for the letters of the word "one" — one per zero-or-one
/// letter. The widths shrink down the fixed order, which keeps the search
/// space small.
pub open spec fn spec_fixed_uncertain(zoo_count: int) -> Seq<(char, UncertainLetter)> {
    seq![
        ('e', UncertainLetter::Variable((64 + zoo_count) as u8)),
        ('t', UncertainLetter::Variable(45u8)),
        ('o', UncertainLetter::Variable((28 + zoo_count) as u8)),
        ('i', UncertainLetter::Variable(26u8)),
        ('n', UncertainLetter::Variable((48 + zoo_count) as u8)),
        ('s', UncertainLetter::Variable(33u8)),
        ('r', UncertainLetter::Variable(20u8)),
        ('h', UncertainLetter::Variable(18u8)),
        ('l', UncertainLetter::Variable(8u8)),
        ('u', UncertainLetter::Variable(7u8)),
        ('f', UncertainLetter::Variable(18u8)),
        ('y', UncertainLetter::Variable(5u8)),
        ('w', UncertainLetter::Variable(10u8)),
        ('g', UncertainLetter::Variable(8u8)),
        ('v', UncertainLetter::Variable(6u8)),
        ('x', UncertainLetter::Variable(4u8)),
    ]
}

/// The full pending list: the sixteen uncertain letters first, then the
/// zero-or-one letters in ascending order.
pub open spec fn spec_initial_pending(preamble: Seq<char>) -> Seq<(char, UncertainLetter)> {
    let zoo = spec_zero_or_one_list(spec_adjusted_tally(preamble), 26);
    spec_fixed_uncertain(zoo.len() as int) + zoo.map_values(
        |c: char| (c, UncertainLetter::ZeroOrOne),
    )
}

/// Everything the search finds for a preamble: the unpruned enumeration
/// from the initial frame, or nothing when some solvable letter's count
/// cannot be spelled.
pub open spec fn spec_autogram_results(preamble: Seq<char>) -> Seq<Seq<Option<u8>>> {
    if spec_solvable_fit(preamble) {
        spec_search_results(
            spec_initial_alphabet(preamble),
            spec_initial_pending(preamble),
            spec_initial_calc(preamble),
        )
    } else {
        Seq::empty()
    }
}

/// The summed clause projections grow by at most one clause's length per
/// committed letter.
pub proof fn lemma_evaluated_le(alphabet: Seq<Option<u8>>, k: int, i: int)
    requires
        alphabet.len() == 26,
        forall|j: int| 0 <= j < 26 ==> (#[trigger] alphabet[j] matches Some(c) ==> 1 <= c <= 99),
        0 <= k <= 26,
    ensures
        spec_evaluated(alphabet, k, i) <= 17 * k,
    decreases k,
{
    if k > 0 {
        lemma_evaluated_le(alphabet, k - 1, i);
        if alphabet[k - 1] is Some && alphabet[k - 1]->0 > 0 {
            lemma_projection_le(alphabet[k - 1]->0 as int, k - 1, i);
        }
    }
}

/// No committed clause contributes to a letter that occurs in no number
/// word and is itself unassigned.
pub proof fn lemma_evaluated_zero(alphabet: Seq<Option<u8>>, k: int, i: int)
    requires
        alphabet.len() == 26,
        forall|j: int| 0 <= j < 26 ==> (#[trigger] alphabet[j] matches Some(c) ==> 1 <= c <= 99),
        0 <= i < 26,
        k <= 26,
        alphabet[i] is None,
        !spec_in_number_words(i),
    ensures
        spec_evaluated(alphabet, k, i) == 0,
    decreases k,
{
    if k > 0 {
        lemma_evaluated_zero(alphabet, k - 1, i);
        if alphabet[k - 1] is Some && alphabet[k - 1]->0 > 0 {
            lemma_clause_contribution(alphabet[k - 1]->0 as int, k - 1, i);
        }
    }
}

/// A letter outside the number words and distinct from 's' is produced
/// only by being named in its own clause: once if its committed count is
/// nonzero, never otherwise.
proof fn lemma_evaluated_own_only(alphabet: Seq<Option<u8>>, k: int, i: int)
    requires
        alphabet.len() == 26,
        forall|j: int| 0 <= j < 26 ==> (#[trigger] alphabet[j] matches Some(c) ==> c <= 99),
        0 <= i < 26,
        k <= 26,
        !spec_in_number_words(i),
        i != 18,
    ensures
        spec_evaluated(alphabet, k, i) == (if i < k && (alphabet[i] matches Some(c) && c > 0) {
            1nat
        } else {
            0nat
        }),
    decreases k,
{
    if k > 0 {
        lemma_evaluated_own_only(alphabet, k - 1, i);
        if alphabet[k - 1] is Some && alphabet[k - 1]->0 > 0 {
            if k - 1 == i {
                crate::bounds::lemma_own_clause_contribution(alphabet[k - 1]->0 as int, i);
            } else {
                lemma_clause_contribution(alphabet[k - 1]->0 as int, k - 1, i);
            }
        }
    }
}

/// A preamble that forces a solvable letter's count past ninety-nine
/// admits no spellable fixed point at all: the letter already occurs at
/// least ninety-nine times before its own clause names it once more, and
/// no count up to ninety-nine can state that.
pub proof fn lemma_unspellable_preamble_has_no_fixed_point(preamble: Seq<char>, s: Seq<Option<u8>>)
    requires
        preamble.len() + 3 <= usize::MAX,
        !spec_solvable_fit(preamble),
        s.len() == 26,
        forall|i: int| 0 <= i < 26 ==> (#[trigger] s[i]) is Some,
        spec_spellable(s),
    ensures
        !spec_fixed_point(s, preamble),
{
    reveal_strlit("and");
    let adjusted = spec_adjusted_tally(preamble);
    let i = choose|i: int| 0 <= i < 26 && spec_solvable(adjusted, i) && adjusted[i] >= 99;
    assert(i != 18) by {
        assert(spec_in_number_words(18));
    }
    lemma_count_of_le_len(preamble + "and"@, spec_letter(i));
    assert(spec_initial_count(preamble, i) >= 99);
    lemma_evaluated_own_only(s, 26, i);
    assert(s[i] is Some);
    if spec_fixed_point(s, preamble) {
        assert(s[i]->0 as int == spec_recomputed_counts(s, preamble)[i]);
        assert(false);
    }
}

/// Committing a count into an unassigned slot adds exactly that clause's
/// projection to the recomputed sum (and nothing, for a count of zero).
pub proof fn lemma_evaluated_update(alphabet: Seq<Option<u8>>, k: int, j: int, c: u8, i: int)
    requires
        alphabet.len() == 26,
        0 <= j < 26,
        k <= 26,
        alphabet[j] is None,
    ensures
        spec_evaluated(alphabet.update(j, Some(c)), k, i) == spec_evaluated(alphabet, k, i) + (
        if j < k && c > 0 {
            spec_projection(c as int, j, i)
        } else {
            0nat
        }),
    decreases k,
{
    if k > 0 {
        lemma_evaluated_update(alphabet, k - 1, j, c, i);
    }
}

/// One preamble's initial search frame: the solvable letters committed,
/// the pending variables in search order, the minimum counts, and the
/// projection table.
pub struct SearchSetup {
    pub static_alphabet: StaticAlphabet,
    pub uncertain_alphabet: Vec<(char, UncertainLetter)>,
    pub minimum_counts: LetterCounts,
    pub table: ProjectionTable,
}

impl SearchSetup {
    /// The frame is fit to search: the table is built and the frame
    /// invariant holds.
    pub open spec fn frame_wf(&self) -> bool {
        &&& self.table.wf()
        &&& self.uncertain_alphabet@.len() > 0
        &&& spec_wf_frame(self.static_alphabet@, self.uncertain_alphabet@, self.minimum_counts@)
    }

    /// The setup is the initial frame that the given preamble determines.
    pub open spec fn describes(&self, preamble: Seq<char>) -> bool {
        &&& self.static_alphabet@ == spec_initial_alphabet(preamble)
        &&& self.uncertain_alphabet@ == spec_initial_pending(preamble)
        &&& self.minimum_counts@ == spec_initial_calc(preamble)
    }
}

/// The sixteen uncertain letters and their index facts: valid, distinct
/// number-word letters with bounded range widths.
proof fn lemma_fixed_uncertain_props(zoo_count: int)
    requires
        0 <= zoo_count <= 26,
    ensures
        spec_fixed_uncertain(zoo_count).len() == 16,
        forall|k: int|
            0 <= k < 16 ==> (spec_char_index(
                (#[trigger] spec_fixed_uncertain(zoo_count)[k]).0,
            ) matches Some(i) && 0 <= i < 26 && spec_in_number_words(i)),
        forall|k1: int, k2: int|
            0 <= k1 < k2 < 16 ==> spec_char_index((#[trigger] spec_fixed_uncertain(zoo_count)[k1]).0)
                != spec_char_index((#[trigger] spec_fixed_uncertain(zoo_count)[k2]).0),
        forall|k: int|
            0 <= k < 16 ==> ((#[trigger] spec_fixed_uncertain(zoo_count)[k]).1
                matches UncertainLetter::Variable(m) && m <= 100),
{
}

/// Builds the initial frame for a preamble. Returns the input error when
/// some character is invalid; returns no frame when a solvable letter's
/// derived count cannot be spelled, in which case the preamble has no
/// spellable solution.
#[verifier::loop_isolation(false)]
pub fn prepare_search(preamble: &str) -> (r: Result<Option<SearchSetup>, PreambleError>)
    requires
        preamble@.len() + 2000 <= usize::MAX,
    ensures
        r is Err <==> !spec_valid_preamble(preamble@),
        r matches Err(PreambleError::InvalidCharacter(c)) ==> !spec_valid_char(c) && exists|
            k: int,
        | 0 <= k < preamble@.len() && preamble@[k] == c,
        r matches Ok(Some(s)) ==> s.frame_wf() && s.describes(preamble@) && spec_solvable_fit(
            preamble@,
        ),
        r matches Ok(None) ==> !spec_solvable_fit(preamble@),
{
    let ghost p = preamble@;
    if let Err(e) = validate_preamble(preamble) {
        return Err(e);
    }
    let initial_static_counts = count_initial_static_letters(preamble);
    proof {
        reveal_strlit("and");
        assert forall|i: int| 0 <= i < 26 implies #[trigger] initial_static_counts@[i]
            <= p.len() + 3 by {
            lemma_count_of_le_len(p + "and"@, spec_letter(i));
        }
        assert(initial_static_counts@ =~= spec_initial_tally(p));
    }
    let plural_static_counts = add_minimum_s_count(&initial_static_counts);
    proof {
        crate::classify::lemma_count_above_one_le(initial_static_counts@, 26);
        assert(plural_static_counts@ =~= spec_adjusted_tally(p));
    }
    let ghost adjusted = spec_adjusted_tally(p);
    let solvable = determine_solvable_letters(&plural_static_counts);
    let mut i: usize = 0;
    while i < 26
        invariant
            i <= 26,
            plural_static_counts@ == adjusted,
            forall|k: int| 0 <= k < 26 ==> solvable@[k] == spec_solvable(adjusted, k),
            forall|k: int| 0 <= k < i && #[trigger] spec_solvable(adjusted, k) ==> adjusted[k]
                < 99,
        decreases 26 - i,
    {
        if solvable[i] && plural_static_counts[i] >= 99 {
            return Ok(None);
        }
        i = i + 1;
    }
    let zero_or_one_chars = determine_zero_or_one_only_letters(&solvable, &plural_static_counts);
    let ghost zs = spec_zero_or_one_list(adjusted, 26);
    proof {
        lemma_zero_or_one_list_props(adjusted, 26);
        lemma_letter_index_bijection();
    }
    let static_alphabet = initialize_static_alphabet(&plural_static_counts, &solvable);
    proof {
        assert(static_alphabet@ =~= spec_initial_alphabet(p));
    }
    let evaluated_static = evaluate_static_alphabet(&static_alphabet);
    proof {
        assert forall|k: int| 0 <= k < 26 implies #[trigger] evaluated_static@[k]
            + initial_static_counts@[k] <= usize::MAX by {
            lemma_evaluated_le(static_alphabet@, 26, k);
        }
    }
    let minimum_counts = add_letter_counts(&evaluated_static, &initial_static_counts);
    proof {
        assert(minimum_counts@ =~= spec_initial_calc(p));
    }
    let zoo_count: u8 = zero_or_one_chars.len() as u8;
    let mut uncertain_alphabet: Vec<(char, UncertainLetter)> = Vec::new();
    uncertain_alphabet.push(('e', UncertainLetter::Variable(64 + zoo_count)));
    uncertain_alphabet.push(('t', UncertainLetter::Variable(45)));
    uncertain_alphabet.push(('o', UncertainLetter::Variable(28 + zoo_count)));
    uncertain_alphabet.push(('i', UncertainLetter::Variable(26)));
    uncertain_alphabet.push(('n', UncertainLetter::Variable(48 + zoo_count)));
    uncertain_alphabet.push(('s', UncertainLetter::Variable(33)));
    uncertain_alphabet.push(('r', UncertainLetter::Variable(20)));
    uncertain_alphabet.push(('h', UncertainLetter::Variable(18)));
    uncertain_alphabet.push(('l', UncertainLetter::Variable(8)));
    uncertain_alphabet.push(('u', UncertainLetter::Variable(7)));
    uncertain_alphabet.push(('f', UncertainLetter::Variable(18)));
    uncertain_alphabet.push(('y', UncertainLetter::Variable(5)));
    uncertain_alphabet.push(('w', UncertainLetter::Variable(10)));
    uncertain_alphabet.push(('g', UncertainLetter::Variable(8)));
    uncertain_alphabet.push(('v', UncertainLetter::Variable(6)));
    uncertain_alphabet.push(('x', UncertainLetter::Variable(4)));
    proof {
        assert(uncertain_alphabet@ =~= spec_fixed_uncertain(zs.len() as int));
    }
    let ghost zentries = zs.map_values(|c: char| (c, UncertainLetter::ZeroOrOne));
    proof {
        assert(uncertain_alphabet@ =~= spec_fixed_uncertain(zs.len() as int)
            + zentries.subrange(0, 0));
    }
    let mut m: usize = 0;
    while m < zero_or_one_chars.len()
        invariant
            m <= zero_or_one_chars@.len(),
            zero_or_one_chars@ == zs,
            zentries == zs.map_values(|c: char| (c, UncertainLetter::ZeroOrOne)),
            uncertain_alphabet@ == spec_fixed_uncertain(zs.len() as int) + zentries.subrange(
                0,
                m as int,
            ),
        decreases zero_or_one_chars@.len() - m,
    {
        uncertain_alphabet.push((zero_or_one_chars[m], UncertainLetter::ZeroOrOne));
        proof {
            assert(zentries.subrange(0, m + 1) =~= zentries.subrange(0, m as int).push(
                (zs[m as int], UncertainLetter::ZeroOrOne),
            ));
            assert(spec_fixed_uncertain(zs.len() as int) + zentries.subrange(0, m + 1)
                =~= (spec_fixed_uncertain(zs.len() as int) + zentries.subrange(0, m as int)).push(
                (zs[m as int], UncertainLetter::ZeroOrOne),
            ));
        }
        m = m + 1;
    }
    proof {
        assert(zentries.subrange(0, zs.len() as int) =~= zentries);
        assert(uncertain_alphabet@ =~= spec_initial_pending(p));
    }
    let table = ProjectionTable::build();
    proof {
        lemma_initial_frame_wf(p);
    }
    Ok(
        Some(
            SearchSetup {
                static_alphabet,
                uncertain_alphabet,
                minimum_counts,
                table,
            },
        ),
    )
}

/// For a preamble whose solvable counts fit, the initial frame satisfies
/// the search invariant.
proof fn lemma_initial_frame_wf(p: Seq<char>)
    requires
        p.len() + 2000 <= usize::MAX,
        spec_solvable_fit(p),
    ensures
        spec_wf_frame(spec_initial_alphabet(p), spec_initial_pending(p), spec_initial_calc(p)),
{
    reveal_strlit("and");
    let adjusted = spec_adjusted_tally(p);
    let alphabet = spec_initial_alphabet(p);
    let pending = spec_initial_pending(p);
    let calc = spec_initial_calc(p);
    let zs = spec_zero_or_one_list(adjusted, 26);
    let zentries = zs.map_values(|c: char| (c, UncertainLetter::ZeroOrOne));
    let fixed = spec_fixed_uncertain(zs.len() as int);
    lemma_zero_or_one_list_props(adjusted, 26);
    lemma_fixed_uncertain_props(zs.len() as int);
    lemma_letter_index_bijection();
    assert(pending.len() == 16 + zs.len());
    assert forall|j: int| 0 <= j < 26 implies (#[trigger] alphabet[j] matches Some(c) ==> 1 <= c
        <= 99) by {
        if spec_solvable(adjusted, j) {
            assert(adjusted[j] < 99);
        }
    }
    assert forall|k: int| 0 <= k < pending.len() implies spec_char_index(
        (#[trigger] pending[k]).0,
    ) is Some && 0 <= spec_pending_index(pending[k]) < 26 by {
        if k < 16 {
            assert(pending[k] == fixed[k]);
        } else {
            assert(pending[k] == zentries[k - 16]);
            assert(pending[k].0 == zs[k - 16]);
        }
    }
    assert forall|k1: int, k2: int|
        0 <= k1 < k2 < pending.len() implies spec_pending_index(#[trigger] pending[k1])
        != spec_pending_index(#[trigger] pending[k2]) by {
        if k2 < 16 {
            assert(pending[k1] == fixed[k1] && pending[k2] == fixed[k2]);
        } else if k1 < 16 {
            assert(pending[k1] == fixed[k1] && pending[k2] == zentries[k2 - 16]);
            assert(spec_zero_or_one(adjusted, spec_pending_index(pending[k2])));
        } else {
            assert(pending[k1] == zentries[k1 - 16] && pending[k2] == zentries[k2 - 16]);
        }
    }
    assert forall|k: int| 0 <= k < pending.len() implies alphabet[spec_pending_index(
        #[trigger] pending[k],
    )] is None by {
        let ik = spec_pending_index(pending[k]);
        if k < 16 {
            assert(pending[k] == fixed[k]);
            assert(spec_in_number_words(ik));
        } else {
            assert(pending[k] == zentries[k - 16]);
            assert(spec_zero_or_one(adjusted, ik));
        }
        assert(!spec_solvable(adjusted, ik));
    }
    assert forall|k: int|
        0 <= k < pending.len() && (#[trigger] pending[k]).1 is ZeroOrOne implies calc[
        spec_pending_index(pending[k])] == 0 && !spec_in_number_words(
        spec_pending_index(pending[k]),
    ) by {
        let ik = spec_pending_index(pending[k]);
        assert(k >= 16);
        assert(pending[k] == zentries[k - 16]);
        assert(spec_zero_or_one(adjusted, ik));
        assert(ik != 18) by {
            assert(spec_in_number_words(18));
        }
        assert(spec_initial_tally(p)[ik] == adjusted[ik]);
        lemma_evaluated_zero(alphabet, 26, ik);
    }
    assert forall|i: int| 0 <= i < 26 implies #[trigger] calc[i] + 20 * pending.len()
        <= usize::MAX by {
        lemma_count_of_le_len(p + "and"@, spec_letter(i));
        lemma_evaluated_le(alphabet, 26, i);
    }
}

/// The counts that rendering a (partial) assignment and recounting the
/// sentence would produce: the raw preamble tally plus the letters of every
/// committed clause.
pub open spec fn spec_recomputed_counts(alphabet: Seq<Option<u8>>, preamble: Seq<char>) -> Seq<
    int,
> {
    Seq::new(
        26,
        |i: int| spec_initial_count(preamble, i) + spec_evaluated(alphabet, 26, i) as int,
    )
}

/// The incremental calculated counts agree with a recomputation from
/// scratch.
pub open spec fn spec_calc_consistent(
    alphabet: Seq<Option<u8>>,
    calc: Seq<usize>,
    preamble: Seq<char>,
) -> bool {
    forall|i: int| 0 <= i < 26 ==> #[trigger] calc[i] == spec_recomputed_counts(alphabet, preamble)[i]
}

/// A complete assignment is a fixed point when recomputing its counts from
/// its own committed letters reproduces every committed count exactly.
pub open spec fn spec_fixed_point(s: Seq<Option<u8>>, preamble: Seq<char>) -> bool {
    forall|i: int|
        0 <= i < 26 ==> (#[trigger] s[i] matches Some(c) ==> c as int == spec_recomputed_counts(
            s,
            preamble,
        )[i])
}

/// Every leaf the enumeration keeps is a fixed point, given that the
/// frame's incremental counts agree with the recomputation so far.
proof fn lemma_results_fixed_points(
    alphabet: Seq<Option<u8>>,
    pending: Seq<(char, UncertainLetter)>,
    calc: Seq<usize>,
    preamble: Seq<char>,
    s: Seq<Option<u8>>,
)
    requires
        spec_wf_frame(alphabet, pending, calc),
        spec_calc_consistent(alphabet, calc, preamble),
        spec_search_results(alphabet, pending, calc).contains(s),
    ensures
        spec_fixed_point(s, preamble),
    decreases pending.len(), 200int,
{
    if pending.len() == 0 {
        assert(s == alphabet);
    } else {
        lemma_range_fixed_points(
            alphabet,
            pending,
            calc,
            calc[spec_pending_index(pending[0])] as int,
            spec_candidate_hi(calc, pending[0]),
            preamble,
            s,
        );
    }
}

proof fn lemma_range_fixed_points(
    alphabet: Seq<Option<u8>>,
    pending: Seq<(char, UncertainLetter)>,
    calc: Seq<usize>,
    count: int,
    hi: int,
    preamble: Seq<char>,
    s: Seq<Option<u8>>,
)
    requires
        spec_wf_frame(alphabet, pending, calc),
        pending.len() > 0,
        spec_calc_consistent(alphabet, calc, preamble),
        spec_search_range(alphabet, pending, calc, count, hi).contains(s),
    ensures
        spec_fixed_point(s, preamble),
    decreases pending.len(), (if count > hi {
        0int
    } else {
        hi + 1 - count
    }),
{
    if count > hi || count < 0 || hi > 99 {
        assert(false);
    } else {
        let idx0 = spec_pending_index(pending[0]);
        let c8 = count as u8;
        lemma_descend_wf(alphabet, pending, calc, c8);
        let alphabet2 = spec_descend_alphabet(alphabet, c8, idx0);
        let calc2 = spec_descend_calc(calc, c8, idx0);
        let sub = spec_search_results(alphabet2, pending.drop_first(), calc2);
        let rest = spec_search_range(alphabet, pending, calc, count + 1, hi);
        assert forall|i: int| 0 <= i < 26 implies #[trigger] calc2[i] == spec_recomputed_counts(
            alphabet2,
            preamble,
        )[i] by {
            lemma_evaluated_update(alphabet, 26, idx0, c8, i);
        }
        let m = choose|m: int|
            0 <= m < spec_search_range(alphabet, pending, calc, count, hi).len()
                && spec_search_range(alphabet, pending, calc, count, hi)[m] == s;
        if m < sub.len() {
            assert(sub.contains(s));
            lemma_results_fixed_points(alphabet2, pending.drop_first(), calc2, preamble, s);
        } else {
            assert(rest[m - sub.len()] == s);
            assert(rest.contains(s));
            lemma_range_fixed_points(alphabet, pending, calc, count + 1, hi, preamble, s);
        }
    }
}

/// The fixed-point property: every solution the search emits, recounted
/// from its own committed letters, reproduces itself exactly.
pub proof fn lemma_solutions_are_fixed_points(preamble: Seq<char>, s: Seq<Option<u8>>)
    requires
        preamble.len() + 2000 <= usize::MAX,
        spec_autogram_results(preamble).contains(s),
    ensures
        spec_fixed_point(s, preamble),
{
    if spec_solvable_fit(preamble) {
        lemma_initial_frame_wf(preamble);
        let alphabet = spec_initial_alphabet(preamble);
        let calc = spec_initial_calc(preamble);
        reveal_strlit("and");
        assert forall|j: int| 0 <= j < 26 implies (#[trigger] alphabet[j] matches Some(c) ==> 1
            <= c <= 99) by {
            if spec_solvable(spec_adjusted_tally(preamble), j) {
                assert(spec_adjusted_tally(preamble)[j] < 99);
            }
        }
        assert forall|i: int| 0 <= i < 26 implies #[trigger] calc[i] == spec_recomputed_counts(
            alphabet,
            preamble,
        )[i] by {
            lemma_count_of_le_len(preamble + "and"@, spec_letter(i));
            lemma_evaluated_le(alphabet, 26, i);
        }
        lemma_results_fixed_points(
            alphabet,
            spec_initial_pending(preamble),
            calc,
            preamble,
            s,
        );
    }
}

impl SearchSetup {
    /// Runs the whole search sequentially and returns every solution, in
    /// candidate order.
    pub fn solve_all(&self) -> (r: Vec<StaticAlphabet>)
        requires
            self.frame_wf(),
        ensures
            spec_views(r@) == spec_search_results(
                self.static_alphabet@,
                self.uncertain_alphabet@,
                self.minimum_counts@,
            ),
    {
        proof {
            assert(self.uncertain_alphabet@.skip(0) =~= self.uncertain_alphabet@);
        }
        solve(&self.static_alphabet, &self.uncertain_alphabet, 0, &self.minimum_counts, &self.table)
    }

    /// The candidate range of the topmost pending letter. Each count in it
    /// is one independent branch of the search.
    pub fn branch_range(&self) -> (r: (usize, usize))
        requires
            self.frame_wf(),
        ensures
            r.0 == self.minimum_counts@[spec_pending_index(self.uncertain_alphabet@[0])],
            r.1 as int == spec_candidate_hi(self.minimum_counts@, self.uncertain_alphabet@[0]),
    {
        let (_, lo, hi, _, _) = setup_descent(&self.uncertain_alphabet, 0, &self.minimum_counts);
        (lo, hi)
    }

    /// One branch of the search: everything found under a single candidate
    /// count of the topmost pending letter. Branches are independent, so
    /// callers may run them on separate workers; concatenating the branch
    /// results in increasing candidate order yields exactly what
    /// `solve_all` returns.
    pub fn solve_branch(&self, count: usize) -> (r: Vec<StaticAlphabet>)
        requires
            self.frame_wf(),
        ensures
            spec_views(r@) == spec_search_range(
                self.static_alphabet@,
                self.uncertain_alphabet@,
                self.minimum_counts@,
                count as int,
                count as int,
            ),
    {
        let ghost pending = self.uncertain_alphabet@;
        let mut out: Vec<StaticAlphabet> = Vec::new();
        if count > 99 {
            proof {
                assert(spec_views(out@) =~= Seq::<Seq<Option<u8>>>::empty());
            }
            return out;
        }
        let (index, _, _, uncertain_remaining, zero_or_one_remaining) = setup_descent(
            &self.uncertain_alphabet,
            0,
            &self.minimum_counts,
        );
        proof {
            lemma_descend_wf(self.static_alphabet@, pending, self.minimum_counts@, count as u8);
            assert(pending.drop_first() =~= self.uncertain_alphabet@.skip(1));
        }
        let (new_static_alphabet, new_calculated_counts) = descend(
            &self.static_alphabet,
            &self.minimum_counts,
            count as u8,
            index,
            &self.table,
        );
        let ghost sub_results = spec_search_results(
            new_static_alphabet@,
            self.uncertain_alphabet@.skip(1),
            new_calculated_counts@,
        );
        if partial_solution_valid(
            &new_static_alphabet,
            &new_calculated_counts,
            uncertain_remaining,
            zero_or_one_remaining,
        ) {
            let mut sub = solve(
                &new_static_alphabet,
                &self.uncertain_alphabet,
                1,
                &new_calculated_counts,
                &self.table,
            );
            proof {
                assert(spec_views(out@ + sub@) =~= spec_views(out@) + spec_views(sub@));
            }
            out.append(&mut sub);
        } else {
            proof {
                lemma_pruned_subtree_empty(
                    new_static_alphabet@,
                    self.uncertain_alphabet@.skip(1),
                    new_calculated_counts@,
                );
            }
        }
        proof {
            assert(spec_search_range(
                self.static_alphabet@,
                pending,
                self.minimum_counts@,
                count as int,
                count as int,
            ) == sub_results + spec_search_range(
                self.static_alphabet@,
                pending,
                self.minimum_counts@,
                count + 1,
                count as int,
            ));
            assert(spec_views(out@) + Seq::<Seq<Option<u8>>>::empty() =~= spec_views(out@));
        }
        out
    }
}

/// Writing any single letter's committed count to a value other than the
/// one that recomputing the mutated assignment implies leaves something
/// that is not a fixed point: the validator rejects it.
pub proof fn lemma_mutation_breaks_fixed_point(
    preamble: Seq<char>,
    s: Seq<Option<u8>>,
    i: int,
    c: u8,
)
    requires
        s.len() == 26,
        0 <= i < 26,
        c as int != spec_recomputed_counts(s.update(i, Some(c)), preamble)[i],
    ensures
        !spec_fixed_point(s.update(i, Some(c)), preamble),
{
    assert(s.update(i, Some(c))[i] == Some(c));
}

/// The authoritative correctness check: recomputes the counts of a
/// complete assignment from scratch — the raw preamble tally plus every
/// committed clause's letters — and compares them to the assignment
/// itself. The search's incremental bookkeeping must always agree with
/// this recomputation.
#[verifier::loop_isolation(false)]
pub fn is_valid_solution(static_alphabet: &StaticAlphabet, preamble: &str) -> (r: bool)
    requires
        preamble@.len() + 2000 <= usize::MAX,
        forall|i: int|
            0 <= i < 26 ==> (#[trigger] static_alphabet@[i] matches Some(c) ==> c <= 99),
    ensures
        r == spec_fixed_point(static_alphabet@, preamble@),
{
    let ghost p = preamble@;
    let mut recomputed = count_initial_static_letters(preamble);
    proof {
        reveal_strlit("and");
        assert forall|i: int| 0 <= i < 26 implies #[trigger] recomputed@[i] <= p.len() + 3 by {
            lemma_count_of_le_len(p + "and"@, spec_letter(i));
        }
    }
    let mut k: usize = 0;
    while k < 26
        invariant
            k <= 26,
            forall|i: int|
                0 <= i < 26 ==> #[trigger] recomputed@[i] == spec_initial_count(p, i)
                    + spec_evaluated(static_alphabet@, k as int, i),
            forall|i: int| 0 <= i < 26 ==> #[trigger] recomputed@[i] <= p.len() + 3 + 17 * k,
        decreases 26 - k,
    {
        if let Some(count) = static_alphabet[k] {
            if count > 0 {
                let contribution = projection_counts(count, k);
                proof {
                    assert forall|i: int| 0 <= i < 26 implies #[trigger] contribution@[i]
                        <= 17 by {
                        lemma_projection_le(count as int, k as int, i);
                    }
                }
                recomputed = add_letter_counts(&recomputed, &contribution);
            }
        }
        k = k + 1;
    }
    let matches_itself = validate_solution(&recomputed, static_alphabet);
    proof {
        assert forall|i: int| 0 <= i < 26 implies #[trigger] recomputed@[i]
            == spec_recomputed_counts(static_alphabet@, p)[i] by {
        }
    }
    matches_itself
}

/// Searches one preamble end to end: validates it, derives the initial
/// frame, and runs the pruned search. The result holds exactly what the
/// unpruned enumeration over the same candidate ranges keeps, and every
/// entry is a fixed point: rendered and recounted, it reproduces itself.
pub fn solve_autogram(preamble: &str) -> (r: Result<Vec<StaticAlphabet>, PreambleError>)
    requires
        preamble@.len() + 2000 <= usize::MAX,
    ensures
        r is Err <==> !spec_valid_preamble(preamble@),
        r matches Err(PreambleError::InvalidCharacter(c)) ==> !spec_valid_char(c) && exists|
            k: int,
        | 0 <= k < preamble@.len() && preamble@[k] == c,
        r matches Ok(v) ==> spec_views(v@) == spec_autogram_results(preamble@),
        r matches Ok(v) ==> forall|m: int|
            0 <= m < v@.len() ==> spec_fixed_point(#[trigger] v@[m]@, preamble@),
{
    match prepare_search(preamble) {
        Err(e) => Err(e),
        Ok(None) => {
            let out: Vec<StaticAlphabet> = Vec::new();
            proof {
                assert(spec_views(out@) =~= Seq::<Seq<Option<u8>>>::empty());
            }
            Ok(out)
        },
        Ok(Some(setup)) => {
            let out = setup.solve_all();
            proof {
                assert forall|m: int| 0 <= m < out@.len() implies spec_fixed_point(
                    #[trigger] out@[m]@,
                    preamble@,
                ) by {
                    assert(spec_views(out@)[m] == out@[m]@);
                    assert(spec_autogram_results(preamble@).contains(out@[m]@));
                    lemma_solutions_are_fixed_points(preamble@, out@[m]@);
                }
            }
            Ok(out)
        },
    }
}

} // verus!
