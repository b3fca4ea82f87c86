use autogram::bounds::{
    contains_excessive_counts, has_low_counts, partial_solution_valid, uncertain_max_per_word,
};
use autogram::classify::{
    add_minimum_s_count, count_initial_static_letters, determine_solvable_letters,
    determine_zero_or_one_only_letters, evaluate_static_alphabet, letter_in_number_words,
    validate_preamble, PreambleError,
};
use autogram::counts::{add_letter_counts, tally_letters, LetterCounts};
use autogram::engine::{is_valid_solution, prepare_search, solve_autogram, SearchSetup};
use autogram::letters::{char_to_index, index_to_char, letter_str, lowercase_letters};
use autogram::output::{build_written_solution, count_to_string, find_last_printable_letter};
use autogram::search::{descend, solve, validate_solution, StaticAlphabet, UncertainLetter};
use autogram::table::{projection_counts, ProjectionTable};
use autogram::words::lookup_number_word;

#[test]
fn test_build_written_solution() {
    let static_alphabet = [
        Some(2),
        None,
        Some(2),
        Some(2),
        Some(28),
        Some(5),
        Some(3),
        Some(8),
        Some(11),
        None,
        None,
        Some(3),
        Some(2),
        Some(13),
        Some(9),
        Some(2),
        None,
        Some(5),
        Some(25),
        Some(23),
        None,
        Some(6),
        Some(10),
        Some(2),
        Some(5),
        Some(1),
    ];
    let written = build_written_solution(&static_alphabet, "this sentence employs");
    assert_eq!(written, "this sentence employs two a's, two c's, two d's, twenty-eight e's, five f's, three g's, eight h's, eleven i's, three l's, two m's, thirteen n's, nine o's, two p's, five r's, twenty-five s's, twenty-three t's, six v's, ten w's, two x's, five y's and one z.")
}

#[test]
fn test_validate_solution() {
    let static_alphabet = [
        Some(2),
        None,
        Some(2),
        Some(2),
        Some(28),
        Some(5),
        Some(3),
        Some(8),
        Some(11),
        None,
        None,
        Some(3),
        Some(2),
        Some(13),
        Some(9),
        Some(2),
        None,
        Some(5),
        Some(25),
        Some(23),
        None,
        Some(6),
        Some(10),
        Some(2),
        Some(5),
        Some(1),
    ];
    let initial_static_counts = count_initial_static_letters("this sentence employs");
    let letter_counts = evaluate_static_alphabet(&static_alphabet);
    let summed_counts = add_letter_counts(&initial_static_counts, &letter_counts);

    let mut results: Vec<bool> = vec![];
    for (proposed, evaluated) in static_alphabet.iter().zip(summed_counts.iter()) {
        match *proposed {
            Some(p) => {
                results.push(p as usize == *evaluated);
            }
            None => {
                results.push(0 == *evaluated);
            }
        }
    }
    assert!(!results.contains(&false));
}

#[test]
fn test_validate_solution_invalid() {
    let static_alphabet = [
        Some(2),
        None,
        Some(2),
        Some(2),
        Some(28),
        Some(4),
        Some(3),
        Some(8),
        Some(11),
        None,
        None,
        Some(3),
        Some(2),
        Some(13),
        Some(9),
        Some(2),
        None,
        Some(5),
        Some(25),
        Some(23),
        None,
        Some(6),
        Some(10),
        Some(2),
        Some(5),
        Some(1),
    ];
    let initial_static_counts = count_initial_static_letters("this sentence employs");
    let letter_counts = evaluate_static_alphabet(&static_alphabet);
    let summed_counts = add_letter_counts(&initial_static_counts, &letter_counts);

    let mut results: Vec<bool> = vec![];
    for (proposed, evaluated) in static_alphabet.iter().zip(summed_counts.iter()) {
        match *proposed {
            Some(p) => {
                results.push(p as usize == *evaluated);
            }
            None => {
                results.push(0 == *evaluated);
            }
        }
    }
    assert!(results.contains(&false));
}

#[test]
fn test_validate_solution_invalid2() {
    let static_alphabet = [
        Some(2),
        None,
        Some(2),
        Some(2),
        Some(28),
        Some(5),
        Some(3),
        Some(8),
        Some(11),
        None,
        None,
        Some(3),
        Some(2),
        Some(13),
        Some(9),
        Some(2),
        None,
        Some(5),
        Some(25),
        Some(23),
        None,
        Some(6),
        Some(10),
        Some(2),
        Some(5),
        Some(1),
    ];
    let initial_static_counts = count_initial_static_letters("this sentence has");
    let letter_counts = evaluate_static_alphabet(&static_alphabet);
    let summed_counts = add_letter_counts(&initial_static_counts, &letter_counts);

    let mut results: Vec<bool> = vec![];
    for (proposed, evaluated) in static_alphabet.iter().zip(summed_counts.iter()) {
        match *proposed {
            Some(p) => {
                results.push(p as usize == *evaluated);
            }
            None => {
                results.push(0 == *evaluated);
            }
        }
    }
    assert!(results.contains(&false));
}

// "one z" produces exactly one o, one n, one e and one z.
#[test]
fn test_projection_entry_one_z() {
    let table = ProjectionTable::build();
    let entry = table.lookup(1, 25);
    let mut expected: LetterCounts = [0; 26];
    expected[14] = 1;
    expected[13] = 1;
    expected[4] = 1;
    expected[25] = 1;
    assert_eq!(*entry, expected);
}

// "five r's" produces one each of f, i, v, e, r and s.
#[test]
fn test_projection_entry_five_r() {
    let entry = projection_counts(5, 17);
    let mut expected: LetterCounts = [0; 26];
    expected[5] = 1;
    expected[8] = 1;
    expected[21] = 1;
    expected[4] = 1;
    expected[17] = 1;
    expected[18] = 1;
    assert_eq!(entry, expected);
}

#[test]
fn test_lookup_number_word_spellings() {
    assert_eq!(lookup_number_word(2), "two");
    assert_eq!(lookup_number_word(17), "seventeen");
    assert_eq!(lookup_number_word(20), "twenty");
    assert_eq!(lookup_number_word(21), "twenty-one");
    assert_eq!(lookup_number_word(40), "forty");
    assert_eq!(lookup_number_word(55), "fifty-five");
    assert_eq!(lookup_number_word(99), "ninety-nine");
}

#[test]
fn test_count_to_string_clauses() {
    assert_eq!(count_to_string(17, 5), "five r's");
    assert_eq!(count_to_string(25, 1), "one z");
    assert_eq!(count_to_string(4, 28), "twenty-eight e's");
}

#[test]
fn test_find_last_printable_letter_cases() {
    let mut alphabet: StaticAlphabet = [None; 26];
    assert_eq!(find_last_printable_letter(&alphabet), 0);
    alphabet[0] = Some(2);
    assert_eq!(find_last_printable_letter(&alphabet), 0);
    alphabet[25] = Some(0);
    assert_eq!(find_last_printable_letter(&alphabet), 0);
    alphabet[25] = Some(1);
    assert_eq!(find_last_printable_letter(&alphabet), 25);
}

// The last clause is joined by " and " even when the letters before it are
// not consecutive.
#[test]
fn test_render_with_gap() {
    let mut alphabet: StaticAlphabet = [None; 26];
    alphabet[0] = Some(2);
    alphabet[2] = Some(2);
    let written = build_written_solution(&alphabet, "pre");
    assert_eq!(written, "pre two a's and two c's.");
}

#[test]
fn test_render_single_clause() {
    let mut alphabet: StaticAlphabet = [None; 26];
    alphabet[25] = Some(1);
    let written = build_written_solution(&alphabet, "xyz");
    assert_eq!(written, "xyz and one z.");
}

#[test]
fn test_letter_index_roundtrip() {
    for i in 0..26usize {
        let c = index_to_char(&i);
        assert_eq!(char_to_index(&c), Some(i));
    }
    assert_eq!(char_to_index(&'A'), None);
    assert_eq!(char_to_index(&' '), None);
    assert_eq!(letter_str(4), "e");
    let letters = lowercase_letters();
    assert_eq!(letters.len(), 26);
    assert_eq!(letters[0], 'a');
    assert_eq!(letters[25], 'z');
    for (i, c) in letters.iter().enumerate() {
        assert_eq!(char_to_index(c), Some(i));
    }
}

#[test]
fn test_tally_letters_counts() {
    let counts = tally_letters("abc cba");
    assert_eq!(counts[0], 2);
    assert_eq!(counts[1], 2);
    assert_eq!(counts[2], 2);
    assert_eq!(counts[3], 0);
    let with_and = count_initial_static_letters("abc");
    assert_eq!(with_and[0], 2);
    assert_eq!(with_and[1], 1);
    assert_eq!(with_and[2], 1);
    assert_eq!(with_and[3], 1);
    assert_eq!(with_and[13], 1);
}

#[test]
fn test_add_minimum_s_count_plurals() {
    let mut counts: LetterCounts = [0; 26];
    counts[0] = 2;
    counts[1] = 1;
    counts[4] = 3;
    counts[18] = 1;
    let adjusted = add_minimum_s_count(&counts);
    assert_eq!(adjusted[18], 3);
    assert_eq!(adjusted[0], 2);
    assert_eq!(adjusted[1], 1);
}

// Every letter falls in exactly one of the three categories.
#[test]
fn test_category_partition() {
    let initial = count_initial_static_letters("this sentence employs");
    let plural = add_minimum_s_count(&initial);
    let solvable = determine_solvable_letters(&plural);
    let zero_or_one = determine_zero_or_one_only_letters(&solvable, &plural);
    assert_eq!(zero_or_one, vec!['b', 'j', 'k', 'q', 'z']);
    for i in 0..26usize {
        let c = index_to_char(&i);
        let in_solvable = solvable[i];
        let in_zero_or_one = zero_or_one.contains(&c);
        let in_number_words = letter_in_number_words(i);
        let memberships =
            (in_solvable as u32) + (in_zero_or_one as u32) + (in_number_words as u32);
        assert_eq!(memberships, 1);
    }
    let expected_solvable = ['a', 'c', 'd', 'm', 'p'];
    for i in 0..26usize {
        let c = index_to_char(&i);
        assert_eq!(solvable[i], expected_solvable.contains(&c));
    }
}

#[test]
fn test_validate_preamble_rejects_invalid_characters() {
    assert!(validate_preamble("this sentence employs").is_ok());
    assert_eq!(
        validate_preamble("This sentence"),
        Err(PreambleError::InvalidCharacter('T'))
    );
    assert_eq!(
        validate_preamble("sentence 1"),
        Err(PreambleError::InvalidCharacter('1'))
    );
    assert!(matches!(
        solve_autogram("Uppercase Start"),
        Err(PreambleError::InvalidCharacter('U'))
    ));
    assert!(matches!(
        solve_autogram("digit 7 inside"),
        Err(PreambleError::InvalidCharacter('7'))
    ));
}

#[test]
fn test_bound_check_low_counts() {
    let mut alphabet: StaticAlphabet = [None; 26];
    let mut calc: LetterCounts = [0; 26];
    alphabet[21] = Some(1);
    calc[21] = 2;
    assert!(has_low_counts(&alphabet, &calc));
    alphabet[21] = Some(2);
    assert!(!has_low_counts(&alphabet, &calc));
    alphabet[21] = Some(3);
    assert!(!has_low_counts(&alphabet, &calc));
}

#[test]
fn test_bound_check_excessive_counts() {
    let mut alphabet: StaticAlphabet = [None; 26];
    let mut calc: LetterCounts = [0; 26];
    calc[4] = 10;
    // With two uncertain letters left, 'e' can gain at most 4 per clause.
    alphabet[4] = Some(19);
    assert!(contains_excessive_counts(&alphabet, &calc, 2, 0));
    alphabet[4] = Some(18);
    assert!(!contains_excessive_counts(&alphabet, &calc, 2, 0));
    // A zero-or-one letter left adds one more possible 'e' via "one".
    alphabet[4] = Some(19);
    assert!(!contains_excessive_counts(&alphabet, &calc, 2, 1));
    assert!(!partial_solution_valid(&alphabet, &calc, 2, 0));
    alphabet[4] = Some(18);
    assert!(partial_solution_valid(&alphabet, &calc, 2, 0));
    assert_eq!(uncertain_max_per_word(4), 4);
    assert_eq!(uncertain_max_per_word(18), 3);
    assert_eq!(uncertain_max_per_word(19), 3);
    assert_eq!(uncertain_max_per_word(24), 1);
    assert_eq!(uncertain_max_per_word(0), 0);
}

fn exhaustive_search(
    alphabet: StaticAlphabet,
    calc: LetterCounts,
    pending: &[(char, UncertainLetter)],
    position: usize,
    table: &ProjectionTable,
    out: &mut Vec<StaticAlphabet>,
) {
    if position == pending.len() {
        if validate_solution(&calc, &alphabet) {
            out.push(alphabet);
        }
        return;
    }
    let (character, uncertain_letter) = pending[position];
    let index = char_to_index(&character).unwrap();
    let max_count: usize = match uncertain_letter {
        UncertainLetter::Variable(m) => m as usize,
        UncertainLetter::ZeroOrOne => 1,
    };
    let lo = calc[index];
    if lo > 99 {
        return;
    }
    let hi = std::cmp::min(lo + max_count, 99);
    for count in lo..=hi {
        let (next_alphabet, next_calc) = descend(&alphabet, &calc, count as u8, index, table);
        exhaustive_search(next_alphabet, next_calc, pending, position + 1, table, out);
    }
}

// The pruned search finds exactly what an unpruned enumeration over the
// same candidate ranges finds, in the same order.
#[test]
fn test_pruned_search_equals_exhaustive_search() {
    let table = ProjectionTable::build();
    let alphabet: StaticAlphabet = [None; 26];
    let calc: LetterCounts = [0; 26];
    let pending: Vec<(char, UncertainLetter)> = vec![
        ('x', UncertainLetter::Variable(4)),
        ('o', UncertainLetter::Variable(3)),
        ('z', UncertainLetter::ZeroOrOne),
    ];
    let pruned = solve(&alphabet, &pending, 0, &calc, &table);
    let mut unpruned: Vec<StaticAlphabet> = Vec::new();
    exhaustive_search(alphabet, calc, &pending, 0, &table, &mut unpruned);
    assert_eq!(pruned, unpruned);
    // Committing zero everywhere is a fixed point of this toy frame.
    let mut all_zero: StaticAlphabet = [None; 26];
    all_zero[23] = Some(0);
    all_zero[14] = Some(0);
    all_zero[25] = Some(0);
    assert!(pruned.contains(&all_zero));
}

// Running the top-level candidates as separate branches and merging their
// outputs in candidate order reproduces the sequential search exactly.
#[test]
fn test_branches_cover_whole_search() {
    let setup = SearchSetup {
        static_alphabet: [None; 26],
        uncertain_alphabet: vec![
            ('x', UncertainLetter::Variable(4)),
            ('o', UncertainLetter::Variable(3)),
            ('z', UncertainLetter::ZeroOrOne),
        ],
        minimum_counts: [0; 26],
        table: ProjectionTable::build(),
    };
    let whole = setup.solve_all();
    let (lo, hi) = setup.branch_range();
    assert_eq!((lo, hi), (0, 4));
    let mut merged: Vec<StaticAlphabet> = Vec::new();
    for count in lo..=hi {
        merged.extend(setup.solve_branch(count));
    }
    assert_eq!(whole, merged);
    assert!(!whole.is_empty());
}

// A preamble that forces a solvable letter past ninety-nine has no
// spellable solution: the search returns nothing instead of failing.
#[test]
fn test_unspellable_solvable_count() {
    let mut preamble = String::new();
    for _ in 0..99 {
        preamble.push('b');
    }
    assert!(matches!(prepare_search(&preamble), Ok(None)));
    let solutions = solve_autogram(&preamble).unwrap();
    assert!(solutions.is_empty());
}

#[test]
fn test_prepare_search_initial_frame() {
    let setup = prepare_search("this sentence employs").unwrap().unwrap();
    // Sixteen uncertain letters plus the five zero-or-one letters.
    assert_eq!(setup.uncertain_alphabet.len(), 21);
    assert!(matches!(
        setup.uncertain_alphabet[0],
        ('e', UncertainLetter::Variable(69))
    ));
    assert!(matches!(
        setup.uncertain_alphabet[16],
        ('b', UncertainLetter::ZeroOrOne)
    ));
    // Solvable letters are committed to their adjusted tally plus one.
    assert_eq!(setup.static_alphabet[0], Some(2));
    assert_eq!(setup.static_alphabet[12], Some(2));
    assert_eq!(setup.static_alphabet[4], None);
    // A zero-or-one letter starts with calculated count zero.
    assert_eq!(setup.minimum_counts[25], 0);
    // 'a' is counted once in "and" and once more in its own clause.
    assert_eq!(setup.minimum_counts[0], 2);
}

#[test]
fn test_descend_folds_clause() {
    let table = ProjectionTable::build();
    let alphabet: StaticAlphabet = [None; 26];
    let calc: LetterCounts = [0; 26];
    let (next_alphabet, next_calc) = descend(&alphabet, &calc, 2, 0, &table);
    assert_eq!(next_alphabet[0], Some(2));
    // "two a's" adds t, w, o, a and s.
    assert_eq!(next_calc[19], 1);
    assert_eq!(next_calc[22], 1);
    assert_eq!(next_calc[14], 1);
    assert_eq!(next_calc[0], 1);
    assert_eq!(next_calc[18], 1);
    assert_eq!(next_calc[4], 0);
    // A count of zero contributes no clause.
    let (zero_alphabet, zero_calc) = descend(&alphabet, &calc, 0, 0, &table);
    assert_eq!(zero_alphabet[0], Some(0));
    assert_eq!(zero_calc, calc);
}

// The from-scratch validator accepts the known solution and rejects every
// single-letter mutation of it.
#[test]
fn test_is_valid_solution_and_mutations() {
    let static_alphabet: StaticAlphabet = [
        Some(2),
        Some(0),
        Some(2),
        Some(2),
        Some(28),
        Some(5),
        Some(3),
        Some(8),
        Some(11),
        Some(0),
        Some(0),
        Some(3),
        Some(2),
        Some(13),
        Some(9),
        Some(2),
        Some(0),
        Some(5),
        Some(25),
        Some(23),
        Some(0),
        Some(6),
        Some(10),
        Some(2),
        Some(5),
        Some(1),
    ];
    assert!(is_valid_solution(&static_alphabet, "this sentence employs"));
    assert!(!is_valid_solution(&static_alphabet, "this sentence has"));
    for i in 0..26usize {
        let mut mutated = static_alphabet;
        let bumped = mutated[i].unwrap() + 1;
        mutated[i] = Some(bumped);
        assert!(!is_valid_solution(&mutated, "this sentence employs"));
        if bumped >= 2 {
            mutated[i] = Some(bumped - 2);
            assert!(!is_valid_solution(&mutated, "this sentence employs"));
        }
    }
}

#[test]
fn test_error_message_text() {
    let e = PreambleError::InvalidCharacter('!');
    assert_eq!(
        e.message(),
        "the preamble may hold only the letters 'a' to 'z' and spaces"
    );
}
