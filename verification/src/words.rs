//! English cardinal number words from one to ninety-nine: the spelling
//! rule as a specification, and the word table the renderer and the
//! projection table are built from.

use vstd::prelude::*;

use crate::counts::{count_of, count_upto, lemma_count_of_concat, lemma_count_of_is_count_upto};
use crate::letters::spec_letter;

verus! {

/// The single-word cardinals below twenty.
pub open spec fn spec_unit_word(n: int) -> Seq<char> {
    if n == 1 {
        "one"@
    } else if n == 2 {
        "two"@
    } else if n == 3 {
        "three"@
    } else if n == 4 {
        "four"@
    } else if n == 5 {
        "five"@
    } else if n == 6 {
        "six"@
    } else if n == 7 {
        "seven"@
    } else if n == 8 {
        "eight"@
    } else if n == 9 {
        "nine"@
    } else if n == 10 {
        "ten"@
    } else if n == 11 {
        "eleven"@
    } else if n == 12 {
        "twelve"@
    } else if n == 13 {
        "thirteen"@
    } else if n == 14 {
        "fourteen"@
    } else if n == 15 {
        "fifteen"@
    } else if n == 16 {
        "sixteen"@
    } else if n == 17 {
        "seventeen"@
    } else if n == 18 {
        "eighteen"@
    } else if n == 19 {
        "nineteen"@
    } else {
        Seq::empty()
    }
}

/// The tens words: twenty, thirty, ... ninety, for t in 2..=9.
pub open spec fn spec_tens_word(t: int) -> Seq<char> {
    if t == 2 {
        "twenty"@
    } else if t == 3 {
        "thirty"@
    } else if t == 4 {
        "forty"@
    } else if t == 5 {
        "fifty"@
    } else if t == 6 {
        "sixty"@
    } else if t == 7 {
        "seventy"@
    } else if t == 8 {
        "eighty"@
    } else if t == 9 {
        "ninety"@
    } else {
        Seq::empty()
    }
}

/// The standard English spelling of a cardinal from 1 to 99: a single word
/// below twenty, a tens word alone at each multiple of ten, and a
/// hyphenated compound otherwise.
pub open spec fn spec_number_word(n: int) -> Seq<char> {
    if n < 20 {
        spec_unit_word(n)
    } else if n % 10 == 0 {
        spec_tens_word(n / 10)
    } else {
        spec_tens_word(n / 10) + "-"@ + spec_unit_word(n % 10)
    }
}

/// The written form of a count of two or more, as used in a plural clause.
#[verifier::rlimit(100)]
#[verifier::spinoff_prover]
pub fn lookup_number_word(number: u8) -> (r: &'static str)
    requires
        2 <= number <= 99,
    ensures
        r@ == spec_number_word(number as int),
{
    match number {
        2 => "two",
        3 => "three",
        4 => "four",
        5 => "five",
        6 => "six",
        7 => "seven",
        8 => "eight",
        9 => "nine",
        10 => "ten",
        11 => "eleven",
        12 => "twelve",
        13 => "thirteen",
        14 => "fourteen",
        15 => "fifteen",
        16 => "sixteen",
        17 => "seventeen",
        18 => "eighteen",
        19 => "nineteen",
        20 => "twenty",
        21 => {
            proof {
                reveal_strlit("twenty-one");
                reveal_strlit("twenty");
                reveal_strlit("-");
                reveal_strlit("one");
                assert("twenty-one"@ =~= "twenty"@ + "-"@ + "one"@);
            }
            "twenty-one"
        },
        22 => {
            proof {
                reveal_strlit("twenty-two");
                reveal_strlit("twenty");
                reveal_strlit("-");
                reveal_strlit("two");
                assert("twenty-two"@ =~= "twenty"@ + "-"@ + "two"@);
            }
            "twenty-two"
        },
        23 => {
            proof {
                reveal_strlit("twenty-three");
                reveal_strlit("twenty");
                reveal_strlit("-");
                reveal_strlit("three");
                assert("twenty-three"@ =~= "twenty"@ + "-"@ + "three"@);
            }
            "twenty-three"
        },
        24 => {
            proof {
                reveal_strlit("twenty-four");
                reveal_strlit("twenty");
                reveal_strlit("-");
                reveal_strlit("four");
                assert("twenty-four"@ =~= "twenty"@ + "-"@ + "four"@);
            }
            "twenty-four"
        },
        25 => {
            proof {
                reveal_strlit("twenty-five");
                reveal_strlit("twenty");
                reveal_strlit("-");
                reveal_strlit("five");
                assert("twenty-five"@ =~= "twenty"@ + "-"@ + "five"@);
            }
            "twenty-five"
        },
        26 => {
            proof {
                reveal_strlit("twenty-six");
                reveal_strlit("twenty");
                reveal_strlit("-");
                reveal_strlit("six");
                assert("twenty-six"@ =~= "twenty"@ + "-"@ + "six"@);
            }
            "twenty-six"
        },
        27 => {
            proof {
                reveal_strlit("twenty-seven");
                reveal_strlit("twenty");
                reveal_strlit("-");
                reveal_strlit("seven");
                assert("twenty-seven"@ =~= "twenty"@ + "-"@ + "seven"@);
            }
            "twenty-seven"
        },
        28 => {
            proof {
                reveal_strlit("twenty-eight");
                reveal_strlit("twenty");
                reveal_strlit("-");
                reveal_strlit("eight");
                assert("twenty-eight"@ =~= "twenty"@ + "-"@ + "eight"@);
            }
            "twenty-eight"
        },
        29 => {
            proof {
                reveal_strlit("twenty-nine");
                reveal_strlit("twenty");
                reveal_strlit("-");
                reveal_strlit("nine");
                assert("twenty-nine"@ =~= "twenty"@ + "-"@ + "nine"@);
            }
            "twenty-nine"
        },
        30 => "thirty",
        31 => {
            proof {
                reveal_strlit("thirty-one");
                reveal_strlit("thirty");
                reveal_strlit("-");
                reveal_strlit("one");
                assert("thirty-one"@ =~= "thirty"@ + "-"@ + "one"@);
            }
            "thirty-one"
        },
        32 => {
            proof {
                reveal_strlit("thirty-two");
                reveal_strlit("thirty");
                reveal_strlit("-");
                reveal_strlit("two");
                assert("thirty-two"@ =~= "thirty"@ + "-"@ + "two"@);
            }
            "thirty-two"
        },
        33 => {
            proof {
                reveal_strlit("thirty-three");
                reveal_strlit("thirty");
                reveal_strlit("-");
                reveal_strlit("three");
                assert("thirty-three"@ =~= "thirty"@ + "-"@ + "three"@);
            }
            "thirty-three"
        },
        34 => {
            proof {
                reveal_strlit("thirty-four");
                reveal_strlit("thirty");
                reveal_strlit("-");
                reveal_strlit("four");
                assert("thirty-four"@ =~= "thirty"@ + "-"@ + "four"@);
            }
            "thirty-four"
        },
        35 => {
            proof {
                reveal_strlit("thirty-five");
                reveal_strlit("thirty");
                reveal_strlit("-");
                reveal_strlit("five");
                assert("thirty-five"@ =~= "thirty"@ + "-"@ + "five"@);
            }
            "thirty-five"
        },
        36 => {
            proof {
                reveal_strlit("thirty-six");
                reveal_strlit("thirty");
                reveal_strlit("-");
                reveal_strlit("six");
                assert("thirty-six"@ =~= "thirty"@ + "-"@ + "six"@);
            }
            "thirty-six"
        },
        37 => {
            proof {
                reveal_strlit("thirty-seven");
                reveal_strlit("thirty");
                reveal_strlit("-");
                reveal_strlit("seven");
                assert("thirty-seven"@ =~= "thirty"@ + "-"@ + "seven"@);
            }
            "thirty-seven"
        },
        38 => {
            proof {
                reveal_strlit("thirty-eight");
                reveal_strlit("thirty");
                reveal_strlit("-");
                reveal_strlit("eight");
                assert("thirty-eight"@ =~= "thirty"@ + "-"@ + "eight"@);
            }
            "thirty-eight"
        },
        39 => {
            proof {
                reveal_strlit("thirty-nine");
                reveal_strlit("thirty");
                reveal_strlit("-");
                reveal_strlit("nine");
                assert("thirty-nine"@ =~= "thirty"@ + "-"@ + "nine"@);
            }
            "thirty-nine"
        },
        40 => "forty",
        41 => {
            proof {
                reveal_strlit("forty-one");
                reveal_strlit("forty");
                reveal_strlit("-");
                reveal_strlit("one");
                assert("forty-one"@ =~= "forty"@ + "-"@ + "one"@);
            }
            "forty-one"
        },
        42 => {
            proof {
                reveal_strlit("forty-two");
                reveal_strlit("forty");
                reveal_strlit("-");
                reveal_strlit("two");
                assert("forty-two"@ =~= "forty"@ + "-"@ + "two"@);
            }
            "forty-two"
        },
        43 => {
            proof {
                reveal_strlit("forty-three");
                reveal_strlit("forty");
                reveal_strlit("-");
                reveal_strlit("three");
                assert("forty-three"@ =~= "forty"@ + "-"@ + "three"@);
            }
            "forty-three"
        },
        44 => {
            proof {
                reveal_strlit("forty-four");
                reveal_strlit("forty");
                reveal_strlit("-");
                reveal_strlit("four");
                assert("forty-four"@ =~= "forty"@ + "-"@ + "four"@);
            }
            "forty-four"
        },
        45 => {
            proof {
                reveal_strlit("forty-five");
                reveal_strlit("forty");
                reveal_strlit("-");
                reveal_strlit("five");
                assert("forty-five"@ =~= "forty"@ + "-"@ + "five"@);
            }
            "forty-five"
        },
        46 => {
            proof {
                reveal_strlit("forty-six");
                reveal_strlit("forty");
                reveal_strlit("-");
                reveal_strlit("six");
                assert("forty-six"@ =~= "forty"@ + "-"@ + "six"@);
            }
            "forty-six"
        },
        47 => {
            proof {
                reveal_strlit("forty-seven");
                reveal_strlit("forty");
                reveal_strlit("-");
                reveal_strlit("seven");
                assert("forty-seven"@ =~= "forty"@ + "-"@ + "seven"@);
            }
            "forty-seven"
        },
        48 => {
            proof {
                reveal_strlit("forty-eight");
                reveal_strlit("forty");
                reveal_strlit("-");
                reveal_strlit("eight");
                assert("forty-eight"@ =~= "forty"@ + "-"@ + "eight"@);
            }
            "forty-eight"
        },
        49 => {
            proof {
                reveal_strlit("forty-nine");
                reveal_strlit("forty");
                reveal_strlit("-");
                reveal_strlit("nine");
                assert("forty-nine"@ =~= "forty"@ + "-"@ + "nine"@);
            }
            "forty-nine"
        },
        50 => "fifty",
        51 => {
            proof {
                reveal_strlit("fifty-one");
                reveal_strlit("fifty");
                reveal_strlit("-");
                reveal_strlit("one");
                assert("fifty-one"@ =~= "fifty"@ + "-"@ + "one"@);
            }
            "fifty-one"
        },
        52 => {
            proof {
                reveal_strlit("fifty-two");
                reveal_strlit("fifty");
                reveal_strlit("-");
                reveal_strlit("two");
                assert("fifty-two"@ =~= "fifty"@ + "-"@ + "two"@);
            }
            "fifty-two"
        },
        53 => {
            proof {
                reveal_strlit("fifty-three");
                reveal_strlit("fifty");
                reveal_strlit("-");
                reveal_strlit("three");
                assert("fifty-three"@ =~= "fifty"@ + "-"@ + "three"@);
            }
            "fifty-three"
        },
        54 => {
            proof {
                reveal_strlit("fifty-four");
                reveal_strlit("fifty");
                reveal_strlit("-");
                reveal_strlit("four");
                assert("fifty-four"@ =~= "fifty"@ + "-"@ + "four"@);
            }
            "fifty-four"
        },
        55 => {
            proof {
                reveal_strlit("fifty-five");
                reveal_strlit("fifty");
                reveal_strlit("-");
                reveal_strlit("five");
                assert("fifty-five"@ =~= "fifty"@ + "-"@ + "five"@);
            }
            "fifty-five"
        },
        56 => {
            proof {
                reveal_strlit("fifty-six");
                reveal_strlit("fifty");
                reveal_strlit("-");
                reveal_strlit("six");
                assert("fifty-six"@ =~= "fifty"@ + "-"@ + "six"@);
            }
            "fifty-six"
        },
        57 => {
            proof {
                reveal_strlit("fifty-seven");
                reveal_strlit("fifty");
                reveal_strlit("-");
                reveal_strlit("seven");
                assert("fifty-seven"@ =~= "fifty"@ + "-"@ + "seven"@);
            }
            "fifty-seven"
        },
        58 => {
            proof {
                reveal_strlit("fifty-eight");
                reveal_strlit("fifty");
                reveal_strlit("-");
                reveal_strlit("eight");
                assert("fifty-eight"@ =~= "fifty"@ + "-"@ + "eight"@);
            }
            "fifty-eight"
        },
        59 => {
            proof {
                reveal_strlit("fifty-nine");
                reveal_strlit("fifty");
                reveal_strlit("-");
                reveal_strlit("nine");
                assert("fifty-nine"@ =~= "fifty"@ + "-"@ + "nine"@);
            }
            "fifty-nine"
        },
        60 => "sixty",
        61 => {
            proof {
                reveal_strlit("sixty-one");
                reveal_strlit("sixty");
                reveal_strlit("-");
                reveal_strlit("one");
                assert("sixty-one"@ =~= "sixty"@ + "-"@ + "one"@);
            }
            "sixty-one"
        },
        62 => {
            proof {
                reveal_strlit("sixty-two");
                reveal_strlit("sixty");
                reveal_strlit("-");
                reveal_strlit("two");
                assert("sixty-two"@ =~= "sixty"@ + "-"@ + "two"@);
            }
            "sixty-two"
        },
        63 => {
            proof {
                reveal_strlit("sixty-three");
                reveal_strlit("sixty");
                reveal_strlit("-");
                reveal_strlit("three");
                assert("sixty-three"@ =~= "sixty"@ + "-"@ + "three"@);
            }
            "sixty-three"
        },
        64 => {
            proof {
                reveal_strlit("sixty-four");
                reveal_strlit("sixty");
                reveal_strlit("-");
                reveal_strlit("four");
                assert("sixty-four"@ =~= "sixty"@ + "-"@ + "four"@);
            }
            "sixty-four"
        },
        65 => {
            proof {
                reveal_strlit("sixty-five");
                reveal_strlit("sixty");
                reveal_strlit("-");
                reveal_strlit("five");
                assert("sixty-five"@ =~= "sixty"@ + "-"@ + "five"@);
            }
            "sixty-five"
        },
        66 => {
            proof {
                reveal_strlit("sixty-six");
                reveal_strlit("sixty");
                reveal_strlit("-");
                reveal_strlit("six");
                assert("sixty-six"@ =~= "sixty"@ + "-"@ + "six"@);
            }
            "sixty-six"
        },
        67 => {
            proof {
                reveal_strlit("sixty-seven");
                reveal_strlit("sixty");
                reveal_strlit("-");
                reveal_strlit("seven");
                assert("sixty-seven"@ =~= "sixty"@ + "-"@ + "seven"@);
            }
            "sixty-seven"
        },
        68 => {
            proof {
                reveal_strlit("sixty-eight");
                reveal_strlit("sixty");
                reveal_strlit("-");
                reveal_strlit("eight");
                assert("sixty-eight"@ =~= "sixty"@ + "-"@ + "eight"@);
            }
            "sixty-eight"
        },
        69 => {
            proof {
                reveal_strlit("sixty-nine");
                reveal_strlit("sixty");
                reveal_strlit("-");
                reveal_strlit("nine");
                assert("sixty-nine"@ =~= "sixty"@ + "-"@ + "nine"@);
            }
            "sixty-nine"
        },
        70 => "seventy",
        71 => {
            proof {
                reveal_strlit("seventy-one");
                reveal_strlit("seventy");
                reveal_strlit("-");
                reveal_strlit("one");
                assert("seventy-one"@ =~= "seventy"@ + "-"@ + "one"@);
            }
            "seventy-one"
        },
        72 => {
            proof {
                reveal_strlit("seventy-two");
                reveal_strlit("seventy");
                reveal_strlit("-");
                reveal_strlit("two");
                assert("seventy-two"@ =~= "seventy"@ + "-"@ + "two"@);
            }
            "seventy-two"
        },
        73 => {
            proof {
                reveal_strlit("seventy-three");
                reveal_strlit("seventy");
                reveal_strlit("-");
                reveal_strlit("three");
                assert("seventy-three"@ =~= "seventy"@ + "-"@ + "three"@);
            }
            "seventy-three"
        },
        74 => {
            proof {
                reveal_strlit("seventy-four");
                reveal_strlit("seventy");
                reveal_strlit("-");
                reveal_strlit("four");
                assert("seventy-four"@ =~= "seventy"@ + "-"@ + "four"@);
            }
            "seventy-four"
        },
        75 => {
            proof {
                reveal_strlit("seventy-five");
                reveal_strlit("seventy");
                reveal_strlit("-");
                reveal_strlit("five");
                assert("seventy-five"@ =~= "seventy"@ + "-"@ + "five"@);
            }
            "seventy-five"
        },
        76 => {
            proof {
                reveal_strlit("seventy-six");
                reveal_strlit("seventy");
                reveal_strlit("-");
                reveal_strlit("six");
                assert("seventy-six"@ =~= "seventy"@ + "-"@ + "six"@);
            }
            "seventy-six"
        },
        77 => {
            proof {
                reveal_strlit("seventy-seven");
                reveal_strlit("seventy");
                reveal_strlit("-");
                reveal_strlit("seven");
                assert("seventy-seven"@ =~= "seventy"@ + "-"@ + "seven"@);
            }
            "seventy-seven"
        },
        78 => {
            proof {
                reveal_strlit("seventy-eight");
                reveal_strlit("seventy");
                reveal_strlit("-");
                reveal_strlit("eight");
                assert("seventy-eight"@ =~= "seventy"@ + "-"@ + "eight"@);
            }
            "seventy-eight"
        },
        79 => {
            proof {
                reveal_strlit("seventy-nine");
                reveal_strlit("seventy");
                reveal_strlit("-");
                reveal_strlit("nine");
                assert("seventy-nine"@ =~= "seventy"@ + "-"@ + "nine"@);
            }
            "seventy-nine"
        },
        80 => "eighty",
        81 => {
            proof {
                reveal_strlit("eighty-one");
                reveal_strlit("eighty");
                reveal_strlit("-");
                reveal_strlit("one");
                assert("eighty-one"@ =~= "eighty"@ + "-"@ + "one"@);
            }
            "eighty-one"
        },
        82 => {
            proof {
                reveal_strlit("eighty-two");
                reveal_strlit("eighty");
                reveal_strlit("-");
                reveal_strlit("two");
                assert("eighty-two"@ =~= "eighty"@ + "-"@ + "two"@);
            }
            "eighty-two"
        },
        83 => {
            proof {
                reveal_strlit("eighty-three");
                reveal_strlit("eighty");
                reveal_strlit("-");
                reveal_strlit("three");
                assert("eighty-three"@ =~= "eighty"@ + "-"@ + "three"@);
            }
            "eighty-three"
        },
        84 => {
            proof {
                reveal_strlit("eighty-four");
                reveal_strlit("eighty");
                reveal_strlit("-");
                reveal_strlit("four");
                assert("eighty-four"@ =~= "eighty"@ + "-"@ + "four"@);
            }
            "eighty-four"
        },
        85 => {
            proof {
                reveal_strlit("eighty-five");
                reveal_strlit("eighty");
                reveal_strlit("-");
                reveal_strlit("five");
                assert("eighty-five"@ =~= "eighty"@ + "-"@ + "five"@);
            }
            "eighty-five"
        },
        86 => {
            proof {
                reveal_strlit("eighty-six");
                reveal_strlit("eighty");
                reveal_strlit("-");
                reveal_strlit("six");
                assert("eighty-six"@ =~= "eighty"@ + "-"@ + "six"@);
            }
            "eighty-six"
        },
        87 => {
            proof {
                reveal_strlit("eighty-seven");
                reveal_strlit("eighty");
                reveal_strlit("-");
                reveal_strlit("seven");
                assert("eighty-seven"@ =~= "eighty"@ + "-"@ + "seven"@);
            }
            "eighty-seven"
        },
        88 => {
            proof {
                reveal_strlit("eighty-eight");
                reveal_strlit("eighty");
                reveal_strlit("-");
                reveal_strlit("eight");
                assert("eighty-eight"@ =~= "eighty"@ + "-"@ + "eight"@);
            }
            "eighty-eight"
        },
        89 => {
            proof {
                reveal_strlit("eighty-nine");
                reveal_strlit("eighty");
                reveal_strlit("-");
                reveal_strlit("nine");
                assert("eighty-nine"@ =~= "eighty"@ + "-"@ + "nine"@);
            }
            "eighty-nine"
        },
        90 => "ninety",
        91 => {
            proof {
                reveal_strlit("ninety-one");
                reveal_strlit("ninety");
                reveal_strlit("-");
                reveal_strlit("one");
                assert("ninety-one"@ =~= "ninety"@ + "-"@ + "one"@);
            }
            "ninety-one"
        },
        92 => {
            proof {
                reveal_strlit("ninety-two");
                reveal_strlit("ninety");
                reveal_strlit("-");
                reveal_strlit("two");
                assert("ninety-two"@ =~= "ninety"@ + "-"@ + "two"@);
            }
            "ninety-two"
        },
        93 => {
            proof {
                reveal_strlit("ninety-three");
                reveal_strlit("ninety");
                reveal_strlit("-");
                reveal_strlit("three");
                assert("ninety-three"@ =~= "ninety"@ + "-"@ + "three"@);
            }
            "ninety-three"
        },
        94 => {
            proof {
                reveal_strlit("ninety-four");
                reveal_strlit("ninety");
                reveal_strlit("-");
                reveal_strlit("four");
                assert("ninety-four"@ =~= "ninety"@ + "-"@ + "four"@);
            }
            "ninety-four"
        },
        95 => {
            proof {
                reveal_strlit("ninety-five");
                reveal_strlit("ninety");
                reveal_strlit("-");
                reveal_strlit("five");
                assert("ninety-five"@ =~= "ninety"@ + "-"@ + "five"@);
            }
            "ninety-five"
        },
        96 => {
            proof {
                reveal_strlit("ninety-six");
                reveal_strlit("ninety");
                reveal_strlit("-");
                reveal_strlit("six");
                assert("ninety-six"@ =~= "ninety"@ + "-"@ + "six"@);
            }
            "ninety-six"
        },
        97 => {
            proof {
                reveal_strlit("ninety-seven");
                reveal_strlit("ninety");
                reveal_strlit("-");
                reveal_strlit("seven");
                assert("ninety-seven"@ =~= "ninety"@ + "-"@ + "seven"@);
            }
            "ninety-seven"
        },
        98 => {
            proof {
                reveal_strlit("ninety-eight");
                reveal_strlit("ninety");
                reveal_strlit("-");
                reveal_strlit("eight");
                assert("ninety-eight"@ =~= "ninety"@ + "-"@ + "eight"@);
            }
            "ninety-eight"
        },
        99 => {
            proof {
                reveal_strlit("ninety-nine");
                reveal_strlit("ninety");
                reveal_strlit("-");
                reveal_strlit("nine");
                assert("ninety-nine"@ =~= "ninety"@ + "-"@ + "nine"@);
            }
            "ninety-nine"
        },
        _ => {
            proof {
                assert(false);
            }
            ""
        },
    }
}

pub proof fn lemma_tally_one(c: char)
    ensures
        count_of("one"@, c) == (        if c == 'o' {
            1nat
        } else if c == 'n' {
            1nat
        } else if c == 'e' {
            1nat
        } else {
            0nat
        }),
{
    reveal_strlit("one");
    lemma_count_of_is_count_upto("one"@, c);
    reveal_with_fuel(count_upto, 4);
}

pub proof fn lemma_tally_two(c: char)
    ensures
        count_of("two"@, c) == (        if c == 't' {
            1nat
        } else if c == 'w' {
            1nat
        } else if c == 'o' {
            1nat
        } else {
            0nat
        }),
{
    reveal_strlit("two");
    lemma_count_of_is_count_upto("two"@, c);
    reveal_with_fuel(count_upto, 4);
}

pub proof fn lemma_tally_three(c: char)
    ensures
        count_of("three"@, c) == (        if c == 't' {
            1nat
        } else if c == 'h' {
            1nat
        } else if c == 'r' {
            1nat
        } else if c == 'e' {
            2nat
        } else {
            0nat
        }),
{
    reveal_strlit("three");
    lemma_count_of_is_count_upto("three"@, c);
    reveal_with_fuel(count_upto, 6);
}

pub proof fn lemma_tally_four(c: char)
    ensures
        count_of("four"@, c) == (        if c == 'f' {
            1nat
        } else if c == 'o' {
            1nat
        } else if c == 'u' {
            1nat
        } else if c == 'r' {
            1nat
        } else {
            0nat
        }),
{
    reveal_strlit("four");
    lemma_count_of_is_count_upto("four"@, c);
    reveal_with_fuel(count_upto, 5);
}

pub proof fn lemma_tally_five(c: char)
    ensures
        count_of("five"@, c) == (        if c == 'f' {
            1nat
        } else if c == 'i' {
            1nat
        } else if c == 'v' {
            1nat
        } else if c == 'e' {
            1nat
        } else {
            0nat
        }),
{
    reveal_strlit("five");
    lemma_count_of_is_count_upto("five"@, c);
    reveal_with_fuel(count_upto, 5);
}

pub proof fn lemma_tally_six(c: char)
    ensures
        count_of("six"@, c) == (        if c == 's' {
            1nat
        } else if c == 'i' {
            1nat
        } else if c == 'x' {
            1nat
        } else {
            0nat
        }),
{
    reveal_strlit("six");
    lemma_count_of_is_count_upto("six"@, c);
    reveal_with_fuel(count_upto, 4);
}

pub proof fn lemma_tally_seven(c: char)
    ensures
        count_of("seven"@, c) == (        if c == 's' {
            1nat
        } else if c == 'e' {
            2nat
        } else if c == 'v' {
            1nat
        } else if c == 'n' {
            1nat
        } else {
            0nat
        }),
{
    reveal_strlit("seven");
    lemma_count_of_is_count_upto("seven"@, c);
    reveal_with_fuel(count_upto, 6);
}

pub proof fn lemma_tally_eight(c: char)
    ensures
        count_of("eight"@, c) == (        if c == 'e' {
            1nat
        } else if c == 'i' {
            1nat
        } else if c == 'g' {
            1nat
        } else if c == 'h' {
            1nat
        } else if c == 't' {
            1nat
        } else {
            0nat
        }),
{
    reveal_strlit("eight");
    lemma_count_of_is_count_upto("eight"@, c);
    reveal_with_fuel(count_upto, 6);
}

pub proof fn lemma_tally_nine(c: char)
    ensures
        count_of("nine"@, c) == (        if c == 'n' {
            2nat
        } else if c == 'i' {
            1nat
        } else if c == 'e' {
            1nat
        } else {
            0nat
        }),
{
    reveal_strlit("nine");
    lemma_count_of_is_count_upto("nine"@, c);
    reveal_with_fuel(count_upto, 5);
}

pub proof fn lemma_tally_ten(c: char)
    ensures
        count_of("ten"@, c) == (        if c == 't' {
            1nat
        } else if c == 'e' {
            1nat
        } else if c == 'n' {
            1nat
        } else {
            0nat
        }),
{
    reveal_strlit("ten");
    lemma_count_of_is_count_upto("ten"@, c);
    reveal_with_fuel(count_upto, 4);
}

pub proof fn lemma_tally_eleven(c: char)
    ensures
        count_of("eleven"@, c) == (        if c == 'e' {
            3nat
        } else if c == 'l' {
            1nat
        } else if c == 'v' {
            1nat
        } else if c == 'n' {
            1nat
        } else {
            0nat
        }),
{
    reveal_strlit("eleven");
    lemma_count_of_is_count_upto("eleven"@, c);
    reveal_with_fuel(count_upto, 7);
}

pub proof fn lemma_tally_twelve(c: char)
    ensures
        count_of("twelve"@, c) == (        if c == 't' {
            1nat
        } else if c == 'w' {
            1nat
        } else if c == 'e' {
            2nat
        } else if c == 'l' {
            1nat
        } else if c == 'v' {
            1nat
        } else {
            0nat
        }),
{
    reveal_strlit("twelve");
    lemma_count_of_is_count_upto("twelve"@, c);
    reveal_with_fuel(count_upto, 7);
}

pub proof fn lemma_tally_thirteen(c: char)
    ensures
        count_of("thirteen"@, c) == (        if c == 't' {
            2nat
        } else if c == 'h' {
            1nat
        } else if c == 'i' {
            1nat
        } else if c == 'r' {
            1nat
        } else if c == 'e' {
            2nat
        } else if c == 'n' {
            1nat
        } else {
            0nat
        }),
{
    reveal_strlit("thirteen");
    lemma_count_of_is_count_upto("thirteen"@, c);
    reveal_with_fuel(count_upto, 9);
}

pub proof fn lemma_tally_fourteen(c: char)
    ensures
        count_of("fourteen"@, c) == (        if c == 'f' {
            1nat
        } else if c == 'o' {
            1nat
        } else if c == 'u' {
            1nat
        } else if c == 'r' {
            1nat
        } else if c == 't' {
            1nat
        } else if c == 'e' {
            2nat
        } else if c == 'n' {
            1nat
        } else {
            0nat
        }),
{
    reveal_strlit("fourteen");
    lemma_count_of_is_count_upto("fourteen"@, c);
    reveal_with_fuel(count_upto, 9);
}

pub proof fn lemma_tally_fifteen(c: char)
    ensures
        count_of("fifteen"@, c) == (        if c == 'f' {
            2nat
        } else if c == 'i' {
            1nat
        } else if c == 't' {
            1nat
        } else if c == 'e' {
            2nat
        } else if c == 'n' {
            1nat
        } else {
            0nat
        }),
{
    reveal_strlit("fifteen");
    lemma_count_of_is_count_upto("fifteen"@, c);
    reveal_with_fuel(count_upto, 8);
}

pub proof fn lemma_tally_sixteen(c: char)
    ensures
        count_of("sixteen"@, c) == (        if c == 's' {
            1nat
        } else if c == 'i' {
            1nat
        } else if c == 'x' {
            1nat
        } else if c == 't' {
            1nat
        } else if c == 'e' {
            2nat
        } else if c == 'n' {
            1nat
        } else {
            0nat
        }),
{
    reveal_strlit("sixteen");
    lemma_count_of_is_count_upto("sixteen"@, c);
    reveal_with_fuel(count_upto, 8);
}

pub proof fn lemma_tally_seventeen(c: char)
    ensures
        count_of("seventeen"@, c) == (        if c == 's' {
            1nat
        } else if c == 'e' {
            4nat
        } else if c == 'v' {
            1nat
        } else if c == 'n' {
            2nat
        } else if c == 't' {
            1nat
        } else {
            0nat
        }),
{
    reveal_strlit("seventeen");
    lemma_count_of_is_count_upto("seventeen"@, c);
    reveal_with_fuel(count_upto, 10);
}

pub proof fn lemma_tally_eighteen(c: char)
    ensures
        count_of("eighteen"@, c) == (        if c == 'e' {
            3nat
        } else if c == 'i' {
            1nat
        } else if c == 'g' {
            1nat
        } else if c == 'h' {
            1nat
        } else if c == 't' {
            1nat
        } else if c == 'n' {
            1nat
        } else {
            0nat
        }),
{
    reveal_strlit("eighteen");
    lemma_count_of_is_count_upto("eighteen"@, c);
    reveal_with_fuel(count_upto, 9);
}

pub proof fn lemma_tally_nineteen(c: char)
    ensures
        count_of("nineteen"@, c) == (        if c == 'n' {
            3nat
        } else if c == 'i' {
            1nat
        } else if c == 'e' {
            3nat
        } else if c == 't' {
            1nat
        } else {
            0nat
        }),
{
    reveal_strlit("nineteen");
    lemma_count_of_is_count_upto("nineteen"@, c);
    reveal_with_fuel(count_upto, 9);
}

pub proof fn lemma_tally_twenty(c: char)
    ensures
        count_of("twenty"@, c) == (        if c == 't' {
            2nat
        } else if c == 'w' {
            1nat
        } else if c == 'e' {
            1nat
        } else if c == 'n' {
            1nat
        } else if c == 'y' {
            1nat
        } else {
            0nat
        }),
{
    reveal_strlit("twenty");
    lemma_count_of_is_count_upto("twenty"@, c);
    reveal_with_fuel(count_upto, 7);
}

pub proof fn lemma_tally_thirty(c: char)
    ensures
        count_of("thirty"@, c) == (        if c == 't' {
            2nat
        } else if c == 'h' {
            1nat
        } else if c == 'i' {
            1nat
        } else if c == 'r' {
            1nat
        } else if c == 'y' {
            1nat
        } else {
            0nat
        }),
{
    reveal_strlit("thirty");
    lemma_count_of_is_count_upto("thirty"@, c);
    reveal_with_fuel(count_upto, 7);
}

pub proof fn lemma_tally_forty(c: char)
    ensures
        count_of("forty"@, c) == (        if c == 'f' {
            1nat
        } else if c == 'o' {
            1nat
        } else if c == 'r' {
            1nat
        } else if c == 't' {
            1nat
        } else if c == 'y' {
            1nat
        } else {
            0nat
        }),
{
    reveal_strlit("forty");
    lemma_count_of_is_count_upto("forty"@, c);
    reveal_with_fuel(count_upto, 6);
}

pub proof fn lemma_tally_fifty(c: char)
    ensures
        count_of("fifty"@, c) == (        if c == 'f' {
            2nat
        } else if c == 'i' {
            1nat
        } else if c == 't' {
            1nat
        } else if c == 'y' {
            1nat
        } else {
            0nat
        }),
{
    reveal_strlit("fifty");
    lemma_count_of_is_count_upto("fifty"@, c);
    reveal_with_fuel(count_upto, 6);
}

pub proof fn lemma_tally_sixty(c: char)
    ensures
        count_of("sixty"@, c) == (        if c == 's' {
            1nat
        } else if c == 'i' {
            1nat
        } else if c == 'x' {
            1nat
        } else if c == 't' {
            1nat
        } else if c == 'y' {
            1nat
        } else {
            0nat
        }),
{
    reveal_strlit("sixty");
    lemma_count_of_is_count_upto("sixty"@, c);
    reveal_with_fuel(count_upto, 6);
}

pub proof fn lemma_tally_seventy(c: char)
    ensures
        count_of("seventy"@, c) == (        if c == 's' {
            1nat
        } else if c == 'e' {
            2nat
        } else if c == 'v' {
            1nat
        } else if c == 'n' {
            1nat
        } else if c == 't' {
            1nat
        } else if c == 'y' {
            1nat
        } else {
            0nat
        }),
{
    reveal_strlit("seventy");
    lemma_count_of_is_count_upto("seventy"@, c);
    reveal_with_fuel(count_upto, 8);
}

pub proof fn lemma_tally_eighty(c: char)
    ensures
        count_of("eighty"@, c) == (        if c == 'e' {
            1nat
        } else if c == 'i' {
            1nat
        } else if c == 'g' {
            1nat
        } else if c == 'h' {
            1nat
        } else if c == 't' {
            1nat
        } else if c == 'y' {
            1nat
        } else {
            0nat
        }),
{
    reveal_strlit("eighty");
    lemma_count_of_is_count_upto("eighty"@, c);
    reveal_with_fuel(count_upto, 7);
}

pub proof fn lemma_tally_ninety(c: char)
    ensures
        count_of("ninety"@, c) == (        if c == 'n' {
            2nat
        } else if c == 'i' {
            1nat
        } else if c == 'e' {
            1nat
        } else if c == 't' {
            1nat
        } else if c == 'y' {
            1nat
        } else {
            0nat
        }),
{
    reveal_strlit("ninety");
    lemma_count_of_is_count_upto("ninety"@, c);
    reveal_with_fuel(count_upto, 7);
}

pub proof fn lemma_tally_hyphen(c: char)
    ensures
        count_of("-"@, c) == (        if c == '-' {
            1nat
        } else {
            0nat
        }),
{
    reveal_strlit("-");
    lemma_count_of_is_count_upto("-"@, c);
    reveal_with_fuel(count_upto, 2);
}

pub proof fn lemma_tally_space(c: char)
    ensures
        count_of(" "@, c) == (        if c == ' ' {
            1nat
        } else {
            0nat
        }),
{
    reveal_strlit(" ");
    lemma_count_of_is_count_upto(" "@, c);
    reveal_with_fuel(count_upto, 2);
}

pub proof fn lemma_tally_plural_marker(c: char)
    ensures
        count_of("\'s"@, c) == (        if c == '\'' {
            1nat
        } else if c == 's' {
            1nat
        } else {
            0nat
        }),
{
    reveal_strlit("\'s");
    lemma_count_of_is_count_upto("\'s"@, c);
    reveal_with_fuel(count_upto, 3);
}

pub proof fn lemma_tally_and(c: char)
    ensures
        count_of("and"@, c) == (        if c == 'a' {
            1nat
        } else if c == 'n' {
            1nat
        } else if c == 'd' {
            1nat
        } else {
            0nat
        }),
{
    reveal_strlit("and");
    lemma_count_of_is_count_upto("and"@, c);
    reveal_with_fuel(count_upto, 4);
}

/// The letters contributed by one letter's clause: the spelled count, a
/// space, the named letter itself and, for counts other than one, the
/// pluralizing "'s".
pub open spec fn spec_clause(n: int, j: int) -> Seq<char> {
    spec_number_word(n) + " "@ + seq![spec_letter(j)] + (if n == 1 {
        Seq::<char>::empty()
    } else {
        "'s"@
    })
}

/// The most often a letter can occur inside a single spelled number word,
/// over all the words for 1 to 99. Letters that occur in no number word
/// have a cap of zero.
pub open spec fn spec_word_letter_cap(i: int) -> nat {
    if i == 4 || i == 13 {
        4
    } else if i == 19 || i == 5 {
        3
    } else if i == 14 || i == 8 || i == 18 || i == 17 || i == 7 || i == 22 || i == 6 || i == 21
        || i == 23 {
        2
    } else if i == 11 || i == 20 || i == 24 {
        1
    } else {
        0
    }
}

/// Whether the letter at offset `i` occurs in some spelled number word:
/// the sixteen letters e, f, g, h, i, l, n, o, r, s, t, u, v, w, x, y.
pub open spec fn spec_in_number_words(i: int) -> bool {
    spec_word_letter_cap(i) > 0
}

/// No single number word holds more of any letter than that letter's cap.
#[verifier::rlimit(100)]
#[verifier::spinoff_prover]
pub proof fn lemma_number_word_cap(n: int, i: int)
    requires
        1 <= n <= 99,
        0 <= i < 26,
    ensures
        count_of(spec_number_word(n), spec_letter(i)) <= spec_word_letter_cap(i),
{
    let c = spec_letter(i);
    if n < 20 {
        if n == 1 {
            lemma_tally_one(c);
        } else if n == 2 {
            lemma_tally_two(c);
        } else if n == 3 {
            lemma_tally_three(c);
        } else if n == 4 {
            lemma_tally_four(c);
        } else if n == 5 {
            lemma_tally_five(c);
        } else if n == 6 {
            lemma_tally_six(c);
        } else if n == 7 {
            lemma_tally_seven(c);
        } else if n == 8 {
            lemma_tally_eight(c);
        } else if n == 9 {
            lemma_tally_nine(c);
        } else if n == 10 {
            lemma_tally_ten(c);
        } else if n == 11 {
            lemma_tally_eleven(c);
        } else if n == 12 {
            lemma_tally_twelve(c);
        } else if n == 13 {
            lemma_tally_thirteen(c);
        } else if n == 14 {
            lemma_tally_fourteen(c);
        } else if n == 15 {
            lemma_tally_fifteen(c);
        } else if n == 16 {
            lemma_tally_sixteen(c);
        } else if n == 17 {
            lemma_tally_seventeen(c);
        } else if n == 18 {
            lemma_tally_eighteen(c);
        } else if n == 19 {
            lemma_tally_nineteen(c);
        }
    } else {
        let t = n / 10;
        let u = n % 10;
        if t == 2 {
            lemma_tally_twenty(c);
        } else if t == 3 {
            lemma_tally_thirty(c);
        } else if t == 4 {
            lemma_tally_forty(c);
        } else if t == 5 {
            lemma_tally_fifty(c);
        } else if t == 6 {
            lemma_tally_sixty(c);
        } else if t == 7 {
            lemma_tally_seventy(c);
        } else if t == 8 {
            lemma_tally_eighty(c);
        } else if t == 9 {
            lemma_tally_ninety(c);
        }
        if u != 0 {
            lemma_count_of_concat(spec_tens_word(t) + "-"@, spec_unit_word(u), c);
            lemma_count_of_concat(spec_tens_word(t), "-"@, c);
            lemma_tally_hyphen(c);
            if u == 1 {
                lemma_tally_one(c);
            } else if u == 2 {
                lemma_tally_two(c);
            } else if u == 3 {
                lemma_tally_three(c);
            } else if u == 4 {
                lemma_tally_four(c);
            } else if u == 5 {
                lemma_tally_five(c);
            } else if u == 6 {
                lemma_tally_six(c);
            } else if u == 7 {
                lemma_tally_seven(c);
            } else if u == 8 {
                lemma_tally_eight(c);
            } else if u == 9 {
                lemma_tally_nine(c);
            }
        }
    }
}

/// No spelled number word is longer than "seventy-seven".
pub proof fn lemma_number_word_len(n: int)
    requires
        1 <= n <= 99,
    ensures
        spec_number_word(n).len() <= 13,
{
    reveal_strlit("one");
    reveal_strlit("two");
    reveal_strlit("three");
    reveal_strlit("four");
    reveal_strlit("five");
    reveal_strlit("six");
    reveal_strlit("seven");
    reveal_strlit("eight");
    reveal_strlit("nine");
    reveal_strlit("ten");
    reveal_strlit("eleven");
    reveal_strlit("twelve");
    reveal_strlit("thirteen");
    reveal_strlit("fourteen");
    reveal_strlit("fifteen");
    reveal_strlit("sixteen");
    reveal_strlit("seventeen");
    reveal_strlit("eighteen");
    reveal_strlit("nineteen");
    reveal_strlit("twenty");
    reveal_strlit("thirty");
    reveal_strlit("forty");
    reveal_strlit("fifty");
    reveal_strlit("sixty");
    reveal_strlit("seventy");
    reveal_strlit("eighty");
    reveal_strlit("ninety");
    reveal_strlit("-");
}

/// No clause is longer than "seventy-seven x's".
pub proof fn lemma_clause_len(n: int, j: int)
    requires
        1 <= n <= 99,
    ensures
        spec_clause(n, j).len() <= 17,
{
    lemma_number_word_len(n);
    reveal_strlit(" ");
    reveal_strlit("'s");
}

} // verus!

