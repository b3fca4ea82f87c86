//! The letter index: a bijection between the 26 lowercase Latin letters and
//! the offsets 0..26 used by every fixed-size counting array.

use vstd::prelude::*;

verus! {

/// The letter stored at a given offset: 0 is 'a', 25 is 'z'.
pub open spec fn spec_letter(i: int) -> char {
    if i == 0 {
        'a'
    } else if i == 1 {
        'b'
    } else if i == 2 {
        'c'
    } else if i == 3 {
        'd'
    } else if i == 4 {
        'e'
    } else if i == 5 {
        'f'
    } else if i == 6 {
        'g'
    } else if i == 7 {
        'h'
    } else if i == 8 {
        'i'
    } else if i == 9 {
        'j'
    } else if i == 10 {
        'k'
    } else if i == 11 {
        'l'
    } else if i == 12 {
        'm'
    } else if i == 13 {
        'n'
    } else if i == 14 {
        'o'
    } else if i == 15 {
        'p'
    } else if i == 16 {
        'q'
    } else if i == 17 {
        'r'
    } else if i == 18 {
        's'
    } else if i == 19 {
        't'
    } else if i == 20 {
        'u'
    } else if i == 21 {
        'v'
    } else if i == 22 {
        'w'
    } else if i == 23 {
        'x'
    } else if i == 24 {
        'y'
    } else {
        'z'
    }
}

/// The offset of a character, or `None` when it is not a lowercase letter.
pub open spec fn spec_char_index(c: char) -> Option<int> {
    if 'a' <= c <= 'z' {
        Some(c as int - 'a' as int)
    } else {
        None
    }
}

/// The two spec views of the index agree: `spec_letter` is the inverse of
/// `spec_char_index` on the 26 letter offsets.
pub proof fn lemma_letter_index_bijection()
    ensures
        forall|i: int| 0 <= i < 26 ==> spec_char_index(#[trigger] spec_letter(i)) == Some(i),
        forall|c: char|
            #[trigger] spec_char_index(c) matches Some(i) ==> 0 <= i < 26 && spec_letter(i) == c,
{
}

/// Maps a character to its offset in the 26-member counting arrays, or
/// `None` when the character is not a lowercase letter.
pub fn char_to_index(c: &char) -> (r: Option<usize>)
    ensures
        r matches Some(i) ==> spec_char_index(*c) == Some(i as int) && i < 26,
        r is None <==> spec_char_index(*c) is None,
{
    match *c {
        'a' => Some(0),
        'b' => Some(1),
        'c' => Some(2),
        'd' => Some(3),
        'e' => Some(4),
        'f' => Some(5),
        'g' => Some(6),
        'h' => Some(7),
        'i' => Some(8),
        'j' => Some(9),
        'k' => Some(10),
        'l' => Some(11),
        'm' => Some(12),
        'n' => Some(13),
        'o' => Some(14),
        'p' => Some(15),
        'q' => Some(16),
        'r' => Some(17),
        's' => Some(18),
        't' => Some(19),
        'u' => Some(20),
        'v' => Some(21),
        'w' => Some(22),
        'x' => Some(23),
        'y' => Some(24),
        'z' => Some(25),
        _ => None,
    }
}

/// Maps an offset back to its letter.
pub fn index_to_char(index: &usize) -> (r: char)
    requires
        *index < 26,
    ensures
        r == spec_letter(*index as int),
{
    ((*index as u8) + 97) as char
}

/// The 26 lowercase letters in order, 'a' first.
///
/// Relies on char_iter::new: an iterator over the characters from the start
/// bound to the end bound inclusive, in code-point order; between 'a' and
/// 'z' those are exactly the 26 lowercase letters.
#[verifier::external_body]
pub fn lowercase_letters() -> (r: Vec<char>)
    ensures
        r@.len() == 26,
        forall|i: int| 0 <= i < 26 ==> r@[i] == spec_letter(i),
{
    char_iter::new('a', 'z').collect()
}

/// The letter at an offset, as a one-character string slice.
#[verifier::rlimit(50)]
pub fn letter_str(index: usize) -> (r: &'static str)
    requires
        index < 26,
    ensures
        r@ =~= seq![spec_letter(index as int)],
{
    match index {
        0 => {
            proof {
                reveal_strlit("a");
                assert("a"@ =~= seq!['a']);
            }
            "a"
        },
        1 => {
            proof {
                reveal_strlit("b");
                assert("b"@ =~= seq!['b']);
            }
            "b"
        },
        2 => {
            proof {
                reveal_strlit("c");
                assert("c"@ =~= seq!['c']);
            }
            "c"
        },
        3 => {
            proof {
                reveal_strlit("d");
                assert("d"@ =~= seq!['d']);
            }
            "d"
        },
        4 => {
            proof {
                reveal_strlit("e");
                assert("e"@ =~= seq!['e']);
            }
            "e"
        },
        5 => {
            proof {
                reveal_strlit("f");
                assert("f"@ =~= seq!['f']);
            }
            "f"
        },
        6 => {
            proof {
                reveal_strlit("g");
                assert("g"@ =~= seq!['g']);
            }
            "g"
        },
        7 => {
            proof {
                reveal_strlit("h");
                assert("h"@ =~= seq!['h']);
            }
            "h"
        },
        8 => {
            proof {
                reveal_strlit("i");
                assert("i"@ =~= seq!['i']);
            }
            "i"
        },
        9 => {
            proof {
                reveal_strlit("j");
                assert("j"@ =~= seq!['j']);
            }
            "j"
        },
        10 => {
            proof {
                reveal_strlit("k");
                assert("k"@ =~= seq!['k']);
            }
            "k"
        },
        11 => {
            proof {
                reveal_strlit("l");
                assert("l"@ =~= seq!['l']);
            }
            "l"
        },
        12 => {
            proof {
                reveal_strlit("m");
                assert("m"@ =~= seq!['m']);
            }
            "m"
        },
        13 => {
            proof {
                reveal_strlit("n");
                assert("n"@ =~= seq!['n']);
            }
            "n"
        },
        14 => {
            proof {
                reveal_strlit("o");
                assert("o"@ =~= seq!['o']);
            }
            "o"
        },
        15 => {
            proof {
                reveal_strlit("p");
                assert("p"@ =~= seq!['p']);
            }
            "p"
        },
        16 => {
            proof {
                reveal_strlit("q");
                assert("q"@ =~= seq!['q']);
            }
            "q"
        },
        17 => {
            proof {
                reveal_strlit("r");
                assert("r"@ =~= seq!['r']);
            }
            "r"
        },
        18 => {
            proof {
                reveal_strlit("s");
                assert("s"@ =~= seq!['s']);
            }
            "s"
        },
        19 => {
            proof {
                reveal_strlit("t");
                assert("t"@ =~= seq!['t']);
            }
            "t"
        },
        20 => {
            proof {
                reveal_strlit("u");
                assert("u"@ =~= seq!['u']);
            }
            "u"
        },
        21 => {
            proof {
                reveal_strlit("v");
                assert("v"@ =~= seq!['v']);
            }
            "v"
        },
        22 => {
            proof {
                reveal_strlit("w");
                assert("w"@ =~= seq!['w']);
            }
            "w"
        },
        23 => {
            proof {
                reveal_strlit("x");
                assert("x"@ =~= seq!['x']);
            }
            "x"
        },
        24 => {
            proof {
                reveal_strlit("y");
                assert("y"@ =~= seq!['y']);
            }
            "y"
        },
        25 => {
            proof {
                reveal_strlit("z");
                assert("z"@ =~= seq!['z']);
            }
            "z"
        },
        _ => {
            proof {
                assert(false);
            }
            ""
        },
    }
}

} // verus!

