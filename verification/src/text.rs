//! Character-level helpers: decimal digits, ASCII lowercasing and the
//! lexicographic order on character sequences.

use vstd::prelude::*;
use vstd::string::StrSliceExecFns;
use vstd::string::StringExecFns;

verus! {

/// The character for a single decimal digit value.
pub open spec fn digit_char(d: int) -> char
    recommends
        0 <= d <= 9,
{
    ((d + 48) as u8) as char
}

/// ASCII lowercasing of one character: `'A'..='Z'` map to `'a'..='z'`,
/// every other character is unchanged.
pub open spec fn lower_char(c: char) -> char {
    if 65 <= c as u32 && c as u32 <= 90 {
        ((c as u32 + 32) as u8) as char
    } else {
        c
    }
}

/// ASCII lowercasing of a character sequence.
pub open spec fn lower_seq(s: Seq<char>) -> Seq<char> {
    s.map_values(|c: char| lower_char(c))
}

/// Lexicographic order on character sequences, by Unicode scalar value.
/// For UTF-8 encoded strings this coincides with the byte order std uses.
pub open spec fn lex_le(a: Seq<char>, b: Seq<char>) -> bool
    decreases a.len(),
{
    if a.len() == 0 {
        true
    } else if b.len() == 0 {
        false
    } else if (a[0] as u32) < (b[0] as u32) {
        true
    } else if (a[0] as u32) > (b[0] as u32) {
        false
    } else {
        lex_le(a.drop_first(), b.drop_first())
    }
}

/// The lexicographic order relates every pair of sequences.
pub proof fn lemma_lex_le_total(a: Seq<char>, b: Seq<char>)
    ensures
        lex_le(a, b) || lex_le(b, a),
    decreases a.len(),
{
    if a.len() == 0 || b.len() == 0 {
    } else if (a[0] as u32) == (b[0] as u32) {
        lemma_lex_le_total(a.drop_first(), b.drop_first());
    }
}

/// The lexicographic order is transitive.
pub proof fn lemma_lex_le_trans(a: Seq<char>, b: Seq<char>, c: Seq<char>)
    requires
        lex_le(a, b),
        lex_le(b, c),
    ensures
        lex_le(a, c),
    decreases a.len(),
{
    if a.len() == 0 {
    } else {
        if (a[0] as u32) == (b[0] as u32) && (b[0] as u32) == (c[0] as u32) {
            lemma_lex_le_trans(a.drop_first(), b.drop_first(), c.drop_first());
        }
    }
}

/// Compares two strings in the lexicographic order on their characters.
pub fn str_le(a: &str, b: &str) -> (r: bool)
    ensures
        r == lex_le(a@, b@),
{
    let alen = a.unicode_len();
    let blen = b.unicode_len();
    let mut i: usize = 0;
    proof {
        assert(a@.skip(0) =~= a@);
        assert(b@.skip(0) =~= b@);
    }
    loop
        invariant
            i <= alen,
            i <= blen,
            alen == a@.len(),
            blen == b@.len(),
            lex_le(a@, b@) == lex_le(a@.skip(i as int), b@.skip(i as int)),
        decreases alen - i,
    {
        if i == alen {
            return true;
        }
        if i == blen {
            return false;
        }
        let ca = a.get_char(i);
        let cb = b.get_char(i);
        if (ca as u32) < (cb as u32) {
            return true;
        }
        if (ca as u32) > (cb as u32) {
            return false;
        }
        proof {
            assert(a@.skip(i as int).drop_first() =~= a@.skip(i + 1));
            assert(b@.skip(i as int).drop_first() =~= b@.skip(i + 1));
        }
        i = i + 1;
    }
}

/// The one-character string for an upper-case ASCII letter's lower-case form.
fn lower_letter_str(c: char) -> (r: &'static str)
    requires
        65 <= c as u32 <= 90,
    ensures
        r@ =~= seq![lower_char(c)],
{
    let cu = c as u32;
    match cu {
        65u32 => {
            proof {
                reveal_strlit("a");
            }
            "a"
        },
        66u32 => {
            proof {
                reveal_strlit("b");
            }
            "b"
        },
        67u32 => {
            proof {
                reveal_strlit("c");
            }
            "c"
        },
        68u32 => {
            proof {
                reveal_strlit("d");
            }
            "d"
        },
        69u32 => {
            proof {
                reveal_strlit("e");
            }
            "e"
        },
        70u32 => {
            proof {
                reveal_strlit("f");
            }
            "f"
        },
        71u32 => {
            proof {
                reveal_strlit("g");
            }
            "g"
        },
        72u32 => {
            proof {
                reveal_strlit("h");
            }
            "h"
        },
        73u32 => {
            proof {
                reveal_strlit("i");
            }
            "i"
        },
        74u32 => {
            proof {
                reveal_strlit("j");
            }
            "j"
        },
        75u32 => {
            proof {
                reveal_strlit("k");
            }
            "k"
        },
        76u32 => {
            proof {
                reveal_strlit("l");
            }
            "l"
        },
        77u32 => {
            proof {
                reveal_strlit("m");
            }
            "m"
        },
        78u32 => {
            proof {
                reveal_strlit("n");
            }
            "n"
        },
        79u32 => {
            proof {
                reveal_strlit("o");
            }
            "o"
        },
        80u32 => {
            proof {
                reveal_strlit("p");
            }
            "p"
        },
        81u32 => {
            proof {
                reveal_strlit("q");
            }
            "q"
        },
        82u32 => {
            proof {
                reveal_strlit("r");
            }
            "r"
        },
        83u32 => {
            proof {
                reveal_strlit("s");
            }
            "s"
        },
        84u32 => {
            proof {
                reveal_strlit("t");
            }
            "t"
        },
        85u32 => {
            proof {
                reveal_strlit("u");
            }
            "u"
        },
        86u32 => {
            proof {
                reveal_strlit("v");
            }
            "v"
        },
        87u32 => {
            proof {
                reveal_strlit("w");
            }
            "w"
        },
        88u32 => {
            proof {
                reveal_strlit("x");
            }
            "x"
        },
        89u32 => {
            proof {
                reveal_strlit("y");
            }
            "y"
        },
        _ => {
            proof {
                reveal_strlit("z");
            }
            "z"
        },
    }
}

/// ASCII-lowercases a string, as `str::to_ascii_lowercase` does.
pub fn to_ascii_lower(s: &str) -> (r: String)
    ensures
        r@ == lower_seq(s@),
{
    let n = s.unicode_len();
    let mut r = String::new();
    let mut i: usize = 0;
    while i < n
        invariant
            i <= n,
            n == s@.len(),
            r@ =~= lower_seq(s@.subrange(0, i as int)),
        decreases n - i,
    {
        let c = s.get_char(i);
        let cu = c as u32;
        if 65 <= cu && cu <= 90 {
            r.append(lower_letter_str(c));
        } else {
            r.append(s.substring_char(i, i + 1));
        }
        proof {
            assert(lower_seq(s@.subrange(0, i + 1)) =~= lower_seq(
                s@.subrange(0, i as int),
            ).push(lower_char(s@[i as int])));
        }
        i = i + 1;
    }
    proof {
        assert(s@.subrange(0, n as int) =~= s@);
    }
    r
}

} // verus!
