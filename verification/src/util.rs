use vstd::prelude::*;

use crate::model::{REGISTER_BASE, REGISTER_TOP};
use vstd::string::StringExecFns;

verus! {

/// Relies on `String::push` of std: it appends the given character to
/// the end of the string.
pub assume_specification[ String::push ](s: &mut String, ch: char)
    ensures
        final(s)@ == old(s)@.push(ch),
;

/// The character for one decimal digit.
pub open spec fn digit_char(d: int) -> char {
    if d == 0 {
        '0'
    } else if d == 1 {
        '1'
    } else if d == 2 {
        '2'
    } else if d == 3 {
        '3'
    } else if d == 4 {
        '4'
    } else if d == 5 {
        '5'
    } else if d == 6 {
        '6'
    } else if d == 7 {
        '7'
    } else if d == 8 {
        '8'
    } else {
        '9'
    }
}

/// The decimal rendering of a non-negative number, most significant
/// digit first, without leading zeros (a single zero for 0).
pub open spec fn dec_str(n: int) -> Seq<char>
    recommends
        n >= 0,
    decreases n,
{
    if n < 10 {
        seq![digit_char(n)]
    } else {
        dec_str(n / 10).push(digit_char(n % 10))
    }
}

/// The character for one decimal digit, as a one-character string.
fn digit_str(d: u16) -> (r: &'static str)
    requires
        d < 10,
    ensures
        r@ == seq![digit_char(d as int)],
{
    proof {
        reveal_strlit("0");
        reveal_strlit("1");
        reveal_strlit("2");
        reveal_strlit("3");
        reveal_strlit("4");
        reveal_strlit("5");
        reveal_strlit("6");
        reveal_strlit("7");
        reveal_strlit("8");
        reveal_strlit("9");
        assert("0"@ =~= seq!['0']);
        assert("1"@ =~= seq!['1']);
        assert("2"@ =~= seq!['2']);
        assert("3"@ =~= seq!['3']);
        assert("4"@ =~= seq!['4']);
        assert("5"@ =~= seq!['5']);
        assert("6"@ =~= seq!['6']);
        assert("7"@ =~= seq!['7']);
        assert("8"@ =~= seq!['8']);
        assert("9"@ =~= seq!['9']);
    }
    match d {
        0 => "0",
        1 => "1",
        2 => "2",
        3 => "3",
        4 => "4",
        5 => "5",
        6 => "6",
        7 => "7",
        8 => "8",
        _ => "9",
    }
}

/// The decimal rendering of `n`, exactly `dec_str`.
pub fn u64_to_string(n: u64) -> (s: String)
    ensures
        s@ == dec_str(n as int),
    decreases n,
{
    if n < 10 {
        let mut s = String::new();
        s.append(digit_str(n as u16));
        proof {
            assert(s@ =~= dec_str(n as int));
        }
        s
    } else {
        let mut s = u64_to_string(n / 10);
        s.append(digit_str((n % 10) as u16));
        proof {
            assert(s@ =~= dec_str(n as int));
        }
        s
    }
}

/// Powers of ten, for bounding the length of a decimal rendering.
pub open spec fn pow10(k: nat) -> int
    decreases k,
{
    if k == 0 {
        1
    } else {
        10 * pow10((k - 1) as nat)
    }
}

/// A number below the `k`-th power of ten renders in at most `k` digits.
pub proof fn lemma_dec_str_len_digits(n: int, k: nat)
    requires
        n >= 0,
        k >= 1,
        n < pow10(k),
    ensures
        dec_str(n).len() <= k,
    decreases k,
{
    if n >= 10 {
        if k == 1 {
            assert(pow10(1) == 10);
        } else {
            assert(pow10(k) == 10 * pow10((k - 1) as nat));
            assert(n / 10 < pow10((k - 1) as nat)) by (nonlinear_arith)
                requires
                    n < 10 * pow10((k - 1) as nat),
                    n >= 0,
            ;
            lemma_dec_str_len_digits(n / 10, (k - 1) as nat);
        }
    }
}

/// Every `u64` renders in at most twenty digits.
pub proof fn lemma_dec_str_len_u64(n: u64)
    ensures
        dec_str(n as int).len() <= 20,
{
    reveal_with_fuel(pow10, 21);
    assert(pow10(20) == 100000000000000000000int);
    lemma_dec_str_len_digits(n as int, 20);
}

/// How many characters `dec_str` uses for `n`.
pub fn dec_len(n: u64) -> (l: usize)
    ensures
        l == dec_str(n as int).len(),
        l <= 20,
    decreases n,
{
    proof {
        lemma_dec_str_len_u64(n);
    }
    if n < 10 {
        1
    } else {
        let l = dec_len(n / 10);
        l + 1
    }
}

/// Converts a word to the ASCII character it encodes, if any: values
/// below 128 map to the character with that code, anything else to
/// `None`.
pub fn to_ascii(n: u16) -> (r: Option<char>)
    ensures
        n < 128 ==> r == Some(n as u8 as char),
        n >= 128 ==> r is None,
{
    if n < 128 {
        Some(n as u8 as char)
    } else {
        None
    }
}

/// The character a word displays as: its ASCII character below 128, a
/// placeholder dot otherwise.
pub open spec fn ascii_or_dot(n: u16) -> char {
    if n < 128 {
        n as u8 as char
    } else {
        '.'
    }
}

/// Converts a word for display: the ASCII character it encodes, or a
/// placeholder dot.
pub fn maybe_to_ascii(n: u16) -> (r: char)
    ensures
        r == ascii_or_dot(n),
{
    if n < 128 {
        n as u8 as char
    } else {
        '.'
    }
}

/// The reversible masking transform used for obfuscated-memory display;
/// it never affects execution semantics.
pub open spec fn masked(n: u16, key: u16) -> u16 {
    (n | key) & !(n & key)
}

/// Masking with the same key twice gives the word back: the transform is
/// reversible.
pub proof fn lemma_mask_reversible(n: u16, key: u16)
    ensures
        masked(masked(n, key), key) == n,
{
    assert(((((n | key) & !(n & key)) | key) & !(((n | key) & !(n & key)) & key)) == n)
        by (bit_vector);
}

/// Converts a word for display after unmasking it with `key`: the
/// masked word's ASCII character, or a placeholder dot.
pub fn maybe_to_ascii_coded(n: u16, key: u16) -> (r: char)
    ensures
        r == ascii_or_dot(masked(n, key)),
{
    let r2 = !(n & key);
    let r0 = (n | key) & r2;
    maybe_to_ascii(r0)
}

/// How a raw operand word prints: `r0` to `r7` for a register address,
/// the decimal value otherwise.
pub open spec fn register_pretty_spec(v: u16) -> Seq<char> {
    if REGISTER_BASE <= v <= REGISTER_TOP {
        seq!['r', digit_char(v - REGISTER_BASE)]
    } else {
        dec_str(v as int)
    }
}

/// Renders a raw operand word for display: a register address as its
/// register name, anything else as its decimal value.
pub fn register_pretty(s: &u16) -> (r: String)
    ensures
        r@ == register_pretty_spec(*s),
{
    let v = *s;
    if REGISTER_BASE <= v && v <= REGISTER_TOP {
        let mut out = String::new();
        out.push('r');
        out.append(digit_str(v - REGISTER_BASE));
        proof {
            assert(out@ =~= register_pretty_spec(v));
        }
        out
    } else {
        u64_to_string(v as u64)
    }
}

} // verus!
