//! Lowercase hexadecimal rendering of 16-bit values.

use vstd::prelude::*;
use vstd::string::StringExecFns;
use crate::rng::random_u16_up_to;

verus! {

/// The lowercase hexadecimal digit character for a value below 16.
pub open spec fn spec_hex_digit(d: nat) -> char {
    if d == 0 {
        '0'
    } else if d == 1 {
        '1'
    } else if d == 2 {
        '2'
    } else if d == 3 {
        '3'
    } else if d == 4 {
        '4'
    } else if d == 5 {
        '5'
    } else if d == 6 {
        '6'
    } else if d == 7 {
        '7'
    } else if d == 8 {
        '8'
    } else if d == 9 {
        '9'
    } else if d == 10 {
        'a'
    } else if d == 11 {
        'b'
    } else if d == 12 {
        'c'
    } else if d == 13 {
        'd'
    } else if d == 14 {
        'e'
    } else {
        'f'
    }
}

/// The lowercase hexadecimal rendering of `n`, most significant digit first,
/// without leading zeroes (`0` itself renders as `"0"`).
pub open spec fn spec_hex(n: nat) -> Seq<char>
    decreases n,
{
    if n < 16 {
        seq![spec_hex_digit(n)]
    } else {
        spec_hex(n / 16) + seq![spec_hex_digit(n % 16)]
    }
}

/// One hexadecimal digit as a string slice.
fn hex_digit_str(d: u16) -> (r: &'static str)
    requires
        d < 16,
    ensures
        r@ =~= seq![spec_hex_digit(d as nat)],
{
    let s: &'static str = if d == 0 {
        "0"
    } else if d == 1 {
        "1"
    } else if d == 2 {
        "2"
    } else if d == 3 {
        "3"
    } else if d == 4 {
        "4"
    } else if d == 5 {
        "5"
    } else if d == 6 {
        "6"
    } else if d == 7 {
        "7"
    } else if d == 8 {
        "8"
    } else if d == 9 {
        "9"
    } else if d == 10 {
        "a"
    } else if d == 11 {
        "b"
    } else if d == 12 {
        "c"
    } else if d == 13 {
        "d"
    } else if d == 14 {
        "e"
    } else {
        "f"
    };
    proof {
        reveal_strlit("0");
        reveal_strlit("1");
        reveal_strlit("2");
        reveal_strlit("3");
        reveal_strlit("4");
        reveal_strlit("5");
        reveal_strlit("6");
        reveal_strlit("7");
        reveal_strlit("8");
        reveal_strlit("9");
        reveal_strlit("a");
        reveal_strlit("b");
        reveal_strlit("c");
        reveal_strlit("d");
        reveal_strlit("e");
        reveal_strlit("f");
    }
    s
}

/// Renders `v` as lowercase hexadecimal without leading zeroes.
pub fn hex_str(v: u16) -> (r: String)
    ensures
        r@ == spec_hex(v as nat),
    decreases v,
{
    if v < 16 {
        let r = String::from_str(hex_digit_str(v));
        proof {
            assert(r@ =~= spec_hex(v as nat));
        }
        r
    } else {
        let mut s = hex_str(v / 16);
        s.append(hex_digit_str(v % 16));
        proof {
            assert(s@ =~= spec_hex(v as nat));
        }
        s
    }
}

/// The hexadecimal rendering of `v` under an inclusive bound: zero-padded to
/// two digits exactly when the bound is 255, unpadded otherwise.
pub open spec fn spec_hex_group(v: u16, bound: u16) -> Seq<char> {
    if bound == 255 && v < 16 {
        seq!['0'] + spec_hex(v as nat)
    } else {
        spec_hex(v as nat)
    }
}

/// The padded rendering of a byte value is always exactly two digits long.
pub proof fn lemma_hex_group_byte_len(v: u16)
    requires
        v <= 255,
    ensures
        spec_hex_group(v, 255).len() == 2,
{
    if v >= 16 {
        assert(spec_hex(v as nat) == spec_hex(v as nat / 16) + seq![
            spec_hex_digit(v as nat % 16),
        ]);
        assert(v as nat / 16 < 16);
    }
}

/// Renders `v` as lowercase hexadecimal, zero-padded to two digits exactly
/// when `bound` is 255.
pub fn hex_group(v: u16, bound: u16) -> (r: String)
    requires
        v <= bound,
    ensures
        r@ == spec_hex_group(v, bound),
        bound == 255 ==> r@.len() == 2,
{
    proof {
        if bound == 255 {
            lemma_hex_group_byte_len(v);
        }
    }
    if bound == 255 && v < 16 {
        let mut s = String::from_str("0");
        s.append(hex_digit_str(v));
        proof {
            reveal_strlit("0");
            assert(s@ =~= spec_hex_group(v, bound));
        }
        s
    } else {
        let s = hex_str(v);
        s
    }
}

/// Draws a uniformly random value in `[0, max_hex_value_as_int]` and renders
/// it as lowercase hexadecimal, zero-padded to two digits exactly when the
/// bound is 255. A bound of 0 always yields the string `"0"`, and a bound of
/// 255 always yields exactly two hexadecimal characters.
pub fn generate_hex(max_hex_value_as_int: u16) -> (r: String)
    ensures
        exists|v: u16|
            v <= max_hex_value_as_int && r@ == #[trigger] spec_hex_group(
                v,
                max_hex_value_as_int,
            ),
        max_hex_value_as_int == 0 ==> r@ =~= seq!['0'],
        max_hex_value_as_int == 255 ==> r@.len() == 2,
{
    let v = random_u16_up_to(max_hex_value_as_int);
    let r = hex_group(v, max_hex_value_as_int);
    proof {
        assert(v <= max_hex_value_as_int && r@ == spec_hex_group(v, max_hex_value_as_int));
        if max_hex_value_as_int == 0 {
            assert(r@ =~= seq!['0']);
        }
    }
    r
}

} // verus!
