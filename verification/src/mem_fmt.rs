//! Human-readable rendering of a byte count.
//!
//! The magnitude is chosen by repeated division by 1024 and the value is
//! rendered as the truncated integer quotient in that unit. Truncating
//! integer division is the one algorithm this crate uses: it drops the
//! fractional part rather than rounding, so `1536` bytes render as `1 KiB`.

use vstd::prelude::*;
use vstd::string::StringExecFns;

verus! {

broadcast use vstd::arithmetic::div_mod::lemma_div_decreases;

/// The index of the last supported unit; larger magnitudes clamp here.
pub const LAST_UNIT: usize = 6;

/// The decimal digit `d` as a character.
pub open spec fn spec_digit_char(d: nat) -> char {
    if d == 0 {
        '0'
    } else if d == 1 {
        '1'
    } else if d == 2 {
        '2'
    } else if d == 3 {
        '3'
    } else if d == 4 {
        '4'
    } else if d == 5 {
        '5'
    } else if d == 6 {
        '6'
    } else if d == 7 {
        '7'
    } else if d == 8 {
        '8'
    } else {
        '9'
    }
}

/// The usual decimal rendering of `n`, most significant digit first and
/// without leading zeros (`0` renders as the single digit `0`).
pub open spec fn spec_dec(n: nat) -> Seq<char>
    decreases n,
{
    if n < 10 {
        seq![spec_digit_char(n)]
    } else {
        spec_dec(n / 10) + seq![spec_digit_char(n % 10)]
    }
}

/// `1024^k`.
pub open spec fn pow1024(k: nat) -> nat
    decreases k,
{
    if k == 0 {
        1nat
    } else {
        1024 * pow1024((k - 1) as nat)
    }
}

/// How many whole 1024-divisions fit into `b`: the unbounded unit index.
pub open spec fn spec_unit_index(b: nat) -> nat
    decreases b,
{
    if b < 1024 {
        0
    } else {
        1 + spec_unit_index(b / 1024)
    }
}

/// The chosen unit index: the unbounded index, clamped at the last unit.
pub open spec fn spec_level(b: nat) -> nat {
    vstd::math::min(spec_unit_index(b) as int, LAST_UNIT as int) as nat
}

/// The suffix of each unit, from bytes upward.
pub open spec fn spec_unit_suffix(level: nat) -> Seq<char> {
    if level == 0 {
        "B"@
    } else if level == 1 {
        "KiB"@
    } else if level == 2 {
        "MiB"@
    } else if level == 3 {
        "GiB"@
    } else if level == 4 {
        "TiB"@
    } else if level == 5 {
        "EiB"@
    } else {
        "PiB"@
    }
}

/// The full rendering of a byte count: the truncated quotient in the chosen
/// unit, a space, and the unit's suffix.
pub open spec fn spec_mem_string(b: nat) -> Seq<char> {
    spec_dec(b / pow1024(spec_level(b))) + " "@ + spec_unit_suffix(spec_level(b))
}

/// The decimal digit `d`, as a one-character string slice.
fn digit_str(d: u64) -> (r: &'static str)
    requires
        d < 10,
    ensures
        r@ =~= seq![spec_digit_char(d as nat)],
{
    if d == 0 {
        proof { reveal_strlit("0"); }
        "0"
    } else if d == 1 {
        proof { reveal_strlit("1"); }
        "1"
    } else if d == 2 {
        proof { reveal_strlit("2"); }
        "2"
    } else if d == 3 {
        proof { reveal_strlit("3"); }
        "3"
    } else if d == 4 {
        proof { reveal_strlit("4"); }
        "4"
    } else if d == 5 {
        proof { reveal_strlit("5"); }
        "5"
    } else if d == 6 {
        proof { reveal_strlit("6"); }
        "6"
    } else if d == 7 {
        proof { reveal_strlit("7"); }
        "7"
    } else if d == 8 {
        proof { reveal_strlit("8"); }
        "8"
    } else {
        proof { reveal_strlit("9"); }
        "9"
    }
}

/// Renders `n` in decimal.
pub fn to_decimal(n: u64) -> (r: String)
    ensures
        r@ == spec_dec(n as nat),
    decreases n,
{
    if n < 10 {
        let mut s = String::new();
        s.append(digit_str(n));
        proof {
            assert(s@ =~= spec_dec(n as nat));
        }
        s
    } else {
        let mut s = to_decimal(n / 10);
        s.append(digit_str(n % 10));
        proof {
            assert(s@ =~= spec_dec(n as nat));
        }
        s
    }
}

/// The suffix of the unit at `level`.
fn unit_str(level: usize) -> (r: &'static str)
    requires
        level <= LAST_UNIT,
    ensures
        r@ == spec_unit_suffix(level as nat),
{
    match level {
        0 => "B",
        1 => "KiB",
        2 => "MiB",
        3 => "GiB",
        4 => "TiB",
        5 => "EiB",
        _ => "PiB",
    }
}

/// `1024^k` is positive.
proof fn lemma_pow1024_pos(k: nat)
    ensures
        pow1024(k) >= 1,
    decreases k,
{
    if k > 0 {
        lemma_pow1024_pos((k - 1) as nat);
        assert(1024 * pow1024((k - 1) as nat) >= pow1024((k - 1) as nat)) by (nonlinear_arith)
            requires pow1024((k - 1) as nat) >= 1;
    }
}

/// Renders a byte count as a human-readable sized string, choosing the unit
/// by repeated division by 1024 and truncating the shown value to a whole
/// number of that unit.
pub fn get_mem_string(mem: usize) -> (r: String)
    ensures
        r@ == spec_mem_string(mem as nat),
        r@.len() > 0,
{
    let b: u64 = mem as u64;
    let mut v: u64 = b;
    let mut level: usize = 0;
    proof {
        assert(pow1024(0) == 1);
        assert(b as nat / 1 == b as nat) by {
            vstd::arithmetic::div_mod::lemma_div_basics(b as int);
        }
    }
    while v >= 1024 && level < LAST_UNIT
        invariant
            level <= LAST_UNIT,
            spec_unit_index(b as nat) == level + spec_unit_index(v as nat),
            v as nat == b as nat / pow1024(level as nat),
        decreases v,
    {
        proof {
            assert(spec_unit_index(v as nat) == 1 + spec_unit_index(v as nat / 1024));
            lemma_pow1024_pos(level as nat);
            vstd::arithmetic::div_mod::lemma_div_denominator(
                b as int, pow1024(level as nat) as int, 1024);
            assert(pow1024((level + 1) as nat) == 1024 * pow1024(level as nat));
            vstd::arithmetic::mul::lemma_mul_is_commutative(
                pow1024(level as nat) as int, 1024);
        }
        v = v / 1024;
        level = level + 1;
    }
    proof {
        if v < 1024 {
            assert(spec_unit_index(v as nat) == 0);
            assert(spec_unit_index(b as nat) == level);
        } else {
            assert(spec_unit_index(v as nat) >= 1);
        }
        assert(level as nat == spec_level(b as nat));
    }
    let mut s = to_decimal(v);
    s.append(" ");
    s.append(unit_str(level));
    proof {
        reveal_strlit(" ");
        assert(s@ == spec_mem_string(mem as nat));
        assert(s@.len() > 0);
    }
    s
}

} // verus!
