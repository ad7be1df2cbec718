//! Fixed-point rendering of distance values.
//!
//! Distances are measured in millionths of a reporting unit ("micros"), so
//! the `detail` field of a record — a value printed with exactly six
//! fractional digits — can be produced by integer arithmetic alone.

use vstd::prelude::*;
use vstd::string::StringExecFns;

verus! {

/// Number of micro-units in one reporting unit: `detail` values carry six
/// fractional digits.
pub const MICROS_PER_UNIT: u64 = 1_000_000;

/// The character for a single decimal digit.
pub open spec fn digit_char(d: int) -> char {
    if d == 0 {
        '0'
    } else if d == 1 {
        '1'
    } else if d == 2 {
        '2'
    } else if d == 3 {
        '3'
    } else if d == 4 {
        '4'
    } else if d == 5 {
        '5'
    } else if d == 6 {
        '6'
    } else if d == 7 {
        '7'
    } else if d == 8 {
        '8'
    } else {
        '9'
    }
}

/// Decimal representation of `n`, most significant digit first, no leading
/// zeros (except for `n == 0` itself).
pub open spec fn dec_rep(n: nat) -> Seq<char>
    decreases n,
{
    if n < 10 {
        seq![digit_char(n as int)]
    } else {
        dec_rep(n / 10).push(digit_char((n % 10) as int))
    }
}

/// The six fractional digits of a micro-unit remainder, zero-padded.
pub open spec fn frac6(f: nat) -> Seq<char> {
    seq![
        digit_char(((f / 100_000) % 10) as int),
        digit_char(((f / 10_000) % 10) as int),
        digit_char(((f / 1_000) % 10) as int),
        digit_char(((f / 100) % 10) as int),
        digit_char(((f / 10) % 10) as int),
        digit_char((f % 10) as int),
    ]
}

/// How a distance of `micros` micro-units is printed: integer part, a dot,
/// six fractional digits.
pub open spec fn detail_text(micros: nat) -> Seq<char> {
    dec_rep(micros / (MICROS_PER_UNIT as nat)) + seq!['.'] + frac6(
        micros % (MICROS_PER_UNIT as nat),
    )
}

/// No character of `dec_rep(n)` is a field or line separator.
pub proof fn lemma_dec_rep_clean(n: nat)
    ensures
        forall|i: int|
            0 <= i < dec_rep(n).len() ==> dec_rep(n)[i] != ',' && dec_rep(n)[i] != '\n',
    decreases n,
{
    if n < 10 {
    } else {
        lemma_dec_rep_clean(n / 10);
        assert forall|i: int| 0 <= i < dec_rep(n).len() implies dec_rep(n)[i] != ','
            && dec_rep(n)[i] != '\n' by {
            if i < dec_rep(n / 10).len() {
                assert(dec_rep(n)[i] == dec_rep(n / 10)[i]);
            } else {
                assert(dec_rep(n)[i] == digit_char((n % 10) as int));
            }
        }
    }
}

/// No character of a printed distance is a field or line separator.
pub proof fn lemma_detail_text_clean(micros: nat)
    ensures
        forall|i: int|
            0 <= i < detail_text(micros).len() ==> detail_text(micros)[i] != ','
                && detail_text(micros)[i] != '\n',
{
    lemma_dec_rep_clean(micros / (MICROS_PER_UNIT as nat));
}

/// Appends the character for digit `d` to `s`.
fn push_digit(s: &mut String, d: u64)
    requires
        d < 10,
    ensures
        final(s)@ == old(s)@.push(digit_char(d as int)),
{
    proof {
        reveal_strlit("0");
        reveal_strlit("1");
        reveal_strlit("2");
        reveal_strlit("3");
        reveal_strlit("4");
        reveal_strlit("5");
        reveal_strlit("6");
        reveal_strlit("7");
        reveal_strlit("8");
        reveal_strlit("9");
    }
    if d == 0 {
        s.append("0");
    } else if d == 1 {
        s.append("1");
    } else if d == 2 {
        s.append("2");
    } else if d == 3 {
        s.append("3");
    } else if d == 4 {
        s.append("4");
    } else if d == 5 {
        s.append("5");
    } else if d == 6 {
        s.append("6");
    } else if d == 7 {
        s.append("7");
    } else if d == 8 {
        s.append("8");
    } else {
        s.append("9");
    }
    proof {
        assert(s@ =~= old(s)@.push(digit_char(d as int)));
    }
}

/// Renders `n` in decimal.
pub fn u64_to_dec(n: u64) -> (r: String)
    ensures
        r@ == dec_rep(n as nat),
    decreases n,
{
    if n < 10 {
        let mut r = String::new();
        push_digit(&mut r, n);
        proof {
            assert(r@ =~= dec_rep(n as nat));
        }
        r
    } else {
        let mut r = u64_to_dec(n / 10);
        push_digit(&mut r, n % 10);
        r
    }
}

/// Renders a micro-unit distance with six fractional digits, as the
/// `detail` field of a record carries it.
pub fn detail_string(micros: u64) -> (r: String)
    ensures
        r@ == detail_text(micros as nat),
{
    proof {
        reveal_strlit(".");
    }
    let mut r = u64_to_dec(micros / MICROS_PER_UNIT);
    r.append(".");
    let f = micros % MICROS_PER_UNIT;
    push_digit(&mut r, (f / 100_000) % 10);
    push_digit(&mut r, (f / 10_000) % 10);
    push_digit(&mut r, (f / 1_000) % 10);
    push_digit(&mut r, (f / 100) % 10);
    push_digit(&mut r, (f / 10) % 10);
    push_digit(&mut r, f % 10);
    proof {
        assert(r@ =~= detail_text(micros as nat));
    }
    r
}

} // verus!
