//! Decimal text for process ids.
//!
//! The pid file's entire content is the decimal representation of the
//! daemon's process id.  Rendering and parsing are verified against one
//! mathematical definition, and proved to round-trip.

use vstd::prelude::*;

verus! {

/// The decimal digit character (as a byte) for a value below ten.
pub open spec fn digit_byte(d: nat) -> u8
    recommends
        d < 10,
{
    (48 + d) as u8
}

/// The decimal representation of a number, most significant digit first,
/// with no sign, no leading zeros and no terminator.
pub open spec fn spec_decimal(n: nat) -> Seq<u8>
    decreases n,
{
    if n < 10 {
        seq![digit_byte(n)]
    } else {
        spec_decimal(n / 10) + seq![digit_byte(n % 10)]
    }
}

/// Whether every byte of a string is a decimal digit.
pub open spec fn all_digits(s: Seq<u8>) -> bool {
    forall|i: int| 0 <= i < s.len() ==> 48 <= #[trigger] s[i] <= 57
}

/// The value of a digit string, most significant digit first.
pub open spec fn spec_decimal_value(s: Seq<u8>) -> nat
    decreases s.len(),
{
    if s.len() == 0 {
        0
    } else {
        (spec_decimal_value(s.drop_last()) * 10 + (s.last() - 48)) as nat
    }
}

/// The decimal representation of a number never has an embedded terminator,
/// holds only digits, and is never empty.
pub proof fn lemma_decimal_shape(n: nat)
    ensures
        spec_decimal(n).len() >= 1,
        all_digits(spec_decimal(n)),
    decreases n,
{
    if n >= 10 {
        lemma_decimal_shape(n / 10);
    }
}

/// Reading the decimal representation back yields the number it was made
/// from: the pid file's content determines the pid exactly.
pub proof fn lemma_decimal_round_trip(n: nat)
    ensures
        spec_decimal_value(spec_decimal(n)) == n,
    decreases n,
{
    if n < 10 {
        let s = spec_decimal(n);
        assert(s.drop_last() =~= Seq::<u8>::empty());
        assert(s.last() == digit_byte(n));
        assert(digit_byte(n) == 48 + n);
        assert(spec_decimal_value(s) == (spec_decimal_value(Seq::<u8>::empty()) * 10 + (s.last()
            - 48)) as nat);
    } else {
        lemma_decimal_round_trip(n / 10);
        let s = spec_decimal(n);
        assert(s.drop_last() =~= spec_decimal(n / 10));
        assert(s.last() == digit_byte(n % 10));
        assert(digit_byte(n % 10) == 48 + n % 10);
        assert(spec_decimal_value(s) == ((n / 10) * 10 + n % 10) as nat);
    }
}

/// A longer digit string never has a smaller value: extending a digit string
/// multiplies its value and adds a digit.
proof fn lemma_decimal_value_monotone(s: Seq<u8>, t: Seq<u8>)
    requires
        s.len() <= t.len(),
        forall|i: int| 0 <= i < s.len() ==> s[i] == t[i],
        all_digits(t),
    ensures
        spec_decimal_value(s) <= spec_decimal_value(t),
    decreases t.len(),
{
    if s.len() == t.len() {
        assert(s =~= t);
    } else {
        lemma_decimal_value_monotone(s, t.drop_last());
        let v = spec_decimal_value(t.drop_last());
        assert(48 <= t.last() <= 57);
        assert(spec_decimal_value(t) == (v * 10 + (t.last() - 48)) as nat);
        assert(v <= v * 10) by (nonlinear_arith);
    }
}

/// Renders the decimal representation of a number.
pub fn render_decimal(n: u64) -> (r: Vec<u8>)
    ensures
        r@ == spec_decimal(n as nat),
    decreases n,
{
    if n < 10 {
        let mut r: Vec<u8> = Vec::new();
        r.push(48 + (n as u8));
        proof {
            assert(r@ =~= spec_decimal(n as nat));
        }
        r
    } else {
        let mut r = render_decimal(n / 10);
        r.push(48 + ((n % 10) as u8));
        proof {
            assert(r@ =~= spec_decimal(n as nat));
        }
        r
    }
}

/// Parses a digit string back into a number.  Succeeds exactly on the
/// non-empty all-digit strings whose value fits the result type.
pub fn parse_decimal(s: &Vec<u8>) -> (r: Option<u64>)
    ensures
        r is Some <==> s@.len() > 0 && all_digits(s@) && spec_decimal_value(s@) <= u64::MAX,
        r matches Some(v) ==> v == spec_decimal_value(s@),
{
    if s.len() == 0 {
        return None;
    }
    let mut acc: u64 = 0;
    let mut i: usize = 0;
    while i < s.len()
        invariant
            0 <= i <= s@.len(),
            all_digits(s@.subrange(0, i as int)),
            acc == spec_decimal_value(s@.subrange(0, i as int)),
        decreases s@.len() - i,
    {
        let b = s[i];
        if b < 48 || b > 57 {
            proof {
                assert(s@[i as int] == b);
            }
            return None;
        }
        let d = b - 48;
        if acc > (u64::MAX - (d as u64)) / 10 {
            proof {
                if all_digits(s@) {
                    let pre = s@.subrange(0, (i + 1) as int);
                    assert(pre.drop_last() =~= s@.subrange(0, i as int));
                    assert(pre.last() == b);
                    assert(spec_decimal_value(pre) == (acc * 10 + (b - 48)) as nat);
                    let m = u64::MAX - d;
                    assert(m / 10 * 10 + m % 10 == m);
                    assert(acc * 10 + d > u64::MAX);
                    lemma_decimal_value_monotone(pre, s@);
                }
            }
            return None;
        }
        acc = acc * 10 + (d as u64);
        proof {
            let pre = s@.subrange(0, (i + 1) as int);
            assert(pre.drop_last() =~= s@.subrange(0, i as int));
            assert(pre.last() == b);
        }
        i = i + 1;
    }
    proof {
        assert(s@.subrange(0, s@.len() as int) =~= s@);
    }
    Some(acc)
}

} // verus!
