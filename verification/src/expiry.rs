use vstd::prelude::*;

verus! {

/// A decimal digit byte, `0`–`9`.
pub open spec fn is_dec_digit(b: u8) -> bool {
    48 <= b <= 57
}

/// Numeric value of a digit string, most significant digit first.
pub open spec fn digits_value(s: Seq<u8>) -> int
    decreases s.len(),
{
    if s.len() == 0 {
        0
    } else {
        digits_value(s.drop_last()) * 10 + (s.last() - 48)
    }
}

/// Seconds per unit letter: `s`, `m`, `h` or `d`, in either case; any other
/// byte is no unit.
pub open spec fn unit_factor(b: u8) -> int {
    if b == 115 || b == 83 {
        1
    } else if b == 109 || b == 77 {
        60
    } else if b == 104 || b == 72 {
        3600
    } else if b == 100 || b == 68 {
        86400
    } else {
        0
    }
}

/// An expiry string: one or more decimal digits followed by a unit letter.
pub open spec fn valid_exp_string(s: Seq<u8>) -> bool {
    &&& s.len() >= 2
    &&& unit_factor(s.last()) != 0
    &&& forall|i: int| 0 <= i < s.len() - 1 ==> is_dec_digit(s[i])
}

/// The duration in seconds an expiry string denotes.
pub open spec fn spec_exp_seconds(s: Seq<u8>) -> int {
    digits_value(s.drop_last()) * unit_factor(s.last())
}

proof fn lemma_digits_value_nonneg(s: Seq<u8>)
    requires
        forall|i: int| 0 <= i < s.len() ==> is_dec_digit(s[i]),
    ensures
        digits_value(s) >= 0,
    decreases s.len(),
{
    if s.len() > 0 {
        lemma_digits_value_nonneg(s.drop_last());
    }
}

proof fn lemma_digits_value_monotone(s: Seq<u8>, i: int)
    requires
        0 <= i <= s.len(),
        forall|k: int| 0 <= k < s.len() ==> is_dec_digit(s[k]),
    ensures
        digits_value(s.take(i)) <= digits_value(s),
    decreases s.len() - i,
{
    if i < s.len() {
        lemma_digits_value_nonneg(s.take(i));
        assert(s.take(i + 1).drop_last() =~= s.take(i));
        assert(digits_value(s.take(i + 1)) == digits_value(s.take(i)) * 10 + (s[i] - 48));
        lemma_digits_value_monotone(s, i + 1);
    } else {
        assert(s.take(i) =~= s);
    }
}

/// Parse an expiry of the form `<digits><unit>` (for example a count of
/// days written as digits followed by `d`) into a number of seconds.
/// Returns nothing when the string does not match that shape or the number
/// of seconds does not fit in a `u64`.
pub fn parse_exp_string(exp: &[u8]) -> (r: Option<u64>)
    ensures
        valid_exp_string(exp@) && spec_exp_seconds(exp@) <= u64::MAX ==> (r matches Some(v) && v
            == spec_exp_seconds(exp@)),
        !valid_exp_string(exp@) ==> r is None,
        valid_exp_string(exp@) && spec_exp_seconds(exp@) > u64::MAX ==> r is None,
{
    let n = exp.len();
    if n < 2 {
        return None;
    }
    let mut acc: u64 = 0;
    let mut i: usize = 0;
    while i < n - 1
        invariant
            0 <= i <= n - 1,
            2 <= n == exp@.len(),
            acc == digits_value(exp@.take(i as int)),
            forall|k: int| 0 <= k < i ==> is_dec_digit(exp@[k]),
        decreases n - 1 - i,
    {
        let b = exp[i];
        if !(48 <= b && b <= 57) {
            assert(!valid_exp_string(exp@));
            return None;
        }
        let d = (b - 48) as u64;
        let stepped = match acc.checked_mul(10) {
            Some(m) => m.checked_add(d),
            None => None,
        };
        match stepped {
            Some(next) => {
                proof {
                    assert(exp@.take(i + 1).drop_last() =~= exp@.take(i as int));
                }
                acc = next;
            },
            None => {
                proof {
                    if valid_exp_string(exp@) {
                        assert(exp@.take(i + 1).drop_last() =~= exp@.take(i as int));
                        assert(digits_value(exp@.take(i + 1)) > u64::MAX);
                        assert(exp@.drop_last() =~= exp@.take(n - 1));
                        lemma_digits_value_monotone(exp@.take(n - 1), i + 1);
                        assert(exp@.take(n - 1).take(i + 1) =~= exp@.take(i + 1));
                        let dv = digits_value(exp@.drop_last());
                        let f = unit_factor(exp@.last());
                        assert(dv > u64::MAX);
                        assert(f >= 1);
                        assert(dv * f >= dv) by (nonlinear_arith)
                            requires
                                dv >= 0,
                                f >= 1,
                        ;
                    }
                }
                return None;
            },
        }
        i = i + 1;
    }
    let unit = exp[n - 1];
    let factor: u64 = if unit == 115 || unit == 83 {
        1
    } else if unit == 109 || unit == 77 {
        60
    } else if unit == 104 || unit == 72 {
        3600
    } else if unit == 100 || unit == 68 {
        86400
    } else {
        assert(!valid_exp_string(exp@));
        return None;
    };
    proof {
        assert(exp@.drop_last() =~= exp@.take(n - 1));
    }
    match acc.checked_mul(factor) {
        Some(v) => Some(v),
        None => None,
    }
}

/// The moment `exp` seconds after `now`, as a timestamp in seconds: `now`
/// plus the duration the expiry string denotes. Returns nothing when the
/// string is malformed or the timestamp does not fit in a `u64`.
pub fn parse_exp(now: u64, exp: &[u8]) -> (r: Option<u64>)
    ensures
        valid_exp_string(exp@) && now + spec_exp_seconds(exp@) <= u64::MAX ==> (r matches Some(v)
            && v == now + spec_exp_seconds(exp@)),
        !valid_exp_string(exp@) ==> r is None,
        valid_exp_string(exp@) && now + spec_exp_seconds(exp@) > u64::MAX ==> r is None,
{
    let added = match parse_exp_string(exp) {
        Some(v) => v,
        None => {
            proof {
                if valid_exp_string(exp@) {
                    assert(exp@.drop_last() =~= exp@.take(exp@.len() - 1));
                    lemma_digits_value_nonneg(exp@.take(exp@.len() - 1));
                    let dv = digits_value(exp@.drop_last());
                    let f = unit_factor(exp@.last());
                    assert(dv * f >= 0) by (nonlinear_arith)
                        requires
                            dv >= 0,
                            f >= 1,
                    ;
                }
            }
            return None;
        },
    };
    match now.checked_add(added) {
        Some(v) => Some(v),
        None => None,
    }
}

} // verus!
