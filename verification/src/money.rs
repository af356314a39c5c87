//! Monetary amounts as a count of cents.
//!
//! The sample banking service quotes every amount with exactly two decimal
//! places, so an amount is held as a signed count of hundredths and rendered
//! as `-?digits.dd`. Balances are sums of many amounts and are held in a
//! wider integer.

use vstd::prelude::*;

use crate::text::{
    all_digits, dec_digits, digits_value, is_dec_digit, lemma_dec_digits_are_digits,
    lemma_digits_value_nonneg, lemma_digits_value_of_dec_digits, parse_digits_u128, u128_text,
};

verus! {

/// Parsed amounts keep their whole-unit part below this bound, so that any
/// sum of a realistic number of them still fits the balance type.
pub const MAX_CENT_UNITS: u128 = 10_000_000_000_000_000_000_000_000_000_000_000;

/// The rendering of a nonnegative count of cents: the whole units, a dot,
/// and exactly two fractional digits.
pub open spec fn cents_text_nat(n: nat) -> Seq<u8> {
    dec_digits(n / 100) + seq![
        46u8,
        (48 + (n % 100) / 10) as u8,
        (48 + (n % 100) % 10) as u8,
    ]
}

/// The rendering of a count of cents, a leading minus sign when negative.
pub open spec fn cents_text(c: int) -> Seq<u8> {
    if c < 0 {
        seq![45u8] + cents_text_nat((-c) as nat)
    } else {
        cents_text_nat(c as nat)
    }
}

/// What a money text parses to: an optional minus sign, at least one digit
/// of whole units, a dot, exactly two fractional digits; nothing when the
/// shape is wrong or the whole-unit part reaches the size cap.
pub open spec fn cents_parse_spec(s: Seq<u8>) -> Option<int> {
    let neg = s.len() > 0 && s[0] == 45;
    let t = if neg {
        s.skip(1)
    } else {
        s
    };
    if t.len() >= 4 && t[t.len() - 3] == 46 && all_digits(t.take(t.len() - 3)) && is_dec_digit(
        t[t.len() - 2],
    ) && is_dec_digit(t[t.len() - 1]) && digits_value(t.take(t.len() - 3)) < MAX_CENT_UNITS {
        let v = digits_value(t.take(t.len() - 3)) * 100 + (t[t.len() - 2] - 48) * 10 + (t[t.len()
            - 1] - 48);
        if neg {
            Some(-v)
        } else {
            Some(v)
        }
    } else {
        None
    }
}

/// Render a count of cents.
pub fn format_cents(c: i128) -> (r: Vec<u8>)
    requires
        c != i128::MIN,
    ensures
        r@ == cents_text(c as int),
{
    let neg = c < 0;
    let a: u128 = if neg {
        (-c) as u128
    } else {
        c as u128
    };
    let mut r: Vec<u8> = Vec::new();
    if neg {
        r.push(45);
    }
    let units = u128_text(a / 100);
    let mut i: usize = 0;
    while i < units.len()
        invariant
            0 <= i <= units@.len(),
            r@ == (if neg {
                seq![45u8]
            } else {
                Seq::<u8>::empty()
            }) + units@.take(i as int),
            units@ == dec_digits((a / 100) as nat),
        decreases units@.len() - i,
    {
        r.push(units[i]);
        i = i + 1;
        proof {
            assert(r@ =~= (if neg {
                seq![45u8]
            } else {
                Seq::<u8>::empty()
            }) + units@.take(i as int));
        }
    }
    proof {
        assert(units@.take(units@.len() as int) =~= units@);
    }
    r.push(46);
    r.push(48 + ((a % 100) / 10) as u8);
    r.push(48 + ((a % 100) % 10) as u8);
    proof {
        assert(r@ =~= cents_text(c as int));
    }
    r
}

/// Parse a money text.
pub fn parse_cents(s: &Vec<u8>) -> (r: Option<i128>)
    ensures
        r is Some <==> cents_parse_spec(s@) is Some,
        r is Some ==> r->0 == cents_parse_spec(s@)->0,
{
    let neg = s.len() > 0 && s[0] == 45;
    let start: usize = if neg {
        1
    } else {
        0
    };
    let ghost t = if neg {
        s@.skip(1)
    } else {
        s@
    };
    if s.len() < 4 || s.len() - start < 4 {
        return None;
    }
    let dot = s.len() - 3;
    proof {
        assert(t.len() == s@.len() - start);
        assert(t[t.len() - 3] == s@[dot as int]);
        assert(t[t.len() - 2] == s@[s@.len() - 2]);
        assert(t[t.len() - 1] == s@[s@.len() - 1]);
        assert(t.take(t.len() - 3) =~= s@.subrange(start as int, dot as int));
    }
    if s[dot] != 46 {
        return None;
    }
    let d1 = s[s.len() - 2];
    let d0 = s[s.len() - 1];
    if d1 < 48 || d1 > 57 || d0 < 48 || d0 > 57 {
        return None;
    }
    match parse_digits_u128(s, start, dot) {
        Some(units) => {
            proof {
                lemma_digits_value_nonneg(t.take(t.len() - 3));
            }
            if units >= MAX_CENT_UNITS {
                return None;
            }
            let v: i128 = (units as i128) * 100 + ((d1 - 48) as i128) * 10 + ((d0 - 48) as i128);
            if neg {
                Some(-v)
            } else {
                Some(v)
            }
        },
        None => {
            proof {
                if all_digits(t.take(t.len() - 3)) {
                    lemma_digits_value_nonneg(t.take(t.len() - 3));
                    assert(digits_value(t.take(t.len() - 3)) > u128::MAX);
                }
            }
            None
        },
    }
}

/// Any amount a money text parses to lies strictly within the size cap.
pub proof fn lemma_cents_parse_bounds(s: Seq<u8>)
    requires
        cents_parse_spec(s) is Some,
    ensures
        -(MAX_CENT_UNITS * 100) < cents_parse_spec(s)->0 < MAX_CENT_UNITS * 100,
{
    let neg = s.len() > 0 && s[0] == 45;
    let t = if neg {
        s.skip(1)
    } else {
        s
    };
    lemma_digits_value_nonneg(t.take(t.len() - 3));
    let units = digits_value(t.take(t.len() - 3));
    assert(0 <= units * 100 && units * 100 <= (MAX_CENT_UNITS - 1) * 100) by (nonlinear_arith)
        requires
            0 <= units <= MAX_CENT_UNITS - 1,
    ;
}

/// A rendered amount holds only a possible minus sign, digits, and the dot:
/// in particular no space and no newline.
pub proof fn lemma_cents_text_shape(c: int)
    ensures
        cents_text(c).len() >= 4,
        forall|k: int|
            0 <= k < cents_text(c).len() ==> (is_dec_digit(#[trigger] cents_text(c)[k])
                || cents_text(c)[k] == 45 || cents_text(c)[k] == 46),
{
    let n = if c < 0 {
        (-c) as nat
    } else {
        c as nat
    };
    lemma_dec_digits_are_digits(n / 100);
    let body = cents_text_nat(n);
    let d = dec_digits(n / 100);
    assert(forall|k: int| 0 <= k < d.len() ==> body[k] == #[trigger] d[k]);
    assert(body[body.len() - 3] == 46);
    assert(is_dec_digit(body[body.len() - 2]));
    assert(is_dec_digit(body[body.len() - 1]));
    if c < 0 {
        assert(forall|k: int| 1 <= k < cents_text(c).len() ==> cents_text(c)[k] == #[trigger] body[k - 1]);
    }
}

/// Rendering a count of cents and reading it back gives the same count: the
/// money encoding round-trips for every amount below the size cap.
pub proof fn lemma_cents_round_trip(c: int)
    requires
        -(MAX_CENT_UNITS * 100) < c < MAX_CENT_UNITS * 100,
    ensures
        cents_parse_spec(cents_text(c)) == Some(c),
{
    let n = if c < 0 {
        (-c) as nat
    } else {
        c as nat
    };
    let body = cents_text_nat(n);
    lemma_dec_digits_are_digits(n / 100);
    lemma_digits_value_of_dec_digits(n / 100);
    let d = dec_digits(n / 100);
    assert(body.len() == d.len() + 3);
    assert(body.take(body.len() - 3) =~= d);
    assert(body[body.len() - 3] == 46);
    assert(body[body.len() - 2] == (48 + (n % 100) / 10) as u8);
    assert(body[body.len() - 1] == (48 + (n % 100) % 10) as u8);
    assert(0 <= (n % 100) / 10 <= 9);
    assert(0 <= (n % 100) % 10 <= 9);
    assert(n / 100 < MAX_CENT_UNITS) by (nonlinear_arith)
        requires
            0 <= n < MAX_CENT_UNITS * 100,
    ;
    assert((n / 100) * 100 + ((n % 100) / 10) * 10 + (n % 100) % 10 == n) by (nonlinear_arith);
    assert(body[0] == d[0]);
    assert(is_dec_digit(d[0]));
    assert(body[0] != 45);
    if c < 0 {
        let s = cents_text(c);
        assert(s == seq![45u8] + body);
        assert(s[0] == 45);
        assert(s.skip(1) =~= body);
        assert(cents_parse_spec(s) == Some(-(n as int)));
        assert(-(n as int) == c);
    } else {
        let s = cents_text(c);
        assert(s == body);
        assert(s.len() > 0 && s[0] != 45);
        assert(cents_parse_spec(s) == Some(n as int));
    }
}

} // verus!
