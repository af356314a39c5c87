//! Plain-text encoding of numbers, and the small byte-string helpers the
//! wire format is built from.
//!
//! Everything the harness prints or parses — transaction records, balances,
//! environment values, replay commands — reduces to the decimal encodings
//! defined here, so their contracts pin the byte sequences exactly.

use vstd::prelude::*;

verus! {

/// The decimal digits of `n`, most significant first, no leading zeros
/// (a single `0` for zero).
pub open spec fn dec_digits(n: nat) -> Seq<u8>
    decreases n,
{
    if n < 10 {
        seq![(48 + n) as u8]
    } else {
        dec_digits(n / 10).push((48 + n % 10) as u8)
    }
}

/// Whether a byte is an ASCII decimal digit.
pub open spec fn is_dec_digit(b: u8) -> bool {
    48 <= b <= 57
}

/// Whether every byte of the sequence is a decimal digit.
pub open spec fn all_digits(s: Seq<u8>) -> bool {
    forall|i: int| 0 <= i < s.len() ==> is_dec_digit(#[trigger] s[i])
}

/// The value of a digit sequence read in base ten.
pub open spec fn digits_value(s: Seq<u8>) -> int
    decreases s.len(),
{
    if s.len() == 0 {
        0
    } else {
        digits_value(s.drop_last()) * 10 + (s.last() - 48)
    }
}

pub proof fn lemma_digits_value_nonneg(s: Seq<u8>)
    requires
        all_digits(s),
    ensures
        digits_value(s) >= 0,
    decreases s.len(),
{
    if s.len() > 0 {
        assert(all_digits(s.drop_last())) by {
            assert(forall|i: int| 0 <= i < s.len() - 1 ==> s.drop_last()[i] == s[i]);
        }
        lemma_digits_value_nonneg(s.drop_last());
        assert(digits_value(s.drop_last()) * 10 >= 0) by (nonlinear_arith)
            requires
                digits_value(s.drop_last()) >= 0,
        ;
    }
}

/// A digit sequence's value only grows as the sequence is read further.
pub proof fn lemma_digits_prefix_monotone(s: Seq<u8>, i: int, j: int)
    requires
        all_digits(s),
        0 <= i <= j <= s.len(),
    ensures
        digits_value(s.take(i)) <= digits_value(s.take(j)),
    decreases j - i,
{
    if i < j {
        lemma_digits_prefix_monotone(s, i, j - 1);
        let p = s.take(j - 1);
        let q = s.take(j);
        assert(q.drop_last() =~= p);
        assert(all_digits(p)) by {
            assert(forall|k: int| 0 <= k < p.len() ==> p[k] == s[k]);
        }
        lemma_digits_value_nonneg(p);
        assert(digits_value(p) * 10 + (q.last() - 48) >= digits_value(p)) by (nonlinear_arith)
            requires
                digits_value(p) >= 0,
                q.last() >= 48,
        ;
    }
}

/// The digits of `n`, rendered.
pub fn u128_text(n: u128) -> (r: Vec<u8>)
    ensures
        r@ == dec_digits(n as nat),
    decreases n,
{
    if n < 10 {
        let mut v: Vec<u8> = Vec::new();
        v.push(48 + n as u8);
        proof {
            assert(v@ =~= dec_digits(n as nat));
        }
        v
    } else {
        let mut v = u128_text(n / 10);
        v.push(48 + (n % 10) as u8);
        proof {
            assert(v@ =~= dec_digits(n as nat));
        }
        v
    }
}

/// The digits of a 64-bit value, rendered.
pub fn u64_text(n: u64) -> (r: Vec<u8>)
    ensures
        r@ == dec_digits(n as nat),
{
    u128_text(n as u128)
}

/// Every rendered number is made of digits alone.
pub proof fn lemma_dec_digits_are_digits(n: nat)
    ensures
        all_digits(dec_digits(n)),
        dec_digits(n).len() >= 1,
    decreases n,
{
    if n >= 10 {
        lemma_dec_digits_are_digits(n / 10);
        let s = dec_digits(n);
        assert(forall|i: int|
            0 <= i < s.len() - 1 ==> s[i] == #[trigger] dec_digits(n / 10)[i]);
    }
}

/// Reading back the rendered digits of `n` gives `n`: the decimal encoding
/// round-trips.
pub proof fn lemma_digits_value_of_dec_digits(n: nat)
    ensures
        digits_value(dec_digits(n)) == n,
    decreases n,
{
    if n < 10 {
        let s = dec_digits(n);
        assert(s.drop_last() =~= Seq::<u8>::empty());
        assert(digits_value(s) == digits_value(Seq::<u8>::empty()) * 10 + (s.last() - 48));
        assert(s.last() == (48 + n) as u8);
    } else {
        lemma_digits_value_of_dec_digits(n / 10);
        let s = dec_digits(n);
        assert(s.drop_last() =~= dec_digits(n / 10));
        assert(s.last() == (48 + n % 10) as u8);
        assert(digits_value(s) == (n / 10) * 10 + n % 10);
        assert((n / 10) * 10 + n % 10 == n) by (nonlinear_arith);
    }
}

/// The value of the digit sequence of `s` between `from` and `to`, parsed
/// exactly: every byte a digit and at least one of them, else nothing.
pub open spec fn digits_parse_spec(s: Seq<u8>) -> Option<int> {
    if s.len() > 0 && all_digits(s) {
        Some(digits_value(s))
    } else {
        None
    }
}

/// Parse the bytes of `s` from `from` (inclusive) to `to` (exclusive) as an
/// unsigned decimal number. Nothing when a byte is not a digit, the range is
/// empty, or the value does not fit.
pub fn parse_digits_u128(s: &Vec<u8>, from: usize, to: usize) -> (r: Option<u128>)
    requires
        from <= to <= s@.len(),
    ensures
        match digits_parse_spec(s@.subrange(from as int, to as int)) {
            Some(v) => r == (if v <= u128::MAX {
                Some(v as u128)
            } else {
                None::<u128>
            }),
            None => r is None,
        },
{
    let ghost digits = s@.subrange(from as int, to as int);
    if from == to {
        return None;
    }
    let mut acc: u128 = 0;
    let mut i: usize = from;
    while i < to
        invariant
            from <= i <= to <= s@.len(),
            digits == s@.subrange(from as int, to as int),
            all_digits(digits.take(i - from)),
            acc == digits_value(digits.take(i - from)),
        decreases to - i,
    {
        let b = s[i];
        if b < 48 || b > 57 {
            proof {
                assert(!is_dec_digit(digits[i - from]));
                assert(!all_digits(digits));
            }
            return None;
        }
        let d = (b - 48) as u128;
        proof {
            assert(digits.take(i + 1 - from).drop_last() =~= digits.take(i - from));
            lemma_digits_value_nonneg(digits.take(i - from));
        }
        if acc > (u128::MAX - d) / 10 {
            proof {
                let grown = digits.take(i + 1 - from);
                assert(all_digits(grown)) by {
                    assert(forall|k: int| 0 <= k < grown.len() ==> grown[k] == digits[k]);
                }
                assert(digits_value(grown) == acc * 10 + d);
                assert(acc * 10 + d > u128::MAX) by (nonlinear_arith)
                    requires
                        acc > vstd::prelude::sub(u128::MAX as int, d as int) / 10,
                        0 <= d <= 9,
                        acc >= 0,
                ;
                if all_digits(digits) {
                    lemma_digits_prefix_monotone(digits, i + 1 - from, digits.len() as int);
                    assert(digits.take(digits.len() as int) =~= digits);
                    assert(digits_value(digits) > u128::MAX);
                }
            }
            return None;
        }
        acc = acc * 10 + d;
        i = i + 1;
        proof {
            assert(all_digits(digits.take(i - from))) by {
                assert(forall|k: int|
                    0 <= k < i - from ==> digits.take(i - from)[k] == digits[k]);
            }
        }
    }
    proof {
        assert(digits.take(to - from) =~= digits);
        lemma_digits_value_nonneg(digits);
    }
    Some(acc)
}

/// Parse an unsigned 64-bit decimal value, an optional leading `+` allowed,
/// exactly as the number is read from an environment variable: nothing on an
/// empty text, a stray byte, or overflow.
pub open spec fn u64_parse_spec(s: Seq<u8>) -> Option<u64> {
    let digits = if s.len() > 0 && s[0] == 43 {
        s.skip(1)
    } else {
        s
    };
    match digits_parse_spec(digits) {
        Some(v) => if v <= u64::MAX {
            Some(v as u64)
        } else {
            None
        },
        None => None,
    }
}

pub fn parse_u64(s: &Vec<u8>) -> (r: Option<u64>)
    ensures
        r == u64_parse_spec(s@),
{
    let from: usize = if s.len() > 0 && s[0] == 43 {
        1
    } else {
        0
    };
    let ghost spec_digits = if s@.len() > 0 && s@[0] == 43 {
        s@.skip(1)
    } else {
        s@
    };
    proof {
        if from == 1 {
            assert(s@.skip(1) =~= s@.subrange(1int, s@.len() as int));
        } else {
            assert(s@ =~= s@.subrange(0int, s@.len() as int));
        }
        assert(spec_digits == s@.subrange(from as int, s@.len() as int));
    }
    match parse_digits_u128(s, from, s.len()) {
        Some(v) => {
            proof {
                assert(digits_parse_spec(spec_digits) is Some);
                lemma_digits_value_nonneg(spec_digits);
                assert(digits_parse_spec(spec_digits) == Some(v as int));
            }
            if v <= u64::MAX as u128 {
                Some(v as u64)
            } else {
                None
            }
        },
        None => {
            proof {
                match digits_parse_spec(spec_digits) {
                    Some(v0) => {
                        assert(v0 > u128::MAX);
                        assert(u64_parse_spec(s@) is None);
                    },
                    None => {
                        assert(u64_parse_spec(s@) is None);
                    },
                }
            }
            None
        },
    }
}

/// The rendering of a signed integer: a minus sign when negative.
pub open spec fn int_text(v: int) -> Seq<u8> {
    if v < 0 {
        seq![45u8] + dec_digits((-v) as nat)
    } else {
        dec_digits(v as nat)
    }
}

/// Render a signed 64-bit value.
pub fn i64_text(v: i64) -> (r: Vec<u8>)
    requires
        v != i64::MIN,
    ensures
        r@ == int_text(v as int),
{
    if v < 0 {
        let mut r: Vec<u8> = Vec::new();
        r.push(45);
        let digits = u128_text((-v) as u128);
        let mut i: usize = 0;
        while i < digits.len()
            invariant
                0 <= i <= digits@.len(),
                r@ == seq![45u8] + digits@.take(i as int),
            decreases digits@.len() - i,
        {
            r.push(digits[i]);
            i = i + 1;
            proof {
                assert(r@ =~= seq![45u8] + digits@.take(i as int));
            }
        }
        proof {
            assert(digits@.take(digits@.len() as int) =~= digits@);
        }
        r
    } else {
        u128_text(v as u128)
    }
}

/// Render a signed 32-bit value.
pub fn i32_text(v: i32) -> (r: Vec<u8>)
    ensures
        r@ == int_text(v as int),
{
    i64_text(v as i64)
}

/// A rendered signed integer holds only a possible leading minus sign and
/// digits: in particular no space and no newline.
pub proof fn lemma_int_text_shape(v: int)
    ensures
        int_text(v).len() >= 1,
        forall|k: int|
            0 <= k < int_text(v).len() ==> (is_dec_digit(#[trigger] int_text(v)[k]) || int_text(
                v,
            )[k] == 45),
{
    if v < 0 {
        lemma_dec_digits_are_digits((-v) as nat);
        assert(forall|k: int|
            1 <= k < int_text(v).len() ==> int_text(v)[k] == #[trigger] dec_digits((-v) as nat)[k
                - 1]);
    } else {
        lemma_dec_digits_are_digits(v as nat);
    }
}

/// What a signed decimal text parses to: an optional sign, then digits.
pub open spec fn int_parse_spec(s: Seq<u8>) -> Option<int> {
    let neg = s.len() > 0 && s[0] == 45;
    let digits = if s.len() > 0 && (s[0] == 45 || s[0] == 43) {
        s.skip(1)
    } else {
        s
    };
    match digits_parse_spec(digits) {
        Some(v) => Some(
            if neg {
                -v
            } else {
                v
            },
        ),
        None => None,
    }
}

/// Parse a signed 64-bit decimal value: nothing on an empty text, a stray
/// byte, or a value outside the type's range.
pub fn parse_i64(s: &Vec<u8>) -> (r: Option<i64>)
    ensures
        match int_parse_spec(s@) {
            Some(v) => r == (if i64::MIN <= v <= i64::MAX {
                Some(v as i64)
            } else {
                None::<i64>
            }),
            None => r is None,
        },
{
    let signed = s.len() > 0 && (s[0] == 45 || s[0] == 43);
    let neg = s.len() > 0 && s[0] == 45;
    let from: usize = if signed {
        1
    } else {
        0
    };
    let ghost digits = if signed {
        s@.skip(1)
    } else {
        s@
    };
    proof {
        if signed {
            assert(s@.skip(1) =~= s@.subrange(1int, s@.len() as int));
        } else {
            assert(s@ =~= s@.subrange(0int, s@.len() as int));
        }
    }
    match parse_digits_u128(s, from, s.len()) {
        Some(v) => {
            proof {
                lemma_digits_value_nonneg(digits);
            }
            if neg {
                if v <= 0x8000_0000_0000_0000u128 {
                    Some((-(v as i128)) as i64)
                } else {
                    None
                }
            } else {
                if v <= i64::MAX as u128 {
                    Some(v as i64)
                } else {
                    None
                }
            }
        },
        None => {
            proof {
                if digits_parse_spec(digits) is Some {
                    lemma_digits_value_nonneg(digits);
                }
            }
            None
        },
    }
}

/// Rendering a signed integer and reading it back gives the same value: the
/// signed decimal encoding round-trips.
pub proof fn lemma_int_text_round_trip(v: int)
    ensures
        int_parse_spec(int_text(v)) == Some(v),
{
    if v < 0 {
        let s = int_text(v);
        lemma_dec_digits_are_digits((-v) as nat);
        lemma_digits_value_of_dec_digits((-v) as nat);
        assert(s[0] == 45);
        assert(s.skip(1) =~= dec_digits((-v) as nat));
        assert(digits_parse_spec(s.skip(1)) == Some(-v));
    } else {
        let s = int_text(v);
        lemma_dec_digits_are_digits(v as nat);
        lemma_digits_value_of_dec_digits(v as nat);
        assert(s == dec_digits(v as nat));
        assert(is_dec_digit(s[0]));
        assert(s[0] != 45 && s[0] != 43);
        assert(digits_parse_spec(s) == Some(v));
    }
}

/// Parse a signed 32-bit decimal value.
pub fn parse_i32(s: &Vec<u8>) -> (r: Option<i32>)
    ensures
        match int_parse_spec(s@) {
            Some(v) => r == (if i32::MIN <= v <= i32::MAX {
                Some(v as i32)
            } else {
                None::<i32>
            }),
            None => r is None,
        },
{
    match parse_i64(s) {
        Some(v) => {
            if i32::MIN as i64 <= v && v <= i32::MAX as i64 {
                Some(v as i32)
            } else {
                None
            }
        },
        None => None,
    }
}

/// Compare two byte strings.
pub fn bytes_eq(a: &Vec<u8>, b: &Vec<u8>) -> (r: bool)
    ensures
        r == (a@ == b@),
{
    if a.len() != b.len() {
        return false;
    }
    let mut i: usize = 0;
    while i < a.len()
        invariant
            0 <= i <= a@.len(),
            a@.len() == b@.len(),
            forall|k: int| 0 <= k < i ==> a@[k] == b@[k],
        decreases a@.len() - i,
    {
        if a[i] != b[i] {
            return false;
        }
        i = i + 1;
    }
    proof {
        assert(a@ =~= b@);
    }
    true
}

/// Whether `s` begins with `prefix`.
pub open spec fn starts_with_spec(s: Seq<u8>, prefix: Seq<u8>) -> bool {
    s.len() >= prefix.len() && s.take(prefix.len() as int) == prefix
}

pub fn starts_with(s: &Vec<u8>, prefix: &Vec<u8>) -> (r: bool)
    ensures
        r == starts_with_spec(s@, prefix@),
{
    if s.len() < prefix.len() {
        return false;
    }
    let mut i: usize = 0;
    while i < prefix.len()
        invariant
            0 <= i <= prefix@.len() <= s@.len(),
            forall|k: int| 0 <= k < i ==> s@[k] == prefix@[k],
        decreases prefix@.len() - i,
    {
        if s[i] != prefix[i] {
            proof {
                assert(s@.take(prefix@.len() as int)[i as int] != prefix@[i as int]);
            }
            return false;
        }
        i = i + 1;
    }
    proof {
        assert(s@.take(prefix@.len() as int) =~= prefix@);
    }
    true
}

/// Whether `s` ends with `suffix`.
pub open spec fn ends_with_spec(s: Seq<u8>, suffix: Seq<u8>) -> bool {
    s.len() >= suffix.len() && s.skip(s.len() - suffix.len()) == suffix
}

pub fn ends_with(s: &Vec<u8>, suffix: &Vec<u8>) -> (r: bool)
    ensures
        r == ends_with_spec(s@, suffix@),
{
    if s.len() < suffix.len() {
        return false;
    }
    let offset = s.len() - suffix.len();
    let mut j: usize = offset;
    while j < s.len()
        invariant
            offset <= j <= s@.len(),
            suffix@.len() <= s@.len(),
            offset == s@.len() - suffix@.len(),
            forall|k: int| 0 <= k < j - offset ==> s@[offset + k] == suffix@[k],
        decreases s@.len() - j,
    {
        if s[j] != suffix[j - offset] {
            proof {
                assert(s@.skip(offset as int)[j - offset] != suffix@[j - offset]);
            }
            return false;
        }
        j = j + 1;
    }
    proof {
        assert(s@.skip(offset as int) =~= suffix@);
    }
    true
}

/// The first position of `b` in `s` at or after `from`, if any.
pub open spec fn find_index(s: Seq<u8>, b: u8, from: int) -> Option<int>
    decreases s.len() - from,
{
    if from < 0 || from >= s.len() {
        None
    } else if s[from] == b {
        Some(from)
    } else {
        find_index(s, b, from + 1)
    }
}

/// What a found position means: it carries `b`, and nothing before it does.
pub proof fn lemma_find_index_props(s: Seq<u8>, b: u8, from: int)
    requires
        0 <= from,
    ensures
        match find_index(s, b, from) {
            Some(i) => from <= i < s.len() && s[i] == b && forall|k: int|
                from <= k < i ==> s[k] != b,
            None => forall|k: int| from <= k < s.len() ==> s[k] != b,
        },
    decreases s.len() - from,
{
    if from < s.len() && s[from] != b {
        lemma_find_index_props(s, b, from + 1);
    }
}

/// The first position carrying `b` is what the search finds.
pub proof fn lemma_find_index_at(s: Seq<u8>, b: u8, from: int, i: int)
    requires
        0 <= from <= i < s.len(),
        s[i] == b,
        forall|k: int| from <= k < i ==> s[k] != b,
    ensures
        find_index(s, b, from) == Some(i),
    decreases i - from,
{
    if from < i {
        lemma_find_index_at(s, b, from + 1, i);
    }
}

pub fn find_byte_from(s: &Vec<u8>, b: u8, from: usize) -> (r: Option<usize>)
    requires
        from <= s@.len(),
    ensures
        match r {
            Some(i) => find_index(s@, b, from as int) == Some(i as int) && i < s@.len(),
            None => find_index(s@, b, from as int) is None,
        },
{
    let mut i: usize = from;
    while i < s.len()
        invariant
            from <= i <= s@.len(),
            forall|k: int| from <= k < i ==> s@[k] != b,
        decreases s@.len() - i,
    {
        if s[i] == b {
            proof {
                lemma_find_index_at(s@, b, from as int, i as int);
            }
            return Some(i);
        }
        i = i + 1;
    }
    proof {
        lemma_find_index_props(s@, b, from as int);
        if find_index(s@, b, from as int) is Some {
            assert(false);
        }
    }
    None
}

/// The first position of `b` in `s`, if any.
pub fn find_byte(s: &Vec<u8>, b: u8) -> (r: Option<usize>)
    ensures
        match r {
            Some(i) => i < s@.len() && s@[i as int] == b && forall|k: int|
                0 <= k < i ==> s@[k] != b,
            None => forall|k: int| 0 <= k < s@.len() ==> s@[k] != b,
        },
{
    let mut i: usize = 0;
    while i < s.len()
        invariant
            0 <= i <= s@.len(),
            forall|k: int| 0 <= k < i ==> s@[k] != b,
        decreases s@.len() - i,
    {
        if s[i] == b {
            return Some(i);
        }
        i = i + 1;
    }
    None
}

/// `a` followed by `b`.
pub fn concat_bytes(a: &Vec<u8>, b: &Vec<u8>) -> (r: Vec<u8>)
    ensures
        r@ == a@ + b@,
{
    let mut r: Vec<u8> = Vec::new();
    let mut i: usize = 0;
    while i < a.len()
        invariant
            0 <= i <= a@.len(),
            r@ == a@.take(i as int),
        decreases a@.len() - i,
    {
        r.push(a[i]);
        i = i + 1;
        proof {
            assert(r@ =~= a@.take(i as int));
        }
    }
    proof {
        assert(r@ =~= a@);
    }
    let mut j: usize = 0;
    while j < b.len()
        invariant
            0 <= j <= b@.len(),
            r@ == a@ + b@.take(j as int),
        decreases b@.len() - j,
    {
        r.push(b[j]);
        j = j + 1;
        proof {
            assert(r@ =~= a@ + b@.take(j as int));
        }
    }
    proof {
        assert(r@ =~= a@ + b@);
    }
    r
}

/// The bytes of `s` from `from` (inclusive) to `to` (exclusive).
pub fn sub_bytes(s: &Vec<u8>, from: usize, to: usize) -> (r: Vec<u8>)
    requires
        from <= to <= s@.len(),
    ensures
        r@ == s@.subrange(from as int, to as int),
{
    let mut r: Vec<u8> = Vec::new();
    let mut i: usize = from;
    while i < to
        invariant
            from <= i <= to <= s@.len(),
            r@ == s@.subrange(from as int, i as int),
        decreases to - i,
    {
        r.push(s[i]);
        i = i + 1;
        proof {
            assert(r@ =~= s@.subrange(from as int, i as int));
        }
    }
    r
}

} // verus!
