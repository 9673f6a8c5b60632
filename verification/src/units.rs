use vstd::prelude::*;
use vstd::string::StringSliceAdditionalSpecFns;
use crate::amount::Amount;

verus! {

/// Wei per one unit of the network's display denomination.
pub const WEI_PER_UNIT: u128 = 1000000000000000000;

/// Whether `c` is an ASCII decimal digit.
pub open spec fn is_digit(c: u8) -> bool {
    48 <= c && c <= 57
}

/// The numeric value of an ASCII decimal digit, zero for any other byte.
pub open spec fn digit_val(c: u8) -> nat {
    if is_digit(c) {
        (c - 48) as nat
    } else {
        0
    }
}

/// Whether every byte of `s` is an ASCII decimal digit.
pub open spec fn all_digits(s: Seq<u8>) -> bool {
    forall|i: int| 0 <= i < s.len() ==> is_digit(#[trigger] s[i])
}

/// The number that a string of decimal digits denotes.
pub open spec fn digits_value(s: Seq<u8>) -> nat
    decreases s.len(),
{
    if s.len() == 0 {
        0
    } else {
        digits_value(s.drop_last()) * 10 + digit_val(s.last())
    }
}

/// Ten to the power `n`.
pub open spec fn pow10(n: nat) -> nat
    decreases n,
{
    if n == 0 {
        1
    } else {
        10 * pow10((n - 1) as nat)
    }
}

/// The position of the first decimal point in `s`, or `s.len()` if there
/// is none.
pub open spec fn dot_index(s: Seq<u8>) -> int
    decreases s.len(),
{
    if s.len() == 0 {
        0
    } else if s[0] == 46 {
        0
    } else {
        1 + dot_index(s.subrange(1, s.len() as int))
    }
}

/// Whether `s` is a well-formed display amount: one or more digits,
/// optionally followed by a decimal point and one to eighteen fractional
/// digits.
pub open spec fn is_display_amount(s: Seq<u8>) -> bool {
    let k = dot_index(s);
    if k == s.len() {
        s.len() >= 1 && all_digits(s)
    } else {
        1 <= k && all_digits(s.subrange(0, k)) && 1 <= s.len() - k - 1 <= 18 && all_digits(
            s.subrange(k + 1, s.len() as int),
        )
    }
}

/// The wei value that a well-formed display amount denotes: the integer part
/// scaled to wei, plus the fraction scaled by the digits it leaves unused.
pub open spec fn display_wei(s: Seq<u8>) -> nat {
    let k = dot_index(s);
    if k == s.len() {
        digits_value(s) * pow10(18)
    } else {
        digits_value(s.subrange(0, k)) * pow10(18) + digits_value(
            s.subrange(k + 1, s.len() as int),
        ) * pow10((18 - (s.len() - k - 1)) as nat)
    }
}

proof fn lemma_dot_index(s: Seq<u8>)
    ensures
        0 <= dot_index(s) <= s.len(),
        forall|i: int| 0 <= i < dot_index(s) ==> s[i] != 46,
        dot_index(s) < s.len() ==> s[dot_index(s)] == 46,
    decreases s.len(),
{
    if s.len() == 0 {
    } else if s[0] == 46 {
    } else {
        let t = s.subrange(1, s.len() as int);
        lemma_dot_index(t);
        assert forall|i: int| 0 <= i < dot_index(s) implies s[i] != 46 by {
            if i >= 1 {
                assert(t[i - 1] != 46);
            }
        }
        if dot_index(s) < s.len() {
            assert(s[dot_index(s)] == t[dot_index(t)]);
        }
    }
}

proof fn lemma_digits_prefix_le(s: Seq<u8>, i: int)
    requires
        0 <= i <= s.len(),
    ensures
        digits_value(s.subrange(0, i)) <= digits_value(s),
    decreases s.len() - i,
{
    if i == s.len() {
        assert(s.subrange(0, i) =~= s);
    } else {
        lemma_digits_prefix_le(s.drop_last(), i);
        assert(s.drop_last().subrange(0, i) =~= s.subrange(0, i));
    }
}

proof fn lemma_pow10_pos(n: nat)
    ensures
        pow10(n) >= 1,
    decreases n,
{
    if n > 0 {
        lemma_pow10_pos((n - 1) as nat);
    }
}

proof fn lemma_pow10_monotone(a: nat, b: nat)
    requires
        a <= b,
    ensures
        pow10(a) <= pow10(b),
    decreases b,
{
    if a < b {
        lemma_pow10_monotone(a, (b - 1) as nat);
    }
}

proof fn lemma_pow10_adds(a: nat, b: nat)
    ensures
        pow10(a + b) == pow10(a) * pow10(b),
    decreases a,
{
    if a == 0 {
    } else {
        lemma_pow10_adds((a - 1) as nat, b);
        assert(pow10((a + b - 1) as nat) == pow10((a - 1) as nat) * pow10(b));
        assert(10 * (pow10((a - 1) as nat) * pow10(b)) == (10 * pow10((a - 1) as nat)) * pow10(b))
            by (nonlinear_arith);
    }
}

proof fn lemma_pow10_18()
    ensures
        pow10(18) == 1000000000000000000,
{
    reveal_with_fuel(pow10, 20);
}

/// Ten to the power `e`, computed exactly.
fn pow10_u128(e: usize) -> (r: u128)
    requires
        e <= 18,
    ensures
        r == pow10(e as nat),
{
    proof {
        lemma_pow10_18();
    }
    let mut p: u128 = 1;
    let mut t: usize = 0;
    while t < e
        invariant
            t <= e <= 18,
            p == pow10(t as nat),
        decreases e - t,
    {
        proof {
            lemma_pow10_monotone((t + 1) as nat, 18);
            lemma_pow10_18();
        }
        p = p * 10;
        t = t + 1;
    }
    p
}

/// The decimal digits of `n`, most significant first, without leading
/// zeros (the single digit `0` for zero).
pub open spec fn dec_digits(n: nat) -> Seq<u8>
    decreases n,
{
    if n < 10 {
        seq![(48 + n) as u8]
    } else {
        dec_digits(n / 10).push((48 + n % 10) as u8)
    }
}

/// The eighteen fractional digits of a wei remainder, most significant
/// first, zero-padded.
pub open spec fn frac_digits(r: nat) -> Seq<u8> {
    Seq::new(18, |i: int| (48 + (r / pow10((17 - i) as nat)) % 10) as u8)
}

/// The canonical rendering of a wei value in the display denomination: the
/// integer part, a decimal point, and all eighteen fractional digits.
pub open spec fn display_of_wei(n: nat) -> Seq<u8> {
    dec_digits(n / pow10(18)) + seq![46u8] + frac_digits(n % pow10(18))
}

/// Appends the decimal digits of `n` to `out`.
fn push_dec_digits(n: u128, out: &mut Vec<u8>)
    ensures
        final(out)@ == old(out)@ + dec_digits(n as nat),
    decreases n,
{
    if n < 10 {
        out.push(48 + n as u8);
        proof {
            assert(out@ =~= old(out)@ + dec_digits(n as nat));
        }
    } else {
        push_dec_digits(n / 10, out);
        out.push(48 + (n % 10) as u8);
        proof {
            assert(out@ =~= old(out)@ + dec_digits(n as nat));
        }
    }
}

/// Renders a wei amount in the display denomination, as ASCII bytes:
/// the integer part, a decimal point, and all eighteen fractional digits.
pub fn format_wei(a: Amount) -> (r: Vec<u8>)
    ensures
        r@ == display_of_wei(a.wei as nat),
{
    proof {
        lemma_pow10_18();
    }
    let q = a.wei / WEI_PER_UNIT;
    let rem = a.wei % WEI_PER_UNIT;
    let mut out: Vec<u8> = Vec::new();
    push_dec_digits(q, &mut out);
    out.push(46);
    let ghost base = out@;
    let mut i: usize = 0;
    while i < 18
        invariant
            i <= 18,
            rem == a.wei % WEI_PER_UNIT,
            rem < pow10(18),
            base =~= dec_digits((a.wei / WEI_PER_UNIT) as nat).push(46u8),
            out@.len() == base.len() + i,
            forall|j: int| 0 <= j < base.len() ==> out@[j] == base[j],
            forall|j: int|
                0 <= j < i ==> #[trigger] out@[base.len() + j] == (48 + (rem as nat / pow10(
                    (17 - j) as nat,
                )) % 10) as u8,
        decreases 18 - i,
    {
        let sc = pow10_u128(17 - i);
        proof {
            lemma_pow10_pos((17 - i) as nat);
        }
        out.push(48 + ((rem / sc) % 10) as u8);
        i = i + 1;
    }
    proof {
        lemma_pow10_18();
        let dd = dec_digits((a.wei / WEI_PER_UNIT) as nat);
        let ff = frac_digits((a.wei % WEI_PER_UNIT) as nat);
        let whole = dd + seq![46u8] + ff;
        assert(base =~= dd.push(46u8));
        assert(out@.len() == whole.len());
        assert forall|j: int| 0 <= j < out@.len() implies out@[j] == whole[j] by {
            if j < base.len() {
                assert(out@[j] == base[j]);
                assert(base[j] == dd.push(46u8)[j]);
                if j < dd.len() {
                    assert(whole[j] == dd[j]);
                } else {
                    assert(whole[j] == 46u8);
                }
            } else {
                let k = j - base.len();
                assert(out@[base.len() + k] == (48 + (rem as nat / pow10((17 - k) as nat))
                    % 10) as u8);
                assert(whole[j] == ff[k]);
            }
        }
        assert(out@ =~= whole);
    }
    out
}

proof fn lemma_dec_digits_are_digits(m: nat)
    ensures
        dec_digits(m).len() >= 1,
        all_digits(dec_digits(m)),
    decreases m,
{
    if m < 10 {
    } else {
        lemma_dec_digits_are_digits(m / 10);
        let s = dec_digits(m / 10);
        let d = (48 + m % 10) as u8;
        assert forall|i: int| 0 <= i < s.push(d).len() implies is_digit(#[trigger] s.push(d)[i]) by {
            if i < s.len() {
                assert(is_digit(s[i]));
            }
        }
    }
}

proof fn lemma_dec_digits_value(m: nat)
    ensures
        digits_value(dec_digits(m)) == m,
    decreases m,
{
    if m < 10 {
        assert(dec_digits(m).drop_last() =~= Seq::<u8>::empty());
        assert(digits_value(Seq::<u8>::empty()) == 0);
        assert(digits_value(dec_digits(m)) == 0 * 10 + digit_val((48 + m) as u8));
    } else {
        lemma_dec_digits_value(m / 10);
        let s = dec_digits(m / 10);
        let d = (48 + m % 10) as u8;
        assert(s.push(d).drop_last() =~= s);
        assert(s.push(d).last() == d);
        assert(digits_value(s.push(d)) == digits_value(s) * 10 + digit_val(d));
        assert(digit_val(d) == m % 10);
        vstd::arithmetic::div_mod::lemma_fundamental_div_mod(m as int, 10);
    }
}

/// The `l` least significant decimal digits of `r`, most significant first,
/// zero-padded.
spec fn padded_digits(r: nat, l: nat) -> Seq<u8> {
    Seq::new(l, |i: int| (48 + (r / pow10((l - 1 - i) as nat)) % 10) as u8)
}

proof fn lemma_padded_digits_value(r: nat, l: nat)
    ensures
        digits_value(padded_digits(r, l)) == r % pow10(l),
    decreases l,
{
    let s = padded_digits(r, l);
    if l == 0 {
        assert(r % pow10(0) == 0);
    } else {
        let q = r / 10;
        let prev = padded_digits(q, (l - 1) as nat);
        lemma_padded_digits_value(q, (l - 1) as nat);
        assert forall|i: int| 0 <= i < l - 1 implies s.drop_last()[i] == prev[i] by {
            lemma_pow10_pos((l - 2 - i) as nat);
            vstd::arithmetic::div_mod::lemma_div_denominator(
                r as int,
                10,
                pow10((l - 2 - i) as nat) as int,
            );
            assert(pow10((l - 1 - i) as nat) == 10 * pow10((l - 2 - i) as nat));
        }
        assert(s.drop_last() =~= prev);
        let p1 = pow10((l - 1) as nat) as int;
        let b = q as int % p1;
        let a = q as int / p1;
        lemma_pow10_pos((l - 1) as nat);
        vstd::arithmetic::div_mod::lemma_mod_bound(q as int, p1);
        vstd::arithmetic::div_mod::lemma_mod_bound(r as int, 10);
        vstd::arithmetic::div_mod::lemma_fundamental_div_mod(r as int, 10);
        vstd::arithmetic::div_mod::lemma_fundamental_div_mod(q as int, p1);
        assert(pow10(0) == 1);
        assert(r / 1 == r);
        assert(s.last() == (48 + (r / pow10(0)) % 10) as u8);
        assert(digit_val(s.last()) == r % 10);
        assert(digits_value(s.drop_last()) == q % pow10((l - 1) as nat));
        assert(digits_value(s) == (q % pow10((l - 1) as nat)) * 10 + r % 10);
        assert(r as int == a * (10 * p1) + (b * 10 + r as int % 10)) by (nonlinear_arith)
            requires
                r as int == 10 * q + r as int % 10,
                q as int == p1 * a + b,
        ;
        assert(pow10(l) == 10 * p1);
        vstd::arithmetic::div_mod::lemma_fundamental_div_mod_converse(
            r as int,
            pow10(l) as int,
            a,
            b * 10 + r as int % 10,
        );
    }
}

/// Round trip: rendering any wei amount in the display denomination yields a
/// well-formed display amount that parses back to exactly the same wei
/// value.
pub proof fn lemma_display_round_trip(n: u128)
    ensures
        is_display_amount(display_of_wei(n as nat)),
        display_wei(display_of_wei(n as nat)) <= u128::MAX,
        display_wei(display_of_wei(n as nat)) == n,
{
    let p18 = pow10(18);
    lemma_pow10_pos(18);
    let q = (n as nat) / p18;
    let r = (n as nat) % p18;
    let dd = dec_digits(q);
    let ff = frac_digits(r);
    let s = display_of_wei(n as nat);
    lemma_dec_digits_are_digits(q);
    lemma_dec_digits_value(q);
    vstd::arithmetic::div_mod::lemma_mod_bound(n as int, p18 as int);
    assert forall|i: int| 0 <= i < 18 implies is_digit(#[trigger] ff[i]) by {
        lemma_pow10_pos((17 - i) as nat);
        vstd::arithmetic::div_mod::lemma_mod_bound((r / pow10((17 - i) as nat)) as int, 10);
    }
    lemma_dot_index(s);
    let k = dot_index(s);
    assert(s[dd.len() as int] == 46);
    assert forall|j: int| 0 <= j < dd.len() implies s[j] == dd[j] by {}
    if k < dd.len() {
        assert(s[k] == dd[k]);
        assert(is_digit(dd[k]));
    }
    if k > dd.len() {
        assert(s[dd.len() as int] != 46);
    }
    assert(k == dd.len());
    assert(s.subrange(0, k) =~= dd);
    assert(s.subrange(k + 1, s.len() as int) =~= ff);
    lemma_padded_digits_value(r, 18);
    assert(ff =~= padded_digits(r, 18));
    vstd::arithmetic::div_mod::lemma_small_mod(r, p18);
    vstd::arithmetic::div_mod::lemma_fundamental_div_mod(n as int, p18 as int);
    assert(display_wei(s) == q * p18 + r * pow10(0));
    assert(pow10(0) == 1);
    assert(r * 1 == r);
    assert(q * p18 == p18 * q) by (nonlinear_arith);
    assert(n as int == p18 * q + r);
    assert(display_wei(s) == n);
}

/// Parses an amount written in the display denomination into wei. Total over
/// all inputs: succeeds exactly on a well-formed display amount whose wei
/// value is representable, and then returns exactly that value.
pub fn parse_display_amount(s: &str) -> (r: Option<Amount>)
    ensures
        r is Some <==> is_display_amount(s.spec_bytes()) && display_wei(s.spec_bytes())
            <= u128::MAX,
        r is Some ==> r->0.wei == display_wei(s.spec_bytes()),
{
    parse_display_ascii(s.as_bytes())
}

/// Parses a display amount given as ASCII bytes; see `parse_display_amount`.
pub fn parse_display_ascii(b: &[u8]) -> (r: Option<Amount>)
    ensures
        r is Some <==> is_display_amount(b@) && display_wei(b@) <= u128::MAX,
        r is Some ==> r->0.wei == display_wei(b@),
{
    proof {
        lemma_dot_index(b@);
        lemma_pow10_18();
    }
    let n = b.len();
    if n == 0 {
        return None;
    }
    let mut i: usize = 0;
    let mut acc: u128 = 0;
    while i < n && b[i] != 46
        invariant
            n == b@.len(),
            i <= n,
            forall|j: int| 0 <= j < i ==> is_digit(#[trigger] b@[j]),
            acc == digits_value(b@.subrange(0, i as int)),
        decreases n - i,
    {
        let c = b[i];
        if !(48 <= c && c <= 57) {
            // A byte that is neither a digit nor a decimal point stands in
            // the integer part, so the string is malformed.
            proof {
                lemma_dot_index(b@);
                let k = dot_index(b@);
                if k < b@.len() {
                    assert(b@.subrange(0, k)[i as int] == b@[i as int]);
                }
            }
            return None;
        }
        let d = (c - 48) as u128;
        let next = match acc.checked_mul(10) {
            Some(x) => x.checked_add(d),
            None => None,
        };
        match next {
            Some(x) => {
                proof {
                    assert(b@.subrange(0, i + 1).drop_last() =~= b@.subrange(0, i as int));
                    assert(b@.subrange(0, i + 1).last() == b@[i as int]);
                }
                acc = x;
            },
            None => {
                // The integer part alone already exceeds the largest
                // representable amount, so the full value cannot fit.
                proof {
                    assert(b@.subrange(0, i + 1).drop_last() =~= b@.subrange(0, i as int));
                    assert(digits_value(b@.subrange(0, i + 1)) > u128::MAX);
                    lemma_dot_index(b@);
                    let k = dot_index(b@);
                    if k == b@.len() {
                        lemma_digits_prefix_le(b@, i + 1);
                        assert(digits_value(b@) > u128::MAX);
                        lemma_pow10_pos(18);
                        assert(digits_value(b@) * pow10(18) >= digits_value(b@) * 1)
                            by (nonlinear_arith)
                            requires
                                pow10(18) >= 1,
                                digits_value(b@) >= 0,
                        ;
                    } else {
                        assert(k > i);
                        lemma_digits_prefix_le(b@.subrange(0, k), i + 1);
                        assert(b@.subrange(0, k).subrange(0, i + 1) =~= b@.subrange(0, i + 1));
                        assert(digits_value(b@.subrange(0, k)) > u128::MAX);
                        lemma_pow10_pos(18);
                        assert(digits_value(b@.subrange(0, k)) * pow10(18) >= digits_value(
                            b@.subrange(0, k),
                        ) * 1)
                            by (nonlinear_arith)
                            requires
                                pow10(18) >= 1,
                                digits_value(b@.subrange(0, k)) >= 0,
                        ;
                    }
                }
                return None;
            },
        }
        i = i + 1;
    }
    if i == n {
        // No decimal point: the whole string is the integer part.
        proof {
            assert(b@.subrange(0, n as int) =~= b@);
            lemma_dot_index(b@);
            assert(dot_index(b@) == n);
        }
        match acc.checked_mul(WEI_PER_UNIT) {
            Some(v) => Some(Amount { wei: v }),
            None => None,
        }
    } else {
        let k = i;
        proof {
            lemma_dot_index(b@);
            assert(dot_index(b@) == k);
        }
        if k == 0 {
            return None;
        }
        let flen = n - k - 1;
        if flen == 0 || flen > 18 {
            return None;
        }
        let mut j: usize = k + 1;
        let mut facc: u128 = 0;
        while j < n
            invariant
                n == b@.len(),
                k + 1 <= j <= n,
                1 <= k,
                1 <= n - k - 1 <= 18,
                dot_index(b@) == k as int,
                forall|m: int| 0 <= m < k ==> is_digit(#[trigger] b@[m]),
                acc == digits_value(b@.subrange(0, k as int)),
                forall|m: int| k + 1 <= m < j ==> is_digit(#[trigger] b@[m]),
                facc == digits_value(b@.subrange(k + 1, j as int)),
                facc < pow10((j - k - 1) as nat),
            decreases n - j,
        {
            let c = b[j];
            if !(48 <= c && c <= 57) {
                proof {
                    assert(b@.subrange(k + 1, n as int)[j - k - 1] == b@[j as int]);
                }
                return None;
            }
            proof {
                assert(b@.subrange(k + 1, j + 1).drop_last() =~= b@.subrange(k + 1, j as int));
                assert(b@.subrange(k + 1, j + 1).last() == b@[j as int]);
                lemma_pow10_monotone((j - k) as nat, 18);
                lemma_pow10_18();
            }
            facc = facc * 10 + (c - 48) as u128;
            j = j + 1;
        }
        let scale = pow10_u128(18 - flen);
        let frac_scaled: u128;
        proof {
            lemma_pow10_adds((flen) as nat, (18 - flen) as nat);
            lemma_pow10_18();
            lemma_pow10_pos((18 - flen) as nat);
            assert(facc * scale < pow10(18)) by (nonlinear_arith)
                requires
                    facc < pow10(flen as nat),
                    scale == pow10((18 - flen) as nat),
                    scale >= 1,
                    pow10(flen as nat) * pow10((18 - flen) as nat) == pow10(18),
            ;
        }
        frac_scaled = facc * scale;
        match acc.checked_mul(WEI_PER_UNIT) {
            Some(v) => match v.checked_add(frac_scaled) {
                Some(total) => Some(Amount { wei: total }),
                None => None,
            },
            None => None,
        }
    }
}

} // verus!
