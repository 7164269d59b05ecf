//! Small helpers: compile-time style decimal parsing and a no-op waker.
use vstd::prelude::*;
use vstd::string::StringSliceAdditionalSpecFns;

verus! {

/// The value of a decimal digit string read left to right, each byte counted
/// as `byte - '0'` (bytes are not checked to be digits).
pub open spec fn digit_fold(s: Seq<u8>) -> int
    decreases s.len(),
{
    if s.len() == 0 {
        0
    } else {
        digit_fold(s.drop_last()) * 10 + (s.last() - 48)
    }
}

/// Every byte of `s` is at least `'0'`, so `byte - '0'` does not underflow.
pub open spec fn no_byte_below_zero_digit(s: Seq<u8>) -> bool {
    forall|i: int| 0 <= i < s.len() ==> s[i] >= 48
}

/// The fold over a prefix never exceeds the fold over a longer prefix.
pub proof fn lemma_digit_fold_monotone(s: Seq<u8>, k: int)
    requires
        no_byte_below_zero_digit(s),
        0 <= k <= s.len(),
    ensures
        0 <= digit_fold(s.take(k)) <= digit_fold(s),
    decreases s.len() - k,
{
    if k == s.len() {
        assert(s.take(k) =~= s);
        lemma_digit_fold_nonneg(s);
    } else {
        lemma_digit_fold_monotone(s, k + 1);
        assert(s.take(k + 1).drop_last() =~= s.take(k));
        lemma_digit_fold_nonneg(s.take(k));
    }
}

/// The fold of a string with no byte below `'0'` is non-negative.
pub proof fn lemma_digit_fold_nonneg(s: Seq<u8>)
    requires
        no_byte_below_zero_digit(s),
    ensures
        digit_fold(s) >= 0,
    decreases s.len(),
{
    if s.len() > 0 {
        lemma_digit_fold_nonneg(s.drop_last());
    }
}

/// Parses a `u16` from a decimal string: every byte contributes `byte - '0'`.
/// Defined where no byte is below `'0'` and the value fits in a `u16`.
pub fn parse_u16(s: &str) -> (val: u16)
    requires
        no_byte_below_zero_digit(s.spec_bytes()),
        digit_fold(s.spec_bytes()) <= u16::MAX,
    ensures
        val == digit_fold(s.spec_bytes()),
{
    let s = s.as_bytes();
    let mut val: u16 = 0;
    let mut i: usize = 0;
    while i < s.len()
        invariant
            0 <= i <= s@.len(),
            no_byte_below_zero_digit(s@),
            digit_fold(s@) <= u16::MAX,
            val == digit_fold(s@.take(i as int)),
        decreases s@.len() - i,
    {
        proof {
            lemma_digit_fold_monotone(s@, i + 1);
            assert(s@.take(i + 1).drop_last() =~= s@.take(i as int));
        }
        val = val * 10 + (s[i] - 48u8) as u16;
        i += 1;
    }
    proof {
        assert(s@.take(i as int) =~= s@);
    }
    val
}


/// Parses a `u64` from a decimal string: every byte contributes `byte - '0'`.
/// Defined where no byte is below `'0'` and the value fits in a `u64`.
/// Used for idle timeout values.
pub fn parse_u64(s: &str) -> (val: u64)
    requires
        no_byte_below_zero_digit(s.spec_bytes()),
        digit_fold(s.spec_bytes()) <= u64::MAX,
    ensures
        val == digit_fold(s.spec_bytes()),
{
    let s = s.as_bytes();
    let mut val: u64 = 0;
    let mut i: usize = 0;
    while i < s.len()
        invariant
            0 <= i <= s@.len(),
            no_byte_below_zero_digit(s@),
            digit_fold(s@) <= u64::MAX,
            val == digit_fold(s@.take(i as int)),
        decreases s@.len() - i,
    {
        proof {
            lemma_digit_fold_monotone(s@, i + 1);
            assert(s@.take(i + 1).drop_last() =~= s@.take(i as int));
        }
        val = val * 10 + (s[i] - 48u8) as u64;
        i += 1;
    }
    proof {
        assert(s@.take(i as int) =~= s@);
    }
    val
}

/// Whether `digit_fold` is defined on `s` without going below `'0'` and stays
/// within `max`: the inputs on which the decimal parsers return a value.
pub open spec fn decimal_text_within(s: Seq<u8>, max: int) -> bool {
    no_byte_below_zero_digit(s) && digit_fold(s) <= max
}

/// Tells whether `s` is text that the decimal parsers accept for a result
/// of at most `max`: no byte below `'0'` and a value not above `max`.
pub fn decimal_text_fits(s: &str, max: u64) -> (fits: bool)
    ensures
        fits == decimal_text_within(s.spec_bytes(), max as int),
{
    let b = s.as_bytes();
    let mut val: u64 = 0;
    let mut i: usize = 0;
    while i < b.len()
        invariant
            0 <= i <= b@.len(),
            b@ == s.spec_bytes(),
            no_byte_below_zero_digit(b@.take(i as int)),
            val == digit_fold(b@.take(i as int)),
            val <= max,
        decreases b@.len() - i,
    {
        let c = b[i];
        assert(b@.take(i + 1).drop_last() =~= b@.take(i as int));
        if c < 48u8 {
            assert(!no_byte_below_zero_digit(b@));
            return false;
        }
        let d = (c - 48u8) as u64;
        if d > max || val > (max - d) / 10 {
            proof {
                assert(val * 10 + d > max) by (nonlinear_arith)
                    requires
                        d > max || val > (max - d) / 10,
                        d <= max ==> (max - d) / 10 * 10 <= max - d < (max - d) / 10 * 10 + 10,
                        val >= 0,
                ;
                assert(digit_fold(b@.take(i + 1)) == val * 10 + d);
                if no_byte_below_zero_digit(b@) {
                    lemma_digit_fold_monotone(b@, i + 1);
                }
            }
            return false;
        }
        proof {
            assert(val * 10 + d <= max) by (nonlinear_arith)
                requires
                    d <= max,
                    val <= (max - d) / 10,
                    (max - d) / 10 * 10 <= max - d,
            ;
        }
        val = val * 10 + d;
        i += 1;
        assert(no_byte_below_zero_digit(b@.take(i as int)));
    }
    proof {
        assert(b@.take(i as int) =~= b@);
    }
    true
}

/// The texts `octet` is defined on: one to three bytes, none below `'0'`,
/// with a value that fits in a `u8`.
pub open spec fn octet_text(s: Seq<u8>) -> bool {
    1 <= s.len() <= 3 && decimal_text_within(s, 255)
}

/// Parses a single IPv4 octet from a decimal string of one to three bytes,
/// each byte counted as `byte - '0'`. Defined where no byte is below `'0'`
/// and the value fits in a `u8`.
pub fn octet(s: &str) -> (o: u8)
    requires
        octet_text(s.spec_bytes()),
    ensures
        o == digit_fold(s.spec_bytes()),
{
    let b = s.as_bytes();
    let ghost bs = b@;
    proof {
        reveal_with_fuel(digit_fold, 4);
        lemma_digit_fold_nonneg(bs);
        if bs.len() >= 2 {
            lemma_digit_fold_nonneg(bs.drop_last());
        }
        if bs.len() == 3 {
            lemma_digit_fold_nonneg(bs.drop_last().drop_last());
            assert(bs.drop_last().drop_last() =~= seq![bs[0]]);
            assert(bs.drop_last() =~= seq![bs[0], bs[1]]);
        }
        if bs.len() == 2 {
            assert(bs.drop_last() =~= seq![bs[0]]);
        }
        assert(seq![bs[0]].drop_last() =~= Seq::<u8>::empty());
    }
    if b.len() == 1 {
        b[0] - 48u8
    } else if b.len() == 2 {
        (b[0] - 48u8) * 10 + (b[1] - 48u8)
    } else {
        (b[0] - 48u8) * 100 + (b[1] - 48u8) * 10 + (b[2] - 48u8)
    }
}

/// `octet` where it is defined, `None` on the inputs where it is not.
pub fn octet_checked(s: &str) -> (o: Option<u8>)
    ensures
        o == (if octet_text(s.spec_bytes()) {
            Some(digit_fold(s.spec_bytes()) as u8)
        } else {
            None
        }),
{
    let n = s.as_bytes().len();
    if n < 1 || n > 3 {
        return None;
    }
    if !decimal_text_fits(s, 255) {
        return None;
    }
    Some(octet(s))
}


/// The decimal text of `n` as `Display` writes an unsigned integer: no sign,
/// no leading zeros, `"0"` for zero.
pub open spec fn decimal(n: nat) -> Seq<u8>
    decreases n,
{
    if n < 10 {
        seq![(48 + n) as u8]
    } else {
        decimal(n / 10) + seq![(48 + n % 10) as u8]
    }
}

/// The decimal text of `n` is non-empty and made of digit bytes only.
pub proof fn lemma_decimal_shape(n: nat)
    ensures
        decimal(n).len() >= 1,
        forall|i: int| 0 <= i < decimal(n).len() ==> 48 <= #[trigger] decimal(n)[i] <= 57,
    decreases n,
{
    if n >= 10 {
        lemma_decimal_shape(n / 10);
    }
}

/// Reading back the decimal text of `n` gives `n`: what `parse_u16` and
/// `parse_u64` return on the text that `Display` writes for a number is that
/// number.
pub proof fn law_parse_reads_back_decimal(n: nat)
    ensures
        no_byte_below_zero_digit(decimal(n)),
        digit_fold(decimal(n)) == n,
    decreases n,
{
    lemma_decimal_shape(n);
    if n < 10 {
        assert(decimal(n).drop_last() =~= Seq::<u8>::empty());
        assert(decimal(n).last() == (48 + n) as u8);
        assert(digit_fold(decimal(n)) == digit_fold(Seq::<u8>::empty()) * 10 + (decimal(n).last() - 48));
    } else {
        law_parse_reads_back_decimal(n / 10);
        assert(decimal(n).drop_last() =~= decimal(n / 10));
        assert(decimal(n).last() == (48 + n % 10) as u8);
        assert(digit_fold(decimal(n)) == digit_fold(decimal(n / 10)) * 10 + (decimal(n).last() - 48));
        assert((n / 10) * 10 + n % 10 == n);
    }
}

/// `octet` and `parse_u16` agree wherever `octet` is defined: `parse_u16`
/// is defined there too, both return `digit_fold` of the text, and that
/// value fits in a `u8`, so the two results are the same number.
pub proof fn law_octet_agrees_with_parse_u16(s: Seq<u8>)
    requires
        1 <= s.len() <= 3,
        decimal_text_within(s, 255),
    ensures
        decimal_text_within(s, u16::MAX as int),
        (digit_fold(s) as u8) as int == digit_fold(s),
        (digit_fold(s) as u16) as int == digit_fold(s),
{
    lemma_digit_fold_nonneg(s);
}

/// The decimal text of `n` is canonical: digits only, no leading zero
/// unless it is `"0"` itself, and it reads back as `n`.
pub proof fn law_decimal_is_canonical(n: nat)
    ensures
        1 <= decimal(n).len(),
        forall|i: int| 0 <= i < decimal(n).len() ==> 48 <= #[trigger] decimal(n)[i] <= 57,
        decimal(n).len() > 1 ==> decimal(n)[0] != 48,
        digit_fold(decimal(n)) == n,
    decreases n,
{
    lemma_decimal_shape(n);
    law_parse_reads_back_decimal(n);
    if n >= 10 {
        law_decimal_is_canonical(n / 10);
        assert(decimal(n)[0] == decimal(n / 10)[0]);
        let q: nat = n / 10;
        if q < 10 {
            assert(q >= 1);
            assert(decimal(q) == seq![(48 + q) as u8]);
            assert(decimal(q)[0] == (48 + q) as u8);
            assert(49 <= 48 + q <= 57);
        } else {
            assert(decimal(q).len() > 1) by {
                assert(decimal(q) == decimal(q / 10) + seq![(48 + q % 10) as u8]);
                lemma_decimal_shape(q / 10);
            }
        }
    }
}

/// The decimal parsers accept the decimal text of every value up to their
/// maximum, `"0"` included, and read it back as that value.
pub proof fn law_decimal_text_accepted(n: nat, max: int)
    requires
        n <= max,
    ensures
        decimal_text_within(decimal(n), max),
        digit_fold(decimal(n)) == n,
{
    law_parse_reads_back_decimal(n);
}

/// `octet` is defined on the decimal text of every octet value 0..=255,
/// and reads it back as that value: every dotted-decimal address part is
/// accepted.
pub proof fn law_octet_accepts_every_octet_value(n: nat)
    requires
        n <= 255,
    ensures
        octet_text(decimal(n)),
        digit_fold(decimal(n)) == n,
{
    law_parse_reads_back_decimal(n);
    lemma_decimal_shape(n);
    if n >= 10 {
        lemma_decimal_shape(n / 10);
        if n / 10 >= 10 {
            assert(n / 10 / 10 < 10);
            assert(decimal(n / 10) == decimal(n / 10 / 10) + seq![(48 + (n / 10) % 10) as u8]);
            assert(decimal(n / 10 / 10).len() == 1);
        } else {
            assert(decimal(n / 10).len() == 1);
        }
    }
}

/// A waker whose `wake` does nothing, for polling a driver in a busy loop.
#[verifier::external_body]
pub fn noop_waker() -> core::task::Waker {
    core::task::Waker::noop().clone()
}

#[verifier::external_type_specification]
#[verifier::external_body]
pub struct ExWaker(core::task::Waker);

} // verus!
