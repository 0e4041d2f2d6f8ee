//! A counter that never overflows: a natural number kept as its decimal
//! digits, which can always be raised by one.

use vstd::prelude::*;
use vstd::string::*;
use crate::text::{decimal_text, digit_char, digit_str};

verus! {

/// Ten to the power of `n`.
pub open spec fn pow10(n: nat) -> nat
    decreases n,
{
    if n == 0 {
        1
    } else {
        10 * pow10((n - 1) as nat)
    }
}

/// The number that decimal digits denote, least significant digit first.
pub open spec fn digits_value(digits: Seq<u8>) -> nat
    decreases digits.len(),
{
    if digits.len() == 0 {
        0
    } else {
        digits[0] as nat + 10 * digits_value(digits.drop_first())
    }
}

/// Whether a sequence of digits is the notation of a number: every digit
/// is below ten, and the most significant one is not zero. The notation
/// of zero has no digit.
pub open spec fn is_notation(digits: Seq<u8>) -> bool {
    &&& forall|i: int| 0 <= i < digits.len() ==> digits[i] < 10
    &&& digits.len() > 0 ==> digits.last() != 0
}

/// The digits of a notation as characters, most significant digit first.
pub open spec fn digits_text(digits: Seq<u8>) -> Seq<char> {
    Seq::new(digits.len(), |k: int| digit_char(digits[digits.len() - 1 - k] as nat))
}

proof fn lemma_value_push(digits: Seq<u8>, top: u8)
    ensures
        digits_value(digits.push(top)) == digits_value(digits) + top as nat * pow10(digits.len()),
    decreases digits.len(),
{
    let longer = digits.push(top);
    if digits.len() == 0 {
        assert(longer.drop_first() =~= Seq::<u8>::empty());
        assert(digits_value(longer.drop_first()) == 0);
        assert(longer[0] == top);
        assert(digits_value(longer) == top as nat);
        assert(pow10(0) == 1);
        assert(top as nat * 1 == top as nat) by (nonlinear_arith);
    } else {
        let rest = digits.drop_first();
        assert(longer.drop_first() =~= rest.push(top));
        assert(longer[0] == digits[0]);
        lemma_value_push(rest, top);
        let p = pow10(rest.len());
        let t = top as nat;
        assert(pow10(digits.len()) == 10 * p);
        assert(digits_value(longer) == digits[0] as nat + 10 * (digits_value(rest) + t * p));
        assert(10 * (digits_value(rest) + t * p) == 10 * digits_value(rest) + t * (10 * p))
            by (nonlinear_arith);
    }
}

proof fn lemma_value_positive(digits: Seq<u8>)
    requires
        is_notation(digits),
        digits.len() > 0,
    ensures
        digits_value(digits) > 0,
    decreases digits.len(),
{
    if digits.len() > 1 {
        let rest = digits.drop_first();
        assert(rest.last() == digits.last());
        lemma_value_positive(rest);
    }
}

/// A notation read as text is the decimal notation of its number.
pub proof fn lemma_notation_text(digits: Seq<u8>)
    requires
        is_notation(digits),
        digits.len() > 0,
    ensures
        digits_text(digits) == decimal_text(digits_value(digits)),
    decreases digits.len(),
{
    let n = digits_value(digits);
    if digits.len() == 1 {
        assert(digits.drop_first() =~= Seq::<u8>::empty());
        assert(digits_value(digits.drop_first()) == 0);
        assert(digits_text(digits) =~= seq![digit_char(digits[0] as nat)]);
    } else {
        let rest = digits.drop_first();
        assert(rest.last() == digits.last());
        lemma_value_positive(rest);
        lemma_notation_text(rest);
        assert(n / 10 == digits_value(rest));
        assert(n % 10 == digits[0] as nat);
        assert(digits_text(digits) =~= digits_text(rest).push(digit_char(digits[0] as nat)));
    }
}

/// A natural number that can always be raised by one.
#[derive(Debug)]
pub struct DecimalCounter {
    digits: Vec<u8>,
}

impl DecimalCounter {
    #[verifier::type_invariant]
    spec fn well_formed(&self) -> bool {
        is_notation(self.digits@)
    }

    /// The number that the counter stands at.
    pub closed spec fn value(&self) -> nat {
        digits_value(self.digits@)
    }

    /// A counter that stands at zero.
    pub fn new() -> (counter: DecimalCounter)
        ensures
            counter.value() == 0,
    {
        DecimalCounter { digits: Vec::new() }
    }

    /// Raises the counter by one.
    pub fn increment(&mut self)
        ensures
            final(self).value() == old(self).value() + 1,
    {
        proof {
            use_type_invariant(&*self);
        }
        let mut raised: Vec<u8> = Vec::new();
        let mut carry: bool = true;
        let mut i: usize = 0;
        assert(self.digits@.take(0) =~= Seq::<u8>::empty());
        while i < self.digits.len()
            invariant
                is_notation(self.digits@),
                i <= self.digits.len(),
                raised.len() == i,
                forall|k: int| 0 <= k < i ==> raised[k] < 10,
                digits_value(raised@) + (if carry {
                    pow10(i as nat)
                } else {
                    0
                }) == digits_value(self.digits@.take(i as int)) + 1,
                !carry && i > 0 ==> raised[i - 1] >= self.digits[i - 1],
            decreases self.digits.len() - i,
        {
            let d: u8 = self.digits[i];
            let ghost seen = self.digits@.take(i as int);
            let ghost before = raised@;
            let ghost p = pow10(i as nat);
            proof {
                assert(self.digits@.take(i + 1) =~= seen.push(d));
                lemma_value_push(seen, d);
                assert(pow10((i + 1) as nat) == 10 * p);
            }
            if carry {
                if d == 9 {
                    raised.push(0);
                    proof {
                        lemma_value_push(before, 0);
                        assert(0 * p == 0) by (nonlinear_arith);
                        assert(9 * p + p == 10 * p) by (nonlinear_arith);
                        assert(d as nat * p == 9 * p);
                    }
                } else {
                    raised.push(d + 1);
                    carry = false;
                    proof {
                        lemma_value_push(before, (d + 1) as u8);
                        assert((d + 1) as nat * p == d as nat * p + p) by (nonlinear_arith);
                    }
                }
            } else {
                raised.push(d);
                proof {
                    lemma_value_push(before, d);
                }
            }
            i = i + 1;
        }
        assert(self.digits@.take(self.digits.len() as int) =~= self.digits@);
        if carry {
            let ghost before = raised@;
            raised.push(1);
            proof {
                lemma_value_push(before, 1);
                assert(1 * pow10(i as nat) == pow10(i as nat)) by (nonlinear_arith);
            }
        } else {
            assert(raised@.last() != 0) by {
                assert(self.digits@.last() == self.digits[i - 1]);
            }
        }
        self.digits = raised;
    }

    /// Appends the decimal notation of the counter to `out`.
    pub fn push_text(&self, out: &mut String)
        ensures
            final(out)@ == old(out)@ + decimal_text(self.value()),
    {
        proof {
            use_type_invariant(self);
        }
        if self.digits.len() == 0 {
            proof {
                reveal_strlit("0");
                assert(decimal_text(0) =~= seq!['0']);
            }
            out.append("0");
            assert(out@ =~= old(out)@ + decimal_text(self.value()));
            return ;
        }
        let mut left: usize = self.digits.len();
        while left > 0
            invariant
                is_notation(self.digits@),
                left <= self.digits.len(),
                out@ == old(out)@ + digits_text(self.digits@).take(self.digits.len() - left),
            decreases left,
        {
            left = left - 1;
            let ghost before = out@;
            let d: u8 = self.digits[left];
            out.append(digit_str(d));
            proof {
                let text = digits_text(self.digits@);
                let k = self.digits.len() - 1 - left;
                assert(text[k] == digit_char(d as nat));
                assert(text.take(k + 1) =~= text.take(k).push(text[k]));
                assert(out@ =~= old(out)@ + text.take(k + 1));
            }
        }
        proof {
            let text = digits_text(self.digits@);
            assert(text.take(self.digits.len() as int) =~= text);
            lemma_notation_text(self.digits@);
        }
    }
}

} // verus!
