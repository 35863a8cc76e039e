//! Arbitrary-precision decimal numbers as stored by the relational engine,
//! and their conversion to `u64`.
use vstd::arithmetic::power::{lemma_pow_increases, lemma_pow_positive, pow};
use vstd::prelude::*;

verus! {

/// The integer whose base-10 digits, most significant first, are `s`.
pub open spec fn digits_value(s: Seq<u8>) -> nat
    decreases s.len(),
{
    if s.len() == 0 {
        0
    } else {
        digits_value(s.drop_last()) * 10 + s.last() as nat
    }
}

/// Whether every digit of `s` is zero.
pub open spec fn all_zero(s: Seq<u8>) -> bool {
    forall|i: int| 0 <= i < s.len() ==> s[i] == 0
}

/// A decimal number `(-1)^negative * digits / 10^scale`.
///
/// `digits` holds the base-10 digits of the unscaled magnitude, most
/// significant first; `scale` is the number of them after the decimal point.
#[derive(Clone, Debug, PartialEq, Eq)]
pub struct Numeric {
    pub negative: bool,
    pub digits: Vec<u8>,
    pub scale: usize,
}

impl Numeric {
    /// Every digit is below ten.
    pub open spec fn wf(&self) -> bool {
        forall|i: int| 0 <= i < self.digits@.len() ==> self.digits@[i] < 10
    }

    /// The digits before the decimal point.
    pub open spec fn int_digits(&self) -> Seq<u8> {
        if self.scale >= self.digits@.len() {
            Seq::empty()
        } else {
            self.digits@.subrange(0, self.digits@.len() - self.scale)
        }
    }

    /// The digits after the decimal point that are stored; where the scale
    /// exceeds the number of digits, the missing leading ones are zero.
    pub open spec fn frac_digits(&self) -> Seq<u8> {
        if self.scale >= self.digits@.len() {
            self.digits@
        } else {
            self.digits@.subrange(self.digits@.len() - self.scale, self.digits@.len() as int)
        }
    }

    /// The value is above `u64::MAX`: its whole part is, or its whole part is
    /// `u64::MAX` and its fraction is not zero.
    pub open spec fn above_u64_max(&self) -> bool {
        !self.is_negative() && (self.int_magnitude() > u64::MAX || (self.int_magnitude()
            == u64::MAX && !all_zero(self.frac_digits())))
    }

    /// The value truncated toward zero to a whole number, without its sign.
    pub open spec fn int_magnitude(&self) -> nat {
        digits_value(self.int_digits())
    }

    /// The value is below zero.
    pub open spec fn is_negative(&self) -> bool {
        self.negative && !all_zero(self.digits@)
    }

    /// The value as a `u64`, truncated toward zero; `None` for a value below
    /// zero or above `u64::MAX`.
    pub open spec fn to_u64_spec(&self) -> Option<u64> {
        if self.is_negative() || self.above_u64_max() {
            None
        } else {
            Some(self.int_magnitude() as u64)
        }
    }

    /// A number from its sign, digits and scale; `None` where a digit is not
    /// below ten.
    pub fn new(negative: bool, digits: Vec<u8>, scale: usize) -> (r: Option<Numeric>)
        ensures
            r is Some <==> (forall|i: int| 0 <= i < digits@.len() ==> digits@[i] < 10),
            r matches Some(n) ==> n.negative == negative && n.digits@ == digits@
                && n.scale == scale,
    {
        let mut i: usize = 0;
        while i < digits.len()
            invariant
                i <= digits@.len(),
                forall|j: int| 0 <= j < i ==> digits@[j] < 10,
            decreases digits@.len() - i,
        {
            if digits[i] >= 10 {
                return None;
            }
            i = i + 1;
        }
        Some(Numeric { negative, digits, scale })
    }

    /// The value as a `u64`, truncated toward zero; `None` where it is below
    /// zero or its whole part does not fit.
    pub fn to_u64(&self) -> (r: Option<u64>)
        requires
            self.wf(),
        ensures
            r == self.to_u64_spec(),
    {
        if self.negative {
            let mut i: usize = 0;
            while i < self.digits.len()
                invariant
                    self.negative,
                    i <= self.digits@.len(),
                    forall|j: int| 0 <= j < i ==> self.digits@[j] == 0,
                decreases self.digits@.len() - i,
            {
                if self.digits[i] != 0 {
                    assert(self.digits@[i as int] != 0);
                    assert(!all_zero(self.digits@));
                    return None;
                }
                i = i + 1;
            }
        }
        let n = self.digits.len();
        let k: usize = if self.scale >= n { 0 } else { n - self.scale };
        let ghost ds = self.int_digits();
        assert(ds.len() == k);
        assert(forall|j: int| 0 <= j < k ==> ds[j] == self.digits@[j]);
        let mut acc: u64 = 0;
        let mut i: usize = 0;
        while i < k
            invariant
                k <= n == self.digits@.len(),
                ds == self.int_digits(),
                ds.len() == k,
                forall|j: int| 0 <= j < k ==> ds[j] == self.digits@[j],
                self.wf(),
                i <= k,
                acc as nat == digits_value(ds.take(i as int)),
            decreases k - i,
        {
            let d = self.digits[i];
            proof {
                assert(ds.take(i as int + 1).drop_last() =~= ds.take(i as int));
                assert(ds.take(i as int + 1).last() == d);
                assert(digits_value(ds.take(i as int + 1)) == acc * 10 + d);
            }
            match acc.checked_mul(10) {
                None => {
                    proof {
                        lemma_prefix_monotone(ds, i as int + 1, k as int);
                        assert(ds.take(k as int) =~= ds);
                        assert(self.int_magnitude() > u64::MAX);
                    }
                    return None;
                },
                Some(m) => match m.checked_add(d as u64) {
                    None => {
                        proof {
                            lemma_prefix_monotone(ds, i as int + 1, k as int);
                            assert(ds.take(k as int) =~= ds);
                        }
                        return None;
                    },
                    Some(s) => {
                        acc = s;
                    },
                },
            }
            i = i + 1;
        }
        assert(ds.take(k as int) =~= ds);
        if acc == u64::MAX {
            let ghost fs = self.frac_digits();
            assert(self.int_magnitude() == u64::MAX);
            assert(!self.is_negative());
            let mut j: usize = k;
            while j < n
                invariant
                    k <= n == self.digits@.len(),
                    k == self.digits@.len() - fs.len(),
                    fs == self.frac_digits(),
                    self.int_magnitude() == u64::MAX,
                    !self.is_negative(),
                    forall|x: int| 0 <= x < fs.len() ==> fs[x] == self.digits@[k + x],
                    k <= j <= n,
                    forall|x: int| 0 <= x < j - k ==> fs[x] == 0,
                decreases n - j,
            {
                if self.digits[j] != 0 {
                    assert(fs[j - k] != 0);
                    assert(!all_zero(fs));
                    return None;
                }
                j = j + 1;
            }
            assert(all_zero(fs));
        }
        Some(acc)
    }
}

/// A longer prefix of a digit sequence has a value at least as large.
pub proof fn lemma_prefix_monotone(s: Seq<u8>, i: int, j: int)
    requires
        0 <= i <= j <= s.len(),
    ensures
        digits_value(s.take(i)) <= digits_value(s.take(j)),
    decreases j - i,
{
    if i < j {
        lemma_prefix_monotone(s, i, j - 1);
        assert(s.take(j).drop_last() =~= s.take(j - 1));
    }
}

/// The value of digits followed by more digits: the first part shifted left
/// by as many places as the second part has digits.
pub proof fn lemma_digits_split(s: Seq<u8>, k: int)
    requires
        0 <= k <= s.len(),
    ensures
        digits_value(s) == digits_value(s.take(k)) * pow(10, (s.len() - k) as nat) + digits_value(
            s.skip(k),
        ),
    decreases s.len(),
{
    reveal(pow);
    if k == s.len() {
        assert(s.take(k) =~= s);
        assert(s.skip(k) =~= Seq::<u8>::empty());
        assert(pow(10, 0) == 1);
        assert(digits_value(s.skip(k)) == 0);
        assert(digits_value(s) * 1 == digits_value(s));
    } else {
        let d = s.drop_last();
        lemma_digits_split(d, k);
        assert(d.take(k) =~= s.take(k));
        assert(s.skip(k).drop_last() =~= d.skip(k));
        assert(s.skip(k).last() == s.last());
        let a = digits_value(s.take(k));
        let p = pow(10, (d.len() - k) as nat);
        let b = digits_value(d.skip(k));
        assert(pow(10, (s.len() - k) as nat) == 10 * p);
        assert(digits_value(s) == (a * p + b) * 10 + s.last() as nat);
        assert((a * p + b) * 10 == a * (10 * p) + b * 10) by (nonlinear_arith);
        assert(digits_value(s.skip(k)) == b * 10 + s.last() as nat);
        assert(digits_value(s) == a * (10 * p) + digits_value(s.skip(k)));
    }
}

/// The value of `n` digits is below `10^n`.
pub proof fn lemma_digits_bound(s: Seq<u8>)
    requires
        forall|i: int| 0 <= i < s.len() ==> s[i] < 10,
    ensures
        digits_value(s) < pow(10, s.len()),
    decreases s.len(),
{
    reveal(pow);
    if s.len() > 0 {
        let d = s.drop_last();
        lemma_digits_bound(d);
        let p = pow(10, d.len());
        assert(pow(10, s.len()) == 10 * p);
        assert(digits_value(d) * 10 + (s.last() as nat) < 10 * p) by (nonlinear_arith)
            requires
                digits_value(d) < p,
                s.last() < 10,
        ;
    }
}

/// The value of digits is zero exactly when every digit is.
pub proof fn lemma_digits_zero(s: Seq<u8>)
    ensures
        digits_value(s) == 0 <==> all_zero(s),
    decreases s.len(),
{
    if s.len() > 0 {
        let d = s.drop_last();
        lemma_digits_zero(d);
        if !all_zero(s) {
            let i = choose|i: int| 0 <= i < s.len() && s[i] != 0;
            if i < s.len() - 1 {
                assert(d[i] != 0);
            }
        } else {
            assert(all_zero(d)) by {
                assert forall|i: int| 0 <= i < d.len() implies d[i] == 0 by {
                    assert(s[i] == 0);
                }
            }
        }
    }
}

/// `above_u64_max` holds exactly of the numbers that are not below zero and
/// whose value `digits / 10^scale` exceeds `u64::MAX`.
pub proof fn lemma_above_u64_max(n: Numeric)
    requires
        n.wf(),
    ensures
        n.above_u64_max() <==> !n.is_negative() && digits_value(n.digits@) > u64::MAX * pow(
            10,
            n.scale as nat,
        ),
{
    let s = n.digits@;
    let p = pow(10, n.scale as nat);
    lemma_pow_positive(10, n.scale as nat);
    let m = u64::MAX as int;
    if n.scale >= s.len() {
        lemma_digits_bound(s);
        lemma_pow_increases(10, s.len(), n.scale as nat);
        assert(digits_value(s) < m * p) by (nonlinear_arith)
            requires
                digits_value(s) < pow(10, s.len()),
                pow(10, s.len()) <= p,
                p > 0,
                m > 1,
        ;
        assert(n.int_digits() =~= Seq::<u8>::empty());
    } else {
        let k = s.len() - n.scale;
        lemma_digits_split(s, k);
        assert(s.take(k) =~= n.int_digits());
        assert(s.skip(k) =~= n.frac_digits());
        let f = n.frac_digits();
        lemma_digits_bound(f);
        lemma_digits_zero(f);
        let a = n.int_magnitude() as int;
        let b = digits_value(f) as int;
        assert(f.len() == n.scale);
        assert(a > m ==> a * p + b > m * p) by (nonlinear_arith)
            requires
                p > 0,
                b >= 0,
        ;
        assert(a < m ==> a * p + b < m * p) by (nonlinear_arith)
            requires
                p > 0,
                b < p,
        ;
        assert(a == m ==> (a * p + b > m * p <==> b > 0)) by (nonlinear_arith);
    }
}

} // verus!
