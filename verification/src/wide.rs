use vstd::prelude::*;
use vstd::arithmetic::power2::{lemma2_to64, lemma_pow2_adds, lemma_pow2_unfold, pow2};

verus! {

/// Whether every limb is below the base, two to the power of 32.
pub open spec fn limbs_small(limbs: Seq<u64>) -> bool {
    forall|i: int| 0 <= i < limbs.len() ==> #[trigger] limbs[i] < 0x1_0000_0000
}

/// The number that the limbs stand for, the least significant limb first.
pub open spec fn limbs_value(limbs: Seq<u64>) -> nat
    decreases limbs.len(),
{
    if limbs.len() == 0 {
        0
    } else {
        limbs_value(limbs.drop_last()) + (limbs.last() as nat) * pow2(
            (32 * (limbs.len() - 1)) as nat,
        )
    }
}

proof fn lemma_weight_step(k: nat)
    ensures
        pow2(32 * (k + 1)) == 0x1_0000_0000 * pow2(32 * k),
{
    lemma2_to64();
    lemma_pow2_adds(32, 32 * k);
}

proof fn lemma_value_bound(limbs: Seq<u64>)
    requires
        limbs_small(limbs),
    ensures
        limbs_value(limbs) < pow2(32 * limbs.len()),
    decreases limbs.len(),
{
    if limbs.len() == 0 {
        lemma2_to64();
    } else {
        let rest = limbs.drop_last();
        let k = (limbs.len() - 1) as nat;
        lemma_value_bound(rest);
        lemma_weight_step(k);
        let w = pow2(32 * k);
        let top = limbs.last() as nat;
        assert(top < 0x1_0000_0000);
        assert(top * w + w <= 0x1_0000_0000 * w) by (nonlinear_arith)
            requires
                top < 0x1_0000_0000,
        ;
    }
}

proof fn lemma_value_take_step(limbs: Seq<u64>, i: int)
    requires
        0 <= i < limbs.len(),
    ensures
        limbs_value(limbs.take(i + 1)) == limbs_value(limbs.take(i)) + (limbs[i] as nat) * pow2(
            (32 * i) as nat,
        ),
{
    assert(limbs.take(i + 1).drop_last() =~= limbs.take(i));
}

/// An amount of work: a natural number of any size.
#[derive(Debug)]
pub struct Work {
    limbs: Vec<u64>,
}

impl View for Work {
    type V = nat;

    closed spec fn view(&self) -> nat {
        limbs_value(self.limbs@)
    }
}

fn padded(limbs: &Vec<u64>, len: usize) -> (wide: Vec<u64>)
    requires
        limbs_small(limbs@),
        limbs@.len() <= len,
    ensures
        wide@.len() == len,
        limbs_small(wide@),
        limbs_value(wide@) == limbs_value(limbs@),
{
    let mut wide: Vec<u64> = Vec::new();
    let mut i: usize = 0;
    while i < limbs.len()
        invariant
            i <= limbs@.len(),
            wide@ == limbs@.take(i as int),
        decreases limbs@.len() - i,
    {
        wide.push(limbs[i]);
        assert(wide@ =~= limbs@.take(i + 1));
        i += 1;
    }
    assert(limbs@.take(i as int) =~= limbs@);
    while i < len
        invariant
            limbs@.len() <= i <= len,
            wide@.len() == i,
            limbs_small(wide@),
            limbs_value(wide@) == limbs_value(limbs@),
        decreases len - i,
    {
        let ghost before = wide@;
        wide.push(0);
        assert(wide@.drop_last() =~= before);
        assert(0 * pow2((32 * i) as nat) == 0) by (nonlinear_arith);
        i += 1;
    }
    wide
}

/// The sign of the difference of two numbers: 1, 0 or 2 where the first is
/// the greater, the same, or the smaller.
fn balance(left: &Vec<u64>, right: &Vec<u64>) -> (sign: u8)
    requires
        limbs_small(left@),
        limbs_small(right@),
    ensures
        sign == 1 <==> limbs_value(left@) > limbs_value(right@),
        sign == 0 <==> limbs_value(left@) == limbs_value(right@),
        sign == 2 <==> limbs_value(left@) < limbs_value(right@),
{
    let len: usize = if left.len() > right.len() { left.len() } else { right.len() };
    let a: Vec<u64> = padded(left, len);
    let b: Vec<u64> = padded(right, len);
    let mut i: usize = len;
    proof {
        assert(a@.take(len as int) =~= a@);
        assert(b@.take(len as int) =~= b@);
    }
    while i > 0
        invariant
            i <= len,
            a@.len() == len,
            b@.len() == len,
            limbs_small(a@),
            limbs_small(b@),
            limbs_value(a@) == limbs_value(left@),
            limbs_value(b@) == limbs_value(right@),
            limbs_value(a@) - limbs_value(b@) == limbs_value(a@.take(i as int)) - limbs_value(
                b@.take(i as int),
            ),
        decreases i,
    {
        i -= 1;
        proof {
            lemma_value_take_step(a@, i as int);
            lemma_value_take_step(b@, i as int);
            lemma_value_bound(a@.take(i as int));
            lemma_value_bound(b@.take(i as int));
            let w = pow2((32 * i) as nat);
            let x = a@[i as int] as nat;
            let y = b@[i as int] as nat;
            if x > y {
                assert(x * w >= y * w + w) by (nonlinear_arith)
                    requires
                        x > y,
                ;
            }
            if x < y {
                assert(y * w >= x * w + w) by (nonlinear_arith)
                    requires
                        x < y,
                ;
            }
        }
        if a[i] > b[i] {
            return 1;
        }
        if a[i] < b[i] {
            return 2;
        }
    }
    assert(a@.take(0).len() == 0 && b@.take(0).len() == 0);
    0
}

impl Work {
    #[verifier::type_invariant]
    spec fn well_formed(&self) -> bool {
        limbs_small(self.limbs@)
    }

    /// No work.
    pub fn zero() -> (work: Work)
        ensures
            work@ == 0,
    {
        Work { limbs: Vec::new() }
    }

    /// Two to the power of `exponent`.
    pub fn pow2(exponent: u32) -> (work: Work)
        ensures
            work@ == pow2(exponent as nat),
    {
        let zeros: u32 = exponent / 32;
        let shift: u32 = exponent % 32;
        let mut limbs: Vec<u64> = Vec::new();
        let mut i: u32 = 0;
        while i < zeros
            invariant
                i <= zeros,
                limbs@.len() == i,
                limbs_small(limbs@),
                limbs_value(limbs@) == 0,
            decreases zeros - i,
        {
            let ghost before = limbs@;
            limbs.push(0);
            assert(limbs@.drop_last() =~= before);
            assert(0 * pow2((32 * i) as nat) == 0) by (nonlinear_arith);
            i += 1;
        }
        let mut bit: u64 = 1;
        let mut j: u32 = 0;
        proof {
            lemma2_to64();
        }
        while j < shift
            invariant
                j <= shift < 32,
                bit == pow2(j as nat),
                bit < 0x1_0000_0000,
                pow2(31) == 0x8000_0000,
            decreases shift - j,
        {
            proof {
                lemma_pow2_unfold((j + 1) as nat);
                if j + 1 <= 31 {
                    if j + 1 < 31 {
                        vstd::arithmetic::power2::lemma_pow2_strictly_increases(
                            (j + 1) as nat,
                            31,
                        );
                    }
                }
            }
            bit = bit * 2;
            j += 1;
        }
        let ghost before = limbs@;
        limbs.push(bit);
        proof {
            assert(limbs@.drop_last() =~= before);
            lemma_pow2_adds(shift as nat, (32 * zeros) as nat);
            assert(exponent == shift + 32 * zeros);
            assert(pow2(shift as nat) * pow2((32 * zeros) as nat) == pow2(exponent as nat));
        }
        Work { limbs }
    }

    /// The sum of two amounts.
    pub fn add(&self, other: &Work) -> (sum: Work)
        ensures
            sum@ == self@ + other@,
    {
        proof {
            use_type_invariant(self);
            use_type_invariant(other);
        }
        let len: usize = if self.limbs.len() > other.limbs.len() {
            self.limbs.len()
        } else {
            other.limbs.len()
        };
        let a: Vec<u64> = padded(&self.limbs, len);
        let b: Vec<u64> = padded(&other.limbs, len);
        let mut limbs: Vec<u64> = Vec::new();
        let mut carry: u64 = 0;
        let mut i: usize = 0;
        proof {
            lemma2_to64();
        }
        while i < len
            invariant
                i <= len,
                a@.len() == len,
                b@.len() == len,
                limbs_small(a@),
                limbs_small(b@),
                limbs@.len() == i,
                limbs_small(limbs@),
                carry <= 1,
                limbs_value(limbs@) + carry * pow2((32 * i) as nat) == limbs_value(
                    a@.take(i as int),
                ) + limbs_value(b@.take(i as int)),
            decreases len - i,
        {
            let total: u64 = a[i] + b[i] + carry;
            let low: u64 = total % 0x1_0000_0000;
            let high: u64 = total / 0x1_0000_0000;
            let ghost before = limbs@;
            limbs.push(low);
            proof {
                assert(limbs@.drop_last() =~= before);
                lemma_value_take_step(a@, i as int);
                lemma_value_take_step(b@, i as int);
                lemma_weight_step(i as nat);
                let w = pow2((32 * i) as nat);
                let x = a@[i as int] as nat;
                let y = b@[i as int] as nat;
                let c = carry as nat;
                let l = low as nat;
                let h = high as nat;
                assert(x + y + c == 0x1_0000_0000 * h + l);
                assert(l * w + h * (0x1_0000_0000 * w) == c * w + x * w + y * w)
                    by (nonlinear_arith)
                    requires
                        x + y + c == 0x1_0000_0000 * h + l,
                ;
            }
            carry = high;
            i += 1;
        }
        proof {
            assert(a@.take(len as int) =~= a@);
            assert(b@.take(len as int) =~= b@);
        }
        if carry > 0 {
            let ghost before = limbs@;
            limbs.push(carry);
            assert(limbs@.drop_last() =~= before);
        } else {
            assert(0 * pow2((32 * len) as nat) == 0) by (nonlinear_arith);
        }
        Work { limbs }
    }

    /// Whether this is more work than `other`.
    pub fn exceeds(&self, other: &Work) -> (more: bool)
        ensures
            more == (self@ > other@),
    {
        proof {
            use_type_invariant(self);
            use_type_invariant(other);
        }
        balance(&self.limbs, &other.limbs) == 1
    }

    /// Whether this is as much work as `other`.
    pub fn equals(&self, other: &Work) -> (same: bool)
        ensures
            same == (self@ == other@),
    {
        proof {
            use_type_invariant(self);
            use_type_invariant(other);
        }
        balance(&self.limbs, &other.limbs) == 0
    }
}

} // verus!
