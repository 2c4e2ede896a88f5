use ccconsensus::wide::Work;

fn sum_of_powers(exponents: &[u32]) -> Work {
    let mut total = Work::zero();
    for exponent in exponents {
        total = total.add(&Work::pow2(*exponent));
    }
    total
}

#[test]
fn zero_is_below_every_power() {
    let zero = Work::zero();
    assert!(zero.equals(&Work::zero()));
    assert!(!zero.exceeds(&Work::zero()));
    for exponent in [0u32, 1, 31, 32, 63, 64, 255, 256] {
        assert!(Work::pow2(exponent).exceeds(&zero));
        assert!(!zero.exceeds(&Work::pow2(exponent)));
    }
}

#[test]
fn powers_are_ordered_by_their_exponent() {
    let exponents = [0u32, 1, 2, 31, 32, 33, 63, 64, 65, 127, 128, 255, 256, 300];
    for low in exponents {
        for high in exponents {
            let left = Work::pow2(low);
            let right = Work::pow2(high);
            assert_eq!(left.exceeds(&right), low > high);
            assert_eq!(left.equals(&right), low == high);
        }
    }
}

#[test]
fn doubling_a_power_gives_the_next() {
    for exponent in [0u32, 5, 31, 32, 63, 64, 95, 255] {
        let twice = Work::pow2(exponent).add(&Work::pow2(exponent));
        assert!(twice.equals(&Work::pow2(exponent + 1)));
    }
}

#[test]
fn sums_carry_over_limbs() {
    let mut total = Work::zero();
    for exponent in 0..64u32 {
        total = total.add(&Work::pow2(exponent));
    }
    assert!(Work::pow2(64).exceeds(&total));
    let full = total.add(&Work::pow2(0));
    assert!(full.equals(&Work::pow2(64)));
}

#[test]
fn addition_does_not_depend_on_order() {
    let left = sum_of_powers(&[3, 200, 64, 64, 7]);
    let right = sum_of_powers(&[64, 7, 3, 64, 200]);
    assert!(left.equals(&right));
    assert!(!left.exceeds(&right));
    let more = sum_of_powers(&[3, 200, 64, 64, 7, 0]);
    assert!(more.exceeds(&left));
    assert!(!left.exceeds(&more));
}

#[test]
fn small_sums_are_exact() {
    let total = sum_of_powers(&[0, 1, 1, 4]);
    assert!(total.equals(&sum_of_powers(&[0, 2, 4])));
    assert!(total.exceeds(&sum_of_powers(&[4, 2])));
    assert!(sum_of_powers(&[4, 2, 1]).exceeds(&total));
}

#[test]
fn many_heavy_blocks_do_not_overflow() {
    let mut total = Work::zero();
    for _ in 0..1000 {
        total = total.add(&Work::pow2(256));
    }
    assert!(total.exceeds(&Work::pow2(265)));
    assert!(Work::pow2(266).exceeds(&total));
}
