use casper_types::U512;
use shield_vault::Amount;

fn samples() -> Vec<[u64; 8]> {
    vec![
        [0, 0, 0, 0, 0, 0, 0, 0],
        [1, 0, 0, 0, 0, 0, 0, 0],
        [1000, 0, 0, 0, 0, 0, 0, 0],
        [u64::MAX, 0, 0, 0, 0, 0, 0, 0],
        [0, 1, 0, 0, 0, 0, 0, 0],
        [u64::MAX, 1, 0, 0, 0, 0, 0, 0],
        [5, 0, 0, 7, 0, 0, 0, 0],
        [6, 0, 0, 7, 0, 0, 0, 0],
        [0, 0, 0, 0, 0, 0, 0, 1],
        [u64::MAX, u64::MAX, u64::MAX, u64::MAX, u64::MAX, u64::MAX, u64::MAX, 0],
        [9, 0, 0, 0, 0, 0, 0, 1],
        [u64::MAX; 8],
    ]
}

#[test]
fn from_u64_fills_the_lowest_limb() {
    assert_eq!(Amount::from_u64(0).limbs, [0; 8]);
    assert_eq!(Amount::from_u64(500).limbs, [500, 0, 0, 0, 0, 0, 0, 0]);
    assert_eq!(Amount::from_u64(u64::MAX).limbs, [u64::MAX, 0, 0, 0, 0, 0, 0, 0]);
    assert_eq!(Amount::from_u64(1000), Amount::from_limbs([1000, 0, 0, 0, 0, 0, 0, 0]));
    assert_eq!(U512(Amount::from_u64(10000).limbs), U512::from(10000u64));
}

#[test]
fn gt_is_strict() {
    let small = Amount::from_u64(1000);
    let large = Amount::from_u64(1001);
    assert!(large.gt(&small));
    assert!(!small.gt(&large));
    assert!(!small.gt(&small));
}

#[test]
fn gt_weighs_higher_limbs_more() {
    let low = Amount::from_limbs([u64::MAX, 0, 0, 0, 0, 0, 0, 0]);
    let high = Amount::from_limbs([0, 1, 0, 0, 0, 0, 0, 0]);
    assert!(high.gt(&low));
    assert!(!low.gt(&high));
    let top = Amount::from_limbs([0, 0, 0, 0, 0, 0, 0, 1]);
    let rest = Amount::from_limbs([u64::MAX, u64::MAX, u64::MAX, u64::MAX, u64::MAX, u64::MAX, u64::MAX, 0]);
    assert!(top.gt(&rest));
    assert!(!rest.gt(&top));
}

#[test]
fn gt_agrees_with_u512() {
    for a in samples() {
        for b in samples() {
            assert_eq!(
                Amount::from_limbs(a).gt(&Amount::from_limbs(b)),
                U512(a) > U512(b)
            );
        }
    }
}

#[test]
fn equality_agrees_with_u512() {
    for a in samples() {
        for b in samples() {
            assert_eq!(Amount::from_limbs(a) == Amount::from_limbs(b), U512(a) == U512(b));
        }
    }
}
