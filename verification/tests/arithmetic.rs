use refined::arithmetic::{
    signed_add, signed_div, signed_mul, signed_sub, unsigned_add, unsigned_div, unsigned_mul,
    unsigned_sub, SignedNumber, UnsignedNumber,
};
use refined::boundable::signed;
use refined::boundable::signed::{Neg, Pos};
use refined::boundable::unsigned::{ClosedInterval, GreaterThan, LessThan, LessThanEqual};
use refined::{Predicate, Refinement, RefinementOps};

type SkillLevel = Refinement<u8, ClosedInterval<1, 10>>;

fn couple_skill(a: SkillLevel, b: SkillLevel) -> Refinement<u8, ClosedInterval<2, 20>> {
    unsigned_add(a, b)
}

#[test]
fn skills_add_up() {
    let tom_skill = SkillLevel::refine(9).unwrap();
    let sally_skill = SkillLevel::refine(6).unwrap();
    assert_eq!(*couple_skill(tom_skill, sally_skill), 15);
}

#[test]
fn sums_stay_in_the_sum_of_the_intervals() {
    for x in 1u8..=10 {
        for y in 1u8..=10 {
            let sum = couple_skill(SkillLevel::refine(x).unwrap(), SkillLevel::refine(y).unwrap());
            assert_eq!(*sum, x + y);
            assert!(<ClosedInterval<2, 20> as Predicate<u8>>::test(&sum));
        }
    }
}

#[test]
fn signed_sum_of_upper_bounds() {
    type LT100 = Refinement<i16, signed::LessThan<Pos<100>>>;
    type LT50 = Refinement<i16, signed::LessThan<Pos<50>>>;
    let result: Refinement<i16, signed::LessThan<Pos<149>>> =
        signed_add(LT100::refine(99).unwrap(), LT50::refine(49).unwrap());
    assert_eq!(*result, 148);
}

#[test]
fn unsigned_sum_of_upper_bounds() {
    type LT100 = Refinement<u8, LessThan<100>>;
    type LT50 = Refinement<u8, LessThan<50>>;
    let result: Refinement<u8, LessThan<149>> =
        unsigned_add(LT100::refine(99).unwrap(), LT50::refine(49).unwrap());
    assert_eq!(*result, 148);
}

#[test]
fn unsigned_sum_of_lower_bounds() {
    type GT5 = Refinement<u32, GreaterThan<5>>;
    let result: Refinement<u32, GreaterThan<11>> =
        unsigned_add(GT5::refine(6).unwrap(), GT5::refine(6).unwrap());
    assert_eq!(*result, 12);
}

#[test]
fn unsigned_difference() {
    type High = Refinement<u16, ClosedInterval<10, 20>>;
    type Low = Refinement<u16, ClosedInterval<1, 5>>;
    let result: Refinement<u16, ClosedInterval<5, 19>> =
        unsigned_sub(High::refine(10).unwrap(), Low::refine(5).unwrap());
    assert_eq!(*result, 5);
    let result: Refinement<u16, ClosedInterval<5, 19>> =
        unsigned_sub(High::refine(20).unwrap(), Low::refine(1).unwrap());
    assert_eq!(*result, 19);
}

#[test]
fn unsigned_product() {
    type A = Refinement<u64, ClosedInterval<2, 3>>;
    type B = Refinement<u64, LessThanEqual<7>>;
    let result: Refinement<u64, LessThanEqual<21>> =
        unsigned_mul(A::refine(3).unwrap(), B::refine(7).unwrap());
    assert_eq!(*result, 21);
    let result: Refinement<u64, LessThanEqual<21>> =
        unsigned_mul(A::refine(2).unwrap(), B::refine(0).unwrap());
    assert_eq!(*result, 0);
}

#[test]
fn unsigned_quotient() {
    type A = Refinement<usize, ClosedInterval<10, 100>>;
    type B = Refinement<usize, ClosedInterval<2, 5>>;
    let result: Refinement<usize, ClosedInterval<2, 50>> =
        unsigned_div(A::refine(100).unwrap(), B::refine(2).unwrap());
    assert_eq!(*result, 50);
    let result: Refinement<usize, ClosedInterval<2, 50>> =
        unsigned_div(A::refine(10).unwrap(), B::refine(5).unwrap());
    assert_eq!(*result, 2);
    let result: Refinement<usize, ClosedInterval<2, 50>> =
        unsigned_div(A::refine(17).unwrap(), B::refine(3).unwrap());
    assert_eq!(*result, 5);
}

#[test]
fn signed_difference() {
    type A = Refinement<i8, signed::ClosedInterval<Neg<10>, Pos<10>>>;
    type B = Refinement<i8, signed::ClosedInterval<Neg<3>, Pos<4>>>;
    let result: Refinement<i8, signed::ClosedInterval<Neg<14>, Pos<13>>> =
        signed_sub(A::refine(-10).unwrap(), B::refine(4).unwrap());
    assert_eq!(*result, -14);
    let result: Refinement<i8, signed::ClosedInterval<Neg<14>, Pos<13>>> =
        signed_sub(A::refine(10).unwrap(), B::refine(-3).unwrap());
    assert_eq!(*result, 13);
}

#[test]
fn signed_product() {
    type A = Refinement<i32, signed::ClosedInterval<Neg<5>, Pos<3>>>;
    type B = Refinement<i32, signed::ClosedInterval<Neg<2>, Pos<4>>>;
    type R = Refinement<i32, signed::ClosedInterval<Neg<20>, Pos<12>>>;
    for x in -5i32..=3 {
        for y in -2i32..=4 {
            let result: R = signed_mul(A::refine(x).unwrap(), B::refine(y).unwrap());
            assert_eq!(*result, x * y);
            assert!((-20..=12).contains(&*result));
        }
    }
}

#[test]
fn signed_quotient_rounds_towards_zero() {
    type A = Refinement<i64, signed::ClosedInterval<Neg<7>, Pos<7>>>;
    type B = Refinement<i64, signed::ClosedInterval<Neg<2>, Pos<2>>>;
    type R = Refinement<i64, signed::ClosedInterval<Neg<7>, Pos<7>>>;
    let q: R = signed_div(A::refine(7).unwrap(), B::refine(2).unwrap());
    assert_eq!(*q, 3);
    let q: R = signed_div(A::refine(-7).unwrap(), B::refine(2).unwrap());
    assert_eq!(*q, -3);
    let q: R = signed_div(A::refine(7).unwrap(), B::refine(-2).unwrap());
    assert_eq!(*q, -3);
    let q: R = signed_div(A::refine(-7).unwrap(), B::refine(-2).unwrap());
    assert_eq!(*q, 3);
    let q: R = signed_div(A::refine(-7).unwrap(), B::refine(-1).unwrap());
    assert_eq!(*q, 7);
}

#[test]
fn signed_quotient_by_divisors_of_one_sign() {
    type A = Refinement<i16, signed::ClosedInterval<Neg<9>, Pos<20>>>;
    type B = Refinement<i16, signed::ClosedInterval<Neg<5>, Neg<2>>>;
    type R = Refinement<i16, signed::ClosedInterval<Neg<10>, Pos<4>>>;
    for x in -9i16..=20 {
        for y in -5i16..=-2 {
            let q: R = signed_div(A::refine(x).unwrap(), B::refine(y).unwrap());
            assert_eq!(*q, x / y);
            assert!((-10..=4).contains(&*q));
        }
    }
}

#[test]
fn numbers_of_every_width() {
    assert_eq!(200u8.sum(55), 255);
    assert_eq!(200u8.difference(200), 0);
    assert_eq!(15u8.product(17), 255);
    assert_eq!(255u8.quotient(2), 127);
    assert_eq!(60_000u16.sum(5_535), 65_535);
    assert_eq!(7u16.difference(3), 4);
    assert_eq!(255u16.product(257), 65_535);
    assert_eq!(9u16.quotient(4), 2);
    assert_eq!(4_000_000_000u32.sum(294_967_295), u32::MAX);
    assert_eq!(7u32.difference(3), 4);
    assert_eq!(65_535u32.product(65_537), u32::MAX);
    assert_eq!(9u32.quotient(4), 2);
    assert_eq!((u64::MAX - 1).sum(1), u64::MAX);
    assert_eq!(u64::MAX.difference(1), u64::MAX - 1);
    assert_eq!(4_294_967_295u64.product(4_294_967_297), u64::MAX);
    assert_eq!(u64::MAX.quotient(u64::MAX), 1);
    assert_eq!(3usize.sum(4), 7);
    assert_eq!(4usize.difference(3), 1);
    assert_eq!(3usize.product(4), 12);
    assert_eq!(13usize.quotient(4), 3);
    assert_eq!((-100i8).sum(-28), -128);
    assert_eq!(100i8.difference(-27), 127);
    assert_eq!((-64i8).product(2), -128);
    assert_eq!((-128i8).quotient(1), -128);
    assert_eq!((-7i16).sum(3), -4);
    assert_eq!((-7i16).difference(3), -10);
    assert_eq!((-7i16).product(3), -21);
    assert_eq!((-7i16).quotient(3), -2);
    assert_eq!((-7i32).sum(3), -4);
    assert_eq!((-7i32).difference(3), -10);
    assert_eq!((-7i32).product(-3), 21);
    assert_eq!((-7i32).quotient(-3), 2);
    assert_eq!(i64::MAX.sum(i64::MIN), -1);
    assert_eq!((-1i64).difference(i64::MAX), i64::MIN);
    assert_eq!(i64::MIN.product(1), i64::MIN);
    assert_eq!(i64::MAX.quotient(-1), -i64::MAX);
    assert_eq!(7isize.sum(-3), 4);
    assert_eq!(7isize.difference(-3), 10);
    assert_eq!(7isize.product(-3), -21);
    assert_eq!(7isize.quotient(-3), -2);
}
