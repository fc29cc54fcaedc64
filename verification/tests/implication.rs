use refined::boundable::signed;
use refined::boundable::signed::{Neg, Pos};
use refined::boundable::unsigned::{
    ClosedInterval, GreaterThan, GreaterThanEqual, LessThan, LessThanEqual, OpenInterval,
};
use refined::implication::{decide_implies, Bounds, Ranged};
use refined::{Predicate, Refinement, RefinementOps};

fn takes_lt_100(value: Refinement<u8, LessThan<100>>) -> String {
    (*value).to_string()
}

#[test]
fn narrower_bound_implies_wider() {
    let lt_50: Refinement<u8, LessThan<50>> = Refinement::refine(49).unwrap();
    let lt_51: Refinement<u8, LessThan<51>> = lt_50.imply();
    assert_eq!(*lt_51, 49);
    assert_eq!(takes_lt_100(lt_51.imply()), "49");
}

#[test]
fn smaller_range_implies_bigger_range() {
    let bigger_range: Refinement<u8, OpenInterval<1, 100>> = Refinement::refine(50).unwrap();
    let smaller_range: Refinement<u8, OpenInterval<25, 75>> = Refinement::refine(50).unwrap();
    assert_eq!(bigger_range, smaller_range.imply());
}

#[test]
fn literal_bounds() {
    assert_eq!(<LessThan<10> as Ranged<u8>>::bounds(), Bounds { low: None, high: Some(9) });
    assert_eq!(<LessThanEqual<10> as Ranged<u8>>::bounds(), Bounds { low: None, high: Some(10) });
    assert_eq!(<GreaterThan<10> as Ranged<u8>>::bounds(), Bounds { low: Some(11), high: None });
    assert_eq!(
        <GreaterThanEqual<10> as Ranged<u8>>::bounds(),
        Bounds { low: Some(10), high: None }
    );
    assert_eq!(
        <OpenInterval<1, 100> as Ranged<u8>>::bounds(),
        Bounds { low: Some(2), high: Some(99) }
    );
    assert_eq!(
        <ClosedInterval<1, 100> as Ranged<u8>>::bounds(),
        Bounds { low: Some(1), high: Some(100) }
    );
    assert_eq!(
        <GreaterThan<18446744073709551615> as Ranged<u64>>::bounds(),
        Bounds { low: Some(18446744073709551616), high: None }
    );
    assert_eq!(
        <signed::LessThan<Neg<18446744073709551615>> as Ranged<i64>>::bounds(),
        Bounds { low: None, high: Some(-18446744073709551616) }
    );
    assert_eq!(
        <signed::ClosedInterval<Neg<5>, Pos<7>> as Ranged<i8>>::bounds(),
        Bounds { low: Some(-5), high: Some(7) }
    );
    assert_eq!(
        <signed::OpenInterval<Neg<5>, Pos<7>> as Ranged<i8>>::bounds(),
        Bounds { low: Some(-4), high: Some(6) }
    );
}

#[test]
fn bounds_contain_and_lie_within() {
    let a = Bounds { low: Some(25), high: Some(75) };
    let b = Bounds { low: Some(1), high: Some(100) };
    let up = Bounds { low: Some(1), high: None };
    let down = Bounds { low: None, high: Some(100) };
    let all = Bounds { low: None, high: None };
    assert!(a.within(&b));
    assert!(!b.within(&a));
    assert!(a.within(&a));
    assert!(a.within(&up) && a.within(&down) && a.within(&all));
    assert!(!up.within(&a) && !down.within(&b) && !all.within(&up));
    assert!(up.within(&all) && down.within(&all) && all.within(&all));
    assert!(a.contains(25) && a.contains(75) && !a.contains(24) && !a.contains(76));
    assert!(up.contains(i128::MAX) && !up.contains(0));
    assert!(down.contains(i128::MIN) && !down.contains(101));
    assert_eq!(a.meet(&b), a);
    assert_eq!(up.meet(&down), b);
    assert_eq!(all.meet(&a), a);
    assert_eq!(
        Bounds { low: Some(1), high: Some(50) }.meet(&Bounds { low: Some(25), high: Some(75) }),
        Bounds { low: Some(25), high: Some(50) }
    );
}

#[test]
fn implication_is_decided_from_the_literals() {
    assert!(decide_implies::<u8, LessThan<50>, LessThan<100>>());
    assert!(decide_implies::<u8, LessThan<50>, LessThan<50>>());
    assert!(!decide_implies::<u8, LessThan<100>, LessThan<50>>());
    assert!(decide_implies::<u8, LessThan<50>, LessThanEqual<49>>());
    assert!(!decide_implies::<u8, LessThanEqual<50>, LessThan<50>>());
    assert!(decide_implies::<u8, GreaterThan<50>, GreaterThanEqual<51>>());
    assert!(!decide_implies::<u8, GreaterThan<50>, GreaterThan<51>>());
    assert!(decide_implies::<u8, ClosedInterval<25, 75>, ClosedInterval<1, 100>>());
    assert!(!decide_implies::<u8, ClosedInterval<1, 100>, ClosedInterval<25, 75>>());
    assert!(!decide_implies::<u8, ClosedInterval<0, 75>, ClosedInterval<1, 100>>());
    assert!(!decide_implies::<u8, ClosedInterval<25, 101>, ClosedInterval<1, 100>>());
    assert!(decide_implies::<u8, ClosedInterval<25, 75>, LessThan<76>>());
    assert!(decide_implies::<u8, ClosedInterval<25, 75>, GreaterThan<24>>());
    assert!(!decide_implies::<u8, LessThan<76>, ClosedInterval<25, 75>>());
    assert!(!decide_implies::<u8, LessThan<50>, GreaterThan<10>>());
    assert!(decide_implies::<
        i8,
        signed::ClosedInterval<Neg<5>, Pos<5>>,
        signed::ClosedInterval<Neg<6>, Pos<5>>,
    >());
    assert!(!decide_implies::<
        i8,
        signed::ClosedInterval<Neg<6>, Pos<5>>,
        signed::ClosedInterval<Neg<5>, Pos<5>>,
    >());
    assert!(decide_implies::<i8, signed::LessThan<Neg<5>>, signed::LessThan<Pos<5>>>());
    assert!(!decide_implies::<i8, signed::LessThan<Pos<5>>, signed::LessThan<Neg<5>>>());
}

fn sound_on_samples<A: Ranged<u8>, B: Ranged<u8>>(samples: &[u8]) {
    if decide_implies::<u8, A, B>() {
        for v in samples {
            if <A as Predicate<u8>>::test(v) {
                assert!(<B as Predicate<u8>>::test(v));
            }
        }
    }
}

#[test]
fn implication_is_sound_on_samples() {
    let samples: Vec<u8> = (0u8..=255).collect();
    sound_on_samples::<ClosedInterval<25, 75>, ClosedInterval<1, 100>>(&samples);
    sound_on_samples::<ClosedInterval<25, 75>, ClosedInterval<25, 75>>(&samples);
    sound_on_samples::<OpenInterval<25, 75>, ClosedInterval<26, 74>>(&samples);
    sound_on_samples::<LessThan<50>, LessThanEqual<49>>(&samples);
    sound_on_samples::<GreaterThanEqual<200>, GreaterThan<199>>(&samples);
    sound_on_samples::<ClosedInterval<1, 100>, ClosedInterval<25, 75>>(&samples);
    assert!(decide_implies::<u8, ClosedInterval<25, 75>, ClosedInterval<1, 100>>());
    for v in [25u8, 26, 50, 74, 75] {
        assert!(<ClosedInterval<25, 75> as Predicate<u8>>::test(&v));
        assert!(<ClosedInterval<1, 100> as Predicate<u8>>::test(&v));
    }
}

#[test]
fn widen_goes_one_way_only() {
    let narrow: Refinement<u8, ClosedInterval<25, 75>> = Refinement::refine(30).unwrap();
    let wide: Refinement<u8, ClosedInterval<1, 100>> = narrow.widen().unwrap();
    assert_eq!(*wide, 30);
    let back: Result<Refinement<u8, ClosedInterval<25, 75>>, _> = wide.widen();
    let kept = back.unwrap_err();
    assert_eq!(*kept, 30);
}

#[test]
fn widen_signed() {
    let narrow: Refinement<i32, signed::OpenInterval<Neg<10>, Pos<10>>> =
        Refinement::refine(-9).unwrap();
    let wide: Refinement<i32, signed::GreaterThanEqual<Neg<9>>> = narrow.widen().unwrap();
    assert_eq!(*wide, -9);
    let refused: Result<Refinement<i32, signed::GreaterThan<Neg<9>>>, _> = wide.widen();
    assert!(refused.is_err());
}
