use refined::boundable::unsigned::{ClosedInterval, LessThanEqual};
use refined::character::IsDigit;
use refined::{Predicate, Refined, Refinement, RefinementError, RefinementOps};

type FrobnicatorName = Refinement<String, ClosedInterval<1, 10>>;
type FrobnicatorSize = Refinement<u8, LessThanEqual<100>>;

#[derive(Debug)]
struct Frobnicator {
    name: FrobnicatorName,
    size: FrobnicatorSize,
}

impl Frobnicator {
    fn new(name: String, size: u8) -> Result<Frobnicator, RefinementError> {
        let name = FrobnicatorName::refine(name)?;
        let size = FrobnicatorSize::refine(size)?;
        Ok(Self { name, size })
    }
}

#[test]
fn frobnicator_accepts_good_values() {
    let f = Frobnicator::new("Good name".to_string(), 99).unwrap();
    assert_eq!(*f.name, "Good name");
    assert_eq!(*f.size, 99);
}

#[test]
fn frobnicator_reports_the_long_name() {
    assert_eq!(
        Frobnicator::new("Bad name, too long".to_string(), 99).unwrap_err().to_string(),
        "refinement violated: must be greater than or equal to 1 and must be less than or equal to 10"
    );
}

#[test]
fn frobnicator_reports_the_large_size() {
    assert_eq!(
        Frobnicator::new("Good name".to_string(), 123).unwrap_err().to_string(),
        "refinement violated: must be less than or equal to 100"
    );
}

#[test]
fn digit_is_refined_and_letter_is_refused() {
    type Digit = Refinement<char, IsDigit>;
    assert_eq!(*Digit::refine('0').unwrap(), '0');
    let e = Digit::refine('a').unwrap_err();
    assert_eq!(e.message(), "must be a digit");
    assert_eq!(e.to_string(), "refinement violated: must be a digit");
}

#[test]
fn refine_succeeds_exactly_where_the_test_does() {
    for v in 0u8..=255 {
        let accepted = <LessThanEqual<100> as Predicate<u8>>::test(&v);
        match FrobnicatorSize::refine(v) {
            Ok(r) => {
                assert!(accepted);
                assert_eq!(*r, v);
            }
            Err(e) => {
                assert!(!accepted);
                assert_eq!(e.message(), <LessThanEqual<100> as Predicate<u8>>::error());
            }
        }
    }
}

#[test]
fn certify_agrees_with_refine() {
    for v in [0u8, 100, 101, 255] {
        let a = FrobnicatorSize::certify(Refined(v));
        let b = FrobnicatorSize::refine(v);
        assert_eq!(a, b);
    }
}

#[test]
fn replace_with_the_same_value_succeeds() {
    for v in [0u8, 1, 50, 100] {
        let r = FrobnicatorSize::refine(v).unwrap();
        let same = *r;
        let again = r.replace(same).unwrap();
        assert_eq!(*again, v);
    }
}

#[test]
fn replace_tests_the_new_value() {
    let r = FrobnicatorSize::refine(5).unwrap();
    let r = r.replace(100).unwrap();
    assert_eq!(*r, 100);
    let e = r.replace(101).unwrap_err();
    assert_eq!(e.message(), "must be less than or equal to 100");
}

#[test]
fn modify_within_range_keeps_a_refinement() {
    type Level = Refinement<u8, ClosedInterval<1, 10>>;
    let r = Level::refine(4).unwrap();
    let r = r.modify(|v| v * 2).unwrap();
    assert_eq!(*r, 8);
}

#[test]
fn modify_out_of_range_fails() {
    type Level = Refinement<u8, ClosedInterval<1, 10>>;
    let r = Level::refine(9).unwrap();
    let e = r.modify(|v| v + 2).unwrap_err();
    assert_eq!(
        e.to_string(),
        "refinement violated: must be greater than or equal to 1 and must be less than or equal to 10"
    );
}

#[test]
fn take_and_extract_return_the_value() {
    let r = FrobnicatorName::refine("abc".to_string()).unwrap();
    assert_eq!(r.take(), "abc");
    let r = FrobnicatorName::refine("xyz".to_string()).unwrap();
    assert_eq!(r.extract(), "xyz");
}

#[test]
fn empty_name_is_refused() {
    assert!(FrobnicatorName::refine(String::new()).is_err());
    assert!(FrobnicatorName::refine("a".to_string()).is_ok());
    assert!(FrobnicatorName::refine("0123456789".to_string()).is_ok());
    assert!(FrobnicatorName::refine("0123456789a".to_string()).is_err());
}

#[test]
fn errors_compare_by_message() {
    let a = FrobnicatorSize::refine(200).unwrap_err();
    let b = FrobnicatorSize::refine(201).unwrap_err();
    assert_eq!(a, b);
    assert_eq!(a.clone(), a);
}
