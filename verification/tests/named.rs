use refined::boundable::unsigned::{ClosedInterval, LessThanEqual};
use refined::{Named, Refinement, RefinementError, RefinementOps, TypeString};

#[derive(Clone, Copy, Debug, PartialEq, Eq, PartialOrd, Ord, Hash, Default)]
struct Name;

impl TypeString for Name {
    fn text() -> vstd::seq::Seq<char> {
        unreachable!()
    }

    fn value() -> &'static str {
        "name"
    }
}

#[derive(Clone, Copy, Debug, PartialEq, Eq, PartialOrd, Ord, Hash, Default)]
struct Size;

impl TypeString for Size {
    fn text() -> vstd::seq::Seq<char> {
        unreachable!()
    }

    fn value() -> &'static str {
        "size"
    }
}

type FrobnicatorName = Named<Name, Refinement<String, ClosedInterval<1, 10>>>;
type FrobnicatorSize = Named<Size, Refinement<u8, LessThanEqual<100>>>;

fn frobnicator(name: String, size: u8) -> Result<(FrobnicatorName, FrobnicatorSize), RefinementError> {
    let name = FrobnicatorName::refine(name)?;
    let size = FrobnicatorSize::refine(size)?;
    Ok((name, size))
}

#[test]
fn lifted_strings_have_their_value() {
    assert_eq!(Name::value(), "name");
    assert_eq!(Size::value(), "size");
}

#[test]
fn named_refinement_accepts_good_values() {
    let (name, size) = frobnicator("Good name".to_string(), 99).unwrap();
    assert_eq!(name.take(), "Good name");
    assert_eq!(size.extract(), 99);
}

#[test]
fn named_refinement_names_the_field() {
    assert_eq!(
        frobnicator("Bad name, too long".to_string(), 99).unwrap_err().to_string(),
        "refinement violated: name must be greater than or equal to 1 and must be less than or equal to 10"
    );
    assert_eq!(
        frobnicator("Good name".to_string(), 123).unwrap_err().to_string(),
        "refinement violated: size must be less than or equal to 100"
    );
}

#[test]
fn named_refinement_is_modified_and_replaced() {
    let size = FrobnicatorSize::refine(50).unwrap();
    let size = size.modify(|v| v * 2).unwrap();
    let size = size.replace(7).unwrap();
    let e = size.replace(101).unwrap_err();
    assert_eq!(e.message(), "size must be less than or equal to 100");
}
