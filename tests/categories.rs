use categories::morphism::{
    check_eq_morphisms, compose, Composite, Constant, HomSet, Identity, Morphism,
};
use categories::object::{PowerObjectGenerator, PowerObjectType};
use categories::term::{ArrowKind, Term, TermArrow, TermGenerator};

fn name(s: &str) -> Term {
    Term::Name(s.to_string())
}

fn constant(domain: &str, codomain: &str, value: &str) -> Constant<Term, Term> {
    Constant { domain: name(domain), codomain: name(codomain), value: name(value) }
}

#[test]
fn object_equality_is_an_equivalence() {
    let a = name("Point");
    let b = name("Point");
    let c = a.clone();
    let d = name("Line");
    assert!(a == a);
    assert!(a == b && b == a);
    assert!(a == b && b == c && a == c);
    assert!(a != d && d != a);
    let p = Term::Pair(Box::new(name("Point")), Box::new(name("Line")));
    let q = Term::Pair(Box::new(name("Point")), Box::new(name("Line")));
    let r = Term::Pair(Box::new(name("Line")), Box::new(name("Point")));
    assert_eq!(p, q);
    assert_ne!(p, r);
    assert_ne!(Term::Left(Box::new(name("x"))), Term::Right(Box::new(name("x"))));
}

#[test]
fn clone_keeps_the_term() {
    let t = Term::Apply(
        Box::new(Term::Power(Box::new(name("A")), Box::new(name("B")))),
        Box::new(Term::Sum(Box::new(name("A")), Box::new(name("B")))),
    );
    assert_eq!(t.clone(), t);
    assert!(t.same(&t.duplicate()));
}

#[test]
fn check_eq_morphisms_point_line() {
    let f = constant("Point", "Line", "Line");
    assert!(check_eq_morphisms(&f, &f));
    let g = constant("Point", "Line", "OtherLine");
    assert!(!check_eq_morphisms(&f, &g));
    assert!(!check_eq_morphisms(&g, &f));
}

#[test]
fn check_eq_morphisms_compares_endpoints() {
    let f = constant("Point", "Line", "Line");
    let other_domain = constant("Plane", "Line", "Line");
    let other_codomain = constant("Point", "Plane", "Line");
    let same = constant("Point", "Line", "Line");
    assert!(!check_eq_morphisms(&f, &other_domain));
    assert!(!check_eq_morphisms(&f, &other_codomain));
    assert!(check_eq_morphisms(&f, &same));
}

#[test]
fn check_eq_morphisms_is_reflexive() {
    let id = Identity { object: name("A") };
    assert!(check_eq_morphisms(&id, &id));
    let pi = TermArrow {
        kind: ArrowKind::First,
        domain: Term::Pair(Box::new(name("A")), Box::new(name("B"))),
        codomain: name("A"),
    };
    assert!(check_eq_morphisms(&pi, &pi));
    let n = Constant { domain: 3u64, codomain: 4u64, value: 5u64 };
    assert!(check_eq_morphisms(&n, &n));
}

#[test]
fn compose_returns_final_value() {
    let f = constant("a", "b", "b");
    let g = constant("b", "c", "c");
    assert_eq!(compose(&name("a"), &f, &g), name("c"));
}

#[test]
fn compose_on_integers() {
    let f = Constant { domain: 1u64, codomain: 2u64, value: 20u64 };
    let g = Constant { domain: 2u64, codomain: 3u64, value: 30u64 };
    assert_eq!(compose(&1u64, &f, &g), 30u64);
    assert_eq!(f.map(&1u64), 20u64);
}

fn arrow(kind: ArrowKind, domain: Term, codomain: Term) -> TermArrow {
    TermArrow { kind, domain, codomain }
}

fn pair_ab() -> Term {
    Term::Pair(Box::new(name("A")), Box::new(name("B")))
}

fn sum_ac() -> Term {
    Term::Sum(Box::new(name("A")), Box::new(name("C")))
}

fn sum_d() -> Term {
    Term::Sum(Box::new(name("D")), Box::new(sum_ac()))
}

#[test]
fn compose_is_associative() {
    let start = Term::Pair(Box::new(name("x")), Box::new(name("y")));
    let f = || arrow(ArrowKind::First, pair_ab(), name("A"));
    let g = || arrow(ArrowKind::InjectFirst, name("A"), sum_ac());
    let h = || arrow(ArrowKind::InjectSecond, sum_ac(), sum_d());
    let left = compose(&start, &Composite { first: f(), second: g() }, &h());
    let right = compose(&start, &f(), &Composite { first: g(), second: h() });
    assert_eq!(left, right);
    assert_eq!(left, Term::Right(Box::new(Term::Left(Box::new(name("x"))))));
    let whole = Composite { first: Composite { first: f(), second: g() }, second: h() };
    assert_eq!(whole.map(&start), left);
    assert_eq!(whole.domain(), &pair_ab());
    assert_eq!(whole.codomain(), &sum_d());
}

#[test]
fn identity_is_neutral() {
    let f = constant("A", "B", "b");
    let id_a = Identity { object: name("A") };
    let id_b = Identity { object: name("B") };
    let a = name("a");
    assert_eq!(compose(&a, &id_a, &f), f.map(&a));
    assert_eq!(compose(&a, &f, &id_b), f.map(&a));
    assert_eq!(id_a.map(&a), a);
    assert_eq!(id_a.domain(), id_a.codomain());
}

#[test]
fn product_projections_have_the_factors_as_codomains() {
    let a = name("Point");
    let b = name("Line");
    let objects = vec![a.clone(), b.clone()];
    let (p, arrows) = TermGenerator.generate_power_object(&PowerObjectType::Product(0, 1), &objects);
    assert_eq!(arrows.len(), 2);
    assert_eq!(arrows[0].domain(), &p);
    assert_eq!(arrows[1].domain(), &p);
    assert_eq!(arrows[0].codomain(), &a);
    assert_eq!(arrows[1].codomain(), &b);
    assert_eq!(p, Term::Pair(Box::new(a), Box::new(b)));
}

#[test]
fn product_projections_recover_components() {
    let objects = vec![name("A"), name("B"), name("C")];
    let (_, arrows) = TermGenerator.generate_power_object(&PowerObjectType::Product(2, 0), &objects);
    let x = name("c1");
    let y = Term::Left(Box::new(name("a1")));
    let pair = Term::Pair(Box::new(x.clone()), Box::new(y.clone()));
    assert_eq!(arrows[0].map(&pair), x);
    assert_eq!(arrows[1].map(&pair), y);
    assert_eq!(arrows[0].codomain(), &name("C"));
    assert_eq!(arrows[1].codomain(), &name("A"));
}

#[test]
fn projection_of_a_non_pair_gives_its_codomain() {
    let objects = vec![name("A"), name("B")];
    let (_, arrows) = TermGenerator.generate_power_object(&PowerObjectType::Product(0, 1), &objects);
    assert_eq!(arrows[0].map(&name("z")), name("A"));
    assert_eq!(arrows[1].map(&name("z")), name("B"));
}

#[test]
fn coproduct_injections_stay_apart() {
    let a = name("A");
    let b = name("B");
    let objects = vec![a.clone(), b.clone()];
    let (s, arrows) =
        TermGenerator.generate_power_object(&PowerObjectType::Coproduct(0, 1), &objects);
    assert_eq!(arrows.len(), 2);
    assert_eq!(s, Term::Sum(Box::new(a.clone()), Box::new(b.clone())));
    assert_eq!(arrows[0].domain(), &a);
    assert_eq!(arrows[1].domain(), &b);
    assert_eq!(arrows[0].codomain(), &s);
    assert_eq!(arrows[1].codomain(), &s);
    let x = name("v");
    let left = arrows[0].map(&x);
    let right = arrows[1].map(&x);
    assert_ne!(left, right);
    assert_eq!(left, Term::Left(Box::new(x.clone())));
    assert_eq!(right, Term::Right(Box::new(x)));
}

#[test]
fn coproduct_of_an_object_with_itself() {
    let objects = vec![name("A")];
    let (s, arrows) =
        TermGenerator.generate_power_object(&PowerObjectType::Coproduct(0, 0), &objects);
    assert_eq!(s, Term::Sum(Box::new(name("A")), Box::new(name("A"))));
    assert_eq!(arrows[0].domain(), arrows[1].domain());
    assert!(!check_eq_morphisms(&arrows[0], &arrows[1]));
}

#[test]
fn exponential_has_one_evaluation_morphism() {
    let a = name("A");
    let b = name("B");
    let objects = vec![a.clone(), b.clone()];
    let (e, arrows) =
        TermGenerator.generate_power_object(&PowerObjectType::Exponential(0, 1), &objects);
    assert_eq!(arrows.len(), 1);
    assert_eq!(e, Term::Power(Box::new(a.clone()), Box::new(b.clone())));
    assert_eq!(arrows[0].domain(), &Term::Pair(Box::new(e.clone()), Box::new(a.clone())));
    assert_eq!(arrows[0].codomain(), &b);
    let f = name("f");
    let x = name("x");
    let arg = Term::Pair(Box::new(f.clone()), Box::new(x.clone()));
    assert_eq!(arrows[0].map(&arg), Term::Apply(Box::new(f), Box::new(x)));
    assert_eq!(arrows[0].map(&name("x")), b);
}

#[test]
fn hom_set_holds_morphisms_between_two_objects() {
    let mut homs: HomSet<Constant<Term, Term>> = Vec::new();
    homs.push(constant("A", "B", "b1"));
    homs.push(constant("A", "B", "b2"));
    homs.push(constant("A", "B", "b1"));
    assert_eq!(homs.len(), 3);
    assert!(check_eq_morphisms(&homs[0], &homs[2]));
    assert!(!check_eq_morphisms(&homs[0], &homs[1]));
}

#[test]
fn power_object_types_compare_by_kind_and_indices() {
    assert_eq!(PowerObjectType::Product(0, 1), PowerObjectType::Product(0, 1));
    assert_ne!(PowerObjectType::Product(0, 1), PowerObjectType::Product(1, 0));
    assert_ne!(PowerObjectType::Product(0, 1), PowerObjectType::Coproduct(0, 1));
    assert_ne!(PowerObjectType::Coproduct(0, 1), PowerObjectType::Exponential(0, 1));
}
