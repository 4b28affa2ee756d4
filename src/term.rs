use vstd::prelude::*;
use crate::morphism::Morphism;
use crate::object::{Object, PowerObjectGenerator, PowerObjectType};

verus! {

/// Objects and values of the free category of terms: named atoms, and the
/// terms that products, coproducts and exponentials build from them.
#[derive(Debug)]
pub enum Term {
    /// A named atom.
    Name(String),
    /// A product object, and a pair value.
    Pair(Box<Term>, Box<Term>),
    /// A coproduct object.
    Sum(Box<Term>, Box<Term>),
    /// A value injected into the first summand.
    Left(Box<Term>),
    /// A value injected into the second summand.
    Right(Box<Term>),
    /// An exponential object: morphisms from the first term to the second.
    Power(Box<Term>, Box<Term>),
    /// The application of a morphism value to an argument.
    Apply(Box<Term>, Box<Term>),
}

/// The model of a term: the same tree, with names as character sequences.
pub enum TermView {
    Name(Seq<char>),
    Pair(Box<TermView>, Box<TermView>),
    Sum(Box<TermView>, Box<TermView>),
    Left(Box<TermView>),
    Right(Box<TermView>),
    Power(Box<TermView>, Box<TermView>),
    Apply(Box<TermView>, Box<TermView>),
}

/// The model of `t`.
pub open spec fn term_view(t: Term) -> TermView
    decreases t,
{
    match t {
        Term::Name(s) => TermView::Name(s@),
        Term::Pair(a, b) => TermView::Pair(Box::new(term_view(*a)), Box::new(term_view(*b))),
        Term::Sum(a, b) => TermView::Sum(Box::new(term_view(*a)), Box::new(term_view(*b))),
        Term::Left(a) => TermView::Left(Box::new(term_view(*a))),
        Term::Right(a) => TermView::Right(Box::new(term_view(*a))),
        Term::Power(a, b) => TermView::Power(Box::new(term_view(*a)), Box::new(term_view(*b))),
        Term::Apply(a, b) => TermView::Apply(Box::new(term_view(*a)), Box::new(term_view(*b))),
    }
}

impl View for Term {
    type V = TermView;

    open spec fn view(&self) -> TermView {
        term_view(*self)
    }
}

impl Term {
    /// Whether two terms have the same model.
    pub fn same(&self, other: &Term) -> (r: bool)
        ensures
            r == (self@ == other@),
        decreases self,
    {
        match (self, other) {
            (Term::Name(a), Term::Name(b)) => *a == *b,
            (Term::Pair(a1, b1), Term::Pair(a2, b2)) => a1.same(a2) && b1.same(b2),
            (Term::Sum(a1, b1), Term::Sum(a2, b2)) => a1.same(a2) && b1.same(b2),
            (Term::Left(a1), Term::Left(a2)) => a1.same(a2),
            (Term::Right(a1), Term::Right(a2)) => a1.same(a2),
            (Term::Power(a1, b1), Term::Power(a2, b2)) => a1.same(a2) && b1.same(b2),
            (Term::Apply(a1, b1), Term::Apply(a2, b2)) => a1.same(a2) && b1.same(b2),
            _ => false,
        }
    }

    /// A copy of the term, with the same model.
    pub fn duplicate(&self) -> (r: Term)
        ensures
            r@ == self@,
        decreases self,
    {
        match self {
            Term::Name(s) => Term::Name(s.clone()),
            Term::Pair(a, b) => Term::Pair(Box::new(a.duplicate()), Box::new(b.duplicate())),
            Term::Sum(a, b) => Term::Sum(Box::new(a.duplicate()), Box::new(b.duplicate())),
            Term::Left(a) => Term::Left(Box::new(a.duplicate())),
            Term::Right(a) => Term::Right(Box::new(a.duplicate())),
            Term::Power(a, b) => Term::Power(Box::new(a.duplicate()), Box::new(b.duplicate())),
            Term::Apply(a, b) => Term::Apply(Box::new(a.duplicate()), Box::new(b.duplicate())),
        }
    }
}

impl PartialEq for Term {
    fn eq(&self, other: &Term) -> (r: bool) {
        self.same(other)
    }
}

impl vstd::std_specs::cmp::PartialEqSpecImpl for Term {
    open spec fn obeys_eq_spec() -> bool {
        true
    }

    open spec fn eq_spec(&self, other: &Term) -> bool {
        self@ == other@
    }
}

impl Clone for Term {
    fn clone(&self) -> (r: Term)
        ensures
            r@ == self@,
    {
        self.duplicate()
    }
}

impl Object for Term {
    proof fn lemma_object_laws() {
    }
}

/// What a morphism of the free category of terms does.
#[derive(Debug, Clone, Copy, PartialEq, Eq, Structural)]
pub enum ArrowKind {
    /// Takes the first component of a pair.
    First,
    /// Takes the second component of a pair.
    Second,
    /// Injects into the first summand.
    InjectFirst,
    /// Injects into the second summand.
    InjectSecond,
    /// Applies the first component of a pair to the second.
    Evaluate,
}

/// A morphism of the free category of terms.
#[derive(Debug)]
pub struct TermArrow {
    pub kind: ArrowKind,
    pub domain: Term,
    pub codomain: Term,
}

/// What a morphism of kind `kind` into `codomain` does to `x`. A projection
/// or an evaluation given something other than a pair yields the codomain.
pub open spec fn arrow_apply(kind: ArrowKind, codomain: TermView, x: TermView) -> TermView {
    match kind {
        ArrowKind::First => match x {
            TermView::Pair(a, _) => *a,
            _ => codomain,
        },
        ArrowKind::Second => match x {
            TermView::Pair(_, b) => *b,
            _ => codomain,
        },
        ArrowKind::InjectFirst => TermView::Left(Box::new(x)),
        ArrowKind::InjectSecond => TermView::Right(Box::new(x)),
        ArrowKind::Evaluate => match x {
            TermView::Pair(e, a) => TermView::Apply(e, a),
            _ => codomain,
        },
    }
}

impl Morphism for TermArrow {
    type Domain = Term;

    type Codomain = Term;

    open spec fn domain_view(&self) -> TermView {
        self.domain@
    }

    open spec fn codomain_view(&self) -> TermView {
        self.codomain@
    }

    open spec fn apply(&self, x: TermView) -> TermView {
        arrow_apply(self.kind, self.codomain@, x)
    }

    fn domain(&self) -> (r: &Term) {
        &self.domain
    }

    fn codomain(&self) -> (r: &Term) {
        &self.codomain
    }

    fn map(&self, domain: &Term) -> (r: Term) {
        match self.kind {
            ArrowKind::First => match domain {
                Term::Pair(a, _) => a.duplicate(),
                _ => self.codomain.duplicate(),
            },
            ArrowKind::Second => match domain {
                Term::Pair(_, b) => b.duplicate(),
                _ => self.codomain.duplicate(),
            },
            ArrowKind::InjectFirst => Term::Left(Box::new(domain.duplicate())),
            ArrowKind::InjectSecond => Term::Right(Box::new(domain.duplicate())),
            ArrowKind::Evaluate => match domain {
                Term::Pair(e, a) => Term::Apply(Box::new(e.duplicate()), Box::new(a.duplicate())),
                _ => self.codomain.duplicate(),
            },
        }
    }
}

/// Builds products, coproducts and exponentials of terms as terms: `Pair`,
/// `Sum` and `Power` of the two objects.
pub struct TermGenerator;

impl PowerObjectGenerator<Term> for TermGenerator {
    type Arrow = TermArrow;

    open spec fn pair(&self, first: TermView, second: TermView) -> TermView {
        TermView::Pair(Box::new(first), Box::new(second))
    }

    fn generate_power_object(&self, power_type: &PowerObjectType, objects: &[Term]) -> (r: (
        Term,
        Vec<TermArrow>,
    )) {
        let (i, j) = match *power_type {
            PowerObjectType::Product(i, j) => (i, j),
            PowerObjectType::Coproduct(i, j) => (i, j),
            PowerObjectType::Exponential(i, j) => (i, j),
        };
        let a = &objects[i];
        let b = &objects[j];
        match *power_type {
            PowerObjectType::Product(_, _) => {
                let p = Term::Pair(Box::new(a.duplicate()), Box::new(b.duplicate()));
                let first = TermArrow {
                    kind: ArrowKind::First,
                    domain: p.duplicate(),
                    codomain: a.duplicate(),
                };
                let second = TermArrow {
                    kind: ArrowKind::Second,
                    domain: p.duplicate(),
                    codomain: b.duplicate(),
                };
                (p, vec![first, second])
            },
            PowerObjectType::Coproduct(_, _) => {
                let s = Term::Sum(Box::new(a.duplicate()), Box::new(b.duplicate()));
                let first = TermArrow {
                    kind: ArrowKind::InjectFirst,
                    domain: a.duplicate(),
                    codomain: s.duplicate(),
                };
                let second = TermArrow {
                    kind: ArrowKind::InjectSecond,
                    domain: b.duplicate(),
                    codomain: s.duplicate(),
                };
                (s, vec![first, second])
            },
            PowerObjectType::Exponential(_, _) => {
                let e = Term::Power(Box::new(a.duplicate()), Box::new(b.duplicate()));
                let evaluation = TermArrow {
                    kind: ArrowKind::Evaluate,
                    domain: Term::Pair(Box::new(e.duplicate()), Box::new(a.duplicate())),
                    codomain: b.duplicate(),
                };
                (e, vec![evaluation])
            },
        }
    }
}

} // verus!
