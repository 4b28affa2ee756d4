use vstd::prelude::*;
use crate::object::Object;
use vstd::pervasive::strictly_cloned;

verus! {

/// A morphism between objects of a category.
///
/// Its behaviour is given on models: `domain_view` and `codomain_view` are the
/// models of its two objects, and `apply` is what it does to the model of a
/// value. The executable methods are tied to these, so `map` is deterministic:
/// values with equal models are sent to values with equal models.
pub trait Morphism {
    type Domain: Object;
    type Codomain: Object;

    spec fn domain_view(&self) -> <Self::Domain as View>::V;

    spec fn codomain_view(&self) -> <Self::Codomain as View>::V;

    spec fn apply(&self, x: <Self::Domain as View>::V) -> <Self::Codomain as View>::V;

    fn domain(&self) -> (r: &Self::Domain)
        ensures
            r@ == self.domain_view(),
    ;

    fn codomain(&self) -> (r: &Self::Codomain)
        ensures
            r@ == self.codomain_view(),
    ;

    fn map(&self, domain: &Self::Domain) -> (r: Self::Codomain)
        ensures
            r@ == self.apply(domain@),
    ;
}

/// The extensional agreement that `check_eq_morphisms` decides: equal
/// domains, equal codomains, and equal images of their own domains.
pub open spec fn morphisms_agree<A: Object, B: Object, F, G>(first: F, second: G) -> bool where
    F: Morphism<Domain = A, Codomain = B>,
    G: Morphism<Domain = A, Codomain = B>,
 {
    &&& first.domain_view() == second.domain_view()
    &&& first.codomain_view() == second.codomain_view()
    &&& first.apply(first.domain_view()) == second.apply(second.domain_view())
}

/// The model of `second` after `first`, applied to `x`.
pub open spec fn compose_spec<A: Object, B: Object, C: Object, F, G>(
    x: A::V,
    first: F,
    second: G,
) -> C::V where
    F: Morphism<Domain = A, Codomain = B>,
    G: Morphism<Domain = B, Codomain = C>,
 {
    second.apply(first.apply(x))
}

/// Compares two morphisms by their domains, their codomains, and what each
/// does to its own domain.
pub fn check_eq_morphisms<A: Object, B: Object, F, G>(first: &F, second: &G) -> (r: bool) where
    F: Morphism<Domain = A, Codomain = B>,
    G: Morphism<Domain = A, Codomain = B>,

    ensures
        r == morphisms_agree(*first, *second),
{
    proof {
        A::lemma_object_laws();
        B::lemma_object_laws();
    }
    if first.domain() == second.domain() && first.codomain() == second.codomain() && first.map(
        first.domain(),
    ) == second.map(second.domain()) {
        return true;
    }
    false
}

/// Applies `first` and then `second` to `domain`.
pub fn compose<A: Object, B: Object, C: Object, F, G>(domain: &A, first: &F, second: &G) -> (r: C) where
    F: Morphism<Domain = A, Codomain = B>,
    G: Morphism<Domain = B, Codomain = C>,

    ensures
        r@ == compose_spec(domain@, *first, *second),
{
    second.map(&first.map(domain))
}

/// The morphisms between two objects that a caller knows of, in order. All
/// share the domain and codomain types of `M`; equal morphisms may occur more
/// than once, and `check_eq_morphisms` tells them apart.
pub type HomSet<M> = Vec<M>;

/// `second` after `first`, as one morphism.
pub struct Composite<F, G> {
    pub first: F,
    pub second: G,
}

impl<F: Morphism, G: Morphism<Domain = F::Codomain>> Morphism for Composite<F, G> {
    type Domain = F::Domain;

    type Codomain = G::Codomain;

    open spec fn domain_view(&self) -> <F::Domain as View>::V {
        self.first.domain_view()
    }

    open spec fn codomain_view(&self) -> <G::Codomain as View>::V {
        self.second.codomain_view()
    }

    open spec fn apply(&self, x: <F::Domain as View>::V) -> <G::Codomain as View>::V {
        self.second.apply(self.first.apply(x))
    }

    fn domain(&self) -> (r: &F::Domain) {
        self.first.domain()
    }

    fn codomain(&self) -> (r: &G::Codomain) {
        self.second.codomain()
    }

    fn map(&self, domain: &F::Domain) -> (r: G::Codomain) {
        compose(domain, &self.first, &self.second)
    }
}

/// The identity morphism of an object.
pub struct Identity<O> {
    pub object: O,
}

impl<O: Object> Morphism for Identity<O> {
    type Domain = O;

    type Codomain = O;

    open spec fn domain_view(&self) -> O::V {
        self.object@
    }

    open spec fn codomain_view(&self) -> O::V {
        self.object@
    }

    open spec fn apply(&self, x: O::V) -> O::V {
        x
    }

    fn domain(&self) -> (r: &O) {
        &self.object
    }

    fn codomain(&self) -> (r: &O) {
        &self.object
    }

    fn map(&self, domain: &O) -> (r: O) {
        let r = domain.clone();
        proof {
            O::lemma_object_laws();
            assert(strictly_cloned(*domain, r));
        }
        r
    }
}

/// A morphism from `domain` to `codomain` that sends every value to `value`.
pub struct Constant<A, B> {
    pub domain: A,
    pub codomain: B,
    pub value: B,
}

impl<A: Object, B: Object> Morphism for Constant<A, B> {
    type Domain = A;

    type Codomain = B;

    open spec fn domain_view(&self) -> A::V {
        self.domain@
    }

    open spec fn codomain_view(&self) -> B::V {
        self.codomain@
    }

    open spec fn apply(&self, x: A::V) -> B::V {
        self.value@
    }

    fn domain(&self) -> (r: &A) {
        &self.domain
    }

    fn codomain(&self) -> (r: &B) {
        &self.codomain
    }

    fn map(&self, domain: &A) -> (r: B) {
        let r = self.value.clone();
        proof {
            B::lemma_object_laws();
            assert(strictly_cloned(self.value, r));
        }
        r
    }
}

/// A morphism from an object to itself that leaves every value as it is.
pub open spec fn is_identity<O: Object, I: Morphism<Domain = O, Codomain = O>>(id: I) -> bool {
    &&& id.domain_view() == id.codomain_view()
    &&& forall|x: O::V| #[trigger] id.apply(x) == x
}

/// Every morphism agrees with itself: `check_eq_morphisms(f, f)` is `true`.
pub proof fn lemma_check_eq_reflexive<A: Object, B: Object, F: Morphism<Domain = A, Codomain = B>>(
    f: F,
)
    ensures
        morphisms_agree(f, f),
{
}

/// Composition is associative: composing `h` after the composite of `g`
/// after `f`, or the composite of `h` after `g` after `f`, gives the same
/// result on every starting value.
pub proof fn lemma_compose_associative<A: Object, B: Object, C: Object, D: Object, F, G, H>(
    a: A::V,
    f: F,
    g: G,
    h: H,
) where
    F: Morphism<Domain = A, Codomain = B>,
    G: Morphism<Domain = B, Codomain = C>,
    H: Morphism<Domain = C, Codomain = D>,

    ensures
        compose_spec(a, Composite { first: f, second: g }, h) == compose_spec(
            a,
            f,
            Composite { first: g, second: h },
        ),
{
}

/// Identities are neutral for composition: an identity before `f`, or after
/// it, changes nothing on any value.
pub proof fn lemma_compose_identity<A: Object, B: Object, I, J, F>(a: A::V, id_a: I, f: F, id_b: J) where
    I: Morphism<Domain = A, Codomain = A>,
    J: Morphism<Domain = B, Codomain = B>,
    F: Morphism<Domain = A, Codomain = B>,

    requires
        is_identity(id_a),
        is_identity(id_b),
    ensures
        compose_spec(a, id_a, f) == f.apply(a),
        compose_spec(a, f, id_b) == f.apply(a),
{
    assert(id_a.apply(a) == a);
    assert(id_b.apply(f.apply(a)) == f.apply(a));
}

/// The identity morphism of an object is an identity.
pub proof fn lemma_identity_is_identity<O: Object>(id: Identity<O>)
    ensures
        is_identity(id),
{
}

} // verus!
