use vstd::prelude::*;
use crate::morphism::Morphism;
use vstd::pervasive::strictly_cloned;
use vstd::std_specs::cmp::PartialEqSpec;

verus! {

/// An object in a category.
///
/// Every object has a mathematical model (its view). Two objects are the same
/// object of the category exactly when their models agree: `==` decides that,
/// and `clone` yields a value with the same model.
pub trait Object: Sized + Clone + PartialEq + View {
    /// The laws that make `==` and `clone` structural on the model.
    proof fn lemma_object_laws()
        ensures
            Self::obeys_eq_spec(),
            forall|a: Self, b: Self| #[trigger] a.eq_spec(&b) <==> a@ == b@,
            forall|a: Self, b: Self| #[trigger] strictly_cloned(a, b) ==> a@ == b@,
    ;
}

/// Integers are objects, each its own model.
impl Object for u64 {
    proof fn lemma_object_laws() {
    }
}

/// Equality of objects is an equivalence: reflexive, symmetric and
/// transitive, and it is what `==` computes.
pub proof fn lemma_object_equality<O: Object>(a: O, b: O, c: O)
    ensures
        O::obeys_eq_spec(),
        a.eq_spec(&a),
        a.eq_spec(&b) == b.eq_spec(&a),
        a.eq_spec(&b) && b.eq_spec(&c) ==> a.eq_spec(&c),
{
    O::lemma_object_laws();
}

/// The kinds of power object, each over two positions of a sequence of
/// objects.
#[derive(Debug, Clone, Copy, Hash, PartialEq, Eq, Structural)]
pub enum PowerObjectType {
    /// The product of the objects at `i` and `j`, with its two projections.
    Product(usize, usize),
    /// The coproduct of the objects at `i` and `j`, with its two injections.
    Coproduct(usize, usize),
    /// The object of morphisms from the object at `i` to the object at `j`,
    /// with its evaluation morphism.
    Exponential(usize, usize),
}

impl PowerObjectType {
    /// The two positions that the request names.
    pub open spec fn indices(self) -> (usize, usize) {
        match self {
            PowerObjectType::Product(i, j) => (i, j),
            PowerObjectType::Coproduct(i, j) => (i, j),
            PowerObjectType::Exponential(i, j) => (i, j),
        }
    }
}

/// `object` and `arrows` witness the power object that `power_type` asks for
/// over `objects`, where `pair` is the category's pairing of values:
/// - a product comes with two projections onto the two objects, which
///   recover both components of every pair;
/// - a coproduct comes with two injections from the two objects, whose
///   images never meet;
/// - an exponential comes with one evaluation morphism, from pairs of the
///   exponential and the first object, to the second object.
pub open spec fn witnesses_power_object<O: Object, M: Morphism<Domain = O, Codomain = O>>(
    power_type: PowerObjectType,
    objects: Seq<O::V>,
    object: O::V,
    arrows: Seq<M>,
    pair: spec_fn(O::V, O::V) -> O::V,
) -> bool {
    let (i, j) = power_type.indices();
    match power_type {
        PowerObjectType::Product(_, _) => {
            &&& arrows.len() == 2
            &&& arrows[0].domain_view() == object
            &&& arrows[0].codomain_view() == objects[i as int]
            &&& arrows[1].domain_view() == object
            &&& arrows[1].codomain_view() == objects[j as int]
            &&& forall|x: O::V, y: O::V|
                #![trigger pair(x, y)]
                arrows[0].apply(pair(x, y)) == x && arrows[1].apply(pair(x, y))
                    == y
        },
        PowerObjectType::Coproduct(_, _) => {
            &&& arrows.len() == 2
            &&& arrows[0].domain_view() == objects[i as int]
            &&& arrows[0].codomain_view() == object
            &&& arrows[1].domain_view() == objects[j as int]
            &&& arrows[1].codomain_view() == object
            &&& forall|x: O::V, y: O::V|
                #![trigger arrows[0].apply(x), arrows[1].apply(y)]
                arrows[0].apply(x) != arrows[1].apply(y)
        },
        PowerObjectType::Exponential(_, _) => {
            &&& arrows.len() == 1
            &&& arrows[0].domain_view() == pair(object, objects[i as int])
            &&& arrows[0].codomain_view() == objects[j as int]
        },
    }
}

/// Builds power objects of a category, with the morphisms that witness them.
pub trait PowerObjectGenerator<O: Object>: Sized {
    /// The morphisms that the generator hands out.
    type Arrow: Morphism<Domain = O, Codomain = O>;

    /// Pairing of values: the value of a product built from its two
    /// components, and the value that an evaluation morphism takes.
    spec fn pair(&self, first: O::V, second: O::V) -> O::V;

    /// Builds the power object that `power_type` asks for over `objects`,
    /// together with its projections, injections or evaluation morphism.
    fn generate_power_object(&self, power_type: &PowerObjectType, objects: &[O]) -> (r: (
        O,
        Vec<Self::Arrow>,
    ))
        requires
            power_type.indices().0 < objects@.len(),
            power_type.indices().1 < objects@.len(),
        ensures
            witnesses_power_object(
                *power_type,
                objects@.map_values(|o: O| o@),
                r.0@,
                r.1@,
                |x: O::V, y: O::V| self.pair(x, y),
            ),
    ;
}

} // verus!
