//! Categories over generic objects: objects, morphisms, composition,
//! extensional comparison of morphisms, and generation of power objects
//! (products, coproducts, exponentials) with their witnessing morphisms.
//!
//! `object` holds the object contract and the power-object generator
//! contract, `morphism` the morphism contract with composition and
//! comparison, and `term` the free category of terms, an instance of both.
pub mod morphism;
pub mod object;
pub mod term;
