//! The capability that a factory asks of each of its processes.

use vstd::prelude::*;

verus! {

/// One kind of processing unit, bound to one raw material and one product.
///
/// Both operations are deterministic: what they return is fixed by the
/// process's own configuration (and, for the belt, by the material handed in).
/// An implementation names the two functions that it computes, as
/// `material_spec` and `belt_spec`, and its operations return what these say.
/// The factory's contracts rest on that: of an implementation that Verus has
/// not verified they hold only as far as it keeps this promise.
pub trait Process: Sized {
    /// What the belt consumes.
    type RawMaterial;

    /// What the belt produces.
    type Product: core::fmt::Debug + Clone;

    /// The raw material that this process supplies.
    spec fn material_spec(&self) -> Self::RawMaterial;

    /// The product that this process makes of `material`.
    spec fn belt_spec(&self, material: Self::RawMaterial) -> Self::Product;

    /// Processes the item from a raw material to a product.
    fn push_along_the_belt(&self, material: Self::RawMaterial) -> (product: Self::Product)
        ensures
            product == self.belt_spec(material),
    ;

    /// The raw material to process on this belt. The process itself is left
    /// as it was.
    fn material(&self) -> (material: Self::RawMaterial)
        ensures
            material == self.material_spec(),
    ;
}

/// The product that `process` yields when it is run once: its own raw
/// material, pushed along its own belt. Nothing but the process enters.
pub open spec fn product_of<P: Process>(process: P) -> P::Product {
    process.belt_spec(process.material_spec())
}

} // verus!
