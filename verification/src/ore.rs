//! A steel works: iron ore goes in, half its weight in steel comes out.

use vstd::prelude::*;
use crate::process::Process;

verus! {

/// A load of iron ore. The amount is in tons.
pub struct IronOre {
    pub amount: u32,
}

/// A load of steel. The amount is in tons.
#[derive(Debug, Clone)]
pub struct Steel {
    pub amount: u32,
}

/// A process that is configured with an amount of iron ore, in tons, and
/// smelts it into steel.
pub struct OreProcess {
    pub amount: u32,
}

impl Process for OreProcess {
    type RawMaterial = IronOre;

    type Product = Steel;

    open spec fn material_spec(&self) -> IronOre {
        IronOre { amount: self.amount }
    }

    /// Two tons of ore make one ton of steel; an odd ton is lost.
    open spec fn belt_spec(&self, material: IronOre) -> Steel {
        Steel { amount: material.amount / 2 }
    }

    fn push_along_the_belt(&self, material: IronOre) -> (product: Steel) {
        Steel { amount: material.amount / 2 }
    }

    fn material(&self) -> (material: IronOre) {
        IronOre { amount: self.amount }
    }
}

} // verus!
