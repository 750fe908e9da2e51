//! A single-stage factory: an ordered line of processes of one kind, each of
//! which sources a raw material and turns it into a product. The factory runs
//! its processes in the order in which they were added and keeps every product
//! under the position of the process that made it.

pub mod process;
pub mod ore;
pub mod factory;
pub mod laws;

pub use crate::factory::{Factory, FactoryView};
pub use crate::ore::{IronOre, OreProcess, Steel};
pub use crate::process::Process;
