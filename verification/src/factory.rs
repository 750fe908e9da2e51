//! The factory: an ordered line of processes and the store of what they made.

use std::collections::HashMap;
use vstd::prelude::*;
use crate::process::{product_of, Process};

verus! {

broadcast use vstd::std_specs::hash::group_hash_axioms;

/// What a full run over `processes` leaves in the store: under each position
/// the product of the process that stands there, and nothing else.
pub open spec fn products_of<P: Process>(processes: Seq<P>) -> Map<usize, P::Product> {
    Map::new(|id: usize| id < processes.len(), |id: usize| product_of(processes[id as int]))
}

/// A factory as a mathematical value.
pub struct FactoryView<P: Process> {
    /// The identifier that the factory was created with. It is a label only.
    pub factory_id: u32,
    /// The processes, in the order in which they were added.
    pub processes: Seq<P>,
    /// The products made so far, each under the position of its process.
    pub completed_products: Map<usize, P::Product>,
}

impl<P: Process> FactoryView<P> {
    /// A factory without processes and without products.
    pub open spec fn empty(factory_id: u32) -> Self {
        FactoryView { factory_id, processes: Seq::empty(), completed_products: Map::empty() }
    }

    /// This factory with `process` added at the end of the line. Nothing is
    /// run, so the store stays as it is.
    pub open spec fn with_process(self, process: P) -> Self {
        FactoryView { processes: self.processes.push(process), ..self }
    }

    /// This factory after the process at position `id` alone has been run:
    /// its product stands under `id`, in place of what was there.
    pub open spec fn processed_at(self, id: usize) -> Self {
        FactoryView {
            completed_products: self.completed_products.insert(
                id,
                product_of(self.processes[id as int]),
            ),
            ..self
        }
    }

    /// This factory after a run of the whole line.
    pub open spec fn processed(self) -> Self {
        FactoryView { completed_products: products_of(self.processes), ..self }
    }

    /// What holds of every factory: the store is keyed by positions of the
    /// line, those of the processes that have been run, and each entry is the
    /// product of the process at its position.
    pub open spec fn wf(self) -> bool {
        &&& self.processes.len() <= usize::MAX
        &&& forall|id: usize| #[trigger]
            self.completed_products.contains_key(id) ==> id < self.processes.len()
                && self.completed_products[id] == product_of(self.processes[id as int])
    }
}

/// What a factory looks like. Each factory can only process one type of
/// thing: all its processes share one raw material and one product.
pub struct Factory<P: Process> {
    factory_id: u32,
    processes: Vec<P>,
    completed_products: HashMap<usize, P::Product>,
}

impl<P: Process> View for Factory<P> {
    type V = FactoryView<P>;

    closed spec fn view(&self) -> FactoryView<P> {
        FactoryView {
            factory_id: self.factory_id,
            processes: self.processes@,
            completed_products: self.completed_products@,
        }
    }
}

impl<P: Process> Factory<P> {
    /// A factory with the given identifier, no processes and no products.
    /// Any identifier will do; two factories may share one.
    pub fn new(factory_id: u32) -> (factory: Self)
        ensures
            factory@ == FactoryView::<P>::empty(factory_id),
            factory@.wf(),
    {
        Factory { factory_id, processes: Vec::new(), completed_products: HashMap::new() }
    }

    /// Runs the process at position `id` alone: takes its raw material,
    /// pushes it along the belt and stores the product under `id`, in place
    /// of what an earlier run left there.
    pub fn process_one(&mut self, id: usize)
        requires
            old(self)@.wf(),
            id < old(self)@.processes.len(),
        ensures
            final(self)@ == old(self)@.processed_at(id),
            final(self)@.wf(),
    {
        let process = &self.processes[id];
        let product = process.push_along_the_belt(process.material());
        self.completed_products.insert(id, product);
        proof {
            assert forall|at: usize| #[trigger] self@.completed_products.contains_key(at) implies at
                < self@.processes.len() && self@.completed_products[at] == product_of(
                self@.processes[at as int],
            ) by {
                if at != id {
                    assert(old(self)@.completed_products.contains_key(at));
                }
            }
        }
    }

    /// Runs every process, one at a time, in the order in which they were
    /// added. The store then holds the product of each process under its
    /// position, whatever it held before.
    pub fn process_all(&mut self)
        requires
            old(self)@.wf(),
        ensures
            final(self)@ == old(self)@.processed(),
            final(self)@.wf(),
    {
        let count: usize = self.processes.len();
        let mut id: usize = 0;
        while id < count
            invariant
                id <= count,
                count == self@.processes.len(),
                self@.processes == old(self)@.processes,
                self@.factory_id == old(self)@.factory_id,
                self@.wf(),
                forall|done: usize|
                    done < id ==> #[trigger] self@.completed_products.contains_key(done),
            decreases count - id,
        {
            self.process_one(id);
            id += 1;
        }
        assert(self@.completed_products =~= products_of(self@.processes));
    }

    /// Adds `process` at the end of the line. It is not run yet.
    pub fn add_new_process(&mut self, process: P)
        requires
            old(self)@.wf(),
        ensures
            final(self)@ == old(self)@.with_process(process),
            final(self)@.wf(),
    {
        self.processes.push(process);
        proof {
            assert(self@.processes.len() == self.processes.len());
            assert forall|at: usize| #[trigger] self@.completed_products.contains_key(at) implies at
                < self@.processes.len() && self@.completed_products[at] == product_of(
                self@.processes[at as int],
            ) by {
                assert(old(self)@.completed_products.contains_key(at));
            }
        }
    }

    /// Runs the factory: every process, as `process_all` does.
    pub fn run(&mut self)
        requires
            old(self)@.wf(),
        ensures
            final(self)@ == old(self)@.processed(),
            final(self)@.wf(),
    {
        self.process_all();
    }

    /// The identifier that the factory was created with.
    pub fn factory_id(&self) -> (factory_id: u32)
        ensures
            factory_id == self@.factory_id,
    {
        self.factory_id
    }

    /// How many processes stand in the line.
    pub fn process_count(&self) -> (count: usize)
        ensures
            count == self@.processes.len(),
    {
        self.processes.len()
    }

    /// How many products the store holds.
    pub fn completed_count(&self) -> (count: usize)
        ensures
            count == self@.completed_products.len(),
    {
        self.completed_products.len()
    }

    /// The product stored under position `id`, if the process there has been
    /// run.
    pub fn completed_product(&self, id: usize) -> (product: Option<&P::Product>)
        ensures
            product.is_some() == self@.completed_products.contains_key(id),
            product.is_some() ==> *product.unwrap() == self@.completed_products[id],
    {
        self.completed_products.get(&id)
    }
}

} // verus!
