//! What follows from the contracts of the factory's operations, stated over
//! the factory's mathematical view.

use vstd::prelude::*;
use crate::factory::{products_of, FactoryView};
use crate::process::{product_of, Process};

verus! {

/// The positions `0, 1, .., n - 1`.
pub open spec fn positions_below(n: nat) -> Set<usize> {
    Set::new(|id: usize| id < n)
}

/// There are exactly `n` positions below `n`.
pub proof fn lemma_positions_below_len(n: nat)
    requires
        n <= usize::MAX,
    ensures
        positions_below(n).finite(),
        positions_below(n).len() == n,
    decreases n,
{
    if n == 0 {
        assert(positions_below(0) =~= Set::<usize>::empty());
    } else {
        let m = (n - 1) as nat;
        lemma_positions_below_len(m);
        assert(positions_below(n) =~= positions_below(m).insert(m as usize));
    }
}

/// After a run of a line of `n` processes the store has exactly `n` entries,
/// keyed `0, 1, .., n - 1`, and the entry at each position is the product of
/// the process that stands there: of that process alone, whatever the others
/// are.
pub proof fn lemma_run_fills_every_position<P: Process>(factory: FactoryView<P>)
    requires
        factory.processes.len() <= usize::MAX,
    ensures
        factory.processed().processes == factory.processes,
        factory.processed().completed_products.dom() == positions_below(factory.processes.len()),
        factory.processed().completed_products.dom().finite(),
        factory.processed().completed_products.len() == factory.processes.len(),
        forall|id: usize|
            id < factory.processes.len() ==> #[trigger] factory.processed().completed_products[id]
                == product_of(factory.processes[id as int]),
        factory.processed().wf(),
{
    let store = products_of(factory.processes);
    assert(store.dom() =~= positions_below(factory.processes.len()));
    lemma_positions_below_len(factory.processes.len());
}

/// A process that is added to a fresh factory and then run leaves exactly one
/// entry in the store, at position 0: its own product.
pub proof fn lemma_single_process_run<P: Process>(factory_id: u32, process: P)
    ensures
        ({
            let run = FactoryView::<P>::empty(factory_id).with_process(process).processed();
            &&& run.completed_products.dom() == set![0usize]
            &&& run.completed_products.len() == 1
            &&& run.completed_products[0] == product_of(process)
        }),
{
    let loaded = FactoryView::<P>::empty(factory_id).with_process(process);
    lemma_run_fills_every_position(loaded);
    assert(loaded.processed().completed_products.dom() =~= set![0usize]);
}

/// Running a factory again, with its processes as they were, gives the store
/// that the first run gave.
pub proof fn lemma_run_is_idempotent<P: Process>(factory: FactoryView<P>)
    ensures
        factory.processed().processed() == factory.processed(),
{
}

/// The order in which processes are added decides where a product is stored,
/// and nothing else. Let `moved` hold the processes of `factory` in another
/// order, the process at position `k` of `moved` being the one at position
/// `order[k]` of `factory`. Then after a run of each, the product at position
/// `k` of `moved` is the product at position `order[k]` of `factory`.
pub proof fn lemma_order_moves_products_only<P: Process>(
    factory: FactoryView<P>,
    moved: FactoryView<P>,
    order: Seq<int>,
)
    requires
        factory.processes.len() <= usize::MAX,
        moved.processes.len() == factory.processes.len(),
        order.len() == factory.processes.len(),
        forall|k: int|
            0 <= k < order.len() ==> 0 <= #[trigger] order[k] < factory.processes.len()
                && moved.processes[k] == factory.processes[order[k]],
    ensures
        forall|k: usize|
            k < moved.processes.len() ==> #[trigger] moved.processed().completed_products[k]
                == factory.processed().completed_products[order[k as int] as usize],
{
    assert forall|k: usize| k < moved.processes.len() implies #[trigger] moved.processed().completed_products[k]
        == factory.processed().completed_products[order[k as int] as usize] by {
        let from = order[k as int];
        assert(moved.processes[k as int] == factory.processes[from]);
        assert(products_of(factory.processes).contains_key(from as usize));
    }
}

} // verus!
