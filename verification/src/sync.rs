//! The per-frame synchronization between the store and the registered
//! materials, and the one-time bootstrap of the initial material.

use vstd::prelude::*;

use crate::params::ParameterBlock;
use crate::registry::MaterialInstance;
use crate::registry::MaterialInstanceRegistry;
use crate::registry::TextureHandle;
use crate::registry::with_block;
use crate::store::ParameterStore;

verus! {

/// The material built by the bootstrap: the store's current block, copied,
/// plus the pending texture reference.
pub open spec fn spec_material(block: ParameterBlock, texture: TextureHandle) -> MaterialInstance {
    MaterialInstance { block: block, texture: texture }
}

/// The store state any sync run leaves behind: observed, with the change flag
/// clear.
pub open spec fn store_after_run(s: ParameterStore) -> ParameterStore {
    s.after_take()
}

/// The registry contents after a sync run over store state `s`: every block
/// replaced by the store's value when a change was pending, untouched
/// otherwise.
pub open spec fn registry_after_run(s: ParameterStore, mats: Seq<MaterialInstance>) -> Seq<
    MaterialInstance,
> {
    if s.spec_changed() {
        with_block(mats, s.spec_value())
    } else {
        mats
    }
}

/// The sync count after a run over store state `s`: one more update was
/// performed when a change was pending, none otherwise.
pub open spec fn count_after_run(s: ParameterStore, count: int) -> int {
    if s.spec_changed() {
        count + 1
    } else {
        count
    }
}

/// The per-frame operation that keeps the registered materials in lock-step
/// with the store, plus an observable count of how many updates it has
/// performed.
pub struct SyncSystem {
    sync_count: u64,
}

impl SyncSystem {
    /// How many runs have actually pushed a value so far.
    pub closed spec fn spec_sync_count(self) -> u64 {
        self.sync_count
    }

    /// Creates the system; no update has been performed yet.
    pub fn new() -> (r: SyncSystem)
        ensures
            r.spec_sync_count() == 0,
    {
        SyncSystem { sync_count: 0 }
    }

    /// The observable number of updates performed.
    pub fn sync_count(&self) -> (n: u64)
        ensures
            n == self.spec_sync_count(),
    {
        self.sync_count
    }

    /// One frame tick: observe the store once; if a change was pending, copy
    /// the new value into every registered material and count the update; do
    /// nothing otherwise, beyond the single flag check.
    pub fn run(&mut self, store: &mut ParameterStore, registry: &mut MaterialInstanceRegistry)
        requires
            old(self).spec_sync_count() < u64::MAX,
        ensures
            *final(store) == store_after_run(*old(store)),
            final(store).spec_value() == old(store).spec_value(),
            !final(store).spec_changed(),
            final(registry)@ == registry_after_run(*old(store), old(registry)@),
            final(self).spec_sync_count() == count_after_run(
                *old(store),
                old(self).spec_sync_count() as int,
            ),
    {
        match store.take_if_changed() {
            Some(block) => {
                registry.apply_block(block);
                self.sync_count = self.sync_count + 1;
            },
            None => {},
        }
    }
}

/// One-time bootstrap of the material side of the scene: build the initial
/// material instance from the store's current value and the (still pending)
/// texture reference, and register it as the single entry of the registry.
/// Camera, light and plane placement are the rendering collaborator's work
/// and stay outside the core.
pub fn scene_bootstrap(
    store: &ParameterStore,
    registry: &mut MaterialInstanceRegistry,
    texture: TextureHandle,
)
    requires
        old(registry)@.len() == 0,
    ensures
        final(registry)@ == old(registry)@.push(spec_material(store.spec_value(), texture)),
        final(registry)@.len() == 1,
        final(registry)@[0].block == store.spec_value(),
        final(registry)@[0].texture == texture,
{
    let block = store.get();
    registry.register(MaterialInstance { block, texture });
}

/// Running the sync twice in a row with no intervening write performs the
/// update at most once: the first run leaves the store observed, and over an
/// observed store a run keeps the registry contents and the sync count exactly
/// as they are.
pub proof fn lemma_second_run_is_noop(s: ParameterStore, mats: Seq<MaterialInstance>, count: int)
    ensures
        !store_after_run(s).spec_changed(),
        registry_after_run(store_after_run(s), registry_after_run(s, mats)) == registry_after_run(
            s,
            mats,
        ),
        count_after_run(store_after_run(s), count_after_run(s, count)) == count_after_run(
            s,
            count,
        ),
{
    s.lemma_after_take();
}

} // verus!
