use doodle_params::params::ParameterBlock;
use doodle_params::registry::MaterialInstance;
use doodle_params::registry::MaterialInstanceRegistry;
use doodle_params::registry::TextureHandle;
use doodle_params::store::ParameterStore;
use doodle_params::sync::scene_bootstrap;
use doodle_params::sync::SyncSystem;

#[test]
fn bootstrap_embeds_the_default_block() {
    let store = ParameterStore::new();
    let mut registry = MaterialInstanceRegistry::new();
    scene_bootstrap(&store, &mut registry, TextureHandle { id: 1 });

    assert_eq!(registry.len(), 1);
    let m = registry.get(0);
    assert_eq!(f32::from_bits(m.block.noise_snap), 0.2f32);
    assert_eq!(f32::from_bits(m.block.noise_scale), 0.03f32);
    assert_eq!(m.block.padding1, 0);
    assert_eq!(m.block.padding2, 0);
    assert_eq!(m.texture, TextureHandle { id: 1 });
}

#[test]
fn set_then_one_run_updates_the_registered_material() {
    let mut store = ParameterStore::new();
    let mut registry = MaterialInstanceRegistry::new();
    scene_bootstrap(&store, &mut registry, TextureHandle { id: 9 });
    let mut sync = SyncSystem::new();

    // the caller tries to smuggle nonzero padding past the store
    store.set(ParameterBlock {
        noise_snap: f32::to_bits(0.5),
        noise_scale: f32::to_bits(0.1),
        padding1: 0xDEAD,
        padding2: 0xBEEF,
    });
    sync.run(&mut store, &mut registry);

    let m = registry.get(0);
    assert_eq!(f32::from_bits(m.block.noise_snap), 0.5f32);
    assert_eq!(f32::from_bits(m.block.noise_scale), 0.1f32);
    assert_eq!(m.block.padding1, 0);
    assert_eq!(m.block.padding2, 0);
    assert_eq!(m.texture, TextureHandle { id: 9 });
}

#[test]
fn second_run_without_a_set_is_a_no_op() {
    let mut store = ParameterStore::new();
    let mut registry = MaterialInstanceRegistry::new();
    scene_bootstrap(&store, &mut registry, TextureHandle { id: 2 });
    let mut sync = SyncSystem::new();

    store.set(ParameterBlock::new(11, 22));
    sync.run(&mut store, &mut registry);
    assert_eq!(sync.sync_count(), 1);
    sync.run(&mut store, &mut registry);
    assert_eq!(sync.sync_count(), 1);
    assert_eq!(registry.get(0).block, ParameterBlock::new(11, 22));
}

#[test]
fn run_without_any_set_performs_no_update() {
    let mut store = ParameterStore::new();
    let mut registry = MaterialInstanceRegistry::new();
    scene_bootstrap(&store, &mut registry, TextureHandle { id: 3 });
    let mut sync = SyncSystem::new();

    sync.run(&mut store, &mut registry);
    assert_eq!(sync.sync_count(), 0);
    assert_eq!(registry.get(0).block, ParameterBlock::default());
}

#[test]
fn run_updates_every_registered_material() {
    let mut store = ParameterStore::new();
    let mut registry = MaterialInstanceRegistry::new();
    for id in 0..5u64 {
        registry.register(MaterialInstance {
            block: ParameterBlock::default(),
            texture: TextureHandle { id },
        });
    }
    let mut sync = SyncSystem::new();

    store.set(ParameterBlock::new(7, 8));
    sync.run(&mut store, &mut registry);

    assert_eq!(registry.len(), 5);
    for i in 0..5usize {
        let m = registry.get(i);
        assert_eq!(m.block, ParameterBlock::new(7, 8));
        assert_eq!(m.texture.id, i as u64);
    }
}

#[test]
fn run_on_an_empty_registry_still_clears_the_flag() {
    let mut store = ParameterStore::new();
    let mut registry = MaterialInstanceRegistry::new();
    let mut sync = SyncSystem::new();

    store.set(ParameterBlock::new(1, 1));
    sync.run(&mut store, &mut registry);
    assert_eq!(registry.len(), 0);
    assert_eq!(sync.sync_count(), 1);
    assert!(store.take_if_changed().is_none());
}

#[test]
fn registry_keeps_registration_order() {
    let mut registry = MaterialInstanceRegistry::new();
    let first = MaterialInstance {
        block: ParameterBlock::new(1, 2),
        texture: TextureHandle { id: 10 },
    };
    let second = MaterialInstance {
        block: ParameterBlock::new(3, 4),
        texture: TextureHandle { id: 20 },
    };
    registry.register(first);
    registry.register(second);
    assert_eq!(registry.len(), 2);
    assert_eq!(*registry.get(0), first);
    assert_eq!(*registry.get(1), second);
}
