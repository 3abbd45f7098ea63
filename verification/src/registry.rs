//! The set of live material instances that embed a copy of the parameter
//! block.

use vstd::prelude::*;

use crate::params::ParameterBlock;

verus! {

/// Reference to a texture owned by an external asset cache. Loading is
/// asynchronous: the handle is valid immediately and the pixels resolve later
/// without blocking anything here; the library never inspects the texture, it
/// only carries the handle through.
#[derive(Clone, Copy, Debug, PartialEq, Eq, Structural)]
pub struct TextureHandle {
    /// Identifier the asset collaborator hands out.
    pub id: u64,
}

/// A GPU-resident drawable surface: a texture reference plus an owned copy of
/// the parameter block (copied, not referenced, from the store).
#[derive(Clone, Copy, Debug, PartialEq, Eq, Structural)]
pub struct MaterialInstance {
    /// The embedded parameter block, as of the most recent sync that observed
    /// a change.
    pub block: ParameterBlock,
    /// The texture applied to the surface.
    pub texture: TextureHandle,
}

/// Every material of `s` with its block replaced by `b`; the textures are
/// kept.
pub open spec fn with_block(s: Seq<MaterialInstance>, b: ParameterBlock) -> Seq<MaterialInstance> {
    s.map_values(|m: MaterialInstance| MaterialInstance { block: b, texture: m.texture })
}

/// The set of live material instances, owned by the rendering subsystem. It
/// is only ever appended to, never removed from, during the core's lifetime.
pub struct MaterialInstanceRegistry {
    materials: Vec<MaterialInstance>,
}

impl View for MaterialInstanceRegistry {
    type V = Seq<MaterialInstance>;

    closed spec fn view(&self) -> Seq<MaterialInstance> {
        self.materials@
    }
}

impl MaterialInstanceRegistry {
    /// Creates an empty registry.
    pub fn new() -> (r: MaterialInstanceRegistry)
        ensures
            r@.len() == 0,
    {
        MaterialInstanceRegistry { materials: Vec::new() }
    }

    /// Number of registered materials.
    pub fn len(&self) -> (n: usize)
        ensures
            n == self@.len(),
    {
        self.materials.len()
    }

    /// The material at position `i`.
    pub fn get(&self, i: usize) -> (m: &MaterialInstance)
        requires
            i < self@.len(),
        ensures
            *m == self@[i as int],
    {
        &self.materials[i]
    }

    /// Appends a new material instance.
    pub fn register(&mut self, m: MaterialInstance)
        ensures
            final(self)@ == old(self)@.push(m),
    {
        self.materials.push(m);
    }

    /// Assigns `b` as the embedded block of every registered material. The
    /// operation is idempotent and commutative across instances; order among
    /// them is irrelevant.
    pub fn apply_block(&mut self, b: ParameterBlock)
        ensures
            final(self)@ == with_block(old(self)@, b),
    {
        let n = self.materials.len();
        for i in 0..n
            invariant
                n == self.materials.len(),
                forall|j: int|
                    0 <= j < i ==> self.materials@[j] == (MaterialInstance {
                        block: b,
                        texture: old(self).materials@[j].texture,
                    }),
                forall|j: int| i <= j < n ==> self.materials@[j] == old(self).materials@[j],
        {
            let elem = &mut self.materials[i];
            elem.block = b;
        }
        proof {
            assert(self@ =~= with_block(old(self)@, b));
        }
    }
}

} // verus!
