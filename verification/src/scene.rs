//! What is drawn: meshes with their materials, each placed by a transform.

use vstd::prelude::*;
use crate::material_instance::MaterialInstance;
use crate::resource::ResourceHandle;

verus! {

/// Geometry on the device, as far as a scene refers to it.
pub struct Mesh {
    pub label: String,
    pub primitive_count: usize,
}

/// One mesh of a scene. The transform is a four by four matrix of IEEE 754
/// single-precision bit patterns, column by column.
pub struct ScenePrimitive {
    pub mesh: ResourceHandle<Mesh>,
    pub materials: Vec<ResourceHandle<MaterialInstance>>,
    pub transform: [u32; 16],
}

pub struct Scene {
    pub primitives: Vec<ScenePrimitive>,
}

impl Scene {
    pub fn new() -> (scene: Scene)
        ensures
            scene.primitives@.len() == 0,
    {
        Scene { primitives: Vec::new() }
    }

    /// Adds a primitive and returns its index in the scene.
    pub fn add(&mut self, primitive: ScenePrimitive) -> (index: usize)
        ensures
            final(self).primitives@ == old(self).primitives@.push(primitive),
            index == old(self).primitives@.len(),
    {
        let index = self.primitives.len();
        self.primitives.push(primitive);
        index
    }
}

} // verus!
