//! The loaded scene: the entities created from a scene asset's actors,
//! and the vertex buffer the render loop draws.

use vstd::prelude::*;

use crate::assets::SceneAsset;
use crate::entity::Entity;
use crate::render_graph::VertexBuffer;

verus! {

/// The engine's current scene contents.
pub struct Scene {
    pub entities: Vec<Entity>,
    pub vertex_buffer: Option<VertexBuffer>,
}

impl Default for Scene {
    /// An empty scene: no entities, nothing to draw.
    fn default() -> (s: Scene)
        ensures
            s.entities@.len() == 0,
            s.vertex_buffer is None,
    {
        Scene { entities: Vec::new(), vertex_buffer: None }
    }
}

impl Scene {
    /// Instantiates a decoded scene asset: one entity per top-level actor,
    /// carrying the actor's identifier, appended in actor order. Prefab
    /// resolution, components and child actors are not instantiated yet.
    pub fn load(&mut self, asset: &SceneAsset)
        ensures
            final(self).entities@.len() == old(self).entities@.len() + asset.actors@.len(),
            forall|i: int|
                0 <= i < old(self).entities@.len() ==> final(self).entities@[i] == old(
                    self,
                ).entities@[i],
            forall|i: int|
                0 <= i < asset.actors@.len() ==> (#[trigger] final(self).entities@[old(
                    self,
                ).entities@.len() + i])@ == asset.actors@[i].id@,
            final(self).vertex_buffer == old(self).vertex_buffer,
    {
        let ghost base: int = self.entities@.len() as int;
        let ghost initial = self.entities@;
        let mut i: usize = 0;
        while i < asset.actors.len()
            invariant
                0 <= i <= asset.actors@.len(),
                self.entities@.len() == base + i,
                base == initial.len(),
                forall|j: int| 0 <= j < base ==> self.entities@[j] == initial[j],
                forall|j: int|
                    0 <= j < i ==> (#[trigger] self.entities@[base + j])@ == asset.actors@[j].id@,
                self.vertex_buffer == old(self).vertex_buffer,
            decreases asset.actors@.len() - i,
        {
            let actor = &asset.actors[i];
            self.entities.push(Entity::new(actor.id.clone()));
            i = i + 1;
        }
    }

    /// Removes every entity the scene created; what it drew stays until a
    /// new scene is loaded.
    pub fn unload(&mut self)
        ensures
            final(self).entities@.len() == 0,
            final(self).vertex_buffer == old(self).vertex_buffer,
    {
        self.entities.clear();
    }
}

} // verus!
