//! Asset descriptions, as plain values: what a scene file holds once the
//! platform has read and decoded it. Decoding itself (file formats,
//! identifiers) stays with the platform shell; the core works on these
//! descriptions alone.

use vstd::prelude::*;

verus! {

/// Failure modes of resource loading.
#[derive(Clone, Copy, Debug, PartialEq, Eq, Structural)]
pub enum AssetError {
    LoadFailed,
}

/// A loadable resource kind: names the file extension it lives under and
/// offers a load hook. Loading is not implemented beyond registration yet,
/// so the default hook accepts every path.
pub trait Resource {
    fn extension() -> (ext: String);

    fn load(_filepath: &String) -> (r: Result<(), AssetError>)
        ensures
            r is Ok,
    {
        Ok(())
    }
}

/// The component kinds an actor can carry.
#[derive(Clone, Copy, Debug, PartialEq, Eq, Structural)]
pub enum ComponentKind {
    Camera,
    Mesh,
    Transform,
}

/// One actor of a scene file: its identifier, the prefab it instantiates
/// (if any), its components, and nested child actors.
pub struct ActorAsset {
    pub id: String,
    pub prefab: Option<String>,
    pub components: Vec<ComponentKind>,
    pub children: Vec<ActorAsset>,
}

/// A decoded scene file: its identifier and its top-level actors.
pub struct SceneAsset {
    pub id: String,
    pub actors: Vec<ActorAsset>,
}

impl Resource for SceneAsset {
    fn extension() -> (ext: String)
        ensures
            ext@ == "scene"@,
    {
        String::from_str("scene")
    }
}

} // verus!
