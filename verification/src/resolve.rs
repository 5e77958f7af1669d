//! Resolution of geometry references. A meshed object names a geometry
//! file, relative to the directory of the scene file; once the scene is
//! read, the geometry is loaded and attached, in memory only.
//!
//! Finding and reading the file is the caller's part. This module decides
//! which reference is to be resolved, and what the scene object is once it
//! has been.

use vstd::prelude::*;
use crate::errors::{SceneFault, SceneIOError};
use crate::scene::{MeshGeometry, MeshedObject, Scene, SceneObject};
use crate::scene_object::Mesh;

verus! {

/// The geometry file of a reference, found and read: the path under which
/// it was found, and what it holds.
#[derive(Debug, PartialEq, Eq)]
pub struct Resolved {
    pub path: String,
    pub geometry: MeshGeometry,
}

/// Whether a scene object names a geometry file: it is a meshed object whose
/// reference is not empty.
pub open spec fn names_geometry(scene_object: SceneObject) -> bool {
    scene_object.mesh matches Some(Mesh::MeshedObject(meshed_object))
        && meshed_object.reference@.len() > 0
}

/// The reference of a scene object that names a geometry file.
pub open spec fn reference_of(scene_object: SceneObject) -> String
    recommends
        names_geometry(scene_object),
{
    scene_object.mesh->Some_0->MeshedObject_0.reference
}

/// The reference that is to be resolved for a scene object, if any: that of
/// a meshed object, unless it is empty or there is no context directory to
/// resolve it in.
pub fn reference_to_resolve(scene_object: &SceneObject, has_context: bool) -> (r: Option<&String>)
    ensures
        r is Some <==> has_context && names_geometry(*scene_object),
        r matches Some(reference) ==> *reference == reference_of(*scene_object),
{
    if !has_context {
        return None;
    }
    match &scene_object.mesh {
        Some(Mesh::MeshedObject(meshed_object)) => {
            if meshed_object.reference.as_str().is_empty() {
                None
            } else {
                Some(&meshed_object.reference)
            }
        },
        _ => None,
    }
}

/// A scene object after resolution. One without a mesh is no scene object.
/// One that names a geometry file, with the file resolved, gets the path of
/// the file for its reference and the geometry attached. Any other is left
/// as it is, whether or not a file is on offer.
pub open spec fn processed(scene_object: SceneObject, resolved: Option<Resolved>) -> Result<
    SceneObject,
    Seq<char>,
> {
    if scene_object.mesh is None {
        Err("Expected scene object to contain mesh"@)
    } else if names_geometry(scene_object) && resolved is Some {
        Ok(
            SceneObject {
                mesh: Some(
                    Mesh::MeshedObject(
                        MeshedObject {
                            reference: resolved->Some_0.path,
                            obj: Some(resolved->Some_0.geometry),
                        },
                    ),
                ),
                ..scene_object
            },
        )
    } else {
        Ok(scene_object)
    }
}

/// Finishes a scene object: checks that it has a mesh and attaches the
/// resolved geometry, if it names any and `resolved` holds it.
pub fn post_process_scene_object(scene_object: SceneObject, resolved: Option<Resolved>) -> (r:
    Result<SceneObject, SceneIOError>)
    ensures
        match r {
            Ok(object) => processed(scene_object, resolved) == Ok::<SceneObject, Seq<char>>(
                object,
            ),
            Err(failure) => processed(scene_object, resolved) is Err && failure@
                == SceneFault::FailedToDecode(processed(scene_object, resolved)->Err_0),
        },
{
    let SceneObject { id, transform, object_material, mesh } = scene_object;
    match mesh {
        None => Err(SceneIOError::decoding("Expected scene object to contain mesh")),
        Some(Mesh::MeshedObject(meshed_object)) => {
            let attached = match resolved {
                Some(found) => if meshed_object.reference.as_str().is_empty() {
                    meshed_object
                } else {
                    MeshedObject { reference: found.path, obj: Some(found.geometry) }
                },
                None => meshed_object,
            };
            Ok(
                SceneObject {
                    id,
                    transform,
                    object_material,
                    mesh: Some(Mesh::MeshedObject(attached)),
                },
            )
        },
        Some(other) => Ok(SceneObject { id, transform, object_material, mesh: Some(other) }),
    }
}

/// Whether every scene object of a scene has a mesh.
pub open spec fn all_meshed(scene: Scene) -> bool {
    forall|i: int|
        0 <= i < scene.scene_objects@.len() ==> (#[trigger] scene.scene_objects@[i]).mesh is Some
}

/// Finishes a scene that was read without a context directory: nothing is
/// resolved, and the scene stands as it is if each of its objects has a
/// mesh.
pub fn post_process_scene(scene: Scene) -> (r: Result<Scene, SceneIOError>)
    ensures
        match r {
            Ok(finished) => all_meshed(scene) && finished == scene,
            Err(failure) => !all_meshed(scene) && failure@ == SceneFault::FailedToDecode(
                "Expected scene object to contain mesh"@,
            ),
        },
{
    let mut at: usize = 0;
    while at < scene.scene_objects.len()
        invariant
            at <= scene.scene_objects.len(),
            forall|i: int| 0 <= i < at ==> (#[trigger] scene.scene_objects@[i]).mesh is Some,
        decreases scene.scene_objects.len() - at,
    {
        if scene.scene_objects[at].mesh.is_none() {
            return Err(SceneIOError::decoding("Expected scene object to contain mesh"));
        }
        at = at + 1;
    }
    Ok(scene)
}

} // verus!
