//! The canonical scene: the strict model that every scene document is read
//! into, whatever its encoding.

use vstd::prelude::*;
use crate::camera;
use crate::light;
use crate::material;
use crate::scene_object;

verus! {

/// A real number, held as the 64 bits of its IEEE 754 double. Two reals are
/// the same when their bits are: the two zeros differ.
#[derive(Clone, Copy, Debug, PartialEq, Eq)]
pub struct Real {
    pub bits: u64,
}

/// The bits of the double 1.
pub const ONE_BITS: u64 = 0x3FF0_0000_0000_0000;

impl Real {
    /// The real number 1.
    pub fn one() -> (r: Real)
        ensures
            r.bits == ONE_BITS,
    {
        Real { bits: ONE_BITS }
    }
}

#[derive(Clone, Copy, Debug, PartialEq, Eq)]
pub struct Vector3 {
    pub x: Real,
    pub y: Real,
    pub z: Real,
}

#[derive(Clone, Copy, Debug, PartialEq, Eq)]
pub struct Color {
    pub r: Real,
    pub g: Real,
    pub b: Real,
}

/// Where an entity stands. `parent_id` 0 means that it hangs from the root.
#[derive(Clone, Debug, PartialEq, Eq)]
pub struct Transform {
    pub parent_id: u32,
    pub position: Option<Vector3>,
    pub rotation: Option<Vector3>,
    pub scale: Option<Vector3>,
}

/// A property that a renderer may read and the scene format does not.
#[derive(Clone, Debug, PartialEq, Eq)]
pub struct CustomProperty {
    pub name: String,
    pub value: String,
}

#[derive(Clone, Debug, PartialEq, Eq)]
pub struct RenderOptions {
    pub camera_id: u32,
    pub width: u32,
    pub height: u32,
    pub custom_properties: Vec<CustomProperty>,
}

#[derive(Clone, Copy, Debug, PartialEq, Eq)]
pub struct PerspectiveCamera {
    pub fov: Real,
}

#[derive(Clone, Debug, PartialEq, Eq)]
pub struct Camera {
    pub id: u32,
    pub transform: Option<Transform>,
    pub camera: Option<camera::Camera>,
}

#[derive(Clone, Debug, PartialEq, Eq)]
pub struct Light {
    pub id: u32,
    pub transform: Option<Transform>,
    pub light: Option<light::Light>,
}

#[derive(Clone, Copy, Debug, PartialEq, Eq)]
pub struct LambertReflectionMaterial {
    pub color: Option<Color>,
}

#[derive(Clone, Debug, PartialEq, Eq)]
pub struct Material {
    pub id: String,
    pub material: Option<material::Material>,
}

/// A vertex in homogeneous coordinates.
#[derive(Clone, Copy, Debug, PartialEq, Eq)]
pub struct Vertex {
    pub x: Real,
    pub y: Real,
    pub z: Real,
    pub w: Real,
}

#[derive(Clone, Copy, Debug, PartialEq, Eq)]
pub struct VertexNormal {
    pub x: Real,
    pub y: Real,
    pub z: Real,
}

#[derive(Clone, Copy, Debug, PartialEq, Eq)]
pub struct TextureCoordinate {
    pub u: Real,
    pub v: Real,
}

/// One corner of a face. The indices count from 1; 0 means that the corner
/// names none.
#[derive(Clone, Copy, Debug, PartialEq, Eq)]
pub struct FaceElement {
    pub vertex_index: u32,
    pub texture_index: u32,
    pub normal_index: u32,
}

#[derive(Clone, Debug, PartialEq, Eq)]
pub struct Face {
    pub elements: Vec<FaceElement>,
}

impl View for Face {
    type V = Seq<FaceElement>;

    open spec fn view(&self) -> Seq<FaceElement> {
        self.elements@
    }
}

/// The geometry of a mesh, as its file lists it.
#[derive(Clone, Debug, PartialEq, Eq)]
pub struct MeshGeometry {
    pub faces: Vec<Face>,
    pub texture_coordinates: Vec<TextureCoordinate>,
    pub vertex_normals: Vec<VertexNormal>,
    pub vertices: Vec<Vertex>,
}

/// The geometry of a mesh as plain sequences.
pub struct MeshShape {
    pub faces: Seq<Seq<FaceElement>>,
    pub texture_coordinates: Seq<TextureCoordinate>,
    pub vertex_normals: Seq<VertexNormal>,
    pub vertices: Seq<Vertex>,
}

impl View for MeshGeometry {
    type V = MeshShape;

    open spec fn view(&self) -> MeshShape {
        MeshShape {
            faces: Seq::new(self.faces@.len(), |i: int| self.faces@[i]@),
            texture_coordinates: self.texture_coordinates@,
            vertex_normals: self.vertex_normals@,
            vertices: self.vertices@,
        }
    }
}

/// A mesh that lives in a geometry file. `reference` names the file; `obj`
/// is its geometry once it has been loaded, and is never part of a written
/// scene.
#[derive(Clone, Debug, PartialEq, Eq)]
pub struct MeshedObject {
    pub reference: String,
    pub obj: Option<MeshGeometry>,
}

#[derive(Clone, Debug, PartialEq, Eq)]
pub struct SceneObject {
    pub id: u32,
    pub transform: Option<Transform>,
    pub object_material: Option<scene_object::ObjectMaterial>,
    pub mesh: Option<scene_object::Mesh>,
}

#[derive(Clone, Debug, PartialEq, Eq)]
pub struct Scene {
    pub version: u32,
    pub render_options: Option<RenderOptions>,
    pub scene_objects: Vec<SceneObject>,
    pub cameras: Vec<Camera>,
    pub lights: Vec<Light>,
    pub materials: Vec<Material>,
}

} // verus!
