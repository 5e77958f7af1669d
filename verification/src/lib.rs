//! Persistence core for 3D scene documents: detection of the encoding,
//! normalization of loosely shaped text documents, geometry loading and
//! resolution of geometry references.

pub mod camera;
pub mod canonical;
pub mod codec;
pub mod errors;
pub mod json;
pub mod light;
pub mod material;
pub mod normalize;
pub mod obj;
pub mod resolve;
pub mod scene;
pub mod scene_object;

pub use crate::codec::{decode, Decoded};
pub use crate::errors::SceneIOError;
pub use crate::scene::{
    Camera, Color, CustomProperty, Face, FaceElement, LambertReflectionMaterial, Light, Material,
    MeshGeometry, MeshedObject, PerspectiveCamera, Real, RenderOptions, Scene, SceneObject,
    TextureCoordinate, Transform, Vector3, Vertex, VertexNormal,
};
