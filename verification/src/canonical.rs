//! What normalization guarantees: the shape that it leaves, what it fills
//! in, how it wraps the flat fields of earlier documents, and that it leaves
//! a document in canonical shape as it is.

use vstd::prelude::*;
use crate::json::JsonTree;
use crate::normalize::{
    and_then_normal, camera_normal, document_normal, each_normal, light_normal,
    render_options_normal, scene_normal, scene_object_normal, transform_normal,
    with_cameras_normal, with_lights_normal, with_render_options_normal,
    with_scene_objects_normal, with_transform_normal,
};

verus! {

/// The field names that normalization reads or writes are different names.
pub proof fn lemma_names_differ()
    ensures
        "sphere"@ != "mesh"@,
        "cube"@ != "mesh"@,
        "plane"@ != "mesh"@,
        "disk"@ != "mesh"@,
        "meshed_object"@ != "mesh"@,
        "transform"@ != "mesh"@,
        "transform"@ != "sphere"@,
        "transform"@ != "cube"@,
        "transform"@ != "plane"@,
        "transform"@ != "disk"@,
        "transform"@ != "meshed_object"@,
        "transform"@ != "point"@,
        "transform"@ != "directional"@,
        "transform"@ != "environment"@,
        "transform"@ != "light"@,
        "point"@ != "light"@,
        "directional"@ != "light"@,
        "environment"@ != "light"@,
        "point"@ != "environment"@,
        "directional"@ != "environment"@,
        "point"@ != "directional"@,
        "renderOptions"@ != "cameras"@,
        "renderOptions"@ != "sceneObjects"@,
        "renderOptions"@ != "lights"@,
        "renderOptions"@ != "materials"@,
        "cameras"@ != "sceneObjects"@,
        "cameras"@ != "lights"@,
        "cameras"@ != "materials"@,
        "sceneObjects"@ != "lights"@,
        "sceneObjects"@ != "materials"@,
        "lights"@ != "materials"@,
{
    reveal_strlit("sphere");
    reveal_strlit("cube");
    reveal_strlit("plane");
    reveal_strlit("disk");
    reveal_strlit("meshed_object");
    reveal_strlit("mesh");
    reveal_strlit("transform");
    reveal_strlit("point");
    reveal_strlit("directional");
    reveal_strlit("environment");
    reveal_strlit("light");
    reveal_strlit("renderOptions");
    reveal_strlit("cameras");
    reveal_strlit("sceneObjects");
    reveal_strlit("lights");
    reveal_strlit("materials");
    assert("meshed_object"@.len() != "mesh"@.len());
    assert("cube"@[0] != "mesh"@[0]);
    assert("disk"@[0] != "mesh"@[0]);
    assert("point"@[0] != "light"@[0]);
    assert("transform"@[0] != "meshed_object"@[0]);
    assert("transform"@[0] != "directional"@[0]);
    assert("transform"@[0] != "environment"@[0]);
    assert("directional"@[0] != "environment"@[0]);
    assert("renderOptions"@[0] != "sceneObjects"@[0]);
    assert("cameras"@[0] != "lights"@[0]);
    assert("sceneObjects"@[0] != "materials"@[0]);
}

/// Defaulting of the parent: a normalized transform names its parent; one
/// that named none hangs from the root, 0; and nothing else about it
/// changes.
pub proof fn lemma_transform_names_parent(transform: Map<Seq<char>, JsonTree>)
    ensures
        transform_normal(transform).contains_key("parentId"@),
        !transform.contains_key("parentId"@) ==> transform_normal(transform)["parentId"@]
            == JsonTree::Number("0"@),
        transform.contains_key("parentId"@) ==> transform_normal(transform) == transform,
        forall|key: Seq<char>|
            key != "parentId"@ ==> (transform_normal(transform).contains_key(key)
                <==> transform.contains_key(key)),
        forall|key: Seq<char>|
            key != "parentId"@ && transform.contains_key(key) ==> transform_normal(
                transform,
            )[key] == transform[key],
{
}

/// Defaulting of custom properties: normalized render options list their
/// custom properties; options that listed none have an empty list; and
/// nothing else about them changes.
pub proof fn lemma_render_options_list_properties(options: Map<Seq<char>, JsonTree>)
    ensures
        render_options_normal(options).contains_key("customProperties"@),
        !options.contains_key("customProperties"@) ==> render_options_normal(
            options,
        )["customProperties"@] == JsonTree::Array(Seq::empty()),
        options.contains_key("customProperties"@) ==> render_options_normal(options) == options,
        forall|key: Seq<char>|
            key != "customProperties"@ ==> (render_options_normal(options).contains_key(key)
                <==> options.contains_key(key)),
        forall|key: Seq<char>|
            key != "customProperties"@ && options.contains_key(key) ==> render_options_normal(
                options,
            )[key] == options[key],
{
}

/// An entity that normalization accepts has, for its transform, an object
/// that names its parent.
pub proof fn lemma_entity_transform_names_parent(entity: Map<Seq<char>, JsonTree>)
    requires
        entity.contains_key("transform"@),
        with_transform_normal(entity) is Ok,
    ensures
        with_transform_normal(entity)->Ok_0.contains_key("transform"@),
        with_transform_normal(entity)->Ok_0["transform"@] matches JsonTree::Object(transform)
            && transform.contains_key("parentId"@),
{
}

/// The items of a normalized array, one by one: each item of the array was
/// an object, and stands normalized in its place.
pub proof fn lemma_each_normal_items(
    items: Seq<JsonTree>,
    one: spec_fn(Map<Seq<char>, JsonTree>) -> Result<Map<Seq<char>, JsonTree>, Seq<char>>,
    complaint: Seq<char>,
)
    requires
        each_normal(items, one, complaint) is Ok,
    ensures
        each_normal(items, one, complaint)->Ok_0.len() == items.len(),
        forall|i: int|
            0 <= i < items.len() ==> {
                &&& (#[trigger] items[i]) matches JsonTree::Object(fields)
                &&& one(fields) matches Ok(normal)
                &&& each_normal(items, one, complaint)->Ok_0[i] == JsonTree::Object(normal)
            },
    decreases items.len(),
{
    if items.len() > 0 {
        let earlier = items.drop_last();
        lemma_each_normal_items(earlier, one, complaint);
        let normal = each_normal(items, one, complaint)->Ok_0;
        assert forall|i: int| 0 <= i < items.len() implies {
            &&& (#[trigger] items[i]) matches JsonTree::Object(fields)
            &&& one(fields) matches Ok(normal_fields)
            &&& normal[i] == JsonTree::Object(normal_fields)
        } by {
            if i < earlier.len() {
                assert(earlier[i] == items[i]);
            }
        }
    }
}

/// An array whose items are objects that `one` leaves as they are is left
/// as it is.
pub proof fn lemma_each_normal_fixed(
    items: Seq<JsonTree>,
    one: spec_fn(Map<Seq<char>, JsonTree>) -> Result<Map<Seq<char>, JsonTree>, Seq<char>>,
    complaint: Seq<char>,
)
    requires
        forall|i: int|
            0 <= i < items.len() ==> {
                &&& (#[trigger] items[i]) matches JsonTree::Object(fields)
                &&& one(fields) == Ok::<Map<Seq<char>, JsonTree>, Seq<char>>(fields)
            },
    ensures
        each_normal(items, one, complaint) == Ok::<Seq<JsonTree>, Seq<char>>(items),
    decreases items.len(),
{
    if items.len() > 0 {
        lemma_each_normal_fixed(items.drop_last(), one, complaint);
        assert(items.drop_last().push(items.last()) =~= items);
    } else {
        assert(items =~= Seq::<JsonTree>::empty());
    }
}

/// Whether the transform of an entity, if it has one, is an object that
/// names its parent.
pub open spec fn transform_canonical(entity: Map<Seq<char>, JsonTree>) -> bool {
    entity.contains_key("transform"@) ==> (entity["transform"@] matches JsonTree::Object(
        transform,
    ) && transform.contains_key("parentId"@))
}

pub open spec fn camera_canonical(camera: JsonTree) -> bool {
    camera matches JsonTree::Object(fields) && transform_canonical(fields)
}

/// A scene object in canonical shape has no flat shape field.
pub open spec fn scene_object_canonical(scene_object: JsonTree) -> bool {
    scene_object matches JsonTree::Object(fields) && {
        &&& transform_canonical(fields)
        &&& !fields.contains_key("sphere"@)
        &&& !fields.contains_key("cube"@)
        &&& !fields.contains_key("plane"@)
        &&& !fields.contains_key("disk"@)
        &&& !fields.contains_key("meshed_object"@)
    }
}

/// A light in canonical shape has no flat light field.
pub open spec fn light_canonical(light: JsonTree) -> bool {
    light matches JsonTree::Object(fields) && {
        &&& transform_canonical(fields)
        &&& !fields.contains_key("point"@)
        &&& !fields.contains_key("directional"@)
        &&& !fields.contains_key("environment"@)
    }
}

/// Whether a document is in canonical shape: it is an object with lights
/// and materials; its render options list their custom properties; its
/// cameras, scene objects and lights are arrays of objects in canonical
/// shape.
pub open spec fn document_canonical(document: JsonTree) -> bool {
    document matches JsonTree::Object(scene) && {
        &&& scene.contains_key("renderOptions"@) ==> (scene["renderOptions"@]
            matches JsonTree::Object(options) && options.contains_key("customProperties"@))
        &&& scene.contains_key("cameras"@) ==> (scene["cameras"@] matches JsonTree::Array(cameras)
            && forall|i: int| 0 <= i < cameras.len() ==> camera_canonical(#[trigger] cameras[i]))
        &&& scene.contains_key("sceneObjects"@) ==> (scene["sceneObjects"@]
            matches JsonTree::Array(scene_objects) && forall|i: int|
            0 <= i < scene_objects.len() ==> scene_object_canonical(#[trigger] scene_objects[i]))
        &&& scene.contains_key("lights"@)
        &&& scene["lights"@] matches JsonTree::Array(lights) && forall|i: int|
            0 <= i < lights.len() ==> light_canonical(#[trigger] lights[i])
        &&& scene.contains_key("materials"@)
    }
}

/// An entity whose transform is canonical keeps it.
pub proof fn lemma_transform_fixed(entity: Map<Seq<char>, JsonTree>)
    requires
        transform_canonical(entity),
    ensures
        with_transform_normal(entity) == Ok::<Map<Seq<char>, JsonTree>, Seq<char>>(entity),
{
    if entity.contains_key("transform"@) {
        let transform = entity["transform"@]->Object_0;
        assert(entity.insert("transform"@, JsonTree::Object(transform_normal(transform)))
            =~= entity);
    }
}

/// Transparency of the text encoding: normalization leaves a document in
/// canonical shape exactly as it is, so reading it strictly reads what was
/// written.
pub proof fn lemma_canonical_document_is_fixed(document: JsonTree)
    requires
        document_canonical(document),
    ensures
        document_normal(document) == Ok::<JsonTree, Seq<char>>(document),
{
    let scene = document->Object_0;
    if scene.contains_key("renderOptions"@) {
        let options = scene["renderOptions"@]->Object_0;
        assert(scene.insert("renderOptions"@, JsonTree::Object(render_options_normal(options)))
            =~= scene);
    }
    assert(with_render_options_normal(scene) == Ok::<Map<Seq<char>, JsonTree>, Seq<char>>(scene));
    if scene.contains_key("cameras"@) {
        let cameras = scene["cameras"@]->Array_0;
        assert forall|i: int| 0 <= i < cameras.len() implies {
            &&& (#[trigger] cameras[i]) matches JsonTree::Object(fields)
            &&& camera_normal(fields) == Ok::<Map<Seq<char>, JsonTree>, Seq<char>>(fields)
        } by {
            assert(camera_canonical(cameras[i]));
            lemma_transform_fixed(cameras[i]->Object_0);
        }
        lemma_each_normal_fixed(
            cameras,
            |camera: Map<Seq<char>, JsonTree>| camera_normal(camera),
            "Expected camera to be an object"@,
        );
        assert(scene.insert("cameras"@, JsonTree::Array(cameras)) =~= scene);
    }
    assert(with_cameras_normal(scene) == Ok::<Map<Seq<char>, JsonTree>, Seq<char>>(scene));
    if scene.contains_key("sceneObjects"@) {
        let scene_objects = scene["sceneObjects"@]->Array_0;
        assert forall|i: int| 0 <= i < scene_objects.len() implies {
            &&& (#[trigger] scene_objects[i]) matches JsonTree::Object(fields)
            &&& scene_object_normal(fields) == Ok::<Map<Seq<char>, JsonTree>, Seq<char>>(fields)
        } by {
            assert(scene_object_canonical(scene_objects[i]));
            lemma_transform_fixed(scene_objects[i]->Object_0);
        }
        lemma_each_normal_fixed(
            scene_objects,
            |scene_object: Map<Seq<char>, JsonTree>| scene_object_normal(scene_object),
            "Expected scene object to be an object"@,
        );
        assert(scene.insert("sceneObjects"@, JsonTree::Array(scene_objects)) =~= scene);
    }
    assert(with_scene_objects_normal(scene) == Ok::<Map<Seq<char>, JsonTree>, Seq<char>>(scene));
    let lights = scene["lights"@]->Array_0;
    assert forall|i: int| 0 <= i < lights.len() implies {
        &&& (#[trigger] lights[i]) matches JsonTree::Object(fields)
        &&& light_normal(fields) == Ok::<Map<Seq<char>, JsonTree>, Seq<char>>(fields)
    } by {
        assert(light_canonical(lights[i]));
        lemma_transform_fixed(lights[i]->Object_0);
    }
    lemma_each_normal_fixed(
        lights,
        |light: Map<Seq<char>, JsonTree>| light_normal(light),
        "Expected light to be an object"@,
    );
    assert(scene.insert("lights"@, JsonTree::Array(lights)) =~= scene);
    assert(with_lights_normal(scene) == Ok::<Map<Seq<char>, JsonTree>, Seq<char>>(scene));
}

/// Whether the transform of an entity, if it has one, is an object.
pub open spec fn transform_well_shaped(entity: Map<Seq<char>, JsonTree>) -> bool {
    entity.contains_key("transform"@) ==> entity["transform"@] is Object
}

/// Folding of a flat shape: a scene object with a flat `sphere` and no other
/// flat shape field has, once normalized, a `mesh` whose only field is
/// `sphere`, with what the flat field holds. Whether it had a `mesh` before
/// does not matter.
pub proof fn lemma_sphere_folds(
    scene_object: Map<Seq<char>, JsonTree>,
    payload: Map<Seq<char>, JsonTree>,
)
    requires
        transform_well_shaped(scene_object),
        scene_object.contains_key("sphere"@),
        scene_object["sphere"@] == JsonTree::Object(payload),
        !scene_object.contains_key("cube"@),
        !scene_object.contains_key("plane"@),
        !scene_object.contains_key("disk"@),
        !scene_object.contains_key("meshed_object"@),
    ensures
        scene_object_normal(scene_object) is Ok,
        scene_object_normal(scene_object)->Ok_0.contains_key("mesh"@),
        scene_object_normal(scene_object)->Ok_0["mesh"@] == JsonTree::Object(
            Map::<Seq<char>, JsonTree>::empty().insert("sphere"@, JsonTree::Object(payload)),
        ),
{
    lemma_names_differ();
}

/// Folding of a flat meshed object: the flat field is `meshed_object`, and
/// the field of `mesh` that it becomes is `meshedObject`. It is the last
/// flat shape field to be folded, so no other one overrides it.
pub proof fn lemma_meshed_object_folds(
    scene_object: Map<Seq<char>, JsonTree>,
    payload: Map<Seq<char>, JsonTree>,
)
    requires
        scene_object_normal(scene_object) is Ok,
        scene_object.contains_key("meshed_object"@),
        scene_object["meshed_object"@] == JsonTree::Object(payload),
    ensures
        scene_object_normal(scene_object)->Ok_0.contains_key("mesh"@),
        scene_object_normal(scene_object)->Ok_0["mesh"@] == JsonTree::Object(
            Map::<Seq<char>, JsonTree>::empty().insert("meshedObject"@, JsonTree::Object(payload)),
        ),
{
    lemma_names_differ();
}

/// Folding of a flat environment light: a light with a flat `environment`,
/// and neither `point` nor `directional`, has, once normalized, an
/// `environment` whose only field is `environment`, with what the flat field
/// holds. Its `light` is not touched.
pub proof fn lemma_environment_folds(
    light: Map<Seq<char>, JsonTree>,
    payload: Map<Seq<char>, JsonTree>,
)
    requires
        transform_well_shaped(light),
        light.contains_key("environment"@),
        light["environment"@] == JsonTree::Object(payload),
        !light.contains_key("point"@),
        !light.contains_key("directional"@),
    ensures
        light_normal(light) is Ok,
        light_normal(light)->Ok_0.contains_key("environment"@),
        light_normal(light)->Ok_0["environment"@] == JsonTree::Object(
            Map::<Seq<char>, JsonTree>::empty().insert("environment"@, JsonTree::Object(payload)),
        ),
        light_normal(light)->Ok_0.contains_key("light"@) <==> light.contains_key("light"@),
        light.contains_key("light"@) ==> light_normal(light)->Ok_0["light"@] == light["light"@],
{
    lemma_names_differ();
}

/// A scene object with no flat shape field and no `mesh` has no `mesh` once
/// normalized either: normalization invents no shape.
pub proof fn lemma_shapeless_stays_shapeless(scene_object: Map<Seq<char>, JsonTree>)
    requires
        transform_well_shaped(scene_object),
        !scene_object.contains_key("mesh"@),
        !scene_object.contains_key("sphere"@),
        !scene_object.contains_key("cube"@),
        !scene_object.contains_key("plane"@),
        !scene_object.contains_key("disk"@),
        !scene_object.contains_key("meshed_object"@),
    ensures
        scene_object_normal(scene_object) is Ok,
        !scene_object_normal(scene_object)->Ok_0.contains_key("mesh"@),
{
    lemma_names_differ();
}

/// The fields that normalization of a document may change.
pub open spec fn is_scene_list(key: Seq<char>) -> bool {
    key == "renderOptions"@ || key == "cameras"@ || key == "sceneObjects"@ || key == "lights"@
        || key == "materials"@
}

/// Defaulting of lights and materials: a normalized document has an array
/// of lights and has materials; a document without lights gets an empty
/// array of them, and so for materials. Its other fields stay what they
/// were.
pub proof fn lemma_normal_document_has_lists(scene: Map<Seq<char>, JsonTree>)
    requires
        scene_normal(scene) is Ok,
    ensures
        scene_normal(scene)->Ok_0.contains_key("lights"@),
        scene_normal(scene)->Ok_0["lights"@] is Array,
        scene_normal(scene)->Ok_0.contains_key("materials"@),
        !scene.contains_key("lights"@) ==> scene_normal(scene)->Ok_0["lights"@]
            == JsonTree::Array(Seq::empty()),
        !scene.contains_key("materials"@) ==> scene_normal(scene)->Ok_0["materials"@]
            == JsonTree::Array(Seq::empty()),
        scene.contains_key("materials"@) ==> scene_normal(scene)->Ok_0["materials"@]
            == scene["materials"@],
        forall|key: Seq<char>|
            !is_scene_list(key) ==> (scene_normal(scene)->Ok_0.contains_key(key)
                <==> scene.contains_key(key)),
        forall|key: Seq<char>|
            !is_scene_list(key) && scene.contains_key(key) ==> scene_normal(scene)->Ok_0[key]
                == scene[key],
{
    lemma_names_differ();
    let options = with_render_options_normal(scene);
    let cameras = and_then_normal(
        options,
        |scene: Map<Seq<char>, JsonTree>| with_cameras_normal(scene),
    );
    let scene_objects = and_then_normal(
        cameras,
        |scene: Map<Seq<char>, JsonTree>| with_scene_objects_normal(scene),
    );
    let lights = and_then_normal(
        scene_objects,
        |scene: Map<Seq<char>, JsonTree>| with_lights_normal(scene),
    );
    assert(lights is Ok);
    assert(scene_objects is Ok);
    assert(cameras is Ok);
    assert(options is Ok);
}

} // verus!
