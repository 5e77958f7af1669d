//! Normalization of a loosely shaped text document into the shape that
//! strict reading expects: defaults are filled in and the flat shape and
//! light fields of earlier documents are wrapped.
//!
//! Every step is stated on the value of the document, a map from field
//! names to values, and fails with the first shape violation it meets.

use vstd::prelude::*;
use vstd::string::StringExecFns;
use crate::errors::{SceneFault, SceneIOError};
use crate::json::{items_view, lemma_items_view, lemma_items_view_push, JsonObject, JsonTree, JsonValue};

verus! {

/// A transform with its parent: one that names none hangs from the root, 0.
pub open spec fn transform_normal(transform: Map<Seq<char>, JsonTree>) -> Map<Seq<char>, JsonTree> {
    if transform.contains_key("parentId"@) {
        transform
    } else {
        transform.insert("parentId"@, JsonTree::Number("0"@))
    }
}

/// Render options with their list of custom properties, empty if they had
/// none.
pub open spec fn render_options_normal(options: Map<Seq<char>, JsonTree>) -> Map<
    Seq<char>,
    JsonTree,
> {
    if options.contains_key("customProperties"@) {
        options
    } else {
        options.insert("customProperties"@, JsonTree::Array(Seq::empty()))
    }
}

/// An entity whose `transform`, if it has one, is normalized. A `transform`
/// that is no object is a violation.
pub open spec fn with_transform_normal(entity: Map<Seq<char>, JsonTree>) -> Result<
    Map<Seq<char>, JsonTree>,
    Seq<char>,
> {
    if !entity.contains_key("transform"@) {
        Ok(entity)
    } else {
        match entity["transform"@] {
            JsonTree::Object(transform) => Ok(
                entity.insert("transform"@, JsonTree::Object(transform_normal(transform))),
            ),
            _ => Err("Expected transform to be an object"@),
        }
    }
}

/// An entity whose flat field `legacy`, if it has one, is also found wrapped:
/// the field `wrapper` becomes an object whose only field, `canonical`, holds
/// what `legacy` holds. A `legacy` that is no object is a violation, reported
/// as `complaint`.
pub open spec fn folded(
    entity: Map<Seq<char>, JsonTree>,
    legacy: Seq<char>,
    wrapper: Seq<char>,
    canonical: Seq<char>,
    complaint: Seq<char>,
) -> Result<Map<Seq<char>, JsonTree>, Seq<char>> {
    if !entity.contains_key(legacy) {
        Ok(entity)
    } else {
        match entity[legacy] {
            JsonTree::Object(payload) => Ok(
                entity.insert(
                    wrapper,
                    JsonTree::Object(
                        Map::<Seq<char>, JsonTree>::empty().insert(
                            canonical,
                            JsonTree::Object(payload),
                        ),
                    ),
                ),
            ),
            _ => Err(complaint),
        }
    }
}

/// `folded`, applied to what an earlier step left, unless that step failed.
pub open spec fn and_folded(
    earlier: Result<Map<Seq<char>, JsonTree>, Seq<char>>,
    legacy: Seq<char>,
    wrapper: Seq<char>,
    canonical: Seq<char>,
    complaint: Seq<char>,
) -> Result<Map<Seq<char>, JsonTree>, Seq<char>> {
    match earlier {
        Ok(entity) => folded(entity, legacy, wrapper, canonical, complaint),
        Err(violation) => Err(violation),
    }
}

/// A camera in canonical shape.
pub open spec fn camera_normal(camera: Map<Seq<char>, JsonTree>) -> Result<
    Map<Seq<char>, JsonTree>,
    Seq<char>,
> {
    with_transform_normal(camera)
}

/// A scene object in canonical shape: its transform normalized, then each
/// flat shape field wrapped into `mesh`, in the order sphere, cube, plane,
/// disk, meshed object, so that the last one present decides `mesh`.
pub open spec fn scene_object_normal(scene_object: Map<Seq<char>, JsonTree>) -> Result<
    Map<Seq<char>, JsonTree>,
    Seq<char>,
> {
    let transformed = with_transform_normal(scene_object);
    let sphere = and_folded(
        transformed,
        "sphere"@,
        "mesh"@,
        "sphere"@,
        "Expected sphere to be an object"@,
    );
    let cube = and_folded(sphere, "cube"@, "mesh"@, "cube"@, "Expected cube to be an object"@);
    let plane = and_folded(cube, "plane"@, "mesh"@, "plane"@, "Expected plane to be an object"@);
    let disk = and_folded(plane, "disk"@, "mesh"@, "disk"@, "Expected disk to be an object"@);
    and_folded(
        disk,
        "meshed_object"@,
        "mesh"@,
        "meshedObject"@,
        "Expected meshed object to be an object"@,
    )
}

/// A light in canonical shape: its transform normalized, then the flat
/// fields `point` and `directional` wrapped into `light`, and the flat field
/// `environment` wrapped into `environment` itself.
pub open spec fn light_normal(light: Map<Seq<char>, JsonTree>) -> Result<
    Map<Seq<char>, JsonTree>,
    Seq<char>,
> {
    let transformed = with_transform_normal(light);
    let point = and_folded(
        transformed,
        "point"@,
        "light"@,
        "point"@,
        "Expected point light to be an object"@,
    );
    let directional = and_folded(
        point,
        "directional"@,
        "light"@,
        "directional"@,
        "Expected directional light to be an object"@,
    );
    and_folded(
        directional,
        "environment"@,
        "environment"@,
        "environment"@,
        "Expected environment light to be an object"@,
    )
}

/// The items of an array, each normalized by `one`. The first item that is
/// no object (reported as `complaint`) or that `one` refuses ends it.
pub open spec fn each_normal(
    items: Seq<JsonTree>,
    one: spec_fn(Map<Seq<char>, JsonTree>) -> Result<Map<Seq<char>, JsonTree>, Seq<char>>,
    complaint: Seq<char>,
) -> Result<Seq<JsonTree>, Seq<char>>
    decreases items.len(),
{
    if items.len() == 0 {
        Ok(Seq::empty())
    } else {
        match each_normal(items.drop_last(), one, complaint) {
            Err(violation) => Err(violation),
            Ok(earlier) => match items.last() {
                JsonTree::Object(fields) => match one(fields) {
                    Ok(normal) => Ok(earlier.push(JsonTree::Object(normal))),
                    Err(violation) => Err(violation),
                },
                _ => Err(complaint),
            },
        }
    }
}

pub open spec fn cameras_normal(cameras: Seq<JsonTree>) -> Result<Seq<JsonTree>, Seq<char>> {
    each_normal(
        cameras,
        |camera: Map<Seq<char>, JsonTree>| camera_normal(camera),
        "Expected camera to be an object"@,
    )
}

pub open spec fn scene_objects_normal(scene_objects: Seq<JsonTree>) -> Result<
    Seq<JsonTree>,
    Seq<char>,
> {
    each_normal(
        scene_objects,
        |scene_object: Map<Seq<char>, JsonTree>| scene_object_normal(scene_object),
        "Expected scene object to be an object"@,
    )
}

pub open spec fn lights_normal(lights: Seq<JsonTree>) -> Result<Seq<JsonTree>, Seq<char>> {
    each_normal(
        lights,
        |light: Map<Seq<char>, JsonTree>| light_normal(light),
        "Expected light to be an object"@,
    )
}

/// A document whose `renderOptions`, if it has them, are normalized.
pub open spec fn with_render_options_normal(scene: Map<Seq<char>, JsonTree>) -> Result<
    Map<Seq<char>, JsonTree>,
    Seq<char>,
> {
    if !scene.contains_key("renderOptions"@) {
        Ok(scene)
    } else {
        match scene["renderOptions"@] {
            JsonTree::Object(options) => Ok(
                scene.insert("renderOptions"@, JsonTree::Object(render_options_normal(options))),
            ),
            _ => Err("Expected render options to be an object"@),
        }
    }
}

/// A document whose `cameras`, if it has them, are normalized.
pub open spec fn with_cameras_normal(scene: Map<Seq<char>, JsonTree>) -> Result<
    Map<Seq<char>, JsonTree>,
    Seq<char>,
> {
    if !scene.contains_key("cameras"@) {
        Ok(scene)
    } else {
        match scene["cameras"@] {
            JsonTree::Array(cameras) => match cameras_normal(cameras) {
                Ok(normal) => Ok(scene.insert("cameras"@, JsonTree::Array(normal))),
                Err(violation) => Err(violation),
            },
            _ => Err("Expected cameras to be an array"@),
        }
    }
}

/// A document whose `sceneObjects`, if it has them, are normalized.
pub open spec fn with_scene_objects_normal(scene: Map<Seq<char>, JsonTree>) -> Result<
    Map<Seq<char>, JsonTree>,
    Seq<char>,
> {
    if !scene.contains_key("sceneObjects"@) {
        Ok(scene)
    } else {
        match scene["sceneObjects"@] {
            JsonTree::Array(scene_objects) => match scene_objects_normal(scene_objects) {
                Ok(normal) => Ok(scene.insert("sceneObjects"@, JsonTree::Array(normal))),
                Err(violation) => Err(violation),
            },
            _ => Err("Expected sceneObjects to be an array"@),
        }
    }
}

/// A document whose `lights` are normalized; one without `lights` gets an
/// empty array of them.
pub open spec fn with_lights_normal(scene: Map<Seq<char>, JsonTree>) -> Result<
    Map<Seq<char>, JsonTree>,
    Seq<char>,
> {
    if !scene.contains_key("lights"@) {
        Ok(scene.insert("lights"@, JsonTree::Array(Seq::empty())))
    } else {
        match scene["lights"@] {
            JsonTree::Array(lights) => match lights_normal(lights) {
                Ok(normal) => Ok(scene.insert("lights"@, JsonTree::Array(normal))),
                Err(violation) => Err(violation),
            },
            _ => Err("Expected lights to be an array"@),
        }
    }
}

/// A document with its `materials`: one without them gets an empty array.
/// What the field holds, if it is there, is not looked at.
pub open spec fn with_materials(scene: Map<Seq<char>, JsonTree>) -> Map<Seq<char>, JsonTree> {
    if scene.contains_key("materials"@) {
        scene
    } else {
        scene.insert("materials"@, JsonTree::Array(Seq::empty()))
    }
}

/// A step applied to what an earlier step left, unless that step failed.
pub open spec fn and_then_normal(
    earlier: Result<Map<Seq<char>, JsonTree>, Seq<char>>,
    step: spec_fn(Map<Seq<char>, JsonTree>) -> Result<Map<Seq<char>, JsonTree>, Seq<char>>,
) -> Result<Map<Seq<char>, JsonTree>, Seq<char>> {
    match earlier {
        Ok(scene) => step(scene),
        Err(violation) => Err(violation),
    }
}

/// The fields of a document in canonical shape: render options, cameras,
/// scene objects and lights are normalized in this order, each on what the
/// one before left, and materials are defaulted last.
pub open spec fn scene_normal(scene: Map<Seq<char>, JsonTree>) -> Result<
    Map<Seq<char>, JsonTree>,
    Seq<char>,
> {
    let options = with_render_options_normal(scene);
    let cameras = and_then_normal(
        options,
        |scene: Map<Seq<char>, JsonTree>| with_cameras_normal(scene),
    );
    let scene_objects = and_then_normal(
        cameras,
        |scene: Map<Seq<char>, JsonTree>| with_scene_objects_normal(scene),
    );
    let lights = and_then_normal(
        scene_objects,
        |scene: Map<Seq<char>, JsonTree>| with_lights_normal(scene),
    );
    match lights {
        Ok(scene) => Ok(with_materials(scene)),
        Err(violation) => Err(violation),
    }
}

/// A document in canonical shape. Only an object can be a scene.
pub open spec fn document_normal(document: JsonTree) -> Result<JsonTree, Seq<char>> {
    match document {
        JsonTree::Object(scene) => match scene_normal(scene) {
            Ok(normal) => Ok(JsonTree::Object(normal)),
            Err(violation) => Err(violation),
        },
        _ => Err("Expected top level structure to be object"@),
    }
}

/// What normalization of a document returned, held against what it should
/// be.
pub open spec fn document_outcome(
    returned: Result<JsonValue, SceneIOError>,
    expected: Result<JsonTree, Seq<char>>,
) -> bool {
    match returned {
        Ok(document) => expected == Ok::<JsonTree, Seq<char>>(document@),
        Err(failure) => expected is Err && failure@ == SceneFault::FailedToDecode(
            expected->Err_0,
        ),
    }
}

/// A violation met in the first items of an array is the violation of the
/// whole array.
pub proof fn lemma_each_normal_fails_early(
    items: Seq<JsonTree>,
    one: spec_fn(Map<Seq<char>, JsonTree>) -> Result<Map<Seq<char>, JsonTree>, Seq<char>>,
    complaint: Seq<char>,
    count: int,
)
    requires
        0 <= count <= items.len(),
        each_normal(items.take(count), one, complaint) is Err,
    ensures
        each_normal(items, one, complaint) == each_normal(items.take(count), one, complaint),
    decreases items.len(),
{
    if count == items.len() {
        assert(items.take(count) =~= items);
    } else {
        assert(items.drop_last().take(count) =~= items.take(count));
        lemma_each_normal_fails_early(items.drop_last(), one, complaint, count);
    }
}

/// What a step on an object returned, held against what it should be.
pub open spec fn object_outcome(
    returned: Result<JsonObject, SceneIOError>,
    expected: Result<Map<Seq<char>, JsonTree>, Seq<char>>,
) -> bool {
    match returned {
        Ok(object) => expected == Ok::<Map<Seq<char>, JsonTree>, Seq<char>>(object@),
        Err(failure) => expected is Err && failure@ == SceneFault::FailedToDecode(
            expected->Err_0,
        ),
    }
}

/// What a step on the items of an array returned, held against what it
/// should be.
pub open spec fn items_outcome(
    returned: Result<Vec<JsonValue>, SceneIOError>,
    expected: Result<Seq<JsonTree>, Seq<char>>,
) -> bool {
    match returned {
        Ok(items) => expected == Ok::<Seq<JsonTree>, Seq<char>>(items_view(items@)),
        Err(failure) => expected is Err && failure@ == SceneFault::FailedToDecode(
            expected->Err_0,
        ),
    }
}

/// Gives a transform its parent, 0, if it names none.
pub fn pre_process_transform(transform: &JsonObject) -> (r: Result<JsonObject, SceneIOError>)
    ensures
        object_outcome(r, Ok(transform_normal(transform@))),
{
    let mut transform = transform.clone();
    if !transform.contains_key("parentId") {
        transform.insert(String::from_str("parentId"), JsonValue::Number(String::from_str("0")));
    }
    Ok(transform)
}

/// Gives render options an empty list of custom properties if they have
/// none.
pub fn pre_process_render_options(render_options: &JsonObject) -> (r: Result<
    JsonObject,
    SceneIOError,
>)
    ensures
        object_outcome(r, Ok(render_options_normal(render_options@))),
{
    let mut render_options = render_options.clone();
    if !render_options.contains_key("customProperties") {
        render_options.insert(String::from_str("customProperties"), JsonValue::Array(Vec::new()));
    }
    Ok(render_options)
}

/// Normalizes the `transform` of an entity in place, if it has one.
fn normalize_transform_of(entity: &mut JsonObject) -> (r: Result<(), SceneIOError>)
    ensures
        match r {
            Ok(()) => with_transform_normal(old(entity)@) == Ok::<
                Map<Seq<char>, JsonTree>,
                Seq<char>,
            >(final(entity)@),
            Err(failure) => {
                &&& with_transform_normal(old(entity)@) is Err
                &&& failure@ == SceneFault::FailedToDecode(
                    with_transform_normal(old(entity)@)->Err_0,
                )
                &&& final(entity)@ == old(entity)@
            },
        },
{
    let normal = match entity.get("transform") {
        None => {
            return Ok(());
        },
        Some(JsonValue::Object(transform)) => match pre_process_transform(transform) {
            Ok(normal) => normal,
            Err(failure) => {
                return Err(failure);
            },
        },
        Some(_) => {
            return Err(SceneIOError::decoding("Expected transform to be an object"));
        },
    };
    entity.insert(String::from_str("transform"), JsonValue::Object(normal));
    Ok(())
}

/// Wraps the flat field `legacy` of an entity, if it has one, into the field
/// `wrapper`, under the name `canonical`.
fn fold_legacy(
    entity: &mut JsonObject,
    legacy: &str,
    wrapper: &str,
    canonical: &str,
    complaint: &str,
) -> (r: Result<(), SceneIOError>)
    ensures
        match r {
            Ok(()) => folded(old(entity)@, legacy@, wrapper@, canonical@, complaint@) == Ok::<
                Map<Seq<char>, JsonTree>,
                Seq<char>,
            >(final(entity)@),
            Err(failure) => {
                &&& folded(old(entity)@, legacy@, wrapper@, canonical@, complaint@) == Err::<
                    Map<Seq<char>, JsonTree>,
                    Seq<char>,
                >(complaint@)
                &&& failure@ == SceneFault::FailedToDecode(complaint@)
                &&& final(entity)@ == old(entity)@
            },
        },
{
    let payload = match entity.get(legacy) {
        None => {
            return Ok(());
        },
        Some(JsonValue::Object(payload)) => payload.clone(),
        Some(_) => {
            return Err(SceneIOError::decoding(complaint));
        },
    };
    let mut wrapped = JsonObject::new();
    wrapped.insert(String::from_str(canonical), JsonValue::Object(payload));
    entity.insert(String::from_str(wrapper), JsonValue::Object(wrapped));
    Ok(())
}

/// Brings one camera into canonical shape.
pub fn pre_process_camera(camera: &JsonObject) -> (r: Result<JsonObject, SceneIOError>)
    ensures
        object_outcome(r, camera_normal(camera@)),
{
    let mut camera = camera.clone();
    match normalize_transform_of(&mut camera) {
        Ok(()) => Ok(camera),
        Err(failure) => Err(failure),
    }
}

/// Brings one scene object into canonical shape.
pub fn pre_process_scene_object(scene_object: &JsonObject) -> (r: Result<
    JsonObject,
    SceneIOError,
>)
    ensures
        object_outcome(r, scene_object_normal(scene_object@)),
{
    let mut scene_object = scene_object.clone();
    if let Err(failure) = normalize_transform_of(&mut scene_object) {
        return Err(failure);
    }
    if let Err(failure) = fold_legacy(
        &mut scene_object,
        "sphere",
        "mesh",
        "sphere",
        "Expected sphere to be an object",
    ) {
        return Err(failure);
    }
    if let Err(failure) = fold_legacy(
        &mut scene_object,
        "cube",
        "mesh",
        "cube",
        "Expected cube to be an object",
    ) {
        return Err(failure);
    }
    if let Err(failure) = fold_legacy(
        &mut scene_object,
        "plane",
        "mesh",
        "plane",
        "Expected plane to be an object",
    ) {
        return Err(failure);
    }
    if let Err(failure) = fold_legacy(
        &mut scene_object,
        "disk",
        "mesh",
        "disk",
        "Expected disk to be an object",
    ) {
        return Err(failure);
    }
    if let Err(failure) = fold_legacy(
        &mut scene_object,
        "meshed_object",
        "mesh",
        "meshedObject",
        "Expected meshed object to be an object",
    ) {
        return Err(failure);
    }
    Ok(scene_object)
}

/// Brings one light into canonical shape.
pub fn pre_process_light(light: &JsonObject) -> (r: Result<JsonObject, SceneIOError>)
    ensures
        object_outcome(r, light_normal(light@)),
{
    let mut light = light.clone();
    if let Err(failure) = normalize_transform_of(&mut light) {
        return Err(failure);
    }
    if let Err(failure) = fold_legacy(
        &mut light,
        "point",
        "light",
        "point",
        "Expected point light to be an object",
    ) {
        return Err(failure);
    }
    if let Err(failure) = fold_legacy(
        &mut light,
        "directional",
        "light",
        "directional",
        "Expected directional light to be an object",
    ) {
        return Err(failure);
    }
    if let Err(failure) = fold_legacy(
        &mut light,
        "environment",
        "environment",
        "environment",
        "Expected environment light to be an object",
    ) {
        return Err(failure);
    }
    Ok(light)
}

/// Brings every camera of the array into canonical shape.
pub fn pre_process_cameras(cameras: &Vec<JsonValue>) -> (r: Result<Vec<JsonValue>, SceneIOError>)
    ensures
        items_outcome(r, cameras_normal(items_view(cameras@))),
{
    let ghost trees = items_view(cameras@);
    let ghost one = |camera: Map<Seq<char>, JsonTree>| camera_normal(camera);
    let ghost complaint = "Expected camera to be an object"@;
    let mut new_cameras: Vec<JsonValue> = Vec::new();
    let mut at: usize = 0;
    proof {
        lemma_items_view(cameras@);
    }
    while at < cameras.len()
        invariant
            at <= cameras.len(),
            trees == items_view(cameras@),
            trees.len() == cameras.len(),
            forall|i: int| 0 <= i < cameras.len() ==> #[trigger] trees[i] == cameras@[i]@,
            one == (|camera: Map<Seq<char>, JsonTree>| camera_normal(camera)),
            complaint == "Expected camera to be an object"@,
            each_normal(trees.take(at as int), one, complaint) == Ok::<Seq<JsonTree>, Seq<char>>(
                items_view(new_cameras@),
            ),
        decreases cameras.len() - at,
    {
        proof {
            assert(trees.take(at + 1).drop_last() =~= trees.take(at as int));
            assert(trees.take(at + 1).last() == cameras@[at as int]@);
        }
        let normal = match &cameras[at] {
            JsonValue::Object(camera) => pre_process_camera(camera),
            _ => Err(SceneIOError::decoding("Expected camera to be an object")),
        };
        match normal {
            Ok(camera) => {
                proof {
                    lemma_items_view_push(new_cameras@, JsonValue::Object(camera));
                }
                new_cameras.push(JsonValue::Object(camera));
            },
            Err(failure) => {
                proof {
                    lemma_each_normal_fails_early(trees, one, complaint, at + 1);
                }
                return Err(failure);
            },
        }
        at = at + 1;
    }
    proof {
        assert(trees.take(at as int) =~= trees);
    }
    Ok(new_cameras)
}

/// Brings every scene object of the array into canonical shape.
pub fn pre_process_scene_objects(scene_objects: &Vec<JsonValue>) -> (r: Result<
    Vec<JsonValue>,
    SceneIOError,
>)
    ensures
        items_outcome(r, scene_objects_normal(items_view(scene_objects@))),
{
    let ghost trees = items_view(scene_objects@);
    let ghost one = |scene_object: Map<Seq<char>, JsonTree>| scene_object_normal(scene_object);
    let ghost complaint = "Expected scene object to be an object"@;
    let mut objects: Vec<JsonValue> = Vec::new();
    let mut at: usize = 0;
    proof {
        lemma_items_view(scene_objects@);
    }
    while at < scene_objects.len()
        invariant
            at <= scene_objects.len(),
            trees == items_view(scene_objects@),
            trees.len() == scene_objects.len(),
            forall|i: int|
                0 <= i < scene_objects.len() ==> #[trigger] trees[i] == scene_objects@[i]@,
            one == (|scene_object: Map<Seq<char>, JsonTree>| scene_object_normal(scene_object)),
            complaint == "Expected scene object to be an object"@,
            each_normal(trees.take(at as int), one, complaint) == Ok::<Seq<JsonTree>, Seq<char>>(
                items_view(objects@),
            ),
        decreases scene_objects.len() - at,
    {
        proof {
            assert(trees.take(at + 1).drop_last() =~= trees.take(at as int));
            assert(trees.take(at + 1).last() == scene_objects@[at as int]@);
        }
        let normal = match &scene_objects[at] {
            JsonValue::Object(scene_object) => pre_process_scene_object(scene_object),
            _ => Err(SceneIOError::decoding("Expected scene object to be an object")),
        };
        match normal {
            Ok(scene_object) => {
                proof {
                    lemma_items_view_push(objects@, JsonValue::Object(scene_object));
                }
                objects.push(JsonValue::Object(scene_object));
            },
            Err(failure) => {
                proof {
                    lemma_each_normal_fails_early(trees, one, complaint, at + 1);
                }
                return Err(failure);
            },
        }
        at = at + 1;
    }
    proof {
        assert(trees.take(at as int) =~= trees);
    }
    Ok(objects)
}

/// Brings every light of the array into canonical shape.
pub fn pre_process_lights(lights: &Vec<JsonValue>) -> (r: Result<Vec<JsonValue>, SceneIOError>)
    ensures
        items_outcome(r, lights_normal(items_view(lights@))),
{
    let ghost trees = items_view(lights@);
    let ghost one = |light: Map<Seq<char>, JsonTree>| light_normal(light);
    let ghost complaint = "Expected light to be an object"@;
    let mut new_lights: Vec<JsonValue> = Vec::new();
    let mut at: usize = 0;
    proof {
        lemma_items_view(lights@);
    }
    while at < lights.len()
        invariant
            at <= lights.len(),
            trees == items_view(lights@),
            trees.len() == lights.len(),
            forall|i: int| 0 <= i < lights.len() ==> #[trigger] trees[i] == lights@[i]@,
            one == (|light: Map<Seq<char>, JsonTree>| light_normal(light)),
            complaint == "Expected light to be an object"@,
            each_normal(trees.take(at as int), one, complaint) == Ok::<Seq<JsonTree>, Seq<char>>(
                items_view(new_lights@),
            ),
        decreases lights.len() - at,
    {
        proof {
            assert(trees.take(at + 1).drop_last() =~= trees.take(at as int));
            assert(trees.take(at + 1).last() == lights@[at as int]@);
        }
        let normal = match &lights[at] {
            JsonValue::Object(light) => pre_process_light(light),
            _ => Err(SceneIOError::decoding("Expected light to be an object")),
        };
        match normal {
            Ok(light) => {
                proof {
                    lemma_items_view_push(new_lights@, JsonValue::Object(light));
                }
                new_lights.push(JsonValue::Object(light));
            },
            Err(failure) => {
                proof {
                    lemma_each_normal_fails_early(trees, one, complaint, at + 1);
                }
                return Err(failure);
            },
        }
        at = at + 1;
    }
    proof {
        assert(trees.take(at as int) =~= trees);
    }
    Ok(new_lights)
}

/// What a step did to the fields of a document, held against what it should
/// have done. A step that fails leaves the fields as they were.
pub open spec fn step_outcome(
    returned: Result<(), SceneIOError>,
    before: Map<Seq<char>, JsonTree>,
    after: Map<Seq<char>, JsonTree>,
    expected: Result<Map<Seq<char>, JsonTree>, Seq<char>>,
) -> bool {
    match returned {
        Ok(()) => expected == Ok::<Map<Seq<char>, JsonTree>, Seq<char>>(after),
        Err(failure) => {
            &&& expected is Err
            &&& failure@ == SceneFault::FailedToDecode(expected->Err_0)
            &&& after == before
        },
    }
}

/// Normalizes the render options of a document in place.
fn normalize_render_options_of(scene: &mut JsonObject) -> (r: Result<(), SceneIOError>)
    ensures
        step_outcome(r, old(scene)@, final(scene)@, with_render_options_normal(old(scene)@)),
{
    let normal = match scene.get("renderOptions") {
        None => {
            return Ok(());
        },
        Some(JsonValue::Object(render_options)) => match pre_process_render_options(
            render_options,
        ) {
            Ok(normal) => normal,
            Err(failure) => {
                return Err(failure);
            },
        },
        Some(_) => {
            return Err(SceneIOError::decoding("Expected render options to be an object"));
        },
    };
    scene.insert(String::from_str("renderOptions"), JsonValue::Object(normal));
    Ok(())
}

/// Normalizes the cameras of a document in place.
fn normalize_cameras_of(scene: &mut JsonObject) -> (r: Result<(), SceneIOError>)
    ensures
        step_outcome(r, old(scene)@, final(scene)@, with_cameras_normal(old(scene)@)),
{
    let normal = match scene.get("cameras") {
        None => {
            return Ok(());
        },
        Some(JsonValue::Array(cameras)) => match pre_process_cameras(cameras) {
            Ok(normal) => normal,
            Err(failure) => {
                return Err(failure);
            },
        },
        Some(_) => {
            return Err(SceneIOError::decoding("Expected cameras to be an array"));
        },
    };
    scene.insert(String::from_str("cameras"), JsonValue::Array(normal));
    Ok(())
}

/// Normalizes the scene objects of a document in place.
fn normalize_scene_objects_of(scene: &mut JsonObject) -> (r: Result<(), SceneIOError>)
    ensures
        step_outcome(r, old(scene)@, final(scene)@, with_scene_objects_normal(old(scene)@)),
{
    let normal = match scene.get("sceneObjects") {
        None => {
            return Ok(());
        },
        Some(JsonValue::Array(scene_objects)) => match pre_process_scene_objects(scene_objects) {
            Ok(normal) => normal,
            Err(failure) => {
                return Err(failure);
            },
        },
        Some(_) => {
            return Err(SceneIOError::decoding("Expected sceneObjects to be an array"));
        },
    };
    scene.insert(String::from_str("sceneObjects"), JsonValue::Array(normal));
    Ok(())
}

/// Normalizes the lights of a document in place, or gives it none.
fn normalize_lights_of(scene: &mut JsonObject) -> (r: Result<(), SceneIOError>)
    ensures
        step_outcome(r, old(scene)@, final(scene)@, with_lights_normal(old(scene)@)),
{
    let normal = match scene.get("lights") {
        None => Vec::new(),
        Some(JsonValue::Array(lights)) => match pre_process_lights(lights) {
            Ok(normal) => normal,
            Err(failure) => {
                return Err(failure);
            },
        },
        Some(_) => {
            return Err(SceneIOError::decoding("Expected lights to be an array"));
        },
    };
    scene.insert(String::from_str("lights"), JsonValue::Array(normal));
    Ok(())
}

/// Brings a document into canonical shape, or says which shape rule it
/// breaks first.
pub fn normalize(document: &JsonValue) -> (r: Result<JsonValue, SceneIOError>)
    ensures
        document_outcome(r, document_normal(document@)),
{
    let mut scene = match document {
        JsonValue::Object(scene) => scene.clone(),
        _ => {
            return Err(SceneIOError::decoding("Expected top level structure to be object"));
        },
    };
    if let Err(failure) = normalize_render_options_of(&mut scene) {
        return Err(failure);
    }
    if let Err(failure) = normalize_cameras_of(&mut scene) {
        return Err(failure);
    }
    if let Err(failure) = normalize_scene_objects_of(&mut scene) {
        return Err(failure);
    }
    if let Err(failure) = normalize_lights_of(&mut scene) {
        return Err(failure);
    }
    if !scene.contains_key("materials") {
        scene.insert(String::from_str("materials"), JsonValue::Array(Vec::new()));
    }
    Ok(JsonValue::Object(scene))
}

} // verus!
