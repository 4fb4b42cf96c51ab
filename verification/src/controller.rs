//! What the editor's operations do, stated on mathematical values: the
//! state of the system and its transitions.

use vstd::prelude::*;
use crate::catalog::{resolved, without_template, TemplateView};
use crate::forest::{
    first_match, lemma_adopt_then_remove, lemma_first_match_push, lemma_remove_parent_after_adopt,
    lemma_removal_adds_no_name, occurs, replace_first, with_child, without_first, Forest,
};
use crate::naming::prop_name;
use crate::object::{fresh, BodyHandle, MeshHandle, ObjectKind, ObjectView, TextureHandle};
use crate::vec3::Vec3;

verus! {

/// The bit pattern of the distance that the ray reaches: 900 units.
pub const RAY_REACH_BITS: u32 = 0x4461_0000;

/// The bit pattern of the height at which the tile is put: 100 units
/// below the origin.
pub const TILE_HEIGHT_BITS: u32 = 0xC2C8_0000;

/// The name of the ground tile.
pub open spec fn tile_name() -> Seq<char> {
    seq!['t', 'i', 'l', 'e']
}

/// The name of the preview marker.
pub open spec fn cube_name() -> Seq<char> {
    seq!['c', 'u', 'b', 'e']
}

/// The name of the ray.
pub open spec fn ray_name() -> Seq<char> {
    seq!['r', 'a', 'y']
}

/// The direction that the ray has before it is first aimed: straight
/// ahead, as far as it reaches.
pub open spec fn ray_rest() -> Vec3 {
    Vec3 { x: 0, y: 0, z: RAY_REACH_BITS }
}

/// Where a tile is put.
pub open spec fn tile_position() -> Vec3 {
    Vec3 { x: 0, y: TILE_HEIGHT_BITS, z: 0 }
}

/// What the asset loader made of a model: the mesh, and the texture
/// unless it could not be loaded.
#[derive(Clone, Copy, Debug, PartialEq, Eq)]
pub struct LoadedModel {
    pub mesh: MeshHandle,
    pub texture: Option<TextureHandle>,
}

/// What was made for a new tile: its model, and the fixed collider that
/// the physics world shaped after the mesh.
#[derive(Clone, Copy, Debug, PartialEq, Eq)]
pub struct LoadedTile {
    pub model: LoadedModel,
    pub collider: BodyHandle,
}

/// Why a placement did not happen.
#[derive(Clone, Copy, Debug, PartialEq, Eq, Structural)]
pub enum PlaceError {
    /// Nothing is selected, or the selection names no template.
    NoTemplate,
    /// The model of the selected template could not be loaded.
    MeshUnavailable,
    /// There is no tile to stand on.
    NoTile,
    /// The counter behind the prop names has run out.
    NamesExhausted,
}

/// What one frame brings in: where the ray hit, if it did, and which
/// triggers fired. A trigger fires once per press, not while a key is
/// held.
#[derive(Clone, Copy, Debug, PartialEq, Eq)]
pub struct Frame {
    pub hit: Option<Vec3>,
    pub place_pressed: bool,
    pub undo_pressed: bool,
}

/// Whether the ray rests on a surface.
#[derive(Clone, Copy, Debug, PartialEq, Eq, Structural)]
pub enum ControllerState {
    /// The ray hit nothing this frame.
    Idle,
    /// The ray hit a surface this frame.
    Aiming,
}

/// The mathematical value of the editor.
pub struct SystemView {
    pub is_destroyed: bool,
    /// The scene graph.
    pub objects: Forest,
    /// The prop catalog.
    pub catalog: Seq<TemplateView>,
    /// The name of the selected template; empty where nothing is selected.
    pub current_prop: Seq<char>,
    /// The names of the placed props that can be undone, oldest first.
    pub undo: Seq<Seq<char>>,
    /// How many prop names have been given out.
    pub prop_count: nat,
}

/// The editor before anything happened.
pub open spec fn initial() -> SystemView {
    SystemView {
        is_destroyed: false,
        objects: Seq::empty(),
        catalog: Seq::empty(),
        current_prop: Seq::empty(),
        undo: Seq::empty(),
        prop_count: 0,
    }
}

/// After start-up: the ray and the preview marker have joined the roots.
pub open spec fn started(s: SystemView, cube_mesh: MeshHandle) -> SystemView {
    SystemView {
        objects: s.objects.push(
            fresh(ray_name(), ObjectKind::UtilityRay { direction: ray_rest() }),
        ).push(fresh(cube_name(), ObjectKind::Cube { mesh: cube_mesh })),
        ..s
    }
}

/// Whether the object found under the ray's name is a ray.
pub open spec fn ray_found(s: SystemView) -> bool {
    match first_match(s.objects, ray_name()) {
        Some(ray) => ray.kind is UtilityRay,
        None => false,
    }
}

/// After the ray was aimed: the object found under the ray's name, if it
/// is a ray, starts at `origin` and points along `direction`.
pub open spec fn aimed(s: SystemView, origin: Vec3, direction: Vec3) -> SystemView {
    match first_match(s.objects, ray_name()) {
        Some(ray) => match ray.kind {
            ObjectKind::UtilityRay { .. } => SystemView {
                objects: replace_first(
                    s.objects,
                    ray_name(),
                    seq![
                        ObjectView {
                            position: origin,
                            kind: ObjectKind::UtilityRay { direction },
                            ..ray
                        },
                    ],
                ),
                ..s
            },
            _ => s,
        },
        None => s,
    }
}

/// After the preview marker was moved to `at`, if there is one.
pub open spec fn previewed(s: SystemView, at: Vec3) -> SystemView {
    match first_match(s.objects, cube_name()) {
        Some(cube) => SystemView {
            objects: replace_first(
                s.objects,
                cube_name(),
                seq![ObjectView { position: at, ..cube }],
            ),
            ..s
        },
        None => s,
    }
}

/// The template that a placement would instantiate. An empty selection
/// selects nothing, whatever the catalog holds.
pub open spec fn selected(s: SystemView) -> Option<TemplateView> {
    if s.current_prop.len() == 0 {
        None
    } else {
        resolved(s.catalog, s.current_prop)
    }
}

/// How a placement ends: with the name of the new prop, or with the first
/// of the reasons that stands in its way.
pub open spec fn place_verdict(s: SystemView, mesh_loaded: bool) -> Result<Seq<char>, PlaceError> {
    if selected(s) is None {
        Err(PlaceError::NoTemplate)
    } else if !mesh_loaded {
        Err(PlaceError::MeshUnavailable)
    } else if !occurs(s.objects, tile_name()) {
        Err(PlaceError::NoTile)
    } else if s.prop_count >= usize::MAX {
        Err(PlaceError::NamesExhausted)
    } else {
        Ok(prop_name(s.prop_count + 1))
    }
}

/// The prop that a placement makes.
pub open spec fn placed_prop(s: SystemView, at: Vec3, model: LoadedModel) -> ObjectView {
    ObjectView {
        position: at,
        ..fresh(
            prop_name(s.prop_count + 1),
            ObjectKind::Prop { mesh: model.mesh, texture: model.texture },
        )
    }
}

/// After a placement at `at`. Where it does not happen, nothing changes;
/// where it does, the new prop is the tile's last child, its name is on
/// top of the undo stack, and the counter has advanced.
pub open spec fn placed(s: SystemView, at: Vec3, loaded: Option<LoadedModel>) -> SystemView {
    match loaded {
        Some(model) => if place_verdict(s, true) is Ok {
            SystemView {
                objects: with_child(s.objects, tile_name(), placed_prop(s, at, model)),
                undo: s.undo.push(prop_name(s.prop_count + 1)),
                prop_count: s.prop_count + 1,
                ..s
            }
        } else {
            s
        },
        None => s,
    }
}

/// After an undo. On an empty stack nothing changes. Otherwise the top
/// name leaves the stack and the first object that carries it leaves the
/// scene; where no object carries it any more, only the stack changes.
pub open spec fn undone(s: SystemView) -> SystemView {
    if s.undo.len() == 0 {
        s
    } else {
        SystemView {
            objects: without_first(s.objects, s.undo.last()),
            undo: s.undo.drop_last(),
            ..s
        }
    }
}

/// The tile that a reload makes.
pub open spec fn new_tile(tile: LoadedTile) -> ObjectView {
    ObjectView {
        position: tile_position(),
        physics_body: Some(tile.collider),
        ..fresh(
            tile_name(),
            ObjectKind::Tile { mesh: tile.model.mesh, texture: tile.model.texture },
        )
    }
}

/// After a tile reload. The old tile leaves with everything that stood on
/// it, whether or not the new mesh could be loaded; the new tile, if there
/// is one, joins the roots. The undo stack is left as it is: names on it
/// that no longer resolve are used up by later undos.
pub open spec fn reloaded(s: SystemView, loaded: Option<LoadedTile>) -> SystemView {
    let cleared = without_first(s.objects, tile_name());
    SystemView {
        objects: match loaded {
            Some(tile) => cleared.push(new_tile(tile)),
            None => cleared,
        },
        ..s
    }
}

/// After a template was added to the catalog.
pub open spec fn with_prop(s: SystemView, template: TemplateView) -> SystemView {
    SystemView { catalog: s.catalog.push(template), ..s }
}

/// After the first template of that name was taken out of the catalog.
pub open spec fn without_prop(s: SystemView, name: Seq<char>) -> SystemView {
    SystemView { catalog: without_template(s.catalog, name), ..s }
}

/// After the operator selected a name.
pub open spec fn with_selection(s: SystemView, name: Seq<char>) -> SystemView {
    SystemView { current_prop: name, ..s }
}

/// Whether this frame's placement hangs on the asset loader alone: the
/// ray hit, the trigger fired, and nothing but a failed load could stop
/// the placement.
pub open spec fn wants_assets(s: SystemView, frame: Frame) -> bool {
    frame.hit is Some && frame.place_pressed && place_verdict(s, true) is Ok
}

/// The first part of a frame: with a hit the preview marker follows it
/// and, where the place trigger fired, a placement is tried there.
pub open spec fn stepped_before_undo(s: SystemView, frame: Frame, loaded: Option<LoadedModel>)
    -> SystemView {
    match frame.hit {
        Some(at) => {
            let shown = previewed(s, at);
            if frame.place_pressed {
                placed(shown, at, loaded)
            } else {
                shown
            }
        },
        None => s,
    }
}

/// After one frame: its first part and then, where the undo trigger
/// fired, an undo, hit or no hit. The two triggers are independent: where
/// both fired, the prop that was just placed is the one that is undone.
pub open spec fn stepped(s: SystemView, frame: Frame, loaded: Option<LoadedModel>) -> SystemView {
    let before_undo = stepped_before_undo(s, frame, loaded);
    if frame.undo_pressed {
        undone(before_undo)
    } else {
        before_undo
    }
}

/// Undo reverses placement. Where a placement succeeds and the name it
/// gives out was not in the scene before, the new prop is found under that
/// name; an undo right afterwards takes it out again, so that the name is
/// no longer found, and leaves the scene and the undo stack as they were
/// before the placement. Only the counter keeps its advance.
pub proof fn lemma_undo_reverses_placement(s: SystemView, at: Vec3, model: LoadedModel)
    requires
        place_verdict(s, true) is Ok,
        !occurs(s.objects, prop_name(s.prop_count + 1)),
    ensures
        first_match(placed(s, at, Some(model)).objects, prop_name(s.prop_count + 1)) == Some(
            placed_prop(s, at, model),
        ),
        !occurs(undone(placed(s, at, Some(model))).objects, prop_name(s.prop_count + 1)),
        undone(placed(s, at, Some(model))) == (SystemView { prop_count: s.prop_count + 1, ..s }),
{
    let prop = placed_prop(s, at, model);
    let after = placed(s, at, Some(model));
    lemma_adopt_then_remove(s.objects, tile_name(), prop);
    assert(after.undo.last() == prop.name);
    assert(after.undo.drop_last() == s.undo);
}

/// An undo with nothing to undo changes nothing.
pub proof fn lemma_undo_on_empty_stack(s: SystemView)
    requires
        s.undo.len() == 0,
    ensures
        undone(s) == s,
{
}

/// A failed model load aborts the placement: without a mesh no placement
/// happens, and the scene, the undo stack and the counter stay as they
/// were.
pub proof fn lemma_failed_load_aborts_placement(s: SystemView, at: Vec3)
    ensures
        place_verdict(s, false) is Err,
        placed(s, at, None) == s,
{
}

/// A placement that does not happen, for whatever reason, changes
/// nothing.
pub proof fn lemma_refused_placement_changes_nothing(
    s: SystemView,
    at: Vec3,
    loaded: Option<LoadedModel>,
)
    requires
        place_verdict(s, loaded is Some) is Err,
    ensures
        placed(s, at, loaded) == s,
{
}

/// A missing texture does not stand in the way of a placement: whether a
/// placement happens does not depend on the texture, and a prop placed
/// without one has none.
pub proof fn lemma_placement_without_texture(s: SystemView, at: Vec3, mesh: MeshHandle)
    requires
        place_verdict(s, true) is Ok,
    ensures
        placed(s, at, Some(LoadedModel { mesh, texture: None })).undo == s.undo.push(
            prop_name(s.prop_count + 1),
        ),
        placed_prop(s, at, LoadedModel { mesh, texture: None }).kind.spec_texture() is None,
        placed_prop(s, at, LoadedModel { mesh, texture: None }).kind.spec_mesh() == Some(mesh),
{
}

/// A placement changes nothing outside the tile: the scene without its
/// tile is the same before and after.
pub proof fn lemma_placement_stays_on_tile(s: SystemView, at: Vec3, loaded: Option<LoadedModel>)
    ensures
        without_first(placed(s, at, loaded).objects, tile_name()) == without_first(
            s.objects,
            tile_name(),
        ),
{
    match loaded {
        Some(model) => {
            lemma_remove_parent_after_adopt(s.objects, tile_name(), placed_prop(s, at, model));
        },
        None => {},
    }
}

/// A tile reload discards what stood on the tile: a name that the scene
/// holds nowhere but on or below its tile is no longer found afterwards,
/// whether or not a new tile came.
pub proof fn lemma_reload_clears_tile(s: SystemView, loaded: Option<LoadedTile>, name: Seq<char>)
    requires
        name != tile_name(),
        !occurs(without_first(s.objects, tile_name()), name),
    ensures
        !occurs(reloaded(s, loaded).objects, name),
{
    let cleared = without_first(s.objects, tile_name());
    match loaded {
        Some(tile) => {
            lemma_first_match_push(cleared, new_tile(tile), name);
        },
        None => {},
    }
}

/// After a reload that brought a tile, in a scene that held no second
/// tile, the tile that is found is the new one: it has the new mesh and
/// no children.
pub proof fn lemma_reload_brings_bare_tile(s: SystemView, tile: LoadedTile)
    requires
        !occurs(without_first(s.objects, tile_name()), tile_name()),
    ensures
        first_match(reloaded(s, Some(tile)).objects, tile_name()) == Some(new_tile(tile)),
        new_tile(tile).children.len() == 0,
        new_tile(tile).kind.spec_mesh() == Some(tile.model.mesh),
{
    let cleared = without_first(s.objects, tile_name());
    lemma_first_match_push(cleared, new_tile(tile), tile_name());
}

/// A prop that was placed under a name that the scene did not hold is
/// gone after the next tile reload.
pub proof fn lemma_reload_discards_placement(
    s: SystemView,
    at: Vec3,
    model: LoadedModel,
    loaded: Option<LoadedTile>,
)
    requires
        place_verdict(s, true) is Ok,
        !occurs(s.objects, prop_name(s.prop_count + 1)),
    ensures
        !occurs(
            reloaded(placed(s, at, Some(model)), loaded).objects,
            prop_name(s.prop_count + 1),
        ),
{
    let name = prop_name(s.prop_count + 1);
    lemma_placement_stays_on_tile(s, at, Some(model));
    lemma_removal_adds_no_name(s.objects, tile_name(), name);
    lemma_prop_name_is_not_tile(s.prop_count + 1);
    lemma_reload_clears_tile(placed(s, at, Some(model)), loaded, name);
}

/// No prop is named like the tile.
pub proof fn lemma_prop_name_is_not_tile(n: nat)
    ensures
        prop_name(n) != tile_name(),
{
    assert(prop_name(n)[0] == 'p');
    assert(tile_name()[0] == 't');
}

} // verus!
