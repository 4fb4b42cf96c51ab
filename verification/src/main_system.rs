//! The editor itself: the scene, the catalog, the selection, and the
//! placements that can still be undone.

use vstd::prelude::*;
use vstd::string::StringExecFns;
use crate::catalog::{first_at, PropCatalog, PropTemplate};
use crate::controller::{
    aimed, cube_name, initial, place_verdict, placed, previewed, ray_found, ray_name, reloaded,
    selected, started, stepped, stepped_before_undo, tile_name, tile_position, undone,
    wants_assets, with_prop, with_selection, without_prop, ControllerState, Frame, LoadedModel,
    LoadedTile, PlaceError, SystemView, RAY_REACH_BITS, TILE_HEIGHT_BITS,
};
use crate::forest::{lemma_replace_by_itself, occurs};
use crate::naming::prop_name_of;
use crate::object::{MeshHandle, ObjectKind, SceneObject};
use crate::registry::ObjectRegistry;
use crate::vec3::Vec3;

verus! {

/// The values of a sequence of names, in the same order.
pub open spec fn names_view(names: Seq<String>) -> Seq<Seq<char>> {
    Seq::new(names.len(), |i: int| names[i]@)
}

/// The literal names are the names that the model speaks of.
proof fn lemma_literal_names()
    ensures
        "tile"@ == tile_name(),
        "cube"@ == cube_name(),
        "ray"@ == ray_name(),
{
    reveal_strlit("tile");
    reveal_strlit("cube");
    reveal_strlit("ray");
    assert("tile"@ =~= tile_name());
    assert("cube"@ =~= cube_name());
    assert("ray"@ =~= ray_name());
}

/// What one frame did.
#[derive(Debug)]
pub struct FrameReport {
    /// Whether the ray rested on a surface.
    pub state: ControllerState,
    /// How the placement ended, where one was tried.
    pub placement: Option<Result<String, PlaceError>>,
    /// The name that an undo took off the stack.
    pub undone: Option<String>,
}

/// The editor: it places instances of catalogued props on the ground tile
/// where the operator aims, and undoes the most recent placements.
#[derive(Debug)]
pub struct MainSystem {
    is_destroyed: bool,
    objects: ObjectRegistry,
    current_prop: String,
    props_list: PropCatalog,
    last_added_objects_names: Vec<String>,
    prop_count: usize,
}

impl View for MainSystem {
    type V = SystemView;

    closed spec fn view(&self) -> SystemView {
        SystemView {
            is_destroyed: self.is_destroyed,
            objects: self.objects@,
            catalog: self.props_list@,
            current_prop: self.current_prop@,
            undo: names_view(self.last_added_objects_names@),
            prop_count: self.prop_count as nat,
        }
    }
}

impl MainSystem {
    /// An editor with an empty scene, an empty catalog, nothing selected
    /// and nothing to undo.
    pub fn new() -> (system: MainSystem)
        ensures
            system@ == initial(),
    {
        let system = MainSystem {
            is_destroyed: false,
            objects: ObjectRegistry::new(),
            current_prop: String::new(),
            props_list: PropCatalog::new(),
            last_added_objects_names: Vec::new(),
            prop_count: 0,
        };
        assert(names_view(system.last_added_objects_names@) =~= Seq::<Seq<char>>::empty());
        system
    }

    /// An editor like a new one, but for the counter behind the prop
    /// names: it starts at `prop_count`, so that the first prop gets the
    /// name after that.
    pub fn resuming(prop_count: usize) -> (system: MainSystem)
        ensures
            system@ == (SystemView { prop_count: prop_count as nat, ..initial() }),
    {
        let mut system = MainSystem::new();
        system.prop_count = prop_count;
        system
    }

    /// The name that the system goes by.
    pub fn system_id(&self) -> (id: &'static str)
        ensures
            id@ == "MainSystem"@,
    {
        "MainSystem"
    }

    /// Where a tile is put.
    pub fn tile_position() -> (position: Vec3)
        ensures
            position == tile_position(),
    {
        Vec3::from_bits(0, TILE_HEIGHT_BITS, 0)
    }

    /// Puts the ray and the preview marker into the scene. `cube_mesh` is
    /// the mesh that the marker is drawn with.
    pub fn client_start(&mut self, cube_mesh: MeshHandle)
        ensures
            final(self)@ == started(old(self)@, cube_mesh),
    {
        proof {
            lemma_literal_names();
        }
        let ray = SceneObject::new(
            "ray",
            ObjectKind::UtilityRay { direction: Vec3::from_bits(0, 0, RAY_REACH_BITS) },
        );
        self.objects.add(ray);
        let cube = SceneObject::new("cube", ObjectKind::Cube { mesh: cube_mesh });
        self.objects.add(cube);
    }

    /// Aims the ray: it starts at `origin` and points along `direction`.
    /// Says whether there was a ray to aim.
    pub fn aim(&mut self, origin: Vec3, direction: Vec3) -> (found: bool)
        ensures
            final(self)@ == aimed(old(self)@, origin, direction),
            found == ray_found(old(self)@),
    {
        proof {
            lemma_literal_names();
        }
        let ghost before = self.objects@;
        match self.objects.find_mut("ray") {
            Some(ray) => match ray.kind {
                ObjectKind::UtilityRay { .. } => {
                    ray.position = origin;
                    ray.kind = ObjectKind::UtilityRay { direction };
                    true
                },
                _ => {
                    proof {
                        lemma_replace_by_itself(before, ray_name());
                    }
                    false
                },
            },
            None => false,
        }
    }

    /// Moves the preview marker to `at`, and says whether there was one.
    pub fn preview(&mut self, at: Vec3) -> (shown: bool)
        ensures
            final(self)@ == previewed(old(self)@, at),
            shown == occurs(old(self)@.objects, cube_name()),
    {
        proof {
            lemma_literal_names();
        }
        match self.objects.find_mut("cube") {
            Some(cube) => {
                cube.position = at;
                true
            },
            None => false,
        }
    }

    /// Adds a template to the catalog, whatever its name.
    pub fn add_prop(&mut self, template: PropTemplate)
        ensures
            final(self)@ == with_prop(old(self)@, template@),
    {
        self.props_list.add(template);
    }

    /// Takes the first template that carries `name` out of the catalog,
    /// and says whether there was one. The selection is left as it is.
    pub fn remove_prop(&mut self, name: &str) -> (removed: bool)
        ensures
            final(self)@ == without_prop(old(self)@, name@),
            removed == (first_at(old(self)@.catalog, name@) is Some),
    {
        self.props_list.remove_by_name(name)
    }

    /// Selects the template to place by its name. The name need not be in
    /// the catalog; the empty name selects nothing.
    pub fn select_prop(&mut self, name: &str)
        ensures
            final(self)@ == with_selection(old(self)@, name@),
    {
        self.current_prop = String::from_str(name);
    }

    /// The template that a placement would instantiate.
    pub fn selected_template(&self) -> (template: Option<&PropTemplate>)
        ensures
            match template {
                Some(t) => selected(self@) == Some(t@),
                None => selected(self@) is None,
            },
    {
        if self.current_prop.as_str().is_empty() {
            None
        } else {
            self.props_list.resolve(self.current_prop.as_str())
        }
    }

    /// The template whose model and texture this frame needs from the
    /// asset loader, if it needs any: the selected template, where the ray
    /// hit, the place trigger fired, a tile stands and a name is left.
    pub fn placement_request(&self, frame: &Frame) -> (request: Option<&PropTemplate>)
        ensures
            request is Some <==> wants_assets(self@, *frame),
            request is Some ==> selected(self@) == Some(request.unwrap()@),
    {
        proof {
            lemma_literal_names();
        }
        if frame.hit.is_none() || !frame.place_pressed {
            return None;
        }
        if self.objects.find("tile").is_none() || self.prop_count == usize::MAX {
            return None;
        }
        self.selected_template()
    }

    /// Places an instance of the selected template at `at`, as the last
    /// child of the tile. `loaded` is what the asset loader made of the
    /// template's paths, or nothing where the model could not be loaded; a
    /// missing texture does not stand in the way. Returns the name of the
    /// new prop, or why there is none; in that case nothing has changed.
    pub fn place(&mut self, at: Vec3, loaded: Option<LoadedModel>) -> (outcome: Result<
        String,
        PlaceError,
    >)
        ensures
            final(self)@ == placed(old(self)@, at, loaded),
            outcome is Err ==> final(self)@ == old(self)@,
            match outcome {
                Ok(name) => place_verdict(old(self)@, loaded is Some) == Ok::<
                    Seq<char>,
                    PlaceError,
                >(name@),
                Err(why) => place_verdict(old(self)@, loaded is Some) == Err::<
                    Seq<char>,
                    PlaceError,
                >(why),
            },
    {
        proof {
            lemma_literal_names();
        }
        if self.selected_template().is_none() {
            return Err(PlaceError::NoTemplate);
        }
        let model = match loaded {
            Some(model) => model,
            None => {
                return Err(PlaceError::MeshUnavailable);
            },
        };
        if self.objects.find("tile").is_none() {
            return Err(PlaceError::NoTile);
        }
        if self.prop_count == usize::MAX {
            return Err(PlaceError::NamesExhausted);
        }
        self.prop_count += 1;
        let name = prop_name_of(self.prop_count);
        let mut prop = SceneObject::new(
            name.as_str(),
            ObjectKind::Prop { mesh: model.mesh, texture: model.texture },
        );
        prop.set_position(at);
        let attached = self.objects.add_child("tile", prop);
        self.last_added_objects_names.push(name.clone());
        assert(names_view(self.last_added_objects_names@) =~= names_view(
            old(self).last_added_objects_names@,
        ).push(name@));
        Ok(name)
    }

    /// Undoes the most recent placement that was not undone yet: its name
    /// leaves the undo stack and the first object that carries it leaves
    /// the scene. Returns that name. With nothing to undo, nothing
    /// changes.
    pub fn undo(&mut self) -> (name: Option<String>)
        ensures
            final(self)@ == undone(old(self)@),
            old(self)@.undo.len() == 0 ==> final(self)@ == old(self)@,
            match name {
                Some(name) => old(self)@.undo.len() > 0 && name@ == old(self)@.undo.last(),
                None => old(self)@.undo.len() == 0,
            },
    {
        match self.last_added_objects_names.pop() {
            Some(name) => {
                assert(names_view(self.last_added_objects_names@) =~= names_view(
                    old(self).last_added_objects_names@,
                ).drop_last());
                self.objects.remove(name.as_str());
                Some(name)
            },
            None => None,
        }
    }

    /// Replaces the tile. The old tile leaves the scene with everything
    /// that stood on it, whether or not a new one comes. `loaded` is the
    /// new tile's model and collider, or nothing where the mesh could not
    /// be loaded: the scene is then left without a tile.
    pub fn reload_tile(&mut self, loaded: Option<LoadedTile>)
        ensures
            final(self)@ == reloaded(old(self)@, loaded),
    {
        proof {
            lemma_literal_names();
        }
        self.objects.remove("tile");
        match loaded {
            Some(tile) => {
                let mut object = SceneObject::new(
                    "tile",
                    ObjectKind::Tile { mesh: tile.model.mesh, texture: tile.model.texture },
                );
                object.set_position(MainSystem::tile_position());
                object.set_physics_body(Some(tile.collider));
                self.objects.add(object);
            },
            None => {},
        }
    }

    /// Runs one frame: the preview marker follows the hit, a placement is
    /// tried where the ray hit and the place trigger fired, and the last
    /// placement is undone where the undo trigger fired. `loaded` is what
    /// the asset loader made of the template that `placement_request`
    /// named for this frame, or nothing.
    pub fn client_update(&mut self, frame: &Frame, loaded: Option<LoadedModel>) -> (report:
        FrameReport)
        ensures
            final(self)@ == stepped(old(self)@, *frame, loaded),
            report.state == (if frame.hit is Some {
                ControllerState::Aiming
            } else {
                ControllerState::Idle
            }),
            match report.placement {
                Some(Ok(name)) => frame.hit is Some && frame.place_pressed && place_verdict(
                    previewed(old(self)@, frame.hit.unwrap()),
                    loaded is Some,
                ) == Ok::<Seq<char>, PlaceError>(name@),
                Some(Err(why)) => frame.hit is Some && frame.place_pressed && place_verdict(
                    previewed(old(self)@, frame.hit.unwrap()),
                    loaded is Some,
                ) == Err::<Seq<char>, PlaceError>(why),
                None => !(frame.hit is Some && frame.place_pressed),
            },
            match report.undone {
                Some(name) => {
                    &&& frame.undo_pressed
                    &&& stepped_before_undo(old(self)@, *frame, loaded).undo.len() > 0
                    &&& name@ == stepped_before_undo(old(self)@, *frame, loaded).undo.last()
                },
                None => !frame.undo_pressed || stepped_before_undo(
                    old(self)@,
                    *frame,
                    loaded,
                ).undo.len() == 0,
            },
    {
        let mut report = FrameReport {
            state: ControllerState::Idle,
            placement: None,
            undone: None,
        };
        match frame.hit {
            Some(at) => {
                report.state = ControllerState::Aiming;
                self.preview(at);
                if frame.place_pressed {
                    report.placement = Some(self.place(at, loaded));
                }
            },
            None => {},
        }
        if frame.undo_pressed {
            report.undone = self.undo();
        }
        report
    }

    /// Whether the system was told to stop.
    pub fn is_destroyed(&self) -> (destroyed: bool)
        ensures
            destroyed == self@.is_destroyed,
    {
        self.is_destroyed
    }

    /// Tells the system to stop, or takes that back.
    pub fn set_destroyed(&mut self, is_destroyed: bool)
        ensures
            final(self)@ == (SystemView { is_destroyed, ..old(self)@ }),
    {
        self.is_destroyed = is_destroyed;
    }

    /// The scene graph.
    pub fn objects_list(&self) -> (objects: &ObjectRegistry)
        ensures
            objects@ == self@.objects,
    {
        &self.objects
    }

    /// The scene graph, for change. What the caller leaves behind the
    /// reference is the scene from then on; nothing else changes.
    pub fn objects_list_mut(&mut self) -> (objects: &mut ObjectRegistry)
        ensures
            objects@ == old(self)@.objects,
            final(self)@ == (SystemView { objects: final(objects)@, ..old(self)@ }),
    {
        &mut self.objects
    }

    /// The catalog.
    pub fn props_list(&self) -> (catalog: &PropCatalog)
        ensures
            catalog@ == self@.catalog,
    {
        &self.props_list
    }

    /// The name of the selected template; empty where nothing is selected.
    pub fn current_prop(&self) -> (name: &str)
        ensures
            name@ == self@.current_prop,
    {
        self.current_prop.as_str()
    }

    /// The names of the placed props that can be undone, oldest first.
    pub fn last_added_objects_names(&self) -> (names: &Vec<String>)
        ensures
            names_view(names@) == self@.undo,
    {
        &self.last_added_objects_names
    }

    /// How many prop names have been given out.
    pub fn prop_count(&self) -> (count: usize)
        ensures
            count == self@.prop_count,
    {
        self.prop_count
    }
}

} // verus!
