//! Scene objects and their mathematical model.

use vstd::prelude::*;
use vstd::string::StringExecFns;
use crate::vec3::Vec3;

verus! {

/// Names a mesh held by the asset loader.
#[derive(Clone, Copy, Debug, PartialEq, Eq, Structural)]
pub struct MeshHandle {
    pub id: u64,
}

/// Names a texture held by the asset loader.
#[derive(Clone, Copy, Debug, PartialEq, Eq, Structural)]
pub struct TextureHandle {
    pub id: u64,
}

/// Names a rigid body held by the physics world.
#[derive(Clone, Copy, Debug, PartialEq, Eq, Structural)]
pub struct BodyHandle {
    pub id: u64,
}

/// What a scene object is, with what only that kind of object has.
#[derive(Clone, Copy, Debug, PartialEq, Eq)]
pub enum ObjectKind {
    /// The ground that props stand on.
    Tile { mesh: MeshHandle, texture: Option<TextureHandle> },
    /// A placed instance of a catalog template. Without a texture it is
    /// drawn untextured.
    Prop { mesh: MeshHandle, texture: Option<TextureHandle> },
    /// The ray that is cast from the viewer every frame.
    UtilityRay { direction: Vec3 },
    /// The marker that previews where a prop would land.
    Cube { mesh: MeshHandle },
}

impl ObjectKind {
    /// The mesh that the object is drawn with, if it is drawn at all.
    pub open spec fn spec_mesh(self) -> Option<MeshHandle> {
        match self {
            ObjectKind::Tile { mesh, .. } => Some(mesh),
            ObjectKind::Prop { mesh, .. } => Some(mesh),
            ObjectKind::UtilityRay { .. } => None,
            ObjectKind::Cube { mesh } => Some(mesh),
        }
    }

    /// The texture that the object is drawn with, if it has one.
    pub open spec fn spec_texture(self) -> Option<TextureHandle> {
        match self {
            ObjectKind::Tile { texture, .. } => texture,
            ObjectKind::Prop { texture, .. } => texture,
            ObjectKind::UtilityRay { .. } => None,
            ObjectKind::Cube { .. } => None,
        }
    }

    /// The mesh that the object is drawn with, if it is drawn at all.
    #[verifier::when_used_as_spec(spec_mesh)]
    pub fn mesh(self) -> (mesh: Option<MeshHandle>)
        ensures
            mesh == self.spec_mesh(),
    {
        match self {
            ObjectKind::Tile { mesh, .. } => Some(mesh),
            ObjectKind::Prop { mesh, .. } => Some(mesh),
            ObjectKind::UtilityRay { .. } => None,
            ObjectKind::Cube { mesh } => Some(mesh),
        }
    }

    /// The texture that the object is drawn with, if it has one.
    #[verifier::when_used_as_spec(spec_texture)]
    pub fn texture(self) -> (texture: Option<TextureHandle>)
        ensures
            texture == self.spec_texture(),
    {
        match self {
            ObjectKind::Tile { texture, .. } => texture,
            ObjectKind::Prop { texture, .. } => texture,
            ObjectKind::UtilityRay { .. } => None,
            ObjectKind::Cube { .. } => None,
        }
    }
}

/// A named object of the scene. It owns its children: dropping an object
/// drops its whole subtree.
#[derive(Debug)]
pub struct SceneObject {
    pub name: String,
    pub kind: ObjectKind,
    pub position: Vec3,
    pub rotation: Vec3,
    pub physics_body: Option<BodyHandle>,
    pub children: Vec<SceneObject>,
}

/// The mathematical value of a [`SceneObject`].
pub struct ObjectView {
    pub name: Seq<char>,
    pub kind: ObjectKind,
    pub position: Vec3,
    pub rotation: Vec3,
    pub physics_body: Option<BodyHandle>,
    pub children: Seq<ObjectView>,
}

impl View for SceneObject {
    type V = ObjectView;

    open spec fn view(&self) -> ObjectView
        decreases self,
    {
        ObjectView {
            name: self.name@,
            kind: self.kind,
            position: self.position,
            rotation: self.rotation,
            physics_body: self.physics_body,
            children: forest_view(self.children@),
        }
    }
}

/// The value of an object that was just made: at the origin, unrotated,
/// without a rigid body and without children.
pub open spec fn fresh(name: Seq<char>, kind: ObjectKind) -> ObjectView {
    ObjectView {
        name,
        kind,
        position: Vec3 { x: 0, y: 0, z: 0 },
        rotation: Vec3 { x: 0, y: 0, z: 0 },
        physics_body: None,
        children: Seq::empty(),
    }
}

impl SceneObject {
    /// Makes an object at the origin, unrotated, without a rigid body and
    /// without children.
    pub fn new(name: &str, kind: ObjectKind) -> (obj: SceneObject)
        ensures
            obj@ == fresh(name@, kind),
    {
        SceneObject {
            name: String::from_str(name),
            kind,
            position: Vec3::zero(),
            rotation: Vec3::zero(),
            physics_body: None,
            children: Vec::new(),
        }
    }

    /// The object's name.
    pub fn name(&self) -> (name: &str)
        ensures
            name@ == self@.name,
    {
        self.name.as_str()
    }

    /// Where the object stands.
    pub fn position(&self) -> (position: Vec3)
        ensures
            position == self@.position,
    {
        self.position
    }

    /// Moves the object. Its children are not moved with it.
    pub fn set_position(&mut self, position: Vec3)
        ensures
            final(self)@ == (ObjectView { position, ..old(self)@ }),
    {
        self.position = position;
    }

    /// How the object is turned.
    pub fn rotation(&self) -> (rotation: Vec3)
        ensures
            rotation == self@.rotation,
    {
        self.rotation
    }

    /// Turns the object.
    pub fn set_rotation(&mut self, rotation: Vec3)
        ensures
            final(self)@ == (ObjectView { rotation, ..old(self)@ }),
    {
        self.rotation = rotation;
    }

    /// Records the rigid body that the physics world made for the object,
    /// or that it has none.
    pub fn set_physics_body(&mut self, body: Option<BodyHandle>)
        ensures
            final(self)@ == (ObjectView { physics_body: body, ..old(self)@ }),
    {
        self.physics_body = body;
    }

    /// Takes `child` as the last child.
    pub fn add_child(&mut self, child: SceneObject)
        ensures
            final(self)@ == (ObjectView {
                children: old(self)@.children.push(child@),
                ..old(self)@
            }),
    {
        proof {
            lemma_forest_view_push(self.children@, child);
        }
        self.children.push(child);
    }

    /// The children, in the order in which they were added.
    pub fn children(&self) -> (children: &Vec<SceneObject>)
        ensures
            forest_view(children@) == self@.children,
    {
        &self.children
    }
}

/// The values of a sequence of live objects, in the same order.
pub open spec fn forest_view(objs: Seq<SceneObject>) -> Seq<ObjectView>
    decreases objs,
{
    if objs.len() == 0 {
        Seq::empty()
    } else {
        forest_view(objs.drop_last()).push(objs.last()@)
    }
}

/// The value of a sequence of objects holds the value of each, place for
/// place.
pub proof fn lemma_forest_view(objs: Seq<SceneObject>)
    ensures
        forest_view(objs).len() == objs.len(),
        forall|i: int| 0 <= i < objs.len() ==> #[trigger] forest_view(objs)[i] == objs[i]@,
    decreases objs.len(),
{
    if objs.len() > 0 {
        let front = objs.drop_last();
        lemma_forest_view(front);
        assert(forest_view(objs) == forest_view(front).push(objs.last()@));
        assert forall|i: int| 0 <= i < objs.len() implies #[trigger] forest_view(objs)[i]
            == objs[i]@ by {
            if i < front.len() {
                assert(front[i] == objs[i]);
            }
        }
    }
}

/// Appending an object appends its value.
pub proof fn lemma_forest_view_push(objs: Seq<SceneObject>, obj: SceneObject)
    ensures
        forest_view(objs.push(obj)) == forest_view(objs).push(obj@),
{
    assert(objs.push(obj).drop_last() == objs);
}

/// Replacing one object replaces its value.
pub proof fn lemma_forest_view_update(objs: Seq<SceneObject>, i: int, obj: SceneObject)
    requires
        0 <= i < objs.len(),
    ensures
        forest_view(objs.update(i, obj)) == forest_view(objs).update(i, obj@),
{
    lemma_forest_view(objs);
    lemma_forest_view(objs.update(i, obj));
    assert(forest_view(objs.update(i, obj)) =~= forest_view(objs).update(i, obj@));
}

/// Taking one object out takes its value out.
pub proof fn lemma_forest_view_remove(objs: Seq<SceneObject>, i: int)
    requires
        0 <= i < objs.len(),
    ensures
        forest_view(objs.remove(i)) == forest_view(objs).remove(i),
{
    lemma_forest_view(objs);
    lemma_forest_view(objs.remove(i));
    assert(forest_view(objs.remove(i)) =~= forest_view(objs).remove(i));
}

} // verus!
