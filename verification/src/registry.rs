//! The object registry: owner of the scene graph.

use vstd::prelude::*;
use crate::forest::{
    first_match, lemma_replace_absent, occurs, replace_first, with_child, without_first, Forest,
};
use crate::object::{
    forest_view, lemma_forest_view, lemma_forest_view_push, lemma_forest_view_remove,
    lemma_forest_view_update, ObjectView, SceneObject,
};
use crate::text::same_text;

verus! {

/// Why the registry refused a change.
#[derive(Clone, Copy, Debug, PartialEq, Eq, Structural)]
pub enum RegistryError {
    /// No object carries the name given for the parent.
    ParentNotFound,
}

/// Owns the root objects of the scene, and through them every object.
#[derive(Debug)]
pub struct ObjectRegistry {
    pub roots: Vec<SceneObject>,
}

impl View for ObjectRegistry {
    type V = Forest;

    open spec fn view(&self) -> Forest {
        forest_view(self.roots@)
    }
}

/// Searches `objs` and their descendants in traversal order.
pub fn find_in<'a>(objs: &'a Vec<SceneObject>, name: &str) -> (found: Option<&'a SceneObject>)
    ensures
        match found {
            Some(obj) => first_match(forest_view(objs@), name@) == Some(obj@),
            None => first_match(forest_view(objs@), name@) is None,
        },
    decreases objs,
{
    let ghost forest = forest_view(objs@);
    let mut i: usize = 0;
    proof {
        lemma_forest_view(objs@);
        assert(forest.skip(0) == forest);
    }
    while i < objs.len()
        invariant
            i <= objs.len(),
            forest == forest_view(objs@),
            forest.len() == objs.len(),
            forall|k: int| 0 <= k < objs.len() ==> #[trigger] forest[k] == objs[k]@,
            first_match(forest, name@) == first_match(forest.skip(i as int), name@),
        decreases objs.len() - i,
    {
        let obj = &objs[i];
        proof {
            assert(forest.skip(i as int)[0] == obj@);
            assert(forest.skip(i as int).drop_first() == forest.skip(i as int + 1));
        }
        if same_text(obj.name.as_str(), name) {
            return Some(obj);
        }
        let below = find_in(&obj.children, name);
        if below.is_some() {
            return below;
        }
        i += 1;
    }
    None
}

/// Deletes, with its subtree, the first object in traversal order that
/// carries `name`, and says whether there was one.
pub fn remove_in(objs: &mut Vec<SceneObject>, name: &str) -> (removed: bool)
    ensures
        removed == occurs(forest_view(old(objs)@), name@),
        forest_view(final(objs)@) == without_first(forest_view(old(objs)@), name@),
        !removed ==> forest_view(final(objs)@) == forest_view(old(objs)@),
    decreases forest_view(old(objs)@),
{
    let ghost forest = forest_view(objs@);
    let ghost gone = Seq::<ObjectView>::empty();
    let mut i: usize = 0;
    proof {
        lemma_forest_view(objs@);
        assert(forest.skip(0) == forest);
        assert(forest.take(0) + replace_first(forest, name@, gone) == replace_first(
            forest,
            name@,
            gone,
        ));
    }
    while i < objs.len()
        invariant
            i <= objs.len(),
            forest == forest_view(old(objs)@),
            forest == forest_view(objs@),
            forest.len() == objs.len(),
            gone == Seq::<ObjectView>::empty(),
            first_match(forest, name@) == first_match(forest.skip(i as int), name@),
            replace_first(forest, name@, gone) == forest.take(i as int) + replace_first(
                forest.skip(i as int),
                name@,
                gone,
            ),
        decreases objs.len() - i,
    {
        let ghost before = objs@;
        proof {
            lemma_forest_view(before);
            assert(forest.skip(i as int)[0] == forest[i as int]);
            assert(forest.skip(i as int).drop_first() == forest.skip(i as int + 1));
        }
        if same_text(objs[i].name.as_str(), name) {
            objs.remove(i);
            proof {
                lemma_forest_view_remove(before, i as int);
                assert(forest.remove(i as int) == forest.take(i as int) + (gone + forest.skip(
                    i as int + 1,
                )));
            }
            return true;
        }
        let below = remove_in(&mut objs[i].children, name);
        proof {
            let changed = objs@[i as int];
            assert(objs@ == before.update(i as int, changed));
            lemma_forest_view_update(before, i as int, changed);
            if !below {
                lemma_replace_absent(forest[i as int].children, name@, gone);
                assert(changed@ == forest[i as int]);
                assert(forest.update(i as int, changed@) == forest);
                assert(forest.take(i as int + 1) == forest.take(i as int) + seq![
                    forest[i as int],
                ]);
                assert(forest.take(i as int) + (seq![forest[i as int]] + replace_first(
                    forest.skip(i as int + 1),
                    name@,
                    gone,
                )) == forest.take(i as int + 1) + replace_first(
                    forest.skip(i as int + 1),
                    name@,
                    gone,
                ));
            } else {
                assert(forest.update(i as int, changed@) == forest.take(i as int) + (seq![
                    changed@,
                ] + forest.skip(i as int + 1)));
            }
        }
        if below {
            return true;
        }
        i += 1;
    }
    proof {
        assert(forest.take(i as int) == forest);
        assert(forest.skip(i as int).len() == 0);
        lemma_replace_absent(forest, name@, gone);
    }
    false
}

/// A root without the name, in itself and below, is passed over by a
/// replacement.
proof fn lemma_replace_absent_any(forest: Forest, i: int, name: Seq<char>)
    requires
        0 <= i < forest.len(),
        forest[i].name != name,
        !occurs(forest[i].children, name),
        forall|with: Seq<ObjectView>| #[trigger]
            replace_first(forest, name, with) == forest.take(i) + replace_first(
                forest.skip(i),
                name,
                with,
            ),
    ensures
        forall|with: Seq<ObjectView>| #[trigger]
            replace_first(forest, name, with) == forest.take(i + 1) + replace_first(
                forest.skip(i + 1),
                name,
                with,
            ),
{
    assert forall|with: Seq<ObjectView>| #[trigger]
        replace_first(forest, name, with) == forest.take(i + 1) + replace_first(
            forest.skip(i + 1),
            name,
            with,
        ) by {
        assert(forest.skip(i)[0] == forest[i]);
        assert(forest.skip(i).drop_first() == forest.skip(i + 1));
        assert(forest.take(i + 1) == forest.take(i) + seq![forest[i]]);
        assert(forest.take(i) + (seq![forest[i]] + replace_first(forest.skip(i + 1), name, with))
            == forest.take(i + 1) + replace_first(forest.skip(i + 1), name, with));
    }
}

/// Searches `objs` and their descendants in traversal order, for change.
/// What the caller writes through the reference takes the place of the
/// object that was found.
pub fn find_mut_in<'a>(objs: &'a mut Vec<SceneObject>, name: &str) -> (found: Option<
    &'a mut SceneObject,
>)
    ensures
        match first_match(forest_view(old(objs)@), name@) {
            Some(obj) => {
                &&& found is Some
                &&& (*found.unwrap())@ == obj
                &&& forest_view(final(objs)@) == replace_first(
                    forest_view(old(objs)@),
                    name@,
                    seq![(*final(found.unwrap()))@],
                )
            },
            None => found is None && forest_view(final(objs)@) == forest_view(old(objs)@),
        },
    decreases forest_view(old(objs)@),
{
    let ghost forest = forest_view(objs@);
    let mut i: usize = 0;
    proof {
        lemma_forest_view(objs@);
        assert(forest.skip(0) == forest);
        assert forall|with: Seq<ObjectView>| #[trigger]
            replace_first(forest, name@, with) == forest.take(0) + replace_first(
                forest.skip(0),
                name@,
                with,
            ) by {
            assert(forest.take(0) + replace_first(forest, name@, with) == replace_first(
                forest,
                name@,
                with,
            ));
        }
    }
    while i < objs.len()
        invariant
            i <= objs.len(),
            objs@ == old(objs)@,
            forest == forest_view(objs@),
            forest.len() == objs.len(),
            first_match(forest, name@) == first_match(forest.skip(i as int), name@),
            forall|with: Seq<ObjectView>| #[trigger]
                replace_first(forest, name@, with) == forest.take(i as int) + replace_first(
                    forest.skip(i as int),
                    name@,
                    with,
                ),
        decreases objs.len() - i,
    {
        proof {
            lemma_forest_view(objs@);
            assert(forest.skip(i as int)[0] == forest[i as int]);
            assert(forest.skip(i as int).drop_first() == forest.skip(i as int + 1));
        }
        if same_text(objs[i].name.as_str(), name) {
            let ghost before = objs@;
            let found = &mut objs[i];
            proof {
                let written = *final(found);
                lemma_forest_view_update(before, i as int, written);
                assert(forest.update(i as int, written@) == forest.take(i as int) + (seq![
                    written@,
                ] + forest.skip(i as int + 1)));
                assert(replace_first(forest, name@, seq![written@]) == forest.take(i as int)
                    + replace_first(forest.skip(i as int), name@, seq![written@]));
            }
            return Some(found);
        }
        if find_in(&objs[i].children, name).is_some() {
            let ghost before = objs@;
            let below = find_mut_in(&mut objs[i].children, name);
            proof {
                let written = *final(below.unwrap());
                let changed = after_borrow(objs)@[i as int];
                assert(after_borrow(objs)@ == before.update(i as int, changed));
                lemma_forest_view_update(before, i as int, changed);
                assert(forest.update(i as int, changed@) == forest.take(i as int) + (seq![
                    changed@,
                ] + forest.skip(i as int + 1)));
                assert(replace_first(forest, name@, seq![written@]) == forest.take(i as int)
                    + replace_first(forest.skip(i as int), name@, seq![written@]));
            }
            return below;
        }
        proof {
            lemma_replace_absent_any(forest, i as int, name@);
        }
        i += 1;
    }
    None
}

impl ObjectRegistry {
    /// A registry without objects.
    pub fn new() -> (registry: ObjectRegistry)
        ensures
            registry@ == Seq::<ObjectView>::empty(),
    {
        ObjectRegistry { roots: Vec::new() }
    }

    /// Appends `object` to the roots. Names are not checked: an object may
    /// carry a name that is already taken, and lookups then go to the one
    /// that comes first in traversal order.
    pub fn add(&mut self, object: SceneObject)
        ensures
            final(self)@ == old(self)@.push(object@),
    {
        proof {
            lemma_forest_view_push(self.roots@, object);
        }
        self.roots.push(object);
    }

    /// The first object in traversal order that carries `name`.
    pub fn find(&self, name: &str) -> (found: Option<&SceneObject>)
        ensures
            match found {
                Some(obj) => first_match(self@, name@) == Some(obj@),
                None => first_match(self@, name@) is None,
            },
    {
        find_in(&self.roots, name)
    }

    /// The first object in traversal order that carries `name`, for
    /// change. Whatever the caller leaves behind the reference stands in
    /// the registry where the object stood; the rest is untouched.
    pub fn find_mut(&mut self, name: &str) -> (found: Option<&mut SceneObject>)
        ensures
            match first_match(old(self)@, name@) {
                Some(obj) => {
                    &&& found is Some
                    &&& (*found.unwrap())@ == obj
                    &&& final(self)@ == replace_first(
                        old(self)@,
                        name@,
                        seq![(*final(found.unwrap()))@],
                    )
                },
                None => found is None && final(self)@ == old(self)@,
            },
    {
        find_mut_in(&mut self.roots, name)
    }

    /// Deletes the first object in traversal order that carries `name`,
    /// together with its subtree, and says whether there was one. Without
    /// such an object nothing changes.
    pub fn remove(&mut self, name: &str) -> (removed: bool)
        ensures
            removed == occurs(old(self)@, name@),
            final(self)@ == without_first(old(self)@, name@),
            !removed ==> final(self)@ == old(self)@,
    {
        remove_in(&mut self.roots, name)
    }

    /// Hands `child` to the first object in traversal order that carries
    /// `parent_name`, as its last child. Without such an object the
    /// registry stays as it is and the child is dropped.
    pub fn add_child(&mut self, parent_name: &str, child: SceneObject) -> (done: Result<
        (),
        RegistryError,
    >)
        ensures
            done is Ok <==> occurs(old(self)@, parent_name@),
            done is Err ==> done == Err::<(), RegistryError>(RegistryError::ParentNotFound),
            done is Err ==> final(self)@ == old(self)@,
            final(self)@ == with_child(old(self)@, parent_name@, child@),
    {
        match find_mut_in(&mut self.roots, parent_name) {
            Some(parent) => {
                proof {
                    lemma_forest_view_push(parent.children@, child);
                }
                parent.children.push(child);
                Ok(())
            },
            None => Err(RegistryError::ParentNotFound),
        }
    }
}

} // verus!
