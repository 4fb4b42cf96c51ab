//! Sessions: what holds of the editor after any sequence of operations.

use vstd::prelude::*;
use crate::catalog::TemplateView;
use crate::controller::{
    aimed, place_verdict, placed, previewed, reloaded, started, stepped, undone, with_prop,
    with_selection, without_prop, Frame, LoadedModel, LoadedTile, SystemView,
};
use crate::forest::Forest;
use crate::naming::{lemma_prop_name_injective, prop_name};
use crate::object::MeshHandle;
use crate::vec3::Vec3;

verus! {

/// One operation on the editor, with what it is given.
pub enum Step {
    /// Start-up.
    Start { cube_mesh: MeshHandle },
    /// The ray is aimed.
    Aim { origin: Vec3, direction: Vec3 },
    /// The preview marker is moved.
    Preview { at: Vec3 },
    /// A placement is tried.
    Place { at: Vec3, loaded: Option<LoadedModel> },
    /// The last placement is undone.
    Undo,
    /// The tile is replaced.
    ReloadTile { loaded: Option<LoadedTile> },
    /// A template joins the catalog.
    AddProp { template: TemplateView },
    /// A template leaves the catalog.
    RemoveProp { name: Seq<char> },
    /// The operator selects a name.
    Select { name: Seq<char> },
    /// A whole frame.
    Update { frame: Frame, loaded: Option<LoadedModel> },
    /// The system is told to stop, or not to.
    SetDestroyed { is_destroyed: bool },
    /// The scene is changed by hand, to anything.
    EditScene { objects: Forest },
}

/// The editor after one operation.
pub open spec fn after(s: SystemView, step: Step) -> SystemView {
    match step {
        Step::Start { cube_mesh } => started(s, cube_mesh),
        Step::Aim { origin, direction } => aimed(s, origin, direction),
        Step::Preview { at } => previewed(s, at),
        Step::Place { at, loaded } => placed(s, at, loaded),
        Step::Undo => undone(s),
        Step::ReloadTile { loaded } => reloaded(s, loaded),
        Step::AddProp { template } => with_prop(s, template),
        Step::RemoveProp { name } => without_prop(s, name),
        Step::Select { name } => with_selection(s, name),
        Step::Update { frame, loaded } => stepped(s, frame, loaded),
        Step::SetDestroyed { is_destroyed } => SystemView { is_destroyed, ..s },
        Step::EditScene { objects } => SystemView { objects, ..s },
    }
}

/// The name that a placement gives out, if it happens.
pub open spec fn name_given_by_placement(s: SystemView, loaded: Option<LoadedModel>) -> Option<
    Seq<char>,
> {
    match place_verdict(s, loaded is Some) {
        Ok(name) => Some(name),
        Err(_) => None,
    }
}

/// The prop name that one operation gives out, if it gives one out.
pub open spec fn name_given(s: SystemView, step: Step) -> Option<Seq<char>> {
    match step {
        Step::Place { at, loaded } => name_given_by_placement(s, loaded),
        Step::Update { frame, loaded } => match frame.hit {
            Some(at) => if frame.place_pressed {
                name_given_by_placement(previewed(s, at), loaded)
            } else {
                None
            },
            None => None,
        },
        _ => None,
    }
}

/// The editor after a sequence of operations.
pub open spec fn run(s: SystemView, steps: Seq<Step>) -> SystemView
    decreases steps.len(),
{
    if steps.len() == 0 {
        s
    } else {
        after(run(s, steps.drop_last()), steps.last())
    }
}

/// The prop names that a sequence of operations gives out, in the order
/// in which they are given out.
pub open spec fn names_given(s: SystemView, steps: Seq<Step>) -> Seq<Seq<char>>
    decreases steps.len(),
{
    if steps.len() == 0 {
        Seq::empty()
    } else {
        let before = names_given(s, steps.drop_last());
        match name_given(run(s, steps.drop_last()), steps.last()) {
            Some(name) => before.push(name),
            None => before,
        }
    }
}

/// Whether `name` is the prop name of a counter value above `low` and not
/// above `high`.
pub open spec fn given_between(name: Seq<char>, low: nat, high: nat) -> bool {
    exists|k: nat| low < k <= high && name == #[trigger] prop_name(k)
}

/// One operation advances the counter by one where it gives out a name,
/// and leaves it alone where it does not; the name given out is that of
/// the new counter value.
pub proof fn lemma_step_counts(s: SystemView, step: Step)
    ensures
        match name_given(s, step) {
            Some(name) => after(s, step).prop_count == s.prop_count + 1 && name == prop_name(
                s.prop_count + 1,
            ),
            None => after(s, step).prop_count == s.prop_count,
        },
{
}

/// The counter never goes back, and every name given out in a session is
/// the prop name of a counter value that was reached in it.
pub proof fn lemma_names_given_are_counted(s: SystemView, steps: Seq<Step>)
    ensures
        run(s, steps).prop_count >= s.prop_count,
        forall|i: int|
            0 <= i < names_given(s, steps).len() ==> given_between(
                #[trigger] names_given(s, steps)[i],
                s.prop_count,
                run(s, steps).prop_count,
            ),
    decreases steps.len(),
{
    if steps.len() > 0 {
        let front = steps.drop_last();
        let mid = run(s, front);
        let before = names_given(s, front);
        lemma_names_given_are_counted(s, front);
        lemma_step_counts(mid, steps.last());
        let end = run(s, steps);
        assert forall|i: int| 0 <= i < names_given(s, steps).len() implies given_between(
            #[trigger] names_given(s, steps)[i],
            s.prop_count,
            end.prop_count,
        ) by {
            if i < before.len() {
                assert(names_given(s, steps)[i] == before[i]);
                assert(given_between(before[i], s.prop_count, mid.prop_count));
                let k = choose|k: nat|
                    s.prop_count < k <= mid.prop_count && before[i] == #[trigger] prop_name(k);
                assert(s.prop_count < k <= end.prop_count && before[i] == prop_name(k));
            } else {
                let k = (mid.prop_count + 1) as nat;
                assert(names_given(s, steps)[i] == prop_name(k));
                assert(s.prop_count < k <= end.prop_count);
            }
        }
    }
}

/// Name uniqueness. Whatever the editor is asked to do in a session, and
/// in whatever order, no two of the prop names that it gives out are the
/// same.
pub proof fn lemma_names_given_are_distinct(s: SystemView, steps: Seq<Step>, i: int, j: int)
    requires
        0 <= i < j < names_given(s, steps).len(),
    ensures
        names_given(s, steps)[i] != names_given(s, steps)[j],
    decreases steps.len(),
{
    let front = steps.drop_last();
    let mid = run(s, front);
    let before = names_given(s, front);
    if j < before.len() {
        lemma_names_given_are_distinct(s, front, i, j);
        assert(names_given(s, steps)[i] == before[i]);
        assert(names_given(s, steps)[j] == before[j]);
    } else {
        lemma_names_given_are_counted(s, front);
        lemma_step_counts(mid, steps.last());
        assert(names_given(s, steps)[i] == before[i]);
        assert(given_between(before[i], s.prop_count, mid.prop_count));
        let k = choose|k: nat|
            s.prop_count < k <= mid.prop_count && before[i] == #[trigger] prop_name(k);
        assert(names_given(s, steps)[j] == prop_name(mid.prop_count + 1));
        if before[i] == prop_name(mid.prop_count + 1) {
            lemma_prop_name_injective(k, mid.prop_count + 1);
        }
    }
}

} // verus!
