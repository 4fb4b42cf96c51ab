//! The mathematical model of the scene graph: a forest of object values,
//! searched in pre-order.

use vstd::prelude::*;
use crate::object::ObjectView;

verus! {

/// A forest: the roots in insertion order, each with its children.
pub type Forest = Seq<ObjectView>;

/// Every object of the forest in traversal order: a root, then its
/// descendants, then the next root.
pub open spec fn preorder(forest: Forest) -> Seq<ObjectView>
    decreases forest,
{
    if forest.len() == 0 {
        Seq::empty()
    } else {
        seq![forest[0]] + preorder(forest[0].children) + preorder(forest.drop_first())
    }
}

/// The first object of a flat sequence that carries `name`.
pub open spec fn first_named(objs: Seq<ObjectView>, name: Seq<char>) -> Option<ObjectView>
    decreases objs.len(),
{
    if objs.len() == 0 {
        None
    } else if objs[0].name == name {
        Some(objs[0])
    } else {
        first_named(objs.drop_first(), name)
    }
}

/// The first object in traversal order that carries `name`.
pub open spec fn first_match(forest: Forest, name: Seq<char>) -> Option<ObjectView>
    decreases forest,
{
    if forest.len() == 0 {
        None
    } else if forest[0].name == name {
        Some(forest[0])
    } else {
        match first_match(forest[0].children, name) {
            Some(found) => Some(found),
            None => first_match(forest.drop_first(), name),
        }
    }
}

/// Whether any object of the forest carries `name`.
pub open spec fn occurs(forest: Forest, name: Seq<char>) -> bool {
    first_match(forest, name) is Some
}

/// The forest with the first object that carries `name` replaced, subtree
/// and all, by the objects of `with`. A forest without such an object is
/// left as it is.
pub open spec fn replace_first(forest: Forest, name: Seq<char>, with: Seq<ObjectView>) -> Forest
    decreases forest,
{
    if forest.len() == 0 {
        forest
    } else if forest[0].name == name {
        with + forest.drop_first()
    } else if occurs(forest[0].children, name) {
        seq![
            ObjectView {
                children: replace_first(forest[0].children, name, with),
                ..forest[0]
            },
        ] + forest.drop_first()
    } else {
        seq![forest[0]] + replace_first(forest.drop_first(), name, with)
    }
}

/// The forest without the first object that carries `name`.
pub open spec fn without_first(forest: Forest, name: Seq<char>) -> Forest {
    replace_first(forest, name, Seq::empty())
}

/// `parent` with `child` appended to its children.
pub open spec fn adopt(parent: ObjectView, child: ObjectView) -> ObjectView {
    ObjectView { children: parent.children.push(child), ..parent }
}

/// The forest in which the first object that carries `parent` has `child`
/// as its last child.
pub open spec fn with_child(forest: Forest, parent: Seq<char>, child: ObjectView) -> Forest {
    match first_match(forest, parent) {
        Some(found) => replace_first(forest, parent, seq![adopt(found, child)]),
        None => forest,
    }
}

/// Lookup goes by traversal order: the first match in the forest is the
/// first object of its pre-order listing that carries the name.
pub proof fn lemma_first_match_is_first_in_preorder(forest: Forest, name: Seq<char>)
    ensures
        first_match(forest, name) == first_named(preorder(forest), name),
    decreases forest,
{
    if forest.len() == 0 {
    } else {
        let head = seq![forest[0]];
        let below = preorder(forest[0].children);
        let after = preorder(forest.drop_first());
        lemma_first_match_is_first_in_preorder(forest[0].children, name);
        lemma_first_match_is_first_in_preorder(forest.drop_first(), name);
        lemma_first_named_concat(below, after, name);
        lemma_first_named_concat(head, below + after, name);
        assert(preorder(forest) == head + (below + after));
        assert(head.len() == 1 && head[0] == forest[0]);
        assert(head.drop_first().len() == 0);
        assert(first_named(head.drop_first(), name) is None);
        assert(first_named(head, name) == if forest[0].name == name {
            Some(forest[0])
        } else {
            None
        });
    }
}

/// Searching a concatenation searches the front first.
pub proof fn lemma_first_named_concat(a: Seq<ObjectView>, b: Seq<ObjectView>, name: Seq<char>)
    ensures
        first_named(a + b, name) == match first_named(a, name) {
            Some(found) => Some(found),
            None => first_named(b, name),
        },
    decreases a.len(),
{
    if a.len() == 0 {
        assert(a + b == b);
    } else {
        assert((a + b).drop_first() == a.drop_first() + b);
        lemma_first_named_concat(a.drop_first(), b, name);
    }
}

/// Replacing in a forest that lacks the name changes nothing.
pub proof fn lemma_replace_absent(forest: Forest, name: Seq<char>, with: Seq<ObjectView>)
    requires
        !occurs(forest, name),
    ensures
        replace_first(forest, name, with) == forest,
    decreases forest,
{
    if forest.len() > 0 {
        lemma_replace_absent(forest.drop_first(), name, with);
        assert(seq![forest[0]] + forest.drop_first() == forest);
    }
}

/// A forest that lacks a name lacks it in its first root, in what is
/// below that root, and in the roots that follow.
pub proof fn lemma_absent_everywhere(forest: Forest, name: Seq<char>)
    requires
        forest.len() > 0,
        !occurs(forest, name),
    ensures
        forest[0].name != name,
        !occurs(forest[0].children, name),
        !occurs(forest.drop_first(), name),
{
}

/// Searching a forest that starts with `head` looks at `head`, then below
/// it, then at the roots that follow.
pub proof fn lemma_first_match_cons(head: ObjectView, rest: Forest, name: Seq<char>)
    ensures
        first_match(seq![head] + rest, name) == if head.name == name {
            Some(head)
        } else {
            match first_match(head.children, name) {
                Some(found) => Some(found),
                None => first_match(rest, name),
            }
        },
{
    let forest = seq![head] + rest;
    assert(forest[0] == head);
    assert(forest.drop_first() == rest);
}

/// Replacing in a forest that starts with `head` replaces `head`, or below
/// it, or among the roots that follow.
pub proof fn lemma_replace_cons(
    head: ObjectView,
    rest: Forest,
    name: Seq<char>,
    with: Seq<ObjectView>,
)
    ensures
        replace_first(seq![head] + rest, name, with) == if head.name == name {
            with + rest
        } else if occurs(head.children, name) {
            seq![ObjectView { children: replace_first(head.children, name, with), ..head }]
                + rest
        } else {
            seq![head] + replace_first(rest, name, with)
        },
{
    let forest = seq![head] + rest;
    assert(forest[0] == head);
    assert(forest.drop_first() == rest);
}

/// Searching a forest with one more root at its end searches the old
/// roots first.
pub proof fn lemma_first_match_push(forest: Forest, last: ObjectView, name: Seq<char>)
    ensures
        first_match(forest.push(last), name) == match first_match(forest, name) {
            Some(found) => Some(found),
            None => if last.name == name {
                Some(last)
            } else {
                first_match(last.children, name)
            },
        },
    decreases forest.len(),
{
    if forest.len() == 0 {
        assert(forest.push(last) == seq![last] + Seq::<ObjectView>::empty());
        lemma_first_match_cons(last, Seq::empty(), name);
    } else {
        let rest = forest.drop_first();
        assert(forest.push(last) == seq![forest[0]] + rest.push(last));
        lemma_first_match_cons(forest[0], rest.push(last), name);
        lemma_first_match_push(rest, last, name);
    }
}

/// Replacing in a forest with one more root at its end, where the old
/// roots lack the name and the new root carries it, replaces the new
/// root.
pub proof fn lemma_replace_pushed(
    forest: Forest,
    last: ObjectView,
    name: Seq<char>,
    with: Seq<ObjectView>,
)
    requires
        !occurs(forest, name),
        last.name == name,
    ensures
        replace_first(forest.push(last), name, with) == forest + with,
    decreases forest.len(),
{
    if forest.len() == 0 {
        assert(forest.push(last) == seq![last] + Seq::<ObjectView>::empty());
        lemma_replace_cons(last, Seq::empty(), name, with);
        assert(with + Seq::<ObjectView>::empty() == forest + with);
    } else {
        let rest = forest.drop_first();
        assert(forest.push(last) == seq![forest[0]] + rest.push(last));
        lemma_replace_cons(forest[0], rest.push(last), name, with);
        lemma_replace_pushed(rest, last, name, with);
        assert(seq![forest[0]] + (rest + with) == forest + with);
    }
}

/// A child that was just handed to a parent is found under its name, and
/// taking it out again gives back the forest as it was, if its name was
/// not in the forest before.
pub proof fn lemma_adopt_then_remove(forest: Forest, parent: Seq<char>, child: ObjectView)
    requires
        occurs(forest, parent),
        !occurs(forest, child.name),
    ensures
        first_match(with_child(forest, parent, child), child.name) == Some(child),
        without_first(with_child(forest, parent, child), child.name) == forest,
    decreases forest,
{
    let found = first_match(forest, parent).unwrap();
    let grown = seq![adopt(found, child)];
    let gone = Seq::<ObjectView>::empty();
    let head = forest[0];
    let rest = forest.drop_first();
    lemma_absent_everywhere(forest, child.name);
    assert(seq![head] + rest == forest);
    if head.name == parent {
        let adopted = adopt(head, child);
        assert(grown + rest == seq![adopted] + rest);
        lemma_first_match_cons(adopted, rest, child.name);
        lemma_replace_cons(adopted, rest, child.name, gone);
        lemma_first_match_push(head.children, child, child.name);
        lemma_replace_pushed(head.children, child, child.name, gone);
        assert(head.children + gone == head.children);
        assert(ObjectView { children: head.children, ..adopted } == head);
    } else if occurs(head.children, parent) {
        lemma_adopt_then_remove(head.children, parent, child);
        let inner = with_child(head.children, parent, child);
        let changed = ObjectView { children: inner, ..head };
        lemma_first_match_cons(changed, rest, child.name);
        lemma_replace_cons(changed, rest, child.name, gone);
        assert(ObjectView { children: head.children, ..changed } == head);
    } else {
        lemma_adopt_then_remove(rest, parent, child);
        let outer = with_child(rest, parent, child);
        lemma_first_match_cons(head, outer, child.name);
        lemma_replace_cons(head, outer, child.name, gone);
    }
}

/// Taking a parent out takes out what was handed to it: a forest in which
/// the parent got one more child, and the forest before that, are the same
/// once the parent is gone.
pub proof fn lemma_remove_parent_after_adopt(forest: Forest, parent: Seq<char>, child: ObjectView)
    ensures
        without_first(with_child(forest, parent, child), parent) == without_first(forest, parent),
        occurs(with_child(forest, parent, child), parent) == occurs(forest, parent),
    decreases forest,
{
    if occurs(forest, parent) {
        let found = first_match(forest, parent).unwrap();
        let grown = seq![adopt(found, child)];
        let gone = Seq::<ObjectView>::empty();
        let head = forest[0];
        let rest = forest.drop_first();
        assert(seq![head] + rest == forest);
        if head.name == parent {
            let adopted = adopt(head, child);
            assert(grown + rest == seq![adopted] + rest);
            lemma_first_match_cons(adopted, rest, parent);
            lemma_replace_cons(adopted, rest, parent, gone);
        } else if occurs(head.children, parent) {
            lemma_remove_parent_after_adopt(head.children, parent, child);
            let inner = with_child(head.children, parent, child);
            let changed = ObjectView { children: inner, ..head };
            lemma_first_match_cons(changed, rest, parent);
            lemma_replace_cons(changed, rest, parent, gone);
        } else {
            lemma_remove_parent_after_adopt(rest, parent, child);
            let outer = with_child(rest, parent, child);
            lemma_first_match_cons(head, outer, parent);
            lemma_replace_cons(head, outer, parent, gone);
        }
    }
}

/// Taking an object out brings no name in: a name that the forest lacks
/// is still lacking afterwards.
pub proof fn lemma_removal_adds_no_name(forest: Forest, removed: Seq<char>, name: Seq<char>)
    requires
        !occurs(forest, name),
    ensures
        !occurs(without_first(forest, removed), name),
    decreases forest,
{
    if forest.len() > 0 {
        let gone = Seq::<ObjectView>::empty();
        let head = forest[0];
        let rest = forest.drop_first();
        lemma_absent_everywhere(forest, name);
        if head.name == removed {
            assert(gone + rest == rest);
        } else if occurs(head.children, removed) {
            lemma_removal_adds_no_name(head.children, removed, name);
            let changed = ObjectView { children: without_first(head.children, removed), ..head };
            lemma_first_match_cons(changed, rest, name);
        } else {
            lemma_removal_adds_no_name(rest, removed, name);
            lemma_first_match_cons(head, without_first(rest, removed), name);
        }
    }
}

/// Putting the first match back where it stood changes nothing.
pub proof fn lemma_replace_by_itself(forest: Forest, name: Seq<char>)
    requires
        occurs(forest, name),
    ensures
        replace_first(forest, name, seq![first_match(forest, name).unwrap()]) == forest,
    decreases forest,
{
    let found = first_match(forest, name).unwrap();
    if forest[0].name == name {
        assert(seq![found] + forest.drop_first() == forest);
    } else if occurs(forest[0].children, name) {
        lemma_replace_by_itself(forest[0].children, name);
        assert(seq![forest[0]] + forest.drop_first() == forest);
    } else {
        lemma_replace_by_itself(forest.drop_first(), name);
        assert(seq![forest[0]] + forest.drop_first() == forest);
    }
}

} // verus!
