//! The prop catalog: the templates that the operator can place.

use vstd::prelude::*;
use vstd::string::StringExecFns;
use crate::text::same_text;

verus! {

/// A placeable prop: the name it is selected by, and where its model and
/// its texture are loaded from.
#[derive(Debug)]
pub struct PropTemplate {
    pub name: String,
    pub model_path: String,
    pub texture_path: String,
}

/// The mathematical value of a [`PropTemplate`].
pub struct TemplateView {
    pub name: Seq<char>,
    pub model_path: Seq<char>,
    pub texture_path: Seq<char>,
}

impl View for PropTemplate {
    type V = TemplateView;

    open spec fn view(&self) -> TemplateView {
        TemplateView {
            name: self.name@,
            model_path: self.model_path@,
            texture_path: self.texture_path@,
        }
    }
}

impl PropTemplate {
    /// A template of the given name and paths.
    pub fn new(name: &str, model_path: &str, texture_path: &str) -> (template: PropTemplate)
        ensures
            template@ == (TemplateView {
                name: name@,
                model_path: model_path@,
                texture_path: texture_path@,
            }),
    {
        PropTemplate {
            name: String::from_str(name),
            model_path: String::from_str(model_path),
            texture_path: String::from_str(texture_path),
        }
    }
}

/// The values of a sequence of templates, in the same order.
pub open spec fn catalog_view(templates: Seq<PropTemplate>) -> Seq<TemplateView> {
    Seq::new(templates.len(), |i: int| templates[i]@)
}

/// Where the first template of that name stands.
pub open spec fn first_at(catalog: Seq<TemplateView>, name: Seq<char>) -> Option<int>
    decreases catalog.len(),
{
    if catalog.len() == 0 {
        None
    } else if catalog[0].name == name {
        Some(0)
    } else {
        match first_at(catalog.drop_first(), name) {
            Some(i) => Some(i + 1),
            None => None,
        }
    }
}

/// Where the template of that name that was added last stands.
pub open spec fn last_at(catalog: Seq<TemplateView>, name: Seq<char>) -> Option<int>
    decreases catalog.len(),
{
    if catalog.len() == 0 {
        None
    } else if catalog.last().name == name {
        Some(catalog.len() - 1)
    } else {
        last_at(catalog.drop_last(), name)
    }
}

/// The catalog without the first template of that name.
pub open spec fn without_template(catalog: Seq<TemplateView>, name: Seq<char>) -> Seq<
    TemplateView,
> {
    match first_at(catalog, name) {
        Some(i) => catalog.remove(i),
        None => catalog,
    }
}

/// The template that a name selects: of those that carry it, the one that
/// was added last.
pub open spec fn resolved(catalog: Seq<TemplateView>, name: Seq<char>) -> Option<TemplateView> {
    match last_at(catalog, name) {
        Some(i) => Some(catalog[i]),
        None => None,
    }
}

/// `first_at` gives the least index that holds the name, and none only
/// where no template holds it.
pub proof fn lemma_first_at(catalog: Seq<TemplateView>, name: Seq<char>)
    ensures
        match first_at(catalog, name) {
            Some(i) => {
                &&& 0 <= i < catalog.len()
                &&& catalog[i].name == name
                &&& forall|j: int| 0 <= j < i ==> catalog[j].name != name
            },
            None => forall|j: int| 0 <= j < catalog.len() ==> catalog[j].name != name,
        },
    decreases catalog.len(),
{
    if catalog.len() > 0 && catalog[0].name != name {
        let rest = catalog.drop_first();
        lemma_first_at(rest, name);
        match first_at(rest, name) {
            Some(i) => {
                assert(rest[i] == catalog[i + 1]);
                assert forall|j: int| 0 <= j < i + 1 implies catalog[j].name != name by {
                    if j > 0 {
                        assert(rest[j - 1] == catalog[j]);
                    }
                }
            },
            None => {
                assert forall|j: int| 0 <= j < catalog.len() implies catalog[j].name != name by {
                    if j > 0 {
                        assert(rest[j - 1] == catalog[j]);
                    }
                }
            },
        }
    }
}

/// `last_at` gives the greatest index that holds the name, and none only
/// where no template holds it.
pub proof fn lemma_last_at(catalog: Seq<TemplateView>, name: Seq<char>)
    ensures
        match last_at(catalog, name) {
            Some(i) => {
                &&& 0 <= i < catalog.len()
                &&& catalog[i].name == name
                &&& forall|j: int| i < j < catalog.len() ==> catalog[j].name != name
            },
            None => forall|j: int| 0 <= j < catalog.len() ==> catalog[j].name != name,
        },
    decreases catalog.len(),
{
    if catalog.len() > 0 && catalog.last().name != name {
        let front = catalog.drop_last();
        lemma_last_at(front, name);
        match last_at(front, name) {
            Some(i) => {
                assert(front[i] == catalog[i]);
                assert forall|j: int| i < j < catalog.len() implies catalog[j].name != name by {
                    if j < front.len() {
                        assert(front[j] == catalog[j]);
                    }
                }
            },
            None => {
                assert forall|j: int| 0 <= j < catalog.len() implies catalog[j].name != name by {
                    if j < front.len() {
                        assert(front[j] == catalog[j]);
                    }
                }
            },
        }
    }
}

/// The least index that holds the name is what `first_at` gives.
pub proof fn lemma_first_at_is(catalog: Seq<TemplateView>, name: Seq<char>, i: int)
    requires
        0 <= i < catalog.len(),
        catalog[i].name == name,
        forall|j: int| 0 <= j < i ==> catalog[j].name != name,
    ensures
        first_at(catalog, name) == Some(i),
{
    lemma_first_at(catalog, name);
}

/// The greatest index that holds the name is what `last_at` gives.
pub proof fn lemma_last_at_is(catalog: Seq<TemplateView>, name: Seq<char>, i: int)
    requires
        0 <= i < catalog.len(),
        catalog[i].name == name,
        forall|j: int| i < j < catalog.len() ==> catalog[j].name != name,
    ensures
        last_at(catalog, name) == Some(i),
{
    lemma_last_at(catalog, name);
}

/// The templates, in the order in which they were added. Names may
/// repeat: selection then goes to the one added last, removal to the one
/// added first.
#[derive(Debug)]
pub struct PropCatalog {
    pub templates: Vec<PropTemplate>,
}

impl View for PropCatalog {
    type V = Seq<TemplateView>;

    open spec fn view(&self) -> Seq<TemplateView> {
        catalog_view(self.templates@)
    }
}

impl PropCatalog {
    /// A catalog without templates.
    pub fn new() -> (catalog: PropCatalog)
        ensures
            catalog@ == Seq::<TemplateView>::empty(),
    {
        let catalog = PropCatalog { templates: Vec::new() };
        assert(catalog@ =~= Seq::<TemplateView>::empty());
        catalog
    }

    /// Appends `template`, whatever its name.
    pub fn add(&mut self, template: PropTemplate)
        ensures
            final(self)@ == old(self)@.push(template@),
    {
        self.templates.push(template);
        assert(self@ =~= old(self)@.push(template@));
    }

    /// Takes out the first template that carries `name`, and says whether
    /// there was one. Without such a template nothing changes.
    pub fn remove_by_name(&mut self, name: &str) -> (removed: bool)
        ensures
            removed == first_at(old(self)@, name@) is Some,
            final(self)@ == without_template(old(self)@, name@),
    {
        let mut i: usize = 0;
        while i < self.templates.len()
            invariant
                i <= self.templates.len(),
                self.templates@ == old(self).templates@,
                forall|j: int| 0 <= j < i ==> self@[j].name != name@,
            decreases self.templates.len() - i,
        {
            if same_text(self.templates[i].name.as_str(), name) {
                proof {
                    lemma_first_at_is(self@, name@, i as int);
                }
                self.templates.remove(i);
                assert(self@ =~= old(self)@.remove(i as int));
                return true;
            }
            i += 1;
        }
        proof {
            lemma_first_at(self@, name@);
        }
        false
    }

    /// Every template, for display.
    pub fn list(&self) -> (templates: &Vec<PropTemplate>)
        ensures
            catalog_view(templates@) == self@,
    {
        &self.templates
    }

    /// The template that `name` selects: of those that carry it, the one
    /// that was added last.
    pub fn resolve(&self, name: &str) -> (found: Option<&PropTemplate>)
        ensures
            match found {
                Some(template) => resolved(self@, name@) == Some(template@),
                None => resolved(self@, name@) is None,
            },
    {
        let mut i: usize = self.templates.len();
        while i > 0
            invariant
                i <= self.templates.len(),
                forall|j: int| i <= j < self.templates.len() ==> self@[j].name != name@,
            decreases i,
        {
            i -= 1;
            if same_text(self.templates[i].name.as_str(), name) {
                proof {
                    lemma_last_at_is(self@, name@, i as int);
                }
                return Some(&self.templates[i]);
            }
        }
        proof {
            lemma_last_at(self@, name@);
        }
        None
    }
}

} // verus!
