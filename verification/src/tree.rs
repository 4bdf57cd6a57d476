//! The component tree inside a transaction: how records are found, how paths
//! and records answer to each other, and how records are added.

use vstd::prelude::*;
use crate::errors::ModelError;
use crate::metadata::{
    ComponentDefinitionDocument,
    ComponentDefinitionMetadata,
    ComponentDefinitionMetadataView,
    ComponentDefinitionView,
    ComponentDocument,
    ComponentMetadata,
    ComponentMetadataView,
    ComponentType,
    ComponentTypeView,
    ComponentView,
};
use crate::search::{
    first_index,
    lemma_first_absent,
    lemma_first_found,
    lemma_first_index,
    lemma_view_push,
};
use crate::transaction::{components_form_tree, same_place, Transaction, TransactionView};
use crate::types::{ComponentId, InternalId};

verus! {

impl TransactionView {
    /// The place of the component record with that identifier.
    pub open spec fn component_place(self, id: InternalId) -> Option<int> {
        first_index(self.components, |c: ComponentView| c.id == id)
    }

    /// The place of the root record.
    pub open spec fn root_place(self) -> Option<int> {
        first_index(self.components, |c: ComponentView| c.is_root())
    }

    /// The place of the child of that parent under that name.
    pub open spec fn child_place(self, parent: InternalId, name: Seq<char>) -> Option<int> {
        first_index(self.components, |c: ComponentView| c.is_child_of(parent, name))
    }

    /// The place of the definition record with that identifier.
    pub open spec fn definition_place(self, id: InternalId) -> Option<int> {
        first_index(self.definitions, |d: ComponentDefinitionView| d.id == id)
    }

    /// The place of the component that lies under that parent and name; with
    /// neither, that of the root.
    pub open spec fn place_in_parent(self, parent_and_name: Option<(InternalId, Seq<char>)>) -> Option<
        int,
    > {
        match parent_and_name {
            Some((parent, name)) => self.child_place(parent, name),
            None => self.root_place(),
        }
    }

    /// The place that a walk from `start` down the names of `path` ends at:
    /// none as soon as one name is not found.
    pub open spec fn walk(self, start: int, path: Seq<Seq<char>>) -> Option<int>
        decreases path.len(),
    {
        if path.len() == 0 {
            Some(start)
        } else {
            match self.walk(start, path.drop_last()) {
                Some(at) => self.child_place(self.components[at].id, path.last()),
                None => None,
            }
        }
    }

    /// The place of the component at a path: the walk from the root.
    pub open spec fn resolve_path(self, path: Seq<Seq<char>>) -> Option<int> {
        match self.root_place() {
            Some(root) => self.walk(root, path),
            None => None,
        }
    }

    /// The names from the root down to the record at a place.
    #[verifier::opaque]
    pub open spec fn path_of(self, place: int) -> Seq<Seq<char>>
        decreases place,
    {
        if 0 <= place < self.components.len() {
            match self.components[place].metadata.component_type {
                ComponentTypeView::App => Seq::empty(),
                ComponentTypeView::ChildComponent { parent, name, .. } => match self.component_place(
                    parent,
                ) {
                    Some(above) => if 0 <= above < place {
                        self.path_of(above).push(name)
                    } else {
                        Seq::empty()
                    },
                    None => Seq::empty(),
                },
            }
        } else {
            Seq::empty()
        }
    }

    /// The path of a component: empty for the root, and an error where no
    /// record has the identifier.
    pub open spec fn component_path(self, id: ComponentId) -> Result<Seq<Seq<char>>, ModelError> {
        match id {
            ComponentId::Root => Ok(Seq::empty()),
            ComponentId::Child(internal_id) => match self.component_place(internal_id) {
                Some(place) => Ok(self.path_of(place)),
                None => Err(ModelError::ComponentMissing),
            },
        }
    }

    /// Whether the place that a new record claims in the tree is taken.
    pub open spec fn place_taken(self, metadata: ComponentMetadataView) -> bool {
        match metadata.component_type {
            ComponentTypeView::App => self.root_place() is Some,
            ComponentTypeView::ChildComponent { parent, name, .. } => self.child_place(parent, name)
                is Some,
        }
    }

    /// Whether the parent that a new record names exists.
    pub open spec fn has_parent_of(self, metadata: ComponentMetadataView) -> bool {
        match metadata.component_type {
            ComponentTypeView::App => true,
            ComponentTypeView::ChildComponent { parent, .. } => self.component_place(parent)
                is Some,
        }
    }

    /// What the insertion of a component record gives, and the state after
    /// it. A record for a place that is taken is refused, and so is a child
    /// whose parent does not exist.
    pub open spec fn insert_component(self, metadata: ComponentMetadataView) -> (
        Result<InternalId, ModelError>,
        TransactionView,
    ) {
        if self.place_taken(metadata) {
            (Err(ModelError::DuplicateComponent), self)
        } else if !self.has_parent_of(metadata) {
            (Err(ModelError::ComponentMissing), self)
        } else if self.next_id == u64::MAX {
            (Err(ModelError::CounterExhausted), self)
        } else {
            (
                Ok(self.next_id),
                TransactionView {
                    components: self.components.push(ComponentView { id: self.next_id, metadata }),
                    next_id: (self.next_id + 1) as u64,
                    ..self
                },
            )
        }
    }

    /// What the insertion of a definition record gives, and the state after it.
    pub open spec fn insert_definition(self, metadata: ComponentDefinitionMetadataView) -> (
        Result<InternalId, ModelError>,
        TransactionView,
    ) {
        if self.next_id == u64::MAX {
            (Err(ModelError::CounterExhausted), self)
        } else {
            (
                Ok(self.next_id),
                TransactionView {
                    definitions: self.definitions.push(
                        ComponentDefinitionView { id: self.next_id, metadata },
                    ),
                    next_id: (self.next_id + 1) as u64,
                    ..self
                },
            )
        }
    }
}

/// In a tree, the record at a place is the one that its identifier finds.
pub proof fn lemma_component_place(view: TransactionView, place: int)
    requires
        components_form_tree(view.components, view.next_id),
        0 <= place < view.components.len(),
    ensures
        view.component_place(view.components[place].id) == Some(place),
{
    reveal(components_form_tree);
    let p = |c: ComponentView| c.id == view.components[place].id;
    assert forall|j: int| 0 <= j < place implies !p(#[trigger] view.components[j]) by {
        assert(view.components[j].id < view.components[place].id);
    }
    assert(p(view.components[place]));
    lemma_first_found(view.components, p, place);
}

/// In a tree, the parent of a child stands before the child.
pub proof fn lemma_parent_place(view: TransactionView, place: int)
    requires
        components_form_tree(view.components, view.next_id),
        0 <= place < view.components.len(),
        view.components[place].metadata.component_type is ChildComponent,
    ensures
        view.component_place(view.components[place].metadata.component_type->parent) matches Some(
            above,
        ) && 0 <= above < place,
{
    reveal(components_form_tree);
    let parent = view.components[place].metadata.component_type->parent;
    let above = choose|j: int| 0 <= j < place && (#[trigger] view.components[j]).id == parent;
    lemma_component_place(view, above);
}

/// In a tree, a record is the only one at its place in the tree: the one
/// that its parent and name find, or the one root.
pub proof fn lemma_place_in_tree(view: TransactionView, place: int)
    requires
        components_form_tree(view.components, view.next_id),
        0 <= place < view.components.len(),
    ensures
        match view.components[place].metadata.component_type {
            ComponentTypeView::App => view.root_place() == Some(place),
            ComponentTypeView::ChildComponent { parent, name, .. } => view.child_place(parent, name)
                == Some(place),
        },
{
    reveal(components_form_tree);
    let here = view.components[place];
    match here.metadata.component_type {
        ComponentTypeView::App => {
            let p = |c: ComponentView| c.is_root();
            assert forall|j: int| 0 <= j < place implies !p(#[trigger] view.components[j]) by {
                assert(!same_place(view.components[j], view.components[place]));
            }
            assert(p(here));
            lemma_first_found(view.components, p, place);
        },
        ComponentTypeView::ChildComponent { parent, name, .. } => {
            let p = |c: ComponentView| c.is_child_of(parent, name);
            assert forall|j: int| 0 <= j < place implies !p(#[trigger] view.components[j]) by {
                assert(!same_place(view.components[j], view.components[place]));
            }
            assert(p(here));
            lemma_first_found(view.components, p, place);
        },
    }
}

/// A tree stays a tree when a record for a free place, with its parent in the
/// tree, is put at the end under the next identifier.
pub proof fn lemma_tree_grows(view: TransactionView, metadata: ComponentMetadataView)
    requires
        components_form_tree(view.components, view.next_id),
        !view.place_taken(metadata),
        view.has_parent_of(metadata),
        view.next_id < u64::MAX,
    ensures
        components_form_tree(
            view.components.push(ComponentView { id: view.next_id, metadata }),
            (view.next_id + 1) as u64,
        ),
{
    reveal(components_form_tree);
    let record = ComponentView { id: view.next_id, metadata };
    let before = view.components;
    let after = before.push(record);
    assert forall|i: int| 0 <= i < after.len() implies (#[trigger] after[i]).id < view.next_id
        + 1 by {
        if i < before.len() {
            assert(after[i] == before[i]);
        }
    }
    assert forall|i: int, j: int| 0 <= i < j < after.len() implies (#[trigger] after[i]).id < (
    #[trigger] after[j]).id by {
        assert(after[i] == before[i]);
        if j < before.len() {
            assert(after[j] == before[j]);
        }
    }
    assert forall|i: int| 0 <= i < after.len() implies match (
    #[trigger] after[i]).metadata.component_type {
        ComponentTypeView::App => true,
        ComponentTypeView::ChildComponent { parent, .. } => exists|j: int|
            0 <= j < i && (#[trigger] after[j]).id == parent,
    } by {
        if i < before.len() {
            assert(after[i] == before[i]);
            if before[i].metadata.component_type is ChildComponent {
                let parent = before[i].metadata.component_type->parent;
                let j = choose|j: int| 0 <= j < i && (#[trigger] before[j]).id == parent;
                assert(after[j] == before[j]);
            }
        } else {
            if metadata.component_type is ChildComponent {
                let parent = metadata.component_type->parent;
                lemma_first_index(before, |c: ComponentView| c.id == parent);
                let j = view.component_place(parent).unwrap();
                assert(after[j] == before[j]);
            }
        }
    }
    assert forall|i: int, j: int| 0 <= i < j < after.len() implies !same_place(
        #[trigger] after[i],
        #[trigger] after[j],
    ) by {
        assert(after[i] == before[i]);
        if j < before.len() {
            assert(after[j] == before[j]);
        } else {
            match metadata.component_type {
                ComponentTypeView::App => {
                    lemma_first_index(before, |c: ComponentView| c.is_root());
                    assert(!before[i].is_root());
                },
                ComponentTypeView::ChildComponent { parent, name, .. } => {
                    lemma_first_index(before, |c: ComponentView| c.is_child_of(parent, name));
                    assert(!before[i].is_child_of(parent, name));
                },
            }
        }
    }
}

impl Transaction {
    /// The place of the component record with that identifier.
    pub fn find_component(&self, id: InternalId) -> (found: Option<usize>)
        ensures
            match found {
                Some(i) => self@.component_place(id) == Some(i as int) && i < self.components.len(),
                None => self@.component_place(id) is None,
            },
    {
        let ghost p = |c: ComponentView| c.id == id;
        let mut i: usize = 0;
        while i < self.components.len()
            invariant
                i <= self.components.len(),
                p == |c: ComponentView| c.id == id,
                forall|j: int| 0 <= j < i ==> !p(#[trigger] self@.components[j]),
            decreases self.components.len() - i,
        {
            if self.components[i].id == id {
                proof {
                    assert(p(self@.components[i as int]));
                    lemma_first_found(self@.components, p, i as int);
                }
                return Some(i);
            }
            assert(!p(self@.components[i as int]));
            i = i + 1;
        }
        proof {
            lemma_first_absent(self@.components, p);
        }
        None
    }

    /// The place of the root record.
    pub fn find_root(&self) -> (found: Option<usize>)
        ensures
            match found {
                Some(i) => self@.root_place() == Some(i as int) && i < self.components.len(),
                None => self@.root_place() is None,
            },
    {
        let ghost p = |c: ComponentView| c.is_root();
        let mut i: usize = 0;
        while i < self.components.len()
            invariant
                i <= self.components.len(),
                p == |c: ComponentView| c.is_root(),
                forall|j: int| 0 <= j < i ==> !p(#[trigger] self@.components[j]),
            decreases self.components.len() - i,
        {
            if self.components[i].metadata.component_type.is_root() {
                proof {
                    assert(p(self@.components[i as int]));
                    lemma_first_found(self@.components, p, i as int);
                }
                return Some(i);
            }
            assert(!p(self@.components[i as int]));
            i = i + 1;
        }
        proof {
            lemma_first_absent(self@.components, p);
        }
        None
    }

    /// The place of the child of that parent under that name.
    pub fn find_child(&self, parent: InternalId, name: &String) -> (found: Option<usize>)
        ensures
            match found {
                Some(i) => self@.child_place(parent, name@) == Some(i as int) && i
                    < self.components.len(),
                None => self@.child_place(parent, name@) is None,
            },
    {
        let ghost p = |c: ComponentView| c.is_child_of(parent, name@);
        let mut i: usize = 0;
        while i < self.components.len()
            invariant
                i <= self.components.len(),
                p == |c: ComponentView| c.is_child_of(parent, name@),
                forall|j: int| 0 <= j < i ==> !p(#[trigger] self@.components[j]),
            decreases self.components.len() - i,
        {
            let is_child = match &self.components[i].metadata.component_type {
                ComponentType::App => false,
                ComponentType::ChildComponent { parent: p0, name: n0, .. } => *p0 == parent && *n0
                    == *name,
            };
            if is_child {
                proof {
                    assert(p(self@.components[i as int]));
                    lemma_first_found(self@.components, p, i as int);
                }
                return Some(i);
            }
            assert(!p(self@.components[i as int]));
            i = i + 1;
        }
        proof {
            lemma_first_absent(self@.components, p);
        }
        None
    }

    /// The place of the definition record with that identifier.
    pub fn find_definition(&self, id: InternalId) -> (found: Option<usize>)
        ensures
            match found {
                Some(i) => self@.definition_place(id) == Some(i as int) && i
                    < self.definitions.len(),
                None => self@.definition_place(id) is None,
            },
    {
        let ghost p = |d: ComponentDefinitionView| d.id == id;
        let mut i: usize = 0;
        while i < self.definitions.len()
            invariant
                i <= self.definitions.len(),
                p == |d: ComponentDefinitionView| d.id == id,
                forall|j: int| 0 <= j < i ==> !p(#[trigger] self@.definitions[j]),
            decreases self.definitions.len() - i,
        {
            if self.definitions[i].id == id {
                proof {
                    assert(p(self@.definitions[i as int]));
                    lemma_first_found(self@.definitions, p, i as int);
                }
                return Some(i);
            }
            assert(!p(self@.definitions[i as int]));
            i = i + 1;
        }
        proof {
            lemma_first_absent(self@.definitions, p);
        }
        None
    }

    /// Adds a component record and returns its identifier. The index on
    /// parent and name refuses a second record for a place in the tree.
    pub fn insert_component(&mut self, metadata: ComponentMetadata) -> (result: Result<
        InternalId,
        ModelError,
    >)
        requires
            old(self).wf(),
        ensures
            final(self).wf(),
            (result, final(self)@) == old(self)@.insert_component(metadata@),
    {
        let ghost view0 = self@;
        let (taken, has_parent) = match &metadata.component_type {
            ComponentType::App => (self.find_root().is_some(), true),
            ComponentType::ChildComponent { parent, name, .. } => (
                self.find_child(*parent, name).is_some(),
                self.find_component(*parent).is_some(),
            ),
        };
        if taken {
            return Err(ModelError::DuplicateComponent);
        }
        if !has_parent {
            return Err(ModelError::ComponentMissing);
        }
        let id = match self.generate_id() {
            Ok(id) => id,
            Err(e) => { return Err(e); },
        };
        let record = ComponentDocument { id, metadata };
        proof {
            lemma_view_push(self.components@, record);
            lemma_tree_grows(view0, metadata@);
        }
        self.components.push(record);
        Ok(id)
    }

    /// Adds a definition record and returns its identifier.
    pub fn insert_definition(&mut self, metadata: ComponentDefinitionMetadata) -> (result: Result<
        InternalId,
        ModelError,
    >)
        requires
            old(self).wf(),
        ensures
            final(self).wf(),
            (result, final(self)@) == old(self)@.insert_definition(metadata@),
    {
        let id = match self.generate_id() {
            Ok(id) => id,
            Err(e) => { return Err(e); },
        };
        let record = ComponentDefinitionDocument { id, metadata };
        proof {
            lemma_view_push(self.definitions@, record);
        }
        self.definitions.push(record);
        Ok(id)
    }
}

} // verus!
