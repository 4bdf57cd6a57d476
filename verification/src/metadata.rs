//! The records of the component tree: components and their definitions.

use vstd::prelude::*;
use crate::search::seq_view;
use crate::types::InternalId;
use crate::value::{ConvexObject, FieldView};

verus! {

/// A copy of a list of names.
pub fn clone_names(names: &Vec<String>) -> (copy: Vec<String>)
    ensures
        seq_view(copy@) == seq_view(names@),
{
    let mut copy: Vec<String> = Vec::new();
    let mut i: usize = 0;
    while i < names.len()
        invariant
            i <= names.len(),
            copy.len() == i,
            forall|j: int| 0 <= j < i ==> (#[trigger] copy[j])@ == names[j]@,
        decreases names.len() - i,
    {
        copy.push(names[i].clone());
        i = i + 1;
    }
    assert(seq_view(copy@) =~= seq_view(names@));
    copy
}

/// What a component is in the tree: the root, or a named child of another
/// component, made with arguments.
#[derive(Debug, PartialEq, Eq)]
pub enum ComponentType {
    App,
    ChildComponent { parent: InternalId, name: String, args: ConvexObject },
}

/// What a [`ComponentType`] holds.
pub enum ComponentTypeView {
    App,
    ChildComponent { parent: InternalId, name: Seq<char>, args: Seq<FieldView> },
}

impl View for ComponentType {
    type V = ComponentTypeView;

    open spec fn view(&self) -> ComponentTypeView {
        match *self {
            ComponentType::App => ComponentTypeView::App,
            ComponentType::ChildComponent { parent, name, args } => ComponentTypeView::ChildComponent {
                parent,
                name: name@,
                args: args@,
            },
        }
    }
}

impl ComponentType {
    pub fn is_root(&self) -> (root: bool)
        ensures
            root == (self@ is App),
    {
        match self {
            ComponentType::App => true,
            ComponentType::ChildComponent { .. } => false,
        }
    }
}

impl Clone for ComponentType {
    fn clone(&self) -> (copy: Self)
        ensures
            copy@ == self@,
    {
        match self {
            ComponentType::App => ComponentType::App,
            ComponentType::ChildComponent { parent, name, args } => ComponentType::ChildComponent {
                parent: *parent,
                name: name.clone(),
                args: args.clone(),
            },
        }
    }
}

/// What is stored of a component: its definition and its place in the tree.
#[derive(Debug, PartialEq, Eq)]
pub struct ComponentMetadata {
    pub definition_id: InternalId,
    pub component_type: ComponentType,
}

/// What a [`ComponentMetadata`] holds.
pub struct ComponentMetadataView {
    pub definition_id: InternalId,
    pub component_type: ComponentTypeView,
}

impl View for ComponentMetadata {
    type V = ComponentMetadataView;

    open spec fn view(&self) -> ComponentMetadataView {
        ComponentMetadataView {
            definition_id: self.definition_id,
            component_type: self.component_type@,
        }
    }
}

impl Clone for ComponentMetadata {
    fn clone(&self) -> (copy: Self)
        ensures
            copy@ == self@,
    {
        ComponentMetadata {
            definition_id: self.definition_id,
            component_type: self.component_type.clone(),
        }
    }
}

/// A component record: the metadata under the identifier of the record.
#[derive(Debug, PartialEq, Eq)]
pub struct ComponentDocument {
    pub id: InternalId,
    pub metadata: ComponentMetadata,
}

/// What a [`ComponentDocument`] holds.
pub struct ComponentView {
    pub id: InternalId,
    pub metadata: ComponentMetadataView,
}

impl View for ComponentDocument {
    type V = ComponentView;

    open spec fn view(&self) -> ComponentView {
        ComponentView { id: self.id, metadata: self.metadata@ }
    }
}

impl Clone for ComponentDocument {
    fn clone(&self) -> (copy: Self)
        ensures
            copy@ == self@,
    {
        ComponentDocument { id: self.id, metadata: self.metadata.clone() }
    }
}

impl ComponentView {
    /// Whether the record is the root of the tree.
    pub open spec fn is_root(self) -> bool {
        self.metadata.component_type is App
    }

    /// Whether the record is the child of that parent under that name.
    pub open spec fn is_child_of(self, parent: InternalId, name: Seq<char>) -> bool {
        match self.metadata.component_type {
            ComponentTypeView::App => false,
            ComponentTypeView::ChildComponent { parent: p, name: n, .. } => p == parent && n == name,
        }
    }
}

/// What a definition describes: the application itself, or a component that
/// others instantiate.
#[derive(Debug, PartialEq, Eq)]
pub enum ComponentDefinitionType {
    App,
    ChildComponent { name: String, args: ConvexObject },
}

/// What a [`ComponentDefinitionType`] holds.
pub enum ComponentDefinitionTypeView {
    App,
    ChildComponent { name: Seq<char>, args: Seq<FieldView> },
}

impl View for ComponentDefinitionType {
    type V = ComponentDefinitionTypeView;

    open spec fn view(&self) -> ComponentDefinitionTypeView {
        match *self {
            ComponentDefinitionType::App => ComponentDefinitionTypeView::App,
            ComponentDefinitionType::ChildComponent { name, args } => {
                ComponentDefinitionTypeView::ChildComponent { name: name@, args: args@ }
            },
        }
    }
}

impl Clone for ComponentDefinitionType {
    fn clone(&self) -> (copy: Self)
        ensures
            copy@ == self@,
    {
        match self {
            ComponentDefinitionType::App => ComponentDefinitionType::App,
            ComponentDefinitionType::ChildComponent { name, args } => {
                ComponentDefinitionType::ChildComponent { name: name.clone(), args: args.clone() }
            },
        }
    }
}

/// A child component that a definition declares: its name, the path of its
/// definition and its arguments.
#[derive(Debug, PartialEq, Eq)]
pub struct ComponentInstantiation {
    pub name: String,
    pub path: String,
    pub args: ConvexObject,
}

/// What a [`ComponentInstantiation`] holds.
pub struct ComponentInstantiationView {
    pub name: Seq<char>,
    pub path: Seq<char>,
    pub args: Seq<FieldView>,
}

impl View for ComponentInstantiation {
    type V = ComponentInstantiationView;

    open spec fn view(&self) -> ComponentInstantiationView {
        ComponentInstantiationView { name: self.name@, path: self.path@, args: self.args@ }
    }
}

impl Clone for ComponentInstantiation {
    fn clone(&self) -> (copy: Self)
        ensures
            copy@ == self@,
    {
        ComponentInstantiation {
            name: self.name.clone(),
            path: self.path.clone(),
            args: self.args.clone(),
        }
    }
}

/// A copy of a list of declared child components.
pub fn clone_instantiations(items: &Vec<ComponentInstantiation>) -> (copy: Vec<
    ComponentInstantiation,
>)
    ensures
        seq_view(copy@) == seq_view(items@),
{
    let mut copy: Vec<ComponentInstantiation> = Vec::new();
    let mut i: usize = 0;
    while i < items.len()
        invariant
            i <= items.len(),
            copy.len() == i,
            forall|j: int| 0 <= j < i ==> (#[trigger] copy[j])@ == items[j]@,
        decreases items.len() - i,
    {
        copy.push(items[i].clone());
        i = i + 1;
    }
    assert(seq_view(copy@) =~= seq_view(items@));
    copy
}

/// What is stored of a component definition.
#[derive(Debug, PartialEq, Eq)]
pub struct ComponentDefinitionMetadata {
    pub path: String,
    pub definition_type: ComponentDefinitionType,
    pub child_components: Vec<ComponentInstantiation>,
    pub exports: Vec<String>,
}

/// What a [`ComponentDefinitionMetadata`] holds.
pub struct ComponentDefinitionMetadataView {
    pub path: Seq<char>,
    pub definition_type: ComponentDefinitionTypeView,
    pub child_components: Seq<ComponentInstantiationView>,
    pub exports: Seq<Seq<char>>,
}

impl View for ComponentDefinitionMetadata {
    type V = ComponentDefinitionMetadataView;

    open spec fn view(&self) -> ComponentDefinitionMetadataView {
        ComponentDefinitionMetadataView {
            path: self.path@,
            definition_type: self.definition_type@,
            child_components: seq_view(self.child_components@),
            exports: seq_view(self.exports@),
        }
    }
}

impl Clone for ComponentDefinitionMetadata {
    fn clone(&self) -> (copy: Self)
        ensures
            copy@ == self@,
    {
        ComponentDefinitionMetadata {
            path: self.path.clone(),
            definition_type: self.definition_type.clone(),
            child_components: clone_instantiations(&self.child_components),
            exports: clone_names(&self.exports),
        }
    }
}

/// A definition record: the metadata under the identifier of the record.
#[derive(Debug, PartialEq, Eq)]
pub struct ComponentDefinitionDocument {
    pub id: InternalId,
    pub metadata: ComponentDefinitionMetadata,
}

/// What a [`ComponentDefinitionDocument`] holds.
pub struct ComponentDefinitionView {
    pub id: InternalId,
    pub metadata: ComponentDefinitionMetadataView,
}

impl View for ComponentDefinitionDocument {
    type V = ComponentDefinitionView;

    open spec fn view(&self) -> ComponentDefinitionView {
        ComponentDefinitionView { id: self.id, metadata: self.metadata@ }
    }
}

impl Clone for ComponentDefinitionDocument {
    fn clone(&self) -> (copy: Self)
        ensures
            copy@ == self@,
    {
        ComponentDefinitionDocument { id: self.id, metadata: self.metadata.clone() }
    }
}

} // verus!
