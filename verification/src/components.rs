//! The component tree as callers query it: from a parent and a name to a
//! component, from a path to a component, and from a component back to its
//! path and to its definition.

use vstd::prelude::*;
use crate::errors::ModelError;
use crate::metadata::{
    ComponentDefinitionDocument,
    ComponentDefinitionView,
    ComponentDocument,
    ComponentType,
    ComponentTypeView,
    ComponentView,
};
use crate::paths::{
    CanonicalizedComponentFunctionPath,
    CanonicalizedComponentModulePath,
    ComponentModulePathView,
    ComponentPath,
};
use crate::document::ResolvedDocument;
use crate::metadata::{ComponentMetadata, ComponentMetadataView};
use crate::search::seq_view;
use crate::transaction::{components_form_tree, Transaction, TransactionView};
use crate::value::{spec_get_field, ConvexObject, ConvexValue, FieldView, ValueView};
use crate::tree::lemma_parent_place;
use crate::types::{ComponentDefinitionId, ComponentId, InternalId};

verus! {

/// The table that holds the component records.
pub struct ComponentsTable;

/// An index of a system table: its name and the fields that it orders by.
#[derive(Debug, PartialEq, Eq)]
pub struct SystemIndex {
    pub name: String,
    pub fields: Vec<String>,
}

/// The identifier that a field holds: a number that is not negative.
pub open spec fn spec_id_field(value: Option<ValueView>) -> Option<u64> {
    match value {
        Some(ValueView::Int64(n)) => if n >= 0 {
            Some(n as u64)
        } else {
            None
        },
        _ => None,
    }
}

/// Whether a field is missing or null.
pub open spec fn spec_is_absent(value: Option<ValueView>) -> bool {
    value is None || value == Some(ValueView::Null)
}

/// The component record that an object holds: its definition under
/// `definitionId`, and for a child its parent under `parent` and its name
/// under `name`. The root has neither parent nor name. None where the object
/// is no component record.
pub open spec fn spec_parse_component(fields: Seq<FieldView>) -> Option<ComponentMetadataView> {
    let parent = spec_get_field(fields, "parent"@);
    let name = spec_get_field(fields, "name"@);
    match spec_id_field(spec_get_field(fields, "definitionId"@)) {
        None => None,
        Some(definition_id) => if spec_is_absent(parent) {
            if spec_is_absent(name) {
                Some(ComponentMetadataView { definition_id, component_type: ComponentTypeView::App })
            } else {
                None
            }
        } else {
            match (spec_id_field(parent), name) {
                (Some(parent), Some(ValueView::String(name))) => Some(
                    ComponentMetadataView {
                        definition_id,
                        component_type: ComponentTypeView::ChildComponent {
                            parent,
                            name,
                            args: Seq::empty(),
                        },
                    },
                ),
                _ => None,
            }
        },
    }
}

/// The identifier that a field holds.
pub fn id_field(value: Option<&ConvexValue>) -> (id: Option<u64>)
    ensures
        id == spec_id_field(
            match value {
                Some(value) => Some(value@),
                None => None,
            },
        ),
{
    match value {
        Some(ConvexValue::Int64(n)) => if *n >= 0 {
            Some(*n as u64)
        } else {
            None
        },
        _ => None,
    }
}

/// The component record that an object holds.
pub fn parse_component(value: &ConvexObject) -> (result: Result<ComponentMetadata, ModelError>)
    ensures
        match spec_parse_component(value@) {
            Some(metadata) => result matches Ok(found) && found@ == metadata,
            None => result matches Err(e) && e == ModelError::InvalidComponentDocument,
        },
{
    let definition_id = match id_field(value.get(&"definitionId".to_owned())) {
        Some(definition_id) => definition_id,
        None => { return Err(ModelError::InvalidComponentDocument); },
    };
    let parent = value.get(&"parent".to_owned());
    let name = value.get(&"name".to_owned());
    let parent_absent = match parent {
        None => true,
        Some(ConvexValue::Null) => true,
        _ => false,
    };
    if parent_absent {
        return match name {
            None => Ok(ComponentMetadata { definition_id, component_type: ComponentType::App }),
            Some(ConvexValue::Null) => Ok(
                ComponentMetadata { definition_id, component_type: ComponentType::App },
            ),
            _ => Err(ModelError::InvalidComponentDocument),
        };
    }
    match (id_field(parent), name) {
        (Some(parent), Some(ConvexValue::String(name))) => Ok(
            ComponentMetadata {
                definition_id,
                component_type: ComponentType::ChildComponent {
                    parent,
                    name: name.clone(),
                    args: ConvexObject::empty(),
                },
            },
        ),
        _ => Err(ModelError::InvalidComponentDocument),
    }
}

impl ComponentsTable {
    /// Whether a document can stand in the table: it must hold a component
    /// record.
    pub fn validate_document(&self, document: ResolvedDocument) -> (result: Result<(), ModelError>)
        ensures
            result == if spec_parse_component(document@.value) is Some {
                Ok::<(), ModelError>(())
            } else {
                Err::<(), ModelError>(ModelError::InvalidComponentDocument)
            },
    {
        match parse_component(&document.value) {
            Ok(_) => Ok(()),
            Err(e) => Err(e),
        }
    }

    /// The name of the table.
    pub fn table_name(&self) -> (name: String)
        ensures
            name@ == "_components"@,
    {
        "_components".to_owned()
    }

    /// The indexes of the table: the one on parent and name, which keeps the
    /// names of the children of one parent apart.
    pub fn indexes(&self) -> (indexes: Vec<SystemIndex>)
        ensures
            indexes.len() == 1,
            indexes[0].name@ == "_components.by_parent_and_name"@,
            indexes[0].fields.len() == 2,
            indexes[0].fields[0]@ == "parent"@,
            indexes[0].fields[1]@ == "name"@,
    {
        let mut fields: Vec<String> = Vec::new();
        fields.push("parent".to_owned());
        fields.push("name".to_owned());
        let mut indexes: Vec<SystemIndex> = Vec::new();
        indexes.push(SystemIndex { name: "_components.by_parent_and_name".to_owned(), fields });
        indexes
    }
}

/// The model of a component that was found, or of none.
pub open spec fn found_view(found: Option<ComponentDocument>) -> Option<ComponentView> {
    match found {
        Some(document) => Some(document@),
        None => None,
    }
}

/// The model of a path that was computed, or the error.
pub open spec fn path_result_view(result: Result<ComponentPath, ModelError>) -> Result<
    Seq<Seq<char>>,
    ModelError,
> {
    match result {
        Ok(path) => Ok(path@),
        Err(e) => Err(e),
    }
}

impl TransactionView {
    /// The record at a place, if a place is given.
    pub open spec fn component_at(self, place: Option<int>) -> Option<ComponentView> {
        match place {
            Some(at) => Some(self.components[at]),
            None => None,
        }
    }

    /// The definition of a component: that of the root for the root, else the
    /// one that the record of the child names.
    pub open spec fn component_definition(self, component: ComponentId) -> Result<
        ComponentDefinitionId,
        ModelError,
    > {
        match component {
            ComponentId::Root => Ok(ComponentDefinitionId::Root),
            ComponentId::Child(id) => match self.component_place(id) {
                Some(place) => Ok(
                    ComponentDefinitionId::Child(self.components[place].metadata.definition_id),
                ),
                None => Err(ModelError::ComponentMissing),
            },
        }
    }

    /// The record of a component: the root record for the root, else the
    /// record with the identifier.
    pub open spec fn load_component(self, id: ComponentId) -> Option<ComponentView> {
        match id {
            ComponentId::Root => self.component_at(self.root_place()),
            ComponentId::Child(internal_id) => self.component_at(self.component_place(internal_id)),
        }
    }

    /// The record of a definition. That of the root is the one that the root
    /// component names.
    pub open spec fn load_definition(self, id: ComponentDefinitionId) -> Result<
        ComponentDefinitionView,
        ModelError,
    > {
        let internal_id = match id {
            ComponentDefinitionId::Root => match self.root_place() {
                Some(root) => Some(self.components[root].metadata.definition_id),
                None => None,
            },
            ComponentDefinitionId::Child(id) => Some(id),
        };
        match internal_id {
            None => Err(ModelError::RootComponentMissing),
            Some(internal_id) => match self.definition_place(internal_id) {
                Some(place) => Ok(self.definitions[place]),
                None => Err(ModelError::ComponentDefinitionMissing),
            },
        }
    }

    /// Whether two definitions have the same path.
    pub open spec fn has_duplicate_paths(self) -> bool {
        exists|i: int, j: int|
            0 <= i < j < self.definitions.len() && (#[trigger] self.definitions[i]).metadata.path
                == (#[trigger] self.definitions[j]).metadata.path
    }

    /// The module of a function inside a component, filed under the
    /// definition of the component. The root needs no walk through the tree.
    pub open spec fn function_path_to_module(
        self,
        component: Seq<Seq<char>>,
        module: Seq<char>,
    ) -> Result<ComponentModulePathView, ModelError> {
        if component.len() == 0 {
            Ok(ComponentModulePathView { component: ComponentDefinitionId::Root, module: module })
        } else {
            match self.resolve_path(component) {
                Some(place) => Ok(
                    ComponentModulePathView {
                        component: ComponentDefinitionId::Child(
                            self.components[place].metadata.definition_id,
                        ),
                        module: module,
                    },
                ),
                None => Err(ModelError::ComponentNotFound),
            }
        }
    }
}

/// The queries on the component tree, over one transaction.
pub struct BootstrapComponentsModel<'a> {
    pub tx: &'a mut Transaction,
}

impl<'a> BootstrapComponentsModel<'a> {
    pub fn new(tx: &'a mut Transaction) -> (model: Self)
        ensures
            *model.tx == *old(tx),
            *final(model.tx) == *final(tx),
    {
        BootstrapComponentsModel { tx }
    }

    /// The component that lies under the given parent and name; with neither,
    /// the root. At most one component lies there.
    pub fn component_in_parent(&mut self, parent_and_name: Option<(InternalId, String)>) -> (result:
        Result<Option<ComponentDocument>, ModelError>)
        ensures
            *final(final(self).tx) == *final(old(self).tx),
            *final(self).tx == *old(self).tx,
            result matches Ok(found) && found_view(found) == old(self).tx@.component_at(
                old(self).tx@.place_in_parent(
                    match parent_and_name {
                        Some((parent, name)) => Some((parent, name@)),
                        None => None,
                    },
                ),
            ),
    {
        let place = match &parent_and_name {
            Some((parent, name)) => self.tx.find_child(*parent, name),
            None => self.tx.find_root(),
        };
        match place {
            Some(at) => Ok(Some(self.tx.components[at].clone())),
            None => Ok(None),
        }
    }

    /// The root component.
    pub fn root_component(&mut self) -> (result: Result<Option<ComponentDocument>, ModelError>)
        ensures
            *final(final(self).tx) == *final(old(self).tx),
            *final(self).tx == *old(self).tx,
            result matches Ok(found) && found_view(found) == old(self).tx@.component_at(
                old(self).tx@.root_place(),
            ),
    {
        self.component_in_parent(None)
    }

    /// The component at a path: the walk starts at the root and takes one
    /// lookup for each name; it ends with nothing as soon as a name is not
    /// found.
    pub fn resolve_path(&mut self, path: ComponentPath) -> (result: Result<
        Option<ComponentDocument>,
        ModelError,
    >)
        ensures
            *final(final(self).tx) == *final(old(self).tx),
            *final(self).tx == *old(self).tx,
            result matches Ok(found) && found_view(found) == old(self).tx@.component_at(
                old(self).tx@.resolve_path(path@),
            ),
    {
        let ghost view = self.tx@;
        let root = match self.tx.find_root() {
            Some(root) => root,
            None => { return Ok(None); },
        };
        let mut at = root;
        let mut i: usize = 0;
        while i < path.path.len()
            invariant
                i <= path.path.len(),
                *self.tx == *old(self).tx,
                *final(self.tx) == *final(old(self).tx),
                view == self.tx@,
                view.root_place() == Some(root as int),
                at < self.tx.components.len(),
                view.walk(root as int, path@.take(i as int)) == Some(at as int),
            decreases path.path.len() - i,
        {
            proof {
                let next = path@.take(i + 1);
                assert(next.drop_last() =~= path@.take(i as int));
                assert(next.last() == path.path[i as int]@);
            }
            at = match self.tx.find_child(self.tx.components[at].id, &path.path[i]) {
                Some(below) => below,
                None => {
                    proof {
                        lemma_walk_stops(view, root as int, path@, i + 1);
                    }
                    return Ok(None);
                },
            };
            i = i + 1;
        }
        assert(path@.take(path.path.len() as int) =~= path@);
        Ok(Some(self.tx.components[at].clone()))
    }

    /// All the component records, in the order of their identifiers.
    pub fn load_all_components(&mut self) -> (result: Result<Vec<ComponentDocument>, ModelError>)
        ensures
            *final(final(self).tx) == *final(old(self).tx),
            *final(self).tx == *old(self).tx,
            result matches Ok(components) && seq_view(components@) == old(self).tx@.components,
    {
        let mut components: Vec<ComponentDocument> = Vec::new();
        let mut i: usize = 0;
        while i < self.tx.components.len()
            invariant
                i <= self.tx.components.len(),
                *self.tx == *old(self).tx,
                *final(self.tx) == *final(old(self).tx),
                components.len() == i,
                forall|j: int| 0 <= j < i ==> (#[trigger] components[j])@ == self.tx.components[j]@,
            decreases self.tx.components.len() - i,
        {
            components.push(self.tx.components[i].clone());
            i = i + 1;
        }
        assert(seq_view(components@) =~= self.tx@.components);
        Ok(components)
    }

    /// The path of a component: the names on the way from the root down to
    /// it. The walk goes up the parent links and fails where a record on the
    /// way is missing.
    pub fn get_component_path(&mut self, component_id: ComponentId) -> (result: Result<
        ComponentPath,
        ModelError,
    >)
        requires
            old(self).tx.wf(),
        ensures
            *final(final(self).tx) == *final(old(self).tx),
            *final(self).tx == *old(self).tx,
            path_result_view(result) == old(self).tx@.component_path(component_id),
    {
        let ghost view = self.tx@;
        let internal_id = match component_id {
            ComponentId::Root => { return Ok(ComponentPath::root()); },
            ComponentId::Child(internal_id) => internal_id,
        };
        let mut place = match self.tx.find_component(internal_id) {
            Some(place) => place,
            None => { return Err(ModelError::ComponentMissing); },
        };
        let ghost start = place as int;
        let mut names: Vec<String> = Vec::new();
        let mut at_root = self.tx.components[place].metadata.component_type.is_root();
        proof {
            lemma_path_start(view.path_of(start), seq_view(names@));
        }
        while !at_root
            invariant
                *self.tx == *old(self).tx,
                *final(self.tx) == *final(old(self).tx),
                view == self.tx@,
                components_form_tree(view.components, view.next_id),
                place < self.tx.components.len(),
                at_root == view.components[place as int].is_root(),
                view.path_of(start) == view.path_of(place as int) + seq_view(names@).reverse(),
            decreases place,
        {
            let ghost below = place as int;
            let ghost names_before = seq_view(names@);
            let (parent, name) = match &self.tx.components[place].metadata.component_type {
                ComponentType::ChildComponent { parent, name, .. } => (*parent, name.clone()),
                ComponentType::App => { return Err(ModelError::ComponentMissing); },
            };
            proof {
                lemma_path_step(view, below);
            }
            place = match self.tx.find_component(parent) {
                Some(above) => above,
                None => { return Err(ModelError::ComponentMissing); },
            };
            names.push(name);
            at_root = self.tx.components[place].metadata.component_type.is_root();
            proof {
                assert(seq_view(names@) =~= names_before.push(name@));
                lemma_path_grows(view.path_of(place as int), name@, names_before);
            }
        }
        proof {
            lemma_path_of_root(view, place as int);
            lemma_path_start(seq_view(names@).reverse(), Seq::<Seq<char>>::empty());
        }
        let mut path: Vec<String> = Vec::new();
        let total = names.len();
        let mut k: usize = 0;
        while k < total
            invariant
                k <= total,
                total == names.len(),
                path.len() == k,
                forall|j: int| 0 <= j < k ==> (#[trigger] path[j])@ == names[total - 1 - j]@,
            decreases total - k,
        {
            path.push(names[total - 1 - k].clone());
            k = k + 1;
        }
        assert(seq_view(path@) =~= seq_view(names@).reverse());
        Ok(ComponentPath::from(path))
    }

    /// The definition of a component.
    pub fn component_definition(&mut self, component: ComponentId) -> (result: Result<
        ComponentDefinitionId,
        ModelError,
    >)
        ensures
            *final(final(self).tx) == *final(old(self).tx),
            *final(self).tx == *old(self).tx,
            result == old(self).tx@.component_definition(component),
    {
        match component {
            ComponentId::Root => Ok(ComponentDefinitionId::Root),
            ComponentId::Child(component_id) => match self.tx.find_component(component_id) {
                Some(place) => Ok(
                    ComponentDefinitionId::Child(self.tx.components[place].metadata.definition_id),
                ),
                None => Err(ModelError::ComponentMissing),
            },
        }
    }

    /// The record of a component, if there is one.
    pub fn load_component(&mut self, id: ComponentId) -> (result: Result<
        Option<ComponentDocument>,
        ModelError,
    >)
        ensures
            *final(final(self).tx) == *final(old(self).tx),
            *final(self).tx == *old(self).tx,
            result matches Ok(found) && found_view(found) == old(self).tx@.load_component(id),
    {
        match id {
            ComponentId::Root => self.root_component(),
            ComponentId::Child(internal_id) => match self.tx.find_component(internal_id) {
                Some(place) => Ok(Some(self.tx.components[place].clone())),
                None => Ok(None),
            },
        }
    }

    /// The record of a definition. It fails where the root component or the
    /// definition record is missing.
    pub fn load_definition(&mut self, id: ComponentDefinitionId) -> (result: Result<
        ComponentDefinitionDocument,
        ModelError,
    >)
        ensures
            *final(final(self).tx) == *final(old(self).tx),
            *final(self).tx == *old(self).tx,
            match old(self).tx@.load_definition(id) {
                Ok(definition) => result matches Ok(found) && found@ == definition,
                Err(e) => result matches Err(error) && error == e,
            },
    {
        let internal_id = match id {
            ComponentDefinitionId::Root => match self.tx.find_root() {
                Some(root) => self.tx.components[root].metadata.definition_id,
                None => { return Err(ModelError::RootComponentMissing); },
            },
            ComponentDefinitionId::Child(id) => id,
        };
        match self.tx.find_definition(internal_id) {
            Some(place) => Ok(self.tx.definitions[place].clone()),
            None => Err(ModelError::ComponentDefinitionMissing),
        }
    }

    /// All the definition records, in the order of their identifiers. It
    /// fails where two definitions have the same path: callers look
    /// definitions up by path, and a path must name one of them.
    pub fn load_all_definitions(&mut self) -> (result: Result<
        Vec<ComponentDefinitionDocument>,
        ModelError,
    >)
        ensures
            *final(final(self).tx) == *final(old(self).tx),
            *final(self).tx == *old(self).tx,
            match result {
                Ok(definitions) => !old(self).tx@.has_duplicate_paths() && seq_view(definitions@)
                    == old(self).tx@.definitions,
                Err(e) => old(self).tx@.has_duplicate_paths() && e
                    == ModelError::DuplicateDefinitionPath,
            },
    {
        let ghost all = self.tx@.definitions;
        let mut definitions: Vec<ComponentDefinitionDocument> = Vec::new();
        let mut j: usize = 0;
        while j < self.tx.definitions.len()
            invariant
                j <= self.tx.definitions.len(),
                *self.tx == *old(self).tx,
                *final(self.tx) == *final(old(self).tx),
                all == self.tx@.definitions,
                definitions.len() == j,
                forall|k: int| 0 <= k < j ==> (#[trigger] definitions[k])@ == all[k],
                forall|a: int, b: int|
                    0 <= a < b < j ==> (#[trigger] all[a]).metadata.path != (
                    #[trigger] all[b]).metadata.path,
            decreases self.tx.definitions.len() - j,
        {
            let mut i: usize = 0;
            while i < j
                invariant
                    i <= j < self.tx.definitions.len(),
                    *self.tx == *old(self).tx,
                    all == self.tx@.definitions,
                    forall|a: int| 0 <= a < i ==> (#[trigger] all[a]).metadata.path != all[j as int].metadata.path,
                decreases j - i,
            {
                if self.tx.definitions[i].metadata.path == self.tx.definitions[j].metadata.path {
                    assert(all[i as int].metadata.path == all[j as int].metadata.path);
                    return Err(ModelError::DuplicateDefinitionPath);
                }
                i = i + 1;
            }
            definitions.push(self.tx.definitions[j].clone());
            j = j + 1;
        }
        assert(seq_view(definitions@) =~= all);
        Ok(definitions)
    }

    /// The module that holds a function, filed under the definition of the
    /// component of the function.
    pub fn function_path_to_module(&mut self, path: CanonicalizedComponentFunctionPath) -> (result:
        Result<CanonicalizedComponentModulePath, ModelError>)
        ensures
            *final(final(self).tx) == *final(old(self).tx),
            *final(self).tx == *old(self).tx,
            match old(self).tx@.function_path_to_module(path@.component, path@.udf_path.module) {
                Ok(module) => result matches Ok(found) && found@ == module,
                Err(e) => result matches Err(error) && error == e,
            },
    {
        let module = path.udf_path.module().clone();
        let definition_id = if path.component.is_root() {
            ComponentDefinitionId::Root
        } else {
            match self.resolve_path(path.component) {
                Ok(Some(component_metadata)) => ComponentDefinitionId::Child(
                    component_metadata.metadata.definition_id,
                ),
                Ok(None) => { return Err(ModelError::ComponentNotFound); },
                Err(e) => { return Err(e); },
            }
        };
        Ok(CanonicalizedComponentModulePath { component: definition_id, module: module })
    }
}

/// The path of a child is the path of its parent and then its own name.
pub proof fn lemma_path_step(view: TransactionView, below: int)
    requires
        components_form_tree(view.components, view.next_id),
        0 <= below < view.components.len(),
        view.components[below].metadata.component_type is ChildComponent,
    ensures
        view.component_place(view.components[below].metadata.component_type->parent) matches Some(
            above,
        ) && 0 <= above < below && view.path_of(below) == view.path_of(above).push(
            view.components[below].metadata.component_type->name,
        ),
{
    reveal(TransactionView::path_of);
    lemma_parent_place(view, below);
}

/// The path of a root record is empty.
pub proof fn lemma_path_of_root(view: TransactionView, place: int)
    requires
        0 <= place < view.components.len(),
        view.components[place].is_root(),
    ensures
        view.path_of(place) == Seq::<Seq<char>>::empty(),
{
    reveal(TransactionView::path_of);
}

/// Nothing added to a path leaves the path.
pub proof fn lemma_path_start(path: Seq<Seq<char>>, names: Seq<Seq<char>>)
    requires
        names.len() == 0,
    ensures
        path + names.reverse() == path,
        Seq::<Seq<char>>::empty() + path == path,
{
    assert(path + names.reverse() =~= path);
    assert(Seq::<Seq<char>>::empty() + path =~= path);
}

/// A name that is taken from the end of the upper part of a path goes to the
/// front of the lower part.
pub proof fn lemma_path_grows(above: Seq<Seq<char>>, name: Seq<char>, names: Seq<Seq<char>>)
    ensures
        above.push(name) + names.reverse() == above + names.push(name).reverse(),
{
    assert(names.push(name).reverse() =~= seq![name] + names.reverse());
    assert(above.push(name) + names.reverse() =~= above + (seq![name] + names.reverse()));
}

/// A walk that finds nothing after the first `n` names finds nothing at the
/// end of the path.
pub proof fn lemma_walk_stops(view: TransactionView, start: int, path: Seq<Seq<char>>, n: int)
    requires
        0 <= n <= path.len(),
        view.walk(start, path.take(n)) is None,
    ensures
        view.walk(start, path) is None,
    decreases path.len() - n,
{
    if n < path.len() {
        assert(path.take(n + 1).drop_last() =~= path.take(n));
        lemma_walk_stops(view, start, path, n + 1);
    } else {
        assert(path.take(n) =~= path);
    }
}

} // verus!
