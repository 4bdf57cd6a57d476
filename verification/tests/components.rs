use database::components::{parse_component, BootstrapComponentsModel, ComponentsTable};
use database::document::ResolvedDocument;
use database::types::{DeveloperDocumentId, ResolvedDocumentId};
use database::value::{ConvexValue, Field};
use database::errors::{ErrorKind, ModelError};
use database::metadata::{
    ComponentDefinitionMetadata, ComponentDefinitionType, ComponentInstantiation,
    ComponentMetadata, ComponentType,
};
use database::paths::{
    CanonicalizedComponentFunctionPath, CanonicalizedUdfPath, ComponentPath,
};
use database::transaction::Transaction;
use database::types::{ComponentDefinitionId, ComponentId, Identity};
use database::value::ConvexObject;

fn child_definition(path: &str, name: &str) -> ComponentDefinitionMetadata {
    ComponentDefinitionMetadata {
        path: path.to_string(),
        definition_type: ComponentDefinitionType::ChildComponent {
            name: name.to_string(),
            args: ConvexObject::empty(),
        },
        child_components: Vec::new(),
        exports: Vec::new(),
    }
}

fn app_definition(children: Vec<ComponentInstantiation>) -> ComponentDefinitionMetadata {
    ComponentDefinitionMetadata {
        path: "".to_string(),
        definition_type: ComponentDefinitionType::App,
        child_components: children,
        exports: Vec::new(),
    }
}

fn child(definition_id: u64, parent: u64, name: &str) -> ComponentMetadata {
    ComponentMetadata {
        definition_id,
        component_type: ComponentType::ChildComponent {
            parent,
            name: name.to_string(),
            args: ConvexObject::empty(),
        },
    }
}

fn app(definition_id: u64) -> ComponentMetadata {
    ComponentMetadata { definition_id, component_type: ComponentType::App }
}

/// Root with definitions and one child under the given name; returns the
/// transaction with the identifiers of the root and the child.
fn tree_with_child(name: &str) -> (Transaction, u64, u64, u64, u64) {
    let mut tx = Transaction::new(Identity::System);
    let child_definition_path = "../app/child";
    let child_definition_id =
        tx.insert_definition(child_definition(child_definition_path, "child")).unwrap();
    let root_definition_id = tx
        .insert_definition(app_definition(vec![ComponentInstantiation {
            name: "child_subcomponent".to_string(),
            path: child_definition_path.to_string(),
            args: ConvexObject::empty(),
        }]))
        .unwrap();
    let root_id = tx.insert_component(app(root_definition_id)).unwrap();
    let child_id = tx.insert_component(child(child_definition_id, root_id, name)).unwrap();
    (tx, root_id, child_id, root_definition_id, child_definition_id)
}

#[test]
fn test_component_path() {
    let (mut tx, _root_id, child_id, _, _) = tree_with_child("subcomponent_child");
    let resolved_path = BootstrapComponentsModel::new(&mut tx)
        .resolve_path(ComponentPath::from(vec!["subcomponent_child".to_string()]))
        .unwrap();
    assert_eq!(resolved_path.unwrap().id, child_id);
    let path = BootstrapComponentsModel::new(&mut tx)
        .get_component_path(ComponentId::Child(child_id))
        .unwrap();
    assert_eq!(path, ComponentPath::from(vec!["subcomponent_child".to_string()]));
}

#[test]
fn resolve_path_of_child_named_app() {
    let (mut tx, root_id, child_id, _, child_definition_id) = tree_with_child("app");
    let found = BootstrapComponentsModel::new(&mut tx)
        .resolve_path(ComponentPath::from(vec!["app".to_string()]))
        .unwrap()
        .unwrap();
    assert_eq!(found.id, child_id);
    assert_eq!(found.metadata.definition_id, child_definition_id);
    assert_eq!(
        found.metadata.component_type,
        ComponentType::ChildComponent {
            parent: root_id,
            name: "app".to_string(),
            args: ConvexObject::empty()
        }
    );
    let path = BootstrapComponentsModel::new(&mut tx)
        .get_component_path(ComponentId::Child(child_id))
        .unwrap();
    assert_eq!(path.path, vec!["app".to_string()]);
}

#[test]
fn path_round_trip_in_a_deep_tree() {
    let mut tx = Transaction::new(Identity::System);
    let d = tx.insert_definition(app_definition(Vec::new())).unwrap();
    let root = tx.insert_component(app(d)).unwrap();
    let a = tx.insert_component(child(d, root, "a")).unwrap();
    let b = tx.insert_component(child(d, a, "b")).unwrap();
    let b2 = tx.insert_component(child(d, root, "b")).unwrap();
    let c = tx.insert_component(child(d, b, "c")).unwrap();
    let mut model = BootstrapComponentsModel::new(&mut tx);
    let all = [(a, vec!["a"]), (b, vec!["a", "b"]), (b2, vec!["b"]), (c, vec!["a", "b", "c"])];
    for (id, names) in all {
        let path = model.get_component_path(ComponentId::Child(id)).unwrap();
        let expected: Vec<String> = names.iter().map(|n| n.to_string()).collect();
        assert_eq!(path.path, expected);
        let back = model.resolve_path(path).unwrap().unwrap();
        assert_eq!(back.id, id);
    }
    let root_path = model.get_component_path(ComponentId::Root).unwrap();
    assert!(root_path.is_root());
    assert_eq!(model.resolve_path(root_path).unwrap().unwrap().id, root);
    let root_by_id = model.get_component_path(ComponentId::Child(root)).unwrap();
    assert!(root_by_id.path.is_empty());
}

#[test]
fn resolve_path_stops_at_the_first_missing_name() {
    let (mut tx, _, _, _, _) = tree_with_child("app");
    let mut model = BootstrapComponentsModel::new(&mut tx);
    let missing = ComponentPath::from(vec!["nope".to_string()]);
    assert_eq!(model.resolve_path(missing).unwrap(), None);
    let below_missing =
        ComponentPath::from(vec!["nope".to_string(), "app".to_string()]);
    assert_eq!(model.resolve_path(below_missing).unwrap(), None);
    let too_deep = ComponentPath::from(vec!["app".to_string(), "app".to_string()]);
    assert_eq!(model.resolve_path(too_deep).unwrap(), None);
}

#[test]
fn resolve_path_without_root_finds_nothing() {
    let mut tx = Transaction::new(Identity::System);
    let mut model = BootstrapComponentsModel::new(&mut tx);
    assert_eq!(model.resolve_path(ComponentPath::root()).unwrap(), None);
    assert_eq!(model.root_component().unwrap(), None);
    assert_eq!(model.component_in_parent(None).unwrap(), None);
    assert_eq!(model.component_in_parent(Some((1, "a".to_string()))).unwrap(), None);
}

#[test]
fn component_in_parent_finds_the_one_component() {
    let (mut tx, root_id, child_id, _, _) = tree_with_child("app");
    let mut model = BootstrapComponentsModel::new(&mut tx);
    assert_eq!(model.component_in_parent(None).unwrap().unwrap().id, root_id);
    assert_eq!(model.root_component().unwrap().unwrap().id, root_id);
    let found = model.component_in_parent(Some((root_id, "app".to_string()))).unwrap();
    assert_eq!(found.unwrap().id, child_id);
    assert_eq!(model.component_in_parent(Some((root_id, "other".to_string()))).unwrap(), None);
    assert_eq!(model.component_in_parent(Some((child_id, "app".to_string()))).unwrap(), None);
}

#[test]
fn second_component_at_the_same_place_is_refused() {
    let (mut tx, root_id, _child_id, root_definition_id, child_definition_id) =
        tree_with_child("app");
    let before = tx.components.len();
    let again = tx.insert_component(child(child_definition_id, root_id, "app"));
    assert_eq!(again, Err(ModelError::DuplicateComponent));
    assert_eq!(ModelError::DuplicateComponent.kind(), ErrorKind::BadRequest);
    let second_root = tx.insert_component(app(root_definition_id));
    assert_eq!(second_root, Err(ModelError::DuplicateComponent));
    assert_eq!(tx.components.len(), before);
    let other_name = tx.insert_component(child(child_definition_id, root_id, "app2"));
    assert!(other_name.is_ok());
    assert_eq!(tx.components.len(), before + 1);
}

#[test]
fn child_without_parent_is_refused() {
    let mut tx = Transaction::new(Identity::System);
    let orphan = tx.insert_component(child(1, 77, "a"));
    assert_eq!(orphan, Err(ModelError::ComponentMissing));
    assert!(tx.components.is_empty());
}

#[test]
fn get_component_path_of_unknown_component_fails() {
    let (mut tx, _, _, _, _) = tree_with_child("app");
    let mut model = BootstrapComponentsModel::new(&mut tx);
    let result = model.get_component_path(ComponentId::Child(999));
    assert_eq!(result, Err(ModelError::ComponentMissing));
    assert_eq!(ModelError::ComponentMissing.kind(), ErrorKind::Internal);
}

#[test]
fn component_definition_of_root_and_child() {
    let (mut tx, root_id, child_id, root_definition_id, child_definition_id) =
        tree_with_child("app");
    let mut model = BootstrapComponentsModel::new(&mut tx);
    assert_eq!(model.component_definition(ComponentId::Root), Ok(ComponentDefinitionId::Root));
    assert_eq!(
        model.component_definition(ComponentId::Child(child_id)),
        Ok(ComponentDefinitionId::Child(child_definition_id))
    );
    assert_eq!(
        model.component_definition(ComponentId::Child(root_id)),
        Ok(ComponentDefinitionId::Child(root_definition_id))
    );
    assert_eq!(
        model.component_definition(ComponentId::Child(4242)),
        Err(ModelError::ComponentMissing)
    );
}

#[test]
fn load_component_and_definition() {
    let (mut tx, root_id, child_id, root_definition_id, child_definition_id) =
        tree_with_child("app");
    let mut model = BootstrapComponentsModel::new(&mut tx);
    assert_eq!(model.load_component(ComponentId::Root).unwrap().unwrap().id, root_id);
    assert_eq!(model.load_component(ComponentId::Child(child_id)).unwrap().unwrap().id, child_id);
    assert_eq!(model.load_component(ComponentId::Child(555)).unwrap(), None);

    let root_definition = model.load_definition(ComponentDefinitionId::Root).unwrap();
    assert_eq!(root_definition.id, root_definition_id);
    assert_eq!(root_definition.metadata.definition_type, ComponentDefinitionType::App);
    assert_eq!(root_definition.metadata.child_components.len(), 1);
    assert_eq!(root_definition.metadata.child_components[0].name, "child_subcomponent");
    let child_definition =
        model.load_definition(ComponentDefinitionId::Child(child_definition_id)).unwrap();
    assert_eq!(child_definition.metadata.path, "../app/child");
    assert_eq!(
        model.load_definition(ComponentDefinitionId::Child(31337)),
        Err(ModelError::ComponentDefinitionMissing)
    );
}

#[test]
fn load_definition_of_root_without_root_fails() {
    let mut tx = Transaction::new(Identity::System);
    tx.insert_definition(app_definition(Vec::new())).unwrap();
    let mut model = BootstrapComponentsModel::new(&mut tx);
    assert_eq!(
        model.load_definition(ComponentDefinitionId::Root),
        Err(ModelError::RootComponentMissing)
    );
}

#[test]
fn load_all_components_and_definitions() {
    let (mut tx, root_id, child_id, root_definition_id, child_definition_id) =
        tree_with_child("app");
    let mut model = BootstrapComponentsModel::new(&mut tx);
    let components = model.load_all_components().unwrap();
    let ids: Vec<u64> = components.iter().map(|c| c.id).collect();
    assert_eq!(ids, vec![root_id, child_id]);
    let definitions = model.load_all_definitions().unwrap();
    let ids: Vec<u64> = definitions.iter().map(|d| d.id).collect();
    assert_eq!(ids, vec![child_definition_id, root_definition_id]);
    assert_eq!(definitions[0].metadata.path, "../app/child");
    assert_eq!(definitions[1].metadata.path, "");
}

#[test]
fn load_all_definitions_refuses_two_definitions_with_one_path() {
    let mut tx = Transaction::new(Identity::System);
    tx.insert_definition(child_definition("../a", "a")).unwrap();
    tx.insert_definition(child_definition("../b", "b")).unwrap();
    tx.insert_definition(child_definition("../a", "c")).unwrap();
    let mut model = BootstrapComponentsModel::new(&mut tx);
    assert_eq!(model.load_all_definitions(), Err(ModelError::DuplicateDefinitionPath));
    assert_eq!(ModelError::DuplicateDefinitionPath.kind(), ErrorKind::Internal);
}

#[test]
fn function_path_to_module_of_root_and_child() {
    let (mut tx, _, _, _, child_definition_id) = tree_with_child("app");
    let mut model = BootstrapComponentsModel::new(&mut tx);
    let udf_path = CanonicalizedUdfPath {
        module: "messages.js".to_string(),
        function_name: "send".to_string(),
    };
    let in_root = CanonicalizedComponentFunctionPath {
        component: ComponentPath::root(),
        udf_path: udf_path.clone(),
    };
    let module = model.function_path_to_module(in_root).unwrap();
    assert_eq!(module.component, ComponentDefinitionId::Root);
    assert_eq!(module.module, "messages.js");

    let in_child = CanonicalizedComponentFunctionPath {
        component: ComponentPath::from(vec!["app".to_string()]),
        udf_path: udf_path.clone(),
    };
    let module = model.function_path_to_module(in_child).unwrap();
    assert_eq!(module.component, ComponentDefinitionId::Child(child_definition_id));
    assert_eq!(module.module, "messages.js");

    let nowhere = CanonicalizedComponentFunctionPath {
        component: ComponentPath::from(vec!["gone".to_string()]),
        udf_path,
    };
    let error = model.function_path_to_module(nowhere).unwrap_err();
    assert_eq!(error, ModelError::ComponentNotFound);
    assert!(error.is_not_found());
}

#[test]
fn components_table_names_its_index() {
    let table = ComponentsTable;
    assert_eq!(table.table_name(), "_components");
    let indexes = table.indexes();
    assert_eq!(indexes.len(), 1);
    assert_eq!(indexes[0].name, "_components.by_parent_and_name");
    assert_eq!(indexes[0].fields, vec!["parent".to_string(), "name".to_string()]);
}

fn object(fields: Vec<(&str, ConvexValue)>) -> ConvexObject {
    ConvexObject {
        fields: fields
            .into_iter()
            .map(|(name, value)| Field { name: name.to_string(), value })
            .collect(),
    }
}

#[test]
fn component_documents_are_validated() {
    let root = object(vec![("definitionId", ConvexValue::Int64(7))]);
    assert_eq!(parse_component(&root), Ok(app(7)));
    let root_with_nulls = object(vec![
        ("parent", ConvexValue::Null),
        ("definitionId", ConvexValue::Int64(0)),
        ("name", ConvexValue::Null),
    ]);
    assert_eq!(parse_component(&root_with_nulls), Ok(app(0)));
    let below = object(vec![
        ("definitionId", ConvexValue::Int64(7)),
        ("parent", ConvexValue::Int64(3)),
        ("name", ConvexValue::String("app".to_string())),
        ("other", ConvexValue::Boolean(true)),
    ]);
    assert_eq!(parse_component(&below), Ok(child(7, 3, "app")));

    let bad = vec![
        object(Vec::new()),
        object(vec![("definitionId", ConvexValue::Int64(-1))]),
        object(vec![("definitionId", ConvexValue::String("7".to_string()))]),
        object(vec![("definitionId", ConvexValue::Null)]),
        object(vec![
            ("definitionId", ConvexValue::Int64(7)),
            ("name", ConvexValue::String("app".to_string())),
        ]),
        object(vec![("definitionId", ConvexValue::Int64(7)), ("parent", ConvexValue::Int64(3))]),
        object(vec![
            ("definitionId", ConvexValue::Int64(7)),
            ("parent", ConvexValue::Int64(-3)),
            ("name", ConvexValue::String("app".to_string())),
        ]),
        object(vec![
            ("definitionId", ConvexValue::Int64(7)),
            ("parent", ConvexValue::Int64(3)),
            ("name", ConvexValue::Int64(1)),
        ]),
        object(vec![
            ("definitionId", ConvexValue::Int64(7)),
            ("parent", ConvexValue::Boolean(true)),
            ("name", ConvexValue::String("app".to_string())),
        ]),
    ];
    let table = ComponentsTable;
    let document = |value: ConvexObject| ResolvedDocument {
        id: ResolvedDocumentId {
            tablet_id: 1,
            developer_id: DeveloperDocumentId { table: 1, internal_id: 1 },
        },
        creation_time: 0,
        value,
    };
    for value in bad {
        assert_eq!(parse_component(&value), Err(ModelError::InvalidComponentDocument));
        assert_eq!(
            table.validate_document(document(value)),
            Err(ModelError::InvalidComponentDocument)
        );
    }
    assert_eq!(table.validate_document(document(root)), Ok(()));
    assert_eq!(table.validate_document(document(below)), Ok(()));
    assert_eq!(ModelError::InvalidComponentDocument.kind(), ErrorKind::Internal);
}
