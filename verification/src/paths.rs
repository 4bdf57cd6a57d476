//! Paths: of a component in the tree, of a function inside a component, and
//! of a module inside a component definition.

use vstd::prelude::*;
use vstd::string::StrSliceExecFns;
use crate::errors::ModelError;
use crate::metadata::clone_names;
use crate::search::{lemma_first_found, seq_view};
use crate::text::{find_char, is_char, join3, spec_find_char};
use crate::types::ComponentDefinitionId;

verus! {

/// The names from the root of the tree down to a component. The path of the
/// root is empty.
#[derive(Debug, PartialEq, Eq)]
pub struct ComponentPath {
    pub path: Vec<String>,
}

impl View for ComponentPath {
    type V = Seq<Seq<char>>;

    open spec fn view(&self) -> Seq<Seq<char>> {
        seq_view(self.path@)
    }
}

impl ComponentPath {
    /// The path of the root.
    pub fn root() -> (path: Self)
        ensures
            path@ == Seq::<Seq<char>>::empty(),
    {
        let path = ComponentPath { path: Vec::new() };
        assert(path@ =~= Seq::<Seq<char>>::empty());
        path
    }

    /// The path made of the given names.
    pub fn from(path: Vec<String>) -> (out: Self)
        ensures
            out@ == seq_view(path@),
    {
        ComponentPath { path }
    }

    pub fn is_root(&self) -> (root: bool)
        ensures
            root == (self@.len() == 0),
    {
        self.path.len() == 0
    }
}

impl Clone for ComponentPath {
    fn clone(&self) -> (copy: Self)
        ensures
            copy@ == self@,
    {
        ComponentPath { path: clone_names(&self.path) }
    }
}

/// A function inside a module.
#[derive(Debug, PartialEq, Eq)]
pub struct CanonicalizedUdfPath {
    pub module: String,
    pub function_name: String,
}

/// What a [`CanonicalizedUdfPath`] holds.
pub struct UdfPathView {
    pub module: Seq<char>,
    pub function_name: Seq<char>,
}

impl View for CanonicalizedUdfPath {
    type V = UdfPathView;

    open spec fn view(&self) -> UdfPathView {
        UdfPathView { module: self.module@, function_name: self.function_name@ }
    }
}

/// Whether a module path is that of a system module: it begins with an
/// underscore.
pub open spec fn spec_is_system_module(module: Seq<char>) -> bool {
    module.len() > 0 && module[0] == '_'
}

/// A function path as text: the module, a colon and the function.
pub open spec fn spec_udf_path_text(path: UdfPathView) -> Seq<char> {
    path.module + ":"@ + path.function_name
}

/// The function path that a text stands for: the module before the first
/// colon and the function after it, or the function `default` of the module
/// where the text has no colon. Neither part may be empty.
pub open spec fn spec_parse_udf_path(text: Seq<char>) -> Option<UdfPathView> {
    let path = match spec_find_char(text, ':') {
        Some(colon) => UdfPathView {
            module: text.take(colon),
            function_name: text.skip(colon + 1),
        },
        None => UdfPathView { module: text, function_name: "default"@ },
    };
    if path.module.len() == 0 || path.function_name.len() == 0 {
        None
    } else {
        Some(path)
    }
}

/// The text of a function path stands for the path, where the module has no
/// colon and neither part is empty.
pub proof fn law_udf_path_round_trip(path: UdfPathView)
    requires
        path.module.len() > 0,
        path.function_name.len() > 0,
        forall|i: int| 0 <= i < path.module.len() ==> #[trigger] path.module[i] != ':',
    ensures
        spec_parse_udf_path(spec_udf_path_text(path)) == Some(path),
{
    reveal_strlit(":");
    let text = spec_udf_path_text(path);
    let is_colon = is_char(':');
    let colon = path.module.len() as int;
    assert(text =~= path.module + seq![':'] + path.function_name);
    assert forall|j: int| 0 <= j < colon implies !is_colon(#[trigger] text[j]) by {
        assert(text[j] == path.module[j]);
    }
    assert(is_colon(text[colon]));
    lemma_first_found(text, is_colon, colon);
    assert(text.take(colon) =~= path.module);
    assert(text.skip(colon + 1) =~= path.function_name);
}

impl CanonicalizedUdfPath {
    /// The function path that a text stands for, or an error for a text that
    /// stands for none.
    pub fn parse(text: &str) -> (result: Result<Self, ModelError>)
        ensures
            match spec_parse_udf_path(text@) {
                Some(path) => result matches Ok(out) && out@ == path,
                None => result matches Err(e) && e == ModelError::InvalidUdfPath,
            },
    {
        let len = text.unicode_len();
        let path = match find_char(text, ':') {
            Some(colon) => {
                let module = text.substring_char(0, colon);
                let function_name = text.substring_char(colon + 1, len);
                proof {
                    assert(module@ =~= text@.take(colon as int));
                    assert(function_name@ =~= text@.skip(colon + 1));
                }
                CanonicalizedUdfPath {
                    module: module.to_owned(),
                    function_name: function_name.to_owned(),
                }
            },
            None => CanonicalizedUdfPath {
                module: text.to_owned(),
                function_name: "default".to_owned(),
            },
        };
        if path.module.as_str().unicode_len() == 0 || path.function_name.as_str().unicode_len()
            == 0 {
            Err(ModelError::InvalidUdfPath)
        } else {
            Ok(path)
        }
    }

    /// The path as text.
    pub fn to_text(&self) -> (text: String)
        ensures
            text@ == spec_udf_path_text(self@),
    {
        join3(self.module.as_str(), ":", self.function_name.as_str())
    }

    pub fn module(&self) -> (module: &String)
        ensures
            module@ == self@.module,
    {
        &self.module
    }

    pub fn function_name(&self) -> (name: &String)
        ensures
            name@ == self@.function_name,
    {
        &self.function_name
    }

    /// Whether the function lies in a system module.
    pub fn is_system(&self) -> (system: bool)
        ensures
            system == spec_is_system_module(self@.module),
    {
        crate::transaction::is_system_name(&self.module)
    }
}

impl Clone for CanonicalizedUdfPath {
    fn clone(&self) -> (copy: Self)
        ensures
            copy@ == self@,
    {
        CanonicalizedUdfPath {
            module: self.module.clone(),
            function_name: self.function_name.clone(),
        }
    }
}

/// A function inside a component.
#[derive(Debug, PartialEq, Eq)]
pub struct CanonicalizedComponentFunctionPath {
    pub component: ComponentPath,
    pub udf_path: CanonicalizedUdfPath,
}

/// What a [`CanonicalizedComponentFunctionPath`] holds.
pub struct ComponentFunctionPathView {
    pub component: Seq<Seq<char>>,
    pub udf_path: UdfPathView,
}

impl View for CanonicalizedComponentFunctionPath {
    type V = ComponentFunctionPathView;

    open spec fn view(&self) -> ComponentFunctionPathView {
        ComponentFunctionPathView { component: self.component@, udf_path: self.udf_path@ }
    }
}

impl Clone for CanonicalizedComponentFunctionPath {
    fn clone(&self) -> (copy: Self)
        ensures
            copy@ == self@,
    {
        CanonicalizedComponentFunctionPath {
            component: self.component.clone(),
            udf_path: self.udf_path.clone(),
        }
    }
}

/// A module inside a component definition: what the metadata of analysed
/// functions is filed under.
#[derive(Debug, PartialEq, Eq)]
pub struct CanonicalizedComponentModulePath {
    pub component: ComponentDefinitionId,
    pub module: String,
}

/// What a [`CanonicalizedComponentModulePath`] holds.
pub struct ComponentModulePathView {
    pub component: ComponentDefinitionId,
    pub module: Seq<char>,
}

impl View for CanonicalizedComponentModulePath {
    type V = ComponentModulePathView;

    open spec fn view(&self) -> ComponentModulePathView {
        ComponentModulePathView { component: self.component, module: self.module@ }
    }
}

} // verus!
