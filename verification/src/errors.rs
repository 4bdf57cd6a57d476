//! The errors of the document model, and the kind that each belongs to.

use vstd::prelude::*;

verus! {

/// What a caller can do about an error.
#[derive(Clone, Copy, Debug, PartialEq, Eq, Structural, Hash)]
pub enum ErrorKind {
    /// The request itself is wrong; the same request will fail again.
    BadRequest,
    /// The identity may not do this.
    Unauthorized,
    /// What the request names does not exist.
    NotFound,
    /// The store cannot take the request now; it may be tried again.
    Overloaded,
    /// The stored data contradicts itself.
    Internal,
}

/// An error of the document model.
#[derive(Clone, Copy, Debug, PartialEq, Eq, Structural, Hash)]
pub enum ModelError {
    /// A write to a virtual table.
    ReadOnlyTable,
    /// A table name that is kept for the system.
    InvalidTableName,
    /// A document over the size ceiling for user documents.
    DocumentTooLarge,
    /// A change to a system table by an identity that may not make it.
    Unauthorized,
    /// No table has the number that an identifier names.
    TableNotFound,
    /// No document has the identifier.
    DocumentNotFound,
    /// Old data is not collected fast enough to admit a write.
    RetentionFallingBehind,
    /// No number is left for a new identifier, table or creation time.
    CounterExhausted,
    /// A document arrived at the store under an identifier that is not new.
    DocumentIdNotFresh,
    /// A component record that another record or a caller points to is gone.
    ComponentMissing,
    /// There is no root component.
    RootComponentMissing,
    /// No component lies at the path.
    ComponentNotFound,
    /// A component definition that a record points to is gone.
    ComponentDefinitionMissing,
    /// Two component definitions have the same path.
    DuplicateDefinitionPath,
    /// A second component under the same parent and name, or a second root.
    DuplicateComponent,
    /// A virtual table whose backing table does not exist.
    BackingTableMissing,
    /// No virtual table has the name that a virtual index names.
    VirtualTableNotFound,
    /// A batch came back without the key that was asked for.
    BatchKeyMissing,
    /// A function scheduled more than five years away from now.
    InvalidScheduledFunctionDelay,
    /// A scheduled function that does not exist.
    InvalidScheduledFunction,
    /// The backend is paused or disabled.
    BackendIsNotRunning,
    /// A system module in a component that is not the root.
    SystemModuleOutsideRoot,
    /// A function path that has to lie in the root component and does not.
    NotInRootComponent,
    /// An analysed function without a visibility.
    VisibilityMissing,
    /// A path that is taken for an HTTP route and is none.
    UnexpectedHttpPath,
    /// A stored call without its arguments.
    MissingArgs,
    /// A stored call without the path of its function.
    MissingUdfPath,
    /// Stored arguments that are no JSON array of values.
    InvalidArgsJson,
    /// A text that is no path of a function.
    InvalidUdfPath,
    /// A text that is no version.
    InvalidVersion,
    /// A document in the table of components that is no component record.
    InvalidComponentDocument,
    /// A file without content.
    EmptyFile,
    /// No file has the identifier.
    FileNotFound,
}

impl ModelError {
    /// The kind of the error.
    pub open spec fn spec_kind(&self) -> ErrorKind {
        match *self {
            ModelError::ReadOnlyTable => ErrorKind::BadRequest,
            ModelError::InvalidTableName => ErrorKind::BadRequest,
            ModelError::DocumentTooLarge => ErrorKind::BadRequest,
            ModelError::Unauthorized => ErrorKind::Unauthorized,
            ModelError::TableNotFound => ErrorKind::NotFound,
            ModelError::DocumentNotFound => ErrorKind::NotFound,
            ModelError::RetentionFallingBehind => ErrorKind::Overloaded,
            ModelError::CounterExhausted => ErrorKind::Internal,
            ModelError::DocumentIdNotFresh => ErrorKind::Internal,
            ModelError::ComponentMissing => ErrorKind::Internal,
            ModelError::RootComponentMissing => ErrorKind::Internal,
            ModelError::ComponentNotFound => ErrorKind::NotFound,
            ModelError::ComponentDefinitionMissing => ErrorKind::Internal,
            ModelError::DuplicateDefinitionPath => ErrorKind::Internal,
            ModelError::DuplicateComponent => ErrorKind::BadRequest,
            ModelError::BackingTableMissing => ErrorKind::Internal,
            ModelError::VirtualTableNotFound => ErrorKind::Internal,
            ModelError::BatchKeyMissing => ErrorKind::Internal,
            ModelError::InvalidScheduledFunctionDelay => ErrorKind::BadRequest,
            ModelError::InvalidScheduledFunction => ErrorKind::BadRequest,
            ModelError::BackendIsNotRunning => ErrorKind::BadRequest,
            ModelError::SystemModuleOutsideRoot => ErrorKind::Internal,
            ModelError::NotInRootComponent => ErrorKind::Internal,
            ModelError::VisibilityMissing => ErrorKind::Internal,
            ModelError::UnexpectedHttpPath => ErrorKind::Internal,
            ModelError::MissingArgs => ErrorKind::Internal,
            ModelError::MissingUdfPath => ErrorKind::Internal,
            ModelError::InvalidArgsJson => ErrorKind::Internal,
            ModelError::InvalidUdfPath => ErrorKind::Internal,
            ModelError::InvalidVersion => ErrorKind::Internal,
            ModelError::InvalidComponentDocument => ErrorKind::Internal,
            ModelError::EmptyFile => ErrorKind::BadRequest,
            ModelError::FileNotFound => ErrorKind::NotFound,
        }
    }

    #[verifier::when_used_as_spec(spec_kind)]
    pub fn kind(&self) -> (kind: ErrorKind)
        ensures
            kind == self.spec_kind(),
    {
        match self {
            ModelError::ReadOnlyTable => ErrorKind::BadRequest,
            ModelError::InvalidTableName => ErrorKind::BadRequest,
            ModelError::DocumentTooLarge => ErrorKind::BadRequest,
            ModelError::Unauthorized => ErrorKind::Unauthorized,
            ModelError::TableNotFound => ErrorKind::NotFound,
            ModelError::DocumentNotFound => ErrorKind::NotFound,
            ModelError::RetentionFallingBehind => ErrorKind::Overloaded,
            ModelError::CounterExhausted => ErrorKind::Internal,
            ModelError::DocumentIdNotFresh => ErrorKind::Internal,
            ModelError::ComponentMissing => ErrorKind::Internal,
            ModelError::RootComponentMissing => ErrorKind::Internal,
            ModelError::ComponentNotFound => ErrorKind::NotFound,
            ModelError::ComponentDefinitionMissing => ErrorKind::Internal,
            ModelError::DuplicateDefinitionPath => ErrorKind::Internal,
            ModelError::DuplicateComponent => ErrorKind::BadRequest,
            ModelError::BackingTableMissing => ErrorKind::Internal,
            ModelError::VirtualTableNotFound => ErrorKind::Internal,
            ModelError::BatchKeyMissing => ErrorKind::Internal,
            ModelError::InvalidScheduledFunctionDelay => ErrorKind::BadRequest,
            ModelError::InvalidScheduledFunction => ErrorKind::BadRequest,
            ModelError::BackendIsNotRunning => ErrorKind::BadRequest,
            ModelError::SystemModuleOutsideRoot => ErrorKind::Internal,
            ModelError::NotInRootComponent => ErrorKind::Internal,
            ModelError::VisibilityMissing => ErrorKind::Internal,
            ModelError::UnexpectedHttpPath => ErrorKind::Internal,
            ModelError::MissingArgs => ErrorKind::Internal,
            ModelError::MissingUdfPath => ErrorKind::Internal,
            ModelError::InvalidArgsJson => ErrorKind::Internal,
            ModelError::InvalidUdfPath => ErrorKind::Internal,
            ModelError::InvalidVersion => ErrorKind::Internal,
            ModelError::InvalidComponentDocument => ErrorKind::Internal,
            ModelError::EmptyFile => ErrorKind::BadRequest,
            ModelError::FileNotFound => ErrorKind::NotFound,
        }
    }

    pub fn is_bad_request(&self) -> (is: bool)
        ensures
            is == (self.spec_kind() == ErrorKind::BadRequest),
    {
        self.kind() == ErrorKind::BadRequest
    }

    pub fn is_unauthorized(&self) -> (is: bool)
        ensures
            is == (self.spec_kind() == ErrorKind::Unauthorized),
    {
        self.kind() == ErrorKind::Unauthorized
    }

    pub fn is_not_found(&self) -> (is: bool)
        ensures
            is == (self.spec_kind() == ErrorKind::NotFound),
    {
        self.kind() == ErrorKind::NotFound
    }

    pub fn is_overloaded(&self) -> (is: bool)
        ensures
            is == (self.spec_kind() == ErrorKind::Overloaded),
    {
        self.kind() == ErrorKind::Overloaded
    }

    /// The short name under which the error is reported.
    pub open spec fn spec_short_msg(&self) -> Seq<char> {
        match *self {
            ModelError::ReadOnlyTable => "ReadOnlyTable"@,
            ModelError::InvalidTableName => "InvalidTableName"@,
            ModelError::DocumentTooLarge => "DocumentTooLarge"@,
            ModelError::Unauthorized => "Unauthorized"@,
            ModelError::TableNotFound => "TableNotFound"@,
            ModelError::DocumentNotFound => "DocumentNotFound"@,
            ModelError::RetentionFallingBehind => "TooManyWritesInTimePeriod"@,
            ModelError::CounterExhausted => "CounterExhausted"@,
            ModelError::DocumentIdNotFresh => "DocumentIdNotFresh"@,
            ModelError::ComponentMissing => "ComponentMissing"@,
            ModelError::RootComponentMissing => "RootComponentMissing"@,
            ModelError::ComponentNotFound => "ComponentNotFound"@,
            ModelError::ComponentDefinitionMissing => "ComponentDefinitionMissing"@,
            ModelError::DuplicateDefinitionPath => "DuplicateDefinitionPath"@,
            ModelError::DuplicateComponent => "DuplicateComponent"@,
            ModelError::BackingTableMissing => "BackingTableMissing"@,
            ModelError::VirtualTableNotFound => "VirtualTableNotFound"@,
            ModelError::BatchKeyMissing => "BatchKeyMissing"@,
            ModelError::InvalidScheduledFunctionDelay => "InvalidScheduledFunctionDelay"@,
            ModelError::InvalidScheduledFunction => "InvalidScheduledFunction"@,
            ModelError::BackendIsNotRunning => "BackendIsNotRunning"@,
            ModelError::SystemModuleOutsideRoot => "SystemModuleOutsideRoot"@,
            ModelError::NotInRootComponent => "NotInRootComponent"@,
            ModelError::VisibilityMissing => "VisibilityMissing"@,
            ModelError::UnexpectedHttpPath => "UnexpectedHttpPath"@,
            ModelError::MissingArgs => "MissingArgs"@,
            ModelError::MissingUdfPath => "MissingUdfPath"@,
            ModelError::InvalidArgsJson => "InvalidArgsJson"@,
            ModelError::InvalidUdfPath => "InvalidUdfPath"@,
            ModelError::InvalidVersion => "InvalidVersion"@,
            ModelError::InvalidComponentDocument => "InvalidComponentDocument"@,
            ModelError::EmptyFile => "EmptyFile"@,
            ModelError::FileNotFound => "FileNotFound"@,
        }
    }

    pub fn short_msg(&self) -> (msg: String)
        ensures
            msg@ == self.spec_short_msg(),
    {
        let text: &str = match self {
            ModelError::ReadOnlyTable => "ReadOnlyTable",
            ModelError::InvalidTableName => "InvalidTableName",
            ModelError::DocumentTooLarge => "DocumentTooLarge",
            ModelError::Unauthorized => "Unauthorized",
            ModelError::TableNotFound => "TableNotFound",
            ModelError::DocumentNotFound => "DocumentNotFound",
            ModelError::RetentionFallingBehind => "TooManyWritesInTimePeriod",
            ModelError::CounterExhausted => "CounterExhausted",
            ModelError::DocumentIdNotFresh => "DocumentIdNotFresh",
            ModelError::ComponentMissing => "ComponentMissing",
            ModelError::RootComponentMissing => "RootComponentMissing",
            ModelError::ComponentNotFound => "ComponentNotFound",
            ModelError::ComponentDefinitionMissing => "ComponentDefinitionMissing",
            ModelError::DuplicateDefinitionPath => "DuplicateDefinitionPath",
            ModelError::DuplicateComponent => "DuplicateComponent",
            ModelError::BackingTableMissing => "BackingTableMissing",
            ModelError::VirtualTableNotFound => "VirtualTableNotFound",
            ModelError::BatchKeyMissing => "BatchKeyMissing",
            ModelError::InvalidScheduledFunctionDelay => "InvalidScheduledFunctionDelay",
            ModelError::InvalidScheduledFunction => "InvalidScheduledFunction",
            ModelError::BackendIsNotRunning => "BackendIsNotRunning",
            ModelError::SystemModuleOutsideRoot => "SystemModuleOutsideRoot",
            ModelError::NotInRootComponent => "NotInRootComponent",
            ModelError::VisibilityMissing => "VisibilityMissing",
            ModelError::UnexpectedHttpPath => "UnexpectedHttpPath",
            ModelError::MissingArgs => "MissingArgs",
            ModelError::MissingUdfPath => "MissingUdfPath",
            ModelError::InvalidArgsJson => "InvalidArgsJson",
            ModelError::InvalidUdfPath => "InvalidUdfPath",
            ModelError::InvalidVersion => "InvalidVersion",
            ModelError::InvalidComponentDocument => "InvalidComponentDocument",
            ModelError::EmptyFile => "EmptyFile",
            ModelError::FileNotFound => "FileNotFound",
        };
        text.to_owned()
    }
}

} // verus!
