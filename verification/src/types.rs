//! Identifiers and the small plain types that the document model passes
//! around.

use vstd::prelude::*;

verus! {

/// The identifier of a record inside its table.
pub type InternalId = u64;

/// The number under which callers know a table; it outlives a renumbering of
/// the storage below.
pub type TableNumber = u32;

/// The identifier of the storage that backs a table.
pub type TabletId = u64;

/// The key under which a caller files one request of a batch.
pub type BatchKey = usize;

/// The key by which an index orders its rows.
pub type IndexKey = u64;

/// The stable identifier of a document: the form that callers see.
#[derive(Clone, Copy, Debug, PartialEq, Eq, Structural, PartialOrd, Ord, Hash)]
pub struct DeveloperDocumentId {
    pub table: TableNumber,
    pub internal_id: InternalId,
}

/// The identifier of a document inside the store: the stable identifier
/// together with the storage that holds the document.
#[derive(Clone, Copy, Debug, PartialEq, Eq, Structural, PartialOrd, Ord, Hash)]
pub struct ResolvedDocumentId {
    pub tablet_id: TabletId,
    pub developer_id: DeveloperDocumentId,
}

impl ResolvedDocumentId {
    /// The stable identifier of the same document.
    pub fn to_developer(&self) -> (id: DeveloperDocumentId)
        ensures
            id == self.developer_id,
    {
        self.developer_id
    }

    /// The identifier of the record inside its table.
    pub fn internal_id(&self) -> (id: InternalId)
        ensures
            id == self.developer_id.internal_id,
    {
        self.developer_id.internal_id
    }
}

/// A component: the root, or the child with that identifier.
#[derive(Clone, Copy, Debug, PartialEq, Eq, Structural, PartialOrd, Ord, Hash)]
pub enum ComponentId {
    Root,
    Child(InternalId),
}

impl ComponentId {
    pub fn is_root(&self) -> (root: bool)
        ensures
            root == (*self == ComponentId::Root),
    {
        match self {
            ComponentId::Root => true,
            ComponentId::Child(_) => false,
        }
    }
}

/// A component definition: that of the root, or the one with that identifier.
#[derive(Clone, Copy, Debug, PartialEq, Eq, Structural, PartialOrd, Ord, Hash)]
pub enum ComponentDefinitionId {
    Root,
    Child(InternalId),
}

impl ComponentDefinitionId {
    pub fn is_root(&self) -> (root: bool)
        ensures
            root == (*self == ComponentDefinitionId::Root),
    {
        match self {
            ComponentDefinitionId::Root => true,
            ComponentDefinitionId::Child(_) => false,
        }
    }
}

/// Who a transaction acts for.
#[derive(Clone, Copy, Debug, PartialEq, Eq, Structural, Hash)]
pub enum Identity {
    InstanceAdmin,
    System,
    ActingUser,
    User,
    Unknown,
}

impl Identity {
    /// Whether the identity is an administrator, acting as itself or as a user.
    pub open spec fn spec_is_admin(&self) -> bool {
        *self == Identity::InstanceAdmin || *self == Identity::ActingUser
    }

    /// Whether the identity is the system itself.
    pub open spec fn spec_is_system(&self) -> bool {
        *self == Identity::System
    }

    /// Whether the identity may change the documents of system tables.
    pub open spec fn spec_is_privileged(&self) -> bool {
        self.spec_is_admin() || self.spec_is_system()
    }

    #[verifier::when_used_as_spec(spec_is_admin)]
    pub fn is_admin(&self) -> (admin: bool)
        ensures
            admin == self.spec_is_admin(),
    {
        match self {
            Identity::InstanceAdmin => true,
            Identity::ActingUser => true,
            _ => false,
        }
    }

    #[verifier::when_used_as_spec(spec_is_system)]
    pub fn is_system(&self) -> (system: bool)
        ensures
            system == self.spec_is_system(),
    {
        match self {
            Identity::System => true,
            _ => false,
        }
    }
}

/// The version of the client library that a caller declares.
#[derive(Clone, Copy, Debug, PartialEq, Eq, Structural, PartialOrd, Ord, Hash)]
pub struct Version {
    pub major: u64,
    pub minor: u64,
    pub patch: u64,
}

impl Version {
    /// Whether `self` is a later version than `other`.
    pub open spec fn spec_newer_than(&self, other: &Version) -> bool {
        ||| self.major > other.major
        ||| (self.major == other.major && self.minor > other.minor)
        ||| (self.major == other.major && self.minor == other.minor && self.patch > other.patch)
    }

    #[verifier::when_used_as_spec(spec_newer_than)]
    pub fn newer_than(&self, other: &Version) -> (newer: bool)
        ensures
            newer == self.spec_newer_than(other),
    {
        if self.major != other.major {
            self.major > other.major
        } else if self.minor != other.minor {
            self.minor > other.minor
        } else {
            self.patch > other.patch
        }
    }
}

/// When a document was last written: at a commit, or in the transaction that
/// reads it.
#[derive(Clone, Copy, Debug, PartialEq, Eq, Structural, Hash)]
pub enum WriteTimestamp {
    Committed(u64),
    Pending,
}

/// The direction of a scan.
#[derive(Clone, Copy, Debug, PartialEq, Eq, Structural, Hash)]
pub enum Order {
    Asc,
    Desc,
}

/// The upper end of an interval of index keys.
#[derive(Clone, Copy, Debug, PartialEq, Eq, Structural, Hash)]
pub enum IntervalEnd {
    Excluded(IndexKey),
    Unbounded,
}

/// An interval of index keys: from `start`, included, up to `end`.
#[derive(Clone, Copy, Debug, PartialEq, Eq, Structural, Hash)]
pub struct Interval {
    pub start: IndexKey,
    pub end: IntervalEnd,
}

impl Interval {
    /// Whether the key lies in the interval.
    pub open spec fn spec_contains(&self, key: IndexKey) -> bool {
        &&& self.start <= key
        &&& match self.end {
            IntervalEnd::Excluded(end) => key < end,
            IntervalEnd::Unbounded => true,
        }
    }

    /// Whether no key lies in the interval.
    pub open spec fn spec_is_empty(&self) -> bool {
        match self.end {
            IntervalEnd::Excluded(end) => end <= self.start,
            IntervalEnd::Unbounded => false,
        }
    }

    /// The interval of all keys.
    pub open spec fn spec_all() -> Interval {
        Interval { start: 0, end: IntervalEnd::Unbounded }
    }

    /// The interval of all keys.
    #[verifier::when_used_as_spec(spec_all)]
    pub fn all() -> (interval: Interval)
        ensures
            interval == Interval::spec_all(),
    {
        Interval { start: 0, end: IntervalEnd::Unbounded }
    }

    #[verifier::when_used_as_spec(spec_contains)]
    pub fn contains(&self, key: IndexKey) -> (inside: bool)
        ensures
            inside == self.spec_contains(key),
    {
        if key < self.start {
            false
        } else {
            match self.end {
                IntervalEnd::Excluded(end) => key < end,
                IntervalEnd::Unbounded => true,
            }
        }
    }

    #[verifier::when_used_as_spec(spec_is_empty)]
    pub fn is_empty(&self) -> (empty: bool)
        ensures
            empty == self.spec_is_empty(),
    {
        match self.end {
            IntervalEnd::Excluded(end) => end <= self.start,
            IntervalEnd::Unbounded => false,
        }
    }
}

/// An interval is empty exactly when it contains no key.
pub proof fn law_empty_interval_holds_no_key(interval: Interval)
    ensures
        interval.spec_is_empty() <==> forall|key: IndexKey| !interval.spec_contains(key),
{
    if !interval.spec_is_empty() {
        assert(interval.spec_contains(interval.start));
    }
}

/// How far a scan has come: past the row of that key, or to the end of the
/// interval.
#[derive(Clone, Copy, Debug, PartialEq, Eq, Structural, Hash)]
pub enum CursorPosition {
    After(IndexKey),
    End,
}

/// The index of one table in the store, named by the storage of the table.
#[derive(Clone, Copy, Debug, PartialEq, Eq, Structural, Hash)]
pub struct TabletIndexName {
    pub tablet_id: TabletId,
}

/// An index as callers name it: by the name of its table.
#[derive(Debug, PartialEq, Eq)]
pub struct IndexName {
    pub table: String,
}

/// An index name after resolution: an index of the store, an index of a
/// virtual table together with the index of the store that backs it, or an
/// index that does not exist.
#[derive(Debug, PartialEq, Eq)]
pub enum StableIndexName {
    Physical(TabletIndexName),
    Virtual(IndexName, TabletIndexName),
    Missing,
}

/// What a [`StableIndexName`] holds.
pub enum StableIndexNameView {
    Physical(TabletIndexName),
    Virtual(Seq<char>, TabletIndexName),
    Missing,
}

impl View for StableIndexName {
    type V = StableIndexNameView;

    open spec fn view(&self) -> StableIndexNameView {
        match *self {
            StableIndexName::Physical(index) => StableIndexNameView::Physical(index),
            StableIndexName::Virtual(name, index) => StableIndexNameView::Virtual(
                name.table@,
                index,
            ),
            StableIndexName::Missing => StableIndexNameView::Missing,
        }
    }
}

} // verus!
