//! Documents in their two forms: as the store holds them, and as callers see
//! them.

use vstd::prelude::*;
use crate::types::{DeveloperDocumentId, ResolvedDocumentId};
use crate::value::{ConvexObject, FieldView, spec_capped, spec_object_size};

verus! {

/// A document as the store holds it.
#[derive(Debug, PartialEq, Eq)]
pub struct ResolvedDocument {
    pub id: ResolvedDocumentId,
    pub creation_time: u64,
    pub value: ConvexObject,
}

/// What a [`ResolvedDocument`] holds.
pub struct ResolvedDocumentView {
    pub id: ResolvedDocumentId,
    pub creation_time: u64,
    pub value: Seq<FieldView>,
}

impl View for ResolvedDocument {
    type V = ResolvedDocumentView;

    open spec fn view(&self) -> ResolvedDocumentView {
        ResolvedDocumentView { id: self.id, creation_time: self.creation_time, value: self.value@ }
    }
}

/// A document as callers see it, under its stable identifier.
#[derive(Debug, PartialEq, Eq)]
pub struct DeveloperDocument {
    pub id: DeveloperDocumentId,
    pub creation_time: u64,
    pub value: ConvexObject,
}

/// What a [`DeveloperDocument`] holds.
pub struct DeveloperDocumentView {
    pub id: DeveloperDocumentId,
    pub creation_time: u64,
    pub value: Seq<FieldView>,
}

impl View for DeveloperDocument {
    type V = DeveloperDocumentView;

    open spec fn view(&self) -> DeveloperDocumentView {
        DeveloperDocumentView { id: self.id, creation_time: self.creation_time, value: self.value@ }
    }
}

impl ResolvedDocumentView {
    /// The same document under its stable identifier.
    pub open spec fn to_developer(self) -> DeveloperDocumentView {
        DeveloperDocumentView {
            id: self.id.developer_id,
            creation_time: self.creation_time,
            value: self.value,
        }
    }

    /// The same document under another table number.
    pub open spec fn to_virtual(self, table: u32) -> DeveloperDocumentView {
        DeveloperDocumentView {
            id: DeveloperDocumentId { table, internal_id: self.id.developer_id.internal_id },
            creation_time: self.creation_time,
            value: self.value,
        }
    }
}

impl ResolvedDocument {
    /// The size of the document, capped: that of its value.
    pub fn size(&self) -> (size: usize)
        ensures
            size == spec_capped(spec_object_size(self@.value)),
    {
        self.value.size()
    }

    /// The same document under its stable identifier.
    pub fn to_developer(self) -> (document: DeveloperDocument)
        ensures
            document@ == self@.to_developer(),
    {
        DeveloperDocument {
            id: self.id.developer_id,
            creation_time: self.creation_time,
            value: self.value,
        }
    }

    /// The same document as a row of the virtual table with that number.
    pub fn to_virtual(self, table: u32) -> (document: DeveloperDocument)
        ensures
            document@ == self@.to_virtual(table),
    {
        DeveloperDocument {
            id: DeveloperDocumentId { table, internal_id: self.id.developer_id.internal_id },
            creation_time: self.creation_time,
            value: self.value,
        }
    }
}

impl Clone for ResolvedDocument {
    fn clone(&self) -> (copy: Self)
        ensures
            copy@ == self@,
    {
        ResolvedDocument {
            id: self.id,
            creation_time: self.creation_time,
            value: self.value.clone(),
        }
    }
}

impl DeveloperDocument {
    /// The size of the document, capped: that of its value.
    pub fn size(&self) -> (size: usize)
        ensures
            size == spec_capped(spec_object_size(self@.value)),
    {
        self.value.size()
    }
}

impl Clone for DeveloperDocument {
    fn clone(&self) -> (copy: Self)
        ensures
            copy@ == self@,
    {
        DeveloperDocument {
            id: self.id,
            creation_time: self.creation_time,
            value: self.value.clone(),
        }
    }
}

} // verus!
