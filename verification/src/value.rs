//! Document values: scalar values, named fields and objects, each with the
//! mathematical model that the contracts of this crate speak of.

use vstd::prelude::*;
use vstd::string::StrSliceExecFns;

verus! {

/// A scalar value that a field of a document can hold.
#[derive(Debug, PartialEq, Eq)]
pub enum ConvexValue {
    Null,
    Int64(i64),
    Boolean(bool),
    String(String),
    Bytes(Vec<u8>),
}

/// What a [`ConvexValue`] holds.
pub enum ValueView {
    Null,
    Int64(i64),
    Boolean(bool),
    String(Seq<char>),
    Bytes(Seq<u8>),
}

impl View for ConvexValue {
    type V = ValueView;

    open spec fn view(&self) -> ValueView {
        match *self {
            ConvexValue::Null => ValueView::Null,
            ConvexValue::Int64(n) => ValueView::Int64(n),
            ConvexValue::Boolean(b) => ValueView::Boolean(b),
            ConvexValue::String(s) => ValueView::String(s@),
            ConvexValue::Bytes(b) => ValueView::Bytes(b@),
        }
    }
}

/// A named value inside an object.
#[derive(Debug, PartialEq, Eq)]
pub struct Field {
    pub name: String,
    pub value: ConvexValue,
}

/// What a [`Field`] holds.
pub struct FieldView {
    pub name: Seq<char>,
    pub value: ValueView,
}

impl View for Field {
    type V = FieldView;

    open spec fn view(&self) -> FieldView {
        FieldView { name: self.name@, value: self.value@ }
    }
}

/// The models of a sequence of fields, one for one.
pub open spec fn fields_view(fields: Seq<Field>) -> Seq<FieldView> {
    Seq::new(fields.len(), |i: int| fields[i]@)
}

/// An object: a list of named values. A name is looked up from the front, so
/// the first field of a name is the one that counts.
#[derive(Debug, PartialEq, Eq)]
pub struct ConvexObject {
    pub fields: Vec<Field>,
}

impl View for ConvexObject {
    type V = Seq<FieldView>;

    open spec fn view(&self) -> Seq<FieldView> {
        fields_view(self.fields@)
    }
}

/// The fields with which an existing document is merged.
#[derive(Debug, PartialEq, Eq)]
pub struct PatchValue {
    pub fields: Vec<Field>,
}

impl View for PatchValue {
    type V = Seq<FieldView>;

    open spec fn view(&self) -> Seq<FieldView> {
        fields_view(self.fields@)
    }
}

/// The size that a value counts for: one byte for its tag, then its payload.
pub open spec fn spec_value_size(value: ValueView) -> nat {
    match value {
        ValueView::Null => 1,
        ValueView::Int64(_) => 9,
        ValueView::Boolean(_) => 2,
        ValueView::String(s) => 2 + s.len(),
        ValueView::Bytes(b) => 2 + b.len(),
    }
}

/// The size that a field counts for: its name, a separator and its value.
pub open spec fn spec_field_size(field: FieldView) -> nat {
    field.name.len() + 1 + spec_value_size(field.value)
}

/// The sizes of all the fields together.
pub open spec fn spec_fields_size(fields: Seq<FieldView>) -> nat
    decreases fields.len(),
{
    if fields.len() == 0 {
        0
    } else {
        spec_fields_size(fields.drop_last()) + spec_field_size(fields.last())
    }
}

/// The size that an object counts for: two bytes of framing and its fields.
pub open spec fn spec_object_size(fields: Seq<FieldView>) -> nat {
    2 + spec_fields_size(fields)
}

/// A size as a machine integer: the size itself, or the largest `usize` where
/// the size does not fit.
pub open spec fn spec_capped(size: nat) -> usize {
    if size <= usize::MAX {
        size as usize
    } else {
        usize::MAX
    }
}

/// Whether `index` is the first field of that name.
pub open spec fn is_first_field(fields: Seq<FieldView>, name: Seq<char>, index: int) -> bool {
    &&& 0 <= index < fields.len()
    &&& fields[index].name == name
    &&& forall|j: int| 0 <= j < index ==> (#[trigger] fields[j]).name != name
}

/// Whether some field has that name.
pub open spec fn spec_has_field(fields: Seq<FieldView>, name: Seq<char>) -> bool {
    exists|i: int| is_first_field(fields, name, i)
}

/// The place of the first field of that name.
pub open spec fn spec_field_index(fields: Seq<FieldView>, name: Seq<char>) -> int {
    choose|i: int| is_first_field(fields, name, i)
}

/// The value found under a name, if any.
pub open spec fn spec_get_field(fields: Seq<FieldView>, name: Seq<char>) -> Option<ValueView> {
    if spec_has_field(fields, name) {
        Some(fields[spec_field_index(fields, name)].value)
    } else {
        None
    }
}

/// The fields after one field was set: the first field of that name is
/// overwritten in place, and a new name goes to the end.
pub open spec fn spec_set_field(fields: Seq<FieldView>, field: FieldView) -> Seq<FieldView> {
    if spec_has_field(fields, field.name) {
        fields.update(spec_field_index(fields, field.name), field)
    } else {
        fields.push(field)
    }
}

/// The fields after a patch was merged in: each field of the patch is set, in
/// the order of the patch.
pub open spec fn spec_merge(fields: Seq<FieldView>, patch: Seq<FieldView>) -> Seq<FieldView>
    decreases patch.len(),
{
    if patch.len() == 0 {
        fields
    } else {
        spec_set_field(spec_merge(fields, patch.drop_last()), patch.last())
    }
}

/// Two indices that are both the first of a name are the same index.
pub proof fn lemma_first_field_unique(fields: Seq<FieldView>, name: Seq<char>, i: int, j: int)
    requires
        is_first_field(fields, name, i),
        is_first_field(fields, name, j),
    ensures
        i == j,
{
    if i < j {
        assert(fields[i].name != name);
    } else if j < i {
        assert(fields[j].name != name);
    }
}

/// The sum of two sizes, capped at the largest `usize`.
pub fn capped_sum(a: usize, b: usize) -> (sum: usize)
    ensures
        sum == spec_capped((a + b) as nat),
{
    if a > usize::MAX - b {
        usize::MAX
    } else {
        a + b
    }
}

/// Capping the parts of a sum before the sum is capped changes nothing.
pub proof fn lemma_capped_sum(a: nat, b: nat)
    ensures
        spec_capped((spec_capped(a) + spec_capped(b)) as nat) == spec_capped(a + b),
{
}

impl ConvexValue {
    /// The size of the value, capped.
    pub fn size(&self) -> (size: usize)
        ensures
            size == spec_capped(spec_value_size(self@)),
    {
        match self {
            ConvexValue::Null => 1,
            ConvexValue::Int64(_) => 9,
            ConvexValue::Boolean(_) => 2,
            ConvexValue::String(s) => capped_sum(2, s.as_str().unicode_len()),
            ConvexValue::Bytes(b) => capped_sum(2, b.len()),
        }
    }
}

impl Clone for ConvexValue {
    fn clone(&self) -> (copy: Self)
        ensures
            copy@ == self@,
    {
        match self {
            ConvexValue::Null => ConvexValue::Null,
            ConvexValue::Int64(n) => ConvexValue::Int64(*n),
            ConvexValue::Boolean(b) => ConvexValue::Boolean(*b),
            ConvexValue::String(s) => ConvexValue::String(s.clone()),
            ConvexValue::Bytes(b) => {
                let copy = b.clone();
                assert(copy@ =~= b@);
                ConvexValue::Bytes(copy)
            },
        }
    }
}

impl Field {
    /// The size of the field, capped.
    pub fn size(&self) -> (size: usize)
        ensures
            size == spec_capped(spec_field_size(self@)),
    {
        let name_size = capped_sum(self.name.as_str().unicode_len(), 1);
        let value_size = self.value.size();
        proof {
            lemma_capped_sum(self.name@.len() + 1, spec_value_size(self.value@));
        }
        capped_sum(name_size, value_size)
    }
}

impl Clone for Field {
    fn clone(&self) -> (copy: Self)
        ensures
            copy@ == self@,
    {
        Field { name: self.name.clone(), value: self.value.clone() }
    }
}

/// A copy of a list of fields.
pub fn clone_fields(fields: &Vec<Field>) -> (copy: Vec<Field>)
    ensures
        fields_view(copy@) == fields_view(fields@),
{
    let mut copy: Vec<Field> = Vec::new();
    let mut i: usize = 0;
    while i < fields.len()
        invariant
            i <= fields.len(),
            copy.len() == i,
            forall|j: int| 0 <= j < i ==> (#[trigger] copy[j])@ == fields[j]@,
        decreases fields.len() - i,
    {
        copy.push(fields[i].clone());
        i = i + 1;
    }
    assert(fields_view(copy@) =~= fields_view(fields@));
    copy
}

/// The size of a list of fields, capped.
pub fn fields_size(fields: &Vec<Field>) -> (size: usize)
    ensures
        size == spec_capped(spec_fields_size(fields_view(fields@))),
{
    let ghost model = fields_view(fields@);
    let mut size: usize = 0;
    let mut i: usize = 0;
    while i < fields.len()
        invariant
            i <= fields.len(),
            model == fields_view(fields@),
            size == spec_capped(spec_fields_size(model.take(i as int))),
        decreases fields.len() - i,
    {
        let field_size = fields[i].size();
        proof {
            let next = model.take(i + 1);
            assert(next.drop_last() =~= model.take(i as int));
            assert(next.last() == fields[i as int]@);
            lemma_capped_sum(
                spec_fields_size(model.take(i as int)),
                spec_field_size(fields[i as int]@),
            );
        }
        size = capped_sum(size, field_size);
        i = i + 1;
    }
    assert(model.take(fields.len() as int) =~= model);
    size
}

/// The place of the first field of that name in a list of fields.
pub fn find_field(fields: &Vec<Field>, name: &String) -> (found: Option<usize>)
    ensures
        match found {
            Some(i) => is_first_field(fields_view(fields@), name@, i as int),
            None => !spec_has_field(fields_view(fields@), name@),
        },
{
    let mut i: usize = 0;
    while i < fields.len()
        invariant
            i <= fields.len(),
            forall|j: int| 0 <= j < i ==> (#[trigger] fields_view(fields@)[j]).name != name@,
        decreases fields.len() - i,
    {
        if fields[i].name == *name {
            return Some(i);
        }
        i = i + 1;
    }
    assert forall|k: int| !is_first_field(fields_view(fields@), name@, k) by {
        if 0 <= k < fields.len() {
            assert(fields_view(fields@)[k].name != name@);
        }
    }
    None
}

/// Sets one field in a list of fields.
pub fn set_field(fields: &mut Vec<Field>, field: Field)
    ensures
        fields_view(final(fields)@) == spec_set_field(fields_view(old(fields)@), field@),
{
    let ghost before = fields_view(fields@);
    match find_field(fields, &field.name) {
        Some(i) => {
            proof {
                lemma_first_field_unique(
                    before,
                    field.name@,
                    i as int,
                    spec_field_index(before, field.name@),
                );
            }
            fields[i] = field;
            assert(fields_view(fields@) =~= before.update(i as int, field@));
        },
        None => {
            fields.push(field);
            assert(fields_view(fields@) =~= before.push(field@));
        },
    }
}

impl ConvexObject {
    /// The object without fields.
    pub fn empty() -> (object: Self)
        ensures
            object@ == Seq::<FieldView>::empty(),
    {
        let object = ConvexObject { fields: Vec::new() };
        assert(object@ =~= Seq::<FieldView>::empty());
        object
    }

    /// The size of the object, capped.
    pub fn size(&self) -> (size: usize)
        ensures
            size == spec_capped(spec_object_size(self@)),
    {
        let inner = fields_size(&self.fields);
        proof {
            lemma_capped_sum(2, spec_fields_size(self@));
        }
        capped_sum(2, inner)
    }

    /// The value under a name, if the object has that name.
    pub fn get(&self, name: &String) -> (value: Option<&ConvexValue>)
        ensures
            match value {
                Some(v) => spec_get_field(self@, name@) == Some(v@),
                None => spec_get_field(self@, name@) is None,
            },
    {
        match find_field(&self.fields, name) {
            Some(i) => {
                proof {
                    lemma_first_field_unique(
                        self@,
                        name@,
                        i as int,
                        spec_field_index(self@, name@),
                    );
                }
                Some(&self.fields[i].value)
            },
            None => None,
        }
    }

    /// Sets one field: overwrites the first field of that name, or adds one.
    pub fn set(&mut self, field: Field)
        ensures
            final(self)@ == spec_set_field(old(self)@, field@),
    {
        set_field(&mut self.fields, field);
    }

    /// Merges a patch into the object, field by field.
    pub fn merge(&mut self, patch: &PatchValue)
        ensures
            final(self)@ == spec_merge(old(self)@, patch@),
    {
        let mut i: usize = 0;
        while i < patch.fields.len()
            invariant
                i <= patch.fields.len(),
                self@ == spec_merge(old(self)@, patch@.take(i as int)),
            decreases patch.fields.len() - i,
        {
            proof {
                let next = patch@.take(i + 1);
                assert(next.drop_last() =~= patch@.take(i as int));
                assert(next.last() == patch.fields[i as int]@);
            }
            self.set(patch.fields[i].clone());
            i = i + 1;
        }
        assert(patch@.take(patch.fields.len() as int) =~= patch@);
    }
}

impl Clone for ConvexObject {
    fn clone(&self) -> (copy: Self)
        ensures
            copy@ == self@,
    {
        ConvexObject { fields: clone_fields(&self.fields) }
    }
}

impl Clone for PatchValue {
    fn clone(&self) -> (copy: Self)
        ensures
            copy@ == self@,
    {
        PatchValue { fields: clone_fields(&self.fields) }
    }
}

} // verus!
