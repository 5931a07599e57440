//! The vertex-layout generator.
//!
//! A vertex record is described by a [`RecordDecl`]: its shape and, for a
//! plain field record, the declared fields in declaration order, each with an
//! attribute kind and the location tag found on it. [`build_layout`] either
//! rejects the declaration — an unsupported shape, or a field whose location
//! tag is missing or not an integer literal, cited by name — or produces the
//! [`VertexLayout`]: one descriptor per field with its byte offset inside a
//! packed record, plus the record's stride. The layout's registration
//! procedure then describes every field to the device.
//!
//! Two fields that carry the same location number are not rejected and not
//! renumbered: both registrations are issued in declaration order, so the
//! later one overwrites the slot at the device.

use vstd::prelude::*;

use crate::device::bindings_unchanged;
use crate::device::buffer_state_unchanged;
use crate::device::AttributeRecord;
use crate::device::Device;
use crate::device::DeviceCommand;

verus! {

/// The attribute type of one field of a vertex record: a fixed-arity tuple of
/// 32-bit components. The component count determines the field's byte size.
#[derive(Clone, Copy, Debug, PartialEq, Eq, Structural)]
pub enum AttributeKind {
    Vector2,
    Vector3,
    Vector4,
}

impl AttributeKind {
    /// How many 32-bit components one value of this kind holds.
    pub open spec fn component_count_spec(self) -> u32 {
        match self {
            AttributeKind::Vector2 => 2,
            AttributeKind::Vector3 => 3,
            AttributeKind::Vector4 => 4,
        }
    }

    /// The packed byte size of one value of this kind: four bytes per component.
    pub open spec fn byte_size_spec(self) -> usize {
        (4 * self.component_count_spec()) as usize
    }

    pub fn component_count(self) -> (n: u32)
        ensures
            n == self.component_count_spec(),
    {
        match self {
            AttributeKind::Vector2 => 2,
            AttributeKind::Vector3 => 3,
            AttributeKind::Vector4 => 4,
        }
    }

    pub fn byte_size(self) -> (n: usize)
        ensures
            n == self.byte_size_spec(),
    {
        match self {
            AttributeKind::Vector2 => 8,
            AttributeKind::Vector3 => 12,
            AttributeKind::Vector4 => 16,
        }
    }
}

/// The location tag found on one field, before validation: either an integer
/// literal or some other form of value.
#[derive(Clone, Copy, Debug, PartialEq, Eq, Structural)]
pub enum LocationTag {
    IntLiteral(u32),
    Other,
}

/// One declared field of a vertex record: its name, its attribute kind, and
/// the location tag on it, if any.
#[derive(Clone, Debug, PartialEq)]
pub struct FieldDecl {
    pub name: String,
    pub kind: AttributeKind,
    pub location: Option<LocationTag>,
}

/// The shape of a record declaration. Only a plain field record can carry a
/// vertex layout; the other shapes are kept so that they can be rejected with
/// a reason.
#[derive(Clone, Debug, PartialEq)]
pub enum RecordShape {
    /// A record with named fields, in declaration order.
    Fields(Vec<FieldDecl>),
    /// A positional-only (tuple) record.
    Positional,
    /// A record with no field list at all.
    Unit,
    /// A choice (variant) type.
    Choice,
}

/// A vertex record declaration: the record's name and its shape.
#[derive(Clone, Debug, PartialEq)]
pub struct RecordDecl {
    pub name: String,
    pub shape: RecordShape,
}

/// Which unsupported shape a declaration had.
#[derive(Clone, Copy, Debug, PartialEq, Eq, Structural)]
pub enum ShapeFault {
    Choice,
    Positional,
    Unit,
    Empty,
}

/// Why a declaration was rejected. These are build-time failures: the caller
/// that drives code generation turns them into compile errors, citing the
/// shape or the offending field.
#[derive(Clone, Debug, PartialEq)]
pub enum LayoutError {
    /// The declaration is not a non-empty plain field record.
    UnsupportedShape { shape: ShapeFault },
    /// The named field carries no location tag.
    MissingLocation { field: String },
    /// The named field's location tag is not an integer literal.
    InvalidLocation { field: String },
}

/// One field of a computed vertex layout: the attribute slot it is bound to,
/// its kind, and its byte offset from the start of one packed record.
#[derive(Clone, Copy, Debug, PartialEq, Eq, Structural)]
pub struct FieldDescriptor {
    pub location: u32,
    pub kind: AttributeKind,
    pub offset: usize,
}

/// The sum of `sizes`.
pub open spec fn size_sum(sizes: Seq<usize>) -> int
    decreases sizes.len(),
{
    if sizes.len() == 0 {
        0
    } else {
        size_sum(sizes.drop_last()) + sizes.last()
    }
}

/// The sum of the first `i` of `sizes`: the byte offset of field `i` in a
/// packed record whose fields have those sizes.
pub open spec fn prefix_sum(sizes: Seq<usize>, i: int) -> int {
    size_sum(sizes.take(i))
}

/// The byte sizes of the declared fields, in declaration order.
pub open spec fn sizes_of(fs: Seq<FieldDecl>) -> Seq<usize> {
    fs.map(|i: int, f: FieldDecl| f.kind.byte_size_spec())
}

/// Law: in a packed record the first field sits at offset 0, each later field
/// sits one predecessor-size after its predecessor, and the stride — the sum
/// of all the sizes — is where the next record begins.
pub proof fn lemma_offset_recurrence(sizes: Seq<usize>, i: int)
    requires
        1 <= i <= sizes.len(),
    ensures
        prefix_sum(sizes, 0) == 0,
        prefix_sum(sizes, i) == prefix_sum(sizes, i - 1) + sizes[i - 1],
{
    assert(sizes.take(0) =~= Seq::<usize>::empty());
    assert(sizes.take(i).drop_last() =~= sizes.take(i - 1));
}

proof fn lemma_size_sum_nonneg(sizes: Seq<usize>)
    ensures
        size_sum(sizes) >= 0,
    decreases sizes.len(),
{
    if sizes.len() > 0 {
        lemma_size_sum_nonneg(sizes.drop_last());
    }
}

proof fn lemma_prefix_sum_le_total(sizes: Seq<usize>, i: int)
    requires
        0 <= i <= sizes.len(),
    ensures
        prefix_sum(sizes, i) <= size_sum(sizes),
    decreases sizes.len() - i,
{
    if i == sizes.len() {
        assert(sizes.take(i) =~= sizes);
    } else {
        lemma_offset_recurrence(sizes, i + 1);
        lemma_prefix_sum_le_total(sizes, i + 1);
    }
}

/// Walk fields in declaration order and compute each field's byte offset —
/// the sum of the sizes before it — together with the total, the stride.
pub fn compute_offsets(sizes: &Vec<usize>) -> (r: (Vec<usize>, usize))
    requires
        size_sum(sizes@) <= usize::MAX,
    ensures
        r.0@.len() == sizes@.len(),
        forall|i: int| 0 <= i < sizes@.len() ==> r.0@[i] as int == prefix_sum(sizes@, i),
        r.1 as int == size_sum(sizes@),
{
    let mut offsets: Vec<usize> = Vec::new();
    let mut acc: usize = 0;
    let mut i: usize = 0;
    proof {
        assert(sizes@.take(0) =~= Seq::<usize>::empty());
    }
    while i < sizes.len()
        invariant
            i <= sizes@.len(),
            offsets@.len() == i,
            acc as int == prefix_sum(sizes@, i as int),
            forall|j: int| 0 <= j < i ==> offsets@[j] as int == prefix_sum(sizes@, j),
            size_sum(sizes@) <= usize::MAX,
        decreases sizes@.len() - i,
    {
        offsets.push(acc);
        proof {
            lemma_offset_recurrence(sizes@, i + 1);
            lemma_prefix_sum_le_total(sizes@, i + 1);
            lemma_size_sum_nonneg(sizes@.take(i + 1));
        }
        acc = acc + sizes[i];
        i = i + 1;
    }
    proof {
        assert(sizes@.take(sizes@.len() as int) =~= sizes@);
    }
    (offsets, acc)
}

/// The first rejection among the declared fields, scanning from `i` in
/// declaration order: a missing tag or a non-integer tag, citing the field's
/// name. `None` when every field from `i` on is properly tagged.
pub open spec fn scan_fields_from(fs: Seq<FieldDecl>, i: int) -> Option<LayoutError>
    decreases fs.len() - i,
{
    if i < 0 || i >= fs.len() {
        None
    } else {
        match fs[i].location {
            Option::None => Some(LayoutError::MissingLocation { field: fs[i].name }),
            Option::Some(LocationTag::Other) => Some(
                LayoutError::InvalidLocation { field: fs[i].name },
            ),
            Option::Some(LocationTag::IntLiteral(_)) => scan_fields_from(fs, i + 1),
        }
    }
}

/// The exact outcome of validating a declaration: the error [`build_layout`]
/// returns, or `None` when the declaration is accepted. Shape faults come
/// first; then the fields are scanned in declaration order.
pub open spec fn layout_fault(decl: RecordDecl) -> Option<LayoutError> {
    match decl.shape {
        RecordShape::Choice => Some(
            LayoutError::UnsupportedShape { shape: ShapeFault::Choice },
        ),
        RecordShape::Positional => Some(
            LayoutError::UnsupportedShape { shape: ShapeFault::Positional },
        ),
        RecordShape::Unit => Some(LayoutError::UnsupportedShape { shape: ShapeFault::Unit }),
        RecordShape::Fields(fs) => if fs@.len() == 0 {
            Some(LayoutError::UnsupportedShape { shape: ShapeFault::Empty })
        } else {
            scan_fields_from(fs@, 0)
        },
    }
}

/// A vertex layout: one descriptor per declared field, in declaration order,
/// and the record's stride — the byte size of one packed record.
#[derive(Clone, Debug, PartialEq)]
pub struct VertexLayout {
    pub fields: Vec<FieldDescriptor>,
    pub stride: usize,
}

impl VertexLayout {
    /// This layout is the one the declared fields `fs` call for: same kinds,
    /// the locations the tags carry, offsets that are the packed prefix sums
    /// of the field sizes, and the stride that is their total.
    pub open spec fn describes(self, fs: Seq<FieldDecl>) -> bool {
        &&& self.fields@.len() == fs.len()
        &&& forall|i: int|
            0 <= i < fs.len() ==> {
                &&& (#[trigger] self.fields@[i]).kind == fs[i].kind
                &&& fs[i].location == Some(LocationTag::IntLiteral(self.fields@[i].location))
                &&& self.fields@[i].offset as int == prefix_sum(sizes_of(fs), i)
            }
        &&& self.stride as int == size_sum(sizes_of(fs))
    }
}

/// Inspect a vertex record declaration and either compute its layout or
/// reject it. The result is exact: the layout is produced if and only if the
/// declaration is a plain field record with at least one field, every field
/// tagged with an integer-literal location; otherwise the error is the one
/// [`layout_fault`] names, citing the unsupported shape or the first
/// offending field.
pub fn build_layout(decl: &RecordDecl) -> (r: Result<VertexLayout, LayoutError>)
    requires
        decl.shape matches RecordShape::Fields(fs) ==> size_sum(sizes_of(fs@)) <= usize::MAX,
    ensures
        match r {
            Ok(l) => {
                &&& layout_fault(*decl) is None
                &&& decl.shape matches RecordShape::Fields(fs) && l.describes(fs@)
            },
            Err(e) => layout_fault(*decl) == Some(e),
        },
{
    let fs: &Vec<FieldDecl> = match &decl.shape {
        RecordShape::Fields(fs) => fs,
        RecordShape::Positional => {
            return Err(LayoutError::UnsupportedShape { shape: ShapeFault::Positional });
        },
        RecordShape::Unit => {
            return Err(LayoutError::UnsupportedShape { shape: ShapeFault::Unit });
        },
        RecordShape::Choice => {
            return Err(LayoutError::UnsupportedShape { shape: ShapeFault::Choice });
        },
    };
    if fs.len() == 0 {
        return Err(LayoutError::UnsupportedShape { shape: ShapeFault::Empty });
    }
    proof {
        assert(decl.shape == RecordShape::Fields(*fs));
        assert(layout_fault(*decl) == scan_fields_from(fs@, 0));
    }
    let mut i: usize = 0;
    while i < fs.len()
        invariant
            i <= fs@.len(),
            forall|j: int| 0 <= j < i ==> (#[trigger] fs@[j].location) matches Some(
                LocationTag::IntLiteral(_),
            ),
            layout_fault(*decl) == scan_fields_from(fs@, i as int),
        decreases fs@.len() - i,
    {
        match fs[i].location {
            Option::None => {
                return Err(LayoutError::MissingLocation { field: fs[i].name.clone() });
            },
            Option::Some(LocationTag::Other) => {
                return Err(LayoutError::InvalidLocation { field: fs[i].name.clone() });
            },
            Option::Some(LocationTag::IntLiteral(_)) => {},
        }
        i = i + 1;
    }
    let mut sizes: Vec<usize> = Vec::new();
    let mut k: usize = 0;
    while k < fs.len()
        invariant
            k <= fs@.len(),
            sizes@.len() == k,
            forall|j: int| 0 <= j < k ==> sizes@[j] == sizes_of(fs@)[j],
        decreases fs@.len() - k,
    {
        sizes.push(fs[k].kind.byte_size());
        k = k + 1;
    }
    proof {
        assert(sizes@ =~= sizes_of(fs@));
    }
    let (offsets, stride) = compute_offsets(&sizes);
    let mut fields: Vec<FieldDescriptor> = Vec::new();
    let mut m: usize = 0;
    while m < fs.len()
        invariant
            m <= fs@.len(),
            offsets@.len() == fs@.len(),
            fields@.len() == m,
            forall|j: int| 0 <= j < fs@.len() ==> offsets@[j] as int == prefix_sum(sizes_of(fs@), j),
            forall|j: int| 0 <= j < fs@.len() ==> (#[trigger] fs@[j].location) matches Some(
                LocationTag::IntLiteral(_),
            ),
            forall|j: int|
                0 <= j < m ==> {
                    &&& (#[trigger] fields@[j]).kind == fs@[j].kind
                    &&& fs@[j].location == Some(LocationTag::IntLiteral(fields@[j].location))
                    &&& fields@[j].offset == offsets@[j]
                },
        decreases fs@.len() - m,
    {
        let location: u32 = match fs[m].location {
            Option::Some(LocationTag::IntLiteral(v)) => v,
            _ => {
                proof {
                    assert(false);
                }
                0
            },
        };
        fields.push(FieldDescriptor { location, kind: fs[m].kind, offset: offsets[m] });
        m = m + 1;
    }
    Ok(VertexLayout { fields, stride })
}

/// The attribute registrations a layout makes, oldest first: one per field,
/// in declaration order, each carrying the record's stride.
pub open spec fn registration_records(fields: Seq<FieldDescriptor>, stride: usize) -> Seq<
    AttributeRecord,
>
    decreases fields.len(),
{
    if fields.len() == 0 {
        Seq::empty()
    } else {
        registration_records(fields.drop_last(), stride).push(
            (AttributeRecord {
                location: fields.last().location,
                components: fields.last().kind.component_count_spec(),
                stride,
                offset: fields.last().offset,
            }),
        )
    }
}

/// The driver calls a layout's registration procedure issues, oldest first:
/// for each field, enable its slot, then describe it.
pub open spec fn registration_commands(fields: Seq<FieldDescriptor>, stride: usize) -> Seq<
    DeviceCommand,
>
    decreases fields.len(),
{
    if fields.len() == 0 {
        Seq::empty()
    } else {
        registration_commands(fields.drop_last(), stride).push(
            (DeviceCommand::EnableVertexAttribArray { location: fields.last().location }),
        ).push(
            (DeviceCommand::VertexAttribPointer {
                location: fields.last().location,
                components: fields.last().kind.component_count_spec(),
                stride,
                offset: fields.last().offset,
            }),
        )
    }
}

impl VertexLayout {
    /// The generated registration procedure: walk the fields in declaration
    /// order and describe each to the device with `(stride, location,
    /// offset)`. It binds nothing itself: the caller must have bound both the
    /// intended vertex array and the intended vertex-attribute buffer, and
    /// the bound vertex array remembers the registrations for the lifetime of
    /// its handle.
    pub fn register_attributes(&self, dev: &mut Device)
        requires
            old(dev).wf(),
            old(dev).bound_vertex_array != 0,
            old(dev).bound_array_buffer != 0,
        ensures
            final(dev).wf(),
            buffer_state_unchanged(*old(dev), *final(dev)),
            bindings_unchanged(*old(dev), *final(dev)),
            final(dev).arrays_created == old(dev).arrays_created,
            final(dev).arrays_deleted == old(dev).arrays_deleted,
            final(dev).next_array_id == old(dev).next_array_id,
            final(dev).live_arrays@ == old(dev).live_arrays@,
            final(dev).array_attribs@ == old(dev).array_attribs@.insert(
                old(dev).bound_vertex_array,
                old(dev).attribs_of(old(dev).bound_vertex_array) + registration_records(
                    self.fields@,
                    self.stride,
                ),
            ),
            final(dev).commands@ == old(dev).commands@ + registration_commands(
                self.fields@,
                self.stride,
            ),
    {
        let ghost vao: u32 = old(dev).bound_vertex_array;
        let ghost base: Seq<AttributeRecord> = old(dev).attribs_of(vao);
        proof {
            assert(old(dev).live_arrays@.contains(vao));
            assert(base + registration_records(self.fields@.take(0), self.stride) =~= base);
            assert(old(dev).array_attribs@.insert(vao, base) =~= old(dev).array_attribs@);
            assert(old(dev).commands@ + registration_commands(self.fields@.take(0), self.stride)
                =~= old(dev).commands@);
        }
        let mut i: usize = 0;
        while i < self.fields.len()
            invariant
                i <= self.fields@.len(),
                dev.wf(),
                buffer_state_unchanged(*old(dev), *dev),
                bindings_unchanged(*old(dev), *dev),
                dev.bound_vertex_array == vao,
                vao != 0,
                dev.bound_array_buffer != 0,
                dev.arrays_created == old(dev).arrays_created,
                dev.arrays_deleted == old(dev).arrays_deleted,
                dev.next_array_id == old(dev).next_array_id,
                dev.live_arrays@ == old(dev).live_arrays@,
                base == old(dev).attribs_of(vao),
                dev.array_attribs@ == old(dev).array_attribs@.insert(
                    vao,
                    base + registration_records(self.fields@.take(i as int), self.stride),
                ),
                dev.commands@ == old(dev).commands@ + registration_commands(
                    self.fields@.take(i as int),
                    self.stride,
                ),
            decreases self.fields@.len() - i,
        {
            let f = self.fields[i];
            let c = f.kind.component_count();
            let ghost before: Device = *dev;
            dev.register_attribute(f.location, c, self.stride, f.offset);
            proof {
                let fi = i as int;
                assert(self.fields@.take(fi + 1).drop_last() =~= self.fields@.take(fi));
                assert(self.fields@.take(fi + 1).last() == self.fields@[fi]);
                assert(before.attribs_of(vao) == base + registration_records(
                    self.fields@.take(fi),
                    self.stride,
                ));
                assert(dev.array_attribs@ =~= old(dev).array_attribs@.insert(
                    vao,
                    base + registration_records(self.fields@.take(fi + 1), self.stride),
                ));
                assert(dev.commands@ =~= old(dev).commands@ + registration_commands(
                    self.fields@.take(fi + 1),
                    self.stride,
                ));
            }
            i = i + 1;
        }
        proof {
            assert(self.fields@.take(self.fields@.len() as int) =~= self.fields@);
        }
    }
}

} // verus!
