//! The vertex record used by the meshes: a position and a colour, both
//! three-component vectors, at attribute locations 0 and 1.
//!
//! `vertex_attrib_pointers` is the record's generated registration procedure
//! in its straight-line form: stride 24 — the packed size of two
//! three-component fields of 32-bit scalars — with `pos` at offset 0 and
//! `clr` at offset 12. [`Vertex::layout`] derives the same numbers from the
//! record's declaration through the layout generator.

use vstd::prelude::*;

use crate::device::attribute_registered;
use crate::device::AttributeRecord;
use crate::device::Device;
use crate::device::DeviceCommand;
use crate::device::bindings_unchanged;
use crate::device::buffer_state_unchanged;
use crate::layout::build_layout;
use crate::layout::size_sum;
use crate::layout::sizes_of;
use crate::layout::AttributeKind;
use crate::layout::FieldDecl;
use crate::layout::FieldDescriptor;
use crate::layout::LocationTag;
use crate::layout::RecordDecl;
use crate::layout::RecordShape;
use crate::layout::VertexLayout;

verus! {

/// One vertex: a position and a colour.
#[derive(Clone, Copy, Debug, PartialEq)]
pub struct Vertex<T> {
    pub pos: crate::vector::Vec3<T>,
    pub clr: crate::vector::Vec3<T>,
}

impl<T> Vertex<T> {
    pub fn new(pos: crate::vector::Vec3<T>, clr: crate::vector::Vec3<T>) -> (v: Vertex<T>)
        ensures
            v.pos == pos,
            v.clr == clr,
    {
        Vertex { pos, clr }
    }

    /// The declaration the layout generator sees for this record: a plain
    /// field record with `pos` tagged location 0 and `clr` tagged location 1,
    /// both three-component attributes.
    pub fn record_decl() -> (d: RecordDecl)
        ensures
            d.name@ == "Vertex"@,
            d.shape matches RecordShape::Fields(fs) && {
                &&& fs@.len() == 2
                &&& fs@[0] == (FieldDecl {
                    name: fs@[0].name,
                    kind: AttributeKind::Vector3,
                    location: Some(LocationTag::IntLiteral(0)),
                })
                &&& fs@[0].name@ == "pos"@
                &&& fs@[1] == (FieldDecl {
                    name: fs@[1].name,
                    kind: AttributeKind::Vector3,
                    location: Some(LocationTag::IntLiteral(1)),
                })
                &&& fs@[1].name@ == "clr"@
            },
    {
        let mut fields: Vec<FieldDecl> = Vec::new();
        fields.push(
            FieldDecl {
                name: "pos".to_owned(),
                kind: AttributeKind::Vector3,
                location: Some(LocationTag::IntLiteral(0)),
            },
        );
        fields.push(
            FieldDecl {
                name: "clr".to_owned(),
                kind: AttributeKind::Vector3,
                location: Some(LocationTag::IntLiteral(1)),
            },
        );
        RecordDecl { name: "Vertex".to_owned(), shape: RecordShape::Fields(fields) }
    }

    /// The layout the generator computes for this record: offsets 0 and 12,
    /// stride 24.
    pub fn layout() -> (l: VertexLayout)
        ensures
            l.fields@.len() == 2,
            l.fields@[0] == (FieldDescriptor {
                location: 0u32,
                kind: AttributeKind::Vector3,
                offset: 0usize,
            }),
            l.fields@[1] == (FieldDescriptor {
                location: 1u32,
                kind: AttributeKind::Vector3,
                offset: 12usize,
            }),
            l.stride == 24usize,
    {
        let decl = Self::record_decl();
        proof {
            let fs = decl.shape->Fields_0;
            let sizes = sizes_of(fs@);
            assert(sizes.len() == 2);
            assert(sizes[0] == 12usize);
            assert(sizes[1] == 12usize);
            assert(sizes.drop_last() =~= sizes.take(1));
            assert(sizes.take(1).drop_last() =~= sizes.take(0));
            assert(sizes.take(0).len() == 0);
            assert(size_sum(sizes.take(0)) == 0);
            assert(sizes.take(1).last() == 12usize);
            assert(size_sum(sizes.take(1)) == 12);
            assert(sizes.take(2) =~= sizes);
            assert(size_sum(sizes) == 24);
            assert(crate::layout::scan_fields_from(fs@, 2) is None);
            assert(crate::layout::scan_fields_from(fs@, 1) is None);
            assert(crate::layout::scan_fields_from(fs@, 0) is None);
            assert(crate::layout::layout_fault(decl) is None);
        }
        let r = build_layout(&decl);
        match r {
            Ok(l) => {
                proof {
                    let fs = decl.shape->Fields_0;
                    assert(l.fields@[0].offset as int == size_sum(sizes_of(fs@).take(0)));
                    assert(l.fields@[1].offset as int == size_sum(sizes_of(fs@).take(1)));
                }
                l
            },
            Err(_) => {
                proof {
                    assert(false);
                }
                VertexLayout { fields: Vec::new(), stride: 0 }
            },
        }
    }

    /// The generated registration procedure: describe `pos` to slot 0 at
    /// offset 0 and `clr` to slot 1 at offset 12, both with stride 24. The
    /// intended vertex array and vertex-attribute buffer must be bound; the
    /// bound vertex array remembers both registrations.
    pub fn vertex_attrib_pointers(dev: &mut Device)
        requires
            old(dev).wf(),
            old(dev).bound_vertex_array != 0,
            old(dev).bound_array_buffer != 0,
        ensures
            final(dev).wf(),
            buffer_state_unchanged(*old(dev), *final(dev)),
            bindings_unchanged(*old(dev), *final(dev)),
            final(dev).arrays_created == old(dev).arrays_created,
            final(dev).arrays_deleted == old(dev).arrays_deleted,
            final(dev).next_array_id == old(dev).next_array_id,
            final(dev).live_arrays@ == old(dev).live_arrays@,
            final(dev).array_attribs@ == old(dev).array_attribs@.insert(
                old(dev).bound_vertex_array,
                old(dev).attribs_of(old(dev).bound_vertex_array).push(
                    (AttributeRecord { location: 0u32, components: 3u32, stride: 24usize, offset: 0usize }),
                ).push(
                    (AttributeRecord {
                        location: 1u32,
                        components: 3u32,
                        stride: 24usize,
                        offset: 12usize,
                    }),
                ),
            ),
            final(dev).commands@ == old(dev).commands@.push(
                (DeviceCommand::EnableVertexAttribArray { location: 0u32 }),
            ).push(
                (DeviceCommand::VertexAttribPointer {
                    location: 0u32,
                    components: 3u32,
                    stride: 24usize,
                    offset: 0usize,
                }),
            ).push((DeviceCommand::EnableVertexAttribArray { location: 1u32 })).push(
                (DeviceCommand::VertexAttribPointer {
                    location: 1u32,
                    components: 3u32,
                    stride: 24usize,
                    offset: 12usize,
                }),
            ),
    {
        let ghost vao: u32 = old(dev).bound_vertex_array;
        crate::vector::Vec3::<T>::vertex_attrib_pointer(dev, 24, 0, 0);
        let ghost mid: Device = *dev;
        crate::vector::Vec3::<T>::vertex_attrib_pointer(dev, 24, 1, 12);
        proof {
            assert(mid.attribs_of(vao) == old(dev).attribs_of(vao).push(
                (AttributeRecord { location: 0u32, components: 3u32, stride: 24usize, offset: 0usize }),
            ));
            assert(dev.array_attribs@ =~= old(dev).array_attribs@.insert(
                vao,
                old(dev).attribs_of(vao).push(
                    (AttributeRecord { location: 0u32, components: 3u32, stride: 24usize, offset: 0usize }),
                ).push(
                    (AttributeRecord {
                        location: 1u32,
                        components: 3u32,
                        stride: 24usize,
                        offset: 12usize,
                    }),
                ),
            ));
        }
    }
}

} // verus!
