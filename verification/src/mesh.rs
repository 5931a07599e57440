//! The two demonstration meshes: a triangle drawn from a plain vertex
//! buffer, and a quad drawn through an index buffer.
//!
//! Construction follows the canonical setup sequence: allocate the vertex
//! buffer, bind it, upload the packed records, allocate and bind the vertex
//! array, run the layout's registration procedure, unbind both — and, for
//! the quad, allocate the index buffer and upload the six indices of its two
//! triangles. The shader program is an excluded collaborator: a mesh only
//! keeps its opaque handle and binds it before drawing.

use vstd::prelude::*;

use crate::buffer::bytes_of_u32s;
use crate::buffer::le_bytes_of;
use crate::buffer::ArrayBuffer;
use crate::buffer::Buffer;
use crate::buffer::ElementArrayBuffer;
use crate::buffer::VertexArray;
use crate::device::BufferTarget;
use crate::device::Device;
use crate::device::DeviceCommand;
use crate::layout::registration_commands;
use crate::layout::registration_records;
use crate::layout::VertexLayout;

verus! {

/// A triangle: three vertices in a vertex buffer, configured on a vertex
/// array, drawn with an opaque program.
pub struct Triangle {
    pub program: u32,
    pub vbo: ArrayBuffer,
    pub vao: VertexArray,
}

/// A quad: four vertices in a vertex buffer and six indices — two triangles
/// — in an index buffer, configured on a vertex array, drawn with an opaque
/// program.
pub struct Quad {
    pub program: u32,
    pub vbo: ArrayBuffer,
    pub vao: VertexArray,
    pub ibo: ElementArrayBuffer,
}

/// The indices of the quad's two triangles.
pub open spec fn quad_indices() -> Seq<u32> {
    seq![0u32, 1u32, 2u32, 0u32, 2u32, 3u32]
}

impl Triangle {
    /// The mesh's handles are live in `d` and its program handle is real.
    pub open spec fn valid_in(self, d: Device) -> bool {
        &&& self.program != 0
        &&& self.vbo.live_in(d)
        &&& self.vao.live_in(d)
    }
}

impl Quad {
    /// The mesh's handles are live in `d` and its program handle is real.
    pub open spec fn valid_in(self, d: Device) -> bool {
        &&& self.program != 0
        &&& self.vbo.live_in(d)
        &&& self.vao.live_in(d)
        &&& self.ibo.live_in(d)
    }
}

/// `b` is `a` after a triangle was set up: one new vertex buffer holding the
/// given records, one new vertex array remembering the layout's
/// registrations, both binding points left cleared, and exactly the setup
/// command sequence issued.
pub open spec fn triangle_built(
    a: Device,
    b: Device,
    t: Triangle,
    vertices: Vec<u8>,
    layout: VertexLayout,
) -> bool {
    &&& t.valid_in(b)
    &&& t.vbo.id == a.next_buffer_id
    &&& t.vao.vao == a.next_array_id
    &&& b.buffers_created == a.buffers_created + 1
    &&& b.buffers_deleted == a.buffers_deleted
    &&& b.arrays_created == a.arrays_created + 1
    &&& b.arrays_deleted == a.arrays_deleted
    &&& b.next_buffer_id == a.next_buffer_id + 1
    &&& b.next_array_id == a.next_array_id + 1
    &&& b.live_buffers@ == a.live_buffers@.insert(t.vbo.id)
    &&& b.live_arrays@ == a.live_arrays@.insert(t.vao.vao)
    &&& b.buffer_data@ == a.buffer_data@.insert(t.vbo.id, vertices@)
    &&& b.array_attribs@ == a.array_attribs@.insert(
        t.vao.vao,
        registration_records(layout.fields@, layout.stride),
    )
    &&& b.bound_array_buffer == 0
    &&& b.bound_vertex_array == 0
    &&& b.bound_element_buffer == a.bound_element_buffer
    &&& b.bound_program == a.bound_program
    &&& b.commands@ == a.commands@ + seq![
        (DeviceCommand::GenBuffer { id: t.vbo.id }),
        (DeviceCommand::BindBuffer { target: BufferTarget::Array, id: t.vbo.id }),
        (DeviceCommand::BufferData { target: BufferTarget::Array, data: vertices }),
        (DeviceCommand::GenVertexArray { id: t.vao.vao }),
        (DeviceCommand::BindVertexArray { id: t.vao.vao }),
    ] + registration_commands(layout.fields@, layout.stride) + seq![
        (DeviceCommand::BindBuffer { target: BufferTarget::Array, id: 0u32 }),
        (DeviceCommand::BindVertexArray { id: 0u32 }),
    ]
}

impl Triangle {
    /// Set a triangle up: upload the packed `vertices`, register `layout` on
    /// a fresh vertex array, and keep the opaque `program` handle for
    /// drawing.
    pub fn new(dev: &mut Device, program: u32, vertices: Vec<u8>, layout: &VertexLayout) -> (t:
        Triangle)
        requires
            old(dev).wf(),
            old(dev).can_allocate_buffer(),
            old(dev).can_allocate_array(),
            program != 0,
        ensures
            final(dev).wf(),
            t.program == program,
            triangle_built(*old(dev), *final(dev), t, vertices, *layout),
    {
        let ghost d0: Device = *old(dev);
        let vbo: ArrayBuffer = Buffer::new(dev);
        vbo.bind(dev);
        let ghost vertex_bytes: Seq<u8> = vertices@;
        vbo.buffer_static_data(dev, vertices);
        let vao = VertexArray::new(dev);
        vao.bind(dev);
        let ghost d5: Device = *dev;
        layout.register_attributes(dev);
        vbo.unbind(dev);
        vao.unbind(dev);
        proof {
            assert(d5.attribs_of(vao.vao) =~= Seq::empty());
            assert(d5.attribs_of(vao.vao) + registration_records(layout.fields@, layout.stride)
                =~= registration_records(layout.fields@, layout.stride));
            assert(dev.array_attribs@ =~= d0.array_attribs@.insert(
                vao.vao,
                registration_records(layout.fields@, layout.stride),
            ));
            assert(dev.buffer_data@ =~= d0.buffer_data@.insert(vbo.id, vertex_bytes));
            assert(dev.commands@ =~= d0.commands@ + seq![
                (DeviceCommand::GenBuffer { id: vbo.id }),
                (DeviceCommand::BindBuffer { target: BufferTarget::Array, id: vbo.id }),
                (DeviceCommand::BufferData {
                    target: BufferTarget::Array,
                    data: vertices,
                }),
                (DeviceCommand::GenVertexArray { id: vao.vao }),
                (DeviceCommand::BindVertexArray { id: vao.vao }),
            ] + registration_commands(layout.fields@, layout.stride) + seq![
                (DeviceCommand::BindBuffer { target: BufferTarget::Array, id: 0u32 }),
                (DeviceCommand::BindVertexArray { id: 0u32 }),
            ]);
        }
        Triangle { program, vbo, vao }
    }

    /// Draw the triangle: bind the program, rebind the vertex array — its
    /// remembered registrations need no re-registration — and draw three
    /// vertices.
    pub fn render(&self, dev: &mut Device)
        requires
            old(dev).wf(),
            self.valid_in(*old(dev)),
        ensures
            final(dev).wf(),
            self.valid_in(*final(dev)),
            crate::device::buffer_state_unchanged(*old(dev), *final(dev)),
            crate::device::array_state_unchanged(*old(dev), *final(dev)),
            final(dev).bound_program == self.program,
            final(dev).bound_vertex_array == self.vao.vao,
            final(dev).bound_array_buffer == old(dev).bound_array_buffer,
            final(dev).bound_element_buffer == old(dev).bound_element_buffer,
            final(dev).commands@ == old(dev).commands@ + seq![
                (DeviceCommand::UseProgram { id: self.program }),
                (DeviceCommand::BindVertexArray { id: self.vao.vao }),
                (DeviceCommand::DrawArrays { count: 3usize }),
            ],
    {
        dev.use_program(self.program);
        self.vao.bind(dev);
        dev.draw_arrays(3);
        proof {
            assert(dev.commands@ =~= old(dev).commands@ + seq![
                (DeviceCommand::UseProgram { id: self.program }),
                (DeviceCommand::BindVertexArray { id: self.vao.vao }),
                (DeviceCommand::DrawArrays { count: 3usize }),
            ]);
        }
    }

    /// Release both handles, each exactly once; the wrapper is consumed.
    pub fn release(self, dev: &mut Device)
        requires
            old(dev).wf(),
            self.valid_in(*old(dev)),
        ensures
            final(dev).wf(),
            final(dev).buffers_created == old(dev).buffers_created,
            final(dev).buffers_deleted == old(dev).buffers_deleted + 1,
            final(dev).arrays_created == old(dev).arrays_created,
            final(dev).arrays_deleted == old(dev).arrays_deleted + 1,
            final(dev).live_buffers@ == old(dev).live_buffers@.remove(self.vbo.id),
            final(dev).live_arrays@ == old(dev).live_arrays@.remove(self.vao.vao),
            final(dev).commands@ == old(dev).commands@ + seq![
                (DeviceCommand::DeleteBuffer { id: self.vbo.id }),
                (DeviceCommand::DeleteVertexArray { id: self.vao.vao }),
            ],
    {
        self.vbo.release(dev);
        self.vao.release(dev);
        proof {
            assert(dev.commands@ =~= old(dev).commands@ + seq![
                (DeviceCommand::DeleteBuffer { id: self.vbo.id }),
                (DeviceCommand::DeleteVertexArray { id: self.vao.vao }),
            ]);
        }
    }
}

/// `b` is `a` after a quad was set up: as for the triangle, plus one new
/// index buffer holding the byte image of the quad's six indices, left bound
/// on the index target.
pub open spec fn quad_built(
    a: Device,
    b: Device,
    q: Quad,
    vertices: Vec<u8>,
    layout: VertexLayout,
) -> bool {
    &&& q.valid_in(b)
    &&& q.vbo.id == a.next_buffer_id
    &&& q.vao.vao == a.next_array_id
    &&& q.ibo.id == a.next_buffer_id + 1
    &&& b.buffers_created == a.buffers_created + 2
    &&& b.buffers_deleted == a.buffers_deleted
    &&& b.arrays_created == a.arrays_created + 1
    &&& b.arrays_deleted == a.arrays_deleted
    &&& b.next_buffer_id == a.next_buffer_id + 2
    &&& b.next_array_id == a.next_array_id + 1
    &&& b.live_buffers@ == a.live_buffers@.insert(q.vbo.id).insert(q.ibo.id)
    &&& b.live_arrays@ == a.live_arrays@.insert(q.vao.vao)
    &&& b.buffer_data@ == a.buffer_data@.insert(q.vbo.id, vertices@).insert(
        q.ibo.id,
        le_bytes_of(quad_indices()),
    )
    &&& b.array_attribs@ == a.array_attribs@.insert(
        q.vao.vao,
        registration_records(layout.fields@, layout.stride),
    )
    &&& b.bound_array_buffer == 0
    &&& b.bound_vertex_array == 0
    &&& b.bound_element_buffer == q.ibo.id
    &&& b.bound_program == a.bound_program
    &&& b.commands@.len() > 0
    &&& b.commands@.drop_last() == a.commands@ + seq![
        (DeviceCommand::GenBuffer { id: q.vbo.id }),
        (DeviceCommand::BindBuffer { target: BufferTarget::Array, id: q.vbo.id }),
        (DeviceCommand::BufferData { target: BufferTarget::Array, data: vertices }),
        (DeviceCommand::GenVertexArray { id: q.vao.vao }),
        (DeviceCommand::BindVertexArray { id: q.vao.vao }),
    ] + registration_commands(layout.fields@, layout.stride) + seq![
        (DeviceCommand::BindBuffer { target: BufferTarget::Array, id: 0u32 }),
        (DeviceCommand::BindVertexArray { id: 0u32 }),
        (DeviceCommand::GenBuffer { id: q.ibo.id }),
        (DeviceCommand::BindBuffer { target: BufferTarget::ElementArray, id: q.ibo.id }),
    ]
    &&& b.commands@.last() matches DeviceCommand::BufferData {
        target: BufferTarget::ElementArray,
        data,
    } && data@ == le_bytes_of(quad_indices())
}

impl Quad {
    /// Set a quad up: the triangle's sequence for the vertex side, then a
    /// fresh index buffer uploaded with the quad's six indices.
    pub fn new(dev: &mut Device, program: u32, vertices: Vec<u8>, layout: &VertexLayout) -> (q:
        Quad)
        requires
            old(dev).wf(),
            old(dev).next_buffer_id < u32::MAX - 1,
            old(dev).can_allocate_array(),
            program != 0,
        ensures
            final(dev).wf(),
            q.program == program,
            quad_built(*old(dev), *final(dev), q, vertices, *layout),
    {
        let ghost d0: Device = *old(dev);
        let vbo: ArrayBuffer = Buffer::new(dev);
        vbo.bind(dev);
        let ghost vertex_bytes: Seq<u8> = vertices@;
        vbo.buffer_static_data(dev, vertices);
        let vao = VertexArray::new(dev);
        vao.bind(dev);
        let ghost d5: Device = *dev;
        layout.register_attributes(dev);
        vbo.unbind(dev);
        vao.unbind(dev);
        let ghost d8: Device = *dev;
        let mut indices: Vec<u32> = Vec::new();
        indices.push(0);
        indices.push(1);
        indices.push(2);
        indices.push(0);
        indices.push(2);
        indices.push(3);
        proof {
            assert(indices@ =~= quad_indices());
        }
        let index_bytes = bytes_of_u32s(&indices);
        let ibo: ElementArrayBuffer = Buffer::new(dev);
        ibo.bind(dev);
        ibo.buffer_static_data(dev, index_bytes);
        proof {
            assert(d5.attribs_of(vao.vao) =~= Seq::empty());
            assert(d5.attribs_of(vao.vao) + registration_records(layout.fields@, layout.stride)
                =~= registration_records(layout.fields@, layout.stride));
            assert(dev.array_attribs@ =~= d0.array_attribs@.insert(
                vao.vao,
                registration_records(layout.fields@, layout.stride),
            ));
            assert(dev.buffer_data@ =~= d0.buffer_data@.insert(vbo.id, vertex_bytes).insert(
                ibo.id,
                le_bytes_of(quad_indices()),
            ));
            assert(dev.live_buffers@ =~= d0.live_buffers@.insert(vbo.id).insert(ibo.id));
            assert(dev.commands@.drop_last() =~= d0.commands@ + seq![
                (DeviceCommand::GenBuffer { id: vbo.id }),
                (DeviceCommand::BindBuffer { target: BufferTarget::Array, id: vbo.id }),
                (DeviceCommand::BufferData {
                    target: BufferTarget::Array,
                    data: vertices,
                }),
                (DeviceCommand::GenVertexArray { id: vao.vao }),
                (DeviceCommand::BindVertexArray { id: vao.vao }),
            ] + registration_commands(layout.fields@, layout.stride) + seq![
                (DeviceCommand::BindBuffer { target: BufferTarget::Array, id: 0u32 }),
                (DeviceCommand::BindVertexArray { id: 0u32 }),
                (DeviceCommand::GenBuffer { id: ibo.id }),
                (DeviceCommand::BindBuffer {
                    target: BufferTarget::ElementArray,
                    id: ibo.id,
                }),
            ]);
        }
        Quad { program, vbo, vao, ibo }
    }

    /// Draw the quad: bind the program, rebind the index buffer and the
    /// vertex array, and draw the six indexed vertices.
    pub fn render(&self, dev: &mut Device)
        requires
            old(dev).wf(),
            self.valid_in(*old(dev)),
        ensures
            final(dev).wf(),
            self.valid_in(*final(dev)),
            crate::device::buffer_state_unchanged(*old(dev), *final(dev)),
            crate::device::array_state_unchanged(*old(dev), *final(dev)),
            final(dev).bound_program == self.program,
            final(dev).bound_vertex_array == self.vao.vao,
            final(dev).bound_element_buffer == self.ibo.id,
            final(dev).bound_array_buffer == old(dev).bound_array_buffer,
            final(dev).commands@ == old(dev).commands@ + seq![
                (DeviceCommand::UseProgram { id: self.program }),
                (DeviceCommand::BindBuffer {
                    target: BufferTarget::ElementArray,
                    id: self.ibo.id,
                }),
                (DeviceCommand::BindVertexArray { id: self.vao.vao }),
                (DeviceCommand::DrawElements { count: 6usize }),
            ],
    {
        dev.use_program(self.program);
        self.ibo.bind(dev);
        self.vao.bind(dev);
        dev.draw_elements(6);
        proof {
            assert(dev.commands@ =~= old(dev).commands@ + seq![
                (DeviceCommand::UseProgram { id: self.program }),
                (DeviceCommand::BindBuffer {
                    target: BufferTarget::ElementArray,
                    id: self.ibo.id,
                }),
                (DeviceCommand::BindVertexArray { id: self.vao.vao }),
                (DeviceCommand::DrawElements { count: 6usize }),
            ]);
        }
    }

    /// Release all three handles, each exactly once; the wrapper is consumed.
    pub fn release(self, dev: &mut Device)
        requires
            old(dev).wf(),
            self.valid_in(*old(dev)),
            self.vbo.id != self.ibo.id,
        ensures
            final(dev).wf(),
            final(dev).buffers_created == old(dev).buffers_created,
            final(dev).buffers_deleted == old(dev).buffers_deleted + 2,
            final(dev).arrays_created == old(dev).arrays_created,
            final(dev).arrays_deleted == old(dev).arrays_deleted + 1,
            final(dev).live_buffers@ == old(dev).live_buffers@.remove(self.vbo.id).remove(
                self.ibo.id,
            ),
            final(dev).live_arrays@ == old(dev).live_arrays@.remove(self.vao.vao),
            final(dev).commands@ == old(dev).commands@ + seq![
                (DeviceCommand::DeleteBuffer { id: self.vbo.id }),
                (DeviceCommand::DeleteVertexArray { id: self.vao.vao }),
                (DeviceCommand::DeleteBuffer { id: self.ibo.id }),
            ],
    {
        self.vbo.release(dev);
        self.vao.release(dev);
        self.ibo.release(dev);
        proof {
            assert(dev.commands@ =~= old(dev).commands@ + seq![
                (DeviceCommand::DeleteBuffer { id: self.vbo.id }),
                (DeviceCommand::DeleteVertexArray { id: self.vao.vao }),
                (DeviceCommand::DeleteBuffer { id: self.ibo.id }),
            ]);
        }
    }
}

} // verus!
