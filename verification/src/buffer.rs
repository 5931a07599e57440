//! Typed GPU buffers and vertex array objects.
//!
//! A [`Buffer`] owns exactly one device buffer handle and is tagged at the
//! type level with the binding target it is for, so a vertex-attribute buffer
//! can never be passed where an index buffer is required: mixing the two is a
//! type error, not a run-time check. A [`VertexArray`] owns one vertex-array
//! handle. Each wrapper is released exactly once, by consuming it.

use vstd::prelude::*;

use crate::device::array_state_unchanged;
use crate::device::bindings_unchanged;
use crate::device::buffer_state_unchanged;
use crate::device::BufferTarget;
use crate::device::Device;
use crate::device::DeviceCommand;

verus! {

/// A compile-time tag naming the binding target a buffer type is fixed to.
pub trait BufferType {
    /// The target this tag stands for.
    spec fn target_spec() -> BufferTarget;

    /// The target as a run-time value.
    fn target() -> (t: BufferTarget)
        ensures
            t == Self::target_spec(),
    ;
}

/// Tag for buffers of vertex-attribute data.
pub struct BufferTypeArray;

impl BufferType for BufferTypeArray {
    open spec fn target_spec() -> BufferTarget {
        BufferTarget::Array
    }

    fn target() -> (t: BufferTarget) {
        BufferTarget::Array
    }
}

/// Tag for buffers of index (element) data.
pub struct BufferTypeElementArray;

impl BufferType for BufferTypeElementArray {
    open spec fn target_spec() -> BufferTarget {
        BufferTarget::ElementArray
    }

    fn target() -> (t: BufferTarget) {
        BufferTarget::ElementArray
    }
}

/// An owned device buffer, fixed to the target `B` names. The handle is owned
/// exclusively: the only way to give it up is [`Buffer::release`], which
/// consumes the wrapper, so the handle is deleted at most once.
pub struct Buffer<B: BufferType> {
    /// The handle this wrapper owns.
    pub id: u32,
    pub _buffer_marker: core::marker::PhantomData<B>,
}

pub type ArrayBuffer = Buffer<BufferTypeArray>;

pub type ElementArrayBuffer = Buffer<BufferTypeElementArray>;

pub type VertexBufferObject = ArrayBuffer;

pub type IndexBufferObject = ElementArrayBuffer;

impl<B: BufferType> Buffer<B> {
    /// The wrapped handle is live in `d`.
    pub open spec fn live_in(self, d: Device) -> bool {
        d.live_buffers@.contains(self.id)
    }

    /// Acquire one fresh buffer handle.
    pub fn new(dev: &mut Device) -> (b: Buffer<B>)
        requires
            old(dev).wf(),
            old(dev).can_allocate_buffer(),
        ensures
            final(dev).wf(),
            b.live_in(*final(dev)),
            b.id == old(dev).next_buffer_id,
            1 <= b.id,
            !old(dev).live_buffers@.contains(b.id),
            final(dev).buffers_created == old(dev).buffers_created + 1,
            final(dev).buffers_deleted == old(dev).buffers_deleted,
            final(dev).next_buffer_id == old(dev).next_buffer_id + 1,
            final(dev).live_buffers@ == old(dev).live_buffers@.insert(b.id),
            final(dev).buffer_data@ == old(dev).buffer_data@.insert(b.id, Seq::<u8>::empty()),
            array_state_unchanged(*old(dev), *final(dev)),
            bindings_unchanged(*old(dev), *final(dev)),
            final(dev).commands@ == old(dev).commands@.push(
                (DeviceCommand::GenBuffer { id: b.id }),
            ),
    {
        let id = dev.gen_buffer();
        Buffer { id, _buffer_marker: core::marker::PhantomData }
    }

    /// Activate this buffer on its target. Binding one target never affects
    /// the other target's current binding, nor the bound vertex array.
    pub fn bind(&self, dev: &mut Device)
        requires
            old(dev).wf(),
            self.live_in(*old(dev)),
        ensures
            final(dev).wf(),
            buffer_state_unchanged(*old(dev), *final(dev)),
            array_state_unchanged(*old(dev), *final(dev)),
            final(dev).binding(B::target_spec()) == self.id,
            final(dev).binding(B::target_spec().other_spec()) == old(dev).binding(
                B::target_spec().other_spec(),
            ),
            final(dev).bound_vertex_array == old(dev).bound_vertex_array,
            final(dev).bound_program == old(dev).bound_program,
            final(dev).commands@ == old(dev).commands@.push(
                (DeviceCommand::BindBuffer { target: B::target_spec(), id: self.id }),
            ),
    {
        let t = B::target();
        dev.bind_buffer(t, self.id);
    }

    /// Deactivate whatever buffer is bound on this buffer's target.
    pub fn unbind(&self, dev: &mut Device)
        requires
            old(dev).wf(),
        ensures
            final(dev).wf(),
            buffer_state_unchanged(*old(dev), *final(dev)),
            array_state_unchanged(*old(dev), *final(dev)),
            final(dev).binding(B::target_spec()) == 0,
            final(dev).binding(B::target_spec().other_spec()) == old(dev).binding(
                B::target_spec().other_spec(),
            ),
            final(dev).bound_vertex_array == old(dev).bound_vertex_array,
            final(dev).bound_program == old(dev).bound_program,
            final(dev).commands@ == old(dev).commands@.push(
                (DeviceCommand::BindBuffer { target: B::target_spec(), id: 0u32 }),
            ),
    {
        let t = B::target();
        dev.bind_buffer(t, 0);
    }

    /// Replace this buffer's entire contents with a byte-exact copy of
    /// `data`, hinting the device that the contents will not change after the
    /// upload. The buffer must be bound on its target when this is called.
    pub fn buffer_static_data(&self, dev: &mut Device, data: Vec<u8>)
        requires
            old(dev).wf(),
            self.live_in(*old(dev)),
            old(dev).binding(B::target_spec()) == self.id,
        ensures
            final(dev).wf(),
            final(dev).buffer_data@ == old(dev).buffer_data@.insert(self.id, data@),
            final(dev).data_of(self.id) == data@,
            final(dev).buffers_created == old(dev).buffers_created,
            final(dev).buffers_deleted == old(dev).buffers_deleted,
            final(dev).next_buffer_id == old(dev).next_buffer_id,
            final(dev).live_buffers@ == old(dev).live_buffers@,
            array_state_unchanged(*old(dev), *final(dev)),
            bindings_unchanged(*old(dev), *final(dev)),
            final(dev).commands@ == old(dev).commands@.push(
                (DeviceCommand::BufferData { target: B::target_spec(), data: data }),
            ),
    {
        proof {
            assert(self.id != 0);
        }
        let t = B::target();
        dev.buffer_data(t, data);
    }

    /// Give the handle back to the device, exactly once: the wrapper is
    /// consumed. Any binding point still holding this buffer is cleared.
    pub fn release(self, dev: &mut Device)
        requires
            old(dev).wf(),
            self.live_in(*old(dev)),
        ensures
            final(dev).wf(),
            final(dev).buffers_created == old(dev).buffers_created,
            final(dev).buffers_deleted == old(dev).buffers_deleted + 1,
            final(dev).next_buffer_id == old(dev).next_buffer_id,
            final(dev).live_buffers@ == old(dev).live_buffers@.remove(self.id),
            final(dev).buffer_data@ == old(dev).buffer_data@.remove(self.id),
            array_state_unchanged(*old(dev), *final(dev)),
            final(dev).bound_array_buffer == (if old(dev).bound_array_buffer == self.id {
                0u32
            } else {
                old(dev).bound_array_buffer
            }),
            final(dev).bound_element_buffer == (if old(dev).bound_element_buffer == self.id {
                0u32
            } else {
                old(dev).bound_element_buffer
            }),
            final(dev).bound_vertex_array == old(dev).bound_vertex_array,
            final(dev).bound_program == old(dev).bound_program,
            final(dev).commands@ == old(dev).commands@.push(
                (DeviceCommand::DeleteBuffer { id: self.id }),
            ),
    {
        dev.delete_buffer(self.id);
    }
}

/// An owned vertex array object: one device handle that, once attribute
/// registrations are made while it is bound, remembers that configuration for
/// the lifetime of the handle.
pub struct VertexArray {
    /// The handle this wrapper owns.
    pub vao: u32,
}

impl VertexArray {
    /// The wrapped handle is live in `d`.
    pub open spec fn live_in(self, d: Device) -> bool {
        d.live_arrays@.contains(self.vao)
    }

    /// Acquire one fresh vertex-array handle.
    pub fn new(dev: &mut Device) -> (v: VertexArray)
        requires
            old(dev).wf(),
            old(dev).can_allocate_array(),
        ensures
            final(dev).wf(),
            v.live_in(*final(dev)),
            v.vao == old(dev).next_array_id,
            1 <= v.vao,
            !old(dev).live_arrays@.contains(v.vao),
            final(dev).arrays_created == old(dev).arrays_created + 1,
            final(dev).arrays_deleted == old(dev).arrays_deleted,
            final(dev).next_array_id == old(dev).next_array_id + 1,
            final(dev).live_arrays@ == old(dev).live_arrays@.insert(v.vao),
            final(dev).array_attribs@ == old(dev).array_attribs@.insert(
                v.vao,
                Seq::<crate::device::AttributeRecord>::empty(),
            ),
            final(dev).attribs_of(v.vao) == Seq::<crate::device::AttributeRecord>::empty(),
            buffer_state_unchanged(*old(dev), *final(dev)),
            bindings_unchanged(*old(dev), *final(dev)),
            final(dev).commands@ == old(dev).commands@.push(
                (DeviceCommand::GenVertexArray { id: v.vao }),
            ),
    {
        let vao = dev.gen_vertex_array();
        VertexArray { vao }
    }

    /// Make this the currently bound vertex array.
    pub fn bind(&self, dev: &mut Device)
        requires
            old(dev).wf(),
            self.live_in(*old(dev)),
        ensures
            final(dev).wf(),
            buffer_state_unchanged(*old(dev), *final(dev)),
            array_state_unchanged(*old(dev), *final(dev)),
            final(dev).bound_vertex_array == self.vao,
            final(dev).bound_array_buffer == old(dev).bound_array_buffer,
            final(dev).bound_element_buffer == old(dev).bound_element_buffer,
            final(dev).bound_program == old(dev).bound_program,
            final(dev).commands@ == old(dev).commands@.push(
                (DeviceCommand::BindVertexArray { id: self.vao }),
            ),
    {
        dev.bind_vertex_array(self.vao);
    }

    /// Clear the vertex-array binding.
    pub fn unbind(&self, dev: &mut Device)
        requires
            old(dev).wf(),
        ensures
            final(dev).wf(),
            buffer_state_unchanged(*old(dev), *final(dev)),
            array_state_unchanged(*old(dev), *final(dev)),
            final(dev).bound_vertex_array == 0,
            final(dev).bound_array_buffer == old(dev).bound_array_buffer,
            final(dev).bound_element_buffer == old(dev).bound_element_buffer,
            final(dev).bound_program == old(dev).bound_program,
            final(dev).commands@ == old(dev).commands@.push(
                (DeviceCommand::BindVertexArray { id: 0u32 }),
            ),
    {
        dev.bind_vertex_array(0);
    }

    /// Give the handle back to the device, exactly once: the wrapper is
    /// consumed. The binding is cleared if this array was bound.
    pub fn release(self, dev: &mut Device)
        requires
            old(dev).wf(),
            self.live_in(*old(dev)),
        ensures
            final(dev).wf(),
            final(dev).arrays_created == old(dev).arrays_created,
            final(dev).arrays_deleted == old(dev).arrays_deleted + 1,
            final(dev).next_array_id == old(dev).next_array_id,
            final(dev).live_arrays@ == old(dev).live_arrays@.remove(self.vao),
            final(dev).array_attribs@ == old(dev).array_attribs@.remove(self.vao),
            buffer_state_unchanged(*old(dev), *final(dev)),
            final(dev).bound_vertex_array == (if old(dev).bound_vertex_array == self.vao {
                0u32
            } else {
                old(dev).bound_vertex_array
            }),
            final(dev).bound_array_buffer == old(dev).bound_array_buffer,
            final(dev).bound_element_buffer == old(dev).bound_element_buffer,
            final(dev).bound_program == old(dev).bound_program,
            final(dev).commands@ == old(dev).commands@.push(
                (DeviceCommand::DeleteVertexArray { id: self.vao }),
            ),
    {
        dev.delete_vertex_array(self.vao);
    }
}

/// The four bytes of one 32-bit index, least-significant byte first: the
/// order an index occupies in an index buffer on this library's
/// little-endian targets.
pub open spec fn u32_le_bytes(x: u32) -> Seq<u8> {
    seq![
        (x & 0xff) as u8,
        ((x >> 8) & 0xff) as u8,
        ((x >> 16) & 0xff) as u8,
        ((x >> 24) & 0xff) as u8,
    ]
}

/// The byte image of a whole index sequence, element by element.
pub open spec fn le_bytes_of(values: Seq<u32>) -> Seq<u8>
    decreases values.len(),
{
    if values.len() == 0 {
        Seq::empty()
    } else {
        le_bytes_of(values.drop_last()) + u32_le_bytes(values.last())
    }
}

/// Pack indices into the bytes an index buffer holds: four bytes per index,
/// least-significant first, in order.
pub fn bytes_of_u32s(values: &Vec<u32>) -> (r: Vec<u8>)
    ensures
        r@ == le_bytes_of(values@),
        r@.len() == 4 * values@.len(),
{
    let mut r: Vec<u8> = Vec::new();
    let mut i: usize = 0;
    proof {
        assert(values@.take(0) =~= Seq::<u32>::empty());
        assert(r@ =~= le_bytes_of(values@.take(0)));
    }
    while i < values.len()
        invariant
            i <= values@.len(),
            r@ == le_bytes_of(values@.take(i as int)),
            r@.len() == 4 * i,
        decreases values@.len() - i,
    {
        let x = values[i];
        proof {
            assert(x & 0xff < 256) by (bit_vector);
            assert((x >> 8) & 0xff < 256) by (bit_vector);
            assert((x >> 16) & 0xff < 256) by (bit_vector);
            assert((x >> 24) & 0xff < 256) by (bit_vector);
        }
        r.push((x & 0xff) as u8);
        r.push(((x >> 8) & 0xff) as u8);
        r.push(((x >> 16) & 0xff) as u8);
        r.push(((x >> 24) & 0xff) as u8);
        proof {
            let fi = i as int;
            assert(values@.take(fi + 1).drop_last() =~= values@.take(fi));
            assert(values@.take(fi + 1).last() == values@[fi]);
            assert(r@ =~= le_bytes_of(values@.take(fi + 1)));
        }
        i = i + 1;
    }
    proof {
        assert(values@.take(values@.len() as int) =~= values@);
    }
    r
}

/// Law: acquiring a buffer handle and immediately releasing it leaks nothing
/// and double-releases nothing. Exactly one create and one delete are issued,
/// and the live handles, the stored contents and every binding are exactly
/// what they were.
pub fn buffer_allocate_release_balanced<B: BufferType>(dev: &mut Device)
    requires
        old(dev).wf(),
        old(dev).can_allocate_buffer(),
    ensures
        final(dev).wf(),
        final(dev).buffers_created == old(dev).buffers_created + 1,
        final(dev).buffers_deleted == old(dev).buffers_deleted + 1,
        final(dev).live_buffers@ == old(dev).live_buffers@,
        final(dev).buffer_data@ == old(dev).buffer_data@,
        array_state_unchanged(*old(dev), *final(dev)),
        bindings_unchanged(*old(dev), *final(dev)),
        final(dev).commands@ == old(dev).commands@.push(
            (DeviceCommand::GenBuffer { id: old(dev).next_buffer_id }),
        ).push((DeviceCommand::DeleteBuffer { id: old(dev).next_buffer_id })),
{
    let b = Buffer::<B>::new(dev);
    let ghost id = b.id;
    b.release(dev);
    proof {
        assert(dev.live_buffers@ =~= old(dev).live_buffers@);
        assert(dev.buffer_data@ =~= old(dev).buffer_data@);
    }
}

/// Law: acquiring a vertex-array handle and immediately releasing it leaks
/// nothing and double-releases nothing, exactly as for buffers.
pub fn vertex_array_allocate_release_balanced(dev: &mut Device)
    requires
        old(dev).wf(),
        old(dev).can_allocate_array(),
    ensures
        final(dev).wf(),
        final(dev).arrays_created == old(dev).arrays_created + 1,
        final(dev).arrays_deleted == old(dev).arrays_deleted + 1,
        final(dev).live_arrays@ == old(dev).live_arrays@,
        final(dev).array_attribs@ == old(dev).array_attribs@,
        buffer_state_unchanged(*old(dev), *final(dev)),
        bindings_unchanged(*old(dev), *final(dev)),
        final(dev).commands@ == old(dev).commands@.push(
            (DeviceCommand::GenVertexArray { id: old(dev).next_array_id }),
        ).push((DeviceCommand::DeleteVertexArray { id: old(dev).next_array_id })),
{
    let v = VertexArray::new(dev);
    let ghost id = v.vao;
    v.release(dev);
    proof {
        assert(dev.live_arrays@ =~= old(dev).live_arrays@);
        assert(dev.array_attribs@ =~= old(dev).array_attribs@);
    }
}

} // verus!
