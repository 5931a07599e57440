//! An explicit, single-threaded device context.
//!
//! The graphics driver keeps one ambient binding per buffer target, one
//! currently bound vertex array and one currently bound program, all shared
//! process-wide. [`Device`] reifies that ambient state as a value that every
//! operation takes explicitly, so the binding discipline can be stated in
//! contracts and checked. Each operation appends the corresponding driver
//! call to [`Device::commands`]; an unverified shell replays the recorded
//! commands against the real driver. The counters of created and deleted
//! handles make the context double as a counting fake device for tests.

use vstd::prelude::*;

verus! {

/// The two binding points a buffer can be fixed to: vertex-attribute data or
/// index (element) data.
#[derive(Clone, Copy, Debug, PartialEq, Eq, Structural)]
pub enum BufferTarget {
    Array,
    ElementArray,
}

impl BufferTarget {
    /// The opposite binding point.
    pub open spec fn other_spec(self) -> BufferTarget {
        match self {
            BufferTarget::Array => BufferTarget::ElementArray,
            BufferTarget::ElementArray => BufferTarget::Array,
        }
    }
}

/// One call handed to the graphics driver, in the order the core issued it.
/// Handle ids are the model's own; the shell that replays the commands maps
/// them to the driver's handles. A bind with id `0` clears the binding point.
#[derive(Debug, PartialEq)]
pub enum DeviceCommand {
    GenBuffer { id: u32 },
    BindBuffer { target: BufferTarget, id: u32 },
    BufferData { target: BufferTarget, data: Vec<u8> },
    DeleteBuffer { id: u32 },
    GenVertexArray { id: u32 },
    BindVertexArray { id: u32 },
    DeleteVertexArray { id: u32 },
    EnableVertexAttribArray { location: u32 },
    VertexAttribPointer { location: u32, components: u32, stride: usize, offset: usize },
    UseProgram { id: u32 },
    DrawArrays { count: usize },
    DrawElements { count: usize },
}

/// One attribute registration as a vertex array remembers it: slot `location`
/// holds `components` 32-bit float components per vertex, records are `stride`
/// bytes apart, and the slot's data starts `offset` bytes into each record.
#[derive(Clone, Copy, Debug, PartialEq, Eq, Structural)]
pub struct AttributeRecord {
    pub location: u32,
    pub components: u32,
    pub stride: usize,
    pub offset: usize,
}

/// The device context. Handles are handed out fresh, never reused, and each
/// live handle is owned by exactly one wrapper value; the ghost state tracks
/// which handles are live, what each buffer holds, and which attribute
/// registrations each vertex array has remembered.
pub struct Device {
    /// How many buffer handles were ever created.
    pub buffers_created: u64,
    /// How many buffer handles were deleted.
    pub buffers_deleted: u64,
    /// How many vertex-array handles were ever created.
    pub arrays_created: u64,
    /// How many vertex-array handles were deleted.
    pub arrays_deleted: u64,
    /// The next fresh buffer handle; starts at 1, since 0 means "unbound".
    pub next_buffer_id: u32,
    /// The next fresh vertex-array handle; starts at 1.
    pub next_array_id: u32,
    /// The buffer bound to the vertex-attribute target, 0 if none.
    pub bound_array_buffer: u32,
    /// The buffer bound to the index target, 0 if none.
    pub bound_element_buffer: u32,
    /// The vertex array currently bound, 0 if none.
    pub bound_vertex_array: u32,
    /// The program currently in use, 0 if none.
    pub bound_program: u32,
    /// The driver calls issued so far, oldest first.
    pub commands: Vec<DeviceCommand>,
    /// The buffer handles that are currently live.
    pub live_buffers: Ghost<Set<u32>>,
    /// The vertex-array handles that are currently live.
    pub live_arrays: Ghost<Set<u32>>,
    /// The bytes each live buffer holds.
    pub buffer_data: Ghost<Map<u32, Seq<u8>>>,
    /// The attribute registrations each live vertex array has remembered.
    pub array_attribs: Ghost<Map<u32, Seq<AttributeRecord>>>,
}

impl Device {
    /// The buffer bound to `target`.
    pub open spec fn binding(self, target: BufferTarget) -> u32 {
        match target {
            BufferTarget::Array => self.bound_array_buffer,
            BufferTarget::ElementArray => self.bound_element_buffer,
        }
    }

    /// The registrations the vertex array `id` has remembered, empty if none.
    pub open spec fn attribs_of(self, id: u32) -> Seq<AttributeRecord> {
        if self.array_attribs@.dom().contains(id) {
            self.array_attribs@[id]
        } else {
            Seq::empty()
        }
    }

    /// The bytes the buffer `id` holds, empty if none were uploaded.
    pub open spec fn data_of(self, id: u32) -> Seq<u8> {
        if self.buffer_data@.dom().contains(id) {
            self.buffer_data@[id]
        } else {
            Seq::empty()
        }
    }

    /// Well-formedness: handles below the fresh counter, counters consistent
    /// with the live sets, ghost maps keyed exactly by the live handles, and
    /// every non-zero binding live.
    pub open spec fn wf(self) -> bool {
        &&& 1 <= self.next_buffer_id
        &&& 1 <= self.next_array_id
        &&& self.live_buffers@.finite()
        &&& self.live_arrays@.finite()
        &&& forall|id: u32| self.live_buffers@.contains(id) ==> 1 <= id < self.next_buffer_id
        &&& forall|id: u32| self.live_arrays@.contains(id) ==> 1 <= id < self.next_array_id
        &&& self.buffers_created == self.next_buffer_id - 1
        &&& self.arrays_created == self.next_array_id - 1
        &&& self.live_buffers@.len() + self.buffers_deleted == self.buffers_created
        &&& self.live_arrays@.len() + self.arrays_deleted == self.arrays_created
        &&& self.buffer_data@.dom() == self.live_buffers@
        &&& self.array_attribs@.dom() == self.live_arrays@
        &&& (self.bound_array_buffer == 0 || self.live_buffers@.contains(self.bound_array_buffer))
        &&& (self.bound_element_buffer == 0 || self.live_buffers@.contains(
            self.bound_element_buffer,
        ))
        &&& (self.bound_vertex_array == 0 || self.live_arrays@.contains(self.bound_vertex_array))
    }

    /// A fresh buffer handle can still be drawn.
    pub open spec fn can_allocate_buffer(self) -> bool {
        self.next_buffer_id < u32::MAX
    }

    /// A fresh vertex-array handle can still be drawn.
    pub open spec fn can_allocate_array(self) -> bool {
        self.next_array_id < u32::MAX
    }

    /// A context with no handles, no bindings and no recorded commands.
    pub open spec fn is_initial(self) -> bool {
        &&& self.buffers_created == 0
        &&& self.buffers_deleted == 0
        &&& self.arrays_created == 0
        &&& self.arrays_deleted == 0
        &&& self.next_buffer_id == 1
        &&& self.next_array_id == 1
        &&& self.bound_array_buffer == 0
        &&& self.bound_element_buffer == 0
        &&& self.bound_vertex_array == 0
        &&& self.bound_program == 0
        &&& self.commands@ == Seq::<DeviceCommand>::empty()
        &&& self.live_buffers@ == Set::<u32>::empty()
        &&& self.live_arrays@ == Set::<u32>::empty()
        &&& self.buffer_data@ == Map::<u32, Seq<u8>>::empty()
        &&& self.array_attribs@ == Map::<u32, Seq<AttributeRecord>>::empty()
    }

    pub fn new() -> (d: Device)
        ensures
            d.wf(),
            d.is_initial(),
    {
        Device {
            buffers_created: 0,
            buffers_deleted: 0,
            arrays_created: 0,
            arrays_deleted: 0,
            next_buffer_id: 1,
            next_array_id: 1,
            bound_array_buffer: 0,
            bound_element_buffer: 0,
            bound_vertex_array: 0,
            bound_program: 0,
            commands: Vec::new(),
            live_buffers: Ghost(Set::empty()),
            live_arrays: Ghost(Set::empty()),
            buffer_data: Ghost(Map::empty()),
            array_attribs: Ghost(Map::empty()),
        }
    }
}

/// Nothing about buffers changed: counters, freshness, liveness, contents.
pub open spec fn buffer_state_unchanged(a: Device, b: Device) -> bool {
    &&& b.buffers_created == a.buffers_created
    &&& b.buffers_deleted == a.buffers_deleted
    &&& b.next_buffer_id == a.next_buffer_id
    &&& b.live_buffers@ == a.live_buffers@
    &&& b.buffer_data@ == a.buffer_data@
}

/// Nothing about vertex arrays changed: counters, freshness, liveness,
/// remembered registrations.
pub open spec fn array_state_unchanged(a: Device, b: Device) -> bool {
    &&& b.arrays_created == a.arrays_created
    &&& b.arrays_deleted == a.arrays_deleted
    &&& b.next_array_id == a.next_array_id
    &&& b.live_arrays@ == a.live_arrays@
    &&& b.array_attribs@ == a.array_attribs@
}

/// `b` is `a` after exactly one attribute registration: the slot was enabled
/// and described, and the bound vertex array remembered the registration;
/// nothing else moved.
pub open spec fn attribute_registered(
    a: Device,
    b: Device,
    location: u32,
    components: u32,
    stride: usize,
    offset: usize,
) -> bool {
    &&& b.wf()
    &&& buffer_state_unchanged(a, b)
    &&& bindings_unchanged(a, b)
    &&& b.arrays_created == a.arrays_created
    &&& b.arrays_deleted == a.arrays_deleted
    &&& b.next_array_id == a.next_array_id
    &&& b.live_arrays@ == a.live_arrays@
    &&& b.array_attribs@ == a.array_attribs@.insert(
        a.bound_vertex_array,
        a.attribs_of(a.bound_vertex_array).push(
            (AttributeRecord { location, components, stride, offset }),
        ),
    )
    &&& b.commands@ == a.commands@.push(
        (DeviceCommand::EnableVertexAttribArray { location }),
    ).push((DeviceCommand::VertexAttribPointer { location, components, stride, offset }))
}

/// No binding point changed.
pub open spec fn bindings_unchanged(a: Device, b: Device) -> bool {
    &&& b.bound_array_buffer == a.bound_array_buffer
    &&& b.bound_element_buffer == a.bound_element_buffer
    &&& b.bound_vertex_array == a.bound_vertex_array
    &&& b.bound_program == a.bound_program
}

impl Device {
    /// Create one buffer handle: fresh, live, holding no bytes yet.
    pub(crate) fn gen_buffer(&mut self) -> (id: u32)
        requires
            old(self).wf(),
            old(self).can_allocate_buffer(),
        ensures
            final(self).wf(),
            id == old(self).next_buffer_id,
            1 <= id,
            !old(self).live_buffers@.contains(id),
            final(self).next_buffer_id == old(self).next_buffer_id + 1,
            final(self).buffers_created == old(self).buffers_created + 1,
            final(self).buffers_deleted == old(self).buffers_deleted,
            final(self).live_buffers@ == old(self).live_buffers@.insert(id),
            final(self).buffer_data@ == old(self).buffer_data@.insert(id, Seq::<u8>::empty()),
            array_state_unchanged(*old(self), *final(self)),
            bindings_unchanged(*old(self), *final(self)),
            final(self).commands@ == old(self).commands@.push((DeviceCommand::GenBuffer { id })),
    {
        let id = self.next_buffer_id;
        self.next_buffer_id = self.next_buffer_id + 1;
        self.buffers_created = self.buffers_created + 1;
        self.live_buffers = Ghost(self.live_buffers@.insert(id));
        self.buffer_data = Ghost(self.buffer_data@.insert(id, Seq::empty()));
        self.commands.push(DeviceCommand::GenBuffer { id });
        proof {
            assert(self.buffer_data@.dom() =~= self.live_buffers@);
        }
        id
    }

    /// Bind the live buffer `id` to `target`, or clear the point with 0.
    /// Binding one target never affects the other target's binding.
    pub(crate) fn bind_buffer(&mut self, target: BufferTarget, id: u32)
        requires
            old(self).wf(),
            id == 0 || old(self).live_buffers@.contains(id),
        ensures
            final(self).wf(),
            buffer_state_unchanged(*old(self), *final(self)),
            array_state_unchanged(*old(self), *final(self)),
            final(self).binding(target) == id,
            final(self).binding(target.other_spec()) == old(self).binding(target.other_spec()),
            final(self).bound_vertex_array == old(self).bound_vertex_array,
            final(self).bound_program == old(self).bound_program,
            final(self).commands@ == old(self).commands@.push(
                (DeviceCommand::BindBuffer { target, id }),
            ),
    {
        match target {
            BufferTarget::Array => {
                self.bound_array_buffer = id;
            },
            BufferTarget::ElementArray => {
                self.bound_element_buffer = id;
            },
        }
        self.commands.push(DeviceCommand::BindBuffer { target, id });
    }

    /// Replace the contents of the buffer bound to `target` with `data`,
    /// as a one-time static upload.
    pub(crate) fn buffer_data(&mut self, target: BufferTarget, data: Vec<u8>)
        requires
            old(self).wf(),
            old(self).binding(target) != 0,
        ensures
            final(self).wf(),
            final(self).buffer_data@ == old(self).buffer_data@.insert(
                old(self).binding(target),
                data@,
            ),
            final(self).buffers_created == old(self).buffers_created,
            final(self).buffers_deleted == old(self).buffers_deleted,
            final(self).next_buffer_id == old(self).next_buffer_id,
            final(self).live_buffers@ == old(self).live_buffers@,
            array_state_unchanged(*old(self), *final(self)),
            bindings_unchanged(*old(self), *final(self)),
            final(self).commands@ == old(self).commands@.push(
                (DeviceCommand::BufferData { target, data: data }),
            ),
    {
        proof {
            assert(self.live_buffers@.contains(self.binding(target)));
        }
        let ghost bound: u32 = self.binding(target);
        let ghost bytes: Seq<u8> = data@;
        self.buffer_data = Ghost(self.buffer_data@.insert(bound, bytes));
        self.commands.push(DeviceCommand::BufferData { target, data });
        proof {
            assert(self.buffer_data@.dom() =~= self.live_buffers@);
        }
    }

    /// Delete the live buffer `id`: it leaves the live set, its contents are
    /// gone, and any binding point it occupied is cleared.
    pub(crate) fn delete_buffer(&mut self, id: u32)
        requires
            old(self).wf(),
            old(self).live_buffers@.contains(id),
        ensures
            final(self).wf(),
            final(self).buffers_created == old(self).buffers_created,
            final(self).buffers_deleted == old(self).buffers_deleted + 1,
            final(self).next_buffer_id == old(self).next_buffer_id,
            final(self).live_buffers@ == old(self).live_buffers@.remove(id),
            final(self).buffer_data@ == old(self).buffer_data@.remove(id),
            array_state_unchanged(*old(self), *final(self)),
            final(self).bound_array_buffer == (if old(self).bound_array_buffer == id {
                0u32
            } else {
                old(self).bound_array_buffer
            }),
            final(self).bound_element_buffer == (if old(self).bound_element_buffer == id {
                0u32
            } else {
                old(self).bound_element_buffer
            }),
            final(self).bound_vertex_array == old(self).bound_vertex_array,
            final(self).bound_program == old(self).bound_program,
            final(self).commands@ == old(self).commands@.push((DeviceCommand::DeleteBuffer { id })),
    {
        self.buffers_deleted = self.buffers_deleted + 1;
        self.live_buffers = Ghost(self.live_buffers@.remove(id));
        self.buffer_data = Ghost(self.buffer_data@.remove(id));
        if self.bound_array_buffer == id {
            self.bound_array_buffer = 0;
        }
        if self.bound_element_buffer == id {
            self.bound_element_buffer = 0;
        }
        self.commands.push(DeviceCommand::DeleteBuffer { id });
        proof {
            assert(self.buffer_data@.dom() =~= self.live_buffers@);
        }
    }

    /// Create one vertex-array handle: fresh, live, with no registrations.
    pub(crate) fn gen_vertex_array(&mut self) -> (id: u32)
        requires
            old(self).wf(),
            old(self).can_allocate_array(),
        ensures
            final(self).wf(),
            id == old(self).next_array_id,
            1 <= id,
            !old(self).live_arrays@.contains(id),
            final(self).next_array_id == old(self).next_array_id + 1,
            final(self).arrays_created == old(self).arrays_created + 1,
            final(self).arrays_deleted == old(self).arrays_deleted,
            final(self).live_arrays@ == old(self).live_arrays@.insert(id),
            final(self).array_attribs@ == old(self).array_attribs@.insert(
                id,
                Seq::<AttributeRecord>::empty(),
            ),
            buffer_state_unchanged(*old(self), *final(self)),
            bindings_unchanged(*old(self), *final(self)),
            final(self).commands@ == old(self).commands@.push(
                (DeviceCommand::GenVertexArray { id }),
            ),
    {
        let id = self.next_array_id;
        self.next_array_id = self.next_array_id + 1;
        self.arrays_created = self.arrays_created + 1;
        self.live_arrays = Ghost(self.live_arrays@.insert(id));
        self.array_attribs = Ghost(self.array_attribs@.insert(id, Seq::empty()));
        self.commands.push(DeviceCommand::GenVertexArray { id });
        proof {
            assert(self.array_attribs@.dom() =~= self.live_arrays@);
        }
        id
    }

    /// Bind the live vertex array `id`, or clear the binding with 0.
    pub(crate) fn bind_vertex_array(&mut self, id: u32)
        requires
            old(self).wf(),
            id == 0 || old(self).live_arrays@.contains(id),
        ensures
            final(self).wf(),
            buffer_state_unchanged(*old(self), *final(self)),
            array_state_unchanged(*old(self), *final(self)),
            final(self).bound_vertex_array == id,
            final(self).bound_array_buffer == old(self).bound_array_buffer,
            final(self).bound_element_buffer == old(self).bound_element_buffer,
            final(self).bound_program == old(self).bound_program,
            final(self).commands@ == old(self).commands@.push(
                (DeviceCommand::BindVertexArray { id }),
            ),
    {
        self.bound_vertex_array = id;
        self.commands.push(DeviceCommand::BindVertexArray { id });
    }

    /// Delete the live vertex array `id`: it leaves the live set, its
    /// remembered registrations are gone, and the binding is cleared if it
    /// was bound.
    pub(crate) fn delete_vertex_array(&mut self, id: u32)
        requires
            old(self).wf(),
            old(self).live_arrays@.contains(id),
        ensures
            final(self).wf(),
            final(self).arrays_created == old(self).arrays_created,
            final(self).arrays_deleted == old(self).arrays_deleted + 1,
            final(self).next_array_id == old(self).next_array_id,
            final(self).live_arrays@ == old(self).live_arrays@.remove(id),
            final(self).array_attribs@ == old(self).array_attribs@.remove(id),
            buffer_state_unchanged(*old(self), *final(self)),
            final(self).bound_vertex_array == (if old(self).bound_vertex_array == id {
                0u32
            } else {
                old(self).bound_vertex_array
            }),
            final(self).bound_array_buffer == old(self).bound_array_buffer,
            final(self).bound_element_buffer == old(self).bound_element_buffer,
            final(self).bound_program == old(self).bound_program,
            final(self).commands@ == old(self).commands@.push(
                (DeviceCommand::DeleteVertexArray { id }),
            ),
    {
        self.arrays_deleted = self.arrays_deleted + 1;
        self.live_arrays = Ghost(self.live_arrays@.remove(id));
        self.array_attribs = Ghost(self.array_attribs@.remove(id));
        if self.bound_vertex_array == id {
            self.bound_vertex_array = 0;
        }
        self.commands.push(DeviceCommand::DeleteVertexArray { id });
        proof {
            assert(self.array_attribs@.dom() =~= self.live_arrays@);
        }
    }

    /// Mark slot `location` active and describe it to the device: `components`
    /// 32-bit float components, not normalized, `stride` bytes between
    /// records, starting `offset` bytes into each record. The bound vertex
    /// array remembers the registration; the attribute data is read from the
    /// buffer bound to the vertex-attribute target, which is why both must be
    /// bound here.
    pub(crate) fn register_attribute(
        &mut self,
        location: u32,
        components: u32,
        stride: usize,
        offset: usize,
    )
        requires
            old(self).wf(),
            old(self).bound_vertex_array != 0,
            old(self).bound_array_buffer != 0,
            1 <= components <= 4,
        ensures
            final(self).wf(),
            buffer_state_unchanged(*old(self), *final(self)),
            bindings_unchanged(*old(self), *final(self)),
            final(self).arrays_created == old(self).arrays_created,
            final(self).arrays_deleted == old(self).arrays_deleted,
            final(self).next_array_id == old(self).next_array_id,
            final(self).live_arrays@ == old(self).live_arrays@,
            final(self).array_attribs@ == old(self).array_attribs@.insert(
                old(self).bound_vertex_array,
                old(self).attribs_of(old(self).bound_vertex_array).push(
                    (AttributeRecord { location, components, stride, offset }),
                ),
            ),
            final(self).commands@ == old(self).commands@.push(
                (DeviceCommand::EnableVertexAttribArray { location }),
            ).push((DeviceCommand::VertexAttribPointer { location, components, stride, offset })),
    {
        proof {
            assert(self.live_arrays@.contains(self.bound_vertex_array));
        }
        let ghost vao: u32 = self.bound_vertex_array;
        let ghost entry = (AttributeRecord { location, components, stride, offset });
        self.array_attribs = Ghost(self.array_attribs@.insert(vao, self.attribs_of(vao).push(entry)));
        self.commands.push(DeviceCommand::EnableVertexAttribArray { location });
        self.commands.push(DeviceCommand::VertexAttribPointer { location, components, stride, offset });
        proof {
            assert(self.array_attribs@.dom() =~= self.live_arrays@);
        }
    }

    /// Put the opaque, already-linked program `id` in use for the draw calls
    /// that follow. The program itself is an excluded collaborator: this core
    /// only binds its handle.
    pub(crate) fn use_program(&mut self, id: u32)
        requires
            old(self).wf(),
        ensures
            final(self).wf(),
            buffer_state_unchanged(*old(self), *final(self)),
            array_state_unchanged(*old(self), *final(self)),
            final(self).bound_program == id,
            final(self).bound_array_buffer == old(self).bound_array_buffer,
            final(self).bound_element_buffer == old(self).bound_element_buffer,
            final(self).bound_vertex_array == old(self).bound_vertex_array,
            final(self).commands@ == old(self).commands@.push((DeviceCommand::UseProgram { id })),
    {
        self.bound_program = id;
        self.commands.push(DeviceCommand::UseProgram { id });
    }

    /// Draw `count` vertices from the bound vertex array's configuration.
    pub(crate) fn draw_arrays(&mut self, count: usize)
        requires
            old(self).wf(),
            old(self).bound_vertex_array != 0,
            old(self).bound_program != 0,
        ensures
            final(self).wf(),
            buffer_state_unchanged(*old(self), *final(self)),
            array_state_unchanged(*old(self), *final(self)),
            bindings_unchanged(*old(self), *final(self)),
            final(self).commands@ == old(self).commands@.push(
                (DeviceCommand::DrawArrays { count }),
            ),
    {
        self.commands.push(DeviceCommand::DrawArrays { count });
    }

    /// Draw `count` indexed vertices, reading indices from the buffer bound
    /// to the index target.
    pub(crate) fn draw_elements(&mut self, count: usize)
        requires
            old(self).wf(),
            old(self).bound_vertex_array != 0,
            old(self).bound_element_buffer != 0,
            old(self).bound_program != 0,
        ensures
            final(self).wf(),
            buffer_state_unchanged(*old(self), *final(self)),
            array_state_unchanged(*old(self), *final(self)),
            bindings_unchanged(*old(self), *final(self)),
            final(self).commands@ == old(self).commands@.push(
                (DeviceCommand::DrawElements { count }),
            ),
    {
        self.commands.push(DeviceCommand::DrawElements { count });
    }

    /// Hand out the commands recorded so far and start a fresh log. The shell
    /// calls this to replay the core's work against the real driver.
    pub fn take_commands(&mut self) -> (cs: Vec<DeviceCommand>)
        requires
            old(self).wf(),
        ensures
            final(self).wf(),
            cs@ == old(self).commands@,
            final(self).commands@ == Seq::<DeviceCommand>::empty(),
            buffer_state_unchanged(*old(self), *final(self)),
            array_state_unchanged(*old(self), *final(self)),
            bindings_unchanged(*old(self), *final(self)),
    {
        let mut cs: Vec<DeviceCommand> = Vec::new();
        core::mem::swap(&mut cs, &mut self.commands);
        cs
    }
}

} // verus!
