use render_core::BufferTarget;
use render_core::Device;
use render_core::DeviceCommand;
use render_core::Quad;
use render_core::Triangle;
use render_core::Vertex;

#[test]
fn registration_follows_the_vertex_layout() {
    let mut dev = Device::new();
    let vbo: render_core::ArrayBuffer = render_core::Buffer::new(&mut dev);
    vbo.bind(&mut dev);
    let vao = render_core::VertexArray::new(&mut dev);
    vao.bind(&mut dev);
    dev.take_commands();

    Vertex::<f32>::vertex_attrib_pointers(&mut dev);
    assert_eq!(
        dev.take_commands(),
        vec![
            DeviceCommand::EnableVertexAttribArray { location: 0 },
            DeviceCommand::VertexAttribPointer { location: 0, components: 3, stride: 24, offset: 0 },
            DeviceCommand::EnableVertexAttribArray { location: 1 },
            DeviceCommand::VertexAttribPointer {
                location: 1,
                components: 3,
                stride: 24,
                offset: 12,
            },
        ]
    );

    let layout = Vertex::<f32>::layout();
    layout.register_attributes(&mut dev);
    assert_eq!(
        dev.take_commands(),
        vec![
            DeviceCommand::EnableVertexAttribArray { location: 0 },
            DeviceCommand::VertexAttribPointer { location: 0, components: 3, stride: 24, offset: 0 },
            DeviceCommand::EnableVertexAttribArray { location: 1 },
            DeviceCommand::VertexAttribPointer {
                location: 1,
                components: 3,
                stride: 24,
                offset: 12,
            },
        ]
    );

    vbo.unbind(&mut dev);
    vao.unbind(&mut dev);
    vbo.release(&mut dev);
    vao.release(&mut dev);
}

#[test]
fn triangle_setup_issues_the_canonical_sequence() {
    let mut dev = Device::new();
    let layout = Vertex::<f32>::layout();
    let vertices = vec![0u8; 72];
    let t = Triangle::new(&mut dev, 7, vertices.clone(), &layout);
    assert_eq!(dev.buffers_created, 1);
    assert_eq!(dev.arrays_created, 1);
    assert_eq!(dev.bound_array_buffer, 0);
    assert_eq!(dev.bound_vertex_array, 0);
    assert_eq!(
        dev.take_commands(),
        vec![
            DeviceCommand::GenBuffer { id: 1 },
            DeviceCommand::BindBuffer { target: BufferTarget::Array, id: 1 },
            DeviceCommand::BufferData { target: BufferTarget::Array, data: vertices },
            DeviceCommand::GenVertexArray { id: 1 },
            DeviceCommand::BindVertexArray { id: 1 },
            DeviceCommand::EnableVertexAttribArray { location: 0 },
            DeviceCommand::VertexAttribPointer { location: 0, components: 3, stride: 24, offset: 0 },
            DeviceCommand::EnableVertexAttribArray { location: 1 },
            DeviceCommand::VertexAttribPointer {
                location: 1,
                components: 3,
                stride: 24,
                offset: 12,
            },
            DeviceCommand::BindBuffer { target: BufferTarget::Array, id: 0 },
            DeviceCommand::BindVertexArray { id: 0 },
        ]
    );

    t.render(&mut dev);
    assert_eq!(
        dev.take_commands(),
        vec![
            DeviceCommand::UseProgram { id: 7 },
            DeviceCommand::BindVertexArray { id: 1 },
            DeviceCommand::DrawArrays { count: 3 },
        ]
    );

    t.release(&mut dev);
    assert_eq!(dev.buffers_created, dev.buffers_deleted);
    assert_eq!(dev.arrays_created, dev.arrays_deleted);
}

#[test]
fn quad_setup_uploads_vertices_and_indices() {
    let mut dev = Device::new();
    let layout = Vertex::<f32>::layout();
    let vertices = vec![9u8; 96];
    let q = Quad::new(&mut dev, 3, vertices.clone(), &layout);
    assert_eq!(dev.buffers_created, 2);
    assert_eq!(dev.arrays_created, 1);
    assert_eq!(dev.bound_array_buffer, 0);
    assert_eq!(dev.bound_vertex_array, 0);
    assert_eq!(dev.bound_element_buffer, 2);

    let cmds = dev.take_commands();
    assert_eq!(cmds.len(), 14);
    assert_eq!(cmds[0], DeviceCommand::GenBuffer { id: 1 });
    assert_eq!(
        cmds[2],
        DeviceCommand::BufferData { target: BufferTarget::Array, data: vertices }
    );
    assert_eq!(cmds[11], DeviceCommand::GenBuffer { id: 2 });
    assert_eq!(cmds[12], DeviceCommand::BindBuffer { target: BufferTarget::ElementArray, id: 2 });
    assert_eq!(
        cmds[13],
        DeviceCommand::BufferData {
            target: BufferTarget::ElementArray,
            data: vec![
                0, 0, 0, 0, 1, 0, 0, 0, 2, 0, 0, 0, 0, 0, 0, 0, 2, 0, 0, 0, 3, 0, 0, 0,
            ],
        }
    );

    q.render(&mut dev);
    assert_eq!(
        dev.take_commands(),
        vec![
            DeviceCommand::UseProgram { id: 3 },
            DeviceCommand::BindBuffer { target: BufferTarget::ElementArray, id: 2 },
            DeviceCommand::BindVertexArray { id: 1 },
            DeviceCommand::DrawElements { count: 6 },
        ]
    );

    q.release(&mut dev);
    assert_eq!(dev.buffers_created, dev.buffers_deleted);
    assert_eq!(dev.arrays_created, dev.arrays_deleted);
    assert_eq!(
        dev.take_commands(),
        vec![
            DeviceCommand::DeleteBuffer { id: 1 },
            DeviceCommand::DeleteVertexArray { id: 1 },
            DeviceCommand::DeleteBuffer { id: 2 },
        ]
    );
}

#[test]
fn vertex_new_keeps_its_fields() {
    let pos = render_core::Vec3::new(1.0_f32, 2.0, 3.0);
    let clr = render_core::Vec3::new(0.5_f32, 0.25, 0.125);
    let v = Vertex::new(pos, clr);
    assert_eq!(v.pos, pos);
    assert_eq!(v.clr, clr);
}
