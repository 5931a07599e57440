use render_core::buffer::buffer_allocate_release_balanced;
use render_core::buffer::bytes_of_u32s;
use render_core::buffer::vertex_array_allocate_release_balanced;
use render_core::ArrayBuffer;
use render_core::Buffer;
use render_core::BufferTarget;
use render_core::BufferTypeArray;
use render_core::BufferTypeElementArray;
use render_core::Device;
use render_core::DeviceCommand;
use render_core::ElementArrayBuffer;
use render_core::VertexArray;

#[test]
fn fresh_device_is_quiet() {
    let mut dev = Device::new();
    assert_eq!(dev.buffers_created, 0);
    assert_eq!(dev.buffers_deleted, 0);
    assert_eq!(dev.arrays_created, 0);
    assert_eq!(dev.arrays_deleted, 0);
    assert_eq!(dev.bound_array_buffer, 0);
    assert_eq!(dev.bound_element_buffer, 0);
    assert_eq!(dev.bound_vertex_array, 0);
    assert!(dev.take_commands().is_empty());
}

#[test]
fn buffer_create_release_counts_balance() {
    let mut dev = Device::new();
    let b: ArrayBuffer = Buffer::new(&mut dev);
    assert_eq!(dev.buffers_created, 1);
    assert_eq!(dev.buffers_deleted, 0);
    b.release(&mut dev);
    assert_eq!(dev.buffers_created, 1);
    assert_eq!(dev.buffers_deleted, 1);
    assert_eq!(
        dev.take_commands(),
        vec![DeviceCommand::GenBuffer { id: 1 }, DeviceCommand::DeleteBuffer { id: 1 }]
    );
}

#[test]
fn vertex_array_create_release_counts_balance() {
    let mut dev = Device::new();
    let v = VertexArray::new(&mut dev);
    assert_eq!(dev.arrays_created, 1);
    assert_eq!(dev.arrays_deleted, 0);
    v.release(&mut dev);
    assert_eq!(dev.arrays_created, 1);
    assert_eq!(dev.arrays_deleted, 1);
    assert_eq!(
        dev.take_commands(),
        vec![DeviceCommand::GenVertexArray { id: 1 }, DeviceCommand::DeleteVertexArray { id: 1 }]
    );
}

#[test]
fn balanced_lifecycle_functions_run() {
    let mut dev = Device::new();
    buffer_allocate_release_balanced::<BufferTypeArray>(&mut dev);
    buffer_allocate_release_balanced::<BufferTypeElementArray>(&mut dev);
    vertex_array_allocate_release_balanced(&mut dev);
    assert_eq!(dev.buffers_created, 2);
    assert_eq!(dev.buffers_deleted, 2);
    assert_eq!(dev.arrays_created, 1);
    assert_eq!(dev.arrays_deleted, 1);
}

#[test]
fn binding_one_target_leaves_the_other_alone() {
    let mut dev = Device::new();
    let vbo: ArrayBuffer = Buffer::new(&mut dev);
    let ibo: ElementArrayBuffer = Buffer::new(&mut dev);
    ibo.bind(&mut dev);
    assert_eq!(dev.bound_element_buffer, ibo.id);
    assert_eq!(dev.bound_array_buffer, 0);
    vbo.bind(&mut dev);
    assert_eq!(dev.bound_array_buffer, vbo.id);
    assert_eq!(dev.bound_element_buffer, ibo.id);
    vbo.unbind(&mut dev);
    assert_eq!(dev.bound_array_buffer, 0);
    assert_eq!(dev.bound_element_buffer, ibo.id);
    ibo.release(&mut dev);
    assert_eq!(dev.bound_element_buffer, 0);
    vbo.release(&mut dev);
}

#[test]
fn static_upload_records_the_bytes() {
    let mut dev = Device::new();
    let b: ArrayBuffer = Buffer::new(&mut dev);
    b.bind(&mut dev);
    b.buffer_static_data(&mut dev, vec![1, 2, 3, 4]);
    let cmds = dev.take_commands();
    assert_eq!(
        cmds.last(),
        Some(&DeviceCommand::BufferData { target: BufferTarget::Array, data: vec![1, 2, 3, 4] })
    );
    b.release(&mut dev);
}

#[test]
fn index_bytes_are_little_endian() {
    let bytes = bytes_of_u32s(&vec![1, 0x01020304]);
    assert_eq!(bytes, vec![1, 0, 0, 0, 4, 3, 2, 1]);
    assert!(bytes_of_u32s(&Vec::new()).is_empty());
}
