//! Core of a small rendering engine: vertex-layout generation, typed GPU
//! buffers and vertex arrays over an explicit device context, and the
//! numeric vector types that describe per-vertex attributes.
//!
//! All device work is modelled by a [`device::Device`] value that records the
//! commands a caller would hand to the graphics driver; an unverified shell
//! around this crate replays those commands against the real device. Buffers
//! are tagged at the type level with their binding target, so vertex and
//! index buffers can never be interchanged; handles are owned exclusively
//! and released exactly once, by consuming their wrapper.

pub mod buffer;
pub mod device;
pub mod layout;
pub mod mesh;
pub mod vector;
pub mod vertex;

pub use buffer::ArrayBuffer;
pub use buffer::Buffer;
pub use buffer::BufferType;
pub use buffer::BufferTypeArray;
pub use buffer::BufferTypeElementArray;
pub use buffer::ElementArrayBuffer;
pub use buffer::IndexBufferObject;
pub use buffer::VertexArray;
pub use buffer::VertexBufferObject;
pub use device::AttributeRecord;
pub use device::BufferTarget;
pub use device::Device;
pub use device::DeviceCommand;
pub use layout::AttributeKind;
pub use layout::FieldDecl;
pub use layout::FieldDescriptor;
pub use layout::LayoutError;
pub use layout::LocationTag;
pub use layout::RecordDecl;
pub use layout::RecordShape;
pub use layout::ShapeFault;
pub use layout::VertexLayout;
pub use mesh::Quad;
pub use mesh::Triangle;
pub use vector::Vec2;
pub use vector::Vec3;
pub use vector::Vec4;
pub use vertex::Vertex;
