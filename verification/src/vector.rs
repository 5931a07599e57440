//! Numeric vector types: fixed-arity, packed tuples of 32-bit components.
//!
//! The component type is a parameter so that the construction, the tuple
//! round trip and the attribute registration can be verified once for every
//! 32-bit scalar; the rendering shell instantiates them with its 32-bit float
//! and adds the component-wise arithmetic there, since floating point stays
//! outside verified code. Each type's `vertex_attrib_pointer` describes one
//! field of that arity to the device; it reads no components, only the
//! `(stride, location, offset)` geometry of the packed record.

use vstd::prelude::*;

use crate::device::attribute_registered;
use crate::device::Device;

verus! {

/// A packed pair of 32-bit components.
#[derive(Clone, Copy, Debug, PartialEq)]
pub struct Vec2<T> {
    pub x: T,
    pub y: T,
}

/// A packed triple of 32-bit components.
#[derive(Clone, Copy, Debug, PartialEq)]
pub struct Vec3<T> {
    pub x: T,
    pub y: T,
    pub z: T,
}

/// A packed quadruple of 32-bit components.
#[derive(Clone, Copy, Debug, PartialEq)]
pub struct Vec4<T> {
    pub x: T,
    pub y: T,
    pub z: T,
    pub w: T,
}

impl<T> Vec2<T> {
    /// The vector as the tuple of its components, in order.
    pub open spec fn to_tuple(self) -> (T, T) {
        (self.x, self.y)
    }

    /// The vector a tuple stands for, order preserved.
    pub open spec fn from_tuple(t: (T, T)) -> Vec2<T> {
        Vec2 { x: t.0, y: t.1 }
    }

    pub fn new(x: T, y: T) -> (v: Vec2<T>)
        ensures
            v.x == x,
            v.y == y,
    {
        Vec2 { x, y }
    }

    /// Read the components back, in the order they were given.
    pub fn components(self) -> (t: (T, T))
        ensures
            t == self.to_tuple(),
    {
        (self.x, self.y)
    }

    /// Describe a two-component field to the device: slot `location`, two
    /// 32-bit floats, records `stride` bytes apart, starting `offset` bytes
    /// into each record. The intended vertex array and vertex-attribute
    /// buffer must be bound.
    pub fn vertex_attrib_pointer(dev: &mut Device, stride: usize, location: u32, offset: usize)
        requires
            old(dev).wf(),
            old(dev).bound_vertex_array != 0,
            old(dev).bound_array_buffer != 0,
        ensures
            attribute_registered(*old(dev), *final(dev), location, 2, stride, offset),
    {
        dev.register_attribute(location, 2, stride, offset);
    }
}

impl<T> Vec3<T> {
    /// The vector as the tuple of its components, in order.
    pub open spec fn to_tuple(self) -> (T, T, T) {
        (self.x, self.y, self.z)
    }

    /// The vector a tuple stands for, order preserved.
    pub open spec fn from_tuple(t: (T, T, T)) -> Vec3<T> {
        Vec3 { x: t.0, y: t.1, z: t.2 }
    }

    pub fn new(x: T, y: T, z: T) -> (v: Vec3<T>)
        ensures
            v.x == x,
            v.y == y,
            v.z == z,
    {
        Vec3 { x, y, z }
    }

    /// Read the components back, in the order they were given.
    pub fn components(self) -> (t: (T, T, T))
        ensures
            t == self.to_tuple(),
    {
        (self.x, self.y, self.z)
    }

    /// Describe a three-component field to the device; see
    /// [`Vec2::vertex_attrib_pointer`].
    pub fn vertex_attrib_pointer(dev: &mut Device, stride: usize, location: u32, offset: usize)
        requires
            old(dev).wf(),
            old(dev).bound_vertex_array != 0,
            old(dev).bound_array_buffer != 0,
        ensures
            attribute_registered(*old(dev), *final(dev), location, 3, stride, offset),
    {
        dev.register_attribute(location, 3, stride, offset);
    }
}

impl<T> Vec4<T> {
    /// The vector as the tuple of its components, in order.
    pub open spec fn to_tuple(self) -> (T, T, T, T) {
        (self.x, self.y, self.z, self.w)
    }

    /// The vector a tuple stands for, order preserved.
    pub open spec fn from_tuple(t: (T, T, T, T)) -> Vec4<T> {
        Vec4 { x: t.0, y: t.1, z: t.2, w: t.3 }
    }

    pub fn new(x: T, y: T, z: T, w: T) -> (v: Vec4<T>)
        ensures
            v.x == x,
            v.y == y,
            v.z == z,
            v.w == w,
    {
        Vec4 { x, y, z, w }
    }

    /// Read the components back, in the order they were given.
    pub fn components(self) -> (t: (T, T, T, T))
        ensures
            t == self.to_tuple(),
    {
        (self.x, self.y, self.z, self.w)
    }

    /// Describe a four-component field to the device; see
    /// [`Vec2::vertex_attrib_pointer`].
    pub fn vertex_attrib_pointer(dev: &mut Device, stride: usize, location: u32, offset: usize)
        requires
            old(dev).wf(),
            old(dev).bound_vertex_array != 0,
            old(dev).bound_array_buffer != 0,
        ensures
            attribute_registered(*old(dev), *final(dev), location, 4, stride, offset),
    {
        dev.register_attribute(location, 4, stride, offset);
    }
}

impl<T> From<(T, T)> for Vec2<T> {
    /// Lossless, order-preserving conversion from a pair.
    fn from(t: (T, T)) -> (v: Vec2<T>) {
        let (x, y) = t;
        Vec2 { x, y }
    }
}

impl<T> vstd::std_specs::convert::FromSpecImpl<(T, T)> for Vec2<T> {
    open spec fn obeys_from_spec() -> bool {
        true
    }

    open spec fn from_spec(t: (T, T)) -> Vec2<T> {
        Vec2::from_tuple(t)
    }
}

impl<T> From<(T, T, T)> for Vec3<T> {
    /// Lossless, order-preserving conversion from a triple.
    fn from(t: (T, T, T)) -> (v: Vec3<T>) {
        let (x, y, z) = t;
        Vec3 { x, y, z }
    }
}

impl<T> vstd::std_specs::convert::FromSpecImpl<(T, T, T)> for Vec3<T> {
    open spec fn obeys_from_spec() -> bool {
        true
    }

    open spec fn from_spec(t: (T, T, T)) -> Vec3<T> {
        Vec3::from_tuple(t)
    }
}

impl<T> From<(T, T, T, T)> for Vec4<T> {
    /// Lossless, order-preserving conversion from a quadruple.
    fn from(t: (T, T, T, T)) -> (v: Vec4<T>) {
        let (x, y, z, w) = t;
        Vec4 { x, y, z, w }
    }
}

impl<T> vstd::std_specs::convert::FromSpecImpl<(T, T, T, T)> for Vec4<T> {
    open spec fn obeys_from_spec() -> bool {
        true
    }

    open spec fn from_spec(t: (T, T, T, T)) -> Vec4<T> {
        Vec4::from_tuple(t)
    }
}

/// Law: building a pair vector from a tuple and reading the components back
/// yields the original tuple, and rebuilding from the read-back components
/// yields the original vector.
pub proof fn lemma_vec2_tuple_round_trip<T>(t: (T, T), v: Vec2<T>)
    ensures
        Vec2::from_tuple(t).to_tuple() == t,
        Vec2::from_tuple(v.to_tuple()) == v,
{
}

/// Law: the tuple round trip for triple vectors, as for pairs.
pub proof fn lemma_vec3_tuple_round_trip<T>(t: (T, T, T), v: Vec3<T>)
    ensures
        Vec3::from_tuple(t).to_tuple() == t,
        Vec3::from_tuple(v.to_tuple()) == v,
{
}

/// Law: the tuple round trip for quadruple vectors, as for pairs.
pub proof fn lemma_vec4_tuple_round_trip<T>(t: (T, T, T, T), v: Vec4<T>)
    ensures
        Vec4::from_tuple(t).to_tuple() == t,
        Vec4::from_tuple(v.to_tuple()) == v,
{
}

} // verus!
