//! CPU-side descriptions of GPU-resident data: buffers, attribute layouts
//! and the vertex-array binding state that ties them together.

use vstd::prelude::*;

pub mod buffer_mode;
pub mod indices_array;
pub mod vertex_array;
pub mod vertex_buffer;
pub mod vertex_buffer_layout;

verus! {

/// The driver's code for a 32-bit float attribute component.
pub const GL_FLOAT: u32 = 0x1406;

/// Scalar type of one attribute component inside a vertex record.
#[derive(Clone, Copy, Debug, PartialEq, Eq, Structural)]
pub enum Type {
    Float,
}

impl Type {
    /// Byte size of one component of this type.
    pub open spec fn spec_size(self) -> u32 {
        match self {
            Type::Float => 4,
        }
    }

    /// Driver enum code for this type.
    pub open spec fn spec_gl_enum(self) -> u32 {
        match self {
            Type::Float => GL_FLOAT,
        }
    }

    /// The driver enum code of this component type together with the byte
    /// size of one component.
    pub fn to_gl_enum_and_size(&self) -> (r: (u32, u32))
        ensures
            r.0 == self.spec_gl_enum(),
            r.1 == self.spec_size(),
    {
        match self {
            Type::Float => (GL_FLOAT, 4),
        }
    }
}

} // verus!
