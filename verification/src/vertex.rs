//! A single vertex record: position, color and texture coordinates.
//!
//! The engine never computes with the components, it only lays them out in
//! memory, so each float component is carried as its IEEE-754 bit pattern.
//! The shell converts real float vectors to and from these words.

use vstd::prelude::*;

verus! {

/// The IEEE-754 bit pattern of the float value one.
pub const FLOAT_ONE_BITS: u32 = 0x3F80_0000;

/// One vertex. The field order is the memory layout the matching shader
/// input expects: three position components, three color components, two
/// texture coordinates, each a float bit pattern.
#[derive(Clone, Copy, Debug, PartialEq, Eq)]
pub struct Vertex {
    /// Position, as three float bit patterns.
    pub position: (u32, u32, u32),
    /// Color, as three float bit patterns.
    pub color: (u32, u32, u32),
    /// Texture coordinates, as two float bit patterns.
    pub texture_coordinates: (u32, u32),
}

impl Vertex {
    /// A vertex at `position` with the default color (pure red) and zero
    /// texture coordinates.
    pub fn from_position(position: (u32, u32, u32)) -> (v: Vertex)
        ensures
            v == (Vertex {
                position,
                color: (FLOAT_ONE_BITS, 0, 0),
                texture_coordinates: (0, 0),
            }),
    {
        Vertex::from(position, (FLOAT_ONE_BITS, 0, 0), (0, 0))
    }

    /// A vertex from all three fields.
    pub fn from(
        position: (u32, u32, u32),
        color: (u32, u32, u32),
        texture_coordinates: (u32, u32),
    ) -> (v: Vertex)
        ensures
            v == (Vertex { position, color, texture_coordinates }),
    {
        Vertex { position, color, texture_coordinates }
    }

    /// The eight 32-bit words of this vertex, in memory order.
    pub open spec fn spec_words(self) -> Seq<u32> {
        seq![
            self.position.0,
            self.position.1,
            self.position.2,
            self.color.0,
            self.color.1,
            self.color.2,
            self.texture_coordinates.0,
            self.texture_coordinates.1,
        ]
    }
}

} // verus!
