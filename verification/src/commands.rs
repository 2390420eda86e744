//! The driver commands the engine issues, as plain values.
//!
//! The verified engine never talks to the graphics context itself: each
//! operation returns the exact `GlCommand` sequence it wants issued, in
//! order, and the unverified shell replays them on the real driver. A
//! command carries everything the driver call needs; float arguments are
//! carried as their IEEE-754 bit patterns.

use vstd::prelude::*;

use crate::data::Type;

verus! {

/// Binding target of a buffer: vertex data or an index list.
#[derive(Clone, Copy, Debug, PartialEq, Eq, Structural)]
pub enum BufferTarget {
    /// Vertex attribute data.
    Array,
    /// Element index data for indexed draws.
    ElementArray,
}

/// Primitive kind of a draw call.
#[derive(Clone, Copy, Debug, PartialEq, Eq, Structural)]
pub enum PrimitiveMode {
    Triangles,
}

/// Element type of an indexed draw call.
#[derive(Clone, Copy, Debug, PartialEq, Eq, Structural)]
pub enum IndexType {
    UnsignedInt,
}

/// Axis of a texture wrap parameter.
#[derive(Clone, Copy, Debug, PartialEq, Eq, Structural)]
pub enum TextureWrapAxis {
    S,
    T,
}

/// Payload of one uniform upload. Float components travel as IEEE-754 bit
/// patterns; the shell reinterprets them for the driver.
#[derive(Debug, PartialEq, Eq)]
pub enum UniformValue {
    /// 1 to 4 float components, as bit patterns.
    Floats(Vec<u32>),
    /// 1 to 4 signed integer components.
    Ints(Vec<i32>),
    /// 1 to 4 unsigned integer components.
    Uints(Vec<u32>),
    /// A 4×4 float matrix in column-major order, as 16 bit patterns.
    Matrix4(Vec<u32>),
}

/// One driver call, with every argument the call needs. Buffer payloads are
/// carried as 32-bit words, texture payloads as raw bytes.
#[derive(Debug, PartialEq, Eq)]
#[allow(inconsistent_fields)]
pub enum GlCommand {
    /// Make `buffer` current for `target`.
    BindBuffer { target: BufferTarget, buffer: u32 },
    /// Upload `words` to the buffer current for `target`, replacing its
    /// whole allocation, with the given usage-hint code.
    BufferData { target: BufferTarget, words: Vec<u32>, usage: u32 },
    /// Make `array` the current vertex array.
    BindVertexArray { array: u32 },
    /// Describe attribute slot `index` of the current vertex array: how many
    /// components of which type one record holds at `offset` bytes into a
    /// record of `stride` bytes.
    VertexAttribPointer {
        index: u32,
        component_count: u32,
        component_type: Type,
        stride: u32,
        offset: u32,
    },
    /// Enable attribute slot `index` of the current vertex array.
    EnableVertexAttribArray { index: u32 },
    /// Submit `source` as the text of shader object `shader`.
    ShaderSource { shader: u32, source: String },
    /// Compile shader object `shader`.
    CompileShader { shader: u32 },
    /// Attach compiled shader `shader` to program `program`.
    AttachShader { program: u32, shader: u32 },
    /// Link program `program`.
    LinkProgram { program: u32 },
    /// Detach shader `shader` from program `program`, leaving the shader
    /// object alive for its owner.
    DetachShader { program: u32, shader: u32 },
    /// Release program `program`.
    DeleteProgram { program: u32 },
    /// Make `program` the current program.
    UseProgram { program: u32 },
    /// Write `value` to uniform location `location` of the current program.
    SetUniform { location: i32, value: UniformValue },
    /// Select texture unit `unit` as the active unit.
    ActiveTexture { unit: u32 },
    /// Bind 2D texture object `texture` on the active unit.
    BindTexture { texture: u32 },
    /// Set the bound texture to repeat along `axis`.
    SetTextureWrapRepeat { axis: TextureWrapAxis },
    /// Set the bound texture's magnification filter to linear.
    SetTextureMagFilterLinear,
    /// Upload `pixels` as a `width` × `height` RGBA image to the bound
    /// texture.
    TexImage2dRgba { width: u32, height: u32, pixels: Vec<u8> },
    /// Generate mipmaps for the bound texture.
    GenerateMipmap,
    /// Set the clear color; the channels are float bit patterns.
    ClearColor { red_bits: u32, green_bits: u32, blue_bits: u32, alpha_bits: u32 },
    /// Clear the color buffer.
    ClearColorBuffer,
    /// Set the viewport rectangle.
    Viewport { x: i32, y: i32, width: i32, height: i32 },
    /// Draw `count` vertices starting at `first` from the current vertex
    /// array.
    DrawArrays { mode: PrimitiveMode, first: i32, count: usize },
    /// Draw `count` indices of the bound element buffer.
    DrawElements { mode: PrimitiveMode, count: usize, index_type: IndexType },
}

/// Holds when `c` binds `buffer` for `target`.
pub open spec fn cmd_is_bind_buffer(c: GlCommand, target: BufferTarget, buffer: u32) -> bool {
    c == (GlCommand::BindBuffer { target, buffer })
}

/// Holds when `c` replaces the allocation bound for `target` with exactly
/// `words`, under usage-hint code `usage`.
pub open spec fn cmd_is_buffer_data(
    c: GlCommand,
    target: BufferTarget,
    words: Seq<u32>,
    usage: u32,
) -> bool {
    match c {
        GlCommand::BufferData { target: t, words: w, usage: u } => t == target && w@ == words
            && u == usage,
        _ => false,
    }
}

/// A model of the driver's per-program uniform store: the value last written
/// to each location.
pub open spec fn apply_uniform_command(
    store: Map<int, UniformValue>,
    c: GlCommand,
) -> Map<int, UniformValue> {
    match c {
        GlCommand::SetUniform { location, value } => store.insert(location as int, value),
        _ => store,
    }
}

/// The uniform store after a command sequence runs, in order.
pub open spec fn uniform_store_after(
    store: Map<int, UniformValue>,
    cmds: Seq<GlCommand>,
) -> Map<int, UniformValue>
    decreases cmds.len(),
{
    if cmds.len() == 0 {
        store
    } else {
        uniform_store_after(apply_uniform_command(store, cmds[0]), cmds.drop_first())
    }
}

/// Holds when `c` writes a uniform.
pub open spec fn is_uniform_write(c: GlCommand) -> bool {
    c matches GlCommand::SetUniform { .. }
}

/// A command sequence free of uniform writes leaves every location of the
/// uniform store as it was.
pub proof fn lemma_no_uniform_write_preserves_store(
    store: Map<int, UniformValue>,
    cmds: Seq<GlCommand>,
)
    requires
        forall|k: int| 0 <= k < cmds.len() ==> !is_uniform_write(#[trigger] cmds[k]),
    ensures
        uniform_store_after(store, cmds) == store,
    decreases cmds.len(),
{
    if cmds.len() > 0 {
        assert(apply_uniform_command(store, cmds[0]) == store);
        assert forall|k: int|
            0 <= k < cmds.drop_first().len() implies !is_uniform_write(
            #[trigger] cmds.drop_first()[k],
        ) by {
            assert(cmds.drop_first()[k] == cmds[k + 1]);
        }
        lemma_no_uniform_write_preserves_store(store, cmds.drop_first());
    }
}

/// A uniform write to one location leaves every other location of the
/// uniform store as it was.
pub proof fn lemma_uniform_write_targets_one_location(
    store: Map<int, UniformValue>,
    location: i32,
    value: UniformValue,
    other: int,
)
    requires
        other != location,
    ensures
        uniform_store_after(
            store,
            seq![GlCommand::SetUniform { location, value }],
        ).contains_key(other) == store.contains_key(other),
        store.contains_key(other) ==> uniform_store_after(
            store,
            seq![GlCommand::SetUniform { location, value }],
        )[other] == store[other],
{
    let cmds = seq![GlCommand::SetUniform { location, value }];
    let written = apply_uniform_command(store, cmds[0]);
    assert(written == store.insert(location as int, value));
    assert(cmds.drop_first() =~= Seq::<GlCommand>::empty());
    assert(uniform_store_after(written, cmds.drop_first()) == written);
    assert(uniform_store_after(store, cmds) == written);
}

} // verus!
