//! A GPU-resident block of vertex data.

use vstd::prelude::*;

use crate::commands::{cmd_is_bind_buffer, cmd_is_buffer_data, BufferTarget, GlCommand};
use crate::data::buffer_mode::BufferMode;

verus! {

/// One GPU memory allocation holding vertex data. The driver-side object id
/// comes from the shell; the usage hint is fixed at creation. The ghost
/// `contents` field tracks the words the GPU allocation holds after the
/// returned commands run.
pub struct VertexBuffer {
    opengl_id: u32,
    usage: u32,
    contents: Ghost<Seq<u32>>,
}

impl VertexBuffer {
    /// The driver-side object id.
    pub closed spec fn id(&self) -> u32 {
        self.opengl_id
    }

    /// The usage-hint code the buffer was created with.
    pub closed spec fn spec_usage(&self) -> u32 {
        self.usage
    }

    /// The 32-bit words the GPU allocation holds once the commands returned
    /// so far have run.
    pub closed spec fn contents(&self) -> Seq<u32> {
        self.contents@
    }

    /// A new buffer over driver object `id`, filled with `data`. The
    /// returned commands bind the object and upload the whole payload under
    /// the given usage hint.
    pub fn new<M: BufferMode>(id: u32, data: Vec<u32>, usage: M) -> (r: (
        VertexBuffer,
        Vec<GlCommand>,
    ))
        ensures
            r.0.id() == id,
            r.0.spec_usage() == usage.spec_gl_enum(),
            r.0.contents() == data@,
            r.1@.len() == 2,
            cmd_is_bind_buffer(r.1@[0], BufferTarget::Array, id),
            cmd_is_buffer_data(r.1@[1], BufferTarget::Array, data@, usage.spec_gl_enum()),
    {
        let usage_code: u32 = usage.to_gl_enum();
        let buffer = VertexBuffer {
            opengl_id: id,
            usage: usage_code,
            contents: Ghost(data@),
        };
        let mut cmds: Vec<GlCommand> = Vec::new();
        cmds.push(GlCommand::BindBuffer { target: BufferTarget::Array, buffer: id });
        cmds.push(GlCommand::BufferData {
            target: BufferTarget::Array,
            words: data,
            usage: usage_code,
        });
        (buffer, cmds)
    }

    /// Replaces the whole allocation with `data`; the new payload may be of
    /// any length, longer or shorter than the old one. Later binds and
    /// draws see exactly the new contents.
    pub fn set_data(&mut self, data: Vec<u32>) -> (cmds: Vec<GlCommand>)
        ensures
            final(self).id() == old(self).id(),
            final(self).spec_usage() == old(self).spec_usage(),
            final(self).contents() == data@,
            cmds@.len() == 2,
            cmd_is_bind_buffer(cmds@[0], BufferTarget::Array, old(self).id()),
            cmd_is_buffer_data(cmds@[1], BufferTarget::Array, data@, old(self).spec_usage()),
    {
        self.contents = Ghost(data@);
        let mut cmds: Vec<GlCommand> = Vec::new();
        cmds.push(GlCommand::BindBuffer { target: BufferTarget::Array, buffer: self.opengl_id });
        cmds.push(GlCommand::BufferData {
            target: BufferTarget::Array,
            words: data,
            usage: self.usage,
        });
        cmds
    }

    /// Makes this buffer the current vertex-data buffer.
    pub fn bind(&self) -> (c: GlCommand)
        ensures
            cmd_is_bind_buffer(c, BufferTarget::Array, self.id()),
    {
        GlCommand::BindBuffer { target: BufferTarget::Array, buffer: self.opengl_id }
    }
}

} // verus!
