//! A growable triangle mesh: its vertices live on the CPU side and are
//! re-uploaded whole whenever they change.

use vstd::prelude::*;

use crate::commands::{
    cmd_is_bind_buffer, cmd_is_buffer_data, BufferTarget, GlCommand, PrimitiveMode,
};
use crate::data::Type;
use crate::data::buffer_mode::{DrawMode, GL_DYNAMIC_DRAW};
use crate::data::vertex_array::{attribute_slot_commands_ok, VertexArray};
use crate::data::vertex_buffer::VertexBuffer;
use crate::data::vertex_buffer_layout::VertexBufferLayout;
use crate::renderable::Renderable;
use crate::vertex::Vertex;

verus! {

/// The 32-bit words of a whole vertex list, in memory order: eight words
/// per vertex.
pub open spec fn vertices_words(vs: Seq<Vertex>) -> Seq<u32>
    decreases vs.len(),
{
    if vs.len() == 0 {
        Seq::empty()
    } else {
        vertices_words(vs.drop_last()) + vs.last().spec_words()
    }
}

/// Flattens a vertex list into its 32-bit words, eight per vertex.
fn vertices_to_words(vs: &Vec<Vertex>) -> (w: Vec<u32>)
    ensures
        w@ == vertices_words(vs@),
{
    let mut w: Vec<u32> = Vec::new();
    let n: usize = vs.len();
    let mut i: usize = 0;
    while i < n
        invariant
            i <= n,
            n == vs@.len(),
            w@ =~= vertices_words(vs@.take(i as int)),
        decreases n - i,
    {
        let v: Vertex = vs[i];
        w.push(v.position.0);
        w.push(v.position.1);
        w.push(v.position.2);
        w.push(v.color.0);
        w.push(v.color.1);
        w.push(v.color.2);
        w.push(v.texture_coordinates.0);
        w.push(v.texture_coordinates.1);
        proof {
            assert(vs@.take(i as int + 1).drop_last() =~= vs@.take(i as int));
            assert(vs@.take(i as int + 1).last() == vs@[i as int]);
            assert(w@ =~= vertices_words(vs@.take(i as int)) + vs@[i as int].spec_words());
        }
        i = i + 1;
    }
    proof {
        assert(vs@.take(n as int) =~= vs@);
    }
    w
}

/// A drawable triangle list. The CPU-side vertex list is the source of
/// truth; growing it re-uploads the whole list, and the draw call always
/// covers exactly the current vertex count.
pub struct Mesh {
    vertices: Vec<Vertex>,
    vao: VertexArray,
    vbo: VertexBuffer,
}

impl Mesh {
    /// The current CPU-side vertex list.
    pub closed spec fn spec_vertices(&self) -> Seq<Vertex> {
        self.vertices@
    }

    /// The driver-side id of the mesh's vertex array.
    pub closed spec fn spec_vao_id(&self) -> u32 {
        self.vao.id()
    }

    /// The driver-side id of the mesh's vertex buffer.
    pub closed spec fn spec_vbo_id(&self) -> u32 {
        self.vbo.id()
    }

    /// The mesh's buffer is dynamic and holds exactly the words of the
    /// current vertex list.
    pub closed spec fn wf(&self) -> bool {
        &&& self.vbo.spec_usage() == GL_DYNAMIC_DRAW
        &&& self.vbo.contents() == vertices_words(self.vertices@)
    }

    /// A new mesh over driver objects `vao_id` and `vbo_id`. The returned
    /// commands bind the vertex array, upload the vertex words under a
    /// dynamic usage hint, and describe one three-component float
    /// attribute — the position — on slot zero.
    pub fn new(vertices: Vec<Vertex>, vao_id: u32, vbo_id: u32) -> (r: (Mesh, Vec<GlCommand>))
        ensures
            r.0.wf(),
            r.0.spec_vertices() == vertices@,
            r.0.spec_vao_id() == vao_id,
            r.0.spec_vbo_id() == vbo_id,
            r.1@.len() == 7,
            r.1@[0] == (GlCommand::BindVertexArray { array: vao_id }),
            cmd_is_bind_buffer(r.1@[1], BufferTarget::Array, vbo_id),
            cmd_is_buffer_data(
                r.1@[2],
                BufferTarget::Array,
                vertices_words(vertices@),
                GL_DYNAMIC_DRAW,
            ),
            r.1@[3] == (GlCommand::BindVertexArray { array: vao_id }),
            cmd_is_bind_buffer(r.1@[4], BufferTarget::Array, vbo_id),
            r.1@[5] == (GlCommand::VertexAttribPointer {
                index: 0,
                component_count: 3,
                component_type: Type::Float,
                stride: 12,
                offset: 0,
            }),
            r.1@[6] == (GlCommand::EnableVertexAttribArray { index: 0 }),
    {
        let (mut vao, bind_cmd) = VertexArray::new(vao_id);
        let words: Vec<u32> = vertices_to_words(&vertices);
        let (vbo, mut buffer_cmds) = VertexBuffer::new(vbo_id, words, DrawMode::DYNAMIC);
        let mut layout = VertexBufferLayout::new();
        layout.add_attribute(Type::Float, 3);
        let mut attach_cmds = vao.add_buffer(&vbo, &layout);

        proof {
            let attrs = layout.spec_attributes();
            assert(attrs.take(0) =~= Seq::<(Type, u32)>::empty());
            assert(attribute_slot_commands_ok(attach_cmds@, 0, attrs, 12, 0));
        }

        let mut cmds: Vec<GlCommand> = Vec::new();
        cmds.push(bind_cmd);
        cmds.append(&mut buffer_cmds);
        cmds.append(&mut attach_cmds);

        (Mesh { vertices, vao, vbo }, cmds)
    }

    /// Appends vertices to the CPU-side list and re-uploads the whole list:
    /// the returned commands replace the GPU allocation with the words of
    /// the grown list, so later draws cover the new, larger count.
    pub fn add_vertices(&mut self, triangle_vertices: Vec<Vertex>) -> (cmds: Vec<GlCommand>)
        requires
            old(self).wf(),
        ensures
            final(self).wf(),
            final(self).spec_vertices() == old(self).spec_vertices() + triangle_vertices@,
            final(self).spec_vao_id() == old(self).spec_vao_id(),
            final(self).spec_vbo_id() == old(self).spec_vbo_id(),
            cmds@.len() == 2,
            cmd_is_bind_buffer(cmds@[0], BufferTarget::Array, old(self).spec_vbo_id()),
            cmd_is_buffer_data(
                cmds@[1],
                BufferTarget::Array,
                vertices_words(old(self).spec_vertices() + triangle_vertices@),
                GL_DYNAMIC_DRAW,
            ),
    {
        let n: usize = triangle_vertices.len();
        let mut i: usize = 0;
        while i < n
            invariant
                i <= n,
                n == triangle_vertices@.len(),
                self.vertices@ =~= old(self).vertices@ + triangle_vertices@.take(i as int),
                self.vao == old(self).vao,
                self.vbo == old(self).vbo,
            decreases n - i,
        {
            self.vertices.push(triangle_vertices[i]);
            proof {
                assert(triangle_vertices@.take(i as int + 1) =~= triangle_vertices@.take(
                    i as int,
                ).push(triangle_vertices@[i as int]));
            }
            i = i + 1;
        }
        proof {
            assert(triangle_vertices@.take(n as int) =~= triangle_vertices@);
        }
        let words: Vec<u32> = vertices_to_words(&self.vertices);
        self.vbo.set_data(words)
    }
}

impl Renderable for Mesh {
    /// Bind the mesh's vertex array, then draw its whole vertex list as
    /// triangles from the start.
    open spec fn spec_render_commands(&self) -> Seq<GlCommand> {
        seq![
            GlCommand::BindVertexArray { array: self.spec_vao_id() },
            GlCommand::DrawArrays {
                mode: PrimitiveMode::Triangles,
                first: 0,
                count: self.spec_vertices().len() as usize,
            },
        ]
    }

    fn render(&self) -> (cmds: Vec<GlCommand>) {
        let mut cmds: Vec<GlCommand> = Vec::new();
        cmds.push(self.vao.bind());
        cmds.push(GlCommand::DrawArrays {
            mode: PrimitiveMode::Triangles,
            first: 0,
            count: self.vertices.len(),
        });
        proof {
            assert(cmds@ =~= self.spec_render_commands());
        }
        cmds
    }
}

} // verus!
