//! An indexed rectangle: four vertices drawn as two triangles through a
//! fixed six-entry index list.

use vstd::prelude::*;

use crate::commands::{
    cmd_is_bind_buffer, cmd_is_buffer_data, BufferTarget, GlCommand, IndexType, PrimitiveMode,
};
use crate::data::Type;
use crate::data::buffer_mode::{BufferMode, DrawMode, GL_STATIC_DRAW};
use crate::data::indices_array::IndicesBuffer;
use crate::data::vertex_array::{attribute_slot_commands_ok, VertexArray};
use crate::data::vertex_buffer::VertexBuffer;
use crate::data::vertex_buffer_layout::VertexBufferLayout;
use crate::renderable::Renderable;

verus! {

/// The index list of every rectangle: two triangles over four corners.
pub open spec fn rect_indices() -> Seq<u32> {
    seq![0u32, 1u32, 3u32, 1u32, 2u32, 3u32]
}

/// Builds the fixed rectangle index list.
fn rect_indices_vec() -> (v: Vec<u32>)
    ensures
        v@ =~= rect_indices(),
{
    let v: Vec<u32> = vec![0u32, 1u32, 3u32, 1u32, 2u32, 3u32];
    v
}

/// A drawable rectangle: one vertex buffer of four records — position,
/// color and texture coordinates, all float components — drawn through a
/// static index list.
pub struct Rect {
    vao: VertexArray,
    ib: IndicesBuffer,
}

impl Rect {
    /// The driver-side id of the rectangle's vertex array.
    pub closed spec fn spec_vao_id(&self) -> u32 {
        self.vao.id()
    }

    /// The driver-side id of the rectangle's index buffer.
    pub closed spec fn spec_ib_id(&self) -> u32 {
        self.ib.id()
    }

    /// A new rectangle from twelve position words — four corners of three
    /// float components each, as bit patterns — over the given driver
    /// objects. The returned commands bind the vertex array, upload the
    /// fixed index list statically, upload the corner data under
    /// `draw_mode`, and describe three attributes on slots zero to two:
    /// three position components at offset 0, three color components at
    /// offset 12 and two texture coordinates at offset 24, in records of
    /// 32 bytes.
    pub fn new(
        vertices: Vec<u32>,
        draw_mode: DrawMode,
        vao_id: u32,
        vertex_buffer_id: u32,
        index_buffer_id: u32,
    ) -> (r: (Rect, Vec<GlCommand>))
        requires
            vertices@.len() == 12,
        ensures
            r.0.spec_vao_id() == vao_id,
            r.0.spec_ib_id() == index_buffer_id,
            r.1@.len() == 13,
            r.1@[0] == (GlCommand::BindVertexArray { array: vao_id }),
            cmd_is_bind_buffer(r.1@[1], BufferTarget::ElementArray, index_buffer_id),
            cmd_is_buffer_data(
                r.1@[2],
                BufferTarget::ElementArray,
                rect_indices(),
                GL_STATIC_DRAW,
            ),
            cmd_is_bind_buffer(r.1@[3], BufferTarget::Array, vertex_buffer_id),
            cmd_is_buffer_data(
                r.1@[4],
                BufferTarget::Array,
                vertices@,
                draw_mode.spec_gl_enum(),
            ),
            r.1@[5] == (GlCommand::BindVertexArray { array: vao_id }),
            cmd_is_bind_buffer(r.1@[6], BufferTarget::Array, vertex_buffer_id),
            r.1@[7] == (GlCommand::VertexAttribPointer {
                index: 0,
                component_count: 3,
                component_type: Type::Float,
                stride: 32,
                offset: 0,
            }),
            r.1@[8] == (GlCommand::EnableVertexAttribArray { index: 0 }),
            r.1@[9] == (GlCommand::VertexAttribPointer {
                index: 1,
                component_count: 3,
                component_type: Type::Float,
                stride: 32,
                offset: 12,
            }),
            r.1@[10] == (GlCommand::EnableVertexAttribArray { index: 1 }),
            r.1@[11] == (GlCommand::VertexAttribPointer {
                index: 2,
                component_count: 2,
                component_type: Type::Float,
                stride: 32,
                offset: 24,
            }),
            r.1@[12] == (GlCommand::EnableVertexAttribArray { index: 2 }),
    {
        let (mut vao, bind_cmd) = VertexArray::new(vao_id);
        let (ib, mut index_cmds) = IndicesBuffer::new(
            index_buffer_id,
            rect_indices_vec(),
            DrawMode::STATIC,
        );
        let (vb, mut vertex_cmds) = VertexBuffer::new(vertex_buffer_id, vertices, draw_mode);
        let mut layout = VertexBufferLayout::new();
        layout.add_attribute(Type::Float, 3);
        layout.add_attribute(Type::Float, 3);
        layout.add_attribute(Type::Float, 2);
        let mut attach_cmds = vao.add_buffer(&vb, &layout);

        proof {
            let attrs = layout.spec_attributes();
            assert(attrs.take(0) =~= Seq::<(Type, u32)>::empty());
            assert(attrs.take(1).drop_last() =~= attrs.take(0));
            assert(attrs.take(1).last() == attrs[0]);
            assert(attrs.take(2).drop_last() =~= attrs.take(1));
            assert(attrs.take(2).last() == attrs[1]);
            assert(attribute_slot_commands_ok(attach_cmds@, 0, attrs, 32, 0));
            assert(attribute_slot_commands_ok(attach_cmds@, 0, attrs, 32, 1));
            assert(attribute_slot_commands_ok(attach_cmds@, 0, attrs, 32, 2));
        }

        let mut cmds: Vec<GlCommand> = Vec::new();
        cmds.push(bind_cmd);
        cmds.append(&mut index_cmds);
        cmds.append(&mut vertex_cmds);
        cmds.append(&mut attach_cmds);

        (Rect { vao, ib }, cmds)
    }
}

impl Renderable for Rect {
    /// Bind the rectangle's vertex array and index buffer, then draw the
    /// six indices as two triangles.
    open spec fn spec_render_commands(&self) -> Seq<GlCommand> {
        seq![
            GlCommand::BindVertexArray { array: self.spec_vao_id() },
            GlCommand::BindBuffer { target: BufferTarget::ElementArray, buffer: self.spec_ib_id() },
            GlCommand::DrawElements {
                mode: PrimitiveMode::Triangles,
                count: 6,
                index_type: IndexType::UnsignedInt,
            },
        ]
    }

    fn render(&self) -> (cmds: Vec<GlCommand>) {
        let mut cmds: Vec<GlCommand> = Vec::new();
        cmds.push(self.vao.bind());
        cmds.push(self.ib.bind());
        cmds.push(GlCommand::DrawElements {
            mode: PrimitiveMode::Triangles,
            count: 6,
            index_type: IndexType::UnsignedInt,
        });
        proof {
            assert(cmds@ =~= self.spec_render_commands());
        }
        cmds
    }
}

} // verus!
