//! The pipeline-input binding state: which buffer feeds which attribute
//! slots, in what layout.

use vstd::prelude::*;

use crate::commands::{cmd_is_bind_buffer, BufferTarget, GlCommand};
use crate::data::Type;
use crate::data::vertex_buffer::VertexBuffer;
use crate::data::vertex_buffer_layout::{
    attribute_offset, attributes_stride, lemma_attribute_offset_step, lemma_stride_is_total_size,
    VertexBufferLayout,
};

verus! {

/// The two commands that describe and enable attribute slot `base + k` of a
/// vertex array, at positions `2 + 2k` and `3 + 2k` of `cmds`: the slot
/// reads attribute `k` of `attrs`, at that attribute's byte offset, out of
/// records of `stride` bytes.
pub open spec fn attribute_slot_commands_ok(
    cmds: Seq<GlCommand>,
    base: int,
    attrs: Seq<(Type, u32)>,
    stride: u32,
    k: int,
) -> bool {
    &&& cmds[2 + 2 * k] == (GlCommand::VertexAttribPointer {
        index: (base + k) as u32,
        component_count: attrs[k].1,
        component_type: attrs[k].0,
        stride: stride,
        offset: attribute_offset(attrs, k) as u32,
    })
    &&& cmds[3 + 2 * k] == (GlCommand::EnableVertexAttribArray { index: (base + k) as u32 })
}

/// Owns the binding between buffers and attribute slots. Slots are consumed
/// upward from zero across the array's lifetime: a second `add_buffer` on
/// the same array continues the slot numbering where the first left off.
pub struct VertexArray {
    opengl_id: u32,
    next_attribute_index: u32,
}

impl VertexArray {
    /// The driver-side object id.
    pub closed spec fn id(&self) -> u32 {
        self.opengl_id
    }

    /// The first attribute slot the next `add_buffer` call will use.
    pub closed spec fn spec_next_slot(&self) -> u32 {
        self.next_attribute_index
    }

    /// A new vertex array over driver object `id`, with no slots consumed
    /// yet. The returned command makes it current.
    pub fn new(id: u32) -> (r: (VertexArray, GlCommand))
        ensures
            r.0.id() == id,
            r.0.spec_next_slot() == 0,
            r.1 == (GlCommand::BindVertexArray { array: id }),
    {
        let vao = VertexArray { opengl_id: id, next_attribute_index: 0 };
        let cmd = GlCommand::BindVertexArray { array: id };
        (vao, cmd)
    }

    /// Binds `vb`'s data to the next slots of this array, as `layout`
    /// describes: the returned commands make the array and the buffer
    /// current, then describe and enable one slot per attribute, in layout
    /// order, each at the byte offset of the attributes before it. The
    /// array's slot counter advances by the number of attributes.
    pub fn add_buffer(&mut self, vb: &VertexBuffer, layout: &VertexBufferLayout) -> (cmds: Vec<
        GlCommand,
    >)
        requires
            layout.wf(),
            old(self).spec_next_slot() + layout.spec_attributes().len() <= u32::MAX,
        ensures
            final(self).id() == old(self).id(),
            final(self).spec_next_slot() == old(self).spec_next_slot()
                + layout.spec_attributes().len(),
            cmds@.len() == 2 + 2 * layout.spec_attributes().len(),
            cmds@[0] == (GlCommand::BindVertexArray { array: old(self).id() }),
            cmd_is_bind_buffer(cmds@[1], BufferTarget::Array, vb.id()),
            forall|k: int|
                0 <= k < layout.spec_attributes().len() ==> #[trigger] attribute_slot_commands_ok(
                    cmds@,
                    old(self).spec_next_slot() as int,
                    layout.spec_attributes(),
                    layout.spec_stride(),
                    k,
                ),
    {
        let ghost attrs = layout.spec_attributes();
        let base_slot: u32 = self.next_attribute_index;
        let stride: u32 = layout.stride();
        let n: usize = layout.attribute_count();

        let mut cmds: Vec<GlCommand> = Vec::new();
        cmds.push(GlCommand::BindVertexArray { array: self.opengl_id });
        cmds.push(vb.bind());

        proof {
            assert(attrs.take(0) =~= Seq::<(Type, u32)>::empty());
        }

        let mut offset: u32 = 0;
        let mut i: usize = 0;
        while i < n
            invariant
                self == old(self),
                i <= n,
                n == attrs.len(),
                attrs == layout.spec_attributes(),
                stride == layout.spec_stride(),
                layout.wf(),
                base_slot == old(self).spec_next_slot(),
                base_slot + n <= u32::MAX,
                offset == attribute_offset(attrs, i as int),
                0 <= attribute_offset(attrs, i as int) <= stride,
                cmds@.len() == 2 + 2 * i,
                cmds@[0] == (GlCommand::BindVertexArray { array: old(self).id() }),
                cmd_is_bind_buffer(cmds@[1], BufferTarget::Array, vb.id()),
                forall|k: int|
                    0 <= k < i ==> #[trigger] attribute_slot_commands_ok(
                        cmds@,
                        base_slot as int,
                        attrs,
                        stride,
                        k,
                    ),
            decreases n - i,
        {
            let (attribute_type, count) = layout.attribute(i);
            let size: u32 = attribute_type.to_gl_enum_and_size().1;
            let slot: u32 = base_slot + (i as u32);

            proof {
                lemma_attribute_offset_step(attrs, i as int);
                lemma_offset_within_stride(attrs, i as int + 1);
            }

            let ghost cmds_before = cmds@;
            cmds.push(GlCommand::VertexAttribPointer {
                index: slot,
                component_count: count,
                component_type: attribute_type,
                stride: stride,
                offset: offset,
            });
            cmds.push(GlCommand::EnableVertexAttribArray { index: slot });

            proof {
                assert forall|k: int| 0 <= k < i + 1 implies #[trigger] attribute_slot_commands_ok(
                    cmds@,
                    base_slot as int,
                    attrs,
                    stride,
                    k,
                ) by {
                    if k < i {
                        assert(attribute_slot_commands_ok(cmds_before, base_slot as int, attrs,
                            stride, k));
                        assert(cmds@[2 + 2 * k] == cmds_before[2 + 2 * k]);
                        assert(cmds@[3 + 2 * k] == cmds_before[3 + 2 * k]);
                    }
                }
            }

            offset = offset + count * size;
            i = i + 1;
        }

        self.next_attribute_index = base_slot + (n as u32);
        cmds
    }

    /// Makes this array the current vertex array.
    pub fn bind(&self) -> (c: GlCommand)
        ensures
            c == (GlCommand::BindVertexArray { array: self.id() }),
    {
        GlCommand::BindVertexArray { array: self.opengl_id }
    }
}

/// The byte offset of any record position `k` lies between zero and the
/// summed byte size of the whole attribute list.
pub proof fn lemma_offset_within_stride(attrs: Seq<(Type, u32)>, k: int)
    requires
        0 <= k <= attrs.len(),
    ensures
        0 <= attribute_offset(attrs, k) <= attributes_stride(attrs),
    decreases attrs.len() - k,
{
    lemma_stride_is_total_size(attrs.take(k));
    if k < attrs.len() {
        lemma_offset_within_stride(attrs, k + 1);
        lemma_attribute_offset_step(attrs, k);
        assert(attrs[k].1 * attrs[k].0.spec_size() >= 0);
    } else {
        assert(attrs.take(k) =~= attrs);
    }
}

} // verus!
