use bowl::commands::{BufferTarget, GlCommand};
use bowl::data::buffer_mode::DrawMode;
use bowl::data::vertex_array::VertexArray;
use bowl::data::vertex_buffer::VertexBuffer;
use bowl::data::vertex_buffer_layout::VertexBufferLayout;
use bowl::data::Type;

fn attribute_pointer(cmd: &GlCommand) -> (u32, u32, u32, u32) {
    match cmd {
        GlCommand::VertexAttribPointer { index, component_count, stride, offset, .. } => {
            (*index, *component_count, *stride, *offset)
        }
        other => panic!("expected an attribute description, got {:?}", other),
    }
}

#[test]
fn attribute_offsets_are_prefix_sums() {
    let (mut vao, bind) = VertexArray::new(7);
    assert_eq!(bind, GlCommand::BindVertexArray { array: 7 });

    let (vb, _) = VertexBuffer::new(2, vec![0; 32], DrawMode::STATIC);
    let mut layout = VertexBufferLayout::new();
    layout.add_attribute(Type::Float, 3);
    layout.add_attribute(Type::Float, 3);
    layout.add_attribute(Type::Float, 2);

    let cmds = vao.add_buffer(&vb, &layout);
    assert_eq!(cmds.len(), 8);
    assert_eq!(cmds[0], GlCommand::BindVertexArray { array: 7 });
    assert_eq!(
        cmds[1],
        GlCommand::BindBuffer { target: BufferTarget::Array, buffer: 2 }
    );

    let (slot0, count0, stride0, offset0) = attribute_pointer(&cmds[2]);
    assert_eq!((slot0, count0, stride0, offset0), (0, 3, 32, 0));
    assert_eq!(cmds[3], GlCommand::EnableVertexAttribArray { index: 0 });

    let (slot1, count1, stride1, offset1) = attribute_pointer(&cmds[4]);
    assert_eq!((slot1, count1, stride1, offset1), (1, 3, 32, 12));
    assert_eq!(cmds[5], GlCommand::EnableVertexAttribArray { index: 1 });

    let (slot2, count2, stride2, offset2) = attribute_pointer(&cmds[6]);
    assert_eq!((slot2, count2, stride2, offset2), (2, 2, 32, 24));
    assert_eq!(cmds[7], GlCommand::EnableVertexAttribArray { index: 2 });
}

#[test]
fn slot_numbering_continues_across_layouts() {
    let (mut vao, _) = VertexArray::new(1);
    let (vb_a, _) = VertexBuffer::new(2, vec![0; 6], DrawMode::STATIC);
    let (vb_b, _) = VertexBuffer::new(3, vec![0; 4], DrawMode::STATIC);

    let mut first = VertexBufferLayout::new();
    first.add_attribute(Type::Float, 3);
    first.add_attribute(Type::Float, 3);
    let cmds_a = vao.add_buffer(&vb_a, &first);
    let (slot, ..) = attribute_pointer(&cmds_a[2]);
    assert_eq!(slot, 0);
    let (slot, ..) = attribute_pointer(&cmds_a[4]);
    assert_eq!(slot, 1);

    let mut second = VertexBufferLayout::new();
    second.add_attribute(Type::Float, 2);
    let cmds_b = vao.add_buffer(&vb_b, &second);
    let (slot, count, stride, offset) = attribute_pointer(&cmds_b[2]);
    assert_eq!((slot, count, stride, offset), (2, 2, 8, 0));
    assert_eq!(cmds_b[3], GlCommand::EnableVertexAttribArray { index: 2 });
}

#[test]
fn empty_layout_configures_no_slots() {
    let (mut vao, _) = VertexArray::new(1);
    let (vb, _) = VertexBuffer::new(2, vec![], DrawMode::STATIC);
    let layout = VertexBufferLayout::new();
    let cmds = vao.add_buffer(&vb, &layout);
    assert_eq!(cmds.len(), 2);
}
