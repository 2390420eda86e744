use bowl::commands::{BufferTarget, GlCommand};
use bowl::data::buffer_mode::{BufferMode, DrawMode};
use bowl::data::indices_array::IndicesBuffer;
use bowl::data::vertex_buffer::VertexBuffer;

#[test]
fn draw_mode_reports_driver_codes() {
    assert_eq!(DrawMode::STREAM.to_gl_enum(), 0x88E0);
    assert_eq!(DrawMode::STATIC.to_gl_enum(), 0x88E4);
    assert_eq!(DrawMode::DYNAMIC.to_gl_enum(), 0x88E8);
}

#[test]
fn vertex_buffer_new_binds_then_uploads_whole_payload() {
    let (buffer, cmds) = VertexBuffer::new(9, vec![1, 2, 3], DrawMode::STATIC);
    assert_eq!(cmds.len(), 2);
    assert_eq!(
        cmds[0],
        GlCommand::BindBuffer { target: BufferTarget::Array, buffer: 9 }
    );
    assert_eq!(
        cmds[1],
        GlCommand::BufferData {
            target: BufferTarget::Array,
            words: vec![1, 2, 3],
            usage: 0x88E4,
        }
    );
    assert_eq!(
        buffer.bind(),
        GlCommand::BindBuffer { target: BufferTarget::Array, buffer: 9 }
    );
}

#[test]
fn vertex_buffer_replace_uses_new_larger_payload() {
    let (mut buffer, _) = VertexBuffer::new(4, vec![10, 11, 12], DrawMode::DYNAMIC);
    let cmds = buffer.set_data(vec![10, 11, 12, 13, 14, 15]);
    assert_eq!(cmds.len(), 2);
    assert_eq!(
        cmds[0],
        GlCommand::BindBuffer { target: BufferTarget::Array, buffer: 4 }
    );
    match &cmds[1] {
        GlCommand::BufferData { target, words, usage } => {
            assert_eq!(*target, BufferTarget::Array);
            assert_eq!(words.len(), 6);
            assert_eq!(words, &vec![10, 11, 12, 13, 14, 15]);
            assert_eq!(*usage, 0x88E8);
        }
        other => panic!("expected a buffer upload, got {:?}", other),
    }
}

#[test]
fn vertex_buffer_replace_may_shrink_too() {
    let (mut buffer, _) = VertexBuffer::new(4, vec![1, 2, 3, 4, 5, 6], DrawMode::DYNAMIC);
    let cmds = buffer.set_data(vec![7]);
    match &cmds[1] {
        GlCommand::BufferData { words, .. } => assert_eq!(words, &vec![7]),
        other => panic!("expected a buffer upload, got {:?}", other),
    }
}

#[test]
fn indices_buffer_targets_the_element_binding() {
    let (buffer, cmds) = IndicesBuffer::new(3, vec![0, 1, 2], DrawMode::STATIC);
    assert_eq!(cmds.len(), 2);
    assert_eq!(
        cmds[0],
        GlCommand::BindBuffer { target: BufferTarget::ElementArray, buffer: 3 }
    );
    assert_eq!(
        cmds[1],
        GlCommand::BufferData {
            target: BufferTarget::ElementArray,
            words: vec![0, 1, 2],
            usage: 0x88E4,
        }
    );
    assert_eq!(
        buffer.bind(),
        GlCommand::BindBuffer { target: BufferTarget::ElementArray, buffer: 3 }
    );
}

#[test]
fn indices_buffer_replace_uploads_new_indices() {
    let (mut buffer, _) = IndicesBuffer::new(3, vec![0, 1, 2], DrawMode::DYNAMIC);
    let cmds = buffer.set_data(vec![0, 1, 2, 2, 3, 0]);
    assert_eq!(cmds.len(), 2);
    match &cmds[1] {
        GlCommand::BufferData { target, words, usage } => {
            assert_eq!(*target, BufferTarget::ElementArray);
            assert_eq!(words, &vec![0, 1, 2, 2, 3, 0]);
            assert_eq!(*usage, 0x88E8);
        }
        other => panic!("expected a buffer upload, got {:?}", other),
    }
}
