use bowl::commands::GlCommand;
use bowl::shader::ShaderProgram;
use bowl::vertex::Vertex;
use bowl::renderable::Mesh;
use bowl::window::{clear_frame_commands, viewport_command, WindowBuilder, WindowHandle};

#[test]
fn builder_defaults() {
    let config = WindowBuilder::new().create();
    assert_eq!(config.width, 400);
    assert_eq!(config.height, 300);
    assert_eq!(config.title, "");
    assert!(!config.fullscreen);
    assert!(!config.vsync);
    assert_eq!(config.max_fps, None);
    assert_eq!(config.swap_interval, 0);
}

#[test]
fn builder_collects_every_option() {
    let config = WindowBuilder::new()
        .size(1280, 720)
        .title(String::from("demo"))
        .fullscreen(true)
        .max_fps(60)
        .vsync(true)
        .create();
    assert_eq!(config.width, 1280);
    assert_eq!(config.height, 720);
    assert_eq!(config.title, "demo");
    assert!(config.fullscreen);
    assert!(config.vsync);
    assert_eq!(config.max_fps, Some(60));
    assert_eq!(config.swap_interval, 1);
}

#[test]
fn builder_asks_for_a_core_profile_context() {
    let config = WindowBuilder::new().create();
    assert_eq!(config.context_version_major, 3);
    assert_eq!(config.context_version_minor, 3);
    assert!(config.core_profile);
}

#[test]
fn each_frame_clears_to_opaque_black() {
    let cmds = clear_frame_commands();
    assert_eq!(cmds.len(), 2);
    assert_eq!(
        cmds[0],
        GlCommand::ClearColor { red_bits: 0, green_bits: 0, blue_bits: 0, alpha_bits: 0x3F800000 }
    );
    assert_eq!(cmds[1], GlCommand::ClearColorBuffer);
}

#[test]
fn resize_updates_the_viewport_from_the_origin() {
    assert_eq!(
        viewport_command(800, 600),
        GlCommand::Viewport { x: 0, y: 0, width: 800, height: 600 }
    );
}

#[test]
fn handle_render_binds_the_program_first() {
    let program = ShaderProgram::new(40, true).expect("link reported as successful");
    let vertices = vec![
        Vertex::from_position((1, 2, 3)),
        Vertex::from_position((4, 5, 6)),
        Vertex::from_position((7, 8, 9)),
    ];
    let (mesh, _) = Mesh::new(vertices, 1, 2);
    let handle = WindowHandle { dtime: 0 };

    let cmds = handle.render(&mesh, &program);
    assert_eq!(cmds.len(), 3);
    assert_eq!(cmds[0], GlCommand::UseProgram { program: 40 });
    assert_eq!(cmds[1], GlCommand::BindVertexArray { array: 1 });
    match &cmds[2] {
        GlCommand::DrawArrays { first, count, .. } => {
            assert_eq!(*first, 0);
            assert_eq!(*count, 3);
        }
        other => panic!("expected a draw call, got {:?}", other),
    }
}
