use bowl::commands::{GlCommand, UniformValue};
use bowl::error::EngineError;
use bowl::shader::{Shader, ShaderProgram, ShaderType, Texture, UniformSet};

fn linked_program(id: u32) -> ShaderProgram {
    ShaderProgram::new(id, true).expect("link reported as successful")
}

#[test]
fn shader_type_reports_driver_codes() {
    assert_eq!(ShaderType::VERTEX.to_gl(), 0x8B31);
    assert_eq!(ShaderType::FRAGMENT.to_gl(), 0x8B30);
}

#[test]
fn compile_commands_submit_source_then_compile() {
    let cmds = Shader::compile_commands(11, "void main() {}");
    assert_eq!(cmds.len(), 2);
    assert_eq!(
        cmds[0],
        GlCommand::ShaderSource { shader: 11, source: String::from("void main() {}") }
    );
    assert_eq!(cmds[1], GlCommand::CompileShader { shader: 11 });
}

#[test]
fn shader_exists_only_on_compile_success() {
    let ok = Shader::new(ShaderType::VERTEX, 5, true, String::new());
    assert_eq!(ok, Ok(Shader { shader_type: ShaderType::VERTEX, opengl_id: 5 }));

    let err = Shader::new(ShaderType::FRAGMENT, 6, false, String::from("syntax error"));
    assert_eq!(
        err,
        Err(EngineError::ShaderCompileFailed { log: String::from("syntax error") })
    );
}

#[test]
fn link_plan_attaches_links_then_detaches() {
    let stages = vec![
        Shader { shader_type: ShaderType::VERTEX, opengl_id: 4 },
        Shader { shader_type: ShaderType::FRAGMENT, opengl_id: 9 },
    ];
    let cmds = ShaderProgram::link_plan(30, &stages);
    assert_eq!(cmds.len(), 5);
    assert_eq!(cmds[0], GlCommand::AttachShader { program: 30, shader: 4 });
    assert_eq!(cmds[1], GlCommand::AttachShader { program: 30, shader: 9 });
    assert_eq!(cmds[2], GlCommand::LinkProgram { program: 30 });
    assert_eq!(cmds[3], GlCommand::DetachShader { program: 30, shader: 4 });
    assert_eq!(cmds[4], GlCommand::DetachShader { program: 30, shader: 9 });
}

#[test]
fn program_exists_only_on_link_success() {
    let p = linked_program(30);
    assert_eq!(p.opengl_id, 30);
    assert_eq!(p.texture_count, 0);
    assert!(matches!(
        ShaderProgram::new(31, false),
        Err(EngineError::ProgramLinkFailed)
    ));
}

#[test]
fn program_bind_and_release() {
    let p = linked_program(8);
    assert_eq!(p.bind(), GlCommand::UseProgram { program: 8 });
    assert_eq!(p.release(), GlCommand::DeleteProgram { program: 8 });
}

#[test]
fn uniform_resolution_is_idempotent() {
    let mut p = linked_program(1);
    assert_eq!(p.lookup_uniform("scale"), None);
    assert_eq!(p.lookup_uniform("scale"), None);

    p.note_uniform_location("scale", 3);
    assert_eq!(p.lookup_uniform("scale"), Some(3));
    assert_eq!(p.lookup_uniform("scale"), Some(3));

    p.note_uniform_location("unused", -1);
    assert_eq!(p.lookup_uniform("unused"), Some(-1));
    assert_eq!(p.lookup_uniform("unused"), Some(-1));
    assert_eq!(p.lookup_uniform("scale"), Some(3));
}

#[test]
fn unresolved_uniform_asks_for_resolution() {
    let p = linked_program(1);
    assert_eq!(p.set_uniform_int("tint", vec![1]), Ok(UniformSet::Unresolved));
}

#[test]
fn absent_uniform_set_is_a_silent_noop() {
    let mut p = linked_program(1);
    p.note_uniform_location("unused", -1);
    p.note_uniform_location("present", 2);
    assert_eq!(p.set_uniform_float("unused", vec![0]), Ok(UniformSet::Absent));
    assert_eq!(p.set_uniform_int("unused", vec![1, 2]), Ok(UniformSet::Absent));
    // The present uniform still resolves exactly as before.
    assert_eq!(p.lookup_uniform("present"), Some(2));
    assert_eq!(
        p.set_uniform_int("present", vec![7]),
        Ok(UniformSet::Apply(GlCommand::SetUniform {
            location: 2,
            value: UniformValue::Ints(vec![7]),
        }))
    );
}

#[test]
fn resolved_uniform_set_issues_one_write() {
    let mut p = linked_program(1);
    p.note_uniform_location("tint", 4);
    assert_eq!(
        p.set_uniform_float("tint", vec![0x3F800000, 0, 0]),
        Ok(UniformSet::Apply(GlCommand::SetUniform {
            location: 4,
            value: UniformValue::Floats(vec![0x3F800000, 0, 0]),
        }))
    );
    assert_eq!(
        p.set_uniform_uint("tint", vec![1, 2, 3, 4]),
        Ok(UniformSet::Apply(GlCommand::SetUniform {
            location: 4,
            value: UniformValue::Uints(vec![1, 2, 3, 4]),
        }))
    );
}

#[test]
fn uniform_vector_length_outside_one_to_four_is_an_error() {
    let mut p = linked_program(1);
    p.note_uniform_location("tint", 4);
    assert_eq!(
        p.set_uniform_float("tint", vec![]),
        Err(EngineError::UniformVectorLength { len: 0 })
    );
    assert_eq!(
        p.set_uniform_int("tint", vec![1, 2, 3, 4, 5]),
        Err(EngineError::UniformVectorLength { len: 5 })
    );
    assert_eq!(
        p.set_uniform_uint("missing", vec![1, 2, 3, 4, 5, 6]),
        Err(EngineError::UniformVectorLength { len: 6 })
    );
}

#[test]
fn matrix_uniform_carries_sixteen_words() {
    let mut p = linked_program(1);
    p.note_uniform_location("mvp", 0);
    let words: Vec<u32> = (0..16).collect();
    assert_eq!(
        p.set_uniform_mat4("mvp", words.clone()),
        UniformSet::Apply(GlCommand::SetUniform {
            location: 0,
            value: UniformValue::Matrix4(words),
        })
    );
    assert_eq!(p.set_uniform_mat4("other", (0..16).collect()), UniformSet::Unresolved);
}

#[test]
fn texture_starts_unloaded_and_cannot_be_set() {
    let p = linked_program(1);
    let texture = Texture::new("sampler", 2, 2, vec![0; 16]);
    assert!(!texture.is_loaded());
    assert_eq!(p.set_uniform_texture(&texture), Err(EngineError::TextureNotLoaded));
}

#[test]
fn loading_a_texture_takes_the_next_unit_and_uploads() {
    let mut p = linked_program(1);
    let mut texture = Texture::new("sampler", 2, 3, vec![7; 24]);
    let cmds = p.load_texture_2d_rgba(&mut texture, 77).expect("a unit is free");

    assert!(texture.is_loaded());
    assert_eq!(texture.unit(), 0);
    assert_eq!(p.texture_count, 1);

    assert_eq!(cmds.len(), 7);
    assert_eq!(cmds[0], GlCommand::ActiveTexture { unit: 0 });
    assert_eq!(cmds[1], GlCommand::BindTexture { texture: 77 });
    match &cmds[5] {
        GlCommand::TexImage2dRgba { width, height, pixels } => {
            assert_eq!((*width, *height), (2, 3));
            assert_eq!(pixels, &vec![7; 24]);
        }
        other => panic!("expected the pixel upload, got {:?}", other),
    }
    assert_eq!(cmds[6], GlCommand::GenerateMipmap);

    // A second texture gets the next unit.
    let mut second = Texture::new("other", 1, 1, vec![0; 4]);
    p.load_texture_2d_rgba(&mut second, 78).expect("a unit is free");
    assert_eq!(second.unit(), 1);
    assert_eq!(p.texture_count, 2);
}

#[test]
fn set_uniform_texture_writes_the_assigned_unit() {
    let mut p = linked_program(1);
    let mut texture = Texture::new("sampler", 1, 1, vec![0; 4]);
    p.load_texture_2d_rgba(&mut texture, 5).expect("a unit is free");
    p.note_uniform_location("sampler", 9);
    assert_eq!(
        p.set_uniform_texture(&texture),
        Ok(UniformSet::Apply(GlCommand::SetUniform {
            location: 9,
            value: UniformValue::Ints(vec![0]),
        }))
    );
}

#[test]
fn texture_pool_exhaustion_is_refused() {
    let mut p = linked_program(1);
    for i in 0..32 {
        let mut texture = Texture::new("sampler", 1, 1, vec![0; 4]);
        let r = p.load_texture_2d_rgba(&mut texture, 100 + i);
        assert!(r.is_ok());
        assert_eq!(texture.unit(), i);
    }
    assert_eq!(p.texture_count, 32);

    let mut one_too_many = Texture::new("sampler", 1, 1, vec![0; 4]);
    assert_eq!(
        p.load_texture_2d_rgba(&mut one_too_many, 200),
        Err(EngineError::TexturePoolExhausted)
    );
    assert!(!one_too_many.is_loaded());
    assert_eq!(p.texture_count, 32);
}
