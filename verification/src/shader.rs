//! Shader stages, linked programs, and their per-program state: the
//! uniform-location cache and the fixed pool of texture units.
//!
//! The driver compiles and links; this module owns every decision around
//! those calls. A stage or program object id, a compile or link status and
//! a queried uniform location come back from the shell as plain values, and
//! the contracts here say exactly what the engine concludes from each.

use vstd::prelude::*;

use crate::commands::{uniform_store_after, GlCommand, TextureWrapAxis, UniformValue};
use crate::error::EngineError;

verus! {

/// The driver's code for a vertex stage.
pub const GL_VERTEX_SHADER: u32 = 0x8B31;
/// The driver's code for a fragment stage.
pub const GL_FRAGMENT_SHADER: u32 = 0x8B30;

/// Fixed size of the texture-unit pool owned by one program.
pub const OPENGL_MAXIMUM_TEXTURES_PER_SHADER_PROGRAM: u32 = 32;

/// The location value the driver reports for a uniform name that no active
/// uniform of the linked program carries.
pub const UNIFORM_NOT_FOUND: i32 = -1;

/// Kind of one shader stage.
#[derive(Clone, Copy, Debug, PartialEq, Eq, Structural)]
pub enum ShaderType {
    VERTEX,
    FRAGMENT,
}

impl ShaderType {
    /// The driver enum code of this stage kind.
    pub open spec fn spec_gl_enum(self) -> u32 {
        match self {
            ShaderType::VERTEX => GL_VERTEX_SHADER,
            ShaderType::FRAGMENT => GL_FRAGMENT_SHADER,
        }
    }

    /// Driver enum code of this stage kind.
    pub fn to_gl(&self) -> (e: u32)
        ensures
            e == self.spec_gl_enum(),
    {
        match self {
            ShaderType::VERTEX => GL_VERTEX_SHADER,
            ShaderType::FRAGMENT => GL_FRAGMENT_SHADER,
        }
    }
}

/// One successfully compiled shader stage.
#[derive(Clone, Copy, Debug, PartialEq, Eq, Structural)]
pub struct Shader {
    /// The kind of this stage.
    pub shader_type: ShaderType,
    /// The driver-side shader object id.
    pub opengl_id: u32,
}

/// Holds when `c` submits exactly `source` as the text of `shader`.
pub open spec fn cmd_is_shader_source(c: GlCommand, shader: u32, source: Seq<char>) -> bool {
    match c {
        GlCommand::ShaderSource { shader: sh, source: src } => sh == shader && src@ == source,
        _ => false,
    }
}

impl Shader {
    /// The commands that submit `source` to shader object `shader_id` and
    /// compile it. The shell issues them, then reads the compile status
    /// back.
    pub fn compile_commands(shader_id: u32, source: &str) -> (cmds: Vec<GlCommand>)
        ensures
            cmds@.len() == 2,
            cmd_is_shader_source(cmds@[0], shader_id, source@),
            cmds@[1] == (GlCommand::CompileShader { shader: shader_id }),
    {
        let mut cmds: Vec<GlCommand> = Vec::new();
        cmds.push(GlCommand::ShaderSource { shader: shader_id, source: source.to_owned() });
        cmds.push(GlCommand::CompileShader { shader: shader_id });
        cmds
    }

    /// The stage, decided from the driver's compile status: a compiled
    /// stage exactly when the driver reported success, and otherwise the
    /// compile failure with the driver's log. A stage that failed to
    /// compile never exists as a value.
    pub fn new(shader_type: ShaderType, shader_id: u32, compile_ok: bool, log: String) -> (r:
        Result<Shader, EngineError>)
        ensures
            compile_ok ==> r == Ok::<Shader, EngineError>(
                Shader { shader_type, opengl_id: shader_id },
            ),
            !compile_ok ==> r == Err::<Shader, EngineError>(
                EngineError::ShaderCompileFailed { log },
            ),
    {
        if compile_ok {
            Ok(Shader { shader_type, opengl_id: shader_id })
        } else {
            Err(EngineError::ShaderCompileFailed { log })
        }
    }
}

/// One GPU image resource, keyed to a uniform name. It starts unloaded;
/// loading it through a program uploads the pixels and permanently assigns
/// one of the program's texture units.
pub struct Texture<'a> {
    opengl_id: u32,
    texture_id: u32,
    is_loaded: bool,
    name: &'a str,
    width: u32,
    height: u32,
    texture_data: Vec<u8>,
}

impl<'a> Texture<'a> {
    /// The driver-side texture object id, once loaded.
    pub closed spec fn spec_object_id(&self) -> u32 {
        self.opengl_id
    }

    /// The texture unit assigned at load time.
    pub closed spec fn spec_unit(&self) -> u32 {
        self.texture_id
    }

    /// Whether the texture has been uploaded and given a unit.
    pub closed spec fn spec_is_loaded(&self) -> bool {
        self.is_loaded
    }

    /// The uniform name the texture binds to.
    pub closed spec fn spec_name(&self) -> Seq<char> {
        self.name@
    }

    /// Width in pixels.
    pub closed spec fn spec_width(&self) -> u32 {
        self.width
    }

    /// Height in pixels.
    pub closed spec fn spec_height(&self) -> u32 {
        self.height
    }

    /// The raw RGBA pixel bytes.
    pub closed spec fn spec_data(&self) -> Seq<u8> {
        self.texture_data@
    }

    /// A loaded texture always sits on a unit inside the fixed pool.
    pub open spec fn wf(&self) -> bool {
        self.spec_is_loaded() ==> self.spec_unit()
            < OPENGL_MAXIMUM_TEXTURES_PER_SHADER_PROGRAM
    }

    /// A new, unloaded texture: decoded RGBA bytes, their dimensions, and
    /// the uniform name the texture will bind to.
    pub fn new(name: &'a str, width: u32, height: u32, data: Vec<u8>) -> (t: Texture<'a>)
        ensures
            t.wf(),
            !t.spec_is_loaded(),
            t.spec_object_id() == 0,
            t.spec_unit() == 0,
            t.spec_name() == name@,
            t.spec_width() == width,
            t.spec_height() == height,
            t.spec_data() == data@,
    {
        Texture {
            opengl_id: 0,
            texture_id: 0,
            is_loaded: false,
            name,
            width,
            height,
            texture_data: data,
        }
    }

    /// The uniform name the texture binds to.
    pub fn name(&self) -> (n: &'a str)
        ensures
            n@ == self.spec_name(),
    {
        self.name
    }

    /// The texture unit assigned at load time.
    pub fn unit(&self) -> (u: u32)
        ensures
            u == self.spec_unit(),
    {
        self.texture_id
    }

    /// Whether the texture has been uploaded and given a unit.
    pub fn is_loaded(&self) -> (b: bool)
        ensures
            b == self.spec_is_loaded(),
    {
        self.is_loaded
    }
}

/// What a uniform setter decided.
#[derive(Debug, PartialEq, Eq)]
pub enum UniformSet {
    /// The name resolved to an active location: issue this write.
    Apply(GlCommand),
    /// The name is cached as absent from the compiled program: a silent
    /// no-op, by design not an error.
    Absent,
    /// The name is not in the cache yet: the shell must query the driver
    /// for it, record the answer, and set again.
    Unresolved,
}

/// The commands a setter outcome asks the shell to issue: one write when a
/// location was resolved, none otherwise.
pub open spec fn uniform_set_commands(o: UniformSet) -> Seq<GlCommand> {
    match o {
        UniformSet::Apply(c) => seq![c],
        UniformSet::Absent => Seq::empty(),
        UniformSet::Unresolved => Seq::empty(),
    }
}

/// Location cached for `name` in an association list, scanning from the
/// front: `None` when the name was never resolved, `Some(location)` once it
/// was — the not-found sentinel included.
pub open spec fn spec_cache_lookup(entries: Seq<(String, i32)>, name: Seq<char>) -> Option<i32>
    decreases entries.len(),
{
    if entries.len() == 0 {
        Option::None
    } else if entries[0].0@ == name {
        Option::Some(entries[0].1)
    } else {
        spec_cache_lookup(entries.drop_first(), name)
    }
}

/// Appending an entry for a new key leaves every cached name as it was and
/// resolves exactly that key afterwards.
proof fn lemma_cache_lookup_push(entries: Seq<(String, i32)>, key: String, loc: i32, name: Seq<char>)
    ensures
        spec_cache_lookup(entries.push((key, loc)), name) == (
        if spec_cache_lookup(entries, name) is Some {
            spec_cache_lookup(entries, name)
        } else if key@ == name {
            Option::Some(loc)
        } else {
            Option::<i32>::None
        }),
    decreases entries.len(),
{
    let pushed = entries.push((key, loc));
    if entries.len() == 0 {
        assert(pushed[0] == (key, loc));
        assert(pushed.drop_first() =~= Seq::<(String, i32)>::empty());
    } else {
        assert(pushed[0] == entries[0]);
        assert(pushed.drop_first() =~= entries.drop_first().push((key, loc)));
        lemma_cache_lookup_push(entries.drop_first(), key, loc, name);
    }
}

/// A linked, executable pipeline program: its driver-side id, the count of
/// texture units already handed out, and the uniform-location cache.
pub struct ShaderProgram {
    /// The driver-side program object id.
    pub opengl_id: u32,
    /// How many texture units of the fixed pool are taken.
    pub texture_count: u32,
    uniform_locations: Vec<(String, i32)>,
}

impl ShaderProgram {
    /// Location cached for `name`: `None` when never resolved,
    /// `Some(location)` once resolved — the not-found sentinel included.
    pub closed spec fn spec_uniform_lookup(&self, name: Seq<char>) -> Option<i32> {
        spec_cache_lookup(self.uniform_locations@, name)
    }

    /// The driver-side program object id.
    pub closed spec fn spec_opengl_id(&self) -> u32 {
        self.opengl_id
    }

    /// How many texture units of the fixed pool are taken.
    pub closed spec fn spec_texture_count(&self) -> u32 {
        self.texture_count
    }

    /// The texture-unit counter never leaves the fixed pool.
    pub open spec fn wf(&self) -> bool {
        self.spec_texture_count() <= OPENGL_MAXIMUM_TEXTURES_PER_SHADER_PROGRAM
    }

    /// The commands that attach every compiled stage to program object
    /// `program_id`, link it, and then detach each stage again — ownership
    /// of the stage objects stays with the caller.
    pub fn link_plan(program_id: u32, shaders: &Vec<Shader>) -> (cmds: Vec<GlCommand>)
        ensures
            cmds@.len() == 2 * shaders@.len() + 1,
            forall|k: int|
                0 <= k < shaders@.len() ==> cmds@[k] == (GlCommand::AttachShader {
                    program: program_id,
                    shader: (#[trigger] shaders@[k]).opengl_id,
                }),
            cmds@[shaders@.len() as int] == (GlCommand::LinkProgram { program: program_id }),
            forall|k: int|
                0 <= k < shaders@.len() ==> cmds@[shaders@.len() + 1 + k]
                    == (GlCommand::DetachShader {
                    program: program_id,
                    shader: (#[trigger] shaders@[k]).opengl_id,
                }),
    {
        let n: usize = shaders.len();
        let mut cmds: Vec<GlCommand> = Vec::new();
        let mut i: usize = 0;
        while i < n
            invariant
                i <= n,
                n == shaders@.len(),
                cmds@.len() == i,
                forall|k: int|
                    0 <= k < i ==> cmds@[k] == (GlCommand::AttachShader {
                        program: program_id,
                        shader: (#[trigger] shaders@[k]).opengl_id,
                    }),
            decreases n - i,
        {
            cmds.push(GlCommand::AttachShader { program: program_id, shader: shaders[i].opengl_id });
            i = i + 1;
        }
        cmds.push(GlCommand::LinkProgram { program: program_id });
        let mut j: usize = 0;
        while j < n
            invariant
                j <= n,
                n == shaders@.len(),
                cmds@.len() == n + 1 + j,
                forall|k: int|
                    0 <= k < n ==> cmds@[k] == (GlCommand::AttachShader {
                        program: program_id,
                        shader: (#[trigger] shaders@[k]).opengl_id,
                    }),
                cmds@[n as int] == (GlCommand::LinkProgram { program: program_id }),
                forall|k: int|
                    0 <= k < j ==> cmds@[n + 1 + k] == (GlCommand::DetachShader {
                        program: program_id,
                        shader: (#[trigger] shaders@[k]).opengl_id,
                    }),
            decreases n - j,
        {
            cmds.push(GlCommand::DetachShader { program: program_id, shader: shaders[j].opengl_id });
            j = j + 1;
        }
        cmds
    }

    /// The program, decided from the driver's link status: a linked program
    /// with an empty uniform cache and a fresh texture pool exactly when
    /// the driver reported success. A program that failed to link never
    /// exists as a value.
    pub fn new(program_id: u32, link_ok: bool) -> (r: Result<ShaderProgram, EngineError>)
        ensures
            link_ok ==> (r matches Ok(p) && p.spec_opengl_id() == program_id && p.spec_texture_count() == 0
                && p.wf() && forall|name: Seq<char>| p.spec_uniform_lookup(name) is None),
            !link_ok ==> r == Err::<ShaderProgram, EngineError>(EngineError::ProgramLinkFailed),
    {
        if link_ok {
            Ok(ShaderProgram { opengl_id: program_id, texture_count: 0, uniform_locations: Vec::new() })
        } else {
            Err(EngineError::ProgramLinkFailed)
        }
    }

    /// Makes this the current program for draws and uniform writes.
    pub fn bind(&self) -> (c: GlCommand)
        ensures
            c == (GlCommand::UseProgram { program: self.spec_opengl_id() }),
    {
        GlCommand::UseProgram { program: self.opengl_id }
    }

    /// The cached location of `name`: `None` when the name was never
    /// resolved against the driver, `Some(location)` once it was. Asking
    /// twice on the same program state gives the same answer.
    pub fn lookup_uniform(&self, name: &str) -> (r: Option<i32>)
        ensures
            r == self.spec_uniform_lookup(name@),
    {
        let key: String = name.to_owned();
        let n: usize = self.uniform_locations.len();
        proof {
            assert(self.uniform_locations@.skip(0) =~= self.uniform_locations@);
        }
        let mut i: usize = 0;
        while i < n
            invariant
                i <= n,
                n == self.uniform_locations@.len(),
                key@ == name@,
                spec_cache_lookup(self.uniform_locations@.skip(i as int), name@)
                    == self.spec_uniform_lookup(name@),
                forall|k: int| 0 <= k < i ==> (#[trigger] self.uniform_locations@[k]).0@ != name@,
            decreases n - i,
        {
            let entry_name: &String = &self.uniform_locations[i].0;
            let matched: bool = *entry_name == key;
            proof {
                assert(self.uniform_locations@.skip(i as int)[0] == self.uniform_locations@[
                    i as int]);
                assert(self.uniform_locations@.skip(i as int).drop_first()
                    =~= self.uniform_locations@.skip(i as int + 1));
            }
            if matched {
                return Some(self.uniform_locations[i].1);
            }
            i = i + 1;
        }
        proof {
            assert(self.uniform_locations@.skip(n as int) =~= Seq::<(String, i32)>::empty());
        }
        None
    }

    /// Records the driver's answer for a name not yet in the cache. The
    /// name resolves to `location` from here on — for the lifetime of the
    /// program — and every other name keeps its prior answer.
    pub fn note_uniform_location(&mut self, name: &str, location: i32)
        requires
            old(self).spec_uniform_lookup(name@) is None,
        ensures
            final(self).spec_opengl_id() == old(self).spec_opengl_id(),
            final(self).spec_texture_count() == old(self).spec_texture_count(),
            final(self).wf() == old(self).wf(),
            final(self).spec_uniform_lookup(name@) == Option::Some(location),
            forall|other: Seq<char>|
                other != name@ ==> final(self).spec_uniform_lookup(other) == old(
                    self,
                ).spec_uniform_lookup(other),
    {
        let key: String = name.to_owned();
        proof {
            assert forall|other: Seq<char>|
                spec_cache_lookup(self.uniform_locations@.push((key, location)), other) == (
                if spec_cache_lookup(self.uniform_locations@, other) is Some {
                    spec_cache_lookup(self.uniform_locations@, other)
                } else if key@ == other {
                    Option::Some(location)
                } else {
                    Option::<i32>::None
                }) by {
                lemma_cache_lookup_push(self.uniform_locations@, key, location, other);
            }
        }
        self.uniform_locations.push((key, location));
    }

    /// Shared tail of every vector setter: decide from the cache whether to
    /// write, no-op, or ask the shell to resolve the name first.
    fn uniform_write(&self, name: &str, value: UniformValue) -> (r: UniformSet)
        ensures
            match self.spec_uniform_lookup(name@) {
                Option::None => r == UniformSet::Unresolved,
                Option::Some(loc) => if loc == UNIFORM_NOT_FOUND {
                    r == UniformSet::Absent
                } else {
                    r == UniformSet::Apply(GlCommand::SetUniform { location: loc, value })
                },
            },
    {
        match self.lookup_uniform(name) {
            None => UniformSet::Unresolved,
            Some(location) => {
                if location == UNIFORM_NOT_FOUND {
                    UniformSet::Absent
                } else {
                    UniformSet::Apply(GlCommand::SetUniform { location, value })
                }
            },
        }
    }

    /// Sets float uniform `name` from 1 to 4 components, given as IEEE-754
    /// bit patterns. A component count outside 1 to 4 is a usage error; a
    /// name the program does not use is a silent no-op.
    pub fn set_uniform_float(&self, name: &str, data: Vec<u32>) -> (r: Result<
        UniformSet,
        EngineError,
    >)
        ensures
            uniform_set_contract(
                *self,
                name@,
                UniformValue::Floats(data),
                data@.len() as usize,
                r,
            ),
    {
        let len: usize = data.len();
        if len < 1 || len > 4 {
            Err(EngineError::UniformVectorLength { len })
        } else {
            Ok(self.uniform_write(name, UniformValue::Floats(data)))
        }
    }

    /// Sets signed-integer uniform `name` from 1 to 4 components. A
    /// component count outside 1 to 4 is a usage error; a name the program
    /// does not use is a silent no-op.
    pub fn set_uniform_int(&self, name: &str, data: Vec<i32>) -> (r: Result<
        UniformSet,
        EngineError,
    >)
        ensures
            uniform_set_contract(*self, name@, UniformValue::Ints(data), data@.len() as usize, r),
    {
        let len: usize = data.len();
        if len < 1 || len > 4 {
            Err(EngineError::UniformVectorLength { len })
        } else {
            Ok(self.uniform_write(name, UniformValue::Ints(data)))
        }
    }

    /// Sets unsigned-integer uniform `name` from 1 to 4 components. A
    /// component count outside 1 to 4 is a usage error; a name the program
    /// does not use is a silent no-op.
    pub fn set_uniform_uint(&self, name: &str, data: Vec<u32>) -> (r: Result<
        UniformSet,
        EngineError,
    >)
        ensures
            uniform_set_contract(*self, name@, UniformValue::Uints(data), data@.len() as usize, r),
    {
        let len: usize = data.len();
        if len < 1 || len > 4 {
            Err(EngineError::UniformVectorLength { len })
        } else {
            Ok(self.uniform_write(name, UniformValue::Uints(data)))
        }
    }

    /// Sets 4×4 float matrix uniform `name` from 16 column-major bit
    /// patterns. A name the program does not use is a silent no-op.
    pub fn set_uniform_mat4(&self, name: &str, data: Vec<u32>) -> (r: UniformSet)
        requires
            data@.len() == 16,
        ensures
            match self.spec_uniform_lookup(name@) {
                Option::None => r == UniformSet::Unresolved,
                Option::Some(loc) => if loc == UNIFORM_NOT_FOUND {
                    r == UniformSet::Absent
                } else {
                    r == UniformSet::Apply(
                        GlCommand::SetUniform {
                            location: loc,
                            value: UniformValue::Matrix4(data),
                        },
                    )
                },
            },
    {
        self.uniform_write(name, UniformValue::Matrix4(data))
    }

    /// Sets the sampler uniform named by `texture` to the texture's
    /// assigned unit. The texture must have been loaded first.
    pub fn set_uniform_texture(&self, texture: &Texture) -> (r: Result<UniformSet, EngineError>)
        requires
            texture.wf(),
        ensures
            !texture.spec_is_loaded() ==> r == Err::<UniformSet, EngineError>(
                EngineError::TextureNotLoaded,
            ),
            texture.spec_is_loaded() ==> match self.spec_uniform_lookup(texture.spec_name()) {
                Option::None => r == Ok::<UniformSet, EngineError>(UniformSet::Unresolved),
                Option::Some(loc) => if loc == UNIFORM_NOT_FOUND {
                    r == Ok::<UniformSet, EngineError>(UniformSet::Absent)
                } else {
                    r matches Ok(UniformSet::Apply(GlCommand::SetUniform { location, value }))
                        && location == loc && (value matches UniformValue::Ints(v) && v@ =~= seq![
                        texture.spec_unit() as i32,
                    ])
                },
            },
    {
        if !texture.is_loaded() {
            return Err(EngineError::TextureNotLoaded);
        }
        let unit: u32 = texture.unit();
        let data: Vec<i32> = vec![unit as i32];
        self.set_uniform_int(texture.name(), data)
    }

    /// Whether the fixed texture-unit pool still has a free unit.
    pub fn has_free_texture_unit(&self) -> (b: bool)
        ensures
            b == (self.spec_texture_count() < OPENGL_MAXIMUM_TEXTURES_PER_SHADER_PROGRAM),
    {
        self.texture_count < OPENGL_MAXIMUM_TEXTURES_PER_SHADER_PROGRAM
    }

    /// Loads `texture` through this program: takes the next free unit of
    /// the fixed pool — pool exhaustion is refused and changes nothing —
    /// and returns the commands that select that unit, bind driver object
    /// `texture_object_id`, set repeat wrapping on both axes and linear
    /// magnification, upload the RGBA pixels, and generate mipmaps. The
    /// texture comes back loaded, permanently on the assigned unit.
    pub fn load_texture_2d_rgba(
        &mut self,
        texture: &mut Texture,
        texture_object_id: u32,
    ) -> (r: Result<Vec<GlCommand>, EngineError>)
        requires
            old(self).wf(),
        ensures
            final(self).spec_opengl_id() == old(self).spec_opengl_id(),
            final(self).wf(),
            forall|n: Seq<char>|
                final(self).spec_uniform_lookup(n) == old(self).spec_uniform_lookup(n),
            old(self).spec_texture_count() >= OPENGL_MAXIMUM_TEXTURES_PER_SHADER_PROGRAM ==> {
                &&& r == Err::<Vec<GlCommand>, EngineError>(EngineError::TexturePoolExhausted)
                &&& final(self).spec_texture_count() == old(self).spec_texture_count()
                &&& *final(texture) == *old(texture)
            },
            old(self).spec_texture_count() < OPENGL_MAXIMUM_TEXTURES_PER_SHADER_PROGRAM ==> {
                &&& final(self).spec_texture_count() == old(self).spec_texture_count() + 1
                &&& final(texture).wf()
                &&& final(texture).spec_is_loaded()
                &&& final(texture).spec_unit() == old(self).spec_texture_count()
                &&& final(texture).spec_object_id() == texture_object_id
                &&& final(texture).spec_name() == old(texture).spec_name()
                &&& final(texture).spec_width() == old(texture).spec_width()
                &&& final(texture).spec_height() == old(texture).spec_height()
                &&& final(texture).spec_data() == old(texture).spec_data()
                &&& r matches Ok(cmds) && cmds@.len() == 7
                    && cmds@[0] == (GlCommand::ActiveTexture { unit: old(self).spec_texture_count() })
                    && cmds@[1] == (GlCommand::BindTexture { texture: texture_object_id })
                    && cmds@[2] == (GlCommand::SetTextureWrapRepeat { axis: TextureWrapAxis::T })
                    && cmds@[3] == (GlCommand::SetTextureWrapRepeat { axis: TextureWrapAxis::S })
                    && cmds@[4] == (GlCommand::SetTextureMagFilterLinear)
                    && (match cmds@[5] {
                    GlCommand::TexImage2dRgba { width, height, pixels } => width == old(
                        texture,
                    ).spec_width() && height == old(texture).spec_height() && pixels@ == old(
                        texture,
                    ).spec_data(),
                    _ => false,
                }) && cmds@[6] == (GlCommand::GenerateMipmap)
            },
    {
        if self.texture_count >= OPENGL_MAXIMUM_TEXTURES_PER_SHADER_PROGRAM {
            return Err(EngineError::TexturePoolExhausted);
        }
        texture.opengl_id = texture_object_id;
        texture.texture_id = self.texture_count;
        let unit: u32 = self.texture_count;
        self.texture_count = self.texture_count + 1;

        let pixels: Vec<u8> = clone_bytes(&texture.texture_data);

        let mut cmds: Vec<GlCommand> = Vec::new();
        cmds.push(GlCommand::ActiveTexture { unit });
        cmds.push(GlCommand::BindTexture { texture: texture_object_id });
        cmds.push(GlCommand::SetTextureWrapRepeat { axis: TextureWrapAxis::T });
        cmds.push(GlCommand::SetTextureWrapRepeat { axis: TextureWrapAxis::S });
        cmds.push(GlCommand::SetTextureMagFilterLinear);
        cmds.push(GlCommand::TexImage2dRgba {
            width: texture.width,
            height: texture.height,
            pixels,
        });
        cmds.push(GlCommand::GenerateMipmap);

        texture.is_loaded = true;
        Ok(cmds)
    }

    /// Releases the driver-side program object. Consuming the program makes
    /// the release happen at most once, and only a successfully linked
    /// program ever exists to be released.
    pub fn release(self) -> (c: GlCommand)
        ensures
            c == (GlCommand::DeleteProgram { program: self.spec_opengl_id() }),
    {
        GlCommand::DeleteProgram { program: self.opengl_id }
    }
}

/// What every vector uniform setter promises: a component count outside 1
/// to 4 is refused as a usage error; otherwise the outcome follows the
/// cache — unresolved names ask for resolution, the not-found sentinel
/// no-ops, and a resolved location gets exactly one write of `value`.
pub open spec fn uniform_set_contract(
    p: ShaderProgram,
    name: Seq<char>,
    value: UniformValue,
    len: usize,
    r: Result<UniformSet, EngineError>,
) -> bool {
    if 1 <= len <= 4 {
        match p.spec_uniform_lookup(name) {
            Option::None => r == Ok::<UniformSet, EngineError>(UniformSet::Unresolved),
            Option::Some(loc) => if loc == UNIFORM_NOT_FOUND {
                r == Ok::<UniformSet, EngineError>(UniformSet::Absent)
            } else {
                r == Ok::<UniformSet, EngineError>(
                    UniformSet::Apply(GlCommand::SetUniform { location: loc, value }),
                )
            },
        }
    } else {
        r == Err::<UniformSet, EngineError>(EngineError::UniformVectorLength { len })
    }
}

/// Byte-for-byte copy of a pixel buffer.
fn clone_bytes(data: &Vec<u8>) -> (r: Vec<u8>)
    ensures
        r@ == data@,
{
    let mut r: Vec<u8> = Vec::new();
    let n: usize = data.len();
    let mut i: usize = 0;
    while i < n
        invariant
            i <= n,
            n == data@.len(),
            r@ =~= data@.take(i as int),
        decreases n - i,
    {
        r.push(data[i]);
        i = i + 1;
    }
    proof {
        assert(data@.take(n as int) =~= data@);
    }
    r
}

/// Resolving the same uniform name twice on the same linked program yields
/// the same location both times, the "not found" sentinel included: the
/// cached answer is a function of the program state and the name alone.
pub proof fn lemma_uniform_cache_idempotent(
    p: ShaderProgram,
    name: Seq<char>,
    first: Option<i32>,
    second: Option<i32>,
)
    requires
        first == p.spec_uniform_lookup(name),
        second == p.spec_uniform_lookup(name),
    ensures
        first == second,
{
}

/// Setting a uniform name the compiled program does not use is a silent
/// no-op: for a program whose cache marks `name` with the not-found
/// sentinel, every setter outcome permitted by the setters' shared
/// contract is `Absent` — not an error — and asks for no command at all,
/// so the driver's uniform store — the value of every present uniform
/// included — stays exactly as it was.
pub proof fn lemma_unused_uniform_set_is_noop(
    p: ShaderProgram,
    name: Seq<char>,
    value: UniformValue,
    len: usize,
    r: Result<UniformSet, EngineError>,
    store: Map<int, UniformValue>,
)
    requires
        p.spec_uniform_lookup(name) == Option::Some(UNIFORM_NOT_FOUND),
        1 <= len <= 4,
        uniform_set_contract(p, name, value, len, r),
    ensures
        r == Ok::<UniformSet, EngineError>(UniformSet::Absent),
        uniform_store_after(store, uniform_set_commands(UniformSet::Absent)) == store,
{
}

} // verus!
