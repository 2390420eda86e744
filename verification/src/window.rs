//! The window run loop's verified half: option validation, the per-frame
//! command plans, and the frame-pacing timer.
//!
//! The native window, its context and the event pump live in the
//! unverified shell; it builds a window from the validated [`WindowConfig`]
//! this module produces, and on every loop iteration asks the timer for
//! the frame's timing, replays the clear plan, runs the client callback
//! through [`WindowHandle`], and presents.

use vstd::prelude::*;

use crate::commands::GlCommand;
use crate::renderable::Renderable;
use crate::shader::ShaderProgram;
use crate::vertex::FLOAT_ONE_BITS;

pub mod fps_timer;

pub use fps_timer::{FPSTimer, FrameTiming};

verus! {

/// Context version the engine asks of the driver.
pub const CONTEXT_VERSION_MAJOR: u32 = 3;
/// Context version the engine asks of the driver.
pub const CONTEXT_VERSION_MINOR: u32 = 3;

/// Everything the shell needs to create the native window: the validated
/// options plus the derived context hints and swap interval.
pub struct WindowConfig {
    /// Window width in pixels.
    pub width: u32,
    /// Window height in pixels.
    pub height: u32,
    /// Window title.
    pub title: String,
    /// Prefer the primary monitor; the shell falls back to windowed mode
    /// when no monitor is available.
    pub fullscreen: bool,
    /// Whether presentation waits for vertical sync.
    pub vsync: bool,
    /// Optional frame-rate cap, in frames per second.
    pub max_fps: Option<u32>,
    /// Swap interval handed to the driver: one frame when vsync is on,
    /// zero otherwise.
    pub swap_interval: i32,
    /// Major context version to request.
    pub context_version_major: u32,
    /// Minor context version to request.
    pub context_version_minor: u32,
    /// Request the core profile.
    pub core_profile: bool,
}

/// Collects window options, each with its default: 400×300 pixels, an
/// empty title, windowed, no vsync, no frame-rate cap.
pub struct WindowBuilder {
    width: u32,
    height: u32,
    title: String,
    fullscreen: bool,
    max_fps: Option<u32>,
    vsync: bool,
}

impl WindowBuilder {
    /// Configured width in pixels.
    pub closed spec fn spec_width(&self) -> u32 {
        self.width
    }

    /// Configured height in pixels.
    pub closed spec fn spec_height(&self) -> u32 {
        self.height
    }

    /// Configured title.
    pub closed spec fn spec_title(&self) -> Seq<char> {
        self.title@
    }

    /// Configured fullscreen flag.
    pub closed spec fn spec_fullscreen(&self) -> bool {
        self.fullscreen
    }

    /// Configured frame-rate cap.
    pub closed spec fn spec_max_fps(&self) -> Option<u32> {
        self.max_fps
    }

    /// Configured vsync flag.
    pub closed spec fn spec_vsync(&self) -> bool {
        self.vsync
    }

    /// All defaults: 400×300 pixels, empty title, windowed, uncapped, no
    /// vsync.
    pub fn new() -> (b: WindowBuilder)
        ensures
            b.spec_width() == 400,
            b.spec_height() == 300,
            b.spec_title() == Seq::<char>::empty(),
            !b.spec_fullscreen(),
            b.spec_max_fps() is None,
            !b.spec_vsync(),
    {
        WindowBuilder {
            width: 400,
            height: 300,
            title: String::new(),
            fullscreen: false,
            max_fps: None,
            vsync: false,
        }
    }

    /// Sets the window size in pixels.
    pub fn size(self, width: u32, height: u32) -> (b: WindowBuilder)
        ensures
            b.spec_width() == width,
            b.spec_height() == height,
            b.spec_title() == self.spec_title(),
            b.spec_fullscreen() == self.spec_fullscreen(),
            b.spec_max_fps() == self.spec_max_fps(),
            b.spec_vsync() == self.spec_vsync(),
    {
        WindowBuilder { width, height, ..self }
    }

    /// Sets the window title.
    pub fn title(self, title: String) -> (b: WindowBuilder)
        ensures
            b.spec_title() == title@,
            b.spec_width() == self.spec_width(),
            b.spec_height() == self.spec_height(),
            b.spec_fullscreen() == self.spec_fullscreen(),
            b.spec_max_fps() == self.spec_max_fps(),
            b.spec_vsync() == self.spec_vsync(),
    {
        WindowBuilder { title, ..self }
    }

    /// Sets the fullscreen flag.
    pub fn fullscreen(self, fullscreen: bool) -> (b: WindowBuilder)
        ensures
            b.spec_fullscreen() == fullscreen,
            b.spec_width() == self.spec_width(),
            b.spec_height() == self.spec_height(),
            b.spec_title() == self.spec_title(),
            b.spec_max_fps() == self.spec_max_fps(),
            b.spec_vsync() == self.spec_vsync(),
    {
        WindowBuilder { fullscreen, ..self }
    }

    /// Caps the frame rate, in frames per second.
    pub fn max_fps(self, max_fps: u32) -> (b: WindowBuilder)
        ensures
            b.spec_max_fps() == Option::Some(max_fps),
            b.spec_width() == self.spec_width(),
            b.spec_height() == self.spec_height(),
            b.spec_title() == self.spec_title(),
            b.spec_fullscreen() == self.spec_fullscreen(),
            b.spec_vsync() == self.spec_vsync(),
    {
        WindowBuilder { max_fps: Some(max_fps), ..self }
    }

    /// Sets the vsync flag.
    pub fn vsync(self, vsync: bool) -> (b: WindowBuilder)
        ensures
            b.spec_vsync() == vsync,
            b.spec_width() == self.spec_width(),
            b.spec_height() == self.spec_height(),
            b.spec_title() == self.spec_title(),
            b.spec_fullscreen() == self.spec_fullscreen(),
            b.spec_max_fps() == self.spec_max_fps(),
    {
        WindowBuilder { vsync, ..self }
    }

    /// The validated configuration the shell creates the native window
    /// from: the collected options, the derived swap interval, and the
    /// fixed context request — version 3.3, core profile.
    pub fn create(self) -> (c: WindowConfig)
        ensures
            c.width == self.spec_width(),
            c.height == self.spec_height(),
            c.title@ == self.spec_title(),
            c.fullscreen == self.spec_fullscreen(),
            c.vsync == self.spec_vsync(),
            c.max_fps == self.spec_max_fps(),
            c.swap_interval == if self.spec_vsync() {
                1int
            } else {
                0int
            },
            c.context_version_major == CONTEXT_VERSION_MAJOR,
            c.context_version_minor == CONTEXT_VERSION_MINOR,
            c.core_profile,
    {
        let swap_interval: i32 = if self.vsync {
            1
        } else {
            0
        };
        WindowConfig {
            width: self.width,
            height: self.height,
            title: self.title,
            fullscreen: self.fullscreen,
            vsync: self.vsync,
            max_fps: self.max_fps,
            swap_interval,
            context_version_major: CONTEXT_VERSION_MAJOR,
            context_version_minor: CONTEXT_VERSION_MINOR,
            core_profile: true,
        }
    }
}

/// What the client callback receives each frame: the frame's delta time,
/// and the render helper.
pub struct WindowHandle {
    /// Inter-frame delta of this iteration, in microseconds. Zero on the
    /// first frame: guard before dividing by it.
    pub dtime: u64,
}

impl WindowHandle {
    /// The commands that draw `renderable` under `shader_program`: make
    /// the program current, then the drawable's own commands, unchanged
    /// and in order.
    pub fn render<R: Renderable>(&self, renderable: &R, shader_program: &ShaderProgram) -> (cmds:
        Vec<GlCommand>)
        ensures
            cmds@ == seq![
                GlCommand::UseProgram { program: shader_program.spec_opengl_id() },
            ] + renderable.spec_render_commands(),
    {
        let mut cmds: Vec<GlCommand> = Vec::new();
        cmds.push(shader_program.bind());
        let mut body = renderable.render();
        cmds.append(&mut body);
        cmds
    }
}

/// What the run loop does at the top of an iteration.
#[derive(Clone, Copy, Debug, PartialEq, Eq, Structural)]
pub enum FrameDecision {
    /// The close flag was observed: the loop ends and nothing more is
    /// issued.
    Stop,
    /// Run one frame: perform the one pacing sleep `timing` decided, pump
    /// events, clear, hand `timing.dtime` to the client callback, present.
    Run { timing: FrameTiming },
}

/// The run loop's decision state: its frame-pacing timer. The shell owns
/// the native loop, but every iteration's decision — whether to stop, and
/// the frame's one sleep — is made here.
pub struct RunLoop {
    timer: FPSTimer,
}

impl RunLoop {
    /// The loop's frame-pacing timer.
    pub closed spec fn spec_timer(&self) -> FPSTimer {
        self.timer
    }

    /// A fresh loop with a fresh timer for the given frame-rate cap.
    pub fn new(max_fps: Option<u32>) -> (r: RunLoop)
        requires
            max_fps matches Some(f) ==> f >= 1,
        ensures
            r.spec_timer().spec_last_time() is None,
            match max_fps {
                Option::None => r.spec_timer().spec_micros_per_frame() == 0,
                Option::Some(f) => r.spec_timer().spec_micros_per_frame() == fps_timer::MICROS_PER_SECOND as int / f as int,
            },
    {
        RunLoop { timer: FPSTimer::new(max_fps) }
    }

    /// The decision at the top of one iteration: the loop stops exactly
    /// when the close flag is up — no other condition ends it — and
    /// otherwise runs one frame with the timer's timing, which holds the
    /// iteration's one pacing-sleep decision.
    pub fn begin_frame(&mut self, close_requested: bool, now_micros: u64) -> (d: FrameDecision)
        requires
            old(self).spec_timer().spec_last_time() matches Some(l) ==> l <= now_micros,
            now_micros + old(self).spec_timer().spec_micros_per_frame() <= u64::MAX,
        ensures
            close_requested ==> d == FrameDecision::Stop && *final(self) == *old(self),
            !close_requested ==> (d matches FrameDecision::Run { timing } && ({
                let budget = old(self).spec_timer().spec_micros_per_frame() as int;
                &&& final(self).spec_timer().spec_micros_per_frame() == budget
                &&& old(self).spec_timer().spec_last_time() is None ==> timing.dtime == 0
                    && timing.sleep_micros == 0 && final(self).spec_timer().spec_last_time()
                    == Option::Some(now_micros)
                &&& old(self).spec_timer().spec_last_time() matches Some(l) ==> {
                    let measured = now_micros - l;
                    &&& measured < budget ==> timing.sleep_micros == budget - measured
                        && timing.dtime == budget
                    &&& measured >= budget ==> timing.sleep_micros == 0 && timing.dtime == measured
                    &&& timing.dtime >= budget
                    &&& final(self).spec_timer().spec_last_time() == Option::Some(
                        (now_micros + timing.sleep_micros) as u64,
                    )
                }
            })),
    {
        if close_requested {
            FrameDecision::Stop
        } else {
            FrameDecision::Run { timing: self.timer.frame(now_micros) }
        }
    }
}

/// The commands that open every frame: set a black, opaque clear color
/// and clear the color buffer.
pub fn clear_frame_commands() -> (cmds: Vec<GlCommand>)
    ensures
        cmds@ =~= seq![
            GlCommand::ClearColor {
                red_bits: 0,
                green_bits: 0,
                blue_bits: 0,
                alpha_bits: FLOAT_ONE_BITS,
            },
            GlCommand::ClearColorBuffer,
        ],
{
    let mut cmds: Vec<GlCommand> = Vec::new();
    cmds.push(GlCommand::ClearColor {
        red_bits: 0,
        green_bits: 0,
        blue_bits: 0,
        alpha_bits: FLOAT_ONE_BITS,
    });
    cmds.push(GlCommand::ClearColorBuffer);
    cmds
}

/// The command that resizes the viewport to a new framebuffer size, from
/// the origin.
pub fn viewport_command(width: i32, height: i32) -> (c: GlCommand)
    ensures
        c == (GlCommand::Viewport { x: 0, y: 0, width, height }),
{
    GlCommand::Viewport { x: 0, y: 0, width, height }
}

} // verus!
