//! Drawable objects: the capability contract the frame loop renders
//! through, and the built-in shapes that implement it.

use vstd::prelude::*;

use crate::commands::GlCommand;

pub mod mesh;
pub mod rectangle;

pub use mesh::Mesh;
pub use rectangle::Rect;

verus! {

/// The one capability a drawable must offer: the commands that bind its
/// own pipeline input state and issue its draw call. The frame loop treats
/// every drawable uniformly through this method and adds no logic of its
/// own.
pub trait Renderable {
    /// The exact command sequence `render` returns, as a function of the
    /// drawable's state.
    spec fn spec_render_commands(&self) -> Seq<GlCommand>;

    /// The commands that draw this object, in issue order.
    fn render(&self) -> (cmds: Vec<GlCommand>)
        ensures
            cmds@ == self.spec_render_commands(),
    ;
}

} // verus!
