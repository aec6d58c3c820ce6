//! A minimal 2D animation core: a renderer that owns a rotation counter and
//! the size of its drawing surface, and that turns each animation tick into a
//! deterministic list of draw commands (one full-surface clear followed by ten
//! shrinking, colour-ramped circles laid out on an elliptical orbit).
//!
//! All quantities are integers so that every step of the frame computation is
//! verified: angles are measured in hundredths of a radian, circle radii in
//! tenths of a unit, and opacity in thousandths. A host translates the
//! commands into calls on an actual drawing surface.

pub mod frame;
pub mod laws;
pub mod renderer;

pub use frame::DrawCmd;
pub use frame::Frame;
pub use renderer::WgpuRenderer;
