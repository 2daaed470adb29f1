//! A Monte-Carlo path tracer's verified core: the work split of the framebuffer, the
//! integrator's per-vertex decisions, the material kinds, the scene's light list and the
//! generic vector types.
pub mod color;
pub mod integrator;
pub mod material;
pub mod obj;
pub mod renderer;
pub mod scene;
pub mod vector;

pub use color::hex_channels;
pub use integrator::{PathState, VertexTerms};
pub use material::MaterialType;
pub use obj::{parse_line, ObjError, ObjLine, Span};
pub use renderer::{get_xy, PixelRange, Renderer};
pub use scene::light_indices;
pub use vector::{Cross, Dot, Lerp, Mat3, Number, Vec2, Vec3};
