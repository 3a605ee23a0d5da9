//! The integer and boolean core of a path tracer: the per-pixel depth buffer,
//! the decisions that drive one traced path, the order in which the image is
//! produced with its PPM header, and the material flags that choose how a
//! bounce is sampled.
//!
//! The modules are public so that verified clients can name the spec
//! functions the contracts are written in and use the laws proved of them.

pub mod material;
pub mod render;
pub mod trace;
pub mod zbuffer;

pub use material::{Isotropic, Lambertian, MicrofacetReflectance, SpecularReflectance, UnitMaterial};
pub use render::{ppm_header, render_rows};
pub use trace::{trace_step, TraceAction, TraceEvent, MAX_RAY_DEPTH};
pub use zbuffer::ZBuffer;
