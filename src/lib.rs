//! The integer side of a stochastic path tracer's render kernel: the order in
//! which pixels are produced, the plain-text image format they are written
//! in, the depth limit that ends every light path, and the rule by which each
//! kind of material scatters or absorbs a ray.
pub mod intersect;
pub mod path;
pub mod ppm;
pub mod scan;
pub mod scatter;
