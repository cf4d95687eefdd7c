//! A 3D/4D vector math library for spatial computing, with verified
//! operation contracts.
//!
//! Scalars are IEEE-754 binary32 values carried as `u32` bit patterns; the
//! rounding arithmetic itself is performed by outside IEEE-754
//! implementations behind trusted wrappers, and every vector operation is
//! verified against an exact contract over those primitives.

pub mod scalar;
pub mod vec3;
pub mod vec4;

pub use scalar::EPSILON;
pub use scalar::SPATIAL_EPSILON;
pub use vec3::Vec3;
pub use vec4::Vec4;
