//! An exactly verified model of an instanced, shadow-mapped rendering
//! pipeline: a camera with a perspective or orthogonal projector, a grid of
//! animated cube instances sharing one instance buffer, and a two-pass frame
//! orchestrator (shadow depth pass, then an MSAA-resolved color pass split
//! over two draw pipelines).
//!
//! All scalars live on an exact fixed-point grid (see [`fixed`]); the
//! floating-point work that cannot be verified — trigonometric evaluation,
//! look-at and frustum matrices, and the GPU calls themselves — is done by
//! the embedding program and handed in as plain values.

pub mod camera;
pub mod fixed;
pub mod graphics;
pub mod instance;
pub mod mat;
pub mod vertex;
