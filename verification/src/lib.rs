//! The dynamic value representation and type-casting engine of a markup
//! evaluator: one variant container for every runtime datum, a registration
//! and cast protocol bridging it to host types with graded outcomes, a
//! type-erasure container that keeps equality, clone and display across
//! erased types, a deterministic renderer, and the bridge that evaluates a
//! value into document output.

pub mod any;
pub mod cast;
pub mod color;
pub mod dir;
pub mod fixed;
pub mod float;
pub mod func;
pub mod geom;
pub mod markup;
pub mod syntax;
pub mod text;
pub mod value;
