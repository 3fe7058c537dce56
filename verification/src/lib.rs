//! Procedural construction of a capped-cylinder polygon mesh and its
//! serialization to a plain-text geometry interchange format.
//!
//! Coordinates travel through the library as already-rendered decimal text
//! tokens: the mesh logic never inspects a coordinate's numeric value, only
//! counts and indices, so the index arithmetic, winding order and ring
//! closure can be stated and proved exactly.

pub mod builder;
pub mod mesh;
pub mod serialize;
