//! A small numerics and geometry toolkit built around a verified spatial
//! index: an implicit binary tree of bounding rectangles ("the heap") and a
//! bounding-volume hierarchy over 2-D objects, ordered by Morton keys.

pub mod algebra;
pub mod bvh2d;
pub mod geometry;
pub mod heap;
pub mod mat2x2;
pub mod mat2x3;
pub mod mat2x4;
pub mod mat3x2;
pub mod mat3x3;
pub mod mat3x4;
pub mod mat4x3;
pub mod mat4x4;
pub mod matrix;
pub mod morton;
pub mod complex;
pub mod properties;
pub mod quaternion;
pub mod rect2d;
pub mod segment2d;
pub mod shape2d;
pub mod sphere2d;
pub mod vec2d;
pub mod vec3d;
pub mod vec4d;
pub mod vectors;
