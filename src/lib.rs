//! A software rendering pipeline on fixed-point numbers: matrix builders,
//! vertex transformation, triangle rasterization with barycentric
//! interpolation, procedural fragment shading and a depth-tested framebuffer.
pub mod fixed;
pub mod vector;
pub mod trig;
pub mod matrix;
pub mod vertex;
pub mod light;
pub mod uniforms;
pub mod fragment;
pub mod shaders;
pub mod triangle;
pub mod framebuffer;
pub mod pipeline;
pub mod line;
pub mod obj;
