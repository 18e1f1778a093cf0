//! Scaffolding of a minimal CMake project: a folder name made safe for the
//! file system, the text of `CMakeLists.txt`, and a "hello world" source file.

pub mod cmake;
pub mod project;
pub mod sanitize;
pub mod text;
