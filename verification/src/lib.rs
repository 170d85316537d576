//! Verified core of a small OpenGL helper library: the decisions that sit
//! between OpenGL calls, stated as contracts. The calls themselves are made
//! by the surrounding application, which performs the commands this crate
//! plans and reports back what OpenGL answered.
pub mod command;
pub mod data;
pub mod shader;
pub mod status;

pub use shader::Shader;
pub use status::get_status_and_output;
