//! What binds a shader's own resources and draws with them.

pub mod simple_shader;
