pub mod context;
pub mod gl_buffer;
pub mod shader;
