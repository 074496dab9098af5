pub mod shader;
