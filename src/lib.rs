//! The decisions of a small OpenGL viewer, each stated and proved over plain
//! values: which way a free-fly camera moves for a movement command, which
//! command a key event asks for, which texture units a shader program holds
//! textures in, and which image format a texture file has and how its
//! decoded pixels are laid out for upload.

pub mod camera;
pub mod shader;
pub mod input;
pub mod texture;
