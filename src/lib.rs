//! Shared helpers of the OpenGL example programs: the frame timer, the
//! movement bookkeeping of the first-person camera, the choice of a texture's
//! pixel format and the encoding of uniform names.

pub mod utils;
