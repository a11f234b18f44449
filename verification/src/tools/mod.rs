//! Building blocks shared by the rest of the library.

pub mod color;
pub mod logo;
pub mod random;
pub mod text;
