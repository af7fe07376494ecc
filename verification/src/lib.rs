//! Terminal front-end logic: key translation, cell selection and colouring,
//! search-bar and tab decisions.

pub mod keys;
pub mod palette;
pub mod render;
pub mod search;
pub mod tabs;
