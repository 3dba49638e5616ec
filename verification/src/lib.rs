pub mod syntax;
pub mod type_sitter;
pub mod util;
