//! The interpreters that run a project's scripts, and the statements of
//! their languages.

pub mod code;
pub mod interpreter;
pub mod token_ext;

pub use code::Code;
pub use code::PythonCode;
pub use interpreter::Interpreter;
pub use interpreter::PythonEngine;
pub use token_ext::TokenExt;
