//! Build-configuration library for compiling the Lua 5.4 interpreter as a
//! static library: platform-aware selection of preprocessor defines and
//! C-standard dialects, safe rendering of string-valued defines, and
//! assembly of the set of C source files handed to the compiler driver.

pub mod builder;
pub mod conf;
pub mod driver;
pub mod escape;
pub mod platforms;
pub mod sources;
pub mod strutil;

pub use builder::{Builder, BuildError};
pub use conf::LuaConf;
