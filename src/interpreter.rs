pub mod env;
pub mod error;
pub mod exec;
pub mod validity;
pub mod laws;
pub mod native;
pub mod semantics;
pub mod value;
