pub mod errors;
pub mod project;
pub mod version;
