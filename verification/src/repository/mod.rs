pub mod project_repo;
pub mod version_repo;
