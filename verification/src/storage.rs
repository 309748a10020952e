pub mod home;
pub mod install;
pub mod lines;
pub mod tool_storage;
pub mod trust;
