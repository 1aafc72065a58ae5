//! What the commands of the program do with a repository.
pub mod clean;
pub mod list;

pub use clean::clean;
pub use list::list;
