use vstd::prelude::*;

verus! {

/// The errors surfaced by the home-directory runtime core.
#[derive(Debug, Clone)]
pub enum AftmanError {
    /// No user home directory could be resolved and no override was set.
    HomeNotFound,
    /// A required file does not exist; holds the path.
    FileNotFound(String),
    /// Any other filesystem failure; holds the path and the cause.
    Io(String, String),
    /// File contents did not satisfy the expected grammar; holds the path
    /// and the cause. Never silently recovered, since recovering would
    /// destroy user-authored content.
    Parse(String, String),
}

/// The usual result type of the core's fallible operations.
pub type AftmanResult<T> = Result<T, AftmanError>;

} // verus!
