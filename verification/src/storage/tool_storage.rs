use vstd::prelude::*;

use crate::util::join_path;

verus! {

/// The directory name of the tool storage under the home root.
pub const TOOL_STORAGE_DIR_NAME: &'static str = "tool-storage";

/// The directory-backed index from installed (tool spec, version) pairs to
/// resolved binaries. Its entries live eagerly on disk, written by its own
/// mutators; in memory it only carries the directory it works under.
pub struct ToolStorage {
    dir: String,
}

impl View for ToolStorage {
    type V = Seq<char>;

    closed spec fn view(&self) -> Seq<char> {
        self.dir@
    }
}

impl ToolStorage {
    /// A storage index working under the given home root. The I/O layer is
    /// responsible for creating the directory itself.
    pub fn new(root: &str) -> (r: ToolStorage)
        ensures
            r@ == root@ + "/"@ + TOOL_STORAGE_DIR_NAME@,
    {
        ToolStorage { dir: join_path(root, TOOL_STORAGE_DIR_NAME) }
    }

    /// The directory all stored tools live under.
    pub fn dir(&self) -> (r: &str)
        ensures
            r@ == self@,
    {
        self.dir.as_str()
    }

    /// The directory that holds every version of one tool, grouped by the
    /// tool's spec.
    pub fn tool_dir(&self, tool: &str) -> (r: String)
        ensures
            r@ == self@ + "/"@ + tool@,
    {
        join_path(self.dir.as_str(), tool)
    }
}

} // verus!
