use vstd::prelude::*;
use vstd::string::StringExecFns;

use crate::result::AftmanError;
use crate::storage::lines::line_is_valid;
use crate::storage::lines::parse_lines;
use crate::storage::lines::lines_to_text;
use crate::storage::lines::render_lines;
use crate::storage::lines::valid_line;
use crate::storage::lines::well_formed_lines;
use crate::util::str_eq;
use crate::util::FileReadOutcome;

verus! {

/// The file name of the trust cache under the home root.
pub const TRUST_FILE_NAME: &'static str = "trusted.txt";

/// The set of tool specs that the user has explicitly authorized to run
/// without a prompt, persisted as one spec per line.
pub struct TrustCache {
    tools: Vec<String>,
}

impl View for TrustCache {
    type V = Seq<Seq<char>>;

    closed spec fn view(&self) -> Seq<Seq<char>> {
        self.tools.deep_view()
    }
}

impl TrustCache {
    /// Every stored tool spec is a valid line of the cache file.
    pub open spec fn wf(&self) -> bool {
        forall|i: int| 0 <= i < self@.len() ==> valid_line(#[trigger] self@[i])
    }

    /// An empty cache, as a missing file denotes.
    pub fn new() -> (r: TrustCache)
        ensures
            r@ == Seq::<Seq<char>>::empty(),
            r.wf(),
    {
        let tools: Vec<String> = Vec::new();
        proof {
            assert(tools.deep_view() =~= Seq::<Seq<char>>::empty());
        }
        TrustCache { tools }
    }

    /// The decision step of `load`: classify the outcome of reading the
    /// cache file (whose path is `path`). A missing file denotes the empty
    /// cache; malformed contents are a `Parse` error, any other read
    /// failure an `Io` error.
    pub fn from_read_outcome(path: &str, outcome: FileReadOutcome) -> (r: Result<
        TrustCache,
        AftmanError,
    >)
        ensures
            match outcome {
                FileReadOutcome::Found(t) => {
                    &&& (r is Ok <==> well_formed_lines(t@))
                    &&& (r matches Ok(tc) ==> tc.wf() && render_lines(tc@) == t@)
                    &&& (r matches Err(e) ==> e matches AftmanError::Parse(p, _) && p@ == path@)
                },
                FileReadOutcome::Missing => r matches Ok(tc) && tc@ == Seq::<Seq<char>>::empty()
                    && tc.wf(),
                FileReadOutcome::Failed(c) => r matches Err(e) && e matches AftmanError::Io(p, c2)
                    && p@ == path@ && c2@ == c@,
            },
    {
        match outcome {
            FileReadOutcome::Found(t) => match parse_lines(t.as_str()) {
                Some(tools) => Ok(TrustCache { tools }),
                None => Err(
                    AftmanError::Parse(
                        String::from_str(path),
                        String::from_str("malformed trust cache line"),
                    ),
                ),
            },
            FileReadOutcome::Missing => Ok(TrustCache::new()),
            FileReadOutcome::Failed(cause) => Err(AftmanError::Io(String::from_str(path), cause)),
        }
    }

    /// The file text that persists this cache.
    pub fn to_file_text(&self) -> (r: String)
        ensures
            r@ == render_lines(self@),
    {
        lines_to_text(&self.tools)
    }

    /// Whether the given tool spec is trusted.
    pub fn is_trusted(&self, tool: &str) -> (r: bool)
        ensures
            r == self@.contains(tool@),
    {
        let mut i: usize = 0;
        while i < self.tools.len()
            invariant
                i <= self@.len(),
                self@.len() == self.tools@.len(),
                forall|j: int| 0 <= j < i ==> self@[j] != tool@,
            decreases self@.len() - i,
        {
            if str_eq(self.tools[i].as_str(), tool) {
                proof {
                    assert(self@[i as int] == self.tools@[i as int]@);
                }
                return true;
            }
            proof {
                assert(self@[i as int] == self.tools@[i as int]@);
            }
            i = i + 1;
        }
        false
    }

    /// Authorize a tool spec; answers whether it was newly added. A spec
    /// that is not a valid line (empty, or holding a newline) is refused,
    /// as is one already present.
    pub fn add(&mut self, tool: String) -> (r: bool)
        ensures
            r == (valid_line(tool@) && !old(self)@.contains(tool@)),
            r ==> final(self)@ == old(self)@.push(tool@),
            !r ==> final(self)@ == old(self)@,
            old(self).wf() ==> final(self).wf(),
    {
        if !line_is_valid(&tool) {
            return false;
        }
        if self.is_trusted(tool.as_str()) {
            return false;
        }
        let ghost prev = self@;
        self.tools.push(tool);
        proof {
            assert(self@ =~= prev.push(tool@));
        }
        true
    }

    /// The stored tool specs, in insertion order.
    pub fn tools(&self) -> (r: &Vec<String>)
        ensures
            r.deep_view() == self@,
    {
        &self.tools
    }
}

} // verus!
