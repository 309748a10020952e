use vstd::prelude::*;
use vstd::string::StringExecFns;

use crate::result::AftmanError;
use crate::storage::lines::line_is_valid;
use crate::storage::lines::parse_lines;
use crate::storage::lines::lines_to_text;
use crate::storage::lines::render_lines;
use crate::storage::lines::valid_line;
use crate::storage::lines::well_formed_lines;
use crate::util::str_eq;
use crate::util::FileReadOutcome;

verus! {

/// The file name of the install cache under the home root.
pub const INSTALL_FILE_NAME: &'static str = "installed.txt";

/// The set of (tool spec, installed version) records proving a tool is
/// already on disk, persisted as one record per line.
pub struct InstallCache {
    records: Vec<String>,
}

impl View for InstallCache {
    type V = Seq<Seq<char>>;

    closed spec fn view(&self) -> Seq<Seq<char>> {
        self.records.deep_view()
    }
}

impl InstallCache {
    /// Every stored record is a valid line of the cache file.
    pub open spec fn wf(&self) -> bool {
        forall|i: int| 0 <= i < self@.len() ==> valid_line(#[trigger] self@[i])
    }

    /// An empty cache, as a missing file denotes.
    pub fn new() -> (r: InstallCache)
        ensures
            r@ == Seq::<Seq<char>>::empty(),
            r.wf(),
    {
        let records: Vec<String> = Vec::new();
        proof {
            assert(records.deep_view() =~= Seq::<Seq<char>>::empty());
        }
        InstallCache { records }
    }

    /// The decision step of `load`: classify the outcome of reading the
    /// cache file (whose path is `path`). A missing file denotes the empty
    /// cache; malformed contents are a `Parse` error, any other read
    /// failure an `Io` error.
    pub fn from_read_outcome(path: &str, outcome: FileReadOutcome) -> (r: Result<
        InstallCache,
        AftmanError,
    >)
        ensures
            match outcome {
                FileReadOutcome::Found(t) => {
                    &&& (r is Ok <==> well_formed_lines(t@))
                    &&& (r matches Ok(c) ==> c.wf() && render_lines(c@) == t@)
                    &&& (r matches Err(e) ==> e matches AftmanError::Parse(p, _) && p@ == path@)
                },
                FileReadOutcome::Missing => r matches Ok(c) && c@ == Seq::<Seq<char>>::empty()
                    && c.wf(),
                FileReadOutcome::Failed(c) => r matches Err(e) && e matches AftmanError::Io(p, c2)
                    && p@ == path@ && c2@ == c@,
            },
    {
        match outcome {
            FileReadOutcome::Found(t) => match parse_lines(t.as_str()) {
                Some(records) => Ok(InstallCache { records }),
                None => Err(
                    AftmanError::Parse(
                        String::from_str(path),
                        String::from_str("malformed install cache line"),
                    ),
                ),
            },
            FileReadOutcome::Missing => Ok(InstallCache::new()),
            FileReadOutcome::Failed(cause) => Err(AftmanError::Io(String::from_str(path), cause)),
        }
    }

    /// The file text that persists this cache.
    pub fn to_file_text(&self) -> (r: String)
        ensures
            r@ == render_lines(self@),
    {
        lines_to_text(&self.records)
    }

    /// Whether the given install record is present.
    pub fn is_installed(&self, record: &str) -> (r: bool)
        ensures
            r == self@.contains(record@),
    {
        let mut i: usize = 0;
        while i < self.records.len()
            invariant
                i <= self@.len(),
                self@.len() == self.records@.len(),
                forall|j: int| 0 <= j < i ==> self@[j] != record@,
            decreases self@.len() - i,
        {
            if str_eq(self.records[i].as_str(), record) {
                proof {
                    assert(self@[i as int] == self.records@[i as int]@);
                }
                return true;
            }
            proof {
                assert(self@[i as int] == self.records@[i as int]@);
            }
            i = i + 1;
        }
        false
    }

    /// Record an installed tool; answers whether the record was newly
    /// added. A record that is not a valid line is refused, as is one
    /// already present.
    pub fn record(&mut self, record: String) -> (r: bool)
        ensures
            r == (valid_line(record@) && !old(self)@.contains(record@)),
            r ==> final(self)@ == old(self)@.push(record@),
            !r ==> final(self)@ == old(self)@,
            old(self).wf() ==> final(self).wf(),
    {
        if !line_is_valid(&record) {
            return false;
        }
        if self.is_installed(record.as_str()) {
            return false;
        }
        let ghost prev = self@;
        self.records.push(record);
        proof {
            assert(self@ =~= prev.push(record@));
        }
        true
    }

    /// The stored install records, in insertion order.
    pub fn records(&self) -> (r: &Vec<String>)
        ensures
            r.deep_view() == self@,
    {
        &self.records
    }
}

} // verus!
