use vstd::prelude::*;
use vstd::string::StrSliceExecFns;

use crate::result::AftmanError;
use crate::storage::install::InstallCache;
use crate::storage::lines::valid_line;
use crate::storage::tool_storage::ToolStorage;
use crate::storage::trust::TrustCache;
use crate::util::join_path;

verus! {

/// The environment variable that overrides the home root.
pub const ROOT_ENV_VAR_NAME: &'static str = "AFTMAN_ROOT";

/// The directory name joined under the user's home directory when no
/// override is set.
pub const HOME_DIR_NAME: &'static str = ".aftman";

/// Relies on `dirs::home_dir`: the platform's home directory, if any. The
/// answer depends on the environment, so nothing is promised of it; a path
/// that is not valid UTF-8 is treated as absent.
#[verifier::external_body]
fn system_home_dir() -> (r: Option<String>)
{
    match dirs::home_dir() {
        Some(p) => match p.to_str() {
            Some(s) => Some(s.to_string()),
            None => None,
        },
        None => None,
    }
}

/// The root path used when no override is set: `<home>/.aftman`.
pub fn default_root(home: &str) -> (r: String)
    ensures
        r@ == home@ + "/"@ + HOME_DIR_NAME@,
{
    join_path(home, HOME_DIR_NAME)
}

/// Whether a non-empty root override is present.
pub open spec fn override_set(root_override: Option<String>) -> bool {
    root_override matches Some(o) && o@.len() > 0
}

/// Whether a path is the default root under some home directory.
pub open spec fn is_default_root(p: Seq<char>, home: Seq<char>) -> bool {
    p == home + "/"@ + HOME_DIR_NAME@
}

/// The decision step of root resolution, over the override value and the
/// platform home directory as plain values: a non-empty override is used
/// verbatim; otherwise the home directory joined with `.aftman`; with
/// neither, resolution fails with `HomeNotFound`. An empty override counts
/// as unset.
pub fn resolve_root_with_home(root_override: Option<String>, home: Option<String>) -> (r: Result<
    String,
    AftmanError,
>)
    ensures
        override_set(root_override) ==> (root_override matches Some(o) && (r matches Ok(p) && p@
            == o@)),
        !override_set(root_override) ==> match home {
            Some(h) => r matches Ok(p) && is_default_root(p@, h@),
            None => r matches Err(e) && e is HomeNotFound,
        },
{
    match root_override {
        Some(o) => {
            if o.as_str().unicode_len() > 0 {
                Ok(o)
            } else {
                match home {
                    Some(h) => Ok(default_root(h.as_str())),
                    None => Err(AftmanError::HomeNotFound),
                }
            }
        },
        None => {
            match home {
                Some(h) => Ok(default_root(h.as_str())),
                None => Err(AftmanError::HomeNotFound),
            }
        },
    }
}

/// Resolve the home root from the override value, consulting the platform's
/// home directory when the override is absent or empty. Whatever the
/// platform answers, a success is the override verbatim or the default root
/// under some home directory, and a failure is exactly `HomeNotFound`.
pub fn resolve_root(root_override: Option<String>) -> (r: Result<String, AftmanError>)
    ensures
        override_set(root_override) ==> (root_override matches Some(o) && (r matches Ok(p) && p@
            == o@)),
        r matches Err(e) ==> e is HomeNotFound && !override_set(root_override),
        r matches Ok(p) ==> ((root_override matches Some(o) && o@ == p@) || exists|h: Seq<char>|
            #[trigger] is_default_root(p@, h)),
{
    let home = system_home_dir();
    let ghost home_view = home;
    let r = resolve_root_with_home(root_override, home);
    proof {
        if r is Ok && !override_set(root_override) {
            assert(home_view matches Some(h) && is_default_root(r->Ok_0@, h@));
        }
    }
    r
}

/// The spec-level state of a home coordinator.
pub ghost struct HomeView {
    pub path: Seq<char>,
    pub did_save: bool,
    pub trust_cache: Seq<Seq<char>>,
    pub install_cache: Seq<Seq<char>>,
    pub tool_storage: Seq<char>,
}

/// The home directory coordinator: the single entry point to the home state
/// for the rest of the program. It owns the root path, the three loaded
/// sub-stores, and the save-state flag that records whether a persist
/// completed since loading.
pub struct Home {
    path: String,
    did_save: bool,
    trust_cache: TrustCache,
    install_cache: InstallCache,
    tool_storage: ToolStorage,
}

impl View for Home {
    type V = HomeView;

    closed spec fn view(&self) -> HomeView {
        HomeView {
            path: self.path@,
            did_save: self.did_save,
            trust_cache: self.trust_cache@,
            install_cache: self.install_cache@,
            tool_storage: self.tool_storage@,
        }
    }
}

/// Whether releasing a handle to the coordinator owes the loud
/// drop-without-save diagnostic: only the release of the last handle, and
/// only when no save completed.
pub open spec fn warns_on_drop(h: Home, is_last_handle: bool) -> bool {
    is_last_handle && !h@.did_save
}

impl Home {
    /// The join step of `load_from_path`: the three sub-stores are loaded
    /// concurrently, and the coordinator exists exactly when all three
    /// loads succeeded; otherwise the first failure, in the fixed order
    /// trust cache, install cache, tool storage, is the result and all
    /// partial state is discarded. A fresh coordinator has never saved.
    pub fn assemble(
        path: String,
        trust_cache: Result<TrustCache, AftmanError>,
        install_cache: Result<InstallCache, AftmanError>,
        tool_storage: Result<ToolStorage, AftmanError>,
    ) -> (r: Result<Home, AftmanError>)
        ensures
            (r is Ok <==> trust_cache is Ok && install_cache is Ok && tool_storage is Ok),
            r matches Ok(h) ==> (trust_cache matches Ok(tc) && install_cache matches Ok(ic)
                && tool_storage matches Ok(ts) && h@ == (HomeView {
                path: path@,
                did_save: false,
                trust_cache: tc@,
                install_cache: ic@,
                tool_storage: ts@,
            })),
            r matches Err(e) ==> match trust_cache {
                Err(te) => e == te,
                Ok(_) => match install_cache {
                    Err(ie) => e == ie,
                    Ok(_) => (tool_storage matches Err(se) && e == se),
                },
            },
    {
        match trust_cache {
            Err(e) => Err(e),
            Ok(trust_cache) => match install_cache {
                Err(e) => Err(e),
                Ok(install_cache) => match tool_storage {
                    Err(e) => Err(e),
                    Ok(tool_storage) => Ok(
                        Home { path, did_save: false, trust_cache, install_cache, tool_storage },
                    ),
                },
            },
        }
    }

    /// The root path of this home.
    pub fn path(&self) -> (r: &str)
        ensures
            r@ == self@.path,
    {
        self.path.as_str()
    }

    /// The loaded trust cache.
    pub fn trust_cache(&self) -> (r: &TrustCache)
        ensures
            r@ == self@.trust_cache,
    {
        &self.trust_cache
    }

    /// The loaded install cache.
    pub fn install_cache(&self) -> (r: &InstallCache)
        ensures
            r@ == self@.install_cache,
    {
        &self.install_cache
    }

    /// The tool storage index.
    pub fn tool_storage(&self) -> (r: &ToolStorage)
        ensures
            r@ == self@.tool_storage,
    {
        &self.tool_storage
    }

    /// Authorize a tool spec in the trust cache; answers whether it was
    /// newly added. Mutations are routed through the coordinator, which
    /// owns the sub-stores.
    pub fn trust_tool(&mut self, tool: String) -> (r: bool)
        ensures
            r ==> final(self)@ == (HomeView {
                trust_cache: old(self)@.trust_cache.push(tool@),
                ..old(self)@
            }),
            !r ==> final(self)@ == old(self)@,
            r == (valid_line(tool@) && !old(self)@.trust_cache.contains(
                tool@,
            )),
    {
        self.trust_cache.add(tool)
    }

    /// Record an installed tool in the install cache; answers whether the
    /// record was newly added.
    pub fn record_install(&mut self, record: String) -> (r: bool)
        ensures
            r ==> final(self)@ == (HomeView {
                install_cache: old(self)@.install_cache.push(record@),
                ..old(self)@
            }),
            !r ==> final(self)@ == old(self)@,
            r == (valid_line(record@)
                && !old(self)@.install_cache.contains(record@)),
    {
        self.install_cache.record(record)
    }

    /// The commit step of `save`: record that the trust and install caches
    /// were durably persisted. The I/O layer calls this only after both
    /// concurrent writes succeeded; a failed or cancelled save leaves the
    /// flag untouched, so the drop warning still fires.
    pub fn mark_saved(&mut self)
        ensures
            final(self)@ == (HomeView { did_save: true, ..old(self)@ }),
    {
        self.did_save = true;
    }

    /// Whether a save completed since this coordinator was loaded.
    pub fn did_save(&self) -> (r: bool)
        ensures
            r == self@.did_save,
    {
        self.did_save
    }

    /// Whether releasing a handle owes the drop-without-save diagnostic.
    /// The diagnostic never blocks, performs no I/O and never fails; the
    /// I/O layer emits it through the logging sink at error severity.
    pub fn should_warn_on_drop(&self, is_last_handle: bool) -> (r: bool)
        ensures
            r == warns_on_drop(*self, is_last_handle),
    {
        is_last_handle && !self.did_save
    }
}

/// Law: after a successful save, the drop warning is owed on no handle
/// release, last or not.
pub proof fn lemma_no_warning_after_save(h: Home, is_last_handle: bool)
    requires
        h@.did_save,
    ensures
        !warns_on_drop(h, is_last_handle),
{
}

/// Law: when no save ever completed, releasing the last handle owes the
/// warning, and releasing any earlier handle does not — so exactly one
/// warning is emitted per coordinator.
pub proof fn lemma_warning_without_save(h: Home)
    requires
        !h@.did_save,
    ensures
        warns_on_drop(h, true),
        !warns_on_drop(h, false),
{
}

} // verus!
