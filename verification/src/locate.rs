//! Finding and accepting the rig config of this machine or checkout.
//!
//! The search is a small state machine: each step names the one file to look
//! for, and the answer to that leads to the next step.

use crate::config::{ConfigError, RigConfig, ENV_VAR};
use crate::text::{mentions, wrap};
use vstd::prelude::*;
use vstd::string::*;

verus! {

/// Where a rig config was found.
#[derive(Debug)]
pub enum Place {
    /// The file that the environment variable names.
    Env(String),
    /// The config file in the n-th ancestor of the current directory, which
    /// itself is ancestor 0.
    Ancestor(usize),
}

/// How far the search for the rig config is.
#[derive(Debug)]
pub enum Search {
    /// Look for the file that the environment variable names.
    CheckEnv(String),
    /// Look for the config file in the n-th ancestor.
    CheckAncestor(usize),
    Found(Place),
    /// No rig here: the signal to self-skip.
    NoRig,
    /// The environment variable names a file that is not there, which is a
    /// failure, not a skip.
    Dangling(String),
}

/// Why a config file that exists is unusable.
#[derive(Debug)]
pub enum LoadError {
    Parse { path: String, detail: String },
    Invalid { path: String, problem: ConfigError },
}

impl Search {
    /// The state after learning whether the file looked for is there, and
    /// whether the directory it was looked for in has a parent.
    pub open spec fn after(self, is_file: bool, has_parent: bool) -> Search {
        match self {
            Search::CheckEnv(path) => if is_file {
                Search::Found(Place::Env(path))
            } else {
                Search::Dangling(path)
            },
            Search::CheckAncestor(n) => if is_file {
                Search::Found(Place::Ancestor(n))
            } else if has_parent {
                Search::CheckAncestor((n + 1) as usize)
            } else {
                Search::NoRig
            },
            other => other,
        }
    }

    /// Takes one step of the search.
    pub fn next(self, is_file: bool, has_parent: bool) -> (r: Search)
        requires
            self matches Search::CheckAncestor(n) ==> n < usize::MAX,
        ensures
            r == self.after(is_file, has_parent),
    {
        match self {
            Search::CheckEnv(path) => if is_file {
                Search::Found(Place::Env(path))
            } else {
                Search::Dangling(path)
            },
            Search::CheckAncestor(n) => if is_file {
                Search::Found(Place::Ancestor(n))
            } else if has_parent {
                Search::CheckAncestor(n + 1)
            } else {
                Search::NoRig
            },
            other => other,
        }
    }
}

/// The text that reports an environment variable pointing nowhere.
pub open spec fn dangling_text(path: Seq<char>) -> Seq<char> {
    ENV_VAR@ + " points at "@ + path + " which does not exist"@
}

/// Reports an environment variable pointing nowhere.
pub fn dangling_message(path: &str) -> (r: String)
    ensures
        r@ == dangling_text(path@),
{
    let mut out = wrap(ENV_VAR, " points at ", path);
    out.append(" which does not exist");
    out
}

impl RigConfig {
    /// Starts the search: the environment variable, when set, decides alone;
    /// otherwise the search climbs from the current directory.
    pub fn locate(env: Option<String>) -> (r: Search)
        ensures
            r == match env {
                Some(path) => Search::CheckEnv(path),
                None => Search::CheckAncestor(0),
            },
    {
        match env {
            Some(path) => Search::CheckEnv(path),
            None => Search::CheckAncestor(0),
        }
    }

    /// Accepts the config parsed from the file at `path`, or says why it is
    /// unusable.
    pub fn load(path: String, parsed: Result<RigConfig, String>) -> (r: Result<
        RigConfig,
        LoadError,
    >)
        ensures
            match parsed {
                Err(detail) => r == Err::<RigConfig, LoadError>(
                    LoadError::Parse { path, detail },
                ),
                Ok(config) => match config.problem() {
                    Some(problem) => r == Err::<RigConfig, LoadError>(
                        LoadError::Invalid { path, problem },
                    ),
                    None => r == Ok::<RigConfig, LoadError>(config),
                },
            },
    {
        match parsed {
            Err(detail) => Err(LoadError::Parse { path, detail }),
            Ok(config) => match config.validate() {
                Err(problem) => Err(LoadError::Invalid { path, problem }),
                Ok(()) => Ok(config),
            },
        }
    }
}

impl LoadError {
    /// The text that reports the unusable file.
    pub open spec fn text(self) -> Seq<char> {
        match self {
            LoadError::Parse { path, detail } => "parsing "@ + path@ + ": "@ + detail@,
            LoadError::Invalid { path, problem } => "invalid rig config "@ + path@ + ": "@
                + problem.text(),
        }
    }

    /// Reports the unusable file.
    pub fn to_string(&self) -> (r: String)
        ensures
            r@ == self.text(),
    {
        match self {
            LoadError::Parse { path, detail } => {
                let mut out = wrap("parsing ", path.as_str(), ": ");
                out.append(detail.as_str());
                out
            },
            LoadError::Invalid { path, problem } => {
                let mut out = wrap("invalid rig config ", path.as_str(), ": ");
                out.append(problem.to_string().as_str());
                out
            },
        }
    }
}

/// The end of a search that climbs from ancestor `n`, when `hits[k]` says
/// whether the k-th ancestor holds the config file and the last one has no
/// parent.
pub open spec fn climb(hits: Seq<bool>, n: int) -> Search
    decreases hits.len() - n,
{
    if n < 0 || n >= hits.len() {
        Search::NoRig
    } else {
        match Search::CheckAncestor(n as usize).after(hits[n], n + 1 < hits.len()) {
            Search::CheckAncestor(_) => climb(hits, n + 1),
            end => end,
        }
    }
}

/// The upward search ends at the nearest directory that holds the config
/// file, and finds no rig exactly when none does.
pub proof fn search_finds_the_nearest(hits: Seq<bool>, k: int)
    requires
        0 < hits.len() <= usize::MAX,
    ensures
        (0 <= k < hits.len() && hits[k] && forall|j: int| 0 <= j < k ==> !#[trigger] hits[j])
            ==> climb(hits, 0) == Search::Found(Place::Ancestor(k as usize)),
        (forall|j: int| 0 <= j < hits.len() ==> !#[trigger] hits[j]) ==> climb(hits, 0)
            == Search::NoRig,
{
    if 0 <= k < hits.len() && hits[k] && forall|j: int| 0 <= j < k ==> !#[trigger] hits[j] {
        lemma_climb_found(hits, 0, k);
    }
    if forall|j: int| 0 <= j < hits.len() ==> !#[trigger] hits[j] {
        lemma_climb_none(hits, 0);
    }
}

proof fn lemma_climb_found(hits: Seq<bool>, n: int, k: int)
    requires
        0 <= n <= k < hits.len() <= usize::MAX,
        hits[k],
        forall|j: int| n <= j < k ==> !#[trigger] hits[j],
    ensures
        climb(hits, n) == Search::Found(Place::Ancestor(k as usize)),
    decreases k - n,
{
    if n < k {
        lemma_climb_found(hits, n + 1, k);
    }
}

proof fn lemma_climb_none(hits: Seq<bool>, n: int)
    requires
        0 <= n < hits.len() <= usize::MAX,
        forall|j: int| n <= j < hits.len() ==> !#[trigger] hits[j],
    ensures
        climb(hits, n) == Search::NoRig,
    decreases hits.len() - n,
{
    if n + 1 < hits.len() {
        lemma_climb_none(hits, n + 1);
    }
}

/// The environment decides alone: with a file named there, that file is found
/// or missing, and no directory is ever looked at; without, the search starts
/// in the current directory.
pub proof fn the_environment_decides_alone(
    env: Option<String>,
    start: Search,
    is_file: bool,
    has_parent: bool,
    r: Search,
)
    requires
        call_ensures(RigConfig::locate, (env,), start),
        call_ensures(Search::next, (start, is_file, has_parent), r),
    ensures
        env matches Some(path) ==> {
            &&& is_file ==> (r matches Search::Found(Place::Env(p)) && p@ == path@)
            &&& !is_file ==> (r matches Search::Dangling(p) && p@ == path@)
        },
        env is None ==> start == Search::CheckAncestor(0),
{
}

/// The search climbs one directory at a time: the file ends it where it is
/// found, the parent comes next where it is not, and without a parent there
/// is no rig. A search that has ended does not go on.
pub proof fn the_search_climbs(search: Search, is_file: bool, has_parent: bool, r: Search)
    requires
        call_ensures(Search::next, (search, is_file, has_parent), r),
    ensures
        search matches Search::CheckAncestor(n) ==> {
            &&& is_file ==> r == Search::Found(Place::Ancestor(n))
            &&& !is_file && has_parent && n < usize::MAX ==> (r matches Search::CheckAncestor(m)
                && m == n + 1)
            &&& !is_file && !has_parent ==> r is NoRig
        },
        search is Found || search is NoRig || search is Dangling ==> r == search,
{
}

/// A config is loaded exactly when it parses and passes validation, and then
/// as it was parsed; what stands in the way is reported with the path.
pub proof fn a_config_is_loaded_when_it_passes(
    path: String,
    parsed: Result<RigConfig, String>,
    r: Result<RigConfig, LoadError>,
    valid: Result<(), ConfigError>,
)
    requires
        call_ensures(RigConfig::load, (path, parsed), r),
        parsed matches Ok(config) ==> call_ensures(RigConfig::validate, (&config,), valid),
    ensures
        r is Ok == (parsed is Ok && valid is Ok),
        r matches Ok(config) ==> parsed == Ok::<RigConfig, String>(config),
        r matches Err(LoadError::Parse { path: p, detail }) ==> p@ == path@ && (parsed matches Err(d)
            && d@ == detail@),
        r matches Err(LoadError::Invalid { path: p, problem }) ==> p@ == path@ && parsed is Ok
            && valid == Err::<(), ConfigError>(problem),
{
}

/// What is reported of a config file names it, and says what is wrong.
pub proof fn a_load_report_names_the_file(e: LoadError, r: String, problem: String)
    requires
        call_ensures(LoadError::to_string, (&e,), r),
        e matches LoadError::Invalid { problem: p, .. } ==> call_ensures(
            ConfigError::to_string,
            (&p,),
            problem,
        ),
    ensures
        match e {
            LoadError::Parse { path, detail } => r@ == "parsing "@ + path@ + ": "@ + detail@,
            LoadError::Invalid { path, .. } => r@ == "invalid rig config "@ + path@ + ": "@
                + problem@,
        },
{
}

/// A setting that points nowhere is reported by its variable and the path.
pub proof fn a_dangling_setting_is_named(path: &str, r: String)
    requires
        call_ensures(dangling_message, (path,), r),
    ensures
        mentions(r@, path@),
        mentions(r@, "BANC_RIG"@),
{
    broadcast use crate::text::group_mentions;

}

} // verus!
